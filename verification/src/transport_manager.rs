//! Relays protocol messages between a device and peripherals that each have a transport of their
//! own and choose the message encoding with the first byte that they send.

use crate::transport::{
    failed_send_stops, sending_up_to_error_in_parts, successful_send_is_whole, PortView,
    TransportError, TransportPort,
};
use std::marker::PhantomData;
use vstd::prelude::*;

verus! {

/// How messages are put on a transport.
#[derive(Debug, Clone, Copy, PartialEq, Eq, Structural)]
pub enum TransportMessageEncoding {
    Ascii,
    Binary,
}

/// A message protocol encoder.
///
/// The spec functions are what an encoder does, and a verified encoder defines them. Their defaults
/// are there so that an encoder can also be written in ordinary Rust. Each default is one fixed
/// unknown value: an encoder that keeps it claims to do what that value says, and nothing checks
/// the claim. What is proved of the library holds for such an encoder only as far as it is true.
pub trait TransportMessageEncoder<T>: Send + Sized {
    /// What holds of every encoder in use.
    open spec fn wf(&self) -> bool {
        true
    }

    /// The encoding in use.
    open spec fn selected(&self) -> TransportMessageEncoding {
        arbitrary()
    }

    /// The encoded form of `message`.
    open spec fn encoded(&self, message: T) -> Seq<u8> {
        arbitrary()
    }

    /// The encoder once it has encoded `message`.
    open spec fn after(&self, message: T) -> Self {
        arbitrary()
    }

    /// The encoder once it is locked into binary mode.
    open spec fn locked_binary(&self) -> Self {
        arbitrary()
    }

    /// The encoder once it was reset.
    open spec fn cleared(&self) -> Self {
        arbitrary()
    }

    /// Locks the encoder into binary mode.
    fn select_binary(&mut self)
        requires
            old(self).wf(),
        ensures
            final(self).wf(),
            *final(self) == old(self).locked_binary(),
    ;

    /// Returns the encoding currently used by this encoder.
    fn encoding(&self) -> (e: TransportMessageEncoding)
        requires
            self.wf(),
        ensures
            e == self.selected(),
    ;

    /// Encodes `message`, appending the encoded form to `out`.
    fn encode(&mut self, message: &T, out: &mut Vec<u8>)
        requires
            old(self).wf(),
        ensures
            final(self).wf(),
            *final(self) == old(self).after(*message),
            final(out)@ == old(out)@ + old(self).encoded(*message),
    ;

    /// Resets this encoder to its initial state.
    fn reset(&mut self)
        requires
            old(self).wf(),
        ensures
            final(self).wf(),
            *final(self) == old(self).cleared(),
    ;
}

/// A message protocol decoder.
///
/// The spec functions are what a decoder does, and a verified decoder defines them. Their defaults
/// are there so that a decoder can also be written in ordinary Rust. Each default is one fixed
/// unknown value: a decoder that keeps it claims to do what that value says, and nothing checks
/// the claim. What is proved of the library holds for such a decoder only as far as it is true.
pub trait TransportMessageDecoder<T>: Send + Sized {
    /// What holds of every decoder in use.
    open spec fn wf(&self) -> bool {
        true
    }

    /// The encoding that the peripheral has chosen, if it has.
    open spec fn selected(&self) -> Option<TransportMessageEncoding> {
        arbitrary()
    }

    /// The decoder once it was fed `b`.
    open spec fn after(&self, b: u8) -> Self {
        arbitrary()
    }

    /// The message that `b` completes, if it completes one.
    open spec fn decoded(&self, b: u8) -> Option<T> {
        arbitrary()
    }

    /// The decoder once it was reset.
    open spec fn cleared(&self) -> Self {
        arbitrary()
    }

    /// Returns the selected encoding.
    fn encoding(&self) -> (e: Option<TransportMessageEncoding>)
        requires
            self.wf(),
        ensures
            e == self.selected(),
    ;

    /// Feeds the byte `b` received from the transport into the decoder's state machine.
    /// Returns `Some(T)` if the state machine outputs a valid message, otherwise `None`.
    fn feed(&mut self, b: u8) -> (message: Option<T>)
        requires
            old(self).wf(),
        ensures
            final(self).wf(),
            *final(self) == old(self).after(b),
            message == old(self).decoded(b),
    ;

    /// Resets this decoder to its initial state.
    fn reset(&mut self)
        requires
            old(self).wf(),
        ensures
            final(self).wf(),
            *final(self) == old(self).cleared(),
    ;
}

/// One peripheral: its transport, its codecs, and how far its handshake has come.
pub struct TransportSlot<T, E, D> {
    pub transport: TransportPort<u8>,
    pub encoder: E,
    pub decoder: D,
    pub handshake_done: bool,
    pub last_connection_id: u64,
    pub message_type: PhantomData<T>,
}

/// A slot, seen through its transport.
#[verifier::ext_equal]
pub ghost struct SlotView<E, D> {
    pub port: PortView<u8>,
    pub encoder: E,
    pub decoder: D,
    pub handshake_done: bool,
    pub last_connection_id: u64,
}

impl<T, E, D> View for TransportSlot<T, E, D> {
    type V = SlotView<E, D>;

    open spec fn view(&self) -> SlotView<E, D> {
        SlotView {
            port: self.transport@,
            encoder: self.encoder,
            decoder: self.decoder,
            handshake_done: self.handshake_done,
            last_connection_id: self.last_connection_id,
        }
    }
}

/// The slot after `message` was sent to it, and the result. Nothing is sent before the handshake.
pub open spec fn slot_sent<T, E: TransportMessageEncoder<T>, D>(s: SlotView<E, D>, message: T) -> (
    SlotView<E, D>,
    Result<(), TransportError>,
) {
    if s.handshake_done {
        let (port, result) = s.port.sent_up_to_error(s.encoder.encoded(message));
        (SlotView { encoder: s.encoder.after(message), port, ..s }, result)
    } else {
        (s, Ok(()))
    }
}

/// The slot after `messages` were sent to it up to the first error, and the result.
pub open spec fn slot_sent_all<T, E: TransportMessageEncoder<T>, D>(
    s: SlotView<E, D>,
    messages: Seq<T>,
) -> (SlotView<E, D>, Result<(), TransportError>)
    decreases messages.len(),
{
    if messages.len() == 0 {
        (s, Ok(()))
    } else {
        let (next, result) = slot_sent::<T, E, D>(s, messages[0]);
        if result is Err {
            (next, result)
        } else {
            slot_sent_all::<T, E, D>(next, messages.skip(1))
        }
    }
}

/// Sending does not touch what has arrived.
pub proof fn sending_takes_nothing<T, E: TransportMessageEncoder<T>, D>(
    s: SlotView<E, D>,
    messages: Seq<T>,
)
    ensures
        slot_sent_all::<T, E, D>(s, messages).0.port.inbound == s.port.inbound,
    decreases messages.len(),
{
    if messages.len() > 0 {
        sending_takes_nothing::<T, E, D>(slot_sent::<T, E, D>(s, messages[0]).0, messages.skip(1));
    }
}

/// The slot once the handshake is complete: the encoder follows the peripheral's choice.
pub open spec fn handshaken<T, E: TransportMessageEncoder<T>, D: TransportMessageDecoder<T>>(
    s: SlotView<E, D>,
) -> SlotView<E, D> {
    SlotView {
        handshake_done: true,
        encoder: if s.decoder.selected() == Some(TransportMessageEncoding::Binary) {
            s.encoder.locked_binary()
        } else {
            s.encoder
        },
        ..s
    }
}

/// The slot after it has read from its transport up to the first message or error, and the result.
/// The byte that settles the encoding completes the handshake, which is answered with `state`.
pub open spec fn slot_read<T, E: TransportMessageEncoder<T>, D: TransportMessageDecoder<T>>(
    s: SlotView<E, D>,
    state: Seq<T>,
) -> (SlotView<E, D>, Result<Option<T>, TransportError>)
    decreases s.port.inbound.len(),
{
    if s.port.inbound.len() == 0 {
        (s, Ok(None))
    } else {
        let b = s.port.inbound[0];
        let message = s.decoder.decoded(b);
        let fed = SlotView { port: s.port.taken(), decoder: s.decoder.after(b), ..s };
        let (next, result) = if !fed.handshake_done && fed.decoder.selected() is Some {
            slot_sent_all::<T, E, D>(handshaken::<T, E, D>(fed), state)
        } else {
            (fed, Ok(()))
        };
        proof {
            sending_takes_nothing::<T, E, D>(handshaken::<T, E, D>(fed), state);
        }
        match result {
            Err(e) => (next, Err(e)),
            Ok(_) => if message is Some {
                (next, Ok(message))
            } else {
                slot_read::<T, E, D>(next, state)
            },
        }
    }
}

/// The slot as a poll finds it: back at its start if a new peer has taken over the transport.
pub open spec fn refreshed<T, E: TransportMessageEncoder<T>, D: TransportMessageDecoder<T>>(
    s: SlotView<E, D>,
) -> SlotView<E, D> {
    if s.port.connection_id != s.last_connection_id {
        SlotView {
            last_connection_id: s.port.connection_id,
            encoder: s.encoder.cleared(),
            decoder: s.decoder.cleared(),
            handshake_done: false,
            ..s
        }
    } else {
        s
    }
}

/// The slot after a poll, and the result.
pub open spec fn slot_polled<T, E: TransportMessageEncoder<T>, D: TransportMessageDecoder<T>>(
    s: SlotView<E, D>,
    state: Seq<T>,
) -> (SlotView<E, D>, Result<Option<T>, TransportError>) {
    slot_read::<T, E, D>(refreshed::<T, E, D>(s), state)
}

/// What an encoder makes of `messages`, one after the other.
pub open spec fn encoded_all<T, E: TransportMessageEncoder<T>>(encoder: E, messages: Seq<T>) -> Seq<
    u8,
>
    decreases messages.len(),
{
    if messages.len() == 0 {
        Seq::empty()
    } else {
        encoder.encoded(messages[0]) + encoded_all::<T, E>(
            encoder.after(messages[0]),
            messages.skip(1),
        )
    }
}

proof fn lemma_slot_sent_up_to_error<T, E: TransportMessageEncoder<T>, D>(
    s: SlotView<E, D>,
    messages: Seq<T>,
)
    requires
        s.handshake_done,
    ensures
        ({
            let (after, result) = slot_sent_all::<T, E, D>(s, messages);
            (after.port, result) == s.port.sent_up_to_error(
                encoded_all::<T, E>(s.encoder, messages),
            )
        }),
    decreases messages.len(),
{
    if messages.len() > 0 {
        sending_up_to_error_in_parts(
            s.port,
            s.encoder.encoded(messages[0]),
            encoded_all::<T, E>(s.encoder.after(messages[0]), messages.skip(1)),
        );
        lemma_slot_sent_up_to_error::<T, E, D>(
            slot_sent::<T, E, D>(s, messages[0]).0,
            messages.skip(1),
        );
    } else {
        assert(s.port.sent(Seq::empty()) =~= s.port);
    }
}

/// A peripheral that has completed its handshake is sent each message's encoding, in order, up to
/// the first byte that its transport refuses. If it refuses none, all of it has gone out, once.
/// Otherwise its error is returned: exactly the bytes before the refused one have gone out, and of
/// the others none but the refused one was handed to the transport.
pub proof fn peripheral_is_sent_messages_up_to_error<T, E: TransportMessageEncoder<T>, D>(
    s: SlotView<E, D>,
    messages: Seq<T>,
)
    requires
        s.handshake_done,
    ensures
        ({
            let (after, result) = slot_sent_all::<T, E, D>(s, messages);
            let bytes = encoded_all::<T, E>(s.encoder, messages);
            let taken = s.port.accepts(bytes.len()) as int;
            &&& taken == bytes.len() ==> {
                &&& result is Ok
                &&& after.port.outbound == s.port.outbound + bytes
                &&& after.port.refused == s.port.refused
            }
            &&& taken < bytes.len() ==> {
                &&& result == Err::<(), TransportError>(s.port.fault.unwrap())
                &&& after.port.outbound == s.port.outbound + bytes.take(taken)
                &&& after.port.refused == s.port.refused.push(bytes[taken])
            }
            &&& after.port.inbound == s.port.inbound
        }),
{
    lemma_slot_sent_up_to_error::<T, E, D>(s, messages);
    let bytes = encoded_all::<T, E>(s.encoder, messages);
    if s.port.accepts(bytes.len()) < bytes.len() {
        failed_send_stops(s.port, bytes);
    } else {
        successful_send_is_whole(s.port, bytes);
    }
}

proof fn lemma_sending_keeps_slot<T, E: TransportMessageEncoder<T>, D>(
    s: SlotView<E, D>,
    messages: Seq<T>,
)
    ensures
        ({
            let after = slot_sent_all::<T, E, D>(s, messages).0;
            &&& after.decoder == s.decoder
            &&& after.handshake_done == s.handshake_done
            &&& after.last_connection_id == s.last_connection_id
        }),
    decreases messages.len(),
{
    if messages.len() > 0 {
        lemma_sending_keeps_slot::<T, E, D>(
            slot_sent::<T, E, D>(s, messages[0]).0,
            messages.skip(1),
        );
    }
}

/// The byte with which a peripheral settles the encoding completes its handshake: it is sent the
/// state, once and in order, in the encoding that it has chosen.
pub proof fn handshake_is_answered<T, E: TransportMessageEncoder<T>, D: TransportMessageDecoder<T>>(
    s: SlotView<E, D>,
    state: Seq<T>,
)
    requires
        !s.handshake_done,
        s.port.fault is None,
        s.port.inbound.len() == 1,
        s.decoder.decoded(s.port.inbound[0]) is None,
        s.decoder.after(s.port.inbound[0]).selected() is Some,
    ensures
        ({
            let (after, result) = slot_read::<T, E, D>(s, state);
            let chosen = s.decoder.after(s.port.inbound[0]).selected();
            let encoder = if chosen == Some(TransportMessageEncoding::Binary) {
                s.encoder.locked_binary()
            } else {
                s.encoder
            };
            &&& result == Ok::<Option<T>, TransportError>(None)
            &&& after.handshake_done
            &&& after.decoder == s.decoder.after(s.port.inbound[0])
            &&& after.port.outbound == s.port.outbound + encoded_all::<T, E>(encoder, state)
            &&& after.port.inbound.len() == 0
        }),
{
    let b = s.port.inbound[0];
    let fed = SlotView { port: s.port.taken(), decoder: s.decoder.after(b), ..s };
    let ready = handshaken::<T, E, D>(fed);
    peripheral_is_sent_messages_up_to_error::<T, E, D>(ready, state);
    lemma_sending_keeps_slot::<T, E, D>(ready, state);
    reveal_with_fuel(slot_read, 2);
}

/// After its handshake a peripheral's bytes are read one at a time, oldest first, up to the first that
/// completes a message; the message is handed out and the bytes after it stay for the next poll.
pub proof fn bytes_are_read_in_order<T, E: TransportMessageEncoder<T>, D: TransportMessageDecoder<T>>(
    s: SlotView<E, D>,
    state: Seq<T>,
)
    requires
        s.handshake_done,
    ensures
        s.port.inbound.len() == 0 ==> slot_read::<T, E, D>(s, state) == (
            s,
            Ok::<Option<T>, TransportError>(None),
        ),
        s.port.inbound.len() > 0 ==> {
            let b = s.port.inbound[0];
            let fed = SlotView {
                port: PortView { inbound: s.port.inbound.skip(1), ..s.port },
                decoder: s.decoder.after(b),
                ..s
            };
            &&& s.decoder.decoded(b) matches Some(m) ==> slot_read::<T, E, D>(s, state) == (
                fed,
                Ok::<Option<T>, TransportError>(Some(m)),
            )
            &&& s.decoder.decoded(b) is None ==> slot_read::<T, E, D>(s, state) == slot_read::<
                T,
                E,
                D,
            >(fed, state)
        },
{
}

/// A peripheral that has not completed its handshake is sent nothing, and no error comes of it.
pub proof fn nothing_is_sent_before_handshake<T, E: TransportMessageEncoder<T>, D>(
    s: SlotView<E, D>,
    messages: Seq<T>,
)
    requires
        !s.handshake_done,
    ensures
        slot_sent_all::<T, E, D>(s, messages) == (s, Ok::<(), TransportError>(())),
    decreases messages.len(),
{
    if messages.len() > 0 {
        nothing_is_sent_before_handshake::<T, E, D>(s, messages.skip(1));
    }
}

/// A new peer on a transport starts over: its handshake is to be done, and nothing of what the
/// previous peer had sent is left in the codecs. As long as the peer stays, nothing is reset.
pub proof fn new_peer_starts_over<T, E: TransportMessageEncoder<T>, D: TransportMessageDecoder<T>>(
    s: SlotView<E, D>,
)
    ensures
        s.port.connection_id != s.last_connection_id ==> {
            let r = refreshed::<T, E, D>(s);
            &&& !r.handshake_done
            &&& r.encoder == s.encoder.cleared()
            &&& r.decoder == s.decoder.cleared()
            &&& r.port == s.port
        },
        s.port.connection_id == s.last_connection_id ==> refreshed::<T, E, D>(s) == s,
        refreshed::<T, E, D>(refreshed::<T, E, D>(s)) == refreshed::<T, E, D>(s),
{
}

impl<T, E: TransportMessageEncoder<T>, D: TransportMessageDecoder<T>> TransportSlot<T, E, D> {
    /// What holds of every slot: its codecs are well-formed.
    pub open spec fn wf(&self) -> bool {
        self.encoder.wf() && self.decoder.wf()
    }

    fn new(transport: TransportPort<u8>, encoder: E, decoder: D) -> (s: Self)
        requires
            encoder.wf(),
            decoder.wf(),
        ensures
            s.wf(),
            s@ == (SlotView {
                port: transport@,
                encoder,
                decoder,
                handshake_done: false,
                last_connection_id: transport@.connection_id,
            }),
    {
        let last_connection_id = transport.connection_id;
        TransportSlot {
            transport,
            encoder,
            decoder,
            handshake_done: false,
            last_connection_id,
            message_type: PhantomData,
        }
    }

    /// Resets handshake and codec state for a new peripheral session.
    fn reset(&mut self)
        requires
            old(self).wf(),
        ensures
            final(self).wf(),
            final(self)@ == (SlotView {
                encoder: old(self)@.encoder.cleared(),
                decoder: old(self)@.decoder.cleared(),
                handshake_done: false,
                ..old(self)@
            }),
    {
        self.encoder.reset();
        self.decoder.reset();
        self.handshake_done = false;
    }

    /// Sends `message` to the connected peripheral if the handshake has been completed.
    fn send(&mut self, message: &T) -> (r: Result<(), TransportError>)
        requires
            old(self).wf(),
        ensures
            final(self).wf(),
            (final(self)@, r) == slot_sent::<T, E, D>(old(self)@, *message),
    {
        if !self.handshake_done {
            return Ok(());
        }
        let mut bytes: Vec<u8> = Vec::new();
        self.encoder.encode(message, &mut bytes);
        assert(bytes@ =~= old(self).encoder.encoded(*message));
        self.transport.send_up_to_error(bytes.as_slice())
    }

    /// Sends `messages` to the connected peripheral, up to the first error.
    fn send_all(&mut self, messages: &[T]) -> (r: Result<(), TransportError>)
        requires
            old(self).wf(),
            old(self).handshake_done,
        ensures
            final(self).wf(),
            (final(self)@, r) == slot_sent_all::<T, E, D>(old(self)@, messages@),
    {
        let mut i: usize = 0;
        assert(messages@.skip(0) =~= messages@);
        while i < messages.len()
            invariant
                i <= messages@.len(),
                self.wf(),
                slot_sent_all::<T, E, D>(self@, messages@.skip(i as int)) == slot_sent_all::<
                    T,
                    E,
                    D,
                >(old(self)@, messages@),
            decreases messages@.len() - i,
        {
            let result = self.send(&messages[i]);
            assert(messages@.skip(i as int)[0] == messages@[i as int]);
            assert(messages@.skip(i as int).skip(1) =~= messages@.skip(i + 1));
            if result.is_err() {
                return result;
            }
            i += 1;
        }
        Ok(())
    }

    fn poll(&mut self, state: &[T]) -> (r: Result<Option<T>, TransportError>)
        requires
            old(self).wf(),
        ensures
            final(self).wf(),
            (final(self)@, r) == slot_polled::<T, E, D>(old(self)@, state@),
    {
        let current_id = self.transport.connection_id;
        if current_id != self.last_connection_id {
            self.last_connection_id = current_id;
            self.reset();
        }
        assert(self@ =~= refreshed::<T, E, D>(old(self)@));
        loop
            invariant
                self.wf(),
                slot_read::<T, E, D>(self@, state@) == slot_polled::<T, E, D>(old(self)@, state@),
            decreases self@.port.inbound.len(),
        {
            let ghost before = self@;
            let b = match self.transport.try_recv() {
                Some(b) => b,
                None => {
                    return Ok(None);
                },
            };
            let message = self.decoder.feed(b);
            let ghost fed = SlotView {
                port: before.port.taken(),
                decoder: before.decoder.after(b),
                ..before
            };
            assert(self@ =~= fed);
            if !self.handshake_done && self.decoder.encoding().is_some() {
                self.handshake_done = true;
                if let Some(TransportMessageEncoding::Binary) = self.decoder.encoding() {
                    self.encoder.select_binary();
                }
                assert(self@ =~= handshaken::<T, E, D>(fed));
                proof {
                    sending_takes_nothing::<T, E, D>(handshaken::<T, E, D>(fed), state@);
                }
                let result = self.send_all(state);
                if let Err(e) = result {
                    return Err(e);
                }
            }
            if message.is_some() {
                return Ok(message);
            }
        }
    }
}

/// A transport manager relays peripheral protocol messages between peripherals connected via a
/// transport each and an I/O device that accepts several peripherals at a time.
///
/// For each transport connection, the manager accepts the initial protocol handshake and provides
/// a state dump from the I/O device. Subsequently, on each call to
/// [`TransportManager::poll_transports`], it checks for a valid message from any connected
/// peripheral. Messages can be delivered to peripherals using either
/// [`TransportManager::send_to_all`] or [`TransportManager::send_all_to_all`].
pub struct TransportManager<T, E, D> {
    pub slots: Vec<TransportSlot<T, E, D>>,
}

impl<T, E, D> View for TransportManager<T, E, D> {
    type V = Seq<SlotView<E, D>>;

    open spec fn view(&self) -> Seq<SlotView<E, D>> {
        self.slots@.map_values(|s: TransportSlot<T, E, D>| s@)
    }
}

/// The slots after `message` was sent to those from `i` on, up to the first error, and the result.
pub open spec fn sent<T, E: TransportMessageEncoder<T>, D>(
    slots: Seq<SlotView<E, D>>,
    message: T,
    i: int,
) -> (Seq<SlotView<E, D>>, Result<(), TransportError>)
    decreases slots.len() - i,
{
    if i < 0 || i >= slots.len() {
        (slots, Ok(()))
    } else {
        let (slot, result) = slot_sent::<T, E, D>(slots[i], message);
        let next = slots.update(i, slot);
        if result is Err {
            (next, result)
        } else {
            sent::<T, E, D>(next, message, i + 1)
        }
    }
}

/// The slots after each of `messages` was sent to all of them, up to the first error, and the
/// result.
pub open spec fn sent_all<T, E: TransportMessageEncoder<T>, D>(
    slots: Seq<SlotView<E, D>>,
    messages: Seq<T>,
) -> (Seq<SlotView<E, D>>, Result<(), TransportError>)
    decreases messages.len(),
{
    if messages.len() == 0 {
        (slots, Ok(()))
    } else {
        let (next, result) = sent::<T, E, D>(slots, messages[0], 0);
        if result is Err {
            (next, result)
        } else {
            sent_all::<T, E, D>(next, messages.skip(1))
        }
    }
}

/// Whether peripheral `k` refused `message`, after those from `i` on before it were sent it.
pub open spec fn stopped_at<T, E: TransportMessageEncoder<T>, D>(
    slots: Seq<SlotView<E, D>>,
    message: T,
    i: int,
    k: int,
) -> bool {
    let (after, result) = sent::<T, E, D>(slots, message, i);
    &&& i <= k < slots.len()
    &&& (after[k], result) == slot_sent::<T, E, D>(slots[k], message)
    &&& forall|x: int|
        i <= x < k ==> (#[trigger] after[x], Ok::<(), TransportError>(())) == slot_sent::<T, E, D>(
            slots[x],
            message,
        )
    &&& forall|x: int| k < x < slots.len() ==> #[trigger] after[x] == slots[x]
}

proof fn lemma_sent<T, E: TransportMessageEncoder<T>, D>(
    slots: Seq<SlotView<E, D>>,
    message: T,
    i: int,
)
    requires
        0 <= i <= slots.len(),
    ensures
        ({
            let (after, result) = sent::<T, E, D>(slots, message, i);
            &&& after.len() == slots.len()
            &&& forall|x: int| 0 <= x < i ==> #[trigger] after[x] == slots[x]
            &&& result is Ok ==> forall|x: int|
                i <= x < slots.len() ==> (#[trigger] after[x], Ok::<(), TransportError>(()))
                    == slot_sent::<T, E, D>(slots[x], message)
            &&& result is Err ==> exists|k: int| stopped_at::<T, E, D>(slots, message, i, k)
        }),
    decreases slots.len() - i,
{
    if i < slots.len() {
        let (slot, result) = slot_sent::<T, E, D>(slots[i], message);
        let next = slots.update(i, slot);
        if result is Err {
            assert(stopped_at::<T, E, D>(slots, message, i, i));
        } else {
            let rest = i + 1;
            lemma_sent::<T, E, D>(next, message, rest);
            if sent::<T, E, D>(next, message, rest).1 is Err {
                let k = choose|k: int| stopped_at::<T, E, D>(next, message, rest, k);
                assert(stopped_at::<T, E, D>(slots, message, i, k));
            }
        }
    }
}

/// Whether sending `messages` stopped at message `j` and peripheral `k`: it returned that
/// peripheral's error, the peripherals before it had been sent the messages up to and with that
/// one, and those after it the messages up to it.
pub open spec fn all_stopped_at<T, E: TransportMessageEncoder<T>, D>(
    slots: Seq<SlotView<E, D>>,
    messages: Seq<T>,
    j: int,
    k: int,
) -> bool {
    let (after, result) = sent_all::<T, E, D>(slots, messages);
    &&& 0 <= j < messages.len()
    &&& 0 <= k < slots.len()
    &&& (after[k], result) == slot_sent_all::<T, E, D>(slots[k], messages.take(j + 1))
    &&& forall|x: int|
        0 <= x < k ==> (#[trigger] after[x], Ok::<(), TransportError>(())) == slot_sent_all::<
            T,
            E,
            D,
        >(slots[x], messages.take(j + 1))
    &&& forall|x: int|
        k < x < slots.len() ==> (#[trigger] after[x], Ok::<(), TransportError>(()))
            == slot_sent_all::<T, E, D>(slots[x], messages.take(j))
}

/// Sending to all peripherals is sending to each, up to the first error: where none of them refuses
/// a byte, each was sent every message; otherwise the sending stopped at one message and one
/// peripheral, whose error is returned.
pub proof fn all_peripherals_are_sent_messages_up_to_error<T, E: TransportMessageEncoder<T>, D>(
    slots: Seq<SlotView<E, D>>,
    messages: Seq<T>,
)
    ensures
        ({
            let (after, result) = sent_all::<T, E, D>(slots, messages);
            &&& after.len() == slots.len()
            &&& result is Ok ==> forall|x: int|
                0 <= x < slots.len() ==> (#[trigger] after[x], Ok::<(), TransportError>(()))
                    == slot_sent_all::<T, E, D>(slots[x], messages)
            &&& result is Err ==> exists|j: int, k: int|
                all_stopped_at::<T, E, D>(slots, messages, j, k)
        }),
    decreases messages.len(),
{
    if messages.len() > 0 {
        let (next, result) = sent::<T, E, D>(slots, messages[0], 0);
        let rest = messages.skip(1);
        lemma_sent::<T, E, D>(slots, messages[0], 0);
        if result is Err {
            let k = choose|k: int| stopped_at::<T, E, D>(slots, messages[0], 0, k);
            let one = messages.take(1);
            assert(one[0] == messages[0]);
            assert(one.skip(1) =~= Seq::empty());
            assert forall|s: SlotView<E, D>| #[trigger] slot_sent_all::<T, E, D>(s, one)
                == slot_sent::<T, E, D>(s, messages[0]) by {
                let t = slot_sent::<T, E, D>(s, messages[0]).0;
                assert(slot_sent_all::<T, E, D>(t, one.skip(1)) == (
                    t,
                    Ok::<(), TransportError>(()),
                ));
            }
            assert(messages.take(0) =~= Seq::empty());
            assert(all_stopped_at::<T, E, D>(slots, messages, 0, k));
        } else {
            all_peripherals_are_sent_messages_up_to_error::<T, E, D>(next, rest);
            assert forall|x: int| 0 <= x < slots.len() implies #[trigger] slot_sent_all::<T, E, D>(
                slots[x],
                messages,
            ) == slot_sent_all::<T, E, D>(next[x], rest) by {}
            if sent_all::<T, E, D>(next, rest).1 is Err {
                let (j, k) = choose|j: int, k: int| all_stopped_at::<T, E, D>(next, rest, j, k);
                assert(messages.take(j + 1)[0] == messages[0]);
                assert(messages.take(j + 2)[0] == messages[0]);
                assert(messages.take(j + 1).skip(1) =~= rest.take(j));
                assert(messages.take(j + 2).skip(1) =~= rest.take(j + 1));
                assert forall|x: int| 0 <= x < slots.len() implies #[trigger] slot_sent_all::<
                    T,
                    E,
                    D,
                >(slots[x], messages.take(j + 2)) == slot_sent_all::<T, E, D>(
                    next[x],
                    rest.take(j + 1),
                ) by {}
                assert forall|x: int| 0 <= x < slots.len() implies #[trigger] slot_sent_all::<
                    T,
                    E,
                    D,
                >(slots[x], messages.take(j + 1)) == slot_sent_all::<T, E, D>(
                    next[x],
                    rest.take(j),
                ) by {}
                assert(all_stopped_at::<T, E, D>(slots, messages, j + 1, k));
            }
        }
    }
}

/// The slots after those from `i` on were polled, up to the first message or error, and the result.
pub open spec fn polled<T, E: TransportMessageEncoder<T>, D: TransportMessageDecoder<T>>(
    slots: Seq<SlotView<E, D>>,
    state: Seq<T>,
    i: int,
) -> (Seq<SlotView<E, D>>, Result<Option<T>, TransportError>)
    decreases slots.len() - i,
{
    if i < 0 || i >= slots.len() {
        (slots, Ok(None))
    } else {
        let (slot, result) = slot_polled::<T, E, D>(slots[i], state);
        let next = slots.update(i, slot);
        match result {
            Ok(None) => polled::<T, E, D>(next, state, i + 1),
            _ => (next, result),
        }
    }
}

/// Peripherals are polled in the order in which they were attached, and the first message or error
/// ends the poll: those after it are left as they were.
pub proof fn peripherals_are_polled_in_order<
    T,
    E: TransportMessageEncoder<T>,
    D: TransportMessageDecoder<T>,
>(slots: Seq<SlotView<E, D>>, state: Seq<T>, i: int)
    requires
        0 <= i <= slots.len(),
    ensures
        i == slots.len() ==> polled::<T, E, D>(slots, state, i) == (
            slots,
            Ok::<Option<T>, TransportError>(None),
        ),
        i < slots.len() ==> {
            let (slot, result) = slot_polled::<T, E, D>(slots[i], state);
            &&& result != Ok::<Option<T>, TransportError>(None) ==> polled::<T, E, D>(
                slots,
                state,
                i,
            ) == (slots.update(i, slot), result)
            &&& result == Ok::<Option<T>, TransportError>(None) ==> polled::<T, E, D>(
                slots,
                state,
                i,
            ) == polled::<T, E, D>(slots.update(i, slot), state, i + 1)
        },
{
}

impl<T, E: TransportMessageEncoder<T>, D: TransportMessageDecoder<T>> Default for TransportManager<
    T,
    E,
    D,
> {
    fn default() -> (m: Self)
        ensures
            m.wf(),
            m@ == Seq::<SlotView<E, D>>::empty(),
    {
        Self::new()
    }
}

impl<T, E: TransportMessageEncoder<T>, D: TransportMessageDecoder<T>> TransportManager<T, E, D> {
    /// What holds of every manager: its slots are well-formed.
    pub open spec fn wf(&self) -> bool {
        forall|i: int| 0 <= i < self.slots@.len() ==> (#[trigger] self.slots@[i]).wf()
    }

    /// Creates a manager without peripherals.
    pub fn new() -> (m: Self)
        ensures
            m.wf(),
            m@ == Seq::<SlotView<E, D>>::empty(),
    {
        let m = TransportManager { slots: Vec::new() };
        assert(m@ =~= Seq::<SlotView<E, D>>::empty());
        m
    }

    /// Attaches a peripheral's transport with the codecs to use on it.
    pub fn attach_transport(&mut self, transport: TransportPort<u8>, encoder: E, decoder: D)
        requires
            old(self).wf(),
            encoder.wf(),
            decoder.wf(),
        ensures
            final(self).wf(),
            final(self)@ == old(self)@.push(
                SlotView {
                    port: transport@,
                    encoder,
                    decoder,
                    handshake_done: false,
                    last_connection_id: transport@.connection_id,
                },
            ),
    {
        let slot = TransportSlot::new(transport, encoder, decoder);
        let ghost view = slot@;
        self.slots.push(slot);
        assert(self@ =~= old(self)@.push(view));
    }

    /// Sends `message` to every peripheral whose handshake is complete, up to the first error.
    pub fn send_to_all(&mut self, message: &T) -> (r: Result<(), TransportError>)
        requires
            old(self).wf(),
        ensures
            final(self).wf(),
            (final(self)@, r) == sent::<T, E, D>(old(self)@, *message, 0),
    {
        let mut i: usize = 0;
        while i < self.slots.len()
            invariant
                i <= self.slots@.len(),
                self.wf(),
                sent::<T, E, D>(self@, *message, i as int) == sent::<T, E, D>(
                    old(self)@,
                    *message,
                    0,
                ),
            decreases self.slots@.len() - i,
        {
            let ghost before = self@;
            let result = self.slots[i].send(message);
            assert(self@ =~= before.update(i as int, self.slots@[i as int]@));
            if result.is_err() {
                return result;
            }
            i += 1;
        }
        Ok(())
    }

    /// Sends each of `messages` to every peripheral, up to the first error.
    pub fn send_all_to_all(&mut self, messages: &[T]) -> (r: Result<(), TransportError>)
        requires
            old(self).wf(),
        ensures
            final(self).wf(),
            (final(self)@, r) == sent_all::<T, E, D>(old(self)@, messages@),
    {
        let mut i: usize = 0;
        assert(messages@.skip(0) =~= messages@);
        while i < messages.len()
            invariant
                i <= messages@.len(),
                self.wf(),
                sent_all::<T, E, D>(self@, messages@.skip(i as int)) == sent_all::<T, E, D>(
                    old(self)@,
                    messages@,
                ),
            decreases messages@.len() - i,
        {
            let result = self.send_to_all(&messages[i]);
            assert(messages@.skip(i as int)[0] == messages@[i as int]);
            assert(messages@.skip(i as int).skip(1) =~= messages@.skip(i + 1));
            if result.is_err() {
                return result;
            }
            i += 1;
        }
        Ok(())
    }

    /// Polls the peripherals in order, up to the first message or error, which is returned.
    pub fn poll_transports(&mut self, state: &[T]) -> (r: Result<Option<T>, TransportError>)
        requires
            old(self).wf(),
        ensures
            final(self).wf(),
            (final(self)@, r) == polled::<T, E, D>(old(self)@, state@, 0),
    {
        let mut i: usize = 0;
        while i < self.slots.len()
            invariant
                i <= self.slots@.len(),
                self.wf(),
                polled::<T, E, D>(self@, state@, i as int) == polled::<T, E, D>(
                    old(self)@,
                    state@,
                    0,
                ),
            decreases self.slots@.len() - i,
        {
            let ghost before = self@;
            let result = self.slots[i].poll(state);
            assert(self@ =~= before.update(i as int, self.slots@[i as int]@));
            match result {
                Ok(None) => {},
                _ => {
                    return result;
                },
            }
            i += 1;
        }
        Ok(None)
    }
}

} // verus!
