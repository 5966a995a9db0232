//! Relays protocol messages between a device and the peripherals on a fallible transport.

use crate::protocol::slot;
use crate::protocol::slot::{drop_slots, find_slot, ProtocolSlot};
use crate::protocol::{ProtocolMessageDecoder, ProtocolMessageEncoder, ProtocolMessageEncoding};
use crate::transport::{PortView, TransportError, TransportEvent, TransportPort};
use std::marker::PhantomData;
use vstd::prelude::*;

verus! {

/// A protocol manager relays peripheral protocol messages between peripherals connected via a
/// transport and an I/O device that accepts several peripherals at a time.
///
/// For each transport connection, the manager provides a state dump from the I/O device.
/// Subsequently, on each call to [`ProtocolManager::poll_transport`], it checks for a valid message
/// from any connected peripheral. Messages can be delivered to peripherals using either
/// [`ProtocolManager::send_to_all`] or [`ProtocolManager::send_all_to_all`].
pub struct ProtocolManager<T, E, D> {
    pub encoding: ProtocolMessageEncoding,
    pub transport: TransportPort<TransportEvent>,
    pub encoder: E,
    pub slots: Vec<ProtocolSlot<D>>,
    pub message_type: PhantomData<T>,
}

/// A manager, seen through its transport and its slots.
#[verifier::ext_equal]
pub ghost struct ManagerView<E, D> {
    pub encoding: ProtocolMessageEncoding,
    pub port: PortView<TransportEvent>,
    pub encoder: E,
    pub slots: Seq<ProtocolSlot<D>>,
}

impl<T, E, D> View for ProtocolManager<T, E, D> {
    type V = ManagerView<E, D>;

    open spec fn view(&self) -> ManagerView<E, D> {
        ManagerView {
            encoding: self.encoding,
            port: self.transport@,
            encoder: self.encoder,
            slots: self.slots@,
        }
    }
}

/// The manager after it has sent `message` up to the first byte that is refused, and the result.
pub open spec fn sent<T, E: ProtocolMessageEncoder<T>, D>(m: ManagerView<E, D>, message: T) -> (
    ManagerView<E, D>,
    Result<(), TransportError>,
) {
    let (port, result) = m.port.sent_up_to_error(m.encoder.encoded(message));
    (ManagerView { encoder: m.encoder.after(message), port, ..m }, result)
}

/// The manager after it has sent `messages` up to the first error, and the result.
pub open spec fn sent_all<T, E: ProtocolMessageEncoder<T>, D>(
    m: ManagerView<E, D>,
    messages: Seq<T>,
) -> (ManagerView<E, D>, Result<(), TransportError>)
    decreases messages.len(),
{
    if messages.len() == 0 {
        (m, Ok(()))
    } else {
        let (next, result) = sent::<T, E, D>(m, messages[0]);
        if result is Err {
            (next, result)
        } else {
            sent_all::<T, E, D>(next, messages.skip(1))
        }
    }
}

/// Sending does not touch what has arrived.
pub proof fn sending_takes_nothing<T, E: ProtocolMessageEncoder<T>, D>(
    m: ManagerView<E, D>,
    messages: Seq<T>,
)
    ensures
        sent_all::<T, E, D>(m, messages).0.port.inbound == m.port.inbound,
        sent_all::<T, E, D>(m, messages).0.slots == m.slots,
    decreases messages.len(),
{
    if messages.len() > 0 {
        sending_takes_nothing::<T, E, D>(sent::<T, E, D>(m, messages[0]).0, messages.skip(1));
    }
}

impl<E, D> ManagerView<E, D> {
    /// The manager after it has taken the oldest event off the transport.
    pub open spec fn taken(self) -> Self {
        ManagerView { port: self.port.taken(), ..self }
    }

    /// The manager after the client with the given tag got a new slot in place of any old one.
    pub open spec fn connected(self, tag: u8, decoder: D) -> Self {
        ManagerView {
            slots: slot::without(self.slots, tag).push(
                ProtocolSlot { client_tag: tag, decoder, initial_dump_sent: true },
            ),
            ..self
        }
    }

    /// The manager after the client with the given tag lost its slot.
    pub open spec fn disconnected(self, tag: u8) -> Self {
        ManagerView { slots: slot::without(self.slots, tag), ..self }
    }

    /// The manager with another decoder in slot `i`.
    pub open spec fn with_decoder(self, i: int, decoder: D) -> Self {
        ManagerView {
            slots: self.slots.update(i, ProtocolSlot { decoder, ..self.slots[i] }),
            ..self
        }
    }
}

/// The manager after a poll, and what the poll returns. Events are taken off the transport until
/// one completes a message or a state dump meets an error. `None` if data turns up for a client
/// that never connected.
pub open spec fn polled<T, E: ProtocolMessageEncoder<T>, D: ProtocolMessageDecoder<T>>(
    m: ManagerView<E, D>,
    init_state: Seq<T>,
) -> Option<(ManagerView<E, D>, Result<Option<T>, TransportError>)>
    decreases m.port.inbound.len(),
{
    if m.port.inbound.len() == 0 {
        Some((m, Ok(None)))
    } else {
        match m.port.inbound[0] {
            TransportEvent::Connected(tag) => {
                let connected = m.taken().connected(tag, D::initial(m.encoding));
                let (next, result) = sent_all::<T, E, D>(connected, init_state);
                proof {
                    sending_takes_nothing::<T, E, D>(connected, init_state);
                }
                match result {
                    Ok(_) => polled::<T, E, D>(next, init_state),
                    Err(e) => Some((next, Err(e))),
                }
            },
            TransportEvent::Data(tag, b) => match slot::slot_of(m.slots, tag) {
                Some(i) => {
                    let decoder = m.slots[i].decoder;
                    let next = m.taken().with_decoder(i, decoder.after(b));
                    match decoder.decoded(b) {
                        Some(message) => Some((next, Ok(Some(message)))),
                        None => polled::<T, E, D>(next, init_state),
                    }
                },
                None => None,
            },
            TransportEvent::Disconnected(tag) => polled::<T, E, D>(
                m.taken().disconnected(tag),
                init_state,
            ),
        }
    }
}

/// A poll that returns a message has taken at least one event.
pub proof fn message_takes_event<T, E: ProtocolMessageEncoder<T>, D: ProtocolMessageDecoder<T>>(
    m: ManagerView<E, D>,
    init_state: Seq<T>,
)
    ensures
        polled::<T, E, D>(m, init_state) matches Some((next, Ok(Some(_)))) ==> next.port.inbound.len()
            < m.port.inbound.len(),
    decreases m.port.inbound.len(),
{
    if m.port.inbound.len() > 0 {
        match m.port.inbound[0] {
            TransportEvent::Connected(tag) => {
                let connected = m.taken().connected(tag, D::initial(m.encoding));
                sending_takes_nothing::<T, E, D>(connected, init_state);
                message_takes_event::<T, E, D>(
                    sent_all::<T, E, D>(connected, init_state).0,
                    init_state,
                );
            },
            TransportEvent::Data(tag, b) => {
                match slot::slot_of(m.slots, tag) {
                    Some(i) => {
                        message_takes_event::<T, E, D>(
                            m.taken().with_decoder(i, m.slots[i].decoder.after(b)),
                            init_state,
                        );
                    },
                    None => {},
                }
            },
            TransportEvent::Disconnected(tag) => {
                message_takes_event::<T, E, D>(m.taken().disconnected(tag), init_state);
            },
        }
    }
}

impl<T, E: ProtocolMessageEncoder<T>, D: ProtocolMessageDecoder<T>> ProtocolManager<T, E, D> {
    /// What holds of every manager: its codecs are well-formed.
    pub open spec fn wf(&self) -> bool {
        &&& self.encoder.wf()
        &&& forall|i: int| 0 <= i < self.slots@.len() ==> (#[trigger] self.slots@[i]).decoder.wf()
    }

    /// Creates a manager without connections on the given transport.
    pub fn new(encoding: ProtocolMessageEncoding, transport: TransportPort<TransportEvent>) -> (m:
        Self)
        ensures
            m.wf(),
            m@ == (ManagerView::<E, D> {
                encoding,
                port: transport@,
                encoder: E::initial(encoding),
                slots: Seq::empty(),
            }),
    {
        ProtocolManager {
            encoding,
            transport,
            encoder: E::for_encoding(encoding),
            slots: Vec::new(),
            message_type: PhantomData,
        }
    }

    /// Encodes `message` once and sends it via the transport, which fans it out to every currently
    /// connected client.
    pub fn send_to_all(&mut self, message: &T) -> (r: Result<(), TransportError>)
        requires
            old(self).wf(),
        ensures
            final(self).wf(),
            (final(self)@, r) == sent::<T, E, D>(old(self)@, *message),
    {
        let mut bytes: Vec<u8> = Vec::new();
        self.encoder.encode(message, &mut bytes);
        assert(bytes@ =~= old(self).encoder.encoded(*message));
        self.transport.send_up_to_error(bytes.as_slice())
    }

    /// Sends each of `messages` in order, up to the first error.
    pub fn send_all_to_all(&mut self, messages: &[T]) -> (r: Result<(), TransportError>)
        requires
            old(self).wf(),
        ensures
            final(self).wf(),
            (final(self)@, r) == sent_all::<T, E, D>(old(self)@, messages@),
    {
        let mut i: usize = 0;
        assert(messages@.skip(0) =~= messages@);
        while i < messages.len()
            invariant
                i <= messages@.len(),
                self.wf(),
                sent_all::<T, E, D>(self@, messages@.skip(i as int)) == sent_all::<T, E, D>(
                    old(self)@,
                    messages@,
                ),
            decreases messages@.len() - i,
        {
            let result = self.send_to_all(&messages[i]);
            assert(messages@.skip(i as int)[0] == messages@[i as int]);
            assert(messages@.skip(i as int).skip(1) =~= messages@.skip(i + 1));
            if result.is_err() {
                return result;
            }
            i += 1;
        }
        Ok(())
    }

    /// Takes events off the transport until one completes a message, which is returned. Each new
    /// connection is answered with `init_state`.
    pub fn poll_transport(&mut self, init_state: &[T]) -> (r: Result<Option<T>, TransportError>)
        requires
            old(self).wf(),
            polled::<T, E, D>(old(self)@, init_state@) is Some,
        ensures
            final(self).wf(),
            Some((final(self)@, r)) == polled::<T, E, D>(old(self)@, init_state@),
    {
        loop
            invariant
                self.wf(),
                polled::<T, E, D>(self@, init_state@) is Some,
                polled::<T, E, D>(self@, init_state@) == polled::<T, E, D>(
                    old(self)@,
                    init_state@,
                ),
            decreases self@.port.inbound.len(),
        {
            let ghost before = self@;
            let event = match self.transport.try_recv() {
                Some(event) => event,
                None => {
                    return Ok(None);
                },
            };
            assert(self@ =~= before.taken());
            match event {
                TransportEvent::Connected(tag) => {
                    drop_slots(&mut self.slots, tag);
                    proof {
                        let keep = |s: ProtocolSlot<D>| s.client_tag != tag;
                        assert forall|i: int| 0 <= i < self.slots@.len() implies (
                        #[trigger] self.slots@[i]).decoder.wf() by {
                            before.slots.lemma_filter_contains_rev(keep, self.slots@[i]);
                        }
                    }
                    let decoder = D::for_encoding(self.encoding);
                    self.slots.push(
                        ProtocolSlot { client_tag: tag, decoder, initial_dump_sent: true },
                    );
                    let ghost connected = before.taken().connected(
                        tag,
                        D::initial(before.encoding),
                    );
                    assert(self@ =~= connected);
                    let result = self.send_all_to_all(init_state);
                    proof {
                        sending_takes_nothing::<T, E, D>(connected, init_state@);
                    }
                    if let Err(e) = result {
                        return Err(e);
                    }
                },
                TransportEvent::Data(tag, b) => {
                    let found = find_slot(tag, &self.slots);
                    match found {
                        Some(i) => {
                            let message = self.slots[i].decoder.feed(b);
                            assert(self@ =~= before.taken().with_decoder(
                                i as int,
                                before.slots[i as int].decoder.after(b),
                            ));
                            if message.is_some() {
                                return Ok(message);
                            }
                        },
                        None => {
                            assert(false);
                        },
                    }
                },
                TransportEvent::Disconnected(tag) => {
                    drop_slots(&mut self.slots, tag);
                    proof {
                        let keep = |s: ProtocolSlot<D>| s.client_tag != tag;
                        assert forall|i: int| 0 <= i < self.slots@.len() implies (
                        #[trigger] self.slots@[i]).decoder.wf() by {
                            before.slots.lemma_filter_contains_rev(keep, self.slots@[i]);
                        }
                    }
                    assert(self@ =~= before.taken().disconnected(tag));
                },
            }
        }
    }
}

} // verus!
