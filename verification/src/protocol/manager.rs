//! Relays protocol messages between a device and the peripherals on a transport that never fails
//! a send.

use crate::protocol::slot;
use crate::protocol::slot::{drop_slots, find_slot, ProtocolSlot};
use crate::protocol::{ProtocolMessageDecoder, ProtocolMessageEncoder, ProtocolMessageEncoding};
use crate::protocol_manager::ManagerView;
use crate::transport::{TransportEvent, TransportPort};
use std::marker::PhantomData;
use vstd::prelude::*;

verus! {

/// A protocol manager relays peripheral protocol messages between peripherals connected via a
/// transport and an I/O device that accepts several peripherals at a time.
///
/// For each transport connection, the manager provides a state dump from the I/O device.
/// Subsequently, each call to [`ProtocolManager::poll_transport`] returns every message that has
/// arrived from any connected peripheral. Messages can be delivered to peripherals using either
/// [`ProtocolManager::send_to_all`] or [`ProtocolManager::send_all_to_all`].
pub struct ProtocolManager<T, E, D> {
    pub encoding: ProtocolMessageEncoding,
    pub transport: TransportPort<TransportEvent>,
    pub encoder: E,
    pub slots: Vec<ProtocolSlot<D>>,
    pub message_type: PhantomData<T>,
    /// Every event that was taken off the transport, oldest first.
    pub drained: Ghost<Seq<TransportEvent>>,
}

impl<T, E, D> View for ProtocolManager<T, E, D> {
    type V = ManagerView<E, D>;

    open spec fn view(&self) -> ManagerView<E, D> {
        ManagerView {
            encoding: self.encoding,
            port: self.transport@,
            encoder: self.encoder,
            slots: self.slots@,
        }
    }
}

/// The manager after it has sent `message`.
pub open spec fn sent<T, E: ProtocolMessageEncoder<T>, D>(
    m: ManagerView<E, D>,
    message: T,
) -> ManagerView<E, D> {
    ManagerView {
        encoder: m.encoder.after(message),
        port: m.port.sent(m.encoder.encoded(message)),
        ..m
    }
}

/// The manager after it has sent each of `messages` in order.
pub open spec fn sent_all<T, E: ProtocolMessageEncoder<T>, D>(
    m: ManagerView<E, D>,
    messages: Seq<T>,
) -> ManagerView<E, D>
    decreases messages.len(),
{
    if messages.len() == 0 {
        m
    } else {
        sent::<T, E, D>(sent_all::<T, E, D>(m, messages.drop_last()), messages.last())
    }
}

/// Sending does not touch what has arrived, nor the connections.
pub proof fn sending_takes_nothing<T, E: ProtocolMessageEncoder<T>, D>(
    m: ManagerView<E, D>,
    messages: Seq<T>,
)
    ensures
        sent_all::<T, E, D>(m, messages).port.inbound == m.port.inbound,
        sent_all::<T, E, D>(m, messages).slots == m.slots,
    decreases messages.len(),
{
    if messages.len() > 0 {
        sending_takes_nothing::<T, E, D>(m, messages.drop_last());
    }
}

/// The manager after it has handled `event`, and the message that the event completes. `None` if
/// the event is data for a client that never connected.
pub open spec fn handled<T, E: ProtocolMessageEncoder<T>, D: ProtocolMessageDecoder<T>>(
    m: ManagerView<E, D>,
    event: TransportEvent,
    init_state: Seq<T>,
) -> Option<(ManagerView<E, D>, Option<T>)> {
    match event {
        TransportEvent::Connected(tag) => Some(
            (
                sent_all::<T, E, D>(m.connected(tag, D::initial(m.encoding)), init_state),
                None,
            ),
        ),
        TransportEvent::Data(tag, b) => match slot::slot_of(m.slots, tag) {
            Some(i) => {
                let decoder = m.slots[i].decoder;
                Some((m.with_decoder(i, decoder.after(b)), decoder.decoded(b)))
            },
            None => None,
        },
        TransportEvent::Disconnected(tag) => Some((m.disconnected(tag), None)),
    }
}

/// The manager after it has handled each of `events` in order, and the messages that they
/// complete. `None` if data turns up for a client that never connected.
pub open spec fn handled_all<T, E: ProtocolMessageEncoder<T>, D: ProtocolMessageDecoder<T>>(
    m: ManagerView<E, D>,
    events: Seq<TransportEvent>,
    init_state: Seq<T>,
) -> Option<(ManagerView<E, D>, Seq<T>)>
    decreases events.len(),
{
    if events.len() == 0 {
        Some((m, Seq::empty()))
    } else {
        match handled_all::<T, E, D>(m, events.drop_last(), init_state) {
            Some((before, messages)) => match handled::<T, E, D>(
                before,
                events.last(),
                init_state,
            ) {
                Some((after, Some(message))) => Some((after, messages.push(message))),
                Some((after, None)) => Some((after, messages)),
                None => None,
            },
            None => None,
        }
    }
}

/// The manager after a poll, and the messages that it returns.
pub open spec fn polled<T, E: ProtocolMessageEncoder<T>, D: ProtocolMessageDecoder<T>>(
    m: ManagerView<E, D>,
    init_state: Seq<T>,
) -> Option<(ManagerView<E, D>, Seq<T>)> {
    handled_all::<T, E, D>(
        ManagerView { port: m.port.drained(), ..m },
        m.port.inbound,
        init_state,
    )
}

proof fn lemma_prefix_handled<T, E: ProtocolMessageEncoder<T>, D: ProtocolMessageDecoder<T>>(
    m: ManagerView<E, D>,
    events: Seq<TransportEvent>,
    init_state: Seq<T>,
    n: int,
)
    requires
        handled_all::<T, E, D>(m, events, init_state) is Some,
        0 <= n <= events.len(),
    ensures
        handled_all::<T, E, D>(m, events.take(n), init_state) is Some,
    decreases events.len() - n,
{
    if n < events.len() {
        lemma_prefix_handled::<T, E, D>(m, events, init_state, n + 1);
        assert(events.take(n + 1).drop_last() =~= events.take(n));
    } else {
        assert(events.take(n) =~= events);
    }
}

impl<T, E: ProtocolMessageEncoder<T>, D: ProtocolMessageDecoder<T>> ProtocolManager<T, E, D> {
    /// What holds of every manager: its codecs are well-formed, and it has a slot for exactly the
    /// clients that are connected after the events that it has seen.
    pub open spec fn wf(&self) -> bool {
        &&& slot::follows(self.slots@, self.drained@)
        &&& self.encoder.wf()
        &&& forall|i: int| 0 <= i < self.slots@.len() ==> (#[trigger] self.slots@[i]).decoder.wf()
    }

    /// Creates a manager without connections on the given transport.
    pub fn new(encoding: ProtocolMessageEncoding, transport: TransportPort<TransportEvent>) -> (m:
        Self)
        ensures
            m.wf(),
            m@ == (ManagerView::<E, D> {
                encoding,
                port: transport@,
                encoder: E::initial(encoding),
                slots: Seq::empty(),
            }),
            m.drained@ == Seq::<TransportEvent>::empty(),
    {
        let m = ProtocolManager {
            encoding,
            transport,
            encoder: E::for_encoding(encoding),
            slots: Vec::new(),
            message_type: PhantomData,
            drained: Ghost(Seq::empty()),
        };
        proof {
            slot::follows_nothing(m.slots@, m.drained@);
        }
        m
    }

    /// Encodes `message` once and sends it via the transport, which fans it out to every currently
    /// connected client.
    pub fn send_to_all(&mut self, message: &T)
        requires
            old(self).wf(),
        ensures
            final(self).wf(),
            final(self)@ == sent::<T, E, D>(old(self)@, *message),
            final(self).drained == old(self).drained,
    {
        let mut bytes: Vec<u8> = Vec::new();
        self.encoder.encode(message, &mut bytes);
        assert(bytes@ =~= old(self).encoder.encoded(*message));
        self.transport.send_bytes(bytes.as_slice());
    }

    /// Sends each of `messages` in order.
    pub fn send_all_to_all(&mut self, messages: &[T])
        requires
            old(self).wf(),
        ensures
            final(self).wf(),
            final(self)@ == sent_all::<T, E, D>(old(self)@, messages@),
            final(self).drained == old(self).drained,
    {
        let mut i: usize = 0;
        while i < messages.len()
            invariant
                i <= messages@.len(),
                self.wf(),
                self@ == sent_all::<T, E, D>(old(self)@, messages@.take(i as int)),
                self.drained == old(self).drained,
            decreases messages@.len() - i,
        {
            self.send_to_all(&messages[i]);
            assert(messages@.take(i + 1).drop_last() =~= messages@.take(i as int));
            i += 1;
        }
        assert(messages@.take(i as int) =~= messages@);
    }

    /// Shuts the transport down.
    pub fn shutdown(&mut self)
        requires
            old(self).wf(),
        ensures
            final(self).wf(),
            final(self)@ == (ManagerView { port: old(self)@.port.closed(), ..old(self)@ }),
            final(self).drained == old(self).drained,
    {
        self.transport.shutdown();
    }

    /// Whether at least one event has arrived.
    pub fn has_pending(&self) -> (pending: bool)
        ensures
            pending == (self@.port.inbound.len() > 0),
    {
        self.transport.inbound.len() > 0
    }

    /// Whether at least one client is currently connected: of all the events that were taken off
    /// the transport, some client's connection was not followed by its disconnection.
    pub fn has_clients(&self) -> (some: bool)
        requires
            self.wf(),
        ensures
            some == (self@.slots.len() > 0),
            some == exists|tag: u8| slot::connected(self.drained@, tag),
    {
        proof {
            slot::slots_mean_clients(self.slots@, self.drained@);
        }
        self.slots.len() > 0
    }

    /// Handles every event that has arrived, and returns every message that they complete, in
    /// arrival order. Each new connection is answered with `init_state`.
    pub fn poll_transport(&mut self, init_state: &[T]) -> (messages: Vec<T>)
        requires
            old(self).wf(),
            polled::<T, E, D>(old(self)@, init_state@) is Some,
        ensures
            final(self).wf(),
            Some((final(self)@, messages@)) == polled::<T, E, D>(old(self)@, init_state@),
            final(self).drained@ == old(self).drained@ + old(self)@.port.inbound,
    {
        let ghost events = self.transport.inbound@;
        let ghost start = ManagerView { port: self@.port.drained(), ..self@ };
        let ghost mut seen: int = 0;
        let mut decoded: Vec<T> = Vec::new();
        assert(events.skip(0) =~= events);
        assert(old(self).drained@ + events.take(0) =~= old(self).drained@);
        loop
            invariant
                self.wf(),
                0 <= seen <= events.len(),
                events == old(self)@.port.inbound,
                start == (ManagerView { port: old(self)@.port.drained(), ..old(self)@ }),
                handled_all::<T, E, D>(start, events, init_state@) is Some,
                self@.port.inbound == events.skip(seen),
                self.drained@ == old(self).drained@ + events.take(seen),
                handled_all::<T, E, D>(start, events.take(seen), init_state@) == Some(
                    (ManagerView { port: self@.port.drained(), ..self@ }, decoded@),
                ),
            decreases events.len() - seen,
        {
            let ghost before = self@;
            let ghost idle = ManagerView { port: before.port.drained(), ..before };
            let event = match self.transport.try_recv() {
                Some(event) => event,
                None => {
                    assert(events.take(seen) =~= events);
                    assert(self@ =~= idle);
                    return decoded;
                },
            };
            proof {
                lemma_prefix_handled::<T, E, D>(start, events, init_state@, seen + 1);
                assert(events.take(seen + 1).drop_last() =~= events.take(seen));
                assert(event == events[seen]);
                assert(events.skip(seen).skip(1) =~= events.skip(seen + 1));
                assert(old(self).drained@ + events.take(seen + 1) =~= self.drained@.push(event));
            }
            let ghost log = self.drained@;
            self.drained = Ghost(log.push(event));
            match event {
                TransportEvent::Connected(tag) => {
                    drop_slots(&mut self.slots, tag);
                    proof {
                        let keep = |s: ProtocolSlot<D>| s.client_tag != tag;
                        assert forall|i: int| 0 <= i < self.slots@.len() implies (
                        #[trigger] self.slots@[i]).decoder.wf() by {
                            before.slots.lemma_filter_contains_rev(keep, self.slots@[i]);
                        }
                    }
                    let decoder = D::for_encoding(self.encoding);
                    self.slots.push(
                        ProtocolSlot { client_tag: tag, decoder, initial_dump_sent: true },
                    );
                    let ghost connected = idle.connected(tag, D::initial(idle.encoding));
                    let ghost mine = self@;
                    proof {
                        slot::follows_connection(before.slots, log, mine.slots.last());
                        assert(mine.slots.drop_last() =~= slot::without(before.slots, tag));
                        assert(mine.slots =~= mine.slots.drop_last().push(mine.slots.last()));
                    }
                    self.send_all_to_all(init_state);
                    proof {
                        sending_takes_nothing::<T, E, D>(mine, init_state@);
                        sending_takes_nothing::<T, E, D>(connected, init_state@);
                        lemma_sent_all_ignores_inbound::<T, E, D>(
                            mine,
                            connected,
                            init_state@,
                        );
                    }
                },
                TransportEvent::Data(tag, b) => {
                    let found = find_slot(tag, &self.slots);
                    match found {
                        Some(i) => {
                            let message = self.slots[i].decoder.feed(b);
                            assert(self.slots@ =~= idle.with_decoder(
                                i as int,
                                idle.slots[i as int].decoder.after(b),
                            ).slots);
                            proof {
                                slot::follows_data(
                                    before.slots,
                                    log,
                                    i as int,
                                    before.slots[i as int].decoder.after(b),
                                    tag,
                                    b,
                                );
                            }
                            if let Some(message) = message {
                                decoded.push(message);
                            }
                        },
                        None => {
                            assert(false);
                        },
                    }
                },
                TransportEvent::Disconnected(tag) => {
                    drop_slots(&mut self.slots, tag);
                    proof {
                        slot::follows_disconnection(before.slots, log, tag);
                        let keep = |s: ProtocolSlot<D>| s.client_tag != tag;
                        assert forall|i: int| 0 <= i < self.slots@.len() implies (
                        #[trigger] self.slots@[i]).decoder.wf() by {
                            before.slots.lemma_filter_contains_rev(keep, self.slots@[i]);
                        }
                    }
                },
            }
            proof {
                let after = handled::<T, E, D>(idle, event, init_state@).unwrap().0;
                assert(ManagerView { port: self@.port.drained(), ..self@ } =~= after);
                seen = seen + 1;
            }
        }
    }
}

proof fn lemma_sent_all_ignores_inbound<T, E: ProtocolMessageEncoder<T>, D>(
    a: ManagerView<E, D>,
    b: ManagerView<E, D>,
    messages: Seq<T>,
)
    requires
        (ManagerView { port: a.port.drained(), ..a }) == b,
    ensures
        ({
            let x = sent_all::<T, E, D>(a, messages);
            (ManagerView { port: x.port.drained(), ..x }) == sent_all::<T, E, D>(b, messages)
        }),
    decreases messages.len(),
{
    if messages.len() > 0 {
        lemma_sent_all_ignores_inbound::<T, E, D>(a, b, messages.drop_last());
        let x = sent_all::<T, E, D>(a, messages);
        assert((ManagerView { port: x.port.drained(), ..x }) =~= sent_all::<T, E, D>(b, messages));
    }
}

} // verus!
