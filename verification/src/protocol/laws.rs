//! What holds of a protocol manager whatever the protocol.

use super::manager;
use super::slot;
use super::slot::ProtocolSlot;
use super::{ProtocolMessageDecoder, ProtocolMessageEncoder};
use crate::protocol_manager;
use crate::protocol_manager::ManagerView;
use crate::transport;
use crate::transport::{TransportError, TransportEvent};
use vstd::prelude::*;

verus! {

/// Whether every event is data from a client that has a slot.
pub open spec fn only_data<D>(events: Seq<TransportEvent>, slots: Seq<ProtocolSlot<D>>) -> bool {
    forall|i: int|
        0 <= i < events.len() ==> (#[trigger] events[i] matches TransportEvent::Data(tag, _)
            && slot::slot_of(slots, tag) is Some)
}

/// The bytes that the client with the given tag sent, in order.
pub open spec fn bytes_from(events: Seq<TransportEvent>, tag: u8) -> Seq<u8>
    decreases events.len(),
{
    if events.len() == 0 {
        Seq::empty()
    } else {
        let before = bytes_from(events.drop_last(), tag);
        match events.last() {
            TransportEvent::Data(sender, b) => if sender == tag {
                before.push(b)
            } else {
                before
            },
            _ => before,
        }
    }
}

/// Clients are told apart: however their data is interleaved, the decoder of each client has been
/// fed exactly the bytes that this client sent.
pub proof fn clients_are_told_apart<
    T,
    E: ProtocolMessageEncoder<T>,
    D: ProtocolMessageDecoder<T>,
>(m: ManagerView<E, D>, events: Seq<TransportEvent>, init_state: Seq<T>, tag: u8)
    requires
        only_data(events, m.slots),
        slot::slot_of(m.slots, tag) is Some,
    ensures
        manager::handled_all::<T, E, D>(m, events, init_state) matches Some((after, _)) && {
            let i = slot::slot_of(m.slots, tag).unwrap();
            &&& slot::slot_of(after.slots, tag) == Some(i)
            &&& after.slots[i].decoder == super::after_bytes::<T, D>(
                m.slots[i].decoder,
                bytes_from(events, tag),
            )
            &&& after.port == m.port
            &&& same_clients(m.slots, after.slots)
        },
    decreases events.len(),
{
    if events.len() > 0 {
        let prior = events.drop_last();
        assert(only_data(prior, m.slots)) by {
            assert forall|i: int| 0 <= i < prior.len() implies (
            #[trigger] prior[i] matches TransportEvent::Data(t, _) && slot::slot_of(m.slots, t)
                is Some) by {
                assert(prior[i] == events[i]);
            }
        }
        clients_are_told_apart::<T, E, D>(m, prior, init_state, tag);
        assert(events[events.len() - 1] == events.last());
        let sender = events.last()->Data_0;
        let b = events.last()->Data_1;
        clients_are_told_apart::<T, E, D>(m, prior, init_state, sender);
        let before = manager::handled_all::<T, E, D>(m, prior, init_state).unwrap().0;
        let at = slot::slot_of(m.slots, sender).unwrap();
        let i = slot::slot_of(m.slots, tag).unwrap();
        lemma_slot_of(m.slots, sender);
        lemma_slot_of(m.slots, tag);
        lemma_same_slot(m.slots, before.slots, sender);
        let after = before.with_decoder(at, before.slots[at].decoder.after(b));
        assert(same_clients(m.slots, after.slots));
        lemma_same_slot(m.slots, after.slots, tag);
        if sender == tag {
            let bytes = bytes_from(events, tag);
            assert(bytes.drop_last() =~= bytes_from(prior, tag));
        } else {
            assert(at != i);
        }
    }
}

/// A message that a client's byte completes is the one that its own bytes alone spell.
pub proof fn clients_spell_their_own_messages<
    T,
    E: ProtocolMessageEncoder<T>,
    D: ProtocolMessageDecoder<T>,
>(m: ManagerView<E, D>, events: Seq<TransportEvent>, init_state: Seq<T>, tag: u8, b: u8)
    requires
        only_data(events, m.slots),
        slot::slot_of(m.slots, tag) is Some,
    ensures
        ({
            let before = manager::handled_all::<T, E, D>(m, events, init_state).unwrap().0;
            let decoder = m.slots[slot::slot_of(m.slots, tag).unwrap()].decoder;
            manager::handled::<T, E, D>(before, TransportEvent::Data(tag, b), init_state).unwrap().1
                == super::after_bytes::<T, D>(decoder, bytes_from(events, tag)).decoded(b)
        }),
{
    clients_are_told_apart::<T, E, D>(m, events, init_state, tag);
}

/// The byte of `event`, if it is data from the client with the given tag.
spec fn byte_from(event: TransportEvent, tag: u8) -> Seq<u8> {
    match event {
        TransportEvent::Data(sender, b) => if sender == tag {
            seq![b]
        } else {
            Seq::empty()
        },
        _ => Seq::empty(),
    }
}

proof fn lemma_first_byte(events: Seq<TransportEvent>, tag: u8)
    requires
        events.len() > 0,
    ensures
        bytes_from(events, tag) == byte_from(events[0], tag) + bytes_from(events.skip(1), tag),
    decreases events.len(),
{
    if events.len() == 1 {
        assert(bytes_from(events.drop_last(), tag) =~= Seq::empty());
        assert(bytes_from(events.skip(1), tag) =~= Seq::empty());
        assert(bytes_from(events, tag) =~= byte_from(events[0], tag) + bytes_from(
            events.skip(1),
            tag,
        ));
    } else {
        lemma_first_byte(events.drop_last(), tag);
        assert(events.skip(1).drop_last() =~= events.drop_last().skip(1));
        assert(events.skip(1).last() == events.last());
        assert(bytes_from(events, tag) =~= byte_from(events[0], tag) + bytes_from(
            events.skip(1),
            tag,
        ));
    }
}

/// Clients are told apart on a fallible transport too: a poll takes events up to the one that
/// completes a message, and the decoder of each client has then been fed exactly the bytes among
/// them that this client sent.
pub proof fn polled_clients_are_told_apart<
    T,
    E: ProtocolMessageEncoder<T>,
    D: ProtocolMessageDecoder<T>,
>(m: ManagerView<E, D>, init_state: Seq<T>, tag: u8)
    requires
        only_data(m.port.inbound, m.slots),
        slot::slot_of(m.slots, tag) is Some,
    ensures
        protocol_manager::polled::<T, E, D>(m, init_state) matches Some((next, Ok(_))) && {
            let i = slot::slot_of(m.slots, tag).unwrap();
            let k = m.port.inbound.len() - next.port.inbound.len();
            &&& k >= 0
            &&& next.port.inbound == m.port.inbound.skip(k)
            &&& next.port.outbound == m.port.outbound
            &&& same_clients(m.slots, next.slots)
            &&& slot::slot_of(next.slots, tag) == Some(i)
            &&& next.slots[i].decoder == super::after_bytes::<T, D>(
                m.slots[i].decoder,
                bytes_from(m.port.inbound.take(k), tag),
            )
        },
    decreases m.port.inbound.len(),
{
    let events = m.port.inbound;
    let i = slot::slot_of(m.slots, tag).unwrap();
    lemma_slot_of(m.slots, tag);
    if events.len() == 0 {
        assert(events.skip(0) =~= events);
        assert(events.take(0) =~= Seq::empty());
    } else {
        assert(events[0] is Data);
        let sender = events[0]->Data_0;
        let b = events[0]->Data_1;
        let at = slot::slot_of(m.slots, sender).unwrap();
        lemma_slot_of(m.slots, sender);
        let decoder = m.slots[at].decoder;
        let fed = m.taken().with_decoder(at, decoder.after(b));
        assert(same_clients(m.slots, fed.slots));
        lemma_same_slot(m.slots, fed.slots, tag);
        let first = byte_from(events[0], tag);
        assert(fed.slots[i].decoder == super::after_bytes::<T, D>(m.slots[i].decoder, first)) by {
            reveal_with_fuel(super::after_bytes, 2);
            if sender == tag {
                assert(seq![b].drop_last() =~= Seq::<u8>::empty());
            }
        }
        if decoder.decoded(b) is Some {
            assert(events.take(1).skip(1) =~= Seq::empty());
            lemma_first_byte(events.take(1), tag);
            assert(bytes_from(events.take(1), tag) =~= first);
        } else {
            assert(only_data(fed.port.inbound, fed.slots)) by {
                assert forall|j: int| 0 <= j < fed.port.inbound.len() implies (
                #[trigger] fed.port.inbound[j] matches TransportEvent::Data(t, _) && slot::slot_of(
                    fed.slots,
                    t,
                ) is Some) by {
                    assert(fed.port.inbound[j] == events[j + 1]);
                    lemma_same_slot(m.slots, fed.slots, events[j + 1]->Data_0);
                }
            }
            polled_clients_are_told_apart::<T, E, D>(fed, init_state, tag);
            let next = protocol_manager::polled::<T, E, D>(fed, init_state).unwrap().0;
            assert forall|j: int| 0 <= j < m.slots.len() implies (
            #[trigger] m.slots[j]).client_tag == (#[trigger] next.slots[j]).client_tag by {
                assert(m.slots[j].client_tag == fed.slots[j].client_tag);
                assert(fed.slots[j].client_tag == next.slots[j].client_tag);
            }
            let k = events.len() - next.port.inbound.len();
            assert(fed.port.inbound.skip(k - 1) =~= events.skip(k));
            lemma_first_byte(events.take(k), tag);
            assert(events.take(k).skip(1) =~= fed.port.inbound.take(k - 1));
            super::feeding_in_parts::<T, D>(
                m.slots[i].decoder,
                first,
                bytes_from(fed.port.inbound.take(k - 1), tag),
            );
        }
    }
}

/// The bytes that messages are encoded as, one after the other.
pub open spec fn encoded_all<T, E: ProtocolMessageEncoder<T>>(encoder: E, messages: Seq<T>) -> Seq<
    u8,
>
    decreases messages.len(),
{
    if messages.len() == 0 {
        Seq::empty()
    } else {
        encoded_all::<T, E>(encoder, messages.drop_last()) + encoder_after::<T, E>(
            encoder,
            messages.drop_last(),
        ).encoded(messages.last())
    }
}

/// An encoder once it has encoded each of `messages`.
pub open spec fn encoder_after<T, E: ProtocolMessageEncoder<T>>(encoder: E, messages: Seq<T>) -> E
    decreases messages.len(),
{
    if messages.len() == 0 {
        encoder
    } else {
        encoder_after::<T, E>(encoder, messages.drop_last()).after(messages.last())
    }
}

/// What is sent is each message's encoding, in order.
pub proof fn messages_are_sent_in_order<T, E: ProtocolMessageEncoder<T>, D>(
    m: ManagerView<E, D>,
    messages: Seq<T>,
)
    requires
        m.port.fault is None,
    ensures
        ({
            let after = manager::sent_all::<T, E, D>(m, messages);
            &&& after.port.outbound == m.port.outbound + encoded_all::<T, E>(m.encoder, messages)
            &&& after.port.fault is None
            &&& after.encoder == encoder_after::<T, E>(m.encoder, messages)
            &&& after.slots == m.slots
        }),
    decreases messages.len(),
{
    if messages.len() > 0 {
        messages_are_sent_in_order::<T, E, D>(m, messages.drop_last());
        let after = manager::sent_all::<T, E, D>(m, messages);
        assert(after.port.outbound =~= m.port.outbound + encoded_all::<T, E>(m.encoder, messages));
    } else {
        assert(m.port.outbound + Seq::<u8>::empty() =~= m.port.outbound);
    }
}

/// A client that connects gets one slot with a decoder that has seen nothing, in place of any that
/// it had, and is sent the state dump once. No other client's slot changes.
pub proof fn connection_is_answered<T, E: ProtocolMessageEncoder<T>, D: ProtocolMessageDecoder<T>>(
    m: ManagerView<E, D>,
    tag: u8,
    init_state: Seq<T>,
)
    requires
        m.port.fault is None,
    ensures
        manager::handled::<T, E, D>(m, TransportEvent::Connected(tag), init_state) matches Some(
            (after, None),
        ) && {
            &&& after.port.outbound == m.port.outbound + encoded_all::<T, E>(m.encoder, init_state)
            &&& after.slots == slot::without(m.slots, tag).push(
                ProtocolSlot {
                    client_tag: tag,
                    decoder: D::initial(m.encoding),
                    initial_dump_sent: true,
                },
            )
            &&& forall|i: int|
                0 <= i < after.slots.len() - 1 ==> (#[trigger] after.slots[i]).client_tag != tag
        },
{
    messages_are_sent_in_order::<T, E, D>(m.connected(tag, D::initial(m.encoding)), init_state);
    let keep = |s: ProtocolSlot<D>| s.client_tag != tag;
    let kept = slot::without(m.slots, tag);
    assert forall|i: int| 0 <= i < kept.len() implies (#[trigger] kept[i]).client_tag != tag by {
        m.slots.lemma_filter_pred(keep, i);
    }
}

proof fn lemma_encoded_first<T, E: ProtocolMessageEncoder<T>>(encoder: E, messages: Seq<T>)
    requires
        messages.len() > 0,
    ensures
        encoded_all::<T, E>(encoder, messages) == encoder.encoded(messages[0]) + encoded_all::<
            T,
            E,
        >(encoder.after(messages[0]), messages.skip(1)),
        encoder_after::<T, E>(encoder, messages) == encoder_after::<T, E>(
            encoder.after(messages[0]),
            messages.skip(1),
        ),
    decreases messages.len(),
{
    let rest = messages.skip(1);
    let next = encoder.after(messages[0]);
    let init = messages.drop_last();
    if messages.len() == 1 {
        assert(init =~= Seq::empty());
        assert(rest =~= Seq::empty());
        assert(encoder_after::<T, E>(encoder, init) == encoder);
        assert(encoded_all::<T, E>(encoder, init) =~= Seq::empty());
        assert(encoder_after::<T, E>(next, rest) == next);
        assert(encoded_all::<T, E>(next, rest) =~= Seq::empty());
    } else {
        lemma_encoded_first::<T, E>(encoder, init);
        assert(init.skip(1) =~= rest.drop_last());
        assert(init[0] == messages[0]);
        assert(rest.last() == messages.last());
    }
    assert(encoded_all::<T, E>(encoder, messages) =~= encoder.encoded(messages[0]) + encoded_all::<
        T,
        E,
    >(next, rest));
}

proof fn lemma_sent_up_to_error<T, E: ProtocolMessageEncoder<T>, D>(
    m: ManagerView<E, D>,
    messages: Seq<T>,
)
    ensures
        ({
            let (after, result) = protocol_manager::sent_all::<T, E, D>(m, messages);
            &&& (after.port, result) == m.port.sent_up_to_error(
                encoded_all::<T, E>(m.encoder, messages),
            )
            &&& result is Ok ==> after.encoder == encoder_after::<T, E>(m.encoder, messages)
            &&& after.slots == m.slots
        }),
    decreases messages.len(),
{
    if messages.len() > 0 {
        let next = protocol_manager::sent::<T, E, D>(m, messages[0]).0;
        lemma_encoded_first::<T, E>(m.encoder, messages);
        transport::sending_up_to_error_in_parts(
            m.port,
            m.encoder.encoded(messages[0]),
            encoded_all::<T, E>(m.encoder.after(messages[0]), messages.skip(1)),
        );
        lemma_sent_up_to_error::<T, E, D>(next, messages.skip(1));
    } else {
        assert(m.port.sent(Seq::empty()) =~= m.port);
    }
}

/// On a fallible transport, what is sent is each message's encoding, in order, up to the first byte
/// that the transport refuses. If it refuses none, all of it has gone out, once. Otherwise its error
/// is returned: exactly the bytes before the refused one have gone out, and of the others none but
/// the refused one was handed to the transport.
pub proof fn messages_are_sent_up_to_error<T, E: ProtocolMessageEncoder<T>, D>(
    m: ManagerView<E, D>,
    messages: Seq<T>,
)
    ensures
        ({
            let (after, result) = protocol_manager::sent_all::<T, E, D>(m, messages);
            let bytes = encoded_all::<T, E>(m.encoder, messages);
            let taken = m.port.accepts(bytes.len()) as int;
            &&& taken == bytes.len() ==> {
                &&& result is Ok
                &&& after.port.outbound == m.port.outbound + bytes
                &&& after.port.refused == m.port.refused
                &&& after.encoder == encoder_after::<T, E>(m.encoder, messages)
            }
            &&& taken < bytes.len() ==> {
                &&& result == Err::<(), TransportError>(m.port.fault.unwrap())
                &&& after.port.outbound == m.port.outbound + bytes.take(taken)
                &&& after.port.refused == m.port.refused.push(bytes[taken])
            }
            &&& after.port.inbound == m.port.inbound
            &&& after.slots == m.slots
        }),
{
    lemma_sent_up_to_error::<T, E, D>(m, messages);
    let bytes = encoded_all::<T, E>(m.encoder, messages);
    if m.port.accepts(bytes.len()) < bytes.len() {
        transport::failed_send_stops(m.port, bytes);
    } else {
        transport::successful_send_is_whole(m.port, bytes);
    }
}

/// On a fallible transport without a fault, what is sent is each message's encoding, in order.
pub proof fn messages_are_sent_in_order_without_fault<T, E: ProtocolMessageEncoder<T>, D>(
    m: ManagerView<E, D>,
    messages: Seq<T>,
)
    requires
        m.port.fault is None,
    ensures
        ({
            let (after, result) = protocol_manager::sent_all::<T, E, D>(m, messages);
            &&& result is Ok
            &&& after.port.outbound == m.port.outbound + encoded_all::<T, E>(m.encoder, messages)
            &&& after.port.inbound == m.port.inbound
            &&& after.port.fault is None
            &&& after.encoder == encoder_after::<T, E>(m.encoder, messages)
            &&& after.slots == m.slots
        }),
{
    lemma_sent_up_to_error::<T, E, D>(m, messages);
}

/// On a fallible transport that takes the whole state dump, too, a client that connects gets a slot
/// with a decoder that has seen nothing and is sent the state dump once; the poll then goes on.
pub proof fn polled_connection_is_answered<
    T,
    E: ProtocolMessageEncoder<T>,
    D: ProtocolMessageDecoder<T>,
>(m: ManagerView<E, D>, init_state: Seq<T>, tag: u8)
    requires
        ({
            let dump = encoded_all::<T, E>(m.encoder, init_state);
            m.port.accepts(dump.len()) == dump.len()
        }),
        m.port.inbound.len() > 0,
        m.port.inbound[0] == TransportEvent::Connected(tag),
    ensures
        ({
            let answered = protocol_manager::sent_all::<T, E, D>(
                m.taken().connected(tag, D::initial(m.encoding)),
                init_state,
            ).0;
            &&& protocol_manager::polled::<T, E, D>(m, init_state) == protocol_manager::polled::<
                T,
                E,
                D,
            >(answered, init_state)
            &&& answered.port.inbound == m.port.inbound.skip(1)
            &&& answered.port.outbound == m.port.outbound + encoded_all::<T, E>(
                m.encoder,
                init_state,
            )
            &&& answered.slots == slot::without(m.slots, tag).push(
                ProtocolSlot {
                    client_tag: tag,
                    decoder: D::initial(m.encoding),
                    initial_dump_sent: true,
                },
            )
        }),
{
    messages_are_sent_up_to_error::<T, E, D>(
        m.taken().connected(tag, D::initial(m.encoding)),
        init_state,
    );
}

/// A state dump that the transport refuses midway ends the poll with the transport's error. The
/// client has its slot, what was sent of the dump is what came before the refused byte, and the
/// events that follow are still to be polled.
pub proof fn interrupted_dump_ends_poll<
    T,
    E: ProtocolMessageEncoder<T>,
    D: ProtocolMessageDecoder<T>,
>(m: ManagerView<E, D>, init_state: Seq<T>, tag: u8)
    requires
        ({
            let dump = encoded_all::<T, E>(m.encoder, init_state);
            m.port.accepts(dump.len()) < dump.len()
        }),
        m.port.inbound.len() > 0,
        m.port.inbound[0] == TransportEvent::Connected(tag),
    ensures
        ({
            let dump = encoded_all::<T, E>(m.encoder, init_state);
            let taken = m.port.accepts(dump.len()) as int;
            let (after, result) = protocol_manager::polled::<T, E, D>(m, init_state).unwrap();
            &&& protocol_manager::polled::<T, E, D>(m, init_state) is Some
            &&& result == Err::<Option<T>, TransportError>(m.port.fault.unwrap())
            &&& after.port.outbound == m.port.outbound + dump.take(taken)
            &&& after.port.refused == m.port.refused.push(dump[taken])
            &&& after.port.inbound == m.port.inbound.skip(1)
            &&& after.slots == slot::without(m.slots, tag).push(
                ProtocolSlot {
                    client_tag: tag,
                    decoder: D::initial(m.encoding),
                    initial_dump_sent: true,
                },
            )
        }),
{
    messages_are_sent_up_to_error::<T, E, D>(
        m.taken().connected(tag, D::initial(m.encoding)),
        init_state,
    );
}

/// Nothing is left of a client that has disconnected.
pub proof fn disconnection_forgets<T, E: ProtocolMessageEncoder<T>, D: ProtocolMessageDecoder<T>>(
    m: ManagerView<E, D>,
    tag: u8,
    init_state: Seq<T>,
)
    ensures
        manager::handled::<T, E, D>(m, TransportEvent::Disconnected(tag), init_state) matches Some(
            (after, None),
        ) && slot::slot_of(after.slots, tag) is None && after.port == m.port,
{
    let keep = |s: ProtocolSlot<D>| s.client_tag != tag;
    let kept = slot::without(m.slots, tag);
    assert forall|i: int| 0 <= i < kept.len() implies (#[trigger] kept[i]).client_tag != tag by {
        m.slots.lemma_filter_pred(keep, i);
    }
    slot::no_slot(kept, tag);
}

/// Whether two lists of slots belong to the same clients.
pub open spec fn same_clients<D>(a: Seq<ProtocolSlot<D>>, b: Seq<ProtocolSlot<D>>) -> bool {
    a.len() == b.len() && forall|i: int|
        0 <= i < a.len() ==> (#[trigger] a[i]).client_tag == (#[trigger] b[i]).client_tag
}

proof fn lemma_slot_of<D>(slots: Seq<ProtocolSlot<D>>, tag: u8)
    requires
        slot::slot_of(slots, tag) is Some,
    ensures
        slot::is_slot_of(slots, tag, slot::slot_of(slots, tag).unwrap()),
{
}

proof fn lemma_same_slot<D>(a: Seq<ProtocolSlot<D>>, b: Seq<ProtocolSlot<D>>, tag: u8)
    requires
        same_clients(a, b),
        slot::slot_of(a, tag) is Some,
    ensures
        slot::slot_of(b, tag) == slot::slot_of(a, tag),
{
    let i = slot::slot_of(a, tag).unwrap();
    lemma_slot_of(a, tag);
    assert(slot::is_slot_of(b, tag, i)) by {
        assert(a[i].client_tag == b[i].client_tag);
        assert forall|j: int| 0 <= j < i implies (#[trigger] b[j]).client_tag != tag by {
            assert(a[j].client_tag == b[j].client_tag);
        }
    }
    let c = slot::slot_of(b, tag).unwrap();
    lemma_slot_of(b, tag);
    assert(c == i);
}

} // verus!
