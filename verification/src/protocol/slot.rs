//! The connections of a transport that serves several clients.

use crate::transport::TransportEvent;
use vstd::prelude::*;

verus! {

/// Decode state of one connection. A decoder tracks partial messages, so each connection has its
/// own; outgoing messages are encoded once for all connections.
pub struct ProtocolSlot<D> {
    pub client_tag: u8,
    pub decoder: D,
    pub initial_dump_sent: bool,
}

/// The slots of all clients but those with the given tag.
pub open spec fn without<D>(slots: Seq<ProtocolSlot<D>>, tag: u8) -> Seq<ProtocolSlot<D>> {
    slots.filter(|s: ProtocolSlot<D>| s.client_tag != tag)
}

/// Whether `i` is the first slot of the client with the given tag.
pub open spec fn is_slot_of<D>(slots: Seq<ProtocolSlot<D>>, tag: u8, i: int) -> bool {
    &&& 0 <= i < slots.len()
    &&& slots[i].client_tag == tag
    &&& forall|j: int| 0 <= j < i ==> slots[j].client_tag != tag
}

/// The first slot of the client with the given tag, if it has one.
pub open spec fn slot_of<D>(slots: Seq<ProtocolSlot<D>>, tag: u8) -> Option<int> {
    if exists|i: int| is_slot_of(slots, tag, i) {
        Some(choose|i: int| is_slot_of(slots, tag, i))
    } else {
        None
    }
}

/// A client without a slot has no slot with its tag.
pub proof fn no_slot<D>(slots: Seq<ProtocolSlot<D>>, tag: u8)
    ensures
        slot_of(slots, tag) is None <==> forall|i: int|
            0 <= i < slots.len() ==> (#[trigger] slots[i]).client_tag != tag,
{
    if exists|i: int| 0 <= i < slots.len() && (#[trigger] slots[i]).client_tag == tag {
        let i = choose|i: int| 0 <= i < slots.len() && (#[trigger] slots[i]).client_tag == tag;
        lemma_first_slot(slots, tag, i);
    }
}

proof fn lemma_first_slot<D>(slots: Seq<ProtocolSlot<D>>, tag: u8, i: int)
    requires
        0 <= i < slots.len(),
        slots[i].client_tag == tag,
    ensures
        exists|j: int| is_slot_of(slots, tag, j),
    decreases i,
{
    if exists|j: int| 0 <= j < i && (#[trigger] slots[j]).client_tag == tag {
        let j = choose|j: int| 0 <= j < i && (#[trigger] slots[j]).client_tag == tag;
        lemma_first_slot(slots, tag, j);
    } else {
        assert(is_slot_of(slots, tag, i));
    }
}

/// Whether, after `events`, the client with the given tag is connected: it has connected, and has not
/// disconnected since.
pub open spec fn connected(events: Seq<TransportEvent>, tag: u8) -> bool {
    exists|i: int| #[trigger] connected_at(events, tag, i)
}

/// Whether event `i` connected the client with the given tag, and none after it disconnected it.
pub open spec fn connected_at(events: Seq<TransportEvent>, tag: u8, i: int) -> bool {
    &&& 0 <= i < events.len()
    &&& events[i] == TransportEvent::Connected(tag)
    &&& forall|j: int| i < j < events.len() ==> events[j] != TransportEvent::Disconnected(tag)
}

/// Whether the slots are those of the clients that are connected after `events`.
pub open spec fn follows<D>(slots: Seq<ProtocolSlot<D>>, events: Seq<TransportEvent>) -> bool {
    forall|tag: u8| slot_of(slots, tag) is Some <==> #[trigger] connected(events, tag)
}

/// One more event changes whether a client is connected only if it is its own connection or
/// disconnection.
pub proof fn connected_after_event(events: Seq<TransportEvent>, event: TransportEvent, tag: u8)
    ensures
        connected(events.push(event), tag) == (match event {
            TransportEvent::Connected(t) => t == tag || connected(events, tag),
            TransportEvent::Disconnected(t) => t != tag && connected(events, tag),
            TransportEvent::Data(..) => connected(events, tag),
        }),
{
    let all = events.push(event);
    if event == TransportEvent::Connected(tag) {
        assert(connected_at(all, tag, events.len() as int));
    } else {
        if connected(all, tag) {
            let i = choose|i: int| connected_at(all, tag, i);
            assert(all[events.len() as int] == event);
            assert(i < events.len());
            assert forall|j: int| i < j < events.len() implies events[j]
                != TransportEvent::Disconnected(tag) by {
                assert(all[j] == events[j]);
            }
            assert(connected_at(events, tag, i));
        }
        if connected(events, tag) && event != TransportEvent::Disconnected(tag) {
            let i = choose|i: int| connected_at(events, tag, i);
            assert(connected_at(all, tag, i));
        }
    }
}

/// Dropping a client's slots leaves it without one, and every other client as it was.
pub proof fn without_drops_only<D>(slots: Seq<ProtocolSlot<D>>, tag: u8, other: u8)
    ensures
        slot_of(without(slots, tag), other) is Some <==> other != tag && slot_of(
            slots,
            other,
        ) is Some,
{
    let keep = |s: ProtocolSlot<D>| s.client_tag != tag;
    let kept = without(slots, tag);
    no_slot(slots, other);
    no_slot(kept, other);
    if slot_of(kept, other) is Some {
        let i = choose|i: int| 0 <= i < kept.len() && (#[trigger] kept[i]).client_tag == other;
        slots.lemma_filter_pred(keep, i);
        slots.lemma_filter_contains_rev(keep, kept[i]);
        let j = choose|j: int| 0 <= j < slots.len() && slots[j] == kept[i];
        assert(slots[j].client_tag == other);
    }
    if other != tag && slot_of(slots, other) is Some {
        let i = choose|i: int| 0 <= i < slots.len() && (#[trigger] slots[i]).client_tag == other;
        slots.lemma_filter_contains(keep, i);
        let j = choose|j: int| 0 <= j < kept.len() && kept[j] == slots[i];
        assert(kept[j].client_tag == other);
    }
}

/// Without events no client is connected.
pub proof fn follows_nothing<D>(slots: Seq<ProtocolSlot<D>>, events: Seq<TransportEvent>)
    requires
        slots.len() == 0,
        events.len() == 0,
    ensures
        follows(slots, events),
{
    assert forall|tag: u8| slot_of(slots, tag) is Some <==> #[trigger] connected(events, tag) by {
        no_slot(slots, tag);
    }
}

/// Giving a client that connects one slot in place of any that it had keeps the slots those of the
/// connected clients.
pub proof fn follows_connection<D>(
    slots: Seq<ProtocolSlot<D>>,
    events: Seq<TransportEvent>,
    slot: ProtocolSlot<D>,
)
    requires
        follows(slots, events),
    ensures
        follows(
            without(slots, slot.client_tag).push(slot),
            events.push(TransportEvent::Connected(slot.client_tag)),
        ),
{
    let tag = slot.client_tag;
    let kept = without(slots, tag);
    let after = kept.push(slot);
    let all = events.push(TransportEvent::Connected(tag));
    assert forall|other: u8| slot_of(after, other) is Some <==> #[trigger] connected(
        all,
        other,
    ) by {
        connected_after_event(events, TransportEvent::Connected(tag), other);
        without_drops_only(slots, tag, other);
        assert(slot_of(slots, other) is Some <==> connected(events, other));
        no_slot(kept, other);
        no_slot(after, other);
        assert(after[kept.len() as int] == slot);
        assert forall|i: int| 0 <= i < kept.len() implies after[i] == #[trigger] kept[i] by {}
    }
}

/// Dropping the slots of a client that disconnects keeps the slots those of the connected clients.
pub proof fn follows_disconnection<D>(
    slots: Seq<ProtocolSlot<D>>,
    events: Seq<TransportEvent>,
    tag: u8,
)
    requires
        follows(slots, events),
    ensures
        follows(without(slots, tag), events.push(TransportEvent::Disconnected(tag))),
{
    let all = events.push(TransportEvent::Disconnected(tag));
    assert forall|other: u8| slot_of(without(slots, tag), other) is Some
        <==> #[trigger] connected(all, other) by {
        connected_after_event(events, TransportEvent::Disconnected(tag), other);
        without_drops_only(slots, tag, other);
        assert(slot_of(slots, other) is Some <==> connected(events, other));
    }
}

/// Data leaves the slots those of the connected clients, whatever it does to a decoder.
pub proof fn follows_data<D>(
    slots: Seq<ProtocolSlot<D>>,
    events: Seq<TransportEvent>,
    i: int,
    decoder: D,
    tag: u8,
    b: u8,
)
    requires
        follows(slots, events),
        0 <= i < slots.len(),
    ensures
        follows(
            slots.update(i, ProtocolSlot { decoder, ..slots[i] }),
            events.push(TransportEvent::Data(tag, b)),
        ),
{
    let after = slots.update(i, ProtocolSlot { decoder, ..slots[i] });
    let all = events.push(TransportEvent::Data(tag, b));
    assert forall|other: u8| slot_of(after, other) is Some <==> #[trigger] connected(
        all,
        other,
    ) by {
        connected_after_event(events, TransportEvent::Data(tag, b), other);
        assert(slot_of(slots, other) is Some <==> connected(events, other));
        no_slot(slots, other);
        no_slot(after, other);
        assert forall|j: int| 0 <= j < slots.len() implies (#[trigger] after[j]).client_tag
            == slots[j].client_tag by {}
        assert forall|j: int| 0 <= j < slots.len() implies (#[trigger] slots[j]).client_tag
            == after[j].client_tag by {}
    }
}

/// There are slots exactly if some client is connected.
pub proof fn slots_mean_clients<D>(slots: Seq<ProtocolSlot<D>>, events: Seq<TransportEvent>)
    requires
        follows(slots, events),
    ensures
        slots.len() > 0 <==> exists|tag: u8| connected(events, tag),
{
    if slots.len() > 0 {
        no_slot(slots, slots[0].client_tag);
        assert(connected(events, slots[0].client_tag));
    }
    if exists|tag: u8| connected(events, tag) {
        let tag = choose|tag: u8| connected(events, tag);
        assert(slot_of(slots, tag) is Some);
    }
}

/// Finds the first slot of the client with the given tag.
pub fn find_slot<D>(tag: u8, slots: &Vec<ProtocolSlot<D>>) -> (found: Option<usize>)
    ensures
        match slot_of(slots@, tag) {
            Some(i) => found matches Some(f) && f == i && f < slots@.len(),
            None => found is None,
        },
{
    let mut i: usize = 0;
    while i < slots.len()
        invariant
            i <= slots@.len(),
            forall|j: int| 0 <= j < i ==> (#[trigger] slots@[j]).client_tag != tag,
        decreases slots@.len() - i,
    {
        if slots[i].client_tag == tag {
            assert(is_slot_of(slots@, tag, i as int));
            proof {
                let c = choose|c: int| is_slot_of(slots@, tag, c);
                assert(is_slot_of(slots@, tag, c));
                assert(c == i);
            }
            return Some(i);
        }
        i += 1;
    }
    proof {
        no_slot(slots@, tag);
    }
    None
}

/// Drops the slots of the client with the given tag.
pub fn drop_slots<D>(slots: &mut Vec<ProtocolSlot<D>>, tag: u8)
    ensures
        final(slots)@ == without(old(slots)@, tag),
{
    let ghost keep = |s: ProtocolSlot<D>| s.client_tag != tag;
    let ghost mut seen: int = 0;
    let mut i: usize = 0;
    proof {
        reveal(Seq::filter);
        assert(old(slots)@.take(0).filter(keep) =~= slots@.take(0));
        assert(old(slots)@.skip(0) =~= slots@.skip(0));
    }
    while i < slots.len()
        invariant
            keep == (|s: ProtocolSlot<D>| s.client_tag != tag),
            0 <= seen <= old(slots)@.len(),
            i <= slots@.len(),
            slots@.take(i as int) == old(slots)@.take(seen).filter(keep),
            slots@.skip(i as int) == old(slots)@.skip(seen),
        decreases slots@.len() - i,
    {
        proof {
            reveal(Seq::filter);
            assert(slots@.skip(i as int)[0] == old(slots)@.skip(seen)[0]);
            assert(old(slots)@.skip(seen).len() > 0);
            assert(old(slots)@.take(seen + 1).drop_last() =~= old(slots)@.take(seen));
        }
        let ghost before = slots@;
        if slots[i].client_tag == tag {
            let _ = slots.remove(i);
            proof {
                assert(slots@.take(i as int) =~= before.take(i as int));
                assert(slots@.skip(i as int) =~= before.skip(i as int).skip(1));
            }
        } else {
            i += 1;
            proof {
                assert(slots@.take(i as int) =~= before.take(i - 1).push(before[i - 1]));
                assert(slots@.skip(i as int) =~= before.skip(i - 1).skip(1));
            }
        }
        proof {
            assert(old(slots)@.skip(seen + 1) =~= old(slots)@.skip(seen).skip(1));
            seen = seen + 1;
        }
    }
    proof {
        assert(slots@.skip(i as int).len() == 0);
        assert(old(slots)@.take(seen) =~= old(slots)@);
        assert(slots@.take(i as int) =~= slots@);
    }
}

} // verus!
