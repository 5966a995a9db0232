//! Priority interrupt controller (PIC) device.
//!
//! The PIC ranks up to 8 IRQ priority slots and tells the CPU which per-slot vector to jump to, via
//! [`VectorResolver`]. It occupies a single byte of address space (its Interrupt Enable Register, or
//! IER); it does not claim the 16-byte vector table itself:
//!
//! | Address           | Contents                                           |
//! |-------------------|----------------------------------------------------|
//! | `0xFFE0`-`0xFFE1` | Vector for slot 0 (highest priority: source 0)     |
//! | `0xFFE2`-`0xFFE3` | Vector for slot 1 (source 1)                       |
//! | ...               | ...                                                |
//! | `0xFFEC`-`0xFFED` | Vector for slot 6 (source 6)                       |
//! | `0xFFEE`-`0xFFEF` | Vector for slot 7 (sources 7 to 63, wired-OR)      |
//!
//! The RESET (`0xFFFC`) and NMI (`0xFFFA`) vectors are untouched.
//!
//! The IER's 7 low bits individually enable slots 0 to 6. A source whose slot is disabled is not
//! recognized until the slot is enabled again. Sources 7 to 63 are always recognized, and are always
//! routed to slot 7.
//!
//! Reading the IER returns the enable state of slots 0 to 6 in bits 0 to 6; bit 7 always reads as 1.
//! Writing the IER treats bit 7 as a set/clear indicator and bits 0 to 6 as a selection of the slots
//! to modify; unselected slots are left unchanged.

use crate::device::IoDevice;
use crate::interrupts;
use crate::interrupts::{InterruptController, VectorResolver, IRQ_VECTOR};
use std::sync::atomic::AtomicU8;
use std::sync::Arc;
use vstd::prelude::*;

verus! {

/// Base address of the PIC's 8-slot, 16-byte IRQ vector table.
pub const VECTOR_TABLE_BASE: u16 = 0xFFE0;

/// Slot that IRQ sources 7 to 63 fold onto (lowest priority, always recognized).
pub const FOLD_SLOT: u16 = 7;

/// Mask selecting the 7 individually-enableable low bits of the IER (slots 0 to 6).
pub const IER_ENABLE_MASK: u8 = 0x7F;

/// Bit 7 of an IER write selects enable (`1`) vs. disable (`0`) for the selected slots.
pub const IER_SET_FLAG: u8 = 0x80;

/// A priority interrupt controller: an [`IoDevice`] exposing a single Interrupt Enable Register,
/// paired with a [`VectorResolver`] that ranks active IRQ sources into an 8-slot vector table.
pub struct Pic {
    pub name: &'static str,
    /// Bus address of the IER register.
    pub address: u16,
    /// Enable state of slots 0 to 6, one bit per slot.
    pub ier: u8,
    /// Where the enable state is published to every [`PicVectorResolver`] that was handed out.
    pub published: PublishedIer,
}

/// Whether the cell was made with the enable state `ier`.
pub open spec fn is_made_with(cell: Arc<AtomicU8>, ier: u8) -> bool {
    call_ensures(AtomicU8::new, (ier,), *cell)
}

/// Whether `ier` was stored in the cell.
pub open spec fn is_stored_in(cell: Arc<AtomicU8>, ier: u8) -> bool {
    call_ensures(AtomicU8::store, (&*cell, ier, std::sync::atomic::Ordering::Relaxed), ())
}

/// Whether `ier` was loaded from the cell.
pub open spec fn is_loaded_from(cell: Arc<AtomicU8>, ier: u8) -> bool {
    call_ensures(AtomicU8::load, (&*cell, std::sync::atomic::Ordering::Relaxed), ier)
}

/// The owner's end of a cell in which an enable state is published. `stored` is the value with which
/// the cell was made or that was handed to it last. That a load then finds this value is a property
/// of the atomic, of which nothing is claimed here.
pub struct PublishedIer {
    cell: Arc<AtomicU8>,
    stored: Ghost<u8>,
}

impl PublishedIer {
    /// The shared cell.
    pub closed spec fn shared_cell(self) -> Arc<AtomicU8> {
        self.cell
    }

    /// The value that was handed to the cell last.
    pub closed spec fn last_stored(self) -> u8 {
        self.stored@
    }

    /// A new cell that holds `ier`.
    fn new(ier: u8) -> (p: Self)
        ensures
            p.last_stored() == ier,
            is_made_with(p.shared_cell(), ier),
    {
        PublishedIer { cell: Arc::new(AtomicU8::new(ier)), stored: Ghost(ier) }
    }

    /// Stores `ier` in the cell, which stays the same cell.
    fn store(&mut self, ier: u8)
        ensures
            final(self).shared_cell() == old(self).shared_cell(),
            final(self).last_stored() == ier,
            is_stored_in(final(self).shared_cell(), ier),
    {
        self.cell.store(ier, std::sync::atomic::Ordering::Relaxed);
        self.stored = Ghost(ier);
    }

    /// Another handle on the same cell.
    fn share(&self) -> (cell: Arc<AtomicU8>)
        ensures
            cell == self.shared_cell(),
    {
        self.cell.clone()
    }
}

/// A PIC, seen through its registers, the cell that it publishes its IER in, and what it handed to
/// the cell last.
#[verifier::ext_equal]
pub ghost struct PicView {
    pub name: Seq<char>,
    pub address: u16,
    pub ier: u8,
    pub cell: Arc<AtomicU8>,
    pub stored: u8,
}

impl View for Pic {
    type V = PicView;

    open spec fn view(&self) -> PicView {
        PicView {
            name: self.name@,
            address: self.address,
            ier: self.ier,
            cell: self.published.shared_cell(),
            stored: self.published.last_stored(),
        }
    }
}

/// The IER after a write of `value`.
pub open spec fn ier_written(ier: u8, value: u8) -> u8 {
    if value & IER_SET_FLAG != 0 {
        ier | (value & IER_ENABLE_MASK)
    } else {
        ier & !(value & IER_ENABLE_MASK)
    }
}

/// The sources that are recognized, one bit each: those below 7 as the IER enables them, and every
/// other.
pub open spec fn mask_for(ier: u8) -> u64 {
    (ier as u64 & 0x7F) | !0x7Fu64
}

/// Whether slot `slot`, below 7, is enabled and its source is active.
pub open spec fn slot_pending(ier: u8, active: u64, slot: u32) -> bool {
    interrupts::bit_of(active & mask_for(ier), slot)
}

/// The pending slot of the highest priority from `slot` on; slot 7 if there is none below it.
pub open spec fn first_pending(ier: u8, active: u64, slot: u32) -> u32
    decreases 7 - slot,
{
    if slot >= 7 || slot_pending(ier, active, slot) {
        slot
    } else {
        first_pending(ier, active, (slot + 1) as u32)
    }
}

/// The address from which the CPU fetches the vector at `vector_addr`.
pub open spec fn resolved(ier: u8, vector_addr: u16, active: u64) -> u16 {
    if vector_addr == IRQ_VECTOR {
        (VECTOR_TABLE_BASE + 2 * first_pending(ier, active, 0)) as u16
    } else {
        vector_addr
    }
}

impl PicView {
    /// What the IER shows.
    pub open spec fn value(self) -> u8 {
        self.ier | IER_SET_FLAG
    }

    /// The PIC after `value` was written to its IER, and the IER published.
    pub open spec fn after_write(self, value: u8) -> Self {
        let ier = ier_written(self.ier, value);
        PicView { ier, stored: ier, ..self }
    }
}

impl Pic {
    /// Creates a new `Pic` with all slots disabled and no IER address assigned.
    pub fn new(name: &'static str) -> (d: Self)
        ensures
            d@ == (PicView { name: name@, address: 0, ier: 0, cell: d@.cell, stored: 0 }),
            is_made_with(d@.cell, 0),
            d.wf(),
    {
        Pic { name, address: 0, ier: 0, published: PublishedIer::new(0) }
    }

    /// Sets the bus address of the IER register.
    pub fn with_address(self, address: u16) -> (d: Self)
        ensures
            d@ == (PicView { address, ..self@ }),
            self.wf() ==> d.wf(),
    {
        let mut d = self;
        d.address = address;
        d
    }

    /// Returns a [`VectorResolver`] that shares this `Pic`'s IER state, suitable for installing on
    /// the CPU alongside registering this `Pic` itself as a bus device: it reads the very cell that
    /// this `Pic` publishes its IER in, and goes on publishing in.
    pub fn vector_resolver(&self) -> (resolver: PicVectorResolver)
        ensures
            resolver.source() == self@.cell,
    {
        PicVectorResolver { published: self.published.share() }
    }

    /// Stores the IER in the shared cell.
    fn publish(&mut self)
        ensures
            final(self)@ == (PicView { stored: old(self)@.ier, ..old(self)@ }),
            is_stored_in(final(self)@.cell, final(self)@.ier),
    {
        self.published.store(self.ier);
    }
}

impl IoDevice for Pic {
    /// What was handed to the cell last is the IER, and it was: the cell was made with it, or it was
    /// stored there.
    open spec fn wf(&self) -> bool {
        &&& self@.stored == self@.ier
        &&& is_made_with(self@.cell, self@.ier) || is_stored_in(self@.cell, self@.ier)
    }

    open spec fn mapped_at(&self, address: u16) -> bool {
        true
    }

    open spec fn can_tick(&self, cycles: u32) -> bool {
        true
    }

    open spec fn written(before: Self, after: Self, address: u16, value: u8) -> bool {
        after@ == before@.after_write(value) && is_stored_in(after@.cell, after@.ier)
    }

    fn read(&mut self, address: u16) -> (value: u8)
        ensures
            value == old(self)@.value(),
            final(self)@ == old(self)@,
    {
        self.peek(address)
    }

    fn write(&mut self, address: u16, value: u8)
        ensures
            final(self)@ == old(self)@.after_write(value),
            is_stored_in(final(self)@.cell, final(self)@.ier),
    {
        self.ier = write_ier(self.ier, value);
        self.publish();
    }

    fn peek(&self, address: u16) -> (value: u8)
        ensures
            value == self@.value(),
    {
        read_ier(self.ier)
    }

    fn patch(&mut self, address: u16, value: u8)
        ensures
            final(self)@ == old(self)@.after_write(value),
            is_stored_in(final(self)@.cell, final(self)@.ier),
    {
        self.write(address, value);
    }

    fn reset(&mut self)
        ensures
            final(self)@ == (PicView { ier: 0, stored: 0, ..old(self)@ }),
            is_stored_in(final(self)@.cell, 0),
    {
        self.ier = 0;
        self.publish();
    }

    fn name(&self) -> (name: &str)
        ensures
            name@ == self.name@,
    {
        self.name
    }

    fn identity_address(&self) -> (address: u16)
        ensures
            address == self.address,
    {
        self.address
    }
}

impl VectorResolver for Pic {
    fn resolve(&self, vector_addr: u16, interrupts: &InterruptController) -> (address: u16)
        ensures
            address == resolved(self@.ier, vector_addr, interrupts.active),
    {
        resolve_vector(self.ier, vector_addr, interrupts)
    }

    fn irq_mask(&self) -> (mask: u64)
        ensures
            mask == mask_for(self@.ier),
    {
        irq_mask_for(self.ier)
    }
}

/// A [`VectorResolver`] sharing a [`Pic`]'s IER state, obtained via [`Pic::vector_resolver`].
///
/// It loads the enable state from the cell in which the `Pic` publishes it. Another thread may
/// publish at any time, so its contracts speak of whatever state the load finds.
pub struct PicVectorResolver {
    published: Arc<AtomicU8>,
}

impl PicVectorResolver {
    /// The cell that is loaded.
    pub closed spec fn source(self) -> Arc<AtomicU8> {
        self.published
    }

    fn observed_ier(&self) -> (ier: u8)
        ensures
            is_loaded_from(self.source(), ier),
    {
        self.published.load(std::sync::atomic::Ordering::Relaxed)
    }
}

impl VectorResolver for PicVectorResolver {
    fn resolve(&self, vector_addr: u16, interrupts: &InterruptController) -> (address: u16)
        ensures
            exists|ier: u8|
                is_loaded_from(self.source(), ier) && address == #[trigger] resolved(
                    ier,
                    vector_addr,
                    interrupts.active,
                ),
            vector_addr != IRQ_VECTOR ==> address == vector_addr,
    {
        resolve_vector(self.observed_ier(), vector_addr, interrupts)
    }

    fn irq_mask(&self) -> (mask: u64)
        ensures
            exists|ier: u8|
                is_loaded_from(self.source(), ier) && mask == #[trigger] mask_for(ier),
    {
        irq_mask_for(self.observed_ier())
    }
}

/// Applies an IER write to `ier`.
pub fn write_ier(ier: u8, value: u8) -> (written: u8)
    ensures
        written == ier_written(ier, value),
{
    let selected: u8 = value & IER_ENABLE_MASK;
    if value & IER_SET_FLAG != 0 {
        ier | selected
    } else {
        ier & !selected
    }
}

/// Reads `ier` with bit 7 forced to 1.
pub fn read_ier(ier: u8) -> (value: u8)
    ensures
        value == ier | IER_SET_FLAG,
{
    ier | IER_SET_FLAG
}

/// Shared routing logic for [`Pic`] and [`PicVectorResolver`]: resolves `vector_addr` against the
/// given IER byte and interrupt controller state.
pub fn resolve_vector(ier: u8, vector_addr: u16, interrupts: &InterruptController) -> (address: u16)
    ensures
        address == resolved(ier, vector_addr, interrupts.active),
{
    if vector_addr != IRQ_VECTOR {
        return vector_addr;
    }
    let recognized: u64 = interrupts.active_sources_mask() & irq_mask_for(ier);
    let mut slot: u32 = 0;
    while slot < 7 && (recognized >> slot) & 1 != 1
        invariant
            slot <= 7,
            recognized == interrupts.active & mask_for(ier),
            first_pending(ier, interrupts.active, slot) == first_pending(
                ier,
                interrupts.active,
                0,
            ),
        decreases 7 - slot,
    {
        slot = slot + 1;
    }
    VECTOR_TABLE_BASE + slot as u16 * 2
}

/// Shared mask logic for [`Pic`] and [`PicVectorResolver`]: bits 0 to 6 reflect `ier`'s enable
/// state, bits 7 to 63 are always set.
pub fn irq_mask_for(ier: u8) -> (mask: u64)
    ensures
        mask == mask_for(ier),
{
    (ier as u64 & IER_ENABLE_MASK as u64) | !(IER_ENABLE_MASK as u64)
}

/// A source below 7 is recognized exactly if its slot is enabled; every other source always is.
pub proof fn mask_recognizes(ier: u8, source: u32)
    by (bit_vector)
    requires
        source < 64,
    ensures
        source < 7 ==> ((mask_for(ier) >> source) & 1 == 1 <==> (ier >> source) & 1 == 1),
        source >= 7 ==> (mask_for(ier) >> source) & 1 == 1,
{
}

/// An IRQ is routed to the slot of the highest priority among those that are enabled and active, and
/// to the last slot if there is none.
pub proof fn routes_to_highest_priority(ier: u8, active: u64, slot: u32)
    requires
        slot < 7,
    ensures
        slot_pending(ier, active, slot) ==> first_pending(ier, active, 0) <= slot,
        first_pending(ier, active, 0) == slot ==> slot_pending(ier, active, slot),
        first_pending(ier, active, 0) <= FOLD_SLOT,
{
    lemma_first_pending(ier, active, 0, slot);
}

proof fn lemma_first_pending(ier: u8, active: u64, from: u32, slot: u32)
    requires
        from <= slot < 7,
    ensures
        slot_pending(ier, active, slot) ==> first_pending(ier, active, from) <= slot,
        first_pending(ier, active, from) == slot ==> slot_pending(ier, active, slot),
        from <= first_pending(ier, active, from) <= 7,
    decreases 7 - from,
{
    if !slot_pending(ier, active, from) {
        if from < slot {
            lemma_first_pending(ier, active, (from + 1) as u32, slot);
        } else if from < 6 {
            lemma_first_pending(ier, active, (from + 1) as u32, 6);
        } else {
            assert(first_pending(ier, active, 7) == 7);
        }
    }
}

/// A slot is pending exactly if its source is active and the IER enables it.
pub proof fn pending_means_active_and_enabled(ier: u8, active: u64, slot: u32)
    by (bit_vector)
    requires
        slot < 7,
    ensures
        slot_pending(ier, active, slot) <==> (active >> slot) & 1 == 1 && (ier >> slot) & 1 == 1,
{
}

/// Writing the IER leaves every unselected slot unchanged and turns every selected slot on or off;
/// it reads back with bit 7 set.
pub proof fn writing_selects_slots(ier: u8, value: u8)
    by (bit_vector)
    ensures
        ier_written(ier, value) & !value == ier & !value,
        value & 0x80 != 0 ==> ier_written(ier, value) & (value & 0x7F) == value & 0x7F,
        value & 0x80 == 0 ==> ier_written(ier, value) & (value & 0x7F) == 0,
        (ier_written(ier, value) | IER_SET_FLAG) & 0x80 == 0x80,
{
}

/// A PIC goes on publishing in the cell that its resolvers load: a write hands the new IER to that
/// very cell.
pub proof fn writes_are_published_where_resolvers_load(
    before: Pic,
    after: Pic,
    address: u16,
    value: u8,
    resolver: PicVectorResolver,
)
    requires
        resolver.source() == before@.cell,
        Pic::written(before, after, address, value),
    ensures
        resolver.source() == after@.cell,
        is_stored_in(resolver.source(), ier_written(before@.ier, value)),
        after.wf(),
{
}

/// The IRQ vector is fetched from the table at `0xFFE0`, two bytes for each slot: that of the lowest
/// numbered source below 7 that is active and enabled, or slot 7 if there is none. Any other vector
/// is fetched from where it is.
pub proof fn vectors_are_fetched_from_the_table(ier: u8, vector_addr: u16, active: u64, slot: u32)
    requires
        slot <= 7,
        forall|s: u32| s < slot ==> !((active >> s) & 1 == 1 && (#[trigger] (ier >> s)) & 1 == 1),
        slot < 7 ==> (active >> slot) & 1 == 1 && (ier >> slot) & 1 == 1,
    ensures
        resolved(ier, 0xFFFE, active) == 0xFFE0 + 2 * slot,
        vector_addr != 0xFFFE ==> resolved(ier, vector_addr, active) == vector_addr,
{
    assert forall|s: u32| s < slot implies !slot_pending(ier, active, s) by {
        pending_means_active_and_enabled(ier, active, s);
        assert(!((active >> s) & 1 == 1 && (ier >> s) & 1 == 1));
    }
    if slot < 7 {
        pending_means_active_and_enabled(ier, active, slot);
    }
    lemma_skips_to(ier, active, 0, slot);
}

proof fn lemma_skips_to(ier: u8, active: u64, from: u32, slot: u32)
    requires
        from <= slot <= 7,
        forall|s: u32| from <= s < slot ==> !slot_pending(ier, active, s),
        slot < 7 ==> slot_pending(ier, active, slot),
    ensures
        first_pending(ier, active, from) == slot,
    decreases slot - from,
{
    if from < slot {
        lemma_skips_to(ier, active, (from + 1) as u32, slot);
    }
}

/// The IER reads with bit 7 set. A write with bit 7 set adds the slots that are ones to those that
/// are enabled, and one with bit 7 clear takes them away.
pub proof fn ier_writes(d: PicView, value: u8, slot: u8)
    requires
        slot < 7,
    ensures
        ({
            let bit = 1u8 << slot;
            let after = d.after_write(value).ier;
            &&& value & 0x80 != 0 ==> (after & bit != 0 <==> d.ier & bit != 0 || value & bit != 0)
            &&& value & 0x80 == 0 ==> (after & bit != 0 <==> d.ier & bit != 0 && value & bit == 0)
        }),
        d.value() & 0x80 != 0,
        d.value() & 0x7F == d.ier & 0x7F,
        d.after_write(value).stored == d.after_write(value).ier,
{
    let ier = d.ier;
    assert(ier_written(ier, value) == if value & 0x80 != 0 {
        ier | (value & 0x7F)
    } else {
        ier & !(value & 0x7F)
    });
    assert((ier | 0x80) & 0x80 != 0 && (ier | 0x80) & 0x7F == ier & 0x7F) by (bit_vector);
    assert(((ier | (value & 0x7F)) & (1u8 << slot) != 0 <==> ier & (1u8 << slot) != 0 || value & (1u8
        << slot) != 0) && ((ier & !(value & 0x7F)) & (1u8 << slot) != 0 <==> ier & (1u8 << slot) != 0
        && value & (1u8 << slot) == 0)) by (bit_vector)
        requires
            slot < 7,
    ;
}

} // verus!
