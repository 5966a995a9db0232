//! Interrupt sources of the bus, and where the CPU takes its vectors from.

use vstd::prelude::*;

verus! {

/// Address of the 6502's IRQ/BRK vector.
pub const IRQ_VECTOR: u16 = 0xFFFE;

/// Number of interrupt sources.
pub const IRQ_SOURCES: u32 = 64;

/// One of the sources of an interrupt request. A lower value is a higher priority.
#[derive(Debug, Clone, Copy, PartialEq, Eq, Structural)]
pub struct IrqSource(pub u32);

/// Whether bit `bit` of `mask` is set.
pub open spec fn bit_of(mask: u64, bit: u32) -> bool {
    (mask >> bit) & 1 == 1
}

/// The interrupt sources that currently request an interrupt.
#[derive(Debug, Clone, Copy, PartialEq, Eq, Structural)]
pub struct InterruptController {
    /// One bit per source.
    pub active: u64,
}

impl InterruptController {
    /// Whether `source` requests an interrupt.
    pub open spec fn is_active(self, source: u32) -> bool {
        bit_of(self.active, source)
    }

    /// A controller with no active source.
    pub fn new() -> (c: Self)
        ensures
            c.active == 0,
            forall|s: u32| s < IRQ_SOURCES ==> !#[trigger] c.is_active(s),
    {
        assert(forall|s: u32| s < 64 ==> (0u64 >> s) & 1 != 1) by (bit_vector);
        InterruptController { active: 0 }
    }

    /// Makes `source` active.
    pub fn assert_irq(&mut self, source: IrqSource)
        requires
            source.0 < IRQ_SOURCES,
        ensures
            forall|s: u32|
                s < IRQ_SOURCES ==> #[trigger] final(self).is_active(s) == (s == source.0 || old(
                    self,
                ).is_active(s)),
    {
        let before: u64 = self.active;
        let n: u32 = source.0;
        assert(forall|s: u32|
            s < 64 ==> ((#[trigger] ((before | (1u64 << n)) >> s)) & 1 == 1) == (s == n || (before
                >> s) & 1 == 1)) by (bit_vector)
            requires
                n < 64,
        ;
        self.active = self.active | (1u64 << source.0);
    }

    /// The active sources, one bit each.
    pub fn active_sources_mask(&self) -> (mask: u64)
        ensures
            mask == self.active,
    {
        self.active
    }
}

/// Tells the CPU where to fetch a vector from, and which sources it recognizes.
pub trait VectorResolver {
    /// The address to fetch in place of `vector_addr`.
    fn resolve(&self, vector_addr: u16, interrupts: &InterruptController) -> (address: u16);

    /// The sources that the CPU recognizes as a pending IRQ, one bit each.
    fn irq_mask(&self) -> (mask: u64);
}

/// Source `s` has bit `s` of the mask of active sources, counted from the least significant bit.
pub proof fn sources_are_bits(c: InterruptController, s: u32)
    requires
        s < 64,
    ensures
        c.is_active(s) <==> c.active & (1u64 << s) != 0,
{
    let mask = c.active;
    assert((mask >> s) & 1 == 1 <==> mask & (1u64 << s) != 0) by (bit_vector)
        requires
            s < 64,
    ;
}

} // verus!
