//! Ranges of bus addresses.

use vstd::prelude::*;

verus! {

/// The bus addresses from `start` up to and with `end`.
#[derive(Debug, Clone, Copy, PartialEq, Eq, Structural)]
pub struct AddressRange {
    pub start: u16,
    pub end: u16,
}

/// What becomes of a write to read-only memory.
#[derive(Debug, Clone, Copy, PartialEq, Eq, Structural)]
pub enum RomWritePolicy {
    /// The write is dropped.
    Ignore,
    /// The write is dropped and reported.
    Error,
}

impl AddressRange {
    /// Whether the range holds `address`.
    pub open spec fn holds(self, address: u16) -> bool {
        self.start <= address <= self.end
    }

    /// Number of addresses in the range.
    pub open spec fn size(self) -> int {
        self.end - self.start + 1
    }

    /// The range from `start` up to and with `end`.
    pub fn new(start: u16, end: u16) -> (r: Self)
        ensures
            r == (AddressRange { start, end }),
    {
        AddressRange { start, end }
    }

    /// Whether the range holds `address`.
    pub fn contains(&self, address: u16) -> (held: bool)
        ensures
            held == self.holds(address),
    {
        self.start <= address && address <= self.end
    }

    /// Number of addresses in the range.
    pub fn len(&self) -> (n: usize)
        requires
            self.start <= self.end,
        ensures
            n == self.size(),
    {
        (self.end - self.start) as usize + 1
    }
}

} // verus!
