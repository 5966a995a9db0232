//! 16-bit Galois LFSR pseudo-random number generator device.

pub mod cycle;

use crate::device;
use crate::device::IoDevice;
use vstd::prelude::*;

verus! {

/// Default Galois tap mask: `x^16 + x^14 + x^13 + x^11 + 1` (maximal-length, 65535-state cycle).
pub const DEFAULT_TAPS: u16 = 0xB400;

/// Default initial LFSR state used at construction and after reset.
pub const DEFAULT_STATE: u16 = 0xACE1;

/// A memory-mapped 16-bit Galois LFSR pseudo-random number generator.
///
/// | Offset   | Read                                 | Write                    |
/// |----------|--------------------------------------|--------------------------|
/// | 0 (LOW)  | Latch/advance state; return low byte | Buffer low seed byte     |
/// | 1 (HIGH) | Return latched high byte             | Load seed from both bytes |
///
/// In **continuous** mode (default), the LFSR advances once per CPU clock cycle via
/// [`IoDevice::tick`]; reading only latches and returns the current state. In **step** mode, the LFSR
/// advances only when the LOW register is read.
///
/// Seeding: write LOW byte first (buffered), then write HIGH byte (loads the LFSR). A seed of
/// `0x0000` is clamped to `0x0001` to prevent a stuck state.
pub struct Lfsr16 {
    pub name: &'static str,
    pub address: u16,
    pub taps: u16,
    pub state: u16,
    pub seed_buf: u8,
    /// Latched 16-bit snapshot; HIGH reads return from here without advancing.
    pub latch: u16,
    /// When `true`, `tick()` drives advances; when `false`, LOW reads drive advances.
    pub continuous: bool,
}

/// An LFSR, seen through the text of its name.
#[verifier::ext_equal]
pub ghost struct LfsrView {
    pub name: Seq<char>,
    pub address: u16,
    pub taps: u16,
    pub state: u16,
    pub seed_buf: u8,
    pub latch: u16,
    pub continuous: bool,
}

impl View for Lfsr16 {
    type V = LfsrView;

    open spec fn view(&self) -> LfsrView {
        LfsrView {
            name: self.name@,
            address: self.address,
            taps: self.taps,
            state: self.state,
            seed_buf: self.seed_buf,
            latch: self.latch,
            continuous: self.continuous,
        }
    }
}

/// The state after one step: shifted right, with the taps folded in if a one fell out.
pub open spec fn stepped(state: u16, taps: u16) -> u16 {
    if state % 2 == 1 {
        (state / 2) ^ taps
    } else {
        state / 2
    }
}

/// The state after `n` steps.
pub open spec fn stepped_times(state: u16, taps: u16, n: nat) -> u16
    decreases n,
{
    if n == 0 {
        state
    } else {
        stepped_times(stepped(state, taps), taps, (n - 1) as nat)
    }
}

impl LfsrView {
    /// What a read at `offset` returns.
    pub open spec fn read_value(self, offset: int) -> u8 {
        if offset == 0 {
            (self.after_read(0).latch % 256) as u8
        } else {
            self.peek_value(offset)
        }
    }

    /// The device after a read at `offset`.
    pub open spec fn after_read(self, offset: int) -> Self {
        if offset == 0 {
            let state = if self.continuous {
                self.state
            } else {
                stepped(self.state, self.taps)
            };
            LfsrView { state, latch: state, ..self }
        } else {
            self
        }
    }

    /// The device after a write at `offset`.
    pub open spec fn after_write(self, offset: int, value: u8) -> Self {
        if offset == 0 {
            LfsrView { seed_buf: value, ..self }
        } else if offset == 1 {
            let seed = self.seed_buf + 256 * value;
            LfsrView {
                state: if seed == 0 {
                    1
                } else {
                    seed as u16
                },
                ..self
            }
        } else {
            self
        }
    }

    /// What a peek at `offset` returns.
    pub open spec fn peek_value(self, offset: int) -> u8 {
        if offset == 0 {
            (self.latch % 256) as u8
        } else if offset == 1 {
            (self.latch / 256) as u8
        } else {
            0xFF
        }
    }

    /// The device after `cycles` clock cycles.
    pub open spec fn after_tick(self, cycles: u32) -> Self {
        if self.continuous {
            LfsrView { state: stepped_times(self.state, self.taps, cycles as nat), ..self }
        } else {
            self
        }
    }

    /// The device after a reset.
    pub open spec fn after_reset(self) -> Self {
        LfsrView { state: DEFAULT_STATE, latch: 0, seed_buf: 0, ..self }
    }
}

impl Lfsr16 {
    /// Creates a new `Lfsr16` with default taps ([`DEFAULT_TAPS`]) and continuous advance mode.
    pub fn new(name: &'static str) -> (d: Self)
        ensures
            d@ == (LfsrView {
                name: name@,
                address: 0,
                taps: DEFAULT_TAPS,
                state: DEFAULT_STATE,
                seed_buf: 0,
                latch: 0,
                continuous: true,
            }),
    {
        Lfsr16 {
            name,
            address: 0,
            taps: DEFAULT_TAPS,
            state: DEFAULT_STATE,
            seed_buf: 0,
            latch: 0,
            continuous: true,
        }
    }

    /// Sets the base bus address for this device.
    pub fn with_address(self, address: u16) -> (d: Self)
        ensures
            d@ == (LfsrView { address, ..self@ }),
    {
        let mut d = self;
        d.address = address;
        d
    }

    /// Sets the Galois tap mask. Use a maximal-length polynomial for a full-cycle sequence.
    pub fn with_taps(self, taps: u16) -> (d: Self)
        ensures
            d@ == (LfsrView { taps, ..self@ }),
    {
        let mut d = self;
        d.taps = taps;
        d
    }

    /// Selects the advance mode: `true` for continuous (tick-driven), `false` for step
    /// (read-driven).
    pub fn with_continuous(self, continuous: bool) -> (d: Self)
        ensures
            d@ == (LfsrView { continuous, ..self@ }),
    {
        let mut d = self;
        d.continuous = continuous;
        d
    }

    /// Advances the LFSR by one step using the Galois feedback rule.
    pub fn advance(&mut self)
        ensures
            final(self)@ == (LfsrView {
                state: stepped(old(self)@.state, old(self)@.taps),
                ..old(self)@
            }),
    {
        if self.state % 2 == 1 {
            self.state = (self.state / 2) ^ self.taps;
        } else {
            self.state = self.state / 2;
        }
    }

    /// The line with which a host logs a reset of this device: its name and its address.
    pub fn reset_line(&self) -> (line: String)
        ensures
            line@ == device::reset_line_text(
                self@.name,
                "0x"@ + crate::text::hex4(self@.address as nat),
            ),
    {
        device::make_reset_line(self.name, self.address)
    }
}

impl IoDevice for Lfsr16 {
    open spec fn wf(&self) -> bool {
        true
    }

    open spec fn mapped_at(&self, address: u16) -> bool {
        address >= self.address
    }

    open spec fn can_tick(&self, cycles: u32) -> bool {
        true
    }

    open spec fn written(before: Self, after: Self, address: u16, value: u8) -> bool {
        after@ == before@.after_write(address - before@.address, value)
    }

    fn read(&mut self, address: u16) -> (value: u8)
        ensures
            value == old(self)@.read_value(address - old(self)@.address),
            final(self)@ == old(self)@.after_read(address - old(self)@.address),
    {
        let offset: u16 = address - self.address;
        match offset {
            0 => {
                if !self.continuous {
                    self.advance();
                }
                self.latch = self.state;
                (self.latch % 256) as u8
            },
            1 => (self.latch / 256) as u8,
            _ => 0xFF,
        }
    }

    fn write(&mut self, address: u16, value: u8)
        ensures
            final(self)@ == old(self)@.after_write(address - old(self)@.address, value),
    {
        let offset: u16 = address - self.address;
        match offset {
            0 => {
                self.seed_buf = value;
            },
            1 => {
                let seed: u16 = self.seed_buf as u16 + 256 * value as u16;
                self.state = if seed == 0 {
                    1
                } else {
                    seed
                };
            },
            _ => {},
        }
    }

    fn peek(&self, address: u16) -> (value: u8)
        ensures
            value == self@.peek_value(address - self@.address),
    {
        let offset: u16 = address - self.address;
        match offset {
            0 => (self.latch % 256) as u8,
            1 => (self.latch / 256) as u8,
            _ => 0xFF,
        }
    }

    fn patch(&mut self, address: u16, value: u8)
        ensures
            final(self)@ == old(self)@.after_write(address - old(self)@.address, value),
    {
        self.write(address, value);
    }

    fn tick(&mut self, cycles: u32)
        ensures
            final(self)@ == old(self)@.after_tick(cycles),
    {
        if self.continuous {
            let ghost start = self@;
            for i in 0..cycles
                invariant
                    self@ == (LfsrView { state: self.state, ..start }),
                    stepped_times(self.state, start.taps, (cycles - i) as nat) == stepped_times(
                        start.state,
                        start.taps,
                        cycles as nat,
                    ),
            {
                self.advance();
            }
        }
    }

    fn reset(&mut self)
        ensures
            final(self)@ == old(self)@.after_reset(),
    {
        self.state = DEFAULT_STATE;
        self.latch = 0;
        self.seed_buf = 0;
    }

    fn name(&self) -> (name: &str)
        ensures
            name@ == self.name@,
    {
        self.name
    }

    fn identity_address(&self) -> (address: u16)
        ensures
            address == self.address,
    {
        self.address
    }
}

/// An LFSR whose topmost tap is set never gets stuck: from a state that is not zero it never reaches
/// zero.
pub proof fn never_stuck(state: u16, taps: u16, n: nat)
    requires
        state != 0,
        taps >= 0x8000,
    ensures
        stepped_times(state, taps, n) != 0,
    decreases n,
{
    if n > 0 {
        assert(stepped(state, taps) != 0) by (bit_vector)
            requires
                state != 0,
                taps >= 0x8000,
        ;
        never_stuck(stepped(state, taps), taps, (n - 1) as nat);
    }
}

/// Whatever the seed, the state that it loads is not zero, and it is the seed unless that is zero.
pub proof fn seed_is_loaded(d: LfsrView, low: u8, high: u8)
    ensures
        d.after_write(0, low).after_write(1, high).state != 0,
        low + 256 * high != 0 ==> d.after_write(0, low).after_write(1, high).state == low + 256
            * high,
{
}

/// A read of LOW and then of HIGH gives one whole state: HIGH reads do not advance and do not
/// disturb the latch.
pub proof fn reads_whole_state(d: LfsrView)
    ensures
        d.read_value(0) + 256 * d.after_read(0).read_value(1) == d.after_read(0).state,
        d.after_read(0).after_read(1) == d.after_read(0),
{
}

/// One step of a Galois register: every bit moves one place down, and if the lowest was set, those
/// bits are flipped that the taps name.
pub proof fn step_shifts_down(state: u16, taps: u16)
    by (bit_vector)
    ensures
        state & 1 == 0 ==> stepped(state, taps) == state >> 1,
        state & 1 != 0 ==> stepped(state, taps) == (state >> 1) ^ taps,
{
}

/// The default taps are those of `x^16 + x^14 + x^13 + x^11 + 1`, one bit below each exponent.
pub proof fn default_taps_are_the_polynomial()
    ensures
        DEFAULT_TAPS == (1u16 << 15) | (1u16 << 13) | (1u16 << 12) | (1u16 << 10),
{
    assert((1u16 << 15) | (1u16 << 13) | (1u16 << 12) | (1u16 << 10) == 0xB400) by (bit_vector);
}

/// In continuous mode the register steps once per cycle and a read only latches it; in step mode it
/// steps once per read of LOW, and cycles do nothing.
pub proof fn modes_step(d: LfsrView, cycles: u32)
    ensures
        d.continuous ==> d.after_tick(cycles).state == stepped_times(
            d.state,
            d.taps,
            cycles as nat,
        ) && d.after_read(0).state == d.state,
        !d.continuous ==> d.after_tick(cycles) == d && d.after_read(0).state == stepped(
            d.state,
            d.taps,
        ),
        d.after_tick(cycles).latch == d.latch,
        d.after_read(0).latch == d.after_read(0).state,
        d.after_tick(0) == d,
        d.continuous ==> d.after_tick(1).state == stepped(d.state, d.taps),
{
    reveal_with_fuel(stepped_times, 2);
}

/// A reset restarts the register from its first state, with nothing latched and no seed buffered; it
/// keeps the taps and the mode.
pub proof fn reset_restarts(d: LfsrView)
    ensures
        d.after_reset().state == 0xACE1,
        d.after_reset().peek_value(0) == 0 && d.after_reset().peek_value(1) == 0,
        d.after_reset().seed_buf == 0,
        d.after_reset().taps == d.taps && d.after_reset().continuous == d.continuous,
{
}

} // verus!
