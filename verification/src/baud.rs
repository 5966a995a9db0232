//! Baud rates of the 6551 family.

use vstd::prelude::*;

verus! {

/// The baud rate that the low four bits of a control register select.
pub open spec fn baud_rate(select: u8) -> nat {
    if select == 0x1 {
        50
    } else if select == 0x2 {
        75
    } else if select == 0x3 {
        110
    } else if select == 0x4 {
        134
    } else if select == 0x5 {
        150
    } else if select == 0x6 {
        300
    } else if select == 0x7 {
        600
    } else if select == 0x8 {
        1200
    } else if select == 0x9 {
        1800
    } else if select == 0xA {
        2400
    } else if select == 0xB {
        3600
    } else if select == 0xC {
        4800
    } else if select == 0xD {
        7200
    } else if select == 0xE {
        9600
    } else {
        19200
    }
}

/// Clock cycles per byte of ten bits (start, eight data, stop), modulo what 32 bits hold. Zero
/// stands for the external clock: bit 4 of the control register is clear, or no rate is selected.
pub open spec fn byte_period(control: u8, clock_hz: u64) -> nat {
    if control / 16 % 2 == 0 || control % 16 == 0 {
        0
    } else {
        (clock_hz * 10) as nat / baud_rate(control % 16) % 0x1_0000_0000
    }
}

/// Clock cycles per byte for a control register and a CPU clock, or zero for the external clock.
pub fn cycles_per_byte(control: u8, clock_hz: u64) -> (cycles: u32)
    requires
        clock_hz * 10 <= u64::MAX,
    ensures
        cycles == byte_period(control, clock_hz),
{
    if control / 16 % 2 == 0 {
        return 0;
    }
    let baud: u64 = match control % 16 {
        0x1 => 50,
        0x2 => 75,
        0x3 => 110,
        0x4 => 134,
        0x5 => 150,
        0x6 => 300,
        0x7 => 600,
        0x8 => 1200,
        0x9 => 1800,
        0xA => 2400,
        0xB => 3600,
        0xC => 4800,
        0xD => 7200,
        0xE => 9600,
        0xF => 19200,
        _ => return 0,
    };
    (clock_hz * 10 / baud % 0x1_0000_0000) as u32
}

/// After one byte period, one poll fewer is owed and the cycles left over are the same.
pub proof fn lemma_one_period(elapsed: nat, period: nat)
    requires
        0 < period <= elapsed,
    ensures
        (elapsed - period) as nat % period == elapsed % period,
        (elapsed - period) as nat / period == elapsed / period - 1,
        elapsed / period > 0,
{
    vstd::arithmetic::div_mod::lemma_div_minus_one(elapsed as int, period as int);
    vstd::arithmetic::div_mod::lemma_mod_sub_multiples_vanish(elapsed as int, period as int);
    vstd::arithmetic::div_mod::lemma_div_non_zero(elapsed as int, period as int);
}

} // verus!
