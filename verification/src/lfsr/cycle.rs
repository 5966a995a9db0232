//! The cycle of the LFSR with its default taps.
//!
//! A step of the LFSR is linear over exclusive or, and so are many steps: where the sixteen states
//! with a single bit set get to tells where every state gets to. `jump_n` is `n` steps, written
//! down that way. Each is the composition of two shorter ones, and so they lead to 65535 steps,
//! which are none at all. A shorter cycle would have a length that divides 65535, and so would
//! return after 65535 divided by one of its prime factors, which no state but zero does.

use super::{stepped, stepped_times, LfsrView, DEFAULT_TAPS};
use vstd::prelude::*;

verus! {

spec fn chosen(x: u16, bit: u16, word: u16) -> u16 {
    if x & bit != 0 {
        word
    } else {
        0
    }
}

/// The exclusive or of those of sixteen words whose bits are set in `x`.
spec fn linear(
    x: u16,
    c0: u16,
    c1: u16,
    c2: u16,
    c3: u16,
    c4: u16,
    c5: u16,
    c6: u16,
    c7: u16,
    c8: u16,
    c9: u16,
    c10: u16,
    c11: u16,
    c12: u16,
    c13: u16,
    c14: u16,
    c15: u16,
) -> u16 {
    chosen(x, 0x0001, c0)
        ^ chosen(x, 0x0002, c1)
        ^ chosen(x, 0x0004, c2)
        ^ chosen(x, 0x0008, c3)
        ^ chosen(x, 0x0010, c4)
        ^ chosen(x, 0x0020, c5)
        ^ chosen(x, 0x0040, c6)
        ^ chosen(x, 0x0080, c7)
        ^ chosen(x, 0x0100, c8)
        ^ chosen(x, 0x0200, c9)
        ^ chosen(x, 0x0400, c10)
        ^ chosen(x, 0x0800, c11)
        ^ chosen(x, 0x1000, c12)
        ^ chosen(x, 0x2000, c13)
        ^ chosen(x, 0x4000, c14)
        ^ chosen(x, 0x8000, c15)
}

spec fn jump_2(x: u16) -> u16 {
    linear(
        x,
        0x5A00, 0xB400, 0x0001, 0x0002, 0x0004, 0x0008, 0x0010, 0x0020,
        0x0040, 0x0080, 0x0100, 0x0200, 0x0400, 0x0800, 0x1000, 0x2000,
    )
}

spec fn jump_3(x: u16) -> u16 {
    linear(
        x,
        0x2D00, 0x5A00, 0xB400, 0x0001, 0x0002, 0x0004, 0x0008, 0x0010,
        0x0020, 0x0040, 0x0080, 0x0100, 0x0200, 0x0400, 0x0800, 0x1000,
    )
}

spec fn jump_6(x: u16) -> u16 {
    linear(
        x,
        0x05A0, 0x0B40, 0x1680, 0x2D00, 0x5A00, 0xB400, 0x0001, 0x0002,
        0x0004, 0x0008, 0x0010, 0x0020, 0x0040, 0x0080, 0x0100, 0x0200,
    )
}

spec fn jump_12(x: u16) -> u16 {
    linear(
        x,
        0xB416, 0x002D, 0x005A, 0x00B4, 0x0168, 0x02D0, 0x05A0, 0x0B40,
        0x1680, 0x2D00, 0x5A00, 0xB400, 0x0001, 0x0002, 0x0004, 0x0008,
    )
}

spec fn jump_15(x: u16) -> u16 {
    linear(
        x,
        0xF882, 0x9905, 0x5A0B, 0xB416, 0x002D, 0x005A, 0x00B4, 0x0168,
        0x02D0, 0x05A0, 0x0B40, 0x1680, 0x2D00, 0x5A00, 0xB400, 0x0001,
    )
}

spec fn jump_30(x: u16) -> u16 {
    linear(
        x,
        0x4DEC, 0x9BD8, 0x5FB1, 0xBF62, 0x16C5, 0x2D8A, 0x5B14, 0xB628,
        0x0451, 0x08A2, 0x1144, 0x2288, 0x4510, 0x8A20, 0x7C41, 0xF882,
    )
}

spec fn jump_60(x: u16) -> u16 {
    linear(
        x,
        0x6BB9, 0xD772, 0xC6E5, 0xE5CB, 0xA397, 0x2F2F, 0x5E5E, 0xBCBC,
        0x1179, 0x22F2, 0x45E4, 0x8BC8, 0x7F91, 0xFF22, 0x9645, 0x448B,
    )
}

spec fn jump_120(x: u16) -> u16 {
    linear(
        x,
        0x6F52, 0xDEA4, 0xD549, 0xC293, 0xED27, 0xB24F, 0x0C9F, 0x193E,
        0x327C, 0x64F8, 0xC9F0, 0xFBE1, 0x9FC3, 0x5787, 0xAF0E, 0x361D,
    )
}

spec fn jump_240(x: u16) -> u16 {
    linear(
        x,
        0xA300, 0x2E01, 0x5C02, 0xB804, 0x1809, 0x3012, 0x6024, 0xC048,
        0xE891, 0xB923, 0x1A47, 0x348E, 0x691C, 0xD238, 0xCC71, 0xF0E3,
    )
}

spec fn jump_255(x: u16) -> u16 {
    linear(
        x,
        0x5D71, 0xBAE2, 0x1DC5, 0x3B8A, 0x7714, 0xEE28, 0xB451, 0x00A3,
        0x0146, 0x028C, 0x0518, 0x0A30, 0x1460, 0x28C0, 0x5180, 0xA300,
    )
}

spec fn jump_480(x: u16) -> u16 {
    linear(
        x,
        0x7369, 0xE6D2, 0xA5A5, 0x234B, 0x4696, 0x8D2C, 0x7259, 0xE4B2,
        0xA165, 0x2ACB, 0x5596, 0xAB2C, 0x3E59, 0x7CB2, 0xF964, 0x9AC9,
    )
}

spec fn jump_960(x: u16) -> u16 {
    linear(
        x,
        0x9F76, 0x56ED, 0xADDA, 0x33B5, 0x676A, 0xCED4, 0xF5A9, 0x8353,
        0x6EA7, 0xDD4E, 0xD29D, 0xCD3B, 0xF277, 0x8CEF, 0x71DF, 0xE3BE,
    )
}

spec fn jump_1920(x: u16) -> u16 {
    linear(
        x,
        0x1AA6, 0x354C, 0x6A98, 0xD530, 0xC261, 0xECC3, 0xB187, 0x0B0F,
        0x161E, 0x2C3C, 0x5878, 0xB0F0, 0x09E1, 0x13C2, 0x2784, 0x4F08,
    )
}

spec fn jump_3840(x: u16) -> u16 {
    linear(
        x,
        0x2D35, 0x5A6A, 0xB4D4, 0x01A9, 0x0352, 0x06A4, 0x0D48, 0x1A90,
        0x3520, 0x6A40, 0xD480, 0xC101, 0xEA03, 0xBC07, 0x100F, 0x201E,
    )
}

spec fn jump_3855(x: u16) -> u16 {
    linear(
        x,
        0xE7EE, 0xA7DD, 0x27BB, 0x4F76, 0x9EEC, 0x55D9, 0xABB2, 0x3F65,
        0x7ECA, 0xFD94, 0x9329, 0x4E53, 0x9CA6, 0x514D, 0xA29A, 0x2D35,
    )
}

spec fn jump_257(x: u16) -> u16 {
    linear(
        x,
        0x4D5C, 0x9AB8, 0x5D71, 0xBAE2, 0x1DC5, 0x3B8A, 0x7714, 0xEE28,
        0xB451, 0x00A3, 0x0146, 0x028C, 0x0518, 0x0A30, 0x1460, 0x28C0,
    )
}

spec fn jump_514(x: u16) -> u16 {
    linear(
        x,
        0x2EB9, 0x5D72, 0xBAE4, 0x1DC9, 0x3B92, 0x7724, 0xEE48, 0xB491,
        0x0123, 0x0246, 0x048C, 0x0918, 0x1230, 0x2460, 0x48C0, 0x9180,
    )
}

spec fn jump_4369(x: u16) -> u16 {
    linear(
        x,
        0x2D6B, 0x5AD6, 0xB5AC, 0x0359, 0x06B2, 0x0D64, 0x1AC8, 0x3590,
        0x6B20, 0xD640, 0xC481, 0xE103, 0xAA07, 0x3C0F, 0x781E, 0xF03C,
    )
}

spec fn jump_8738(x: u16) -> u16 {
    linear(
        x,
        0x11E5, 0x23CA, 0x4794, 0x8F28, 0x7651, 0xECA2, 0xB145, 0x0A8B,
        0x1516, 0x2A2C, 0x5458, 0xA8B0, 0x3961, 0x72C2, 0xE584, 0xA309,
    )
}

spec fn jump_13107(x: u16) -> u16 {
    linear(
        x,
        0x7BDC, 0xF7B8, 0x8771, 0x66E3, 0xCDC6, 0xF38D, 0x8F1B, 0x7637,
        0xEC6E, 0xB0DD, 0x09BB, 0x1376, 0x26EC, 0x4DD8, 0x9BB0, 0x5F61,
    )
}

spec fn jump_17476(x: u16) -> u16 {
    linear(
        x,
        0x2D6A, 0x5AD4, 0xB5A8, 0x0351, 0x06A2, 0x0D44, 0x1A88, 0x3510,
        0x6A20, 0xD440, 0xC081, 0xE903, 0xBA07, 0x1C0F, 0x381E, 0x703C,
    )
}

spec fn jump_21845(x: u16) -> u16 {
    linear(
        x,
        0x3C8E, 0x791C, 0xF238, 0x8C71, 0x70E3, 0xE1C6, 0xAB8D, 0x3F1B,
        0x7E36, 0xFC6C, 0x90D9, 0x49B3, 0x9366, 0x4ECD, 0x9D9A, 0x5335,
    )
}

spec fn jump_43690(x: u16) -> u16 {
    linear(
        x,
        0x3C8F, 0x791E, 0xF23C, 0x8C79, 0x70F3, 0xE1E6, 0xABCD, 0x3F9B,
        0x7F36, 0xFE6C, 0x94D9, 0x41B3, 0x8366, 0x6ECD, 0xDD9A, 0xD335,
    )
}

/// From a state with a single bit set, these compositions are the longer jumps.
#[verifier::rlimit(40)]
proof fn lemma_compositions_a(k: u16)
    by (bit_vector)
    requires
        k < 16,
    ensures
        jump_2(1u16 << k) == stepped(stepped(1u16 << k, DEFAULT_TAPS), DEFAULT_TAPS),
        jump_3(1u16 << k) == stepped(jump_2(1u16 << k), DEFAULT_TAPS),
        jump_6(1u16 << k) == jump_3(jump_3(1u16 << k)),
        jump_12(1u16 << k) == jump_6(jump_6(1u16 << k)),
{
}

/// From a state with a single bit set, these compositions are the longer jumps.
#[verifier::rlimit(40)]
proof fn lemma_compositions_b(k: u16)
    by (bit_vector)
    requires
        k < 16,
    ensures
        jump_15(1u16 << k) == jump_3(jump_12(1u16 << k)),
        jump_30(1u16 << k) == jump_15(jump_15(1u16 << k)),
        jump_60(1u16 << k) == jump_30(jump_30(1u16 << k)),
        jump_120(1u16 << k) == jump_60(jump_60(1u16 << k)),
{
}

/// From a state with a single bit set, these compositions are the longer jumps.
#[verifier::rlimit(40)]
proof fn lemma_compositions_c(k: u16)
    by (bit_vector)
    requires
        k < 16,
    ensures
        jump_240(1u16 << k) == jump_120(jump_120(1u16 << k)),
        jump_255(1u16 << k) == jump_15(jump_240(1u16 << k)),
        jump_480(1u16 << k) == jump_240(jump_240(1u16 << k)),
        jump_960(1u16 << k) == jump_480(jump_480(1u16 << k)),
{
}

/// From a state with a single bit set, these compositions are the longer jumps.
#[verifier::rlimit(40)]
proof fn lemma_compositions_d(k: u16)
    by (bit_vector)
    requires
        k < 16,
    ensures
        jump_1920(1u16 << k) == jump_960(jump_960(1u16 << k)),
        jump_3840(1u16 << k) == jump_1920(jump_1920(1u16 << k)),
        jump_3855(1u16 << k) == jump_15(jump_3840(1u16 << k)),
        jump_257(1u16 << k) == jump_2(jump_255(1u16 << k)),
{
}

/// From a state with a single bit set, these compositions are the longer jumps.
#[verifier::rlimit(40)]
proof fn lemma_compositions_e(k: u16)
    by (bit_vector)
    requires
        k < 16,
    ensures
        jump_514(1u16 << k) == jump_257(jump_257(1u16 << k)),
        jump_4369(1u16 << k) == jump_514(jump_3855(1u16 << k)),
        jump_8738(1u16 << k) == jump_4369(jump_4369(1u16 << k)),
        jump_13107(1u16 << k) == jump_4369(jump_8738(1u16 << k)),
{
}

/// From a state with a single bit set, these compositions are the longer jumps.
#[verifier::rlimit(40)]
proof fn lemma_compositions_f(k: u16)
    by (bit_vector)
    requires
        k < 16,
    ensures
        jump_17476(1u16 << k) == jump_8738(jump_8738(1u16 << k)),
        jump_21845(1u16 << k) == jump_4369(jump_17476(1u16 << k)),
        jump_43690(1u16 << k) == jump_21845(jump_21845(1u16 << k)),
        jump_43690(jump_21845(1u16 << k)) == 1u16 << k,
{
}

/// No state but zero comes back after one of these numbers of steps.
proof fn lemma_no_fixed_state(x: u16)
    by (bit_vector)
    requires
        x != 0,
    ensures
        jump_255(x) != x,
        jump_3855(x) != x,
        jump_13107(x) != x,
        jump_21845(x) != x,
{
}

/// `m` steps and then `n` steps are `m + n` steps.
pub proof fn steps_add_up(x: u16, taps: u16, m: nat, n: nat)
    ensures
        stepped_times(x, taps, m + n) == stepped_times(stepped_times(x, taps, m), taps, n),
    decreases m,
{
    if m > 0 {
        steps_add_up(stepped(x, taps), taps, (m - 1) as nat, n);
        assert((m + n - 1) as nat == (m - 1) as nat + n);
    }
}

/// Stepping is linear over exclusive or, whatever the taps.
pub proof fn steps_are_linear(x: u16, y: u16, taps: u16, n: nat)
    ensures
        stepped_times(x ^ y, taps, n) == stepped_times(x, taps, n) ^ stepped_times(y, taps, n),
        stepped_times(0, taps, n) == 0,
    decreases n,
{
    if n > 0 {
        assert(stepped(x ^ y, taps) == stepped(x, taps) ^ stepped(y, taps)) by (bit_vector);
        assert(stepped(0, taps) == 0) by (bit_vector);
        steps_are_linear(stepped(x, taps), stepped(y, taps), taps, (n - 1) as nat);
    }
}

/// Every state is the exclusive or of its bits, and one with a single bit set chooses one word.
proof fn lemma_bits(
    x: u16,
    c0: u16,
    c1: u16,
    c2: u16,
    c3: u16,
    c4: u16,
    c5: u16,
    c6: u16,
    c7: u16,
    c8: u16,
    c9: u16,
    c10: u16,
    c11: u16,
    c12: u16,
    c13: u16,
    c14: u16,
    c15: u16,
)
    by (bit_vector)
    ensures
        x == linear(x, 0x0001, 0x0002, 0x0004, 0x0008, 0x0010, 0x0020, 0x0040, 0x0080,
            0x0100, 0x0200, 0x0400, 0x0800, 0x1000, 0x2000, 0x4000, 0x8000),
        1u16 << 0 == 0x0001 && linear(0x0001, c0, c1, c2, c3, c4, c5, c6, c7, c8, c9, c10, c11, c12, c13, c14, c15) == c0,
        1u16 << 1 == 0x0002 && linear(0x0002, c0, c1, c2, c3, c4, c5, c6, c7, c8, c9, c10, c11, c12, c13, c14, c15) == c1,
        1u16 << 2 == 0x0004 && linear(0x0004, c0, c1, c2, c3, c4, c5, c6, c7, c8, c9, c10, c11, c12, c13, c14, c15) == c2,
        1u16 << 3 == 0x0008 && linear(0x0008, c0, c1, c2, c3, c4, c5, c6, c7, c8, c9, c10, c11, c12, c13, c14, c15) == c3,
        1u16 << 4 == 0x0010 && linear(0x0010, c0, c1, c2, c3, c4, c5, c6, c7, c8, c9, c10, c11, c12, c13, c14, c15) == c4,
        1u16 << 5 == 0x0020 && linear(0x0020, c0, c1, c2, c3, c4, c5, c6, c7, c8, c9, c10, c11, c12, c13, c14, c15) == c5,
        1u16 << 6 == 0x0040 && linear(0x0040, c0, c1, c2, c3, c4, c5, c6, c7, c8, c9, c10, c11, c12, c13, c14, c15) == c6,
        1u16 << 7 == 0x0080 && linear(0x0080, c0, c1, c2, c3, c4, c5, c6, c7, c8, c9, c10, c11, c12, c13, c14, c15) == c7,
        1u16 << 8 == 0x0100 && linear(0x0100, c0, c1, c2, c3, c4, c5, c6, c7, c8, c9, c10, c11, c12, c13, c14, c15) == c8,
        1u16 << 9 == 0x0200 && linear(0x0200, c0, c1, c2, c3, c4, c5, c6, c7, c8, c9, c10, c11, c12, c13, c14, c15) == c9,
        1u16 << 10 == 0x0400 && linear(0x0400, c0, c1, c2, c3, c4, c5, c6, c7, c8, c9, c10, c11, c12, c13, c14, c15) == c10,
        1u16 << 11 == 0x0800 && linear(0x0800, c0, c1, c2, c3, c4, c5, c6, c7, c8, c9, c10, c11, c12, c13, c14, c15) == c11,
        1u16 << 12 == 0x1000 && linear(0x1000, c0, c1, c2, c3, c4, c5, c6, c7, c8, c9, c10, c11, c12, c13, c14, c15) == c12,
        1u16 << 13 == 0x2000 && linear(0x2000, c0, c1, c2, c3, c4, c5, c6, c7, c8, c9, c10, c11, c12, c13, c14, c15) == c13,
        1u16 << 14 == 0x4000 && linear(0x4000, c0, c1, c2, c3, c4, c5, c6, c7, c8, c9, c10, c11, c12, c13, c14, c15) == c14,
        1u16 << 15 == 0x8000 && linear(0x8000, c0, c1, c2, c3, c4, c5, c6, c7, c8, c9, c10, c11, c12, c13, c14, c15) == c15,
{
}

/// Where the states with a single bit set get to in `n` steps tells where every state gets to.
proof fn lemma_linear(
    x: u16,
    n: nat,
    c0: u16,
    c1: u16,
    c2: u16,
    c3: u16,
    c4: u16,
    c5: u16,
    c6: u16,
    c7: u16,
    c8: u16,
    c9: u16,
    c10: u16,
    c11: u16,
    c12: u16,
    c13: u16,
    c14: u16,
    c15: u16,
)
    requires
        forall|k: u16|
            k < 16 ==> #[trigger] stepped_times(1u16 << k, DEFAULT_TAPS, n) == linear(
                1u16 << k,
                c0, c1, c2, c3, c4, c5, c6, c7, c8, c9, c10, c11, c12, c13, c14, c15,
            ),
    ensures
        stepped_times(x, DEFAULT_TAPS, n) == linear(x, c0, c1, c2, c3, c4, c5, c6, c7, c8, c9, c10, c11, c12, c13, c14, c15),
{
    lemma_bits(x, c0, c1, c2, c3, c4, c5, c6, c7, c8, c9, c10, c11, c12, c13, c14, c15);
    assert(stepped_times(1u16 << 0, DEFAULT_TAPS, n) == c0);
    assert(stepped_times(1u16 << 1, DEFAULT_TAPS, n) == c1);
    assert(stepped_times(1u16 << 2, DEFAULT_TAPS, n) == c2);
    assert(stepped_times(1u16 << 3, DEFAULT_TAPS, n) == c3);
    assert(stepped_times(1u16 << 4, DEFAULT_TAPS, n) == c4);
    assert(stepped_times(1u16 << 5, DEFAULT_TAPS, n) == c5);
    assert(stepped_times(1u16 << 6, DEFAULT_TAPS, n) == c6);
    assert(stepped_times(1u16 << 7, DEFAULT_TAPS, n) == c7);
    assert(stepped_times(1u16 << 8, DEFAULT_TAPS, n) == c8);
    assert(stepped_times(1u16 << 9, DEFAULT_TAPS, n) == c9);
    assert(stepped_times(1u16 << 10, DEFAULT_TAPS, n) == c10);
    assert(stepped_times(1u16 << 11, DEFAULT_TAPS, n) == c11);
    assert(stepped_times(1u16 << 12, DEFAULT_TAPS, n) == c12);
    assert(stepped_times(1u16 << 13, DEFAULT_TAPS, n) == c13);
    assert(stepped_times(1u16 << 14, DEFAULT_TAPS, n) == c14);
    assert(stepped_times(1u16 << 15, DEFAULT_TAPS, n) == c15);
    steps_are_linear(0, 0, DEFAULT_TAPS, n);
    let x0 = chosen(x, 0x0001, 0x0001);
    let x1 = x0 ^ chosen(x, 0x0002, 0x0002);
    steps_are_linear(x0, chosen(x, 0x0002, 0x0002), DEFAULT_TAPS, n);
    let x2 = x1 ^ chosen(x, 0x0004, 0x0004);
    steps_are_linear(x1, chosen(x, 0x0004, 0x0004), DEFAULT_TAPS, n);
    let x3 = x2 ^ chosen(x, 0x0008, 0x0008);
    steps_are_linear(x2, chosen(x, 0x0008, 0x0008), DEFAULT_TAPS, n);
    let x4 = x3 ^ chosen(x, 0x0010, 0x0010);
    steps_are_linear(x3, chosen(x, 0x0010, 0x0010), DEFAULT_TAPS, n);
    let x5 = x4 ^ chosen(x, 0x0020, 0x0020);
    steps_are_linear(x4, chosen(x, 0x0020, 0x0020), DEFAULT_TAPS, n);
    let x6 = x5 ^ chosen(x, 0x0040, 0x0040);
    steps_are_linear(x5, chosen(x, 0x0040, 0x0040), DEFAULT_TAPS, n);
    let x7 = x6 ^ chosen(x, 0x0080, 0x0080);
    steps_are_linear(x6, chosen(x, 0x0080, 0x0080), DEFAULT_TAPS, n);
    let x8 = x7 ^ chosen(x, 0x0100, 0x0100);
    steps_are_linear(x7, chosen(x, 0x0100, 0x0100), DEFAULT_TAPS, n);
    let x9 = x8 ^ chosen(x, 0x0200, 0x0200);
    steps_are_linear(x8, chosen(x, 0x0200, 0x0200), DEFAULT_TAPS, n);
    let x10 = x9 ^ chosen(x, 0x0400, 0x0400);
    steps_are_linear(x9, chosen(x, 0x0400, 0x0400), DEFAULT_TAPS, n);
    let x11 = x10 ^ chosen(x, 0x0800, 0x0800);
    steps_are_linear(x10, chosen(x, 0x0800, 0x0800), DEFAULT_TAPS, n);
    let x12 = x11 ^ chosen(x, 0x1000, 0x1000);
    steps_are_linear(x11, chosen(x, 0x1000, 0x1000), DEFAULT_TAPS, n);
    let x13 = x12 ^ chosen(x, 0x2000, 0x2000);
    steps_are_linear(x12, chosen(x, 0x2000, 0x2000), DEFAULT_TAPS, n);
    let x14 = x13 ^ chosen(x, 0x4000, 0x4000);
    steps_are_linear(x13, chosen(x, 0x4000, 0x4000), DEFAULT_TAPS, n);
    let x15 = x14 ^ chosen(x, 0x8000, 0x8000);
    steps_are_linear(x14, chosen(x, 0x8000, 0x8000), DEFAULT_TAPS, n);
    assert(x15 == x);
}

proof fn lemma_jump_1(x: u16)
    ensures
        stepped_times(x, DEFAULT_TAPS, 1) == stepped(x, DEFAULT_TAPS),
{
    reveal_with_fuel(stepped_times, 2);
}

proof fn lemma_jump_2(x: u16)
    ensures
        stepped_times(x, DEFAULT_TAPS, 2) == jump_2(x),
{
    assert forall|k: u16| k < 16 implies #[trigger] stepped_times(1u16 << k, DEFAULT_TAPS, 2)
        == jump_2(1u16 << k) by {
        lemma_jump_1(1u16 << k);
        lemma_jump_1(stepped(1u16 << k, DEFAULT_TAPS));
        steps_add_up(1u16 << k, DEFAULT_TAPS, 1, 1);
        lemma_compositions_a(k);
    }
    lemma_linear(
        x,
        2,
        0x5A00, 0xB400, 0x0001, 0x0002, 0x0004, 0x0008, 0x0010, 0x0020,
        0x0040, 0x0080, 0x0100, 0x0200, 0x0400, 0x0800, 0x1000, 0x2000,
    );
}

proof fn lemma_jump_3(x: u16)
    ensures
        stepped_times(x, DEFAULT_TAPS, 3) == jump_3(x),
{
    assert forall|k: u16| k < 16 implies #[trigger] stepped_times(1u16 << k, DEFAULT_TAPS, 3)
        == jump_3(1u16 << k) by {
        lemma_jump_2(1u16 << k);
        lemma_jump_1(jump_2(1u16 << k));
        steps_add_up(1u16 << k, DEFAULT_TAPS, 2, 1);
        lemma_compositions_a(k);
    }
    lemma_linear(
        x,
        3,
        0x2D00, 0x5A00, 0xB400, 0x0001, 0x0002, 0x0004, 0x0008, 0x0010,
        0x0020, 0x0040, 0x0080, 0x0100, 0x0200, 0x0400, 0x0800, 0x1000,
    );
}

proof fn lemma_jump_6(x: u16)
    ensures
        stepped_times(x, DEFAULT_TAPS, 6) == jump_6(x),
{
    assert forall|k: u16| k < 16 implies #[trigger] stepped_times(1u16 << k, DEFAULT_TAPS, 6)
        == jump_6(1u16 << k) by {
        lemma_jump_3(1u16 << k);
        lemma_jump_3(jump_3(1u16 << k));
        steps_add_up(1u16 << k, DEFAULT_TAPS, 3, 3);
        lemma_compositions_a(k);
    }
    lemma_linear(
        x,
        6,
        0x05A0, 0x0B40, 0x1680, 0x2D00, 0x5A00, 0xB400, 0x0001, 0x0002,
        0x0004, 0x0008, 0x0010, 0x0020, 0x0040, 0x0080, 0x0100, 0x0200,
    );
}

proof fn lemma_jump_12(x: u16)
    ensures
        stepped_times(x, DEFAULT_TAPS, 12) == jump_12(x),
{
    assert forall|k: u16| k < 16 implies #[trigger] stepped_times(1u16 << k, DEFAULT_TAPS, 12)
        == jump_12(1u16 << k) by {
        lemma_jump_6(1u16 << k);
        lemma_jump_6(jump_6(1u16 << k));
        steps_add_up(1u16 << k, DEFAULT_TAPS, 6, 6);
        lemma_compositions_a(k);
    }
    lemma_linear(
        x,
        12,
        0xB416, 0x002D, 0x005A, 0x00B4, 0x0168, 0x02D0, 0x05A0, 0x0B40,
        0x1680, 0x2D00, 0x5A00, 0xB400, 0x0001, 0x0002, 0x0004, 0x0008,
    );
}

proof fn lemma_jump_15(x: u16)
    ensures
        stepped_times(x, DEFAULT_TAPS, 15) == jump_15(x),
{
    assert forall|k: u16| k < 16 implies #[trigger] stepped_times(1u16 << k, DEFAULT_TAPS, 15)
        == jump_15(1u16 << k) by {
        lemma_jump_12(1u16 << k);
        lemma_jump_3(jump_12(1u16 << k));
        steps_add_up(1u16 << k, DEFAULT_TAPS, 12, 3);
        lemma_compositions_b(k);
    }
    lemma_linear(
        x,
        15,
        0xF882, 0x9905, 0x5A0B, 0xB416, 0x002D, 0x005A, 0x00B4, 0x0168,
        0x02D0, 0x05A0, 0x0B40, 0x1680, 0x2D00, 0x5A00, 0xB400, 0x0001,
    );
}

proof fn lemma_jump_30(x: u16)
    ensures
        stepped_times(x, DEFAULT_TAPS, 30) == jump_30(x),
{
    assert forall|k: u16| k < 16 implies #[trigger] stepped_times(1u16 << k, DEFAULT_TAPS, 30)
        == jump_30(1u16 << k) by {
        lemma_jump_15(1u16 << k);
        lemma_jump_15(jump_15(1u16 << k));
        steps_add_up(1u16 << k, DEFAULT_TAPS, 15, 15);
        lemma_compositions_b(k);
    }
    lemma_linear(
        x,
        30,
        0x4DEC, 0x9BD8, 0x5FB1, 0xBF62, 0x16C5, 0x2D8A, 0x5B14, 0xB628,
        0x0451, 0x08A2, 0x1144, 0x2288, 0x4510, 0x8A20, 0x7C41, 0xF882,
    );
}

proof fn lemma_jump_60(x: u16)
    ensures
        stepped_times(x, DEFAULT_TAPS, 60) == jump_60(x),
{
    assert forall|k: u16| k < 16 implies #[trigger] stepped_times(1u16 << k, DEFAULT_TAPS, 60)
        == jump_60(1u16 << k) by {
        lemma_jump_30(1u16 << k);
        lemma_jump_30(jump_30(1u16 << k));
        steps_add_up(1u16 << k, DEFAULT_TAPS, 30, 30);
        lemma_compositions_b(k);
    }
    lemma_linear(
        x,
        60,
        0x6BB9, 0xD772, 0xC6E5, 0xE5CB, 0xA397, 0x2F2F, 0x5E5E, 0xBCBC,
        0x1179, 0x22F2, 0x45E4, 0x8BC8, 0x7F91, 0xFF22, 0x9645, 0x448B,
    );
}

proof fn lemma_jump_120(x: u16)
    ensures
        stepped_times(x, DEFAULT_TAPS, 120) == jump_120(x),
{
    assert forall|k: u16| k < 16 implies #[trigger] stepped_times(1u16 << k, DEFAULT_TAPS, 120)
        == jump_120(1u16 << k) by {
        lemma_jump_60(1u16 << k);
        lemma_jump_60(jump_60(1u16 << k));
        steps_add_up(1u16 << k, DEFAULT_TAPS, 60, 60);
        lemma_compositions_b(k);
    }
    lemma_linear(
        x,
        120,
        0x6F52, 0xDEA4, 0xD549, 0xC293, 0xED27, 0xB24F, 0x0C9F, 0x193E,
        0x327C, 0x64F8, 0xC9F0, 0xFBE1, 0x9FC3, 0x5787, 0xAF0E, 0x361D,
    );
}

proof fn lemma_jump_240(x: u16)
    ensures
        stepped_times(x, DEFAULT_TAPS, 240) == jump_240(x),
{
    assert forall|k: u16| k < 16 implies #[trigger] stepped_times(1u16 << k, DEFAULT_TAPS, 240)
        == jump_240(1u16 << k) by {
        lemma_jump_120(1u16 << k);
        lemma_jump_120(jump_120(1u16 << k));
        steps_add_up(1u16 << k, DEFAULT_TAPS, 120, 120);
        lemma_compositions_c(k);
    }
    lemma_linear(
        x,
        240,
        0xA300, 0x2E01, 0x5C02, 0xB804, 0x1809, 0x3012, 0x6024, 0xC048,
        0xE891, 0xB923, 0x1A47, 0x348E, 0x691C, 0xD238, 0xCC71, 0xF0E3,
    );
}

proof fn lemma_jump_255(x: u16)
    ensures
        stepped_times(x, DEFAULT_TAPS, 255) == jump_255(x),
{
    assert forall|k: u16| k < 16 implies #[trigger] stepped_times(1u16 << k, DEFAULT_TAPS, 255)
        == jump_255(1u16 << k) by {
        lemma_jump_240(1u16 << k);
        lemma_jump_15(jump_240(1u16 << k));
        steps_add_up(1u16 << k, DEFAULT_TAPS, 240, 15);
        lemma_compositions_c(k);
    }
    lemma_linear(
        x,
        255,
        0x5D71, 0xBAE2, 0x1DC5, 0x3B8A, 0x7714, 0xEE28, 0xB451, 0x00A3,
        0x0146, 0x028C, 0x0518, 0x0A30, 0x1460, 0x28C0, 0x5180, 0xA300,
    );
}

proof fn lemma_jump_480(x: u16)
    ensures
        stepped_times(x, DEFAULT_TAPS, 480) == jump_480(x),
{
    assert forall|k: u16| k < 16 implies #[trigger] stepped_times(1u16 << k, DEFAULT_TAPS, 480)
        == jump_480(1u16 << k) by {
        lemma_jump_240(1u16 << k);
        lemma_jump_240(jump_240(1u16 << k));
        steps_add_up(1u16 << k, DEFAULT_TAPS, 240, 240);
        lemma_compositions_c(k);
    }
    lemma_linear(
        x,
        480,
        0x7369, 0xE6D2, 0xA5A5, 0x234B, 0x4696, 0x8D2C, 0x7259, 0xE4B2,
        0xA165, 0x2ACB, 0x5596, 0xAB2C, 0x3E59, 0x7CB2, 0xF964, 0x9AC9,
    );
}

proof fn lemma_jump_960(x: u16)
    ensures
        stepped_times(x, DEFAULT_TAPS, 960) == jump_960(x),
{
    assert forall|k: u16| k < 16 implies #[trigger] stepped_times(1u16 << k, DEFAULT_TAPS, 960)
        == jump_960(1u16 << k) by {
        lemma_jump_480(1u16 << k);
        lemma_jump_480(jump_480(1u16 << k));
        steps_add_up(1u16 << k, DEFAULT_TAPS, 480, 480);
        lemma_compositions_c(k);
    }
    lemma_linear(
        x,
        960,
        0x9F76, 0x56ED, 0xADDA, 0x33B5, 0x676A, 0xCED4, 0xF5A9, 0x8353,
        0x6EA7, 0xDD4E, 0xD29D, 0xCD3B, 0xF277, 0x8CEF, 0x71DF, 0xE3BE,
    );
}

proof fn lemma_jump_1920(x: u16)
    ensures
        stepped_times(x, DEFAULT_TAPS, 1920) == jump_1920(x),
{
    assert forall|k: u16| k < 16 implies #[trigger] stepped_times(1u16 << k, DEFAULT_TAPS, 1920)
        == jump_1920(1u16 << k) by {
        lemma_jump_960(1u16 << k);
        lemma_jump_960(jump_960(1u16 << k));
        steps_add_up(1u16 << k, DEFAULT_TAPS, 960, 960);
        lemma_compositions_d(k);
    }
    lemma_linear(
        x,
        1920,
        0x1AA6, 0x354C, 0x6A98, 0xD530, 0xC261, 0xECC3, 0xB187, 0x0B0F,
        0x161E, 0x2C3C, 0x5878, 0xB0F0, 0x09E1, 0x13C2, 0x2784, 0x4F08,
    );
}

proof fn lemma_jump_3840(x: u16)
    ensures
        stepped_times(x, DEFAULT_TAPS, 3840) == jump_3840(x),
{
    assert forall|k: u16| k < 16 implies #[trigger] stepped_times(1u16 << k, DEFAULT_TAPS, 3840)
        == jump_3840(1u16 << k) by {
        lemma_jump_1920(1u16 << k);
        lemma_jump_1920(jump_1920(1u16 << k));
        steps_add_up(1u16 << k, DEFAULT_TAPS, 1920, 1920);
        lemma_compositions_d(k);
    }
    lemma_linear(
        x,
        3840,
        0x2D35, 0x5A6A, 0xB4D4, 0x01A9, 0x0352, 0x06A4, 0x0D48, 0x1A90,
        0x3520, 0x6A40, 0xD480, 0xC101, 0xEA03, 0xBC07, 0x100F, 0x201E,
    );
}

proof fn lemma_jump_3855(x: u16)
    ensures
        stepped_times(x, DEFAULT_TAPS, 3855) == jump_3855(x),
{
    assert forall|k: u16| k < 16 implies #[trigger] stepped_times(1u16 << k, DEFAULT_TAPS, 3855)
        == jump_3855(1u16 << k) by {
        lemma_jump_3840(1u16 << k);
        lemma_jump_15(jump_3840(1u16 << k));
        steps_add_up(1u16 << k, DEFAULT_TAPS, 3840, 15);
        lemma_compositions_d(k);
    }
    lemma_linear(
        x,
        3855,
        0xE7EE, 0xA7DD, 0x27BB, 0x4F76, 0x9EEC, 0x55D9, 0xABB2, 0x3F65,
        0x7ECA, 0xFD94, 0x9329, 0x4E53, 0x9CA6, 0x514D, 0xA29A, 0x2D35,
    );
}

proof fn lemma_jump_257(x: u16)
    ensures
        stepped_times(x, DEFAULT_TAPS, 257) == jump_257(x),
{
    assert forall|k: u16| k < 16 implies #[trigger] stepped_times(1u16 << k, DEFAULT_TAPS, 257)
        == jump_257(1u16 << k) by {
        lemma_jump_255(1u16 << k);
        lemma_jump_2(jump_255(1u16 << k));
        steps_add_up(1u16 << k, DEFAULT_TAPS, 255, 2);
        lemma_compositions_d(k);
    }
    lemma_linear(
        x,
        257,
        0x4D5C, 0x9AB8, 0x5D71, 0xBAE2, 0x1DC5, 0x3B8A, 0x7714, 0xEE28,
        0xB451, 0x00A3, 0x0146, 0x028C, 0x0518, 0x0A30, 0x1460, 0x28C0,
    );
}

proof fn lemma_jump_514(x: u16)
    ensures
        stepped_times(x, DEFAULT_TAPS, 514) == jump_514(x),
{
    assert forall|k: u16| k < 16 implies #[trigger] stepped_times(1u16 << k, DEFAULT_TAPS, 514)
        == jump_514(1u16 << k) by {
        lemma_jump_257(1u16 << k);
        lemma_jump_257(jump_257(1u16 << k));
        steps_add_up(1u16 << k, DEFAULT_TAPS, 257, 257);
        lemma_compositions_e(k);
    }
    lemma_linear(
        x,
        514,
        0x2EB9, 0x5D72, 0xBAE4, 0x1DC9, 0x3B92, 0x7724, 0xEE48, 0xB491,
        0x0123, 0x0246, 0x048C, 0x0918, 0x1230, 0x2460, 0x48C0, 0x9180,
    );
}

proof fn lemma_jump_4369(x: u16)
    ensures
        stepped_times(x, DEFAULT_TAPS, 4369) == jump_4369(x),
{
    assert forall|k: u16| k < 16 implies #[trigger] stepped_times(1u16 << k, DEFAULT_TAPS, 4369)
        == jump_4369(1u16 << k) by {
        lemma_jump_3855(1u16 << k);
        lemma_jump_514(jump_3855(1u16 << k));
        steps_add_up(1u16 << k, DEFAULT_TAPS, 3855, 514);
        lemma_compositions_e(k);
    }
    lemma_linear(
        x,
        4369,
        0x2D6B, 0x5AD6, 0xB5AC, 0x0359, 0x06B2, 0x0D64, 0x1AC8, 0x3590,
        0x6B20, 0xD640, 0xC481, 0xE103, 0xAA07, 0x3C0F, 0x781E, 0xF03C,
    );
}

proof fn lemma_jump_8738(x: u16)
    ensures
        stepped_times(x, DEFAULT_TAPS, 8738) == jump_8738(x),
{
    assert forall|k: u16| k < 16 implies #[trigger] stepped_times(1u16 << k, DEFAULT_TAPS, 8738)
        == jump_8738(1u16 << k) by {
        lemma_jump_4369(1u16 << k);
        lemma_jump_4369(jump_4369(1u16 << k));
        steps_add_up(1u16 << k, DEFAULT_TAPS, 4369, 4369);
        lemma_compositions_e(k);
    }
    lemma_linear(
        x,
        8738,
        0x11E5, 0x23CA, 0x4794, 0x8F28, 0x7651, 0xECA2, 0xB145, 0x0A8B,
        0x1516, 0x2A2C, 0x5458, 0xA8B0, 0x3961, 0x72C2, 0xE584, 0xA309,
    );
}

proof fn lemma_jump_13107(x: u16)
    ensures
        stepped_times(x, DEFAULT_TAPS, 13107) == jump_13107(x),
{
    assert forall|k: u16| k < 16 implies #[trigger] stepped_times(1u16 << k, DEFAULT_TAPS, 13107)
        == jump_13107(1u16 << k) by {
        lemma_jump_8738(1u16 << k);
        lemma_jump_4369(jump_8738(1u16 << k));
        steps_add_up(1u16 << k, DEFAULT_TAPS, 8738, 4369);
        lemma_compositions_e(k);
    }
    lemma_linear(
        x,
        13107,
        0x7BDC, 0xF7B8, 0x8771, 0x66E3, 0xCDC6, 0xF38D, 0x8F1B, 0x7637,
        0xEC6E, 0xB0DD, 0x09BB, 0x1376, 0x26EC, 0x4DD8, 0x9BB0, 0x5F61,
    );
}

proof fn lemma_jump_17476(x: u16)
    ensures
        stepped_times(x, DEFAULT_TAPS, 17476) == jump_17476(x),
{
    assert forall|k: u16| k < 16 implies #[trigger] stepped_times(1u16 << k, DEFAULT_TAPS, 17476)
        == jump_17476(1u16 << k) by {
        lemma_jump_8738(1u16 << k);
        lemma_jump_8738(jump_8738(1u16 << k));
        steps_add_up(1u16 << k, DEFAULT_TAPS, 8738, 8738);
        lemma_compositions_f(k);
    }
    lemma_linear(
        x,
        17476,
        0x2D6A, 0x5AD4, 0xB5A8, 0x0351, 0x06A2, 0x0D44, 0x1A88, 0x3510,
        0x6A20, 0xD440, 0xC081, 0xE903, 0xBA07, 0x1C0F, 0x381E, 0x703C,
    );
}

proof fn lemma_jump_21845(x: u16)
    ensures
        stepped_times(x, DEFAULT_TAPS, 21845) == jump_21845(x),
{
    assert forall|k: u16| k < 16 implies #[trigger] stepped_times(1u16 << k, DEFAULT_TAPS, 21845)
        == jump_21845(1u16 << k) by {
        lemma_jump_17476(1u16 << k);
        lemma_jump_4369(jump_17476(1u16 << k));
        steps_add_up(1u16 << k, DEFAULT_TAPS, 17476, 4369);
        lemma_compositions_f(k);
    }
    lemma_linear(
        x,
        21845,
        0x3C8E, 0x791C, 0xF238, 0x8C71, 0x70E3, 0xE1C6, 0xAB8D, 0x3F1B,
        0x7E36, 0xFC6C, 0x90D9, 0x49B3, 0x9366, 0x4ECD, 0x9D9A, 0x5335,
    );
}

proof fn lemma_jump_43690(x: u16)
    ensures
        stepped_times(x, DEFAULT_TAPS, 43690) == jump_43690(x),
{
    assert forall|k: u16| k < 16 implies #[trigger] stepped_times(1u16 << k, DEFAULT_TAPS, 43690)
        == jump_43690(1u16 << k) by {
        lemma_jump_21845(1u16 << k);
        lemma_jump_21845(jump_21845(1u16 << k));
        steps_add_up(1u16 << k, DEFAULT_TAPS, 21845, 21845);
        lemma_compositions_f(k);
    }
    lemma_linear(
        x,
        43690,
        0x3C8F, 0x791E, 0xF23C, 0x8C79, 0x70F3, 0xE1E6, 0xABCD, 0x3F9B,
        0x7F36, 0xFE6C, 0x94D9, 0x41B3, 0x8366, 0x6ECD, 0xDD9A, 0xD335,
    );
}

proof fn lemma_jump_65535(x: u16)
    ensures
        stepped_times(x, DEFAULT_TAPS, 65535) == x,
{
    assert forall|k: u16| k < 16 implies #[trigger] stepped_times(1u16 << k, DEFAULT_TAPS, 65535)
        == linear(
        1u16 << k,
        0x0001, 0x0002, 0x0004, 0x0008, 0x0010, 0x0020, 0x0040, 0x0080,
        0x0100, 0x0200, 0x0400, 0x0800, 0x1000, 0x2000, 0x4000, 0x8000,
    ) by {
        lemma_jump_21845(1u16 << k);
        lemma_jump_43690(jump_21845(1u16 << k));
        steps_add_up(1u16 << k, DEFAULT_TAPS, 21845, 43690);
        lemma_compositions_f(k);
        lemma_bits(
            1u16 << k,
            0x0001, 0x0002, 0x0004, 0x0008, 0x0010, 0x0020, 0x0040, 0x0080,
            0x0100, 0x0200, 0x0400, 0x0800, 0x1000, 0x2000, 0x4000, 0x8000,
        );
    }
    lemma_linear(
        x,
        65535,
        0x0001, 0x0002, 0x0004, 0x0008, 0x0010, 0x0020, 0x0040, 0x0080,
        0x0100, 0x0200, 0x0400, 0x0800, 0x1000, 0x2000, 0x4000, 0x8000,
    );
    lemma_bits(
        x,
        0x0001, 0x0002, 0x0004, 0x0008, 0x0010, 0x0020, 0x0040, 0x0080,
        0x0100, 0x0200, 0x0400, 0x0800, 0x1000, 0x2000, 0x4000, 0x8000,
    );
}

/// A state that comes back after `n` steps comes back after `k * n` steps.
proof fn lemma_repeats(x: u16, taps: u16, n: nat, k: nat)
    requires
        stepped_times(x, taps, n) == x,
    ensures
        stepped_times(x, taps, k * n) == x,
    decreases k,
{
    if k > 0 {
        lemma_repeats(x, taps, n, (k - 1) as nat);
        steps_add_up(x, taps, ((k - 1) * n) as nat, n);
        assert((k - 1) * n + n == k * n) by (nonlinear_arith);
    } else {
        assert(0 * n == 0);
    }
}

/// A divisor of 65535 other than one is a multiple of one of its prime factors.
#[verifier::rlimit(60)]
proof fn lemma_prime_factor(d: u32, e: u32)
    by (bit_vector)
    requires
        1 < d <= 65535,
        1 <= e <= 65535,
        d * e == 65535,
    ensures
        d % 3 == 0 || d % 5 == 0 || d % 17 == 0 || d % 257 == 0,
{
}

/// No state but zero comes back after a number of steps that divides 65535, but for 65535 itself.
proof fn lemma_no_divisor(x: u16, q: nat, r: nat)
    requires
        x != 0,
        q * r == 65535,
        0 < r < 65535,
    ensures
        stepped_times(x, DEFAULT_TAPS, r) != x,
{
    if stepped_times(x, DEFAULT_TAPS, r) == x {
        assert(1 < q <= 65535) by (nonlinear_arith)
            requires
                q * r == 65535,
                0 < r < 65535,
        ;
        lemma_prime_factor(q as u32, r as u32);
        let p: nat = if q % 3 == 0 {
            3
        } else if q % 5 == 0 {
            5
        } else if q % 17 == 0 {
            17
        } else {
            257
        };
        let k = q / p;
        assert(k * r * p == q * r) by (nonlinear_arith)
            requires
                q == k * p,
        ;
        lemma_repeats(x, DEFAULT_TAPS, r, k);
        lemma_no_fixed_state(x);
        if p == 3 {
            lemma_jump_21845(x);
        } else if p == 5 {
            lemma_jump_13107(x);
        } else if p == 17 {
            lemma_jump_3855(x);
        } else {
            lemma_jump_255(x);
        }
    }
}

/// No state but zero comes back after fewer than 65535 steps.
proof fn lemma_no_short_cycle(x: u16, r: nat)
    requires
        x != 0,
        0 < r < 65535,
    ensures
        stepped_times(x, DEFAULT_TAPS, r) != x,
    decreases r,
{
    let q: nat = 65535nat / r;
    let rest: nat = 65535nat % r;
    vstd::arithmetic::div_mod::lemma_fundamental_div_mod(65535, r as int);
    assert(q * r == r * (65535int / (r as int))) by (nonlinear_arith)
        requires
            q == 65535int / (r as int),
    ;
    if rest == 0 {
        lemma_no_divisor(x, q, r);
    } else if stepped_times(x, DEFAULT_TAPS, r) == x {
        lemma_repeats(x, DEFAULT_TAPS, r, q);
        steps_add_up(x, DEFAULT_TAPS, q * r, rest);
        lemma_jump_65535(x);
        lemma_no_short_cycle(x, rest);
    }
}

/// With the default taps every state but zero lies on one cycle of 65535 states: it comes back after
/// 65535 steps and multiples of that, and never in between.
pub proof fn default_taps_are_maximal(state: u16, n: nat)
    requires
        state != 0,
    ensures
        stepped_times(state, DEFAULT_TAPS, n) == state <==> n % 65535 == 0,
{
    let q: nat = n / 65535;
    let rest: nat = n % 65535;
    lemma_jump_65535(state);
    lemma_repeats(state, DEFAULT_TAPS, 65535, q);
    steps_add_up(state, DEFAULT_TAPS, q * 65535, rest);
    if rest != 0 {
        lemma_no_short_cycle(state, rest);
    }
}

/// A device in continuous mode with the default taps is back at its state after a whole cycle of
/// ticks.
pub proof fn ticks_come_round(d: LfsrView)
    requires
        d.continuous,
        d.taps == DEFAULT_TAPS,
    ensures
        d.after_tick(65535) == d,
{
    lemma_jump_65535(d.state);
}

} // verus!
