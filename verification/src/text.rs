//! Numbers as text.

use vstd::prelude::*;

verus! {

/// The character of a single digit below sixteen.
pub open spec fn digit_char(d: int) -> char {
    if d < 10 {
        (('0' as int) + d) as char
    } else {
        (('a' as int) + (d - 10)) as char
    }
}

/// `value` written in `base`, most significant digit first, without leading zeros.
pub open spec fn digits(value: nat, base: nat) -> Seq<char>
    decreases value,
{
    if base < 2 || value < base {
        seq![digit_char(value as int)]
    } else {
        proof {
            assert(value / base < value) by (nonlinear_arith)
                requires
                    value >= base >= 2,
            ;
        }
        digits(value / base, base).push(digit_char((value % base) as int))
    }
}

/// `value` in hexadecimal, padded with zeros to at least four digits.
pub open spec fn hex4(value: nat) -> Seq<char> {
    let plain = digits(value, 16);
    if plain.len() >= 4 {
        plain
    } else {
        Seq::new((4 - plain.len()) as nat, |i: int| '0') + plain
    }
}

fn digit_text(d: u64) -> (s: &'static str)
    requires
        d < 16,
    ensures
        s@ == seq![digit_char(d as int)],
{
    proof {
        reveal_strlit("0");
        reveal_strlit("1");
        reveal_strlit("2");
        reveal_strlit("3");
        reveal_strlit("4");
        reveal_strlit("5");
        reveal_strlit("6");
        reveal_strlit("7");
        reveal_strlit("8");
        reveal_strlit("9");
        reveal_strlit("a");
        reveal_strlit("b");
        reveal_strlit("c");
        reveal_strlit("d");
        reveal_strlit("e");
        reveal_strlit("f");
    }
    if d == 0 {
        "0"
    } else if d == 1 {
        "1"
    } else if d == 2 {
        "2"
    } else if d == 3 {
        "3"
    } else if d == 4 {
        "4"
    } else if d == 5 {
        "5"
    } else if d == 6 {
        "6"
    } else if d == 7 {
        "7"
    } else if d == 8 {
        "8"
    } else if d == 9 {
        "9"
    } else if d == 10 {
        "a"
    } else if d == 11 {
        "b"
    } else if d == 12 {
        "c"
    } else if d == 13 {
        "d"
    } else if d == 14 {
        "e"
    } else {
        "f"
    }
}

/// Appends `value` written in `base` to `out`.
pub fn append_digits(out: &mut String, value: u64, base: u64)
    requires
        2 <= base <= 16,
    ensures
        final(out)@ == old(out)@ + digits(value as nat, base as nat),
    decreases value,
{
    if value < base {
        out.append(digit_text(value));
    } else {
        assert(value / base < value) by (nonlinear_arith)
            requires
                value >= base,
                base >= 2,
        ;
        append_digits(out, value / base, base);
        out.append(digit_text(value % base));
        assert(out@ =~= old(out)@ + digits(value as nat, base as nat));
    }
}

/// Appends `value` in hexadecimal, with at least four digits, to `out`.
pub fn append_hex4(out: &mut String, value: u32)
    ensures
        final(out)@ == old(out)@ + hex4(value as nat),
{
    proof {
        reveal_strlit("0");
        lemma_hex_len(value as nat);
    }
    if value < 0x10 {
        out.append("0");
        out.append("0");
        out.append("0");
    } else if value < 0x100 {
        out.append("0");
        out.append("0");
    } else if value < 0x1000 {
        out.append("0");
    }
    append_digits(out, value as u64, 16);
    assert(out@ =~= old(out)@ + hex4(value as nat));
}

proof fn lemma_hex_len(value: nat)
    ensures
        value < 0x10 ==> digits(value, 16).len() == 1,
        0x10 <= value < 0x100 ==> digits(value, 16).len() == 2,
        0x100 <= value < 0x1000 ==> digits(value, 16).len() == 3,
        0x1000 <= value ==> digits(value, 16).len() >= 4,
    decreases value,
{
    if value >= 16 {
        lemma_hex_len(value / 16);
    }
}

/// `value` in hexadecimal, two digits.
pub open spec fn hex2(value: u8) -> Seq<char> {
    seq![digit_char(value as int / 16), digit_char(value as int % 16)]
}

/// Appends `value` in hexadecimal, two digits, to `out`.
pub fn append_hex2(out: &mut String, value: u8)
    ensures
        final(out)@ == old(out)@ + hex2(value),
{
    out.append(digit_text((value / 16) as u64));
    out.append(digit_text((value % 16) as u64));
    assert(out@ =~= old(out)@ + hex2(value));
}

/// The number that a text of digits stands for in `base`, read from the left. The letters from `a` on
/// are the digits from ten on.
pub open spec fn number(text: Seq<char>, base: nat) -> int
    decreases text.len(),
{
    if text.len() == 0 {
        0
    } else {
        let c = text.last() as int;
        number(text.drop_last(), base) * base + (if c < 'a' as int {
            c - '0' as int
        } else {
            c - 'a' as int + 10
        })
    }
}

/// A number that was written in digits reads back as what it is, and starts with a zero only if it is
/// zero.
pub proof fn digits_read_back(value: nat, base: nat)
    requires
        2 <= base <= 16,
    ensures
        number(digits(value, base), base) == value,
        digits(value, base).len() > 0,
        value > 0 ==> digits(value, base)[0] != '0',
        forall|i: int|
            0 <= i < digits(value, base).len() ==> '0' <= (#[trigger] digits(value, base)[i]) <= '9'
                || 'a' <= digits(value, base)[i] <= 'f',
    decreases value,
{
    if value < base {
        let text = seq![digit_char(value as int)];
        assert(text.drop_last() =~= Seq::empty());
        assert(number(text.drop_last(), base) == 0);
    } else {
        let head = value / base;
        let rest = value % base;
        assert(head < value && head > 0) by (nonlinear_arith)
            requires
                head == value / base,
                value >= base,
                base >= 2,
        ;
        vstd::arithmetic::div_mod::lemma_fundamental_div_mod(value as int, base as int);
        vstd::arithmetic::div_mod::lemma_mod_bound(value as int, base as int);
        digits_read_back(head, base);
        let text = digits(head, base).push(digit_char(rest as int));
        assert(text.drop_last() =~= digits(head, base));
        assert(base * head == head * base) by (nonlinear_arith);
    }
}

/// Hexadecimal text of four digits or more stands for the number; zeros fill it up to four.
pub proof fn hex4_reads_back(value: nat)
    ensures
        number(hex4(value), 16) == value,
        hex4(value).len() >= 4,
        hex4(value).len() > 4 ==> hex4(value)[0] != '0',
{
    digits_read_back(value, 16);
    lemma_hex_len(value);
    let plain = digits(value, 16);
    if plain.len() < 4 {
        lemma_leading_zeros((4 - plain.len()) as nat, plain);
    }
}

proof fn lemma_leading_zeros(n: nat, text: Seq<char>)
    ensures
        number(Seq::new(n, |i: int| '0') + text, 16) == number(text, 16),
    decreases text.len() + n,
{
    let zeros = Seq::new(n, |i: int| '0');
    let whole = zeros + text;
    if text.len() > 0 {
        lemma_leading_zeros(n, text.drop_last());
        assert(whole.drop_last() =~= zeros + text.drop_last());
        assert(whole.last() == text.last());
    } else if n > 0 {
        let fewer = Seq::new((n - 1) as nat, |i: int| '0');
        lemma_leading_zeros((n - 1) as nat, text);
        assert(whole.drop_last() =~= fewer + text);
        assert(whole.last() == '0');
    } else {
        assert(whole =~= text);
    }
}

} // verus!
