//! Numerals in base ten and sixteen, and the characters they stand for.

use vstd::prelude::*;
use crate::chars::{digit, is_digit, is_hex_digit};

verus! {

/// The value of one digit: `0` to `9` for the decimal digits, `10` to `15` for the letters
/// `a` to `f` of either case.
pub open spec fn digit_value(c: char) -> int {
    if is_digit(c) {
        c as int - '0' as int
    } else if 'a' <= c && c <= 'f' {
        c as int - 'a' as int + 10
    } else if 'A' <= c && c <= 'F' {
        c as int - 'A' as int + 10
    } else {
        0
    }
}

/// Whether `c` is a digit in base `radix`, for the two bases of the reference syntax.
pub open spec fn is_digit_in(c: char, radix: int) -> bool {
    if radix == 10 {
        is_digit(c)
    } else {
        is_hex_digit(c)
    }
}

/// The number that `digits` write in base `radix`, most significant digit first.
/// The empty numeral has the value zero.
pub open spec fn radix_value(digits: Seq<char>, radix: int) -> int
    decreases digits.len(),
{
    if digits.len() == 0 {
        0
    } else {
        radix_value(digits.drop_last(), radix) * radix + digit_value(digits.last())
    }
}

/// A Unicode scalar value: a code point up to `0x10FFFF` that is no surrogate.
pub open spec fn is_scalar(v: int) -> bool {
    (0 <= v && v <= 0xD7FF) || (0xE000 <= v && v <= 0x10FFFF)
}

/// The character with the code `v`, where there is one.
pub open spec fn scalar_char(v: int) -> Option<char> {
    if is_scalar(v) {
        Some(v as char)
    } else {
        None
    }
}

/// The digit that writes `d`, for `d` from zero to fifteen: `0` to `9`, then `a` to `f`.
pub open spec fn digit_char(d: int) -> char {
    if d < 10 {
        ('0' as int + d) as char
    } else {
        ('a' as int + d - 10) as char
    }
}

/// The numeral that writes `v` in base ten, without a leading zero.
pub open spec fn decimal_numeral(v: nat) -> Seq<char>
    decreases v,
{
    if v < 10 {
        seq![digit_char(v as int)]
    } else {
        decimal_numeral(v / 10).push(digit_char((v % 10) as int))
    }
}

/// The numeral that writes `v` in base sixteen, without a leading zero, in small letters.
pub open spec fn hex_numeral(v: nat) -> Seq<char>
    decreases v,
{
    if v < 16 {
        seq![digit_char(v as int)]
    } else {
        hex_numeral(v / 16).push(digit_char((v % 16) as int))
    }
}

/// The decimal numeral of `v` has a digit, only decimal digits, and the value `v`.
pub proof fn lemma_decimal_numeral(v: nat)
    ensures
        decimal_numeral(v).len() >= 1,
        forall|k: int| 0 <= k < decimal_numeral(v).len() ==> is_digit(#[trigger] decimal_numeral(v)[k]),
        radix_value(decimal_numeral(v), 10) == v,
    decreases v,
{
    let numeral = decimal_numeral(v);
    if v < 10 {
        assert(numeral.drop_last() == Seq::<char>::empty());
        assert(radix_value(Seq::<char>::empty(), 10) == 0);
    } else {
        lemma_decimal_numeral(v / 10);
        assert(numeral.drop_last() == decimal_numeral(v / 10));
    }
}

/// The hexadecimal numeral of `v` has a digit, only hexadecimal digits, and the value `v`.
pub proof fn lemma_hex_numeral(v: nat)
    ensures
        hex_numeral(v).len() >= 1,
        forall|k: int| 0 <= k < hex_numeral(v).len() ==> is_hex_digit(#[trigger] hex_numeral(v)[k]),
        radix_value(hex_numeral(v), 16) == v,
    decreases v,
{
    let numeral = hex_numeral(v);
    if v < 16 {
        assert(numeral.drop_last() == Seq::<char>::empty());
        assert(radix_value(Seq::<char>::empty(), 16) == 0);
    } else {
        lemma_hex_numeral(v / 16);
        assert(numeral.drop_last() == hex_numeral(v / 16));
    }
}

/// `char::from_u32` gives the character whose code is `i` where `i` is a Unicode scalar
/// value, and `None` for a surrogate or a number above `0x10FFFF`.
pub assume_specification[ char::from_u32 ](i: u32) -> (r: Option<char>)
    ensures
        (0 <= i && i <= 0xD7FF) || (0xE000 <= i && i <= 0x10FFFF) ==> r == Some(i as char),
        !((0 <= i && i <= 0xD7FF) || (0xE000 <= i && i <= 0x10FFFF)) ==> r is None,
;

/// The largest code that a character can have.
pub const MAX_CODE: u32 = 0x10FFFF;

/// A numeral is worth at least as much as any of its prefixes, and never less than zero.
proof fn lemma_value_grows(digits: Seq<char>, n: int, radix: int)
    requires
        0 <= n <= digits.len(),
        radix >= 1,
    ensures
        0 <= radix_value(digits.take(n), radix) <= radix_value(digits, radix),
    decreases digits.len() - n,
{
    if n == digits.len() {
        assert(digits.take(n) == digits);
        lemma_value_positive(digits, radix);
    } else {
        lemma_value_grows(digits.drop_last(), n, radix);
        assert(digits.drop_last().take(n) == digits.take(n));
        let v = radix_value(digits.drop_last(), radix);
        assert(v * radix >= v) by (nonlinear_arith)
            requires
                v >= 0,
                radix >= 1,
        ;
    }
}

/// No numeral is worth less than zero.
proof fn lemma_value_positive(digits: Seq<char>, radix: int)
    requires
        radix >= 1,
    ensures
        0 <= radix_value(digits, radix),
    decreases digits.len(),
{
    if digits.len() > 0 {
        lemma_value_positive(digits.drop_last(), radix);
        let v = radix_value(digits.drop_last(), radix);
        assert(v * radix >= 0) by (nonlinear_arith)
            requires
                v >= 0,
                radix >= 1,
        ;
    }
}

/// The value of the hexadecimal digit `c`.
pub(crate) fn value_of(c: char) -> (v: u32)
    requires
        is_hex_digit(c),
    ensures
        v == digit_value(c),
        v < 16,
{
    if digit(c) {
        c as u32 - '0' as u32
    } else if 'a' <= c && c <= 'f' {
        c as u32 - 'a' as u32 + 10
    } else {
        c as u32 - 'A' as u32 + 10
    }
}

/// The character that the numeral `text[from..to]` stands for in base `radix`: the one whose
/// code is the numeral's value, where that value is a Unicode scalar value.
pub(crate) fn scalar_of(text: &[char], from: usize, to: usize, radix: u32) -> (r: Option<char>)
    requires
        from <= to <= text@.len(),
        radix == 10 || radix == 16,
        forall|k: int| from <= k < to ==> is_digit_in(#[trigger] text@[k], radix as int),
    ensures
        r == scalar_char(radix_value(text@.subrange(from as int, to as int), radix as int)),
{
    let ghost digits = text@.subrange(from as int, to as int);
    let mut acc: u32 = 0;
    let mut k: usize = from;
    while k < to
        invariant
            from <= k <= to <= text@.len(),
            radix == 10 || radix == 16,
            digits == text@.subrange(from as int, to as int),
            forall|j: int| from <= j < to ==> is_digit_in(#[trigger] text@[j], radix as int),
            acc == radix_value(digits.take(k - from), radix as int),
            acc <= MAX_CODE,
        decreases to - k,
    {
        let d = value_of(text[k]);
        proof {
            let longer = digits.take(k - from + 1);
            assert(longer.drop_last() == digits.take(k - from));
        }
        acc = acc * radix + d;
        k += 1;
        if acc > MAX_CODE {
            proof {
                lemma_value_grows(digits, k - from, radix as int);
            }
            return None;
        }
    }
    assert(digits.take(to - from) == digits);
    char::from_u32(acc)
}

} // verus!
