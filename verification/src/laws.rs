//! What holds of decoding whatever the text and the table.

use vstd::prelude::*;
use crate::characters::{character_map, lemma_known_names};
use crate::chars::{is_alphanumeric, is_digit, is_hex_digit, is_letter};
use crate::numeral::{
    decimal_numeral, hex_numeral, is_digit_in, is_scalar, lemma_decimal_numeral,
    lemma_hex_numeral, radix_value,
};
use crate::syntax::{
    accepts, body_start, candidate_end, decoded, decoded_from, form_at, is_reference_name,
    lemma_candidate_end_bounds, lemma_run_end_bounds, replacement, resolves, run_end, Form,
};

verus! {

/// A run that starts at `i` ends at `e` where the form takes in every character between
/// the two and not the one at `e`.
proof fn lemma_run_ends_at(s: Seq<char>, form: Form, i: int, e: int)
    requires
        0 <= i <= e <= s.len(),
        forall|k: int| i <= k < e ==> accepts(form, #[trigger] s[k]),
        e < s.len() ==> !accepts(form, s[e]),
    ensures
        run_end(s, form, i) == e,
    decreases e - i,
{
    if i < e {
        lemma_run_ends_at(s, form, i + 1, e);
    }
}

/// Text without an ampersand decodes to itself.
pub proof fn law_plain_text_is_kept(table: Map<Seq<char>, Seq<char>>, s: Seq<char>)
    requires
        !s.contains('&'),
    ensures
        decoded(table, s) == s,
{
    lemma_plain_rest_is_kept(table, s, 0);
    assert(s.subrange(0, s.len() as int) == s);
}

/// From any position on, text without an ampersand decodes to itself.
proof fn lemma_plain_rest_is_kept(table: Map<Seq<char>, Seq<char>>, s: Seq<char>, i: int)
    requires
        0 <= i <= s.len(),
        !s.contains('&'),
    ensures
        decoded_from(table, s, i) == s.subrange(i, s.len() as int),
    decreases s.len() - i,
{
    if i < s.len() {
        assert(s.contains(s[i]));
        lemma_plain_rest_is_kept(table, s, i + 1);
        assert(seq![s[i]] + s.subrange(i + 1, s.len() as int) == s.subrange(i, s.len() as int));
    } else {
        assert(s.subrange(i, s.len() as int) == Seq::<char>::empty());
    }
}

/// How a name between an ampersand and a semicolon decodes, for a name that begins with a
/// letter and goes on in letters and digits.
proof fn lemma_named_reference(table: Map<Seq<char>, Seq<char>>, name: Seq<char>)
    requires
        name.len() >= 1,
        is_letter(name[0]),
        forall|k: int| 0 <= k < name.len() ==> is_alphanumeric(#[trigger] name[k]),
    ensures
        decoded(table, seq!['&'] + name + seq![';']) == if name.len() >= 2 && table.contains_key(
            name,
        ) {
            table[name]
        } else {
            seq!['&'] + name + seq![';']
        },
{
    let s = seq!['&'] + name + seq![';'];
    let e: int = name.len() as int + 1;
    assert(s[0] == '&');
    assert(s[1] == name[0]);
    assert(form_at(s, 0) == Form::Named);
    assert forall|k: int| 1 <= k < e implies accepts(Form::Named, #[trigger] s[k]) by {
        assert(s[k] == name[k - 1]);
    }
    assert(s[e] == ';');
    lemma_run_ends_at(s, Form::Named, 1, e);
    assert(candidate_end(s, 0) == e);
    assert(s.subrange(1, e) == name);
    assert(s.subrange(0, e + 1) == s);
    let written = replacement(table, s, 0, e);
    assert(decoded_from(table, s, e + 1) == Seq::<char>::empty());
    assert(written + Seq::<char>::empty() == written);
}

/// A reference written with a name of the table decodes to what the table holds for the
/// name, where the name is one that a reference can be written with.
pub proof fn law_table_entry_resolves(
    table: Map<Seq<char>, Seq<char>>,
    name: Seq<char>,
    value: Seq<char>,
)
    requires
        table.contains_pair(name, value),
        is_reference_name(name),
    ensures
        decoded(table, seq!['&'] + name + seq![';']) == value,
{
    lemma_named_reference(table, name);
}

/// A reference written with a name that the library knows by itself decodes, against the
/// library's own table, to what the name stands for.
pub proof fn law_known_name_resolves(name: Seq<char>)
    requires
        character_map().contains_key(name),
    ensures
        decoded(character_map(), seq!['&'] + name + seq![';']) == character_map()[name],
{
    lemma_known_names(name);
    lemma_named_reference(character_map(), name);
}

/// A reference written with a name that the table does not hold decodes to itself.
pub proof fn law_unknown_name_is_kept(table: Map<Seq<char>, Seq<char>>, name: Seq<char>)
    requires
        is_reference_name(name),
        !table.contains_key(name),
    ensures
        decoded(table, seq!['&'] + name + seq![';']) == seq!['&'] + name + seq![';'],
{
    lemma_named_reference(table, name);
}

/// How a numeral between its prefix and a semicolon decodes: to the character whose code
/// it writes where there is one, else to itself.
proof fn lemma_numeric_reference(
    table: Map<Seq<char>, Seq<char>>,
    prefix: Seq<char>,
    digits: Seq<char>,
    radix: int,
)
    requires
        (radix == 10 && prefix == seq!['&', '#']) || (radix == 16 && (prefix == seq!['&', '#', 'x']
            || prefix == seq!['&', '#', 'X'])),
        digits.len() >= 1,
        forall|k: int| 0 <= k < digits.len() ==> is_digit_in(#[trigger] digits[k], radix),
    ensures
        decoded(table, prefix + digits + seq![';']) == if is_scalar(radix_value(digits, radix)) {
            seq![radix_value(digits, radix) as char]
        } else {
            prefix + digits + seq![';']
        },
{
    let s = prefix + digits + seq![';'];
    let form = if radix == 10 {
        Form::Decimal
    } else {
        Form::Hex
    };
    let b = prefix.len() as int;
    let e: int = b + digits.len();
    assert(s[0] == '&');
    assert(s[1] == '#');
    assert(s[2] == if radix == 10 {
        digits[0]
    } else {
        prefix[2]
    });
    assert(form_at(s, 0) == form);
    assert(body_start(form, 0) == b);
    assert forall|k: int| b <= k < e implies accepts(form, #[trigger] s[k]) by {
        assert(s[k] == digits[k - b]);
    }
    assert(s[e] == ';');
    lemma_run_ends_at(s, form, b, e);
    assert(candidate_end(s, 0) == e);
    assert(s.subrange(b, e) == digits);
    assert(s.subrange(0, e + 1) == s);
    let written = replacement(table, s, 0, e);
    assert(decoded_from(table, s, e + 1) == Seq::<char>::empty());
    assert(written + Seq::<char>::empty() == written);
}

/// A decimal reference decodes to the character whose code its numeral writes, where the
/// numeral has one digit or more and its value is a Unicode scalar value.
pub proof fn law_decimal_reference_resolves(table: Map<Seq<char>, Seq<char>>, digits: Seq<char>)
    requires
        digits.len() >= 1,
        forall|k: int| 0 <= k < digits.len() ==> is_digit(#[trigger] digits[k]),
        is_scalar(radix_value(digits, 10)),
    ensures
        decoded(table, seq!['&', '#'] + digits + seq![';']) == seq![
            radix_value(digits, 10) as char,
        ],
{
    lemma_numeric_reference(table, seq!['&', '#'], digits, 10);
}

/// A hexadecimal reference, marked by `x` or by `X`, decodes to the character whose code
/// its numeral writes, where the numeral has one digit or more, of either case, and its
/// value is a Unicode scalar value.
pub proof fn law_hex_reference_resolves(
    table: Map<Seq<char>, Seq<char>>,
    mark: char,
    digits: Seq<char>,
)
    requires
        mark == 'x' || mark == 'X',
        digits.len() >= 1,
        forall|k: int| 0 <= k < digits.len() ==> is_hex_digit(#[trigger] digits[k]),
        is_scalar(radix_value(digits, 16)),
    ensures
        decoded(table, seq!['&', '#', mark] + digits + seq![';']) == seq![
            radix_value(digits, 16) as char,
        ],
{
    lemma_numeric_reference(table, seq!['&', '#', mark], digits, 16);
}

/// A decimal reference whose numeral writes no Unicode scalar value, a surrogate or a
/// number above `0x10FFFF`, decodes to itself.
pub proof fn law_decimal_without_character_is_kept(
    table: Map<Seq<char>, Seq<char>>,
    digits: Seq<char>,
)
    requires
        digits.len() >= 1,
        forall|k: int| 0 <= k < digits.len() ==> is_digit(#[trigger] digits[k]),
        !is_scalar(radix_value(digits, 10)),
    ensures
        decoded(table, seq!['&', '#'] + digits + seq![';']) == seq!['&', '#'] + digits + seq![';'],
{
    lemma_numeric_reference(table, seq!['&', '#'], digits, 10);
}

/// A hexadecimal reference whose numeral writes no Unicode scalar value, a surrogate or a
/// number above `0x10FFFF`, decodes to itself.
pub proof fn law_hex_without_character_is_kept(
    table: Map<Seq<char>, Seq<char>>,
    mark: char,
    digits: Seq<char>,
)
    requires
        mark == 'x' || mark == 'X',
        digits.len() >= 1,
        forall|k: int| 0 <= k < digits.len() ==> is_hex_digit(#[trigger] digits[k]),
        !is_scalar(radix_value(digits, 16)),
    ensures
        decoded(table, seq!['&', '#', mark] + digits + seq![';']) == seq!['&', '#', mark] + digits
            + seq![';'],
{
    lemma_numeric_reference(table, seq!['&', '#', mark], digits, 16);
}

/// The decimal and the hexadecimal reference to a character both decode to it: for every
/// Unicode scalar value `v`, `&#` with the decimal numeral of `v` and `&#x` with its
/// hexadecimal numeral, each closed by a semicolon, give the character with the code `v`.
pub proof fn law_decimal_and_hex_agree(table: Map<Seq<char>, Seq<char>>, v: nat)
    requires
        is_scalar(v as int),
    ensures
        decoded(table, seq!['&', '#'] + decimal_numeral(v) + seq![';']) == seq![v as char],
        decoded(table, seq!['&', '#', 'x'] + hex_numeral(v) + seq![';']) == seq![v as char],
{
    lemma_decimal_numeral(v);
    lemma_hex_numeral(v);
    law_decimal_reference_resolves(table, decimal_numeral(v));
    law_hex_reference_resolves(table, 'x', hex_numeral(v));
}

/// A run in a text that stands behind another ends where it ends in the text alone.
proof fn lemma_run_end_shifts(a: Seq<char>, b: Seq<char>, form: Form, i: int)
    requires
        0 <= i <= b.len(),
    ensures
        run_end(a + b, form, a.len() + i) == a.len() + run_end(b, form, i),
    decreases b.len() - i,
{
    if i < b.len() {
        assert((a + b)[a.len() + i] == b[i]);
        if accepts(form, b[i]) {
            lemma_run_end_shifts(a, b, form, i + 1);
        }
    }
}

/// Decoding from a position on depends on nothing before that position: what stands in
/// front of a text does not change how the text decodes.
pub proof fn lemma_decoding_looks_ahead(
    table: Map<Seq<char>, Seq<char>>,
    a: Seq<char>,
    b: Seq<char>,
    i: int,
)
    requires
        0 <= i <= b.len(),
    ensures
        decoded_from(table, a + b, a.len() + i) == decoded_from(table, b, i),
    decreases b.len() - i,
{
    let s = a + b;
    let n = a.len() as int;
    if i < b.len() {
        assert(s[n + i] == b[i]);
        if b[i] != '&' {
            lemma_decoding_looks_ahead(table, a, b, i + 1);
        } else {
            if i + 1 < b.len() {
                assert(s[n + i + 1] == b[i + 1]);
            }
            if i + 2 < b.len() {
                assert(s[n + i + 2] == b[i + 2]);
            }
            let form = form_at(b, i);
            assert(form_at(s, n + i) == form);
            lemma_run_end_shifts(a, b, form, body_start(form, i));
            lemma_candidate_end_bounds(b, i);
            let e = candidate_end(b, i);
            assert(candidate_end(s, n + i) == n + e);
            if e >= b.len() {
                assert(s.subrange(n + i, s.len() as int) == b.subrange(i, b.len() as int));
            } else {
                assert(s[n + e] == b[e]);
                assert(s.subrange(n + i, n + e) == b.subrange(i, e));
                assert(s.subrange(n + i, n + e + 1) == b.subrange(i, e + 1));
                assert(s.subrange(body_start(form, n + i), n + e) == b.subrange(
                    body_start(form, i),
                    e,
                ));
                if b[e] == '&' {
                    lemma_decoding_looks_ahead(table, a, b, e);
                } else {
                    lemma_decoding_looks_ahead(table, a, b, e + 1);
                }
            }
        }
    }
}

/// From any position outside every candidate on, a text in which no candidate resolves
/// decodes to itself.
proof fn lemma_rest_without_reference_is_kept(
    table: Map<Seq<char>, Seq<char>>,
    s: Seq<char>,
    i: int,
)
    requires
        0 <= i <= s.len(),
        forall|p: int| 0 <= p < s.len() && s[p] == '&' ==> !#[trigger] resolves(table, s, p),
    ensures
        decoded_from(table, s, i) == s.subrange(i, s.len() as int),
    decreases s.len() - i,
{
    let rest = s.subrange(i, s.len() as int);
    if i >= s.len() {
        assert(rest == Seq::<char>::empty());
    } else if s[i] != '&' {
        lemma_rest_without_reference_is_kept(table, s, i + 1);
        assert(seq![s[i]] + s.subrange(i + 1, s.len() as int) == rest);
    } else {
        lemma_candidate_end_bounds(s, i);
        let e = candidate_end(s, i);
        assert(!resolves(table, s, i));
        if e < s.len() {
            if s[e] == '&' {
                lemma_rest_without_reference_is_kept(table, s, e);
                assert(s.subrange(i, e) + s.subrange(e, s.len() as int) == rest);
            } else {
                lemma_rest_without_reference_is_kept(table, s, e + 1);
                assert(replacement(table, s, i, e) == s.subrange(i, e + 1));
                assert(s.subrange(i, e + 1) + s.subrange(e + 1, s.len() as int) == rest);
            }
        }
    }
}

/// A text in which no candidate resolves decodes to itself, whatever else it holds:
/// ampersands that open nothing, names that the table does not hold, numerals without a
/// digit or without a character, candidates that nothing ends.
pub proof fn law_text_without_resolved_reference_is_kept(
    table: Map<Seq<char>, Seq<char>>,
    s: Seq<char>,
)
    requires
        forall|p: int| 0 <= p < s.len() && s[p] == '&' ==> !#[trigger] resolves(table, s, p),
    ensures
        decoded(table, s) == s,
{
    lemma_rest_without_reference_is_kept(table, s, 0);
    assert(s.subrange(0, s.len() as int) == s);
}

/// Whether `r` is written as a reference: an ampersand, then a name of the table, or `#`
/// and decimal digits, or `#`, `x` or `X` and hexadecimal digits, then a semicolon.
pub open spec fn is_reference(table: Map<Seq<char>, Seq<char>>, r: Seq<char>) -> bool {
    let n = r.len() as int;
    &&& n >= 2
    &&& r[0] == '&'
    &&& r[n - 1] == ';'
    &&& {
        ||| table.contains_key(r.subrange(1, n - 1))
        ||| n >= 4 && r[1] == '#' && forall|k: int| 2 <= k < n - 1 ==> is_digit(#[trigger] r[k])
        ||| n >= 5 && r[1] == '#' && (r[2] == 'x' || r[2] == 'X') && forall|k: int|
            3 <= k < n - 1 ==> is_hex_digit(#[trigger] r[k])
    }
}

/// A text no part of which is written as a reference decodes to itself: every character
/// of it is written once and in order, also the one behind an ampersand that opens
/// nothing and the one that ends a candidate.
pub proof fn law_text_without_reference_is_kept(table: Map<Seq<char>, Seq<char>>, s: Seq<char>)
    requires
        forall|p: int, e: int|
            0 <= p < e < s.len() ==> !is_reference(table, #[trigger] s.subrange(p, e + 1)),
    ensures
        decoded(table, s) == s,
{
    assert forall|p: int| 0 <= p < s.len() && s[p] == '&' implies !#[trigger] resolves(
        table,
        s,
        p,
    ) by {
        if resolves(table, s, p) {
            let form = form_at(s, p);
            let start = body_start(form, p);
            let e = candidate_end(s, p);
            let r = s.subrange(p, e + 1);
            lemma_candidate_end_bounds(s, p);
            lemma_run_end_bounds(s, form, start);
            assert(r.subrange(1, r.len() - 1) == s.subrange(p + 1, e));
            assert forall|k: int| start - p <= k < r.len() - 1 implies accepts(
                form,
                #[trigger] r[k],
            ) by {
                assert(r[k] == s[p + k]);
            }
            assert(is_reference(table, r));
        }
    }
    law_text_without_resolved_reference_is_kept(table, s);
}

/// A candidate that nothing ends is written as it stands: a text that begins with an
/// ampersand and ends before the candidate does decodes to itself.
pub proof fn law_open_candidate_is_kept(table: Map<Seq<char>, Seq<char>>, open: Seq<char>)
    requires
        open.len() > 0,
        open[0] == '&',
        candidate_end(open, 0) == open.len(),
    ensures
        decoded(table, open) == open,
{
    assert(open.subrange(0, open.len() as int) == open);
}

/// An ampersand behind an open candidate starts anew: where `open` is a candidate that
/// nothing in it has ended, and `rest` begins with an ampersand, `open` is written as it
/// stands and `rest` decodes as it does alone.
pub proof fn law_ampersand_restarts(
    table: Map<Seq<char>, Seq<char>>,
    open: Seq<char>,
    rest: Seq<char>,
)
    requires
        open.len() > 0,
        open[0] == '&',
        candidate_end(open, 0) == open.len(),
        rest.len() > 0,
        rest[0] == '&',
    ensures
        decoded(table, open + rest) == open + decoded(table, rest),
{
    let s = open + rest;
    let n = open.len() as int;
    assert(s[0] == '&');
    assert(s[n] == '&');
    if 1 < n {
        assert(s[1] == open[1]);
    }
    if 2 < n {
        assert(s[2] == open[2]);
    }
    let form = form_at(open, 0);
    assert(form_at(s, 0) == form);
    let start = body_start(form, 0);
    lemma_run_end_bounds(open, form, start);
    assert forall|k: int| start <= k < n implies accepts(form, #[trigger] s[k]) by {
        assert(s[k] == open[k]);
    }
    lemma_run_ends_at(s, form, start, n);
    assert(s.subrange(0, n) == open);
    lemma_decoding_looks_ahead(table, open, rest, 0);
}

} // verus!
