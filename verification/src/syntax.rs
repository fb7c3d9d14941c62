//! What a text decodes to, stated over its characters.
//!
//! An ampersand opens a candidate reference. The one or two characters after it decide the
//! candidate's form, the form decides which characters the candidate's body takes in, and
//! the first character that the body does not take in ends the candidate. What is written
//! for the candidate depends on that character alone: a semicolon may resolve it, another
//! ampersand opens the next candidate, anything else leaves the text as it stands.

use vstd::prelude::*;
use crate::chars::{is_alphanumeric, is_digit, is_hex_digit, is_letter};
use crate::numeral::{is_scalar, radix_value};

verus! {

/// The forms of a candidate reference.
pub enum Form {
    /// An ampersand that neither a letter nor `#` follows.
    Bare,
    /// An ampersand and a letter: the start of a name.
    Named,
    /// `&#` that neither a decimal digit nor `x` follows.
    Numeric,
    /// `&#` and a decimal digit.
    Decimal,
    /// `&#x` or `&#X`.
    Hex,
}

/// The form of the candidate that the ampersand at `p` opens.
pub open spec fn form_at(s: Seq<char>, p: int) -> Form {
    if p + 1 < s.len() && is_letter(s[p + 1]) {
        Form::Named
    } else if p + 1 < s.len() && s[p + 1] == '#' {
        if p + 2 < s.len() && is_digit(s[p + 2]) {
            Form::Decimal
        } else if p + 2 < s.len() && (s[p + 2] == 'x' || s[p + 2] == 'X') {
            Form::Hex
        } else {
            Form::Numeric
        }
    } else {
        Form::Bare
    }
}

/// Whether the body of a candidate of this form takes the character in.
pub open spec fn accepts(form: Form, c: char) -> bool {
    match form {
        Form::Named => is_alphanumeric(c),
        Form::Decimal => is_digit(c),
        Form::Hex => is_hex_digit(c),
        Form::Bare | Form::Numeric => false,
    }
}

/// Where the body of a candidate opened at `p` starts: behind `&` for a name, behind `&#`
/// for a decimal numeral, behind `&#x` for a hexadecimal one.
pub open spec fn body_start(form: Form, p: int) -> int {
    match form {
        Form::Bare | Form::Named => p + 1,
        Form::Numeric | Form::Decimal => p + 2,
        Form::Hex => p + 3,
    }
}

/// The first position from `i` on whose character the form does not take in, or the
/// length of `s` where there is none.
pub open spec fn run_end(s: Seq<char>, form: Form, i: int) -> int
    decreases s.len() - i,
{
    if 0 <= i < s.len() && accepts(form, s[i]) {
        run_end(s, form, i + 1)
    } else {
        i
    }
}

/// The position of the character that ends the candidate opened at `p`, or the length of
/// `s` where the text ends first.
pub open spec fn candidate_end(s: Seq<char>, p: int) -> int {
    let form = form_at(s, p);
    run_end(s, form, body_start(form, p))
}

/// Whether the candidate opened at `p` is a reference that resolves: a semicolon ends it,
/// and it is a name of two characters or more that the table holds, or a numeral of one
/// digit or more whose value is a Unicode scalar value.
pub open spec fn resolves(table: Map<Seq<char>, Seq<char>>, s: Seq<char>, p: int) -> bool {
    let form = form_at(s, p);
    let e = candidate_end(s, p);
    let body = s.subrange(body_start(form, p), e);
    &&& e < s.len()
    &&& s[e] == ';'
    &&& match form {
        Form::Named => e > p + 2 && table.contains_key(body),
        Form::Decimal => e >= p + 3 && is_scalar(radix_value(body, 10)),
        Form::Hex => e >= p + 4 && is_scalar(radix_value(body, 16)),
        Form::Bare | Form::Numeric => false,
    }
}

/// What is written for the candidate opened at `p` and ended at `e` by a character other
/// than an ampersand.
///
/// A name of two characters or more that the table holds, closed by a semicolon, gives the
/// table's value. A numeral of one digit or more whose value is a Unicode scalar value,
/// closed by a semicolon, gives the character with that code. In every other case the
/// candidate is written as it stands, the character that ended it included: so is an
/// ampersand that opens nothing, with the character behind it.
pub open spec fn replacement(
    table: Map<Seq<char>, Seq<char>>,
    s: Seq<char>,
    p: int,
    e: int,
) -> Seq<char> {
    let form = form_at(s, p);
    let body = s.subrange(body_start(form, p), e);
    let verbatim = s.subrange(p, e + 1);
    match form {
        Form::Bare | Form::Numeric => verbatim,
        Form::Named => if s[e] == ';' && e > p + 2 && table.contains_key(body) {
            table[body]
        } else {
            verbatim
        },
        Form::Decimal => if s[e] == ';' && e >= p + 3 && is_scalar(radix_value(body, 10)) {
            seq![radix_value(body, 10) as char]
        } else {
            verbatim
        },
        Form::Hex => if s[e] == ';' && e >= p + 4 && is_scalar(radix_value(body, 16)) {
            seq![radix_value(body, 16) as char]
        } else {
            verbatim
        },
    }
}

/// A name with which a reference can be written and resolved: a letter, and behind it
/// one letter or digit or more.
pub open spec fn is_reference_name(name: Seq<char>) -> bool {
    &&& name.len() >= 2
    &&& is_letter(name[0])
    &&& forall|k: int| 0 <= k < name.len() ==> is_alphanumeric(#[trigger] name[k])
}

/// A run never ends before it starts, nor behind the end of the text.
pub(crate) proof fn lemma_run_end_bounds(s: Seq<char>, form: Form, i: int)
    requires
        0 <= i <= s.len(),
    ensures
        i <= run_end(s, form, i) <= s.len(),
        run_end(s, form, i) < s.len() ==> !accepts(form, s[run_end(s, form, i)]),
        forall|k: int| i <= k < run_end(s, form, i) ==> accepts(form, #[trigger] s[k]),
    decreases s.len() - i,
{
    if i < s.len() && accepts(form, s[i]) {
        lemma_run_end_bounds(s, form, i + 1);
    }
}

/// A candidate ends behind its ampersand, not before its body starts, and within the text.
pub(crate) proof fn lemma_candidate_end_bounds(s: Seq<char>, p: int)
    requires
        0 <= p < s.len(),
    ensures
        p < body_start(form_at(s, p), p) <= candidate_end(s, p) <= s.len(),
{
    let form = form_at(s, p);
    lemma_run_end_bounds(s, form, body_start(form, p));
}

/// The decoding of `s` from position `i` to its end, where `i` is outside every candidate.
///
/// A character other than an ampersand is written as it is. An ampersand opens a
/// candidate: if the text ends before the candidate does, the rest of the text is written
/// as it stands; if another ampersand ends the candidate, the candidate is written as it
/// stands and that ampersand opens the next one; otherwise the candidate's replacement is
/// written and the decoding goes on behind the character that ended it.
pub open spec fn decoded_from(table: Map<Seq<char>, Seq<char>>, s: Seq<char>, i: int) -> Seq<char>
    decreases s.len() - i,
    via decoded_from_terminates
{
    if i < 0 || i >= s.len() {
        Seq::empty()
    } else if s[i] != '&' {
        seq![s[i]] + decoded_from(table, s, i + 1)
    } else {
        let e = candidate_end(s, i);
        if e >= s.len() {
            s.subrange(i, s.len() as int)
        } else if s[e] == '&' {
            s.subrange(i, e) + decoded_from(table, s, e)
        } else {
            replacement(table, s, i, e) + decoded_from(table, s, e + 1)
        }
    }
}

#[via_fn]
proof fn decoded_from_terminates(table: Map<Seq<char>, Seq<char>>, s: Seq<char>, i: int) {
    if 0 <= i < s.len() {
        lemma_candidate_end_bounds(s, i);
    }
}

/// The decoding of the whole of `s` against `table`.
pub open spec fn decoded(table: Map<Seq<char>, Seq<char>>, s: Seq<char>) -> Seq<char> {
    decoded_from(table, s, 0)
}

} // verus!
