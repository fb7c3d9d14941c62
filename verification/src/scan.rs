//! The scanner: one pass over the characters of a text, from left to right.
//!
//! The scanner reads one character at a time and keeps, besides the text written so far,
//! only a state: whether a candidate reference is open, of which form, and where its
//! ampersand stands. It never goes back in the text.

use vstd::prelude::*;
use crate::chars::{alphanumeric, digit, hex_digit, is_digit, is_hex_digit, letter, push_range};
use crate::numeral::scalar_of;
use crate::syntax::{candidate_end, decoded, decoded_from, form_at, run_end, Form};
use crate::table::ReferenceTable;

verus! {

/// Where the scanner stands in a possible reference. Every state but `Plain` carries the
/// position of the ampersand that opened the candidate.
#[derive(Clone, Copy)]
enum ScanState {
    /// No candidate is open.
    Plain,
    /// The ampersand was the last character read.
    Opened(usize),
    /// An ampersand, a letter, and letters or digits were read.
    Named(usize),
    /// `&#` was read.
    Numeric(usize),
    /// `&#` and one decimal digit or more were read.
    Decimal(usize),
    /// `&#x` or `&#X`, and hexadecimal digits if any, were read.
    Hex(usize),
}

impl ScanState {
    /// Whether the state is one that the scanner can be in when it has read the first `i`
    /// characters of `s`: the candidate's ampersand stands where the state says, the
    /// characters between it and `i` are those of the state's form, and the candidate ends
    /// where the run that goes on from `i` ends.
    spec fn fits(self, s: Seq<char>, i: int) -> bool {
        match self {
            ScanState::Plain => 0 <= i <= s.len(),
            ScanState::Opened(p) => p + 1 == i && i <= s.len() && s[p as int] == '&',
            ScanState::Named(p) => {
                &&& p + 2 <= i <= s.len()
                &&& s[p as int] == '&'
                &&& form_at(s, p as int) == Form::Named
                &&& candidate_end(s, p as int) == run_end(s, Form::Named, i)
            },
            ScanState::Numeric(p) => {
                &&& p + 2 == i && i <= s.len()
                &&& s[p as int] == '&'
                &&& s[p + 1] == '#'
            },
            ScanState::Decimal(p) => {
                &&& p + 3 <= i <= s.len()
                &&& s[p as int] == '&'
                &&& form_at(s, p as int) == Form::Decimal
                &&& candidate_end(s, p as int) == run_end(s, Form::Decimal, i)
                &&& forall|k: int| p + 2 <= k < i ==> is_digit(#[trigger] s[k])
            },
            ScanState::Hex(p) => {
                &&& p + 3 <= i <= s.len()
                &&& s[p as int] == '&'
                &&& form_at(s, p as int) == Form::Hex
                &&& candidate_end(s, p as int) == run_end(s, Form::Hex, i)
                &&& forall|k: int| p + 3 <= k < i ==> is_hex_digit(#[trigger] s[k])
            },
        }
    }

    /// The position from which the text is not yet written when the scanner stands at `i`:
    /// `i` itself where no candidate is open, else the candidate's ampersand.
    spec fn unwritten_from(self, i: int) -> int {
        match self {
            ScanState::Plain => i,
            ScanState::Opened(p)
            | ScanState::Named(p)
            | ScanState::Numeric(p)
            | ScanState::Decimal(p)
            | ScanState::Hex(p) => p as int,
        }
    }
}

/// Reads the character at `i` in state `state`: writes to `out` what this character
/// settles, and gives the state for the next character.
///
/// What is written and what is still to be decoded make up, after the step as before it,
/// the same text.
fn step(
    table: &ReferenceTable,
    text: &[char],
    state: ScanState,
    i: usize,
    out: &mut String,
) -> (next: ScanState)
    requires
        i < text@.len(),
        state.fits(text@, i as int),
    ensures
        next.fits(text@, i + 1),
        final(out)@ + decoded_from(table@, text@, next.unwritten_from(i + 1)) == old(out)@
            + decoded_from(table@, text@, state.unwritten_from(i as int)),
{
    let symbol = text[i];
    let ghost s = text@;
    let ghost before = out@;
    let next = match state {
        ScanState::Plain => {
            if symbol == '&' {
                ScanState::Opened(i)
            } else {
                out.push(symbol);
                ScanState::Plain
            }
        },
        ScanState::Opened(p) => {
            if letter(symbol) {
                ScanState::Named(p)
            } else if symbol == '#' {
                ScanState::Numeric(p)
            } else if symbol == '&' {
                push_range(out, text, p, i);
                ScanState::Opened(i)
            } else {
                push_range(out, text, p, i + 1);
                ScanState::Plain
            }
        },
        ScanState::Named(p) => {
            if symbol == '&' {
                push_range(out, text, p, i);
                ScanState::Opened(i)
            } else if alphanumeric(symbol) {
                ScanState::Named(p)
            } else if symbol == ';' && i > p + 2 {
                match table.resolve(text, p + 1, i) {
                    Some(value) => out.append(value),
                    None => push_range(out, text, p, i + 1),
                }
                ScanState::Plain
            } else {
                push_range(out, text, p, i + 1);
                ScanState::Plain
            }
        },
        ScanState::Numeric(p) => {
            if symbol == '&' {
                push_range(out, text, p, i);
                ScanState::Opened(i)
            } else if digit(symbol) {
                ScanState::Decimal(p)
            } else if symbol == 'x' || symbol == 'X' {
                ScanState::Hex(p)
            } else {
                push_range(out, text, p, i + 1);
                ScanState::Plain
            }
        },
        ScanState::Decimal(p) => {
            if symbol == '&' {
                push_range(out, text, p, i);
                ScanState::Opened(i)
            } else if digit(symbol) {
                ScanState::Decimal(p)
            } else if symbol == ';' && i >= p + 3 {
                match scalar_of(text, p + 2, i, 10) {
                    Some(character) => {
                        out.push(character);
                    },
                    None => push_range(out, text, p, i + 1),
                }
                ScanState::Plain
            } else {
                push_range(out, text, p, i + 1);
                ScanState::Plain
            }
        },
        ScanState::Hex(p) => {
            if symbol == '&' {
                push_range(out, text, p, i);
                ScanState::Opened(i)
            } else if hex_digit(symbol) {
                ScanState::Hex(p)
            } else if symbol == ';' && i >= p + 4 {
                match scalar_of(text, p + 3, i, 16) {
                    Some(character) => {
                        out.push(character);
                    },
                    None => push_range(out, text, p, i + 1),
                }
                ScanState::Plain
            } else {
                push_range(out, text, p, i + 1);
                ScanState::Plain
            }
        },
    };
    proof {
        let written = out@.subrange(before.len() as int, out@.len() as int);
        let to_come = decoded_from(table@, s, next.unwritten_from(i + 1));
        assert((before + written) + to_come == before + (written + to_come));
    }
    next
}

/// Decodes the characters `text` against `table`, in one pass.
pub(crate) fn scan(table: &ReferenceTable, text: &[char]) -> (out: String)
    ensures
        out@ == decoded(table@, text@),
{
    let mut out = String::new();
    let mut state = ScanState::Plain;
    let mut i: usize = 0;
    while i < text.len()
        invariant
            i <= text@.len(),
            state.fits(text@, i as int),
            out@ + decoded_from(table@, text@, state.unwritten_from(i as int)) == decoded(
                table@,
                text@,
            ),
        decreases text@.len() - i,
    {
        state = step(table, text, state, i, &mut out);
        i += 1;
    }
    match state {
        ScanState::Plain => {},
        ScanState::Opened(p)
        | ScanState::Named(p)
        | ScanState::Numeric(p)
        | ScanState::Decimal(p)
        | ScanState::Hex(p) => {
            push_range(&mut out, text, p, text.len());
        },
    }
    out
}

} // verus!
