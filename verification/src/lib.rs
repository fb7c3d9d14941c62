//! Decoding of character-entity references in text.
//!
//! A reference is written `&name;`, `&#digits;` or `&#xdigits;` and stands for a character,
//! or for a few. [`unescape`] puts the characters in the place of the references of a text.
//! What looks like a reference and is none is no error: it stays in the text as it is
//! written, and so does every other character. The module [`syntax`] states what a text
//! decodes to, [`laws`] what follows from it.

use vstd::prelude::*;
use crate::characters::{character_map, characters};
use crate::chars::characters_of;
use crate::scan::scan;
use crate::syntax::decoded;
use crate::table::ReferenceTable;

pub mod characters;
pub mod chars;
pub mod laws;
pub mod numeral;
pub mod scan;
pub mod syntax;
pub mod table;

verus! {

/// Decodes the references in `text`, resolving names against `table`, in one pass over
/// the text.
pub fn unescape_with(text: &str, table: &ReferenceTable) -> (out: String)
    ensures
        out@ == decoded(table@, text@),
{
    let chars = characters_of(text);
    scan(table, chars.as_slice())
}

/// Decodes the references in `text`, resolving names against the table that the library
/// knows by itself. There is no text for which the result is `None`.
///
/// The table is built at each call: to decode many texts, build it once with
/// [`characters`] and decode with [`unescape_with`].
pub fn unescape<'a>(text: &str) -> (out: Option<String>)
    ensures
        out matches Some(plain) && plain@ == decoded(character_map(), text@),
{
    let table = characters();
    Some(unescape_with(text, &table))
}

/// Text whose references can be decoded in place of a call of [`unescape`].
pub trait EscapeCharacters {
    /// The characters of the text.
    spec fn text(&self) -> Seq<char>;

    /// Decodes the references in the text, as [`unescape`] does.
    fn unescape(&self) -> (out: Option<String>)
        ensures
            out matches Some(plain) && plain@ == decoded(character_map(), self.text()),
    ;
}

impl EscapeCharacters for &str {
    open spec fn text(&self) -> Seq<char> {
        self@
    }

    fn unescape(&self) -> (out: Option<String>) {
        unescape(self)
    }
}

} // verus!
