//! The reference table: which name stands for which text.
//!
//! The table keeps its entries in a vector ordered by name, so that no name occurs twice
//! and a name is found by bisection.

use vstd::prelude::*;
use crate::chars::{alphanumeric, characters_of, is_alphanumeric};

verus! {

/// `a` comes before `b` in lexicographic order, and `k` is the first position at which the
/// two differ: either `a` ends there and `b` goes on, or `a` has the smaller character.
spec fn precedes_at(a: Seq<char>, b: Seq<char>, k: int) -> bool {
    &&& 0 <= k <= a.len()
    &&& k < b.len()
    &&& forall|j: int| 0 <= j < k ==> a[j] == b[j]
    &&& (k == a.len() || a[k] < b[k])
}

/// `a` comes before `b` in lexicographic order.
spec fn precedes(a: Seq<char>, b: Seq<char>) -> bool {
    exists|k: int| precedes_at(a, b, k)
}

/// Nothing comes before itself.
proof fn lemma_precedes_irreflexive(a: Seq<char>)
    ensures
        !precedes(a, a),
{
    assert forall|k: int| !precedes_at(a, a, k) by {}
}

/// What comes before something that comes before a third comes before the third.
proof fn lemma_precedes_transitive(a: Seq<char>, b: Seq<char>, c: Seq<char>)
    requires
        precedes(a, b),
        precedes(b, c),
    ensures
        precedes(a, c),
{
    let k1 = choose|k: int| precedes_at(a, b, k);
    let k2 = choose|k: int| precedes_at(b, c, k);
    let k = if k1 <= k2 {
        k1
    } else {
        k2
    };
    assert(precedes_at(a, c, k));
}

/// How one name stands to another in lexicographic order.
enum Side {
    /// The first comes before the second.
    Before,
    /// The two are the same.
    Same,
    /// The first comes after the second.
    After,
}

/// Places `a` against `text[from..to]` in lexicographic order.
fn side_of(a: &[char], text: &[char], from: usize, to: usize) -> (r: Side)
    requires
        from <= to <= text@.len(),
    ensures
        r == Side::Before <==> precedes(a@, text@.subrange(from as int, to as int)),
        r == Side::Same <==> a@ == text@.subrange(from as int, to as int),
        r == Side::After <==> precedes(text@.subrange(from as int, to as int), a@),
{
    let ghost b = text@.subrange(from as int, to as int);
    let n = to - from;
    let mut k: usize = 0;
    proof {
        lemma_precedes_irreflexive(a@);
        if precedes(a@, b) && precedes(b, a@) {
            lemma_precedes_transitive(a@, b, a@);
        }
    }
    while k < a.len() && k < n
        invariant
            from <= to <= text@.len(),
            n == to - from,
            b == text@.subrange(from as int, to as int),
            k <= a@.len(),
            k <= n,
            forall|j: int| 0 <= j < k ==> a@[j] == b[j],
        decreases n - k,
    {
        let x = a[k];
        let y = text[from + k];
        if x < y {
            assert(precedes_at(a@, b, k as int));
            return Side::Before;
        }
        if y < x {
            assert(precedes_at(b, a@, k as int));
            return Side::After;
        }
        k += 1;
    }
    if k < n {
        assert(precedes_at(a@, b, k as int));
        Side::Before
    } else if k < a.len() {
        assert(precedes_at(b, a@, k as int));
        Side::After
    } else {
        assert(a@ =~= b);
        Side::Same
    }
}

/// A name that the table takes: one character or more, each an ASCII letter or digit.
pub open spec fn is_name(name: Seq<char>) -> bool {
    &&& name.len() >= 1
    &&& forall|k: int| 0 <= k < name.len() ==> is_alphanumeric(#[trigger] name[k])
}

/// Why the table does not take a name.
#[derive(Clone, Copy, Debug, PartialEq, Eq)]
pub enum NameError {
    /// The name has no character.
    Empty,
    /// The name has a character that is no ASCII letter or digit.
    NotAlphanumeric,
}

/// What is wrong with `name`, if anything is.
pub open spec fn name_fault(name: Seq<char>) -> Option<NameError> {
    if name.len() == 0 {
        Some(NameError::Empty)
    } else if !is_name(name) {
        Some(NameError::NotAlphanumeric)
    } else {
        None
    }
}

/// What is wrong with the name `chars`, if anything is.
fn fault_of(chars: &[char]) -> (fault: Option<NameError>)
    ensures
        fault == name_fault(chars@),
{
    if chars.len() == 0 {
        return Some(NameError::Empty);
    }
    let mut k: usize = 0;
    while k < chars.len()
        invariant
            k <= chars@.len(),
            forall|j: int| 0 <= j < k ==> is_alphanumeric(#[trigger] chars@[j]),
        decreases chars@.len() - k,
    {
        if !alphanumeric(chars[k]) {
            return Some(NameError::NotAlphanumeric);
        }
        k += 1;
    }
    None
}

/// One entry of the table.
struct Entry {
    name: Vec<char>,
    value: String,
}

/// Whether the names of `entries` stand in strictly rising order.
spec fn rising(entries: Seq<Entry>) -> bool {
    forall|i: int, j: int|
        0 <= i < j < entries.len() ==> precedes(
            (#[trigger] entries[i]).name@,
            (#[trigger] entries[j]).name@,
        )
}

/// Whether an entry of `entries` has the name.
spec fn holds(entries: Seq<Entry>, name: Seq<char>) -> bool {
    exists|i: int| 0 <= i < entries.len() && (#[trigger] entries[i]).name@ == name
}

/// The position of an entry with the name, where there is one.
spec fn place(entries: Seq<Entry>, name: Seq<char>) -> int {
    choose|i: int| 0 <= i < entries.len() && (#[trigger] entries[i]).name@ == name
}

/// The mapping that `entries` stand for.
spec fn mapping(entries: Seq<Entry>) -> Map<Seq<char>, Seq<char>> {
    Map::new(|name: Seq<char>| holds(entries, name), |name: Seq<char>| entries[place(entries, name)].value@)
}

/// In a rising sequence the entry at `i` is the one that its name maps to.
proof fn lemma_entry_mapped(entries: Seq<Entry>, i: int)
    requires
        rising(entries),
        0 <= i < entries.len(),
    ensures
        holds(entries, entries[i].name@),
        place(entries, entries[i].name@) == i,
        mapping(entries).contains_key(entries[i].name@),
        mapping(entries)[entries[i].name@] == entries[i].value@,
{
    let name = entries[i].name@;
    let j = place(entries, name);
    lemma_precedes_irreflexive(name);
    if j < i {
        assert(precedes(entries[j].name@, entries[i].name@));
    } else if i < j {
        assert(precedes(entries[i].name@, entries[j].name@));
    }
}

/// A name that every entry stands before or behind is not in the mapping.
proof fn lemma_absent(entries: Seq<Entry>, name: Seq<char>, at: int)
    requires
        0 <= at <= entries.len(),
        forall|j: int| 0 <= j < at ==> precedes((#[trigger] entries[j]).name@, name),
        forall|j: int| at <= j < entries.len() ==> precedes(name, (#[trigger] entries[j]).name@),
    ensures
        !holds(entries, name),
        !mapping(entries).contains_key(name),
{
    lemma_precedes_irreflexive(name);
    assert forall|i: int| 0 <= i < entries.len() implies (#[trigger] entries[i]).name@ != name by {
        if i < at {
            assert(precedes(entries[i].name@, name));
        } else {
            assert(precedes(name, entries[i].name@));
        }
    }
}

/// Putting an entry in the place of one with the same name keeps the order, and maps the
/// name to the new entry's value.
proof fn lemma_replace(entries: Seq<Entry>, i: int, entry: Entry)
    requires
        rising(entries),
        0 <= i < entries.len(),
        entries[i].name@ == entry.name@,
    ensures
        rising(entries.update(i, entry)),
        mapping(entries.update(i, entry)) == mapping(entries).insert(entry.name@, entry.value@),
{
    let after = entries.update(i, entry);
    assert forall|a: int, b: int| 0 <= a < b < after.len() implies precedes(
        (#[trigger] after[a]).name@,
        (#[trigger] after[b]).name@,
    ) by {
        assert(precedes(entries[a].name@, entries[b].name@));
    }
    let want = mapping(entries).insert(entry.name@, entry.value@);
    assert forall|name: Seq<char>| mapping(after).contains_key(name) implies want.contains_key(
        name,
    ) && want[name] == mapping(after)[name] by {
        let j = place(after, name);
        lemma_entry_mapped(after, j);
        if j != i {
            lemma_entry_mapped(entries, j);
        }
    }
    assert forall|name: Seq<char>| want.contains_key(name) implies mapping(after).contains_key(
        name,
    ) by {
        if name == entry.name@ {
            lemma_entry_mapped(after, i);
        } else {
            let j = place(entries, name);
            lemma_entry_mapped(entries, j);
            lemma_entry_mapped(after, j);
        }
    }
    assert(mapping(after) =~= want);
}

/// Putting an entry with a new name where it belongs keeps the order, and maps the name to
/// the entry's value.
proof fn lemma_insert(entries: Seq<Entry>, i: int, entry: Entry)
    requires
        rising(entries),
        0 <= i <= entries.len(),
        forall|j: int| 0 <= j < i ==> precedes((#[trigger] entries[j]).name@, entry.name@),
        forall|j: int| i <= j < entries.len() ==> precedes(entry.name@, (#[trigger] entries[j]).name@),
    ensures
        rising(entries.insert(i, entry)),
        mapping(entries.insert(i, entry)) == mapping(entries).insert(entry.name@, entry.value@),
{
    let after = entries.insert(i, entry);
    assert forall|a: int, b: int| 0 <= a < b < after.len() implies precedes(
        (#[trigger] after[a]).name@,
        (#[trigger] after[b]).name@,
    ) by {
        if b < i {
            assert(precedes(entries[a].name@, entries[b].name@));
        } else if b == i {
            assert(precedes(entries[a].name@, entry.name@));
        } else if a < i {
            assert(precedes(entries[a].name@, entry.name@));
            assert(precedes(entry.name@, entries[b - 1].name@));
            lemma_precedes_transitive(entries[a].name@, entry.name@, entries[b - 1].name@);
        } else if a == i {
            assert(precedes(entry.name@, entries[b - 1].name@));
        } else {
            assert(precedes(entries[a - 1].name@, entries[b - 1].name@));
        }
    }
    let want = mapping(entries).insert(entry.name@, entry.value@);
    assert forall|name: Seq<char>| mapping(after).contains_key(name) implies want.contains_key(
        name,
    ) && want[name] == mapping(after)[name] by {
        let j = place(after, name);
        lemma_entry_mapped(after, j);
        if j < i {
            lemma_entry_mapped(entries, j);
        } else if j > i {
            lemma_entry_mapped(entries, j - 1);
        }
    }
    assert forall|name: Seq<char>| want.contains_key(name) implies mapping(after).contains_key(
        name,
    ) by {
        if name == entry.name@ {
            lemma_entry_mapped(after, i);
        } else {
            let j = place(entries, name);
            lemma_entry_mapped(entries, j);
            if j < i {
                lemma_entry_mapped(after, j);
            } else {
                lemma_entry_mapped(after, j + 1);
            }
        }
    }
    assert(mapping(after) =~= want);
}

/// A mapping from names to the text that each stands for. No name occurs twice, and the
/// names are told apart by case.
pub struct ReferenceTable {
    entries: Vec<Entry>,
}

impl View for ReferenceTable {
    type V = Map<Seq<char>, Seq<char>>;

    closed spec fn view(&self) -> Map<Seq<char>, Seq<char>> {
        mapping(self.entries@)
    }
}

impl ReferenceTable {
    #[verifier::type_invariant]
    closed spec fn ordered(&self) -> bool {
        &&& rising(self.entries@)
        &&& forall|i: int| 0 <= i < self.entries@.len() ==> is_name((#[trigger] self.entries@[i]).name@)
    }

    /// The table without entries.
    pub fn new() -> (table: Self)
        ensures
            table@ == Map::<Seq<char>, Seq<char>>::empty(),
    {
        let table = ReferenceTable { entries: Vec::new() };
        assert(table@ =~= Map::<Seq<char>, Seq<char>>::empty());
        table
    }

    /// Maps `name` to `value`, in place of what the name stood for before, where `name` is
    /// one that the table takes. Where it is not, the table stays as it is, and the error
    /// says what is wrong with the name.
    pub fn insert(&mut self, name: &str, value: &str) -> (r: Result<(), NameError>)
        ensures
            match r {
                Ok(_) => is_name(name@) && final(self)@ == old(self)@.insert(name@, value@),
                Err(fault) => name_fault(name@) == Some(fault) && final(self)@ == old(self)@,
            },
    {
        let chars = characters_of(name);
        match fault_of(chars.as_slice()) {
            Some(fault) => Err(fault),
            None => {
                self.put_chars(chars, value);
                Ok(())
            },
        }
    }

    /// Maps `name` to `value`, in place of what the name stood for before.
    pub(crate) fn put(&mut self, name: &str, value: &str)
        requires
            is_name(name@),
        ensures
            final(self)@ == old(self)@.insert(name@, value@),
    {
        self.put_chars(characters_of(name), value);
    }

    /// Maps the name `chars` to `value`, in place of what the name stood for before.
    fn put_chars(&mut self, chars: Vec<char>, value: &str)
        requires
            is_name(chars@),
        ensures
            final(self)@ == old(self)@.insert(chars@, value@),
    {
        proof {
            use_type_invariant(&*self);
        }
        let found = self.find(chars.as_slice(), 0, chars.len());
        assert(chars@.subrange(0, chars@.len() as int) == chars@);
        let entry = Entry { name: chars, value: value.to_owned() };
        let mut entries: Vec<Entry> = Vec::new();
        core::mem::swap(&mut entries, &mut self.entries);
        match found {
            Ok(i) => {
                proof {
                    lemma_replace(entries@, i as int, entry);
                }
                entries[i] = entry;
            },
            Err(i) => {
                proof {
                    lemma_insert(entries@, i as int, entry);
                }
                entries.insert(i, entry);
            },
        }
        self.entries = entries;
    }

    /// What the name `text[from..to]` stands for, where the table holds it.
    pub(crate) fn resolve(&self, text: &[char], from: usize, to: usize) -> (r: Option<&str>)
        requires
            from <= to <= text@.len(),
        ensures
            r is Some <==> self@.contains_key(text@.subrange(from as int, to as int)),
            r matches Some(value) ==> value@ == self@[text@.subrange(from as int, to as int)],
            r is Some ==> is_name(text@.subrange(from as int, to as int)),
    {
        proof {
            use_type_invariant(self);
        }
        match self.find(text, from, to) {
            Ok(i) => {
                proof {
                    lemma_entry_mapped(self.entries@, i as int);
                }
                Some(self.entries[i].value.as_str())
            },
            Err(i) => {
                proof {
                    lemma_absent(self.entries@, text@.subrange(from as int, to as int), i as int);
                }
                None
            },
        }
    }

    /// What `name` stands for, where the table holds it. The match is exact: the whole
    /// name, with its case.
    pub fn lookup(&self, name: &str) -> (r: Option<&str>)
        ensures
            r is Some <==> self@.contains_key(name@),
            r matches Some(value) ==> value@ == self@[name@],
            r is Some ==> is_name(name@),
    {
        let chars = characters_of(name);
        assert(chars@.subrange(0, chars@.len() as int) == chars@);
        self.resolve(chars.as_slice(), 0, chars.len())
    }

    /// Where the name `text[from..to]` stands among the entries: `Ok` with the position of
    /// the entry that has it, or `Err` with the position at which an entry with it belongs.
    fn find(&self, text: &[char], from: usize, to: usize) -> (r: Result<usize, usize>)
        requires
            from <= to <= text@.len(),
        ensures
            match r {
                Ok(i) => i < self.entries@.len() && self.entries@[i as int].name@
                    == text@.subrange(from as int, to as int),
                Err(i) => {
                    &&& i <= self.entries@.len()
                    &&& forall|j: int|
                        0 <= j < i ==> precedes(
                            (#[trigger] self.entries@[j]).name@,
                            text@.subrange(from as int, to as int),
                        )
                    &&& forall|j: int|
                        i <= j < self.entries@.len() ==> precedes(
                            text@.subrange(from as int, to as int),
                            (#[trigger] self.entries@[j]).name@,
                        )
                },
            },
    {
        proof {
            use_type_invariant(self);
        }
        let ghost name = text@.subrange(from as int, to as int);
        let mut lo: usize = 0;
        let mut hi: usize = self.entries.len();
        while lo < hi
            invariant
                from <= to <= text@.len(),
                name == text@.subrange(from as int, to as int),
                rising(self.entries@),
                lo <= hi <= self.entries@.len(),
                forall|j: int| 0 <= j < lo ==> precedes((#[trigger] self.entries@[j]).name@, name),
                forall|j: int|
                    hi <= j < self.entries@.len() ==> precedes(
                        name,
                        (#[trigger] self.entries@[j]).name@,
                    ),
            decreases hi - lo,
        {
            let mid = lo + (hi - lo) / 2;
            match side_of(self.entries[mid].name.as_slice(), text, from, to) {
                Side::Same => {
                    return Ok(mid);
                },
                Side::Before => {
                    assert forall|j: int| 0 <= j < mid + 1 implies precedes(
                        (#[trigger] self.entries@[j]).name@,
                        name,
                    ) by {
                        if j < mid {
                            assert(precedes(self.entries@[j].name@, self.entries@[mid as int].name@));
                            lemma_precedes_transitive(
                                self.entries@[j].name@,
                                self.entries@[mid as int].name@,
                                name,
                            );
                        }
                    }
                    lo = mid + 1;
                },
                Side::After => {
                    assert forall|j: int| mid <= j < self.entries@.len() implies precedes(
                        name,
                        (#[trigger] self.entries@[j]).name@,
                    ) by {
                        if mid < j {
                            assert(precedes(self.entries@[mid as int].name@, self.entries@[j].name@));
                            lemma_precedes_transitive(
                                name,
                                self.entries@[mid as int].name@,
                                self.entries@[j].name@,
                            );
                        }
                    }
                    hi = mid;
                },
            }
        }
        Err(lo)
    }
}

} // verus!
