use cr_unescape::table::{NameError, ReferenceTable};
use cr_unescape::unescape_with;

#[test]
fn a_new_table_holds_nothing() {
    let table = ReferenceTable::new();
    assert_eq!(table.lookup("amp"), None);
    assert_eq!(table.lookup(""), None);
    assert_eq!(unescape_with("&amp; &#38;", &table), "&amp; &");
}

#[test]
fn an_inserted_name_is_found() {
    let mut table = ReferenceTable::new();
    assert_eq!(table.insert("heart", "\u{2665}"), Ok(()));
    assert_eq!(table.lookup("heart"), Some("\u{2665}"));
    assert_eq!(table.lookup("hear"), None);
    assert_eq!(table.lookup("hearts"), None);
    assert_eq!(table.lookup("Heart"), None);
}

#[test]
fn a_second_insert_replaces_the_value() {
    let mut table = ReferenceTable::new();
    assert_eq!(table.insert("x1", "first"), Ok(()));
    assert_eq!(table.insert("x2", "other"), Ok(()));
    assert_eq!(table.insert("x1", "second"), Ok(()));
    assert_eq!(table.lookup("x1"), Some("second"));
    assert_eq!(table.lookup("x2"), Some("other"));
    assert_eq!(unescape_with("&x1;&x2;", &table), "secondother");
}

#[test]
fn names_are_found_whatever_the_order_of_insertion() {
    let names = ["m", "b", "zz", "a", "ab", "B", "mm", "0", "z", "aa", "b1", "M", "Zz", "zZ", "9z"];
    let mut table = ReferenceTable::new();
    for name in names.iter() {
        let value = format!("<{}>", name);
        assert_eq!(table.insert(name, &value), Ok(()));
    }
    for name in names.iter() {
        let value = format!("<{}>", name);
        assert_eq!(table.lookup(name), Some(value.as_str()));
    }
    assert_eq!(table.lookup("c"), None);
    assert_eq!(table.lookup("A"), None);
    assert_eq!(table.lookup("abc"), None);
    assert_eq!(table.lookup("zzz"), None);
    assert_eq!(table.lookup(""), None);
}

#[test]
fn many_names_are_kept_apart() {
    let mut table = ReferenceTable::new();
    for k in 0..500u32 {
        let name = format!("n{}", (k * 7919) % 500);
        let value = format!("{}", (k * 7919) % 500);
        assert_eq!(table.insert(&name, &value), Ok(()));
    }
    for k in 0..500u32 {
        let name = format!("n{}", k);
        let value = format!("{}", k);
        assert_eq!(table.lookup(&name), Some(value.as_str()));
    }
    assert_eq!(table.lookup("n500"), None);
    assert_eq!(table.lookup("n"), None);
}

#[test]
fn an_empty_name_is_refused() {
    let mut table = ReferenceTable::new();
    assert_eq!(table.insert("", "nothing"), Err(NameError::Empty));
    assert_eq!(table.lookup(""), None);
}

#[test]
fn a_name_with_another_character_is_refused() {
    let refused = ["a-b", "a b", " ab", "ab;", "&ab", "\u{e9}t\u{e9}", "caf\u{e9}", "a_b", "#65", "a.b"];
    let mut table = ReferenceTable::new();
    assert_eq!(table.insert("ab", "kept"), Ok(()));
    for name in refused.iter() {
        assert_eq!(table.insert(name, "refused"), Err(NameError::NotAlphanumeric), "{}", name);
        assert_eq!(table.lookup(name), None);
    }
    assert_eq!(table.lookup("ab"), Some("kept"));
}

#[test]
fn a_refused_name_leaves_the_table_as_it_was() {
    let mut table = ReferenceTable::new();
    assert_eq!(table.insert("ab", "1"), Ok(()));
    assert_eq!(table.insert("a!", "2"), Err(NameError::NotAlphanumeric));
    assert_eq!(table.insert("", "3"), Err(NameError::Empty));
    assert_eq!(table.lookup("ab"), Some("1"));
    assert_eq!(unescape_with("&ab;&a!;&;", &table), "1&a!;&;");
}

#[test]
fn a_value_may_be_more_than_one_character() {
    let mut table = ReferenceTable::new();
    assert_eq!(table.insert("fjlig", "fj"), Ok(()));
    assert_eq!(table.insert("nothing", ""), Ok(()));
    assert_eq!(table.insert("NotEqualTilde", "\u{2242}\u{338}"), Ok(()));
    assert_eq!(table.insert("amp", "&amp;"), Ok(()));
    assert_eq!(
        unescape_with("a&fjlig;b&nothing;c&NotEqualTilde;d&amp;", &table),
        "afjbc\u{2242}\u{338}d&amp;"
    );
}

#[test]
fn a_name_of_one_letter_is_never_resolved() {
    let mut table = ReferenceTable::new();
    assert_eq!(table.insert("r", "R"), Ok(()));
    assert_eq!(table.insert("rr", "RR"), Ok(()));
    assert_eq!(table.lookup("r"), Some("R"));
    assert_eq!(unescape_with("&r; &rr;", &table), "&r; RR");
}

#[test]
fn a_name_that_begins_with_a_digit_is_never_resolved() {
    let mut table = ReferenceTable::new();
    assert_eq!(table.insert("1a", "one"), Ok(()));
    assert_eq!(table.insert("a1", "two"), Ok(()));
    assert_eq!(table.lookup("1a"), Some("one"));
    assert_eq!(unescape_with("&1a; &a1;", &table), "&1a; two");
}

#[test]
fn a_table_entry_decodes_to_its_value() {
    let mut table = ReferenceTable::new();
    let entries = [("ab", "1"), ("Ab", "2"), ("a0", "3"), ("zzzzzzzzzzzz", "4"), ("q9q9", "")];
    for (name, value) in entries.iter() {
        assert_eq!(table.insert(name, value), Ok(()));
    }
    for (name, value) in entries.iter() {
        let reference = format!("&{};", name);
        assert_eq!(unescape_with(&reference, &table), *value);
    }
}

#[test]
fn the_table_decides_what_a_name_stands_for() {
    let mut table = ReferenceTable::new();
    assert_eq!(table.insert("copy", "(c)"), Ok(()));
    assert_eq!(unescape_with("&copy; &reg; &#169;", &table), "(c) &reg; \u{a9}");
}
