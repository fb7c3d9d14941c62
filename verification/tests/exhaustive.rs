use cr_unescape::table::ReferenceTable;
use cr_unescape::unescape_with;
use std::collections::BTreeMap;

enum At {
    Plain,
    Opened(usize),
    Named(usize),
    Numeric(usize),
    Decimal(usize),
    Hex(usize),
}

fn code_of(digits: &str, radix: u32) -> Option<char> {
    let mut value: u64 = 0;
    for digit in digits.chars() {
        value = value * radix as u64 + digit.to_digit(radix).unwrap() as u64;
        if value > 0x10FFFF {
            return None;
        }
    }
    char::from_u32(value as u32)
}

fn scanned(text: &str, names: &BTreeMap<&str, &str>) -> String {
    let mut out = String::new();
    let mut at = At::Plain;
    for (i, symbol) in text.char_indices() {
        let through = i + symbol.len_utf8();
        at = match at {
            At::Plain => {
                if symbol == '&' {
                    At::Opened(i)
                } else {
                    out.push(symbol);
                    At::Plain
                }
            }
            At::Opened(p) => match symbol {
                'a'..='z' | 'A'..='Z' => At::Named(p),
                '#' => At::Numeric(p),
                '&' => {
                    out.push_str(&text[p..i]);
                    At::Opened(i)
                }
                _ => {
                    out.push_str(&text[p..through]);
                    At::Plain
                }
            },
            At::Named(p) => match symbol {
                '&' => {
                    out.push_str(&text[p..i]);
                    At::Opened(i)
                }
                'a'..='z' | 'A'..='Z' | '0'..='9' => At::Named(p),
                ';' if i > p + 2 => {
                    match names.get(&text[p + 1..i]) {
                        Some(value) => out.push_str(value),
                        None => out.push_str(&text[p..through]),
                    }
                    At::Plain
                }
                _ => {
                    out.push_str(&text[p..through]);
                    At::Plain
                }
            },
            At::Numeric(p) => match symbol {
                '&' => {
                    out.push_str(&text[p..i]);
                    At::Opened(i)
                }
                '0'..='9' => At::Decimal(p),
                'x' | 'X' => At::Hex(p),
                _ => {
                    out.push_str(&text[p..through]);
                    At::Plain
                }
            },
            At::Decimal(p) => match symbol {
                '&' => {
                    out.push_str(&text[p..i]);
                    At::Opened(i)
                }
                '0'..='9' => At::Decimal(p),
                ';' if i >= p + 3 => {
                    match code_of(&text[p + 2..i], 10) {
                        Some(character) => out.push(character),
                        None => out.push_str(&text[p..through]),
                    }
                    At::Plain
                }
                _ => {
                    out.push_str(&text[p..through]);
                    At::Plain
                }
            },
            At::Hex(p) => match symbol {
                '&' => {
                    out.push_str(&text[p..i]);
                    At::Opened(i)
                }
                '0'..='9' | 'a'..='f' | 'A'..='F' => At::Hex(p),
                ';' if i >= p + 4 => {
                    match code_of(&text[p + 3..i], 16) {
                        Some(character) => out.push(character),
                        None => out.push_str(&text[p..through]),
                    }
                    At::Plain
                }
                _ => {
                    out.push_str(&text[p..through]);
                    At::Plain
                }
            },
        };
    }
    match at {
        At::Plain => {}
        At::Opened(p) | At::Named(p) | At::Numeric(p) | At::Decimal(p) | At::Hex(p) => {
            out.push_str(&text[p..])
        }
    }
    out
}

fn entries() -> Vec<(&'static str, &'static str)> {
    vec![
        ("a", "[a]"),
        ("a1", "[a1]"),
        ("aa", ""),
        ("xa", "&"),
        ("x1", "#"),
        ("A1", "\u{e9}"),
        ("a1a", "&a1;"),
        ("D1", ";"),
    ]
}

fn compare_all(alphabet: &[char], length: usize) {
    let mut names = BTreeMap::new();
    let mut table = ReferenceTable::new();
    for (name, value) in entries() {
        names.insert(name, value);
        assert_eq!(table.insert(name, value), Ok(()));
    }
    let mut count = 1;
    for _ in 0..length {
        count *= alphabet.len();
    }
    for mut k in 0..count {
        let mut text = String::new();
        for _ in 0..length {
            text.push(alphabet[k % alphabet.len()]);
            k /= alphabet.len();
        }
        assert_eq!(unescape_with(&text, &table), scanned(&text, &names), "{:?}", text);
    }
}

#[test]
fn every_short_text_decodes_as_the_scanner_says() {
    let alphabet = ['&', '#', 'x', 'a', '1', ';', ' '];
    for length in 0..=6 {
        compare_all(&alphabet, length);
    }
}

#[test]
fn every_short_text_with_other_characters_decodes_as_the_scanner_says() {
    let alphabet = ['&', '#', 'X', 'A', 'D', '1', '0', ';', 'g', '\u{e9}', '\u{1F600}'];
    for length in 0..=5 {
        compare_all(&alphabet, length);
    }
}

#[test]
fn long_numerals_decode_as_the_scanner_says() {
    let names = BTreeMap::new();
    let table = ReferenceTable::new();
    let digits = ['0', '1', '9', 'f', 'F', 'D', '8'];
    for prefix in ["&#", "&#x", "&#X"].iter() {
        let mut count = 1;
        for length in 1..=7 {
            count *= digits.len();
            for mut k in 0..count {
                let mut text = String::from(*prefix);
                for _ in 0..length {
                    text.push(digits[k % digits.len()]);
                    k /= digits.len();
                }
                text.push(';');
                assert_eq!(unescape_with(&text, &table), scanned(&text, &names), "{:?}", text);
            }
        }
    }
}
