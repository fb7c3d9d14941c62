use cr_unescape::{unescape, EscapeCharacters};

#[test]
fn test_unescaped() {
    let input = "A character entity reference refers to the content of a named entity.";
    let result = "A character entity reference refers to the content of a named entity.";
    assert_eq!(unescape(&input).unwrap(), result);
    assert_eq!(input.unescape().unwrap(), result);
}

#[test]
fn test_named() {
    let input = "\
        To use one of these character entity references in an HTML or XML document, enter an \
        ampersand followed by the entity name and a semicolon, e.g., enter &copy; for the \
        copyright symbol (©).";
    let result = "\
        To use one of these character entity references in an HTML or XML document, enter an \
        ampersand followed by the entity name and a semicolon, e.g., enter © for the copyright \
        symbol (©).";
    assert_eq!(unescape(&input).unwrap(), result);
    assert_eq!(input.unescape().unwrap(), result);
}

#[test]
fn test_decimal() {
    let input = "For example, to display the copyright symbol ©, enter &#0169;";
    let result = "For example, to display the copyright symbol ©, enter ©";
    assert_eq!(unescape(&input).unwrap(), result);
    assert_eq!(input.unescape().unwrap(), result);
}

#[test]
fn test_hex() {
    let input = "For example, to display the copyright symbol © enter &#x00A9; or &#xA9;.";
    let result = "For example, to display the copyright symbol © enter © or ©.";
    assert_eq!(unescape(&input).unwrap(), result);
    assert_eq!(input.unescape().unwrap(), result);
}

#[test]
fn test_invalid_char_ref() {
    assert_eq!(
        unescape("&invalidreference;").unwrap(),
        "&invalidreference;"
    );
    assert_eq!(
        "&invalidreference;".unescape().unwrap(),
        "&invalidreference;"
    );
}

#[test]
fn test_invalid_utf8_out_of_range() {
    assert_eq!(unescape("&#x110000;").unwrap(), "&#x110000;");
    assert_eq!("&#x110000;".unescape().unwrap(), "&#x110000;");
}

#[test]
fn test_invalid_broken_ref() {
    assert_eq!(unescape("&#x192; &#x192").unwrap(), "ƒ &#x192");
    assert_eq!("&#x192; &#x192".unescape().unwrap(), "ƒ &#x192");
}

#[test]
fn empty_text_decodes_to_empty_text() {
    assert_eq!(unescape("").unwrap(), "");
    assert_eq!("".unescape().unwrap(), "");
}

#[test]
fn mixed_references_decode() {
    assert_eq!(unescape("&reg; &#177; &#x192;").unwrap(), "® ± ƒ");
}

#[test]
fn unknown_name_is_kept() {
    assert_eq!(unescape("&invalidreference;").unwrap(), "&invalidreference;");
    assert_eq!(unescape("a &nosuchname; b").unwrap(), "a &nosuchname; b");
}

#[test]
fn adjacent_ampersands_restart_the_candidate() {
    assert_eq!(unescape("&&copy;").unwrap(), "&©");
    assert_eq!(unescape("&&").unwrap(), "&&");
    assert_eq!(unescape("&&&").unwrap(), "&&&");
    assert_eq!(unescape("&&&amp;&&").unwrap(), "&&&&&");
}

#[test]
fn an_ampersand_ends_every_kind_of_candidate() {
    assert_eq!(unescape("&am&amp;").unwrap(), "&am&");
    assert_eq!(unescape("&#&#65;").unwrap(), "&#A");
    assert_eq!(unescape("&#12&#65;").unwrap(), "&#12A");
    assert_eq!(unescape("&#x&#x41;").unwrap(), "&#xA");
    assert_eq!(unescape("&#x4&lt;").unwrap(), "&#x4<");
    assert_eq!(unescape("&copy&copy;&copy").unwrap(), "&copy©&copy");
}

#[test]
fn text_without_an_ampersand_is_kept() {
    let texts = [
        "",
        ";",
        "#x41;",
        "copy; #169; #xA9;",
        "caf\u{e9} \u{1F600} \u{4e2d}\u{6587}",
        "line\nbreak\ttab\0nul",
        ";;;###xxx",
    ];
    for text in texts.iter() {
        assert_eq!(unescape(text).unwrap(), *text);
    }
}

#[test]
fn text_around_references_is_kept() {
    assert_eq!(
        unescape("caf\u{e9} \u{1F600} &eacute;&#x1F600;\u{4e2d}").unwrap(),
        "caf\u{e9} \u{1F600} \u{e9}\u{1F600}\u{4e2d}"
    );
    assert_eq!(unescape("&lt;&gt;").unwrap(), "<>");
    assert_eq!(unescape("x&lt;y&gt;z").unwrap(), "x<y>z");
}

#[test]
fn broken_references_are_kept() {
    assert_eq!(unescape("&r; &#; &#x19").unwrap(), "&r; &#; &#x19");
}

#[test]
fn a_name_of_one_letter_is_kept() {
    assert_eq!(unescape("&r;").unwrap(), "&r;");
    assert_eq!(unescape("&a;&lt;").unwrap(), "&a;<");
}

#[test]
fn a_numeral_without_digits_is_kept() {
    assert_eq!(unescape("&#;").unwrap(), "&#;");
    assert_eq!(unescape("&#x;").unwrap(), "&#x;");
    assert_eq!(unescape("&#X;").unwrap(), "&#X;");
    assert_eq!(unescape("&#x;&#;&#65;").unwrap(), "&#x;&#;A");
}

#[test]
fn a_reference_without_its_semicolon_is_kept() {
    assert_eq!(unescape("&").unwrap(), "&");
    assert_eq!(unescape("text &").unwrap(), "text &");
    assert_eq!(unescape("&amp").unwrap(), "&amp");
    assert_eq!(unescape("&#").unwrap(), "&#");
    assert_eq!(unescape("&#1").unwrap(), "&#1");
    assert_eq!(unescape("&#169").unwrap(), "&#169");
    assert_eq!(unescape("&#x").unwrap(), "&#x");
    assert_eq!(unescape("&#xA9").unwrap(), "&#xA9");
    assert_eq!(unescape("&amp &amp;").unwrap(), "&amp &");
    assert_eq!(unescape("&copy.&reg;").unwrap(), "&copy.\u{ae}");
    assert_eq!(unescape("&#169 &#xA9 ").unwrap(), "&#169 &#xA9 ");
}

#[test]
fn a_character_that_is_no_digit_ends_the_numeral() {
    assert_eq!(unescape("&#12a;").unwrap(), "&#12a;");
    assert_eq!(unescape("&#xg;").unwrap(), "&#xg;");
    assert_eq!(unescape("&#x4g;").unwrap(), "&#x4g;");
    assert_eq!(unescape("&#a9;").unwrap(), "&#a9;");
    assert_eq!(unescape("&#1x41;").unwrap(), "&#1x41;");
    assert_eq!(unescape("&#+65;").unwrap(), "&#+65;");
    assert_eq!(unescape("&#-65;").unwrap(), "&#-65;");
    assert_eq!(unescape("&#x+41;").unwrap(), "&#x+41;");
    assert_eq!(unescape("&#\u{664};").unwrap(), "&#\u{664};");
}

#[test]
fn an_ampersand_that_opens_nothing_is_kept_with_what_follows() {
    assert_eq!(unescape("a & b").unwrap(), "a & b");
    assert_eq!(unescape("&;").unwrap(), "&;");
    assert_eq!(unescape("&1").unwrap(), "&1");
    assert_eq!(unescape("&\u{e9}t\u{e9};").unwrap(), "&\u{e9}t\u{e9};");
    assert_eq!(unescape("& &amp;").unwrap(), "& &");
    assert_eq!(unescape("&;&;").unwrap(), "&;&;");
    assert_eq!(unescape("&\u{1F600}&copy;").unwrap(), "&\u{1F600}\u{a9}");
}

#[test]
fn a_text_without_a_reference_comes_back_as_it_was() {
    let texts = [
        "&",
        "&;",
        "&#;",
        "&#x;",
        "&#X;",
        "a & b && c &&& d",
        "R&D; AT&T; Q&A",
        "&r; &x; &1; &1a; &_;",
        "&nosuchname; &Copy; &COPY;",
        "&amp &lt &gt",
        "&amp\u{e9} &#169\u{e9} &#xA9\u{1F600} &#\u{e9} &#x\u{e9} &\u{e9}",
        "&#12a; &#xfg; &#-1; &# 1; &#x 1;",
        "&#xD800; &#xDFFF; &#55296; &#x110000; &#1114112; &#4294967296;",
        "&copy",
        "&#169",
        "&#xA9",
        "x = a&b;",
        "?a=1&b=2&c=3",
    ];
    for text in texts.iter() {
        assert_eq!(unescape(text).unwrap(), *text);
        assert_eq!(text.unescape().unwrap(), *text);
    }
}

#[test]
fn both_marks_of_a_hexadecimal_numeral_are_read() {
    assert_eq!(unescape("&#xa9;&#xA9;&#Xa9;&#XA9;").unwrap(), "\u{a9}\u{a9}\u{a9}\u{a9}");
    assert_eq!(unescape("&#xabcde;&#xfABCD;").unwrap(), "\u{abcde}\u{fabcd}");
    assert_eq!(unescape("&#xAbCd;&#XaBcD;").unwrap(), "\u{abcd}\u{abcd}");
    assert_eq!(unescape("&#x10ffff;").unwrap(), "\u{10ffff}");
}

#[test]
fn numerals_at_the_edges_of_the_scalar_values() {
    assert_eq!(unescape("&#0;").unwrap(), "\0");
    assert_eq!(unescape("&#x0;").unwrap(), "\0");
    assert_eq!(unescape("&#xD7FF;").unwrap(), "\u{d7ff}");
    assert_eq!(unescape("&#55295;").unwrap(), "\u{d7ff}");
    assert_eq!(unescape("&#xE000;").unwrap(), "\u{e000}");
    assert_eq!(unescape("&#57344;").unwrap(), "\u{e000}");
    assert_eq!(unescape("&#x10FFFF;").unwrap(), "\u{10ffff}");
    assert_eq!(unescape("&#1114111;").unwrap(), "\u{10ffff}");
}

#[test]
fn surrogates_are_kept_as_written() {
    assert_eq!(unescape("&#xD800;").unwrap(), "&#xD800;");
    assert_eq!(unescape("&#xDBFF;").unwrap(), "&#xDBFF;");
    assert_eq!(unescape("&#xDFFF;").unwrap(), "&#xDFFF;");
    assert_eq!(unescape("&#55296;").unwrap(), "&#55296;");
    assert_eq!(unescape("&#57343;").unwrap(), "&#57343;");
}

#[test]
fn numerals_beyond_the_last_code_are_kept_as_written() {
    assert_eq!(unescape("&#x110000;").unwrap(), "&#x110000;");
    assert_eq!(unescape("&#1114112;").unwrap(), "&#1114112;");
    assert_eq!(unescape("&#4294967295;").unwrap(), "&#4294967295;");
    assert_eq!(unescape("&#4294967296;").unwrap(), "&#4294967296;");
    assert_eq!(unescape("&#4294967361;").unwrap(), "&#4294967361;");
    assert_eq!(unescape("&#x100000041;").unwrap(), "&#x100000041;");
    assert_eq!(
        unescape("&#xFFFFFFFFFFFFFFFFFFFFFFFFFFFFFFFFFFFF;").unwrap(),
        "&#xFFFFFFFFFFFFFFFFFFFFFFFFFFFFFFFFFFFF;"
    );
    assert_eq!(
        unescape("&#99999999999999999999999999999999999999;").unwrap(),
        "&#99999999999999999999999999999999999999;"
    );
}

#[test]
fn leading_zeros_do_not_change_the_value() {
    assert_eq!(unescape("&#0169;").unwrap(), "\u{a9}");
    assert_eq!(unescape("&#00000000000000000000000000000065;").unwrap(), "A");
    assert_eq!(unescape("&#x00000000000000000000000000000041;").unwrap(), "A");
    assert_eq!(unescape("&#x00A9;").unwrap(), "\u{a9}");
}

#[test]
fn decimal_and_hexadecimal_numerals_agree() {
    let mut codes: Vec<u32> = vec![0, 1, 9, 10, 15, 16, 38, 59, 255, 256, 0xD7FF, 0xE000, 0xFFFF, 0x10000, 0x10FFFF];
    let mut code: u32 = 0;
    while code <= 0x10FFFF {
        codes.push(code);
        code += 997;
    }
    for code in codes {
        match char::from_u32(code) {
            Some(character) => {
                let expected = character.to_string();
                assert_eq!(unescape(&format!("&#{};", code)).unwrap(), expected);
                assert_eq!(unescape(&format!("&#x{:x};", code)).unwrap(), expected);
                assert_eq!(unescape(&format!("&#x{:X};", code)).unwrap(), expected);
                assert_eq!(unescape(&format!("&#X{:x};", code)).unwrap(), expected);
            }
            None => {
                let decimal = format!("&#{};", code);
                let hex = format!("&#x{:x};", code);
                assert_eq!(unescape(&decimal).unwrap(), decimal);
                assert_eq!(unescape(&hex).unwrap(), hex);
            }
        }
    }
}

#[test]
fn a_decoded_ampersand_opens_no_candidate() {
    assert_eq!(unescape("&amp;lt;").unwrap(), "&lt;");
    assert_eq!(unescape("&#38;#38;").unwrap(), "&#38;");
    assert_eq!(unescape("&amp;amp;amp;").unwrap(), "&amp;amp;");
}

#[test]
fn the_method_and_the_function_agree() {
    let texts = ["", "&", "&copy;", "&#x41;&#66;", "a &b; &&amp c", "&#xD800;"];
    for text in texts.iter() {
        assert_eq!(text.unescape(), unescape(text));
    }
}

#[test]
fn the_result_is_never_none() {
    let texts = ["", "&", "&;", "&#;", "&#x;", "&#xFFFFFFFFFF;", "&nothing;", "\u{10ffff}"];
    for text in texts.iter() {
        assert!(unescape(text).is_some());
    }
}

#[test]
fn a_long_text_decodes_in_one_pass() {
    let mut text = String::new();
    let mut expected = String::new();
    for k in 0..20000u32 {
        text.push_str("&lt;p&gt;&#");
        text.push_str(&(65 + k % 26).to_string());
        text.push_str("; &amp &");
        expected.push_str("<p>");
        expected.push(char::from_u32(65 + k % 26).unwrap());
        expected.push_str(" &amp &");
    }
    assert_eq!(unescape(&text).unwrap(), expected);
}
