use airtally_restapi::barcode_parser::title_case;
use airtally_restapi::numbers::{parse_i32, parse_unsigned, push_decimal, push_signed_decimal};
use airtally_restapi::text::{
    append_chars, append_str, capitalize, char_is_printable_ascii, char_is_whitespace,
    char_to_ascii_lower, char_to_ascii_upper, chars_of, contains, copy_range, find, is_ascii_text,
    join_range, leading_whitespace, matches_at, same_chars, split_in_two, split_whitespace, str_eq,
    string_of, title_case_chars, to_lower, to_upper, trailing_whitespace_start, trim,
};

fn chars(s: &str) -> Vec<char> {
    s.chars().collect()
}

fn text(v: &[char]) -> String {
    v.iter().collect()
}

#[test]
fn character_classes_agree_with_the_standard_library() {
    for code in 0u32..0x3100 {
        if let Some(c) = char::from_u32(code) {
            assert_eq!(char_is_whitespace(c), c.is_whitespace(), "{code:#x}");
            assert_eq!(char_is_printable_ascii(c), c.is_ascii() && !c.is_control(), "{code:#x}");
            assert_eq!(char_to_ascii_upper(c), c.to_ascii_uppercase(), "{code:#x}");
            assert_eq!(char_to_ascii_lower(c), c.to_ascii_lowercase(), "{code:#x}");
        }
    }
    assert!(!char_is_whitespace('\u{feff}'));
    assert!(!char_is_whitespace('\u{10ffff}'));
}

#[test]
fn strings_and_characters_convert_both_ways() {
    for s in ["", "a", "M1 héllo 日本"] {
        assert_eq!(chars_of(s), chars(s));
        assert_eq!(string_of(&chars(s)), s);
    }
    assert!(str_eq("abc", "abc"));
    assert!(!str_eq("abc", "abd"));
    assert!(!str_eq("abc", "ab"));
    assert!(str_eq("", ""));
}

#[test]
fn trimming_agrees_with_the_standard_library() {
    for s in ["", " ", "   ", "a", " a", "a ", "  a b  ", "\t\na\u{a0}b\u{3000} ", "x\u{feff} ", "\u{2003}"] {
        assert_eq!(text(&trim(&chars(s))), s.trim(), "{s:?}");
        assert_eq!(leading_whitespace(&chars(s)), s.chars().count() - s.trim_start().chars().count());
        assert_eq!(trailing_whitespace_start(&chars(s)), s.trim_end().chars().count());
    }
}

#[test]
fn splitting_agrees_with_the_standard_library() {
    for s in ["", " ", "a", " a ", "a b", "  a   bc\td\n", "EE6UVIL CGKSUBGA 0312", "a\u{a0}b", "é  ü"] {
        let ours: Vec<String> = split_whitespace(&chars(s)).iter().map(|w| text(w)).collect();
        let theirs: Vec<String> = s.split_whitespace().map(str::to_string).collect();
        assert_eq!(ours, theirs, "{s:?}");
    }
}

#[test]
fn joining() {
    let parts: Vec<Vec<char>> = ["a", "bc", "", "d"].iter().map(|s| chars(s)).collect();
    assert_eq!(text(&join_range(&parts, 0, 4, &chars(" "))), "a bc  d");
    assert_eq!(text(&join_range(&parts, 1, 3, &chars(", "))), "bc, ");
    assert_eq!(text(&join_range(&parts, 1, 2, &chars(", "))), "bc");
    assert_eq!(text(&join_range(&parts, 2, 2, &chars(", "))), "");
    assert_eq!(text(&join_range(&parts, 0, 4, &[])), "abcd");
}

#[test]
fn case_changes() {
    assert_eq!(text(&to_upper(&chars("mr Ms x1"))), "MR MS X1");
    assert_eq!(text(&to_lower(&chars("MR Ms X1"))), "mr ms x1");
    assert_eq!(text(&capitalize(&chars("jOHN"))), "John");
    assert_eq!(text(&capitalize(&chars("j"))), "J");
    assert_eq!(text(&capitalize(&chars("1ST"))), "1st");
    assert_eq!(text(&capitalize(&chars(""))), "");
    assert_eq!(text(&title_case_chars(&chars("  aBU   tALIB "))), "Abu Talib");
    assert_eq!(title_case("MARY-ANN o'NEIL"), "Mary-ann O'neil");
    assert!(is_ascii_text(&chars("M1 ~\u{7f}\u{0}")));
    assert!(!is_ascii_text(&chars("M1\u{80}")));
    assert!(is_ascii_text(&[]));
}

#[test]
fn case_changes_outside_ascii_agree_with_the_standard_library() {
    for s in ["", "a", "mſ", "\u{e9}cole", "STRASSE", "stra\u{df}e", "\u{3a3}\u{391}\u{3a3}", "\u{1c6}x", "i\u{307}"] {
        assert_eq!(text(&to_upper(&chars(s))), s.to_uppercase(), "{s:?}");
        assert_eq!(text(&to_lower(&chars(s))), s.to_lowercase(), "{s:?}");
    }
    assert_eq!(text(&to_upper(&chars("m\u{17f}"))), "MS");
    assert_eq!(text(&capitalize(&chars("\u{e9}COLE"))), "\u{c9}cole");
    assert_eq!(text(&capitalize(&chars("\u{df}A"))), "SSa");
    assert_eq!(text(&capitalize(&chars("o\u{3a3}\u{391}\u{3a3}"))), "O\u{3c3}\u{3b1}\u{3c2}");
    assert_eq!(title_case("\u{e9}lan VITAL"), "\u{c9}lan Vital");
    assert_eq!(title_case("a\u{a0}b\u{2003}\u{d6}ZIL"), "A B \u{d6}zil");
}

#[test]
fn searching() {
    assert_eq!(find(&chars("a/b/c"), '/'), 1);
    assert_eq!(find(&chars("abc"), '/'), 3);
    assert_eq!(find(&chars(""), '/'), 0);
    assert!(contains(&chars("0INF"), &chars("INF")));
    assert!(contains(&chars("INF0"), &chars("INF")));
    assert!(!contains(&chars("IN F"), &chars("INF")));
    assert!(!contains(&chars("inf"), &chars("INF")));
    assert!(!contains(&chars("IN"), &chars("INF")));
    assert!(contains(&chars("abc"), &chars("")));
    assert!(contains(&chars(""), &chars("")));
    assert!(matches_at(&chars("abcd"), &chars("bc"), 1));
    assert!(!matches_at(&chars("abcd"), &chars("bc"), 2));
    assert!(!matches_at(&chars("abcd"), &chars("cde"), 2));
    assert!(matches_at(&chars("abcd"), &chars(""), 4));
    assert!(!matches_at(&chars("abcd"), &chars(""), 5));
    assert!(same_chars(&chars("ab"), &chars("ab")));
    assert!(!same_chars(&chars("ab"), &chars("abc")));
}

#[test]
fn copying_and_appending() {
    assert_eq!(text(&copy_range(&chars("abcdef"), 2, 5)), "cde");
    assert_eq!(text(&copy_range(&chars("abcdef"), 3, 3)), "");
    let mut out = chars("ab");
    append_chars(&mut out, &chars("cd"));
    append_str(&mut out, "éf");
    assert_eq!(text(&out), "abcdéf");
}

#[test]
fn splitting_in_two() {
    assert_eq!(split_in_two("a/b", '/'), Some(("a".to_string(), "b".to_string())));
    assert_eq!(split_in_two("192.168.1.0/24", '/'), Some(("192.168.1.0".to_string(), "24".to_string())));
    assert_eq!(split_in_two("/", '/'), Some((String::new(), String::new())));
    assert_eq!(split_in_two("ab", '/'), None);
    assert_eq!(split_in_two("a/b/c", '/'), None);
    assert_eq!(split_in_two("", '/'), None);
}

#[test]
fn decimal_notation() {
    for n in [0u64, 1, 9, 10, 11, 99, 100, 12345, 65535, u64::MAX] {
        let mut out = chars("n=");
        push_decimal(&mut out, n);
        assert_eq!(text(&out), format!("n={n}"));
    }
    for n in [0i64, 1, -1, 10, -10, 2147483647, -2147483648, i64::MAX, i64::MIN] {
        let mut out = Vec::new();
        push_signed_decimal(&mut out, n);
        assert_eq!(text(&out), n.to_string());
    }
}

#[test]
fn reading_numbers_agrees_with_the_standard_library() {
    let inputs = [
        "", "0", "00", "1", "+1", "-1", "+", "-", "++1", "255", "256", "65535", "65536", "4294967295",
        "4294967296", "18446744073709551615", "18446744073709551616", "99999999999999999999999",
        "1a", "a1", " 1", "1 ", "1_000", "１",
    ];
    for s in inputs {
        let c = chars(s);
        assert_eq!(parse_unsigned(&c, 255), s.parse::<u8>().ok().map(u64::from), "{s:?} as u8");
        assert_eq!(parse_unsigned(&c, 65535), s.parse::<u16>().ok().map(u64::from), "{s:?} as u16");
        assert_eq!(parse_unsigned(&c, u32::MAX as u64), s.parse::<u32>().ok().map(u64::from), "{s:?} as u32");
        assert_eq!(parse_unsigned(&c, u64::MAX), s.parse::<u64>().ok(), "{s:?} as u64");
        assert_eq!(parse_i32(&c), s.parse::<i32>().ok(), "{s:?} as i32");
    }
    assert_eq!(parse_unsigned(&chars("5"), 4), None);
    assert_eq!(parse_unsigned(&chars("4"), 4), Some(4));
    assert_eq!(parse_unsigned(&chars("0"), 0), Some(0));
}
