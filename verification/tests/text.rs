use dbmazz::text::{
    chars_of, decimal_text, join_texts, parse_bounded, parse_i64, replace_text, split_text,
    string_of, text_contains, text_eq, trim_end_char, trim_start_text, trim_text,
};

#[test]
fn chars_and_back() {
    let v = chars_of("añb");
    assert_eq!(v, vec!['a', 'ñ', 'b']);
    assert_eq!(string_of(&v), "añb");
    assert_ne!(string_of(&v), "");
}

#[test]
fn split_keeps_empty_pieces() {
    let pieces = split_text("a,,b,", ',');
    assert_eq!(pieces, vec!["a", "", "b", ""]);
    assert_eq!(split_text("", ','), vec![""]);
    assert_eq!(split_text("abc", ','), vec!["abc"]);
}

#[test]
fn replace_scans_from_the_left() {
    assert_eq!(replace_text("aaa", "aa", "b"), "ba");
    assert_eq!(replace_text("http://x/http://", "http://", ""), "x/");
    assert_eq!(replace_text("abc", "", "z"), "abc");
    assert_eq!(replace_text("abc", "x", "z"), "abc");
}

#[test]
fn trimming() {
    assert_eq!(trim_end_char("http://h:1///", '/'), "http://h:1");
    assert_eq!(trim_end_char("///", '/'), "");
    assert_eq!(trim_start_text("http://http://h", "http://"), "h");
    assert_eq!(trim_start_text("https://h", "http://"), "https://h");
    assert_eq!(trim_text("  \t orders \n"), "orders");
    assert_eq!(trim_text("\u{3000}x\u{a0}"), "x");
    assert_eq!(trim_text("   "), "");
}

#[test]
fn containment_and_equality() {
    assert!(text_contains("Duplicate column name 'x'", "Duplicate column"));
    assert!(!text_contains("duplicate column", "Duplicate column"));
    assert!(text_contains("abc", ""));
    assert!(!text_contains("ab", "abc"));
    assert!(text_eq("Success", "Success"));
    assert!(!text_eq("Success", "success"));
}

#[test]
fn joining() {
    let v = vec!["a".to_string(), "b".to_string(), "c".to_string()];
    assert_eq!(join_texts(&v, ", "), "a, b, c");
    assert_eq!(join_texts(&vec!["a".to_string()], ","), "a");
    assert_eq!(join_texts(&Vec::new(), ","), "");
}

#[test]
fn decimal_numerals() {
    assert_eq!(decimal_text(0), "0");
    assert_eq!(decimal_text(9030), "9030");
    assert_eq!(decimal_text(u64::MAX), "18446744073709551615");
}

#[test]
fn parsing_unsigned_numbers() {
    assert_eq!(parse_bounded("9030", 65535), Some(9030));
    assert_eq!(parse_bounded("+7", 65535), Some(7));
    assert_eq!(parse_bounded("007", 65535), Some(7));
    assert_eq!(parse_bounded("65536", 65535), None);
    assert_eq!(parse_bounded("", 65535), None);
    assert_eq!(parse_bounded("+", 65535), None);
    assert_eq!(parse_bounded("-1", 65535), None);
    assert_eq!(parse_bounded(" 1", 65535), None);
    assert_eq!(parse_bounded("12a", 65535), None);
    assert_eq!(parse_bounded("18446744073709551615", u64::MAX), Some(u64::MAX));
    assert_eq!(parse_bounded("18446744073709551616", u64::MAX), None);
    assert_eq!(parse_bounded("99999999999999999999999999", u64::MAX), None);
}

#[test]
fn parsing_signed_numbers() {
    assert_eq!(parse_i64("42"), Some(42));
    assert_eq!(parse_i64("-42"), Some(-42));
    assert_eq!(parse_i64("+42"), Some(42));
    assert_eq!(parse_i64("-0"), Some(0));
    assert_eq!(parse_i64("9223372036854775807"), Some(i64::MAX));
    assert_eq!(parse_i64("9223372036854775808"), None);
    assert_eq!(parse_i64("-9223372036854775808"), Some(i64::MIN));
    assert_eq!(parse_i64("-9223372036854775809"), None);
    assert_eq!(parse_i64("-"), None);
    assert_eq!(parse_i64("--1"), None);
    assert_eq!(parse_i64("-+1"), None);
    assert_eq!(parse_i64("3.14"), None);
    assert_eq!(parse_i64(""), None);
}

#[test]
fn float_literals_are_those_that_the_standard_library_reads() {
    let samples = [
        "0", "1", "-1", "+1", "1.5", "1.", ".5", ".", "", "+", "-", "+.", "-.5", "1e5", "1E5",
        "1e+5", "1e-5", "1e", "1e+", "e5", ".e5", "1.e5", ".5e5", "1.5e5.5", "1e5e5", "inf", "INF",
        "+inf", "-Infinity", "infinity", "infinit", "infinityy", "nan", "NaN", "-nan", "+NAN",
        "nanx", " 1", "1 ", "1_000", "0x10", "1,5", "١", "1f", "--1", "+-1", "1..2", "00012.3400",
        "123456789012345678901234567890", "1e999999", "0.0000000000000000000000000001", "i", "in",
        "na", "1e5 ", "−1", "1.5E-3", "+1.5e+3", "e", "E", "+e1", "1ee1", "1.-5", "1e.5",
    ];
    for s in samples {
        let expected = s.parse::<f64>().is_ok();
        assert_eq!(dbmazz::text::reads_as_float(s), expected, "{:?}", s);
    }
}

fn samples() -> Vec<String> {
    let alphabet = ['a', '/', ':', '.', ' ', ',', 'ñ', '\t'];
    let mut out = vec![String::new()];
    let mut frontier = vec![String::new()];
    for _ in 0..4 {
        let mut next = Vec::new();
        for s in &frontier {
            for c in alphabet {
                let mut t = s.clone();
                t.push(c);
                next.push(t);
            }
        }
        out.extend(next.iter().cloned());
        frontier = next;
    }
    out
}

#[test]
fn splitting_agrees_with_the_standard_library() {
    for s in samples() {
        for c in ['/', ':', '.', ','] {
            let expected: Vec<String> = s.split(c).map(|p| p.to_string()).collect();
            assert_eq!(split_text(&s, c), expected, "{:?} at {:?}", s, c);
        }
    }
}

#[test]
fn replacing_agrees_with_the_standard_library() {
    for s in samples() {
        for (from, to) in [("a", "bb"), ("a/", ""), ("//", "/"), ("aa", "a"), (" ", ""), ("ñ", "n")] {
            assert_eq!(replace_text(&s, from, to), s.replace(from, to), "{:?} {:?}", s, from);
        }
        assert_eq!(text_contains(&s, "a/"), s.contains("a/"));
        assert_eq!(text_contains(&s, "ña"), s.contains("ña"));
    }
}

#[test]
fn trimming_agrees_with_the_standard_library() {
    for s in samples() {
        assert_eq!(trim_text(&s), s.trim(), "{:?}", s);
        assert_eq!(trim_end_char(&s, '/'), s.trim_end_matches('/'), "{:?}", s);
        assert_eq!(trim_start_text(&s, "a/"), s.trim_start_matches("a/"), "{:?}", s);
        assert_eq!(trim_start_text(&s, "a"), s.trim_start_matches("a"), "{:?}", s);
    }
    for c in (0u32..0x3100).filter_map(char::from_u32) {
        let s = format!("{}x{}", c, c);
        assert_eq!(trim_text(&s) == "x", c.is_whitespace(), "U+{:04X}", c as u32);
    }
}

#[test]
fn numbers_agree_with_the_standard_library() {
    let texts = [
        "0", "1", "65535", "65536", "+1", "-1", "", "+", "00", "0x1", "1 ", "٣", "99999",
        "18446744073709551615", "18446744073709551616", "9223372036854775807",
        "-9223372036854775808", "-9223372036854775809", "+-1", "1+", "--", "-0", "+0",
    ];
    for t in texts {
        assert_eq!(parse_bounded(t, 65535), t.parse::<u16>().ok().map(u64::from), "{:?}", t);
        assert_eq!(parse_bounded(t, u64::MAX), t.parse::<u64>().ok(), "{:?}", t);
        assert_eq!(parse_i64(t), t.parse::<i64>().ok(), "{:?}", t);
    }
    for n in [0u64, 9, 10, 99, 100, 12345, u64::MAX] {
        assert_eq!(decimal_text(n), n.to_string());
    }
}
