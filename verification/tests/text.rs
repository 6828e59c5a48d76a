use wta::json::{Json, JsonNumber};
use wta::text::{
    contains, eq_ignore_ascii_case, is_blank, is_whitespace, len_utf8, lines, number_text,
    parse_i32, shorten, signed_number_text, starts_with, strip_prefix, strip_suffix,
    to_ascii_lowercase, trim, words,
};
use wta::ui_trace::{log_slow, ui_trace_enabled, SLOW_NANOS};
use wta::win32::{shell_execute_result, wide_text};

#[test]
fn whitespace_is_that_of_unicode() {
    for code in 0..=0x10ffffu32 {
        if let Some(c) = char::from_u32(code) {
            assert_eq!(is_whitespace(c), c.is_whitespace(), "{:x}", code);
            assert_eq!(len_utf8(c), c.len_utf8());
        }
    }
}

#[test]
fn texts_are_trimmed_and_searched() {
    for s in ["", " a b ", "\u{3000}x\n", "\t\r\n ", "é "] {
        assert_eq!(trim(s), s.trim());
        assert_eq!(is_blank(s), s.trim().is_empty());
        assert_eq!(words(s), s.split_whitespace().map(|w| w.to_string()).collect::<Vec<_>>());
    }
    for (s, pattern) in [("banana", "nan"), ("banana", "nab"), ("", ""), ("aab", "ab"), ("é", "é")] {
        assert_eq!(contains(s, pattern), s.contains(pattern));
        assert_eq!(starts_with(s, pattern), s.starts_with(pattern));
        assert_eq!(strip_prefix(s, pattern), s.strip_prefix(pattern));
        assert_eq!(strip_suffix(s, pattern), s.strip_suffix(pattern));
    }
    assert_eq!(to_ascii_lowercase("AbÉ"), "abÉ");
    assert!(eq_ignore_ascii_case("AbC", "aBc"));
    assert!(!eq_ignore_ascii_case("É", "é"));
    assert_eq!(shorten("abcd", 2, "…"), "ab…");
    assert_eq!(shorten("ab", 2, "…"), "ab");
}

#[test]
fn lines_are_those_of_the_text() {
    for s in ["", "a", "a\n", "a\nb", "a\r\nb\r\n", "\n\n", "a\r", "a\r\r\nb"] {
        assert_eq!(lines(s), s.lines().map(|l| l.to_string()).collect::<Vec<_>>(), "{:?}", s);
    }
}

#[test]
fn numbers_are_written_and_read() {
    for n in [0u64, 7, 10, 1234567890, u64::MAX] {
        assert_eq!(number_text(n), n.to_string());
    }
    for n in [0i64, -1, 42, i64::MIN, i64::MAX] {
        assert_eq!(signed_number_text(n), n.to_string());
    }
    for s in [
        "", "+", "-", "0", "-0", "+5", "007", "2147483647", "2147483648", "-2147483648",
        "-2147483649", "99999999999999999999", "1a", " 1", "--1", "\u{661}",
    ] {
        assert_eq!(parse_i32(s), s.parse::<i32>().ok(), "{:?}", s);
    }
}

#[test]
fn values_are_looked_into() {
    let value = Json::Object(vec![
        ("s".to_string(), Json::Text("x".to_string())),
        ("n".to_string(), Json::Number(JsonNumber::Unsigned(u64::MAX))),
        ("m".to_string(), Json::Number(JsonNumber::Negative(-3))),
        ("b".to_string(), Json::Bool(true)),
        ("l".to_string(), Json::Array(vec![Json::Null])),
    ]);
    assert_eq!(value.str_at("s"), Some("x"));
    assert_eq!(value.str_at("n"), None);
    assert_eq!(value.u64_at("n"), Some(u64::MAX));
    assert_eq!(value.i64_at("n"), None);
    assert_eq!(value.i64_at("m"), Some(-3));
    assert_eq!(value.u64_at("m"), None);
    assert_eq!(value.bool_at("b"), Some(true));
    assert_eq!(value.array_at("l").map(|l| l.len()), Some(1));
    assert!(value.get("z").is_none());
    assert!(Json::Null.get("s").is_none());
    assert_eq!(JsonNumber::Decimal("1.5".to_string()).text(), "1.5");
}

#[test]
fn the_interface_is_traced_where_it_is_asked_for() {
    assert!(ui_trace_enabled(Some("1"), false, None));
    assert!(!ui_trace_enabled(Some("0"), true, Some("1")));
    assert!(ui_trace_enabled(None, true, None));
    assert!(ui_trace_enabled(None, false, Some("1")));
    assert!(!ui_trace_enabled(Some("yes"), false, Some("0")));
    assert_eq!(log_slow("draw", SLOW_NANOS - 1, "16", || "x".to_string()), None);
    assert_eq!(
        log_slow("draw", SLOW_NANOS, "16", || "x".to_string()),
        Some("slow draw 16ms x".to_string())
    );
}

#[test]
fn windows_gets_its_texts_in_utf16() {
    for s in ["", "ab", "é你", "a😀b"] {
        let mut wanted: Vec<u16> = s.encode_utf16().collect();
        wanted.push(0);
        assert_eq!(wide_text(s), wanted);
        assert_eq!(String::from_utf16(&wide_text(s)[..wanted.len() - 1]).unwrap(), s);
    }
    assert_eq!(shell_execute_result(33), Ok(()));
    assert_eq!(shell_execute_result(32), Err("ShellExecuteW failed with code 32".to_string()));
    assert_eq!(shell_execute_result(-1), Err("ShellExecuteW failed with code -1".to_string()));
}
