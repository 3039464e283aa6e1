use rust_adb::text::i32_to_string;
use rust_adb::text::parse_i32;
use rust_adb::text::parse_u32;
use rust_adb::text::parse_u64;
use rust_adb::text::split_fields;
use rust_adb::text::split_lines;
use rust_adb::text::split_on_char;
use rust_adb::text::split_on_str;
use rust_adb::text::str_contains;
use rust_adb::text::str_eq;
use rust_adb::text::str_starts_with;
use rust_adb::text::strip_prefix_str;
use rust_adb::text::trim_end_matches_char;
use rust_adb::text::trim_str;
use rust_adb::text::u64_to_string;

#[test]
fn split_lines_basic() {
    assert_eq!(split_lines("a\nb\nc"), vec!["a", "b", "c"]);
}

#[test]
fn split_lines_trailing_newline_drops_empty_tail() {
    assert_eq!(split_lines("a\nb\n"), vec!["a", "b"]);
}

#[test]
fn split_lines_carriage_returns() {
    assert_eq!(split_lines("a\r\nb\r"), vec!["a", "b\r"]);
}

#[test]
fn split_lines_empty_and_blank() {
    assert_eq!(split_lines(""), Vec::<String>::new());
    assert_eq!(split_lines("\n"), vec![""]);
    assert_eq!(split_lines("a\n\nb"), vec!["a", "", "b"]);
}

#[test]
fn split_fields_collapses_whitespace() {
    assert_eq!(split_fields("  one\t two  three "), vec!["one", "two", "three"]);
    assert_eq!(split_fields("   "), Vec::<String>::new());
}

#[test]
fn split_on_char_keeps_empty_pieces() {
    assert_eq!(split_on_char("a:b::c", ':'), vec!["a", "b", "", "c"]);
    assert_eq!(split_on_char("", ':'), vec![""]);
}

#[test]
fn split_on_str_multi_char_separator() {
    assert_eq!(split_on_str("[key]: [value]", "]: ["), vec!["[key", "value]"]);
    assert_eq!(split_on_str("no separator here", "]: ["), vec!["no separator here"]);
}

#[test]
fn trim_behavior() {
    assert_eq!(trim_str("  x y\t"), "x y");
    assert_eq!(trim_str("   "), "");
    assert_eq!(trim_end_matches_char("value]]]", ']'), "value");
    assert_eq!(trim_end_matches_char("]]]", ']'), "");
}

#[test]
fn prefix_and_contains() {
    assert!(str_starts_with("package:/data/app", "package:"));
    assert!(!str_starts_with("pack", "package:"));
    assert!(str_contains("restarting in TCP mode", "TCP"));
    assert!(!str_contains("abc", "abd"));
    assert!(str_contains("anything", ""));
    assert!(str_eq("same", "same"));
    assert!(!str_eq("same", "samey"));
    assert_eq!(strip_prefix_str("package:com.app", "package:").as_deref(), Some("com.app"));
    assert_eq!(strip_prefix_str("com.app", "package:"), None);
}

#[test]
fn parse_unsigned_numbers() {
    assert_eq!(parse_u64("12345"), Some(12345));
    assert_eq!(parse_u64("+7"), Some(7));
    assert_eq!(parse_u64(""), None);
    assert_eq!(parse_u64("+"), None);
    assert_eq!(parse_u64("12a"), None);
    assert_eq!(parse_u64("18446744073709551615"), Some(u64::MAX));
    assert_eq!(parse_u64("18446744073709551616"), None);
    assert_eq!(parse_u32("4294967295"), Some(u32::MAX));
    assert_eq!(parse_u32("4294967296"), None);
    assert_eq!(parse_u32("-1"), None);
}

#[test]
fn parse_signed_numbers() {
    assert_eq!(parse_i32("42"), Some(42));
    assert_eq!(parse_i32("-42"), Some(-42));
    assert_eq!(parse_i32("+42"), Some(42));
    assert_eq!(parse_i32("2147483647"), Some(i32::MAX));
    assert_eq!(parse_i32("2147483648"), None);
    assert_eq!(parse_i32("-2147483648"), Some(i32::MIN));
    assert_eq!(parse_i32("-2147483649"), None);
    assert_eq!(parse_i32("-"), None);
    assert_eq!(parse_i32("4 2"), None);
}

#[test]
fn render_numbers() {
    assert_eq!(u64_to_string(0), "0");
    assert_eq!(u64_to_string(907), "907");
    assert_eq!(u64_to_string(u64::MAX), "18446744073709551615");
    assert_eq!(i32_to_string(-35), "-35");
    assert_eq!(i32_to_string(0), "0");
    assert_eq!(i32_to_string(i32::MIN), "-2147483648");
}

#[test]
fn render_then_parse_round_trip() {
    for n in [0u64, 7, 10, 999, 123456789, u64::MAX] {
        assert_eq!(parse_u64(&u64_to_string(n)), Some(n));
    }
    for n in [0i32, 1, -1, 42, -42, i32::MAX, i32::MIN] {
        assert_eq!(parse_i32(&i32_to_string(n)), Some(n));
    }
}

#[test]
fn trim_is_idempotent() {
    for s in ["  a b  ", "", "   ", "x", "\t mixed \r\n"] {
        let once = trim_str(s);
        assert_eq!(trim_str(&once), once);
    }
}
