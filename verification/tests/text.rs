use ember::text::{
    chars_of, joined, decimal_i64, decimal_u64, eq_ignore_ascii_case, forward_slashes, join_lines,
    parse_usize, same_text, utf16_trimmed, wide,
};

#[test]
fn characters_in_order() {
    assert_eq!(chars_of("añ😀"), vec!['a', 'ñ', '😀']);
    assert!(chars_of("").is_empty());
}

#[test]
fn texts_compare_by_content() {
    assert!(same_text("screen", "screen"));
    assert!(!same_text("screen", "Screen"));
    assert!(!same_text("screen", "screens"));
}

#[test]
fn concatenation_appends() {
    assert_eq!(joined("a=", "b"), "a=b");
    assert_eq!(joined("", ""), "");
}

#[test]
fn decimals_are_written() {
    assert_eq!(decimal_u64(0), "0");
    assert_eq!(decimal_u64(u64::MAX), "18446744073709551615");
    assert_eq!(decimal_i64(60), "60");
    assert_eq!(decimal_i64(-7), "-7");
    assert_eq!(decimal_i64(i64::MIN), "-9223372036854775808");
    assert_eq!(decimal_i64(i64::MAX), "9223372036854775807");
}

#[test]
fn indices_are_read_as_the_standard_library_reads_them() {
    let max = format!("{}", usize::MAX);
    let over = format!("{max}0");
    for s in [
        "0", "1", "007", "+5", "42", "", "+", "-1", "++1", "1 ", " 1", "1a", "a", "٣", max.as_str(),
        over.as_str(), "99999999999999999999999999x",
    ] {
        assert_eq!(parse_usize(s), s.parse::<usize>().ok(), "{s:?}");
    }
}

#[test]
fn written_numbers_read_back() {
    for n in [0usize, 9, 10, 1234567890, usize::MAX] {
        assert_eq!(parse_usize(&decimal_u64(n as u64)), Some(n));
    }
}

#[test]
fn ascii_case_is_ignored_and_no_other() {
    assert!(eq_ignore_ascii_case("\\\\?\\DISPLAY#gsm5CDE", "\\\\?\\display#GSM5cde"));
    assert!(!eq_ignore_ascii_case("abc", "abd"));
    assert!(!eq_ignore_ascii_case("abc", "ab"));
    assert!(!eq_ignore_ascii_case("Ñ", "ñ"));
    assert!(!eq_ignore_ascii_case("[", "{"));
}

#[test]
fn backslashes_become_slashes() {
    assert_eq!(forward_slashes("C:\\clips\\ñ/x"), "C:/clips/ñ/x");
}

#[test]
fn lines_are_joined() {
    assert_eq!(join_lines(&vec![]), "");
    assert_eq!(join_lines(&vec!["a".to_string()]), "a");
    assert_eq!(join_lines(&vec!["a".to_string(), "".to_string(), "b".to_string()]), "a\n\nb");
}

#[test]
fn wide_texts_are_utf16_with_a_nul() {
    let s = "Ember 😀ñ";
    let mut expected: Vec<u16> = s.encode_utf16().collect();
    expected.push(0);
    assert_eq!(wide(s), expected);
    assert_eq!(wide(""), vec![0]);
}

#[test]
fn buffers_end_at_their_first_nul() {
    let mut buf = wide("\\\\.\\DISPLAY1");
    buf.extend([65, 66, 0]);
    assert_eq!(utf16_trimmed(&buf), "\\\\.\\DISPLAY1");
    assert_eq!(utf16_trimmed(&[]), "");
    assert_eq!(utf16_trimmed(&[0, 65]), "");
    assert_eq!(utf16_trimmed(&[65, 66]), "AB");
}

#[test]
fn lone_surrogates_are_replaced() {
    for units in [
        vec![0xD800u16],
        vec![0xDC00],
        vec![0xD800, 0x41],
        vec![0xDC00, 0xD800],
        vec![0xD800, 0xD83D, 0xDE00],
        vec![0xD83D, 0xDE00, 0xDE00],
        vec![0xFFFF, 0xE000, 0xD7FF],
    ] {
        assert_eq!(utf16_trimmed(&units), String::from_utf16_lossy(&units));
    }
}

#[test]
fn wide_texts_read_back() {
    for s in ["", "a", "pantalla ñ 😀 \u{10FFFF}", "\u{FFFD}"] {
        assert_eq!(utf16_trimmed(&wide(s)), s);
    }
    assert_eq!(utf16_trimmed(&wide("a\0b")), "a");
}
