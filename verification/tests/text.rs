use macos_window::text::{
    decimal_integer, decimal_natural, parse_i32, same_text, trim_atom_quotes,
};

#[test]
fn numbers_are_read_like_the_standard_library_reads_them() {
    let texts = [
        "", "+", "-", "0", "-0", "+0", "7", "007", "+12", "-12", "--1", "+-1", "1-", "1 ", " 1",
        "1_000", "0x10", "1e3", "2147483647", "2147483648", "-2147483648", "-2147483649",
        "00000000000000000000000001", "99999999999999999999999999", "12a", "\u{0664}", "\u{ff11}",
    ];
    for text in texts {
        assert_eq!(parse_i32(text), text.parse::<i32>().ok(), "{:?}", text);
    }
}

#[test]
fn written_numbers_read_back() {
    for n in [0, 1, 9, 10, 99, 100, -1, -10, 12345, i32::MAX, i32::MIN] {
        let text = decimal_integer(n as i64);
        assert_eq!(text, n.to_string());
        assert_eq!(parse_i32(&text), Some(n));
    }
    assert_eq!(decimal_integer(i64::MIN), "-9223372036854775808");
    assert_eq!(decimal_natural(u128::MAX), u128::MAX.to_string());
}

#[test]
fn quotes_are_trimmed() {
    for (text, trimmed) in [
        ("", ""),
        ("\"", ""),
        ("\"\"", ""),
        ("word", "word"),
        ("\"word\"", "word"),
        ("\"two words\"", "two words"),
        ("\"open", "open"),
        ("in\"side", "in\"side"),
        ("\"\u{e9}t\u{e9}\"", "\u{e9}t\u{e9}"),
    ] {
        assert_eq!(trim_atom_quotes(text), trimmed);
    }
}

#[test]
fn texts_are_compared() {
    assert!(same_text("", ""));
    assert!(same_text("caf\u{e9}", "caf\u{e9}"));
    assert!(!same_text("caf\u{e9}", "cafe"));
    assert!(!same_text("left", "left-half"));
    assert!(!same_text("left-half", "left"));
}
