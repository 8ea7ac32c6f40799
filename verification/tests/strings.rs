use kiro::strings::{
    chars_of, decimal_text, is_all_digits, parse_digits, split_fields, trim_line_end,
};

#[test]
fn fields_join_to_the_string() {
    for s in ["", "\t", "a\tb", "\ta\t\t\u{e9}\t", "plain"] {
        let fields = split_fields(s, '\t');
        assert_eq!(fields.join("\t"), s);
        assert!(fields.iter().all(|f| !f.contains('\t')));
    }
    assert_eq!(split_fields("a\t\tb", '\t'), vec!["a", "", "b"]);
}

#[test]
fn line_ends_are_trimmed() {
    assert_eq!(trim_line_end("a\r\nb\n\r\n"), "a\r\nb");
    assert_eq!(trim_line_end("\u{e9} \n"), "\u{e9} ");
    assert_eq!(trim_line_end("\n"), "");
}

#[test]
fn characters_are_listed() {
    assert_eq!(chars_of("a\u{e9}\u{1f600}"), vec!['a', '\u{e9}', '\u{1f600}']);
}

#[test]
fn digits_are_recognized() {
    assert!(is_all_digits("0123456789"));
    assert!(is_all_digits(""));
    assert!(!is_all_digits("12a"));
    assert!(!is_all_digits("a12"));
    assert!(!is_all_digits("+1"));
}

#[test]
fn digits_are_read() {
    assert_eq!(parse_digits("0042"), Some(42));
    assert_eq!(parse_digits("9223372036854775807"), Some(i64::MAX));
    assert_eq!(parse_digits("9223372036854775808"), None);
    assert_eq!(parse_digits("99999999999999999999999"), None);
}

#[test]
fn decimal_numbers_read_back() {
    for n in [0u16, 9, 10, 99, 100, 8990, 65535] {
        assert_eq!(decimal_text(n), n.to_string());
        assert_eq!(parse_digits(&decimal_text(n)), Some(n as i64));
    }
}
