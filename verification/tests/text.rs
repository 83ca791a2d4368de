use wttrbar::text::{
    align_left, align_right, decimal_text, from_chars, parse_unsigned, same_chars, same_text,
    to_chars,
};

#[test]
fn chars_come_out_in_order() {
    assert_eq!(to_chars("a°☀️"), vec!['a', '°', '\u{2600}', '\u{fe0f}']);
    assert_eq!(to_chars(""), Vec::<char>::new());
}

#[test]
fn chars_go_back_to_the_same_string() {
    for text in ["", "x", "Gefühlt wie", "体感温度", "☀️ 21°"] {
        assert_eq!(from_chars(&to_chars(text)), text);
    }
    assert_eq!(from_chars(&vec!['o', 'k']), "ok");
}

#[test]
fn same_text_compares_whole_strings() {
    assert!(same_text("temp_C", "temp_C"));
    assert!(same_text("", ""));
    assert!(!same_text("temp_C", "temp_F"));
    assert!(!same_text("temp", "temp_C"));
    assert!(!same_text("temp_C", "temp"));
}

#[test]
fn unsigned_numbers_are_read_as_std_reads_them() {
    let cases = [
        "0", "7", "80", "007", "300", "2100", "+5", "+", "", " 5", "5 ", "-5", "5a", "a5", "1.5",
        "4294967295", "4294967296", "42949672950", "99999999999999999999", "+4294967295", "++5",
        "٣", "１",
    ];
    for text in cases {
        assert_eq!(parse_unsigned(text), text.parse::<u32>().ok(), "for {:?}", text);
    }
    assert_eq!(parse_unsigned("300"), Some(300));
    assert_eq!(parse_unsigned("+5"), Some(5));
    assert_eq!(parse_unsigned("4294967295"), Some(u32::MAX));
    assert_eq!(parse_unsigned("4294967296"), None);
    assert_eq!(parse_unsigned(""), None);
}

#[test]
fn numbers_are_written_in_decimal() {
    assert_eq!(decimal_text(0), "0");
    assert_eq!(decimal_text(7), "7");
    assert_eq!(decimal_text(10), "10");
    assert_eq!(decimal_text(80), "80");
    assert_eq!(decimal_text(1203), "1203");
    assert_eq!(decimal_text(u32::MAX), "4294967295");
    for n in 0..2000u32 {
        assert_eq!(decimal_text(n), n.to_string());
    }
}

#[test]
fn written_numbers_read_back() {
    for n in [0u32, 1, 9, 10, 99, 100, 65535, 4294967295] {
        assert_eq!(parse_unsigned(&decimal_text(n)), Some(n));
    }
}

#[test]
fn same_chars_compares_whole_sequences() {
    assert!(same_chars(&vec![], &vec![]));
    assert!(same_chars(&vec!['a', 'b'], &vec!['a', 'b']));
    assert!(!same_chars(&vec!['a', 'b'], &vec!['a', 'c']));
    assert!(!same_chars(&vec!['a', 'b'], &vec!['a']));
    assert!(!same_chars(&vec![], &vec!['a']));
}

#[test]
fn alignment_pads_with_spaces_by_characters() {
    assert_eq!(align_right("7", 3), "  7");
    assert_eq!(align_right("-12", 3), "-12");
    assert_eq!(align_right("1234", 3), "1234");
    assert_eq!(align_right("", 2), "  ");
    assert_eq!(align_right("°", 3), "  °");
    assert_eq!(align_left("6pm", 4), "6pm ");
    assert_eq!(align_left("12am", 4), "12am");
    assert_eq!(align_left("12345", 4), "12345");
    assert_eq!(align_left("", 0), "");
}
