use idempotency_rs::text::{header_text, hex_text};

#[test]
fn hex_has_two_lower_case_digits_for_each_byte() {
    assert_eq!(hex_text(&[]), "");
    assert_eq!(hex_text(&[0, 9, 10, 15, 16, 171, 255]), "00090a0f10abff");
}

#[test]
fn header_text_takes_visible_ascii_and_tabs() {
    assert_eq!(header_text(b""), Some(String::new()));
    assert_eq!(header_text(b"a key\twith ~ and !"), Some("a key\twith ~ and !".to_string()));
}

#[test]
fn header_text_refuses_all_other_bytes() {
    assert_eq!(header_text(&[b'a', 127]), None);
    assert_eq!(header_text(&[b'a', 31]), None);
    assert_eq!(header_text(&[b'a', 10]), None);
    assert_eq!(header_text("k\u{e9}y".as_bytes()), None);
}

#[test]
fn different_bytes_have_different_texts() {
    let mut seen = std::collections::HashSet::new();
    for byte in 0..=255u8 {
        assert!(seen.insert(hex_text(&[byte])));
    }
}
