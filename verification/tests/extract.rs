use civet::extract::extract_text;

#[test]
fn null_pointer_extracts_to_absent() {
    assert_eq!(extract_text(&None), None);
}

#[test]
fn immediate_terminator_extracts_to_absent() {
    assert_eq!(extract_text(&Some(vec![])), None);
    assert_eq!(extract_text(&Some(vec![0])), None);
    assert_eq!(extract_text(&Some(vec![0, 65, 66])), None);
}

#[test]
fn text_stops_at_the_first_terminator() {
    assert_eq!(extract_text(&Some(b"abc\0def".to_vec())), Some("abc".to_string()));
    assert_eq!(extract_text(&Some(b"abc\0".to_vec())), Some("abc".to_string()));
}

#[test]
fn unterminated_text_is_taken_whole() {
    assert_eq!(extract_text(&Some(b"abc".to_vec())), Some("abc".to_string()));
}

#[test]
fn malformed_utf8_extracts_to_absent() {
    // Lone continuation byte, then a terminator.
    assert_eq!(extract_text(&Some(vec![0x80, 0])), None);
    // Truncated two-byte sequence.
    assert_eq!(extract_text(&Some(vec![0xc3, 0])), None);
    assert_eq!(extract_text(&Some(vec![0xff, 0xfe, 0])), None);
}

#[test]
fn well_formed_utf8_is_decoded() {
    // "héllo\0" in UTF-8.
    let bytes = vec![0x68, 0xc3, 0xa9, 0x6c, 0x6c, 0x6f, 0x00];
    assert_eq!(extract_text(&Some(bytes)), Some("h\u{e9}llo".to_string()));
}
