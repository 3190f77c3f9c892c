use normal_notepad::codec::{
    decode_code_page_units, decode_content, encode_content, DecodeError, Decoded, FileEncoding,
};

const SAMPLE: &str = "héllo wörld 😀\r\nあいう\n\u{10FFFF}end";

fn text_of(r: Result<Decoded, DecodeError>) -> (String, FileEncoding) {
    match r {
        Ok(Decoded::Text(s, e)) => (s, e),
        Ok(Decoded::SystemCodePage) => panic!("unexpected code page result"),
        Err(e) => panic!("unexpected error {:?}", e),
    }
}

#[test]
fn round_trip_for_each_unicode_encoding() {
    for e in [
        FileEncoding::Utf8,
        FileEncoding::Utf8Bom,
        FileEncoding::Utf16Le,
        FileEncoding::Utf16Be,
    ] {
        let bytes = encode_content(SAMPLE, e).unwrap();
        let (text, resolved) = text_of(decode_content(&bytes, e));
        assert_eq!(text, SAMPLE);
        assert_eq!(resolved, e);
    }
}

#[test]
fn round_trip_keeps_a_leading_mark_character() {
    let text = "\u{FEFF}abc";
    let bytes = encode_content(text, FileEncoding::Utf8Bom).unwrap();
    assert_eq!(&bytes[..6], &[0xEF, 0xBB, 0xBF, 0xEF, 0xBB, 0xBF]);
    assert_eq!(text_of(decode_content(&bytes, FileEncoding::Utf8Bom)).0, text);
}

#[test]
fn auto_detects_saved_utf16_le() {
    let bytes = encode_content(SAMPLE, FileEncoding::Utf16Le).unwrap();
    let (text, resolved) = text_of(decode_content(&bytes, FileEncoding::Auto));
    assert_eq!(resolved, FileEncoding::Utf16Le);
    assert_eq!(text, SAMPLE);
}

#[test]
fn auto_detects_each_mark_and_plain_utf8() {
    let be = encode_content("ab", FileEncoding::Utf16Be).unwrap();
    assert_eq!(text_of(decode_content(&be, FileEncoding::Auto)), ("ab".to_string(), FileEncoding::Utf16Be));
    let bom = encode_content("ab", FileEncoding::Utf8Bom).unwrap();
    assert_eq!(text_of(decode_content(&bom, FileEncoding::Auto)), ("ab".to_string(), FileEncoding::Utf8Bom));
    let plain = encode_content("ab", FileEncoding::Utf8).unwrap();
    assert_eq!(text_of(decode_content(&plain, FileEncoding::Auto)), ("ab".to_string(), FileEncoding::Utf8));
}

#[test]
fn exact_bytes_written() {
    assert_eq!(encode_content("Aé", FileEncoding::Utf8).unwrap(), vec![0x41, 0xC3, 0xA9]);
    assert_eq!(encode_content("Aé", FileEncoding::Auto).unwrap(), vec![0x41, 0xC3, 0xA9]);
    assert_eq!(
        encode_content("Aé", FileEncoding::Utf8Bom).unwrap(),
        vec![0xEF, 0xBB, 0xBF, 0x41, 0xC3, 0xA9]
    );
    assert_eq!(
        encode_content("A😀", FileEncoding::Utf16Le).unwrap(),
        vec![0xFF, 0xFE, 0x41, 0x00, 0x3D, 0xD8, 0x00, 0xDE]
    );
    assert_eq!(
        encode_content("A😀", FileEncoding::Utf16Be).unwrap(),
        vec![0xFE, 0xFF, 0x00, 0x41, 0xD8, 0x3D, 0xDE, 0x00]
    );
    assert!(encode_content("A", FileEncoding::ShiftJis).is_none());
}

#[test]
fn empty_text_round_trips() {
    assert_eq!(encode_content("", FileEncoding::Utf8).unwrap(), Vec::<u8>::new());
    assert_eq!(encode_content("", FileEncoding::Utf16Le).unwrap(), vec![0xFF, 0xFE]);
    assert_eq!(text_of(decode_content(&[], FileEncoding::Utf8)).0, "");
    assert_eq!(text_of(decode_content(&[], FileEncoding::Auto)), (String::new(), FileEncoding::Utf8));
}

#[test]
fn malformed_utf8_fails_strict_and_falls_back_on_auto() {
    let bytes = [0x61, 0xFF, 0x80, 0x62];
    assert_eq!(decode_content(&bytes, FileEncoding::Utf8).unwrap_err(), DecodeError::InvalidSequence);
    assert_eq!(decode_content(&bytes, FileEncoding::Utf8Bom).unwrap_err(), DecodeError::InvalidSequence);
    assert!(matches!(decode_content(&bytes, FileEncoding::Auto), Ok(Decoded::SystemCodePage)));
}

#[test]
fn overlong_and_surrogate_utf8_are_rejected() {
    assert!(decode_content(&[0xC0, 0xAF], FileEncoding::Utf8).is_err());
    assert!(decode_content(&[0xED, 0xA0, 0x80], FileEncoding::Utf8).is_err());
}

#[test]
fn utf8_mark_with_malformed_body_falls_back_on_auto() {
    let bytes = [0xEF, 0xBB, 0xBF, 0xFF];
    assert!(matches!(decode_content(&bytes, FileEncoding::Auto), Ok(Decoded::SystemCodePage)));
    assert_eq!(decode_content(&bytes, FileEncoding::Utf8Bom).unwrap_err(), DecodeError::InvalidSequence);
}

#[test]
fn utf8_read_keeps_a_mark() {
    let bytes = [0xEF, 0xBB, 0xBF, 0x61];
    assert_eq!(text_of(decode_content(&bytes, FileEncoding::Utf8)).0, "\u{FEFF}a");
    assert_eq!(text_of(decode_content(&bytes, FileEncoding::Utf8Bom)).0, "a");
}

#[test]
fn utf16_without_mark_and_with_odd_byte() {
    let bytes = [0x61, 0x00, 0x62, 0x00, 0x63];
    assert_eq!(text_of(decode_content(&bytes, FileEncoding::Utf16Le)), ("ab".to_string(), FileEncoding::Utf16Le));
    let be = [0x00, 0x61, 0x00];
    assert_eq!(text_of(decode_content(&be, FileEncoding::Utf16Be)).0, "a");
}

#[test]
fn utf16_unpaired_surrogates_are_replaced() {
    let bytes = [0xFF, 0xFE, 0x3D, 0xD8, 0x61, 0x00, 0x00, 0xDC];
    assert_eq!(text_of(decode_content(&bytes, FileEncoding::Utf16Le)).0, "\u{FFFD}a\u{FFFD}");
}

#[test]
fn shift_jis_is_left_to_the_code_page() {
    assert!(matches!(decode_content(&[0x82, 0xA0], FileEncoding::ShiftJis), Ok(Decoded::SystemCodePage)));
}

#[test]
fn code_page_units_become_text() {
    let (text, resolved) = text_of(Ok(decode_code_page_units(&[0x3042, 0xD800, 0x0041])));
    assert_eq!(text, "あ\u{FFFD}A");
    assert_eq!(resolved, FileEncoding::ShiftJis);
    assert_eq!(text_of(Ok(decode_code_page_units(&[]))).0, "");
}

#[test]
fn detection_never_fails() {
    let buffers: [&[u8]; 6] = [
        &[],
        &[0xEF, 0xBB, 0xBF, 0xC0, 0xAF],
        &[0xEF, 0xBB],
        &[0xFF],
        &[0xFE, 0xFF, 0xD8],
        &[0x82, 0xA0, 0x82, 0xA2],
    ];
    for b in buffers {
        assert!(decode_content(b, FileEncoding::Auto).is_ok());
    }
}
