use real_one::format::{decode_hash, equals, HashFormat};

#[test]
fn hex_matches_base64_of_same_bytes() {
    let b64 = HashFormat::Base64.format_hash(&[0xDE, 0xAD, 0xBE, 0xEF]);
    assert_eq!(b64, "3q2+7w==");
    assert!(equals("DEADBEEF", &b64));
    assert!(equals(" de ad be ef\n", "DEADBEEF"));
}

#[test]
fn empty_never_matches() {
    assert!(!equals("", "ab"));
    assert!(!equals("", ""));
    assert!(!equals("   ", ""));
}

#[test]
fn whitespace_only_texts_both_decode_as_empty() {
    assert!(equals("  ", "  "));
    assert!(!equals("  ", "ab"));
}

#[test]
fn undecodable_never_matches() {
    assert!(!equals("zz", "zz"));
    assert!(decode_hash("zz").is_none());
}

#[test]
fn unavailable_marker_never_matches() {
    assert!(!equals("Error: Not implemented", "Error: Not implemented"));
}

#[test]
fn different_bytes_do_not_match() {
    assert!(!equals("deadbeef", "deadbeee"));
    assert!(!equals("deadbeef", "deadbe"));
}

#[test]
fn formats_render_bytes() {
    let b = [0x01u8, 0xab, 0xff];
    assert_eq!(HashFormat::HexLower.format_hash(&b), "01abff");
    assert_eq!(HashFormat::HexUpper.format_hash(&b), "01ABFF");
    assert_eq!(HashFormat::Base64.format_hash(&b), "Aav/");
}

#[test]
fn parse_hash_per_format() {
    assert_eq!(HashFormat::HexLower.parse_hash(" 01 AB ff "), Ok(vec![0x01, 0xab, 0xff]));
    assert_eq!(HashFormat::Base64.parse_hash("Aav/"), Ok(vec![0x01, 0xab, 0xff]));
    let e = HashFormat::HexUpper.parse_hash("abc").unwrap_err();
    assert!(e.starts_with("Error decoding hex: "), "{}", e);
    let e = HashFormat::Base64.parse_hash("%%%").unwrap_err();
    assert!(e.starts_with("Error decoding base64: "), "{}", e);
}

#[test]
fn format_names() {
    assert_eq!(HashFormat::all(), vec![HashFormat::HexUpper, HashFormat::HexLower, HashFormat::Base64]);
    assert_eq!(HashFormat::HexUpper.to_string(), "Hexadecimal (Uppercase)");
    assert_eq!(HashFormat::HexLower.to_string(), "Hexadecimal (Lowercase)");
    assert_eq!(HashFormat::Base64.to_string(), "Base64");
}

#[test]
fn normalization_drops_whitespace_and_spaces() {
    assert_eq!(real_one::text::normalize("\t ab cd \u{3000}\n"), "abcd");
    assert_eq!(real_one::text::normalize("  "), "");
    assert_eq!(real_one::text::normalize("x\ny"), "x\ny");
}
