use base64_slash_command::classifier::is_likely_base64;
use base64_slash_command::codec::{decode, encode, encode_decode_round_trip, ErrorKind};

#[test]
fn classifier_accepts_empty_string() {
    assert!(is_likely_base64(""));
}

#[test]
fn classifier_accepts_padded_multiple_of_four() {
    assert!(is_likely_base64("SGVsbG8sIFdvcmxkIQ=="));
    assert!(is_likely_base64("Zm9v"));
    assert!(is_likely_base64("A=B="));
}

#[test]
fn classifier_accepts_short_length_ending_in_padding() {
    assert!(is_likely_base64("AB="));
}

#[test]
fn classifier_rejects_bad_length_without_padding() {
    assert!(!is_likely_base64("abc"));
}

#[test]
fn classifier_rejects_foreign_characters() {
    assert!(!is_likely_base64("hello world!"));
    assert!(!is_likely_base64("Zm9v\n"));
    assert!(!is_likely_base64("déjà"));
}

#[test]
fn encode_known_vectors() {
    assert_eq!(encode(""), "");
    assert_eq!(encode("f"), "Zg==");
    assert_eq!(encode("fo"), "Zm8=");
    assert_eq!(encode("foo"), "Zm9v");
    assert_eq!(encode("Hello, World!"), "SGVsbG8sIFdvcmxkIQ==");
}

#[test]
fn encode_uses_utf8_bytes() {
    assert_eq!(encode("é"), "w6k=");
}

#[test]
fn decode_known_vector() {
    assert_eq!(decode("Zm9v"), Ok("foo".to_string()));
    assert_eq!(decode("SGVsbG8sIFdvcmxkIQ=="), Ok("Hello, World!".to_string()));
}

#[test]
fn decode_empty_string() {
    assert_eq!(decode(""), Ok(String::new()));
}

#[test]
fn decode_rejects_unlikely_input_fast() {
    assert!(matches!(decode("hello world!"), Err(ErrorKind::NotBase64)));
}

#[test]
fn decode_reports_malformed_when_classifier_was_fooled() {
    // Length 3 ending in `=` passes the permissive classifier but fails the
    // strict decoder.
    assert!(is_likely_base64("AB="));
    assert!(matches!(decode("AB="), Err(ErrorKind::MalformedBase64(_))));
    // Padding in the middle also slips past the classifier but not the
    // strict decoder.
    assert!(is_likely_base64("A=B="));
    assert!(matches!(decode("A=B="), Err(ErrorKind::MalformedBase64(_))));
}

#[test]
fn decode_rejects_non_utf8_payload() {
    // "/w==" is the encoding of the single byte 0xFF, which is not UTF-8.
    assert!(matches!(decode("/w=="), Err(ErrorKind::NotUtf8)));
}

#[test]
fn round_trip_plain_text() {
    assert_eq!(decode(&encode("Hello, World!")), Ok("Hello, World!".to_string()));
}

#[test]
fn round_trip_unicode_text() {
    let input = "grüße, 世界 ☂";
    assert_eq!(decode(&encode(input)), Ok(input.to_string()));
}

#[test]
fn round_trip_empty_text() {
    assert_eq!(decode(&encode("")), Ok(String::new()));
}

#[test]
fn round_trip_entry_point() {
    assert_eq!(encode_decode_round_trip("any text at all"), Ok("any text at all".to_string()));
}
