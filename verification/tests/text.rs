use bqn_bridge::error::BQNCastError;
use bqn_bridge::text::{c_text, decode, is_nul_free, terminated};

#[test]
fn text_is_terminated_by_one_zero_byte() {
    assert_eq!(terminated("1+1"), vec![b'1', b'+', b'1', 0]);
    assert_eq!(terminated(""), vec![0]);
    assert_eq!(terminated("é"), vec![0xc3, 0xa9, 0]);
}

#[test]
fn terminated_text_keeps_its_own_zero_bytes() {
    assert_eq!(terminated("a\0b"), vec![b'a', 0, b'b', 0]);
}

#[test]
fn zero_bytes_are_found() {
    assert!(is_nul_free(""));
    assert!(is_nul_free("plain"));
    assert!(is_nul_free("ünï✓"));
    assert!(!is_nul_free("\0"));
    assert!(!is_nul_free("a\0b"));
    assert!(!is_nul_free("tail\0"));
}

#[test]
fn text_without_zero_byte_has_a_buffer() {
    assert_eq!(c_text("abc"), Some(vec![b'a', b'b', b'c', 0]));
    assert_eq!(c_text(""), Some(vec![0]));
    assert_eq!(c_text("✓"), Some(vec![0xe2, 0x9c, 0x93, 0]));
}

#[test]
fn text_with_zero_byte_has_no_buffer() {
    assert_eq!(c_text("a\0b"), None);
    assert_eq!(c_text("\0"), None);
    assert_eq!(c_text("end\0"), None);
}

#[test]
fn buffer_is_one_byte_longer_than_the_text() {
    for text in ["", "x", "héllo", "𝕏𝕐"] {
        assert_eq!(c_text(text).map(|buffer| buffer.len()), Some(text.len() + 1));
    }
}

#[test]
fn well_formed_bytes_decode() {
    assert_eq!(decode(vec![b'h', b'i']), Some(String::from("hi")));
    assert_eq!(decode(Vec::new()), Some(String::new()));
    assert_eq!(decode(vec![0xf0, 0x9d, 0x95, 0x8f]), Some(String::from("𝕏")));
}

#[test]
fn ill_formed_bytes_do_not_decode() {
    assert_eq!(decode(vec![0xff]), None);
    assert_eq!(decode(vec![0xc3]), None);
    assert_eq!(decode(vec![0xed, 0xa0, 0x80]), None);
    assert_eq!(decode(vec![0xc0, 0x80]), None);
}

#[test]
fn buffer_without_its_end_decodes_to_the_text() {
    for text in ["", "1+1", "héllo wörld", "✓ 𝕏"] {
        let mut buffer = c_text(text).unwrap();
        buffer.pop();
        assert_eq!(decode(buffer).as_deref(), Some(text));
    }
}

#[test]
fn cast_error_has_its_fixed_description() {
    assert_eq!(BQNCastError.message(), "invalid first item to double");
    assert_eq!(BQNCastError.clone(), BQNCastError);
}
