use speech_sys::cstring::{buffer_capacity, output_buffer};
use speech_sys::{decode_c_text, string_from_buffer, to_c_string, ApiError, SpeechError, DEFAULT_BUFFER_CAPACITY};

#[test]
fn text_gets_a_terminator() {
    assert_eq!(to_c_string("abc"), Ok(vec![97u8, 98, 99, 0]));
    assert_eq!(to_c_string(""), Ok(vec![0u8]));
}

#[test]
fn non_ascii_text_is_encoded_as_utf8() {
    assert_eq!(to_c_string("é"), Ok(vec![0xC3u8, 0xA9, 0]));
}

#[test]
fn embedded_nul_fails_to_encode() {
    assert_eq!(to_c_string("a\0b"), Err(SpeechError::Encoding));
    assert_eq!(to_c_string("\0"), Err(SpeechError::Encoding));
}

#[test]
fn decode_stops_at_first_nul() {
    assert_eq!(decode_c_text(&[104, 105, 0, 106, 0]), Ok(String::from("hi")));
    assert_eq!(decode_c_text(&[0]), Ok(String::new()));
}

#[test]
fn unterminated_buffer_fails_to_decode() {
    assert_eq!(decode_c_text(&[]), Err(SpeechError::Decoding));
    assert_eq!(decode_c_text(&[104, 105]), Err(SpeechError::Decoding));
}

#[test]
fn invalid_utf8_fails_to_decode() {
    assert_eq!(decode_c_text(&[0xFF, 0]), Err(SpeechError::Decoding));
    assert_eq!(decode_c_text(&[0xC3, 0]), Err(SpeechError::Decoding));
}

#[test]
fn decode_reads_utf8() {
    assert_eq!(decode_c_text(&[0xC3, 0xA9, 0]), Ok(String::from("é")));
}

#[test]
fn default_capacity_is_1024() {
    assert_eq!(DEFAULT_BUFFER_CAPACITY, 1024);
    assert_eq!(buffer_capacity(None), 1024);
    assert_eq!(buffer_capacity(Some(4096)), 4096);
}

#[test]
fn output_buffer_is_zero_filled() {
    let b = output_buffer(16);
    assert_eq!(b.len(), 16);
    assert!(b.iter().all(|x| *x == 0));
}

#[test]
fn failed_call_ignores_buffer() {
    assert_eq!(string_from_buffer(7, &[104, 105, 0]), Err(SpeechError::Api(ApiError(7))));
    assert_eq!(string_from_buffer(7, &[0xFF]), Err(SpeechError::Api(ApiError(7))));
}

#[test]
fn successful_call_reads_buffer() {
    assert_eq!(string_from_buffer(0, &[104, 101, 108, 108, 111, 0, 0, 0]), Ok(String::from("hello")));
}

#[test]
fn long_string_with_larger_capacity() {
    let text = "a".repeat(2000);
    let mut buf = output_buffer(buffer_capacity(Some(4096)));
    buf[..2000].copy_from_slice(text.as_bytes());
    assert_eq!(string_from_buffer(0, &buf), Ok(text));
}

#[test]
fn long_string_in_default_capacity_fails_cleanly() {
    let buf = vec![b'a'; buffer_capacity(None)];
    assert_eq!(string_from_buffer(0, &buf), Err(SpeechError::Decoding));
}
