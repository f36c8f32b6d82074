use speech_sys::{from_hr, ApiError, SpeechError};

#[test]
fn zero_status_is_success() {
    assert_eq!(from_hr(0), Ok(()));
}

#[test]
fn non_zero_status_keeps_its_code() {
    assert_eq!(from_hr(1), Err(SpeechError::Api(ApiError(1))));
    assert_eq!(from_hr(0x5), Err(SpeechError::Api(ApiError(5))));
}

#[test]
fn undocumented_codes_fail_alike() {
    assert_eq!(from_hr(usize::MAX), Err(SpeechError::Api(ApiError(usize::MAX))));
    assert_eq!(from_hr(0x8000_0000), Err(SpeechError::Api(ApiError(0x8000_0000))));
}

#[test]
fn api_error_code_reads_back() {
    assert_eq!(ApiError(42).code(), 42);
}
