//! Translation of native status codes into results.
use vstd::prelude::*;

verus! {

/// A failed native call, carrying the status code that the call returned.
#[derive(Debug, Clone, Copy, PartialEq, Eq, Structural)]
pub struct ApiError(pub usize);

impl ApiError {
    /// The raw status code of the failed call.
    pub fn code(&self) -> (r: usize)
        ensures
            r == self.0,
    {
        self.0
    }
}

/// Every way in which an operation of this library can fail.
#[derive(Debug, Clone, Copy, PartialEq, Eq, Structural)]
pub enum SpeechError {
    /// A native call returned a non-zero status code.
    Api(ApiError),
    /// Host text holds a zero byte and cannot become a C string.
    Encoding,
    /// Bytes handed back by the native layer are not valid UTF-8 text.
    Decoding,
    /// The operation has no native store behind it.
    Unimplemented,
}

/// The result of translating a native status code: success for zero, a
/// failure carrying the code for anything else.
pub open spec fn status_result(code: usize) -> Result<(), SpeechError> {
    if code == 0 {
        Ok(())
    } else {
        Err(SpeechError::Api(ApiError(code)))
    }
}

/// Converts a native status code into a result. Zero means success; every
/// other code is an opaque failure that keeps the code.
pub fn from_hr(code: usize) -> (r: Result<(), SpeechError>)
    ensures
        r == status_result(code),
        r is Ok <==> code == 0,
        r is Err ==> r == Err::<(), SpeechError>(SpeechError::Api(ApiError(code))),
{
    if code == 0 {
        Ok(())
    } else {
        Err(SpeechError::Api(ApiError(code)))
    }
}

} // verus!
