//! Marshaling of text to and from null-terminated byte strings.
use vstd::prelude::*;
use vstd::utf8::*;
use crate::status::{status_result, SpeechError};

verus! {

broadcast use vstd::string::group_string_axioms;

/// Capacity of an output buffer when the caller names none.
pub const DEFAULT_BUFFER_CAPACITY: usize = 1024;

/// Whether `b` holds a zero byte anywhere.
pub open spec fn has_nul(b: Seq<u8>) -> bool {
    exists|i: int| 0 <= i < b.len() && b[i] == 0
}

/// The null-terminated form of the bytes `b`.
pub open spec fn c_bytes(b: Seq<u8>) -> Seq<u8> {
    b.push(0)
}

/// `n` is the position of the first zero byte of `b`.
pub open spec fn terminator_at(b: Seq<u8>, n: int) -> bool {
    &&& 0 <= n < b.len()
    &&& b[n] == 0
    &&& forall|j: int| 0 <= j < n ==> b[j] != 0
}

/// The bytes of the C string at the start of `b`: those before its first
/// zero byte, or `None` where `b` holds no zero byte.
pub open spec fn c_text(b: Seq<u8>) -> Option<Seq<u8>> {
    if exists|n: int| terminator_at(b, n) {
        Some(b.take(choose|n: int| terminator_at(b, n)))
    } else {
        None
    }
}

/// The text of the C string at the start of `b`, or `None` where `b` is not
/// terminated or its bytes are not UTF-8.
pub open spec fn decoded_text(b: Seq<u8>) -> Option<Seq<char>> {
    match c_text(b) {
        Some(t) => if valid_utf8(t) {
            Some(decode_utf8(t))
        } else {
            None
        },
        None => None,
    }
}

/// What reading the C string at the start of `b` gives: its text, or a
/// decoding failure.
pub open spec fn text_result(b: Seq<u8>) -> Result<Seq<char>, SpeechError> {
    match decoded_text(b) {
        Some(t) => Ok(t),
        None => Err(SpeechError::Decoding),
    }
}

/// The first zero byte of a sequence is the only one that has no zero
/// byte before it.
pub proof fn lemma_terminator_unique(b: Seq<u8>, n: int, m: int)
    requires
        terminator_at(b, n),
        terminator_at(b, m),
    ensures
        n == m,
{
    if n < m {
        assert(b[n] != 0);
    } else if m < n {
        assert(b[m] != 0);
    }
}

/// Relies on std::str::from_utf8: it accepts exactly the byte sequences that
/// are valid UTF-8, and the text it returns is encoded by those very bytes.
#[verifier::external_body]
fn utf8_text(b: &[u8]) -> (r: Option<String>)
    ensures
        match r {
            Some(s) => valid_utf8(b@) && encode_utf8(s@) == b@,
            None => !valid_utf8(b@),
        },
{
    match std::str::from_utf8(b) {
        Ok(s) => Some(s.to_string()),
        Err(_) => None,
    }
}

/// Converts host text into a null-terminated byte string. Text that holds
/// a zero byte has no such form and fails with an encoding error.
pub fn to_c_string(s: &str) -> (r: Result<Vec<u8>, SpeechError>)
    ensures
        match r {
            Ok(v) => !has_nul(encode_utf8(s@)) && v@ == c_bytes(encode_utf8(s@)),
            Err(e) => has_nul(encode_utf8(s@)) && e == SpeechError::Encoding,
        },
{
    let b: &[u8] = s.as_bytes();
    let mut out: Vec<u8> = Vec::new();
    let mut i: usize = 0;
    while i < b.len()
        invariant
            b@ == encode_utf8(s@),
            0 <= i <= b@.len(),
            out@ == b@.take(i as int),
            forall|j: int| 0 <= j < i ==> b@[j] != 0,
        decreases b@.len() - i,
    {
        if b[i] == 0 {
            return Err(SpeechError::Encoding);
        }
        out.push(b[i]);
        i = i + 1;
        assert(out@ =~= b@.take(i as int));
    }
    assert(b@.take(i as int) =~= b@);
    out.push(0);
    Ok(out)
}

/// Reads the C string at the start of `buf` as text. A buffer with no zero
/// byte, or whose string is not UTF-8, fails with a decoding error; nothing
/// past the end of `buf` is ever read, so text that did not fit cannot come
/// back.
pub fn decode_c_text(buf: &[u8]) -> (r: Result<String, SpeechError>)
    ensures
        match r {
            Ok(s) => text_result(buf@) == Ok::<Seq<char>, SpeechError>(s@),
            Err(e) => text_result(buf@) == Err::<Seq<char>, SpeechError>(e),
        },
        r is Ok ==> encode_utf8(r->Ok_0@).len() < buf@.len(),
{
    let mut text: Vec<u8> = Vec::new();
    let mut i: usize = 0;
    while i < buf.len()
        invariant
            0 <= i <= buf@.len(),
            text@ == buf@.take(i as int),
            forall|j: int| 0 <= j < i ==> buf@[j] != 0,
        decreases buf@.len() - i,
    {
        if buf[i] == 0 {
            assert(terminator_at(buf@, i as int));
            proof {
                let n = choose|n: int| terminator_at(buf@, n);
                lemma_terminator_unique(buf@, n, i as int);
            }
            return match utf8_text(text.as_slice()) {
                Some(s) => {
                    proof {
                        encode_utf8_decode_utf8(s@);
                    }
                    Ok(s)
                },
                None => Err(SpeechError::Decoding),
            };
        }
        text.push(buf[i]);
        i = i + 1;
        assert(text@ =~= buf@.take(i as int));
    }
    assert(forall|n: int| !terminator_at(buf@, n));
    Err(SpeechError::Decoding)
}

/// The capacity of an output buffer: the one requested, else the default.
pub fn buffer_capacity(requested: Option<usize>) -> (r: usize)
    ensures
        r == match requested {
            Some(n) => n,
            None => DEFAULT_BUFFER_CAPACITY,
        },
{
    match requested {
        Some(n) => n,
        None => DEFAULT_BUFFER_CAPACITY,
    }
}

/// A zero-filled output buffer of the given capacity, for a native call to
/// write a C string into.
pub fn output_buffer(capacity: usize) -> (r: Vec<u8>)
    ensures
        r@.len() == capacity,
        forall|i: int| 0 <= i < capacity ==> r@[i] == 0,
{
    vec![0u8; capacity]
}

/// What a native call that wrote into an output buffer gives: its failure
/// where the status is not zero, else the text of the buffer.
pub open spec fn buffer_result(status: usize, buf: Seq<u8>) -> Result<Seq<char>, SpeechError> {
    match status_result(status) {
        Err(e) => Err(e),
        Ok(_) => text_result(buf),
    }
}

/// Interprets an output buffer after the native call that filled it. A
/// failed call is reported without looking at the buffer.
pub fn string_from_buffer(status: usize, buf: &[u8]) -> (r: Result<String, SpeechError>)
    ensures
        match r {
            Ok(s) => buffer_result(status, buf@) == Ok::<Seq<char>, SpeechError>(s@),
            Err(e) => buffer_result(status, buf@) == Err::<Seq<char>, SpeechError>(e),
        },
        r is Ok ==> encode_utf8(r->Ok_0@).len() < buf@.len(),
{
    match crate::status::from_hr(status) {
        Err(e) => Err(e),
        Ok(()) => decode_c_text(buf),
    }
}

} // verus!
