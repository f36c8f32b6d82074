//! Handle lifetimes, string marshaling and property bags for a native
//! speech SDK, with every decision taken on the host side verified.
//!
//! The native library itself is never called from here. Each operation that
//! needs it is split in two: the library describes the native call to make,
//! and interprets what the call handed back.
use vstd::prelude::*;

pub mod composite;
pub mod cstring;
pub mod handle;
pub mod properties;
pub mod status;

pub use composite::PropertyObject;
pub use cstring::{decode_c_text, string_from_buffer, to_c_string, DEFAULT_BUFFER_CAPACITY};
pub use handle::{Handle, SmartHandle, INVALID_HANDLE, NULL_HANDLE};
pub use properties::{Backing, GetCall, Properties, PropertyBag, PropertyId, PutCall, NAME_LOOKUP_ID};
pub use status::{from_hr, ApiError, SpeechError};
