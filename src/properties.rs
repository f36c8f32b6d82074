//! Property bags: string properties of a native object, keyed by a numeric
//! identifier or by a name.
//!
//! A bag holds no copy of its properties. Each operation yields the native
//! call to make ([`GetCall`] or [`PutCall`]); the string a lookup hands back
//! is read with [`crate::cstring::decode_c_text`], and the status a store
//! returns with [`crate::status::from_hr`].
use vstd::prelude::*;
use vstd::utf8::*;
use crate::cstring::{c_bytes, has_nul, terminator_at, text_result, to_c_string};
use crate::handle::{owns_resource, Handle, SmartHandle, INVALID_HANDLE};
use crate::status::{status_result, SpeechError};

verus! {

/// A property identifier of the native SDK.
pub type PropertyId = i32;

/// The identifier that tells the native store to look a property up by its
/// name instead.
pub const NAME_LOOKUP_ID: PropertyId = -1;

/// A lookup to hand to the native "get string" call of a property bag.
pub struct GetCall {
    /// The bag to look in.
    pub handle: usize,
    /// The property identifier, or [`NAME_LOOKUP_ID`].
    pub id: PropertyId,
    /// The null-terminated name, for a lookup by name.
    pub name: Option<Vec<u8>>,
    /// The null-terminated value that the store gives for an absent property.
    pub default_value: Vec<u8>,
}

/// A store to hand to the native "set string" call of a property bag.
pub struct PutCall {
    /// The bag to store in.
    pub handle: usize,
    /// The property identifier, or [`NAME_LOOKUP_ID`].
    pub id: PropertyId,
    /// The null-terminated name, for a store by name.
    pub name: Option<Vec<u8>>,
    /// The null-terminated value.
    pub value: Vec<u8>,
}

/// `name` holds the null-terminated form of `key`, or nothing where there
/// is no key.
pub open spec fn carries_key(name: Option<Vec<u8>>, key: Option<Seq<u8>>) -> bool {
    match key {
        None => name is None,
        Some(k) => name is Some && name->Some_0@ == c_bytes(k),
    }
}

/// `c` looks up, in bag `h`, property `id` or the property named by the
/// bytes `key`, with a blank default.
pub open spec fn is_get_call(c: GetCall, h: usize, id: PropertyId, key: Option<Seq<u8>>) -> bool {
    &&& c.handle == h
    &&& c.id == id
    &&& carries_key(c.name, key)
    &&& c.default_value@ == c_bytes(Seq::empty())
}

/// `c` stores the bytes `value`, in bag `h`, under property `id` or under
/// the name given by the bytes `key`.
pub open spec fn is_put_call(
    c: PutCall,
    h: usize,
    id: PropertyId,
    key: Option<Seq<u8>>,
    value: Seq<u8>,
) -> bool {
    &&& c.handle == h
    &&& c.id == id
    &&& carries_key(c.name, key)
    &&& c.value@ == c_bytes(value)
}

/// What stands behind a property bag.
#[derive(Debug, Clone, Copy, PartialEq, Eq, Structural)]
pub enum Backing {
    /// The type has no native store: every operation is unimplemented.
    Unbacked,
    /// The type has a native store, but this bag's handle was released (or
    /// never assigned): no native call may be made on it.
    Released,
    /// The live native bag that the operations go to.
    Live(usize),
}

/// Access to the string properties of a native object.
///
/// A type says what stands behind it; the four operations then follow from
/// that. A type without a native store declares [`Backing::Unbacked`] and
/// every operation fails as unimplemented. A type with one checks the key
/// and value first, so that text with a zero byte fails with an encoding
/// error on every bag, and only then looks at the bag itself.
pub trait PropertyBag {
    /// What stands behind this bag.
    spec fn backing(&self) -> Backing;

    /// What stands behind this bag.
    fn current_backing(&self) -> (r: Backing)
        ensures
            r == self.backing(),
    ;

    /// The native call that reads property `id`.
    fn get_by_id(&self, id: PropertyId) -> (r: Result<GetCall, SpeechError>)
        ensures
            match self.backing() {
                Backing::Live(h) => r is Ok && is_get_call(r->Ok_0, h, id, None),
                _ => r == Err::<GetCall, SpeechError>(SpeechError::Unimplemented),
            },
    {
        match self.current_backing() {
            Backing::Live(h) => {
                let call = GetCall { handle: h, id, name: None, default_value: vec![0u8] };
                assert(call.default_value@ =~= c_bytes(Seq::empty()));
                Ok(call)
            },
            _ => Err(SpeechError::Unimplemented),
        }
    }

    /// The native call that reads the property called `name`. A name that
    /// holds a zero byte fails with an encoding error.
    fn get_by_name(&self, name: &str) -> (r: Result<GetCall, SpeechError>)
        ensures
            match self.backing() {
                Backing::Unbacked => r == Err::<GetCall, SpeechError>(SpeechError::Unimplemented),
                Backing::Released => r == Err::<GetCall, SpeechError>(
                    if has_nul(encode_utf8(name@)) {
                        SpeechError::Encoding
                    } else {
                        SpeechError::Unimplemented
                    },
                ),
                Backing::Live(h) => if has_nul(encode_utf8(name@)) {
                    r == Err::<GetCall, SpeechError>(SpeechError::Encoding)
                } else {
                    r is Ok && is_get_call(r->Ok_0, h, NAME_LOOKUP_ID, Some(encode_utf8(name@)))
                },
            },
    {
        let backing = self.current_backing();
        if let Backing::Unbacked = backing {
            return Err(SpeechError::Unimplemented);
        }
        let key = match to_c_string(name) {
            Err(e) => {
                return Err(e);
            },
            Ok(key) => key,
        };
        match backing {
            Backing::Live(h) => {
                let call = GetCall {
                    handle: h,
                    id: NAME_LOOKUP_ID,
                    name: Some(key),
                    default_value: vec![0u8],
                };
                assert(call.default_value@ =~= c_bytes(Seq::empty()));
                Ok(call)
            },
            _ => Err(SpeechError::Unimplemented),
        }
    }

    /// The native call that stores `value` as property `id`. A value that
    /// holds a zero byte fails with an encoding error.
    fn put_by_id(&self, id: PropertyId, value: &str) -> (r: Result<PutCall, SpeechError>)
        ensures
            match self.backing() {
                Backing::Unbacked => r == Err::<PutCall, SpeechError>(SpeechError::Unimplemented),
                Backing::Released => r == Err::<PutCall, SpeechError>(
                    if has_nul(encode_utf8(value@)) {
                        SpeechError::Encoding
                    } else {
                        SpeechError::Unimplemented
                    },
                ),
                Backing::Live(h) => if has_nul(encode_utf8(value@)) {
                    r == Err::<PutCall, SpeechError>(SpeechError::Encoding)
                } else {
                    r is Ok && is_put_call(r->Ok_0, h, id, None, encode_utf8(value@))
                },
            },
    {
        let backing = self.current_backing();
        if let Backing::Unbacked = backing {
            return Err(SpeechError::Unimplemented);
        }
        let v = match to_c_string(value) {
            Err(e) => {
                return Err(e);
            },
            Ok(v) => v,
        };
        match backing {
            Backing::Live(h) => Ok(PutCall { handle: h, id, name: None, value: v }),
            _ => Err(SpeechError::Unimplemented),
        }
    }

    /// The native call that stores `value` under the name `name`. A name or
    /// a value that holds a zero byte fails with an encoding error.
    fn put_by_name(&self, name: &str, value: &str) -> (r: Result<PutCall, SpeechError>)
        ensures
            match self.backing() {
                Backing::Unbacked => r == Err::<PutCall, SpeechError>(SpeechError::Unimplemented),
                Backing::Released => r == Err::<PutCall, SpeechError>(
                    if has_nul(encode_utf8(name@)) || has_nul(encode_utf8(value@)) {
                        SpeechError::Encoding
                    } else {
                        SpeechError::Unimplemented
                    },
                ),
                Backing::Live(h) => if has_nul(encode_utf8(name@)) || has_nul(encode_utf8(value@)) {
                    r == Err::<PutCall, SpeechError>(SpeechError::Encoding)
                } else {
                    r is Ok && is_put_call(
                        r->Ok_0,
                        h,
                        NAME_LOOKUP_ID,
                        Some(encode_utf8(name@)),
                        encode_utf8(value@),
                    )
                },
            },
    {
        let backing = self.current_backing();
        if let Backing::Unbacked = backing {
            return Err(SpeechError::Unimplemented);
        }
        let key = match to_c_string(name) {
            Err(e) => {
                return Err(e);
            },
            Ok(key) => key,
        };
        let v = match to_c_string(value) {
            Err(e) => {
                return Err(e);
            },
            Ok(v) => v,
        };
        match backing {
            Backing::Live(h) => Ok(PutCall { handle: h, id: NAME_LOOKUP_ID, name: Some(key), value: v }),
            _ => Err(SpeechError::Unimplemented),
        }
    }
}

/// A native property bag, owned through a [`SmartHandle`] whose resource
/// type has a native validity check.
pub struct Properties {
    handle: SmartHandle,
}

impl Properties {
    /// The owning wrapper of the bag's handle.
    pub closed spec fn wrapper(&self) -> SmartHandle {
        self.handle
    }

    /// Adopts the raw handle of a native property bag. No native call is
    /// made.
    pub fn new(handle: usize) -> (r: Self)
        ensures
            r.wrapper().value() == handle,
            r.wrapper().checked(),
    {
        Properties { handle: SmartHandle::new(handle, true) }
    }

    /// The bag of a parent object, from what the native "get property bag"
    /// call on the parent returned: its status and the bag handle it wrote.
    /// A failed call is reported, not turned into an unusable bag.
    pub fn from_parent(status: usize, bag: usize) -> (r: Result<Self, SpeechError>)
        ensures
            match status_result(status) {
                Err(e) => r is Err && r->Err_0 == e,
                Ok(_) => r is Ok && r->Ok_0.wrapper().value() == bag && r->Ok_0.wrapper().checked(),
            },
    {
        match crate::status::from_hr(status) {
            Err(e) => Err(e),
            Ok(()) => Ok(Properties::new(bag)),
        }
    }

    /// Whether the bag has been released.
    pub fn is_released(&self) -> (r: bool)
        ensures
            r == (self.wrapper().value() == INVALID_HANDLE),
    {
        self.handle.is_released()
    }

    /// The bag handle to ask the native validity check about before
    /// [`Properties::release`], if any.
    pub fn validity_query(&self) -> (r: Option<usize>)
        ensures
            r == crate::handle::validity_target(self.wrapper().value(), self.wrapper().checked()),
    {
        self.handle.validity_query()
    }

    /// Releases the bag, given the native validity answer; returns the
    /// handle to pass to the native release call, if any.
    pub fn release(&mut self, valid: bool) -> (r: Option<usize>)
        ensures
            r == crate::handle::release_target(
                old(self).wrapper().value(),
                old(self).wrapper().checked(),
                valid,
            ),
            final(self).wrapper().value() == INVALID_HANDLE,
            final(self).wrapper().checked() == old(self).wrapper().checked(),
    {
        self.handle.release(valid)
    }
}

impl Handle<usize> for Properties {
    open spec fn raw(&self) -> usize {
        self.wrapper().value()
    }

    fn handle(&self) -> (r: usize) {
        self.handle.handle()
    }
}

impl Default for Properties {
    /// A bag that holds [`INVALID_HANDLE`]: no store stands behind it.
    fn default() -> (r: Self)
        ensures
            r.wrapper().value() == INVALID_HANDLE,
            r.wrapper().checked(),
    {
        Properties::new(INVALID_HANDLE)
    }
}

impl PropertyBag for Properties {
    /// A bag always has a native store; it is live while its handle names
    /// a resource.
    open spec fn backing(&self) -> Backing {
        if owns_resource(self.wrapper().value()) {
            Backing::Live(self.wrapper().value())
        } else {
            Backing::Released
        }
    }

    fn current_backing(&self) -> (r: Backing) {
        let h = self.handle.handle();
        if h != crate::handle::NULL_HANDLE && h != INVALID_HANDLE {
            Backing::Live(h)
        } else {
            Backing::Released
        }
    }
}

/// A value stored under a name comes back under that name: the lookup by the
/// same name goes to the same bag with the same key, and the value that the
/// store was given, when handed back as the native store hands strings back,
/// reads as the text stored.
pub proof fn lemma_put_get_round_trip(
    h: usize,
    key: Seq<char>,
    value: Seq<char>,
    put: PutCall,
    get: GetCall,
    trailing: Seq<u8>,
)
    requires
        !has_nul(encode_utf8(value)),
        is_put_call(put, h, NAME_LOOKUP_ID, Some(encode_utf8(key)), encode_utf8(value)),
        is_get_call(get, h, NAME_LOOKUP_ID, Some(encode_utf8(key))),
    ensures
        get.handle == put.handle,
        get.id == put.id,
        get.name->Some_0@ == put.name->Some_0@,
        text_result(put.value@ + trailing) == Ok::<Seq<char>, SpeechError>(value),
{
    let e = encode_utf8(value);
    let reply = put.value@ + trailing;
    let n = e.len() as int;
    assert(reply[n] == 0);
    assert forall|j: int| 0 <= j < n implies reply[j] != 0 by {
        assert(reply[j] == e[j]);
    }
    assert(terminator_at(reply, n));
    let m = choose|m: int| terminator_at(reply, m);
    crate::cstring::lemma_terminator_unique(reply, m, n);
    assert(reply.take(n) =~= e);
    encode_utf8_valid_utf8(value);
    encode_utf8_decode_utf8(value);
}

} // verus!
