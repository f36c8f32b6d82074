//! Ownership of one opaque native handle.
//!
//! A wrapper never calls the native library itself: [`SmartHandle::validity_query`]
//! names the handle whose validity the native side must be asked about, and
//! [`SmartHandle::release`] takes that answer, moves the wrapper to its
//! released state and names the handle to pass to the native release call,
//! if any.
use vstd::prelude::*;

verus! {

/// The handle value meaning "not yet assigned".
pub const NULL_HANDLE: usize = 0;

/// The handle value meaning "released, or never valid".
pub const INVALID_HANDLE: usize = usize::MAX;

/// Whether a handle value names a native resource: neither sentinel does.
pub open spec fn owns_resource(h: usize) -> bool {
    h != NULL_HANDLE && h != INVALID_HANDLE
}

/// The handle to pass to the native validity check before releasing `h`:
/// only a resource type that has such a check is asked, and only about a
/// handle that names a resource.
pub open spec fn validity_target(h: usize, has_check: bool) -> Option<usize> {
    if has_check && owns_resource(h) {
        Some(h)
    } else {
        None
    }
}

/// The handle to pass to the native release call when releasing `h`, given
/// the native validity answer `valid` (ignored where there is no check):
/// none for a sentinel, none for a handle that the native side reports
/// invalid.
pub open spec fn release_target(h: usize, has_check: bool, valid: bool) -> Option<usize> {
    if owns_resource(h) && (!has_check || valid) {
        Some(h)
    } else {
        None
    }
}

/// Read access to the raw handle beneath a wrapper.
pub trait Handle<T = usize> {
    /// The raw handle value, as the native library issued it.
    spec fn raw(&self) -> T;

    /// Reads back the raw handle, for passing to further native calls,
    /// without giving up ownership.
    fn handle(&self) -> (r: T)
        ensures
            r == self.raw(),
    ;
}

/// The owner of one native handle. Released wrappers hold
/// [`INVALID_HANDLE`] and never release again.
pub struct SmartHandle {
    handle: usize,
    has_check: bool,
}

impl SmartHandle {
    /// The handle held.
    pub closed spec fn value(&self) -> usize {
        self.handle
    }

    /// Whether the resource type has a native validity check.
    pub closed spec fn checked(&self) -> bool {
        self.has_check
    }

    /// Adopts a raw handle returned by a native constructor call. No native
    /// call is made.
    pub fn new(handle: usize, has_check: bool) -> (r: Self)
        ensures
            r.value() == handle,
            r.checked() == has_check,
    {
        SmartHandle { handle, has_check }
    }

    /// Whether the resource type has a native validity check.
    pub fn has_check(&self) -> (r: bool)
        ensures
            r == self.checked(),
    {
        self.has_check
    }

    /// Whether this wrapper has been released (or never held a resource
    /// that it may release).
    pub fn is_released(&self) -> (r: bool)
        ensures
            r == (self.value() == INVALID_HANDLE),
    {
        self.handle == INVALID_HANDLE
    }

    /// The handle that the native validity check must be asked about before
    /// [`SmartHandle::release`], or `None` where no native call is needed.
    pub fn validity_query(&self) -> (r: Option<usize>)
        ensures
            r == validity_target(self.value(), self.checked()),
    {
        if self.has_check && self.handle != NULL_HANDLE && self.handle != INVALID_HANDLE {
            Some(self.handle)
        } else {
            None
        }
    }

    /// Releases the wrapper. `valid` is the native validity answer for the
    /// handle that [`SmartHandle::validity_query`] named (ignored where it
    /// named none). Returns the handle to pass to the native release call,
    /// or `None` where no call may be made. Afterwards the wrapper holds
    /// [`INVALID_HANDLE`].
    pub fn release(&mut self, valid: bool) -> (r: Option<usize>)
        ensures
            r == release_target(old(self).value(), old(self).checked(), valid),
            final(self).value() == INVALID_HANDLE,
            final(self).checked() == old(self).checked(),
    {
        let h = self.handle;
        self.handle = INVALID_HANDLE;
        if h != NULL_HANDLE && h != INVALID_HANDLE && (!self.has_check || valid) {
            Some(h)
        } else {
            None
        }
    }
}

impl Handle<usize> for SmartHandle {
    open spec fn raw(&self) -> usize {
        self.value()
    }

    fn handle(&self) -> (r: usize) {
        let h = self.handle;
        assert(h == self.raw());
        h
    }
}

impl Default for SmartHandle {
    /// A wrapper that holds [`INVALID_HANDLE`]: it owns nothing and its
    /// release makes no native call.
    fn default() -> (r: Self)
        ensures
            r.value() == INVALID_HANDLE,
            !r.checked(),
    {
        SmartHandle { handle: INVALID_HANDLE, has_check: false }
    }
}

impl From<usize> for SmartHandle {
    /// Adopts a raw handle of a resource type without a validity check.
    fn from(handle: usize) -> (r: Self)
        ensures
            r.value() == handle,
            !r.checked(),
    {
        SmartHandle { handle, has_check: false }
    }
}

impl vstd::std_specs::convert::FromSpecImpl<usize> for SmartHandle {
    open spec fn obeys_from_spec() -> bool {
        true
    }

    closed spec fn from_spec(handle: usize) -> Self {
        SmartHandle { handle, has_check: false }
    }
}

/// Once released, a wrapper stays released: it names nothing to check, and
/// whatever the native side answers, a further release makes no native
/// call.
pub proof fn lemma_release_is_final(has_check: bool, valid: bool)
    ensures
        validity_target(INVALID_HANDLE, has_check) is None,
        release_target(INVALID_HANDLE, has_check, valid) is None,
{
}

/// A wrapper made by `default` never reaches the native release call, nor
/// the native validity check.
pub proof fn lemma_default_never_releases(w: SmartHandle, valid: bool)
    requires
        w.value() == INVALID_HANDLE,
    ensures
        validity_target(w.value(), w.checked()) is None,
        release_target(w.value(), w.checked(), valid) is None,
{
}

} // verus!
