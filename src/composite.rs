//! Native objects that own a handle and a property bag fetched from it.
use vstd::prelude::*;
use crate::handle::{Handle, SmartHandle, INVALID_HANDLE};
use crate::properties::{Backing, Properties, PropertyBag};

verus! {

/// A native object (a recognizer, an audio configuration, ...) with the
/// property bag that the native library scopes to it. Its property
/// operations go to that bag; releasing the object touches only its own
/// handle, since the native side ties the bag's lifetime to its parent.
pub struct PropertyObject {
    handle: SmartHandle,
    props: Properties,
}

impl PropertyObject {
    /// The owning wrapper of the object's own handle.
    pub closed spec fn wrapper(&self) -> SmartHandle {
        self.handle
    }

    /// The object's property bag.
    pub closed spec fn bag(&self) -> Properties {
        self.props
    }

    /// Puts an object's handle together with the bag fetched from it.
    pub fn new(handle: SmartHandle, props: Properties) -> (r: Self)
        ensures
            r.wrapper() == handle,
            r.bag() == props,
    {
        PropertyObject { handle, props }
    }

    /// The object's property bag.
    pub fn properties(&self) -> (r: &Properties)
        ensures
            *r == self.bag(),
    {
        &self.props
    }

    /// The handle to ask the native validity check about before
    /// [`PropertyObject::release`], if any.
    pub fn validity_query(&self) -> (r: Option<usize>)
        ensures
            r == crate::handle::validity_target(self.wrapper().value(), self.wrapper().checked()),
    {
        self.handle.validity_query()
    }

    /// Releases the object's own handle, given the native validity answer;
    /// returns the handle to pass to the native release call, if any. The
    /// bag is left as it is.
    pub fn release(&mut self, valid: bool) -> (r: Option<usize>)
        ensures
            r == crate::handle::release_target(
                old(self).wrapper().value(),
                old(self).wrapper().checked(),
                valid,
            ),
            final(self).wrapper().value() == INVALID_HANDLE,
            final(self).wrapper().checked() == old(self).wrapper().checked(),
            final(self).bag() == old(self).bag(),
    {
        self.handle.release(valid)
    }

    /// The bag handle to ask the native validity check about before
    /// [`PropertyObject::release_bag`], if any.
    pub fn bag_validity_query(&self) -> (r: Option<usize>)
        ensures
            r == crate::handle::validity_target(
                self.bag().wrapper().value(),
                self.bag().wrapper().checked(),
            ),
    {
        self.props.validity_query()
    }

    /// Releases the object's bag, given the native validity answer; returns
    /// the handle to pass to the native release call, if any. The object's
    /// own handle is left as it is.
    pub fn release_bag(&mut self, valid: bool) -> (r: Option<usize>)
        ensures
            r == crate::handle::release_target(
                old(self).bag().wrapper().value(),
                old(self).bag().wrapper().checked(),
                valid,
            ),
            final(self).bag().wrapper().value() == INVALID_HANDLE,
            final(self).bag().wrapper().checked() == old(self).bag().wrapper().checked(),
            final(self).wrapper() == old(self).wrapper(),
    {
        self.props.release(valid)
    }
}

impl Handle<usize> for PropertyObject {
    open spec fn raw(&self) -> usize {
        self.wrapper().value()
    }

    fn handle(&self) -> (r: usize) {
        self.handle.handle()
    }
}

impl PropertyBag for PropertyObject {
    open spec fn backing(&self) -> Backing {
        self.bag().backing()
    }

    fn current_backing(&self) -> (r: Backing) {
        self.props.current_backing()
    }
}

} // verus!
