//! Overlays: views placed in a window.

use vstd::prelude::*;
use crate::call::NativeCall;
use crate::handle::{Error, Handle, ResourceKind};
use crate::ownership::{adopted, Wrapper};
use crate::view::View;

verus! {

/// A handle to an overlay: a view together with its place in a window.
#[derive(Debug)]
pub struct Overlay {
    raw: Handle,
    created: bool,
}

impl Overlay {
    #[verifier::type_invariant]
    spec fn inv(self) -> bool {
        self.created ==> self.raw != Handle::null_value()
    }

    /// The wrapper as plain data.
    pub closed spec fn model(&self) -> Wrapper {
        Wrapper { kind: ResourceKind::Overlay, handle: self.raw, owns: self.created }
    }

    /// Takes charge of an overlay that the engine has just created. The
    /// wrapper owns the overlay, unless the engine gave the null handle.
    pub fn new(raw: Handle) -> (r: Result<Overlay, Error>)
        ensures
            (match r {
                Ok(w) => Ok(w.model()),
                Err(e) => Err(e),
            }) == adopted(ResourceKind::Overlay, raw),
    {
        if raw.is_null() {
            Err(Error::HandleUnavailable { kind: ResourceKind::Overlay })
        } else {
            Ok(Overlay { raw, created: true })
        }
    }

    /// Wraps an overlay that belongs to another wrapper.
    pub fn from_borrowed(raw: Handle) -> (w: Overlay)
        ensures
            w.model() == Wrapper::borrowed(ResourceKind::Overlay, raw),
    {
        Overlay { raw, created: false }
    }

    /// The wrapper as plain data.
    pub fn describe(&self) -> (w: Wrapper)
        ensures
            w == self.model(),
            w.wf(),
    {
        proof {
            use_type_invariant(self);
        }
        Wrapper { kind: ResourceKind::Overlay, handle: self.raw, owns: self.created }
    }

    /// The handle, to pass to the engine. The wrapper stays in charge.
    pub fn as_handle(&self) -> (h: Handle)
        ensures
            h == self.model().handle,
    {
        self.raw
    }

    /// Whether this wrapper has to destroy the overlay.
    pub fn is_owning(&self) -> (b: bool)
        ensures
            b == self.model().owns,
    {
        self.created
    }

    /// Gives the wrapper up for its handle, together with the destroy call
    /// that is still due once the handle has been used.
    #[must_use]
    pub fn into_handle(self) -> (r: (Handle, Option<NativeCall>))
        ensures
            r.0 == self.model().handle,
            r.1 == self.model().release_call(),
    {
        let raw = self.raw;
        (raw, self.release())
    }

    /// Ends the wrapper's life: the destroy call if it owns the overlay,
    /// nothing if it does not.
    #[must_use]
    pub fn release(self) -> (call: Option<NativeCall>)
        ensures
            call == self.model().release_call(),
    {
        if self.created {
            Some(NativeCall::Destroy { kind: ResourceKind::Overlay, handle: self.raw })
        } else {
            None
        }
    }

    /// The view of the overlay, from the handle that the engine reports for
    /// it. The view stays the overlay's: its wrapper must not be used once
    /// the overlay is gone.
    pub fn view(&self, raw: Handle) -> (v: View)
        ensures
            v.model() == Wrapper::borrowed(ResourceKind::View, raw),
    {
        View::from_borrowed(raw)
    }
}

} // verus!
