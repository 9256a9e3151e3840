//! The renderer, under which views, sessions and bitmaps live.

use vstd::prelude::*;
use crate::call::NativeCall;
use crate::handle::{Error, Handle, ResourceKind};
use crate::ownership::{adopted, Wrapper};

verus! {

/// A handle to the renderer.
///
/// A renderer that was created directly belongs to its wrapper. The renderer
/// of an application belongs to the application.
#[derive(Debug)]
pub struct Renderer {
    raw: Handle,
    created: bool,
}

impl Renderer {
    #[verifier::type_invariant]
    spec fn inv(self) -> bool {
        self.created ==> self.raw != Handle::null_value()
    }

    /// The wrapper as plain data.
    pub closed spec fn model(&self) -> Wrapper {
        Wrapper { kind: ResourceKind::Renderer, handle: self.raw, owns: self.created }
    }

    /// Takes charge of a renderer that the engine has just created. The
    /// wrapper owns the renderer, unless the engine gave the null handle.
    pub fn new(raw: Handle) -> (r: Result<Renderer, Error>)
        ensures
            (match r {
                Ok(w) => Ok(w.model()),
                Err(e) => Err(e),
            }) == adopted(ResourceKind::Renderer, raw),
    {
        if raw.is_null() {
            Err(Error::HandleUnavailable { kind: ResourceKind::Renderer })
        } else {
            Ok(Renderer { raw, created: true })
        }
    }

    /// Wraps the renderer of an application.
    pub fn from_borrowed(raw: Handle) -> (w: Renderer)
        ensures
            w.model() == Wrapper::borrowed(ResourceKind::Renderer, raw),
    {
        Renderer { raw, created: false }
    }

    /// The wrapper as plain data.
    pub fn describe(&self) -> (w: Wrapper)
        ensures
            w == self.model(),
            w.wf(),
    {
        proof {
            use_type_invariant(self);
        }
        Wrapper { kind: ResourceKind::Renderer, handle: self.raw, owns: self.created }
    }

    /// The handle, to pass to the engine. The wrapper stays in charge.
    pub fn as_handle(&self) -> (h: Handle)
        ensures
            h == self.model().handle,
    {
        self.raw
    }

    /// Whether this wrapper has to destroy the renderer.
    pub fn is_owning(&self) -> (b: bool)
        ensures
            b == self.model().owns,
    {
        self.created
    }

    /// Gives the wrapper up for its handle, together with the destroy call
    /// that is still due once the handle has been used.
    #[must_use]
    pub fn into_handle(self) -> (r: (Handle, Option<NativeCall>))
        ensures
            r.0 == self.model().handle,
            r.1 == self.model().release_call(),
    {
        let raw = self.raw;
        (raw, self.release())
    }

    /// Ends the wrapper's life: the destroy call if it owns the renderer,
    /// nothing if it does not.
    #[must_use]
    pub fn release(self) -> (call: Option<NativeCall>)
        ensures
            call == self.model().release_call(),
    {
        if self.created {
            Some(NativeCall::Destroy { kind: ResourceKind::Renderer, handle: self.raw })
        } else {
            None
        }
    }
}

} // verus!
