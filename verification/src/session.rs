//! Sessions: where views keep cookies and local data.

use vstd::prelude::*;
use crate::call::NativeCall;
use crate::handle::{Error, Handle, ResourceKind};
use crate::ownership::{adopted, Wrapper};
use crate::string::ULString;

verus! {

/// A handle to a session: the store of cookies and local data that views
/// refer to. A view does not own its session.
#[derive(Debug)]
pub struct Session {
    raw: Handle,
    created: bool,
}

impl Session {
    #[verifier::type_invariant]
    spec fn inv(self) -> bool {
        self.created ==> self.raw != Handle::null_value()
    }

    /// The wrapper as plain data.
    pub closed spec fn model(&self) -> Wrapper {
        Wrapper { kind: ResourceKind::Session, handle: self.raw, owns: self.created }
    }

    /// Takes charge of a session that the engine has just created. The
    /// wrapper owns the session, unless the engine gave the null handle.
    pub fn new(raw: Handle) -> (r: Result<Session, Error>)
        ensures
            (match r {
                Ok(w) => Ok(w.model()),
                Err(e) => Err(e),
            }) == adopted(ResourceKind::Session, raw),
    {
        if raw.is_null() {
            Err(Error::HandleUnavailable { kind: ResourceKind::Session })
        } else {
            Ok(Session { raw, created: true })
        }
    }

    /// Wraps a session that belongs to the engine or to another wrapper.
    pub fn from_borrowed(raw: Handle) -> (w: Session)
        ensures
            w.model() == Wrapper::borrowed(ResourceKind::Session, raw),
    {
        Session { raw, created: false }
    }

    /// The wrapper as plain data.
    pub fn describe(&self) -> (w: Wrapper)
        ensures
            w == self.model(),
            w.wf(),
    {
        proof {
            use_type_invariant(self);
        }
        Wrapper { kind: ResourceKind::Session, handle: self.raw, owns: self.created }
    }

    /// The handle, to pass to the engine. The wrapper stays in charge.
    pub fn as_handle(&self) -> (h: Handle)
        ensures
            h == self.model().handle,
    {
        self.raw
    }

    /// Whether this wrapper has to destroy the session.
    pub fn is_owning(&self) -> (b: bool)
        ensures
            b == self.model().owns,
    {
        self.created
    }

    /// Gives the wrapper up for its handle, together with the destroy call
    /// that is still due once the handle has been used.
    #[must_use]
    pub fn into_handle(self) -> (r: (Handle, Option<NativeCall>))
        ensures
            r.0 == self.model().handle,
            r.1 == self.model().release_call(),
    {
        let raw = self.raw;
        (raw, self.release())
    }

    /// Ends the wrapper's life: the destroy call if it owns the session,
    /// nothing if it does not.
    #[must_use]
    pub fn release(self) -> (call: Option<NativeCall>)
        ensures
            call == self.model().release_call(),
    {
        if self.created {
            Some(NativeCall::Destroy { kind: ResourceKind::Session, handle: self.raw })
        } else {
            None
        }
    }

    /// Wraps the default session of a renderer, from the handle that the
    /// engine reports for it. The default session is the renderer's.
    pub fn default(raw: Handle) -> (w: Session)
        ensures
            w.model() == Wrapper::borrowed(ResourceKind::Session, raw),
    {
        Session::from_borrowed(raw)
    }

    /// The name of the session, from the handle that the engine reports for
    /// it. The string stays the session's.
    pub fn name(&self, raw: Handle) -> (s: ULString)
        ensures
            s.model() == Wrapper::borrowed(ResourceKind::String, raw),
    {
        ULString::from_borrowed(raw)
    }

    /// The path on disk of the session, from the handle that the engine
    /// reports for it. The string stays the session's.
    pub fn disk_path(&self, raw: Handle) -> (s: ULString)
        ensures
            s.model() == Wrapper::borrowed(ResourceKind::String, raw),
    {
        ULString::from_borrowed(raw)
    }
}

} // verus!
