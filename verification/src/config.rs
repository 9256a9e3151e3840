//! Configurations of the renderer.

use vstd::prelude::*;
use crate::call::NativeCall;
use crate::handle::{Error, Handle, ResourceKind};
use crate::ownership::{adopted, Wrapper};

verus! {

/// A handle to a configuration of the renderer.
#[derive(Debug)]
pub struct Config {
    raw: Handle,
    created: bool,
}

impl Config {
    #[verifier::type_invariant]
    spec fn inv(self) -> bool {
        self.created ==> self.raw != Handle::null_value()
    }

    /// The wrapper as plain data.
    pub closed spec fn model(&self) -> Wrapper {
        Wrapper { kind: ResourceKind::Config, handle: self.raw, owns: self.created }
    }

    /// Takes charge of a configuration that the engine has just created. The
    /// wrapper owns the configuration, unless the engine gave the null handle.
    pub fn new(raw: Handle) -> (r: Result<Config, Error>)
        ensures
            (match r {
                Ok(w) => Ok(w.model()),
                Err(e) => Err(e),
            }) == adopted(ResourceKind::Config, raw),
    {
        if raw.is_null() {
            Err(Error::HandleUnavailable { kind: ResourceKind::Config })
        } else {
            Ok(Config { raw, created: true })
        }
    }

    /// Wraps a configuration that belongs to another wrapper.
    pub fn from_borrowed(raw: Handle) -> (w: Config)
        ensures
            w.model() == Wrapper::borrowed(ResourceKind::Config, raw),
    {
        Config { raw, created: false }
    }

    /// The wrapper as plain data.
    pub fn describe(&self) -> (w: Wrapper)
        ensures
            w == self.model(),
            w.wf(),
    {
        proof {
            use_type_invariant(self);
        }
        Wrapper { kind: ResourceKind::Config, handle: self.raw, owns: self.created }
    }

    /// The handle, to pass to the engine. The wrapper stays in charge.
    pub fn as_handle(&self) -> (h: Handle)
        ensures
            h == self.model().handle,
    {
        self.raw
    }

    /// Whether this wrapper has to destroy the configuration.
    pub fn is_owning(&self) -> (b: bool)
        ensures
            b == self.model().owns,
    {
        self.created
    }

    /// Gives the wrapper up for its handle, together with the destroy call
    /// that is still due once the handle has been used.
    #[must_use]
    pub fn into_handle(self) -> (r: (Handle, Option<NativeCall>))
        ensures
            r.0 == self.model().handle,
            r.1 == self.model().release_call(),
    {
        let raw = self.raw;
        (raw, self.release())
    }

    /// Ends the wrapper's life: the destroy call if it owns the configuration,
    /// nothing if it does not.
    #[must_use]
    pub fn release(self) -> (call: Option<NativeCall>)
        ensures
            call == self.model().release_call(),
    {
        if self.created {
            Some(NativeCall::Destroy { kind: ResourceKind::Config, handle: self.raw })
        } else {
            None
        }
    }

    /// The call that asks the engine for a copy of the configuration.
    pub fn copy_call(&self) -> (call: NativeCall)
        ensures
            call == self.model().copy_call(),
    {
        NativeCall::Copy { kind: ResourceKind::Config, source: self.raw }
    }

    /// Takes charge of the copy with whose handle the engine answered
    /// [`Config::copy_call`]. The copy belongs to its wrapper whether or not the
    /// source belongs to this one. A null handle is no copy, and neither is
    /// the handle of the source.
    pub fn adopt_copy(&self, copy: Handle) -> (r: Result<Config, Error>)
        ensures
            (match r {
                Ok(c) => Ok(c.model()),
                Err(e) => Err(e),
            }) == self.model().copied(copy),
    {
        if copy.is_null() || copy == self.raw {
            Err(Error::HandleUnavailable { kind: ResourceKind::Config })
        } else {
            Ok(Config { raw: copy, created: true })
        }
    }
}

} // verus!
