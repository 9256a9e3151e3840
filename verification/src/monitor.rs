//! Monitors.

use vstd::prelude::*;
use crate::call::NativeCall;
use crate::handle::{Handle, ResourceKind};
use crate::ownership::Wrapper;

verus! {

/// A handle to a monitor. Monitors are the application's; the engine has no
/// call that destroys one.
#[derive(Debug)]
pub struct Monitor {
    raw: Handle,
}

impl Monitor {
    /// The wrapper as plain data. It never owns its handle.
    pub closed spec fn model(&self) -> Wrapper {
        Wrapper { kind: ResourceKind::Monitor, handle: self.raw, owns: false }
    }

    /// Wraps a monitor of the application.
    pub fn from_borrowed(raw: Handle) -> (w: Monitor)
        ensures
            w.model() == Wrapper::borrowed(ResourceKind::Monitor, raw),
    {
        Monitor { raw }
    }

    /// The wrapper as plain data.
    pub fn describe(&self) -> (w: Wrapper)
        ensures
            w == self.model(),
            w.wf(),
            !w.owns,
    {
        Wrapper { kind: ResourceKind::Monitor, handle: self.raw, owns: false }
    }

    /// The handle, to pass to the engine.
    pub fn as_handle(&self) -> (h: Handle)
        ensures
            h == self.model().handle,
    {
        self.raw
    }

    /// Ends the wrapper's life. There is never a call to make: the monitor is
    /// not the wrapper's to destroy.
    #[must_use]
    pub fn release(self) -> (call: Option<NativeCall>)
        ensures
            call == self.model().release_call(),
            call is None,
    {
        None
    }
}

} // verus!
