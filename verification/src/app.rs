//! The application: the engine's run loop with its window and renderer.

use vstd::prelude::*;
use crate::call::NativeCall;
use crate::callback::{EventKind, Registration};
use crate::handle::{Error, Handle, ResourceKind};
use crate::monitor::Monitor;
use crate::ownership::{adopted, Wrapper};
use crate::renderer::Renderer;
use crate::window::Window;

verus! {

/// A handle to the application. There is one per process, and its wrapper
/// always owns it: the engine gives out no application but the one it has
/// just created.
#[derive(Debug)]
pub struct App {
    raw: Handle,
}

impl App {
    #[verifier::type_invariant]
    spec fn inv(self) -> bool {
        self.raw != Handle::null_value()
    }

    /// The wrapper as plain data. It always owns its handle.
    pub closed spec fn model(&self) -> Wrapper {
        Wrapper { kind: ResourceKind::App, handle: self.raw, owns: true }
    }

    /// Takes charge of the application that the engine has just created. The
    /// wrapper owns the application, unless the engine gave the null handle.
    pub fn new(raw: Handle) -> (r: Result<App, Error>)
        ensures
            (match r {
                Ok(w) => Ok(w.model()),
                Err(e) => Err(e),
            }) == adopted(ResourceKind::App, raw),
    {
        if raw.is_null() {
            Err(Error::HandleUnavailable { kind: ResourceKind::App })
        } else {
            Ok(App { raw })
        }
    }

    /// The wrapper as plain data.
    pub fn describe(&self) -> (w: Wrapper)
        ensures
            w == self.model(),
            w.wf(),
            w.owns,
    {
        proof {
            use_type_invariant(self);
        }
        Wrapper { kind: ResourceKind::App, handle: self.raw, owns: true }
    }

    /// The handle, to pass to the engine. The wrapper stays in charge.
    pub fn as_handle(&self) -> (h: Handle)
        ensures
            h == self.model().handle,
    {
        self.raw
    }

    /// Ends the wrapper's life. There is always a call to make: the one that
    /// destroys the application.
    #[must_use]
    pub fn release(self) -> (call: Option<NativeCall>)
        ensures
            call == self.model().release_call(),
            call == Some(NativeCall::Destroy { kind: ResourceKind::App, handle: self.model().handle }),
    {
        Some(NativeCall::Destroy { kind: ResourceKind::App, handle: self.raw })
    }

    /// The main monitor, from the handle that the engine reports for it. The
    /// monitor stays the application's.
    pub fn main_monitor(&self, raw: Handle) -> (m: Monitor)
        ensures
            m.model() == Wrapper::borrowed(ResourceKind::Monitor, raw),
    {
        Monitor::from_borrowed(raw)
    }

    /// The renderer of the application, from the handle that the engine
    /// reports for it. The renderer stays the application's.
    pub fn renderer(&self, raw: Handle) -> (r: Renderer)
        ensures
            r.model() == Wrapper::borrowed(ResourceKind::Renderer, raw),
    {
        Renderer::from_borrowed(raw)
    }

    /// The main window, from the handle that the engine reports for it:
    /// none where the engine reports the null handle, because no window was
    /// set. The window stays its owner's.
    pub fn window(&self, raw: Handle) -> (w: Option<Window>)
        ensures
            w is None <==> raw == Handle::null_value(),
            w matches Some(window) ==> window.model() == Wrapper::borrowed(
                ResourceKind::Window,
                raw,
            ),
    {
        if raw.is_null() {
            None
        } else {
            Some(Window::from_borrowed(raw))
        }
    }

    /// Registers for the moment before each update and render of the run
    /// loop: the place for the application's own logic.
    pub fn set_update_callback(&self, data: usize) -> (r: Registration)
        ensures
            r == (Registration { object: self.model().handle, event: EventKind::Update, data }),
    {
        Registration { object: self.raw, event: EventKind::Update, data }
    }
}

} // verus!
