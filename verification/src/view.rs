//! Views: the pages that the engine renders.

use vstd::prelude::*;
use crate::call::NativeCall;
use crate::callback::{EventKind, Registration};
use crate::handle::{Error, Handle, ResourceKind};
use crate::ownership::{adopted, Wrapper};
use crate::string::ULString;

verus! {

/// A handle to a view.
///
/// A view that was created through the renderer belongs to its wrapper. A
/// view that an overlay gave out, or that the engine names in an event,
/// belongs to the overlay or the engine: its wrapper must not outlive the
/// owner, and nothing can check that it does not.
#[derive(Debug)]
pub struct View {
    raw: Handle,
    created: bool,
}

impl View {
    #[verifier::type_invariant]
    spec fn inv(self) -> bool {
        self.created ==> self.raw != Handle::null_value()
    }

    /// The wrapper as plain data.
    pub closed spec fn model(&self) -> Wrapper {
        Wrapper { kind: ResourceKind::View, handle: self.raw, owns: self.created }
    }

    /// Takes charge of a view that the engine has just created. The wrapper
    /// owns the view, unless the engine gave the null handle.
    pub fn new(raw: Handle) -> (r: Result<View, Error>)
        ensures
            (match r {
                Ok(v) => Ok(v.model()),
                Err(e) => Err(e),
            }) == adopted(ResourceKind::View, raw),
    {
        if raw.is_null() {
            Err(Error::HandleUnavailable { kind: ResourceKind::View })
        } else {
            Ok(View { raw, created: true })
        }
    }

    /// The wrapper that [`View::from_borrowed`] makes of `raw`.
    pub closed spec fn borrowing(raw: Handle) -> View {
        View { raw, created: false }
    }

    /// The wrapper that [`View::borrowing`] names does not own its handle.
    pub proof fn lemma_borrowing(raw: Handle)
        ensures
            View::borrowing(raw).model() == Wrapper::borrowed(ResourceKind::View, raw),
    {
    }

    /// Wraps a view that belongs to an overlay or to the engine.
    pub fn from_borrowed(raw: Handle) -> (v: View)
        ensures
            v == View::borrowing(raw),
            v.model() == Wrapper::borrowed(ResourceKind::View, raw),
    {
        View { raw, created: false }
    }

    /// The wrapper as plain data.
    pub fn describe(&self) -> (w: Wrapper)
        ensures
            w == self.model(),
            w.wf(),
    {
        proof {
            use_type_invariant(self);
        }
        Wrapper { kind: ResourceKind::View, handle: self.raw, owns: self.created }
    }

    /// The handle, to pass to the engine. The wrapper stays in charge.
    pub fn as_handle(&self) -> (h: Handle)
        ensures
            h == self.model().handle,
    {
        self.raw
    }

    /// Whether this wrapper has to destroy the view.
    pub fn is_owning(&self) -> (b: bool)
        ensures
            b == self.model().owns,
    {
        self.created
    }

    /// Gives the wrapper up for its handle, together with the destroy call
    /// that is still due once the handle has been used.
    #[must_use]
    pub fn into_handle(self) -> (r: (Handle, Option<NativeCall>))
        ensures
            r.0 == self.model().handle,
            r.1 == self.model().release_call(),
    {
        let raw = self.raw;
        (raw, self.release())
    }

    /// Ends the wrapper's life: the destroy call if it owns the view, nothing
    /// if it does not.
    #[must_use]
    pub fn release(self) -> (call: Option<NativeCall>)
        ensures
            call == self.model().release_call(),
    {
        if self.created {
            Some(NativeCall::Destroy { kind: ResourceKind::View, handle: self.raw })
        } else {
            None
        }
    }

    /// The title of the page, from the handle that the engine reports for it.
    /// The string stays the view's.
    pub fn title(&self, raw: Handle) -> (s: ULString)
        ensures
            s.model() == Wrapper::borrowed(ResourceKind::String, raw),
    {
        ULString::from_borrowed(raw)
    }

    /// The address of the page, from the handle that the engine reports for
    /// it. The string stays the view's.
    pub fn url(&self, raw: Handle) -> (s: ULString)
        ensures
            s.model() == Wrapper::borrowed(ResourceKind::String, raw),
    {
        ULString::from_borrowed(raw)
    }

    /// Takes charge of the inspector view that the engine has just created
    /// for this view. Unlike a view that an overlay gives out, the inspector
    /// is the caller's to destroy.
    pub fn create_inspector_view(&self, raw: Handle) -> (r: Result<View, Error>)
        ensures
            (match r {
                Ok(v) => Ok(v.model()),
                Err(e) => Err(e),
            }) == adopted(ResourceKind::View, raw),
    {
        View::new(raw)
    }

    /// Holds the script context `ctx` that the engine has just locked for
    /// this view. The guard says what unlocks it.
    pub fn lock_js_ctx(&self, ctx: Handle) -> (guard: JSCtxGuard<'_>)
        ensures
            guard.context() == ctx,
            guard.locked() == self.model().handle,
    {
        JSCtxGuard { ctx, view: self }
    }

    /// The registration of the closure behind `data` for `event` on this view.
    fn registration(&self, event: EventKind, data: usize) -> (r: Registration)
        ensures
            r == (Registration { object: self.model().handle, event, data }),
    {
        Registration { object: self.raw, event, data }
    }

    /// Registers for the end of loading an address into a frame.
    pub fn on_finish_loading(&self, data: usize) -> (r: Registration)
        ensures
            r == (Registration { object: self.model().handle, event: EventKind::FinishLoading, data }),
    {
        self.registration(EventKind::FinishLoading, data)
    }

    /// Registers for the moment when the document is parsed and its scripts
    /// have run: the time to call into scripts that need the page.
    pub fn on_dom_ready(&self, data: usize) -> (r: Registration)
        ensures
            r == (Registration { object: self.model().handle, event: EventKind::DomReady, data }),
    {
        self.registration(EventKind::DomReady, data)
    }

    /// Registers for the start of loading an address into a frame.
    pub fn on_begin_loading(&self, data: usize) -> (r: Registration)
        ensures
            r == (Registration { object: self.model().handle, event: EventKind::BeginLoading, data }),
    {
        self.registration(EventKind::BeginLoading, data)
    }

    /// Registers for changes of the page's title.
    pub fn on_change_title(&self, data: usize) -> (r: Registration)
        ensures
            r == (Registration { object: self.model().handle, event: EventKind::ChangeTitle, data }),
    {
        self.registration(EventKind::ChangeTitle, data)
    }

    /// Registers for changes of the mouse cursor.
    pub fn on_change_cursor(&self, data: usize) -> (r: Registration)
        ensures
            r == (Registration { object: self.model().handle, event: EventKind::ChangeCursor, data }),
    {
        self.registration(EventKind::ChangeCursor, data)
    }

    /// Registers for changes of the page's address.
    pub fn on_change_url(&self, data: usize) -> (r: Registration)
        ensures
            r == (Registration { object: self.model().handle, event: EventKind::ChangeUrl, data }),
    {
        self.registration(EventKind::ChangeUrl, data)
    }

    /// Registers for changes of the tooltip.
    pub fn on_change_tooltip(&self, data: usize) -> (r: Registration)
        ensures
            r == (Registration { object: self.model().handle, event: EventKind::ChangeTooltip, data }),
    {
        self.registration(EventKind::ChangeTooltip, data)
    }

    /// Registers for the reset of the script global for a new page: the
    /// earliest time to set up script state, before any script of the page
    /// has run.
    pub fn on_window_ready(&self, data: usize) -> (r: Registration)
        ensures
            r == (Registration { object: self.model().handle, event: EventKind::WindowObjectReady, data }),
    {
        self.registration(EventKind::WindowObjectReady, data)
    }

    /// Registers for the page's requests for a new view.
    pub fn on_create_child_view(&self, data: usize) -> (r: Registration)
        ensures
            r == (Registration { object: self.model().handle, event: EventKind::CreateChildView, data }),
    {
        self.registration(EventKind::CreateChildView, data)
    }

    /// Registers for failures to load an address into a frame.
    pub fn on_fail_loading(&self, data: usize) -> (r: Registration)
        ensures
            r == (Registration { object: self.model().handle, event: EventKind::FailLoading, data }),
    {
        self.registration(EventKind::FailLoading, data)
    }

    /// Registers for changes of the back and forward history.
    pub fn on_update_history(&self, data: usize) -> (r: Registration)
        ensures
            r == (Registration { object: self.model().handle, event: EventKind::UpdateHistory, data }),
    {
        self.registration(EventKind::UpdateHistory, data)
    }

    /// Registers the forwarder of console messages, which needs no closure:
    /// its user data is the null word.
    pub fn enable_default_logger(&self) -> (r: Registration)
        ensures
            r == (Registration {
                object: self.model().handle,
                event: EventKind::AddConsoleMessage,
                data: 0,
            }),
    {
        self.registration(EventKind::AddConsoleMessage, 0)
    }
}

/// A rectangle in pixels, by its edges.
#[derive(Clone, Copy, Debug, PartialEq, Eq, Structural)]
pub struct IntRect {
    pub left: i32,
    pub top: i32,
    pub right: i32,
    pub bottom: i32,
}

/// A locked script context. While the guard lives the context may be used;
/// giving the guard up says what unlocks it.
#[derive(Debug)]
pub struct JSCtxGuard<'a> {
    ctx: Handle,
    view: &'a View,
}

impl<'a> JSCtxGuard<'a> {
    /// The locked context, as a specification value.
    pub closed spec fn context(&self) -> Handle {
        self.ctx
    }

    /// The locked context, to pass to the engine's script functions.
    pub fn ctx(&self) -> (h: Handle)
        ensures
            h == self.context(),
    {
        self.ctx
    }

    /// The handle of the view whose context is locked.
    pub closed spec fn locked(&self) -> Handle {
        self.view.model().handle
    }

    /// Ends the guard's life: the call that unlocks the context.
    #[must_use]
    pub fn release(self) -> (call: NativeCall)
        ensures
            call == (NativeCall::UnlockJsContext { view: self.locked() }),
    {
        NativeCall::UnlockJsContext { view: self.view.as_handle() }
    }
}

} // verus!
