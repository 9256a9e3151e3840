//! Windows, their flags and their cursors.

use vstd::prelude::*;
use crate::call::NativeCall;
use crate::callback::{EventKind, Registration};
use crate::handle::{Error, Handle, ResourceKind};
use crate::ownership::{adopted, Wrapper};

verus! {

/// A handle to a window.
#[derive(Debug)]
pub struct Window {
    raw: Handle,
    created: bool,
}

impl Window {
    #[verifier::type_invariant]
    spec fn inv(self) -> bool {
        self.created ==> self.raw != Handle::null_value()
    }

    /// The wrapper as plain data.
    pub closed spec fn model(&self) -> Wrapper {
        Wrapper { kind: ResourceKind::Window, handle: self.raw, owns: self.created }
    }

    /// Takes charge of a window that the engine has just created. The
    /// wrapper owns the window, unless the engine gave the null handle.
    pub fn new(raw: Handle) -> (r: Result<Window, Error>)
        ensures
            (match r {
                Ok(w) => Ok(w.model()),
                Err(e) => Err(e),
            }) == adopted(ResourceKind::Window, raw),
    {
        if raw.is_null() {
            Err(Error::HandleUnavailable { kind: ResourceKind::Window })
        } else {
            Ok(Window { raw, created: true })
        }
    }

    /// Wraps the window of an application.
    pub fn from_borrowed(raw: Handle) -> (w: Window)
        ensures
            w.model() == Wrapper::borrowed(ResourceKind::Window, raw),
    {
        Window { raw, created: false }
    }

    /// The wrapper as plain data.
    pub fn describe(&self) -> (w: Wrapper)
        ensures
            w == self.model(),
            w.wf(),
    {
        proof {
            use_type_invariant(self);
        }
        Wrapper { kind: ResourceKind::Window, handle: self.raw, owns: self.created }
    }

    /// The handle, to pass to the engine. The wrapper stays in charge.
    pub fn as_handle(&self) -> (h: Handle)
        ensures
            h == self.model().handle,
    {
        self.raw
    }

    /// Whether this wrapper has to destroy the window.
    pub fn is_owning(&self) -> (b: bool)
        ensures
            b == self.model().owns,
    {
        self.created
    }

    /// Gives the wrapper up for its handle, together with the destroy call
    /// that is still due once the handle has been used.
    #[must_use]
    pub fn into_handle(self) -> (r: (Handle, Option<NativeCall>))
        ensures
            r.0 == self.model().handle,
            r.1 == self.model().release_call(),
    {
        let raw = self.raw;
        (raw, self.release())
    }

    /// Ends the wrapper's life: the destroy call if it owns the window,
    /// nothing if it does not.
    #[must_use]
    pub fn release(self) -> (call: Option<NativeCall>)
        ensures
            call == self.model().release_call(),
    {
        if self.created {
            Some(NativeCall::Destroy { kind: ResourceKind::Window, handle: self.raw })
        } else {
            None
        }
    }

    /// Registers for the resizing of the window. The closure gets the new
    /// width and height in pixels.
    pub fn set_resize_callback(&self, data: usize) -> (r: Registration)
        ensures
            r == (Registration { object: self.model().handle, event: EventKind::Resize, data }),
    {
        Registration { object: self.raw, event: EventKind::Resize, data }
    }

    /// Registers for the closing of the window.
    pub fn set_close_callback(&self, data: usize) -> (r: Registration)
        ensures
            r == (Registration { object: self.model().handle, event: EventKind::Close, data }),
    {
        Registration { object: self.raw, event: EventKind::Close, data }
    }
}

/// A mouse cursor, by the number that the engine gives its kind. The number
/// passes through this crate as it is.
#[derive(Clone, Copy, Debug, PartialEq, Eq, Structural, Hash)]
pub struct Cursor {
    pub code: u32,
}

/// The flags of a window, as the bit mask that the engine takes.
#[derive(Clone, Copy, Debug, PartialEq, Eq, Structural, Hash)]
pub struct WindowFlags {
    pub bits: u32,
}

impl WindowFlags {
    /// Whether the mask is one of the four flags that the engine knows.
    pub open spec fn is_flag(self) -> bool {
        self.bits == 1 || self.bits == 2 || self.bits == 4 || self.bits == 8
    }

    /// No flag.
    pub fn empty() -> (f: WindowFlags)
        ensures
            f.bits == 0,
    {
        WindowFlags { bits: 0 }
    }

    /// The window has no border.
    pub fn borderless() -> (f: WindowFlags)
        ensures
            f.bits == 1,
            f.is_flag(),
    {
        WindowFlags { bits: 1 }
    }

    /// The window has a title bar.
    pub fn titled() -> (f: WindowFlags)
        ensures
            f.bits == 2,
            f.is_flag(),
    {
        WindowFlags { bits: 2 }
    }

    /// The window can be resized.
    pub fn resizable() -> (f: WindowFlags)
        ensures
            f.bits == 4,
            f.is_flag(),
    {
        WindowFlags { bits: 4 }
    }

    /// The window can be maximized.
    pub fn maximizable() -> (f: WindowFlags)
        ensures
            f.bits == 8,
            f.is_flag(),
    {
        WindowFlags { bits: 8 }
    }

    /// The mask as the number that the engine takes.
    pub fn bits(&self) -> (bits: u32)
        ensures
            bits == self.bits,
    {
        self.bits
    }

    /// The flags of either mask.
    pub fn bitor(self, other: WindowFlags) -> (f: WindowFlags)
        ensures
            f.bits == self.bits | other.bits,
    {
        WindowFlags { bits: self.bits | other.bits }
    }

    /// The flags of both masks.
    pub fn bitand(self, other: WindowFlags) -> (f: WindowFlags)
        ensures
            f.bits == self.bits & other.bits,
    {
        WindowFlags { bits: self.bits & other.bits }
    }

    /// Whether every flag of `other` is in this mask.
    pub fn contains(&self, other: WindowFlags) -> (b: bool)
        ensures
            b == (self.bits & other.bits == other.bits),
    {
        self.bits & other.bits == other.bits
    }
}

/// A combination of two masks holds each of the two: tested with either, it
/// gives that one back.
pub proof fn law_combination_holds_both(a: WindowFlags, b: WindowFlags)
    ensures
        (a.bits | b.bits) & a.bits == a.bits,
        (a.bits | b.bits) & b.bits == b.bits,
{
    let x = a.bits;
    let y = b.bits;
    assert((x | y) & x == x && (x | y) & y == y) by (bit_vector);
}

/// A combination of two flags holds those two flags and no other: tested
/// with a flag, it gives the flag back if it is one of the two, and nothing
/// if it is not.
pub proof fn law_combination_decomposes(a: WindowFlags, b: WindowFlags, flag: WindowFlags)
    requires
        a.is_flag(),
        b.is_flag(),
        flag.is_flag(),
    ensures
        (flag == a || flag == b) ==> (a.bits | b.bits) & flag.bits == flag.bits,
        !(flag == a || flag == b) ==> (a.bits | b.bits) & flag.bits == 0,
{
    let x = a.bits;
    let y = b.bits;
    let z = flag.bits;
    assert((x == 1 || x == 2 || x == 4 || x == 8) && (y == 1 || y == 2 || y == 4 || y == 8) && (z
        == 1 || z == 2 || z == 4 || z == 8) ==> ((z == x || z == y) ==> (x | y) & z == z) && (!(z
        == x || z == y) ==> (x | y) & z == 0)) by (bit_vector);
}

} // verus!
