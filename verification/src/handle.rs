//! Handles, the kinds of resource they stand for, and the errors of this crate.
//!
//! A handle is an opaque, pointer-sized identifier that the engine issues. It
//! means something only to the engine functions of the resource kind it was
//! issued for; this crate never looks behind it.

use vstd::prelude::*;

verus! {

/// An opaque identifier of an engine resource. The address `0` is the null
/// handle, which the engine returns where it has no resource to give.
#[derive(Clone, Copy, Debug, PartialEq, Eq, Structural, Hash)]
pub struct Handle {
    pub addr: usize,
}

impl Handle {
    /// The null handle, as a specification value.
    pub open spec fn null_value() -> Handle {
        Handle { addr: 0 }
    }

    /// The handle with the given address.
    pub fn new(addr: usize) -> (h: Handle)
        ensures
            h == (Handle { addr }),
    {
        Handle { addr }
    }

    /// The null handle.
    pub fn null() -> (h: Handle)
        ensures
            h == Handle::null_value(),
    {
        Handle { addr: 0 }
    }

    /// Whether this is the null handle.
    pub fn is_null(&self) -> (b: bool)
        ensures
            b == (*self == Handle::null_value()),
    {
        self.addr == 0
    }

    /// The address behind the handle, to hand back to the engine.
    pub fn addr(&self) -> (a: usize)
        ensures
            a == self.addr,
    {
        self.addr
    }
}

/// The kinds of engine resource that this crate wraps.
#[derive(Clone, Copy, Debug, PartialEq, Eq, Structural, Hash)]
pub enum ResourceKind {
    Config,
    Settings,
    App,
    Window,
    Monitor,
    Overlay,
    View,
    Renderer,
    Session,
    Bitmap,
    Surface,
    String,
}

impl ResourceKind {
    /// Whether the engine has a destroy function for this kind. A monitor and
    /// a surface live and die with the resource they were obtained from.
    pub open spec fn destructible(self) -> bool {
        !(self is Monitor || self is Surface)
    }

    /// Whether the engine can copy a resource of this kind into a new one.
    pub open spec fn copyable(self) -> bool {
        self is Config || self is Bitmap
    }

    /// Whether the engine has a destroy function for this kind.
    pub fn has_destroy(&self) -> (b: bool)
        ensures
            b == self.destructible(),
    {
        match self {
            ResourceKind::Monitor | ResourceKind::Surface => false,
            _ => true,
        }
    }

    /// Whether the engine can copy a resource of this kind into a new one.
    pub fn has_copy(&self) -> (b: bool)
        ensures
            b == self.copyable(),
    {
        match self {
            ResourceKind::Config | ResourceKind::Bitmap => true,
            _ => false,
        }
    }
}

/// What can go wrong at the boundary with the engine.
#[derive(Clone, Copy, Debug, PartialEq, Eq, Structural)]
pub enum Error {
    /// A creation call came back with the null handle.
    HandleUnavailable { kind: ResourceKind },
    /// The code units of an engine string are not well-formed UTF-16.
    Encoding,
}

impl Error {
    /// The error in words, as a specification value.
    pub open spec fn message_of(self) -> Seq<char> {
        match self {
            Error::HandleUnavailable { .. } => "the engine gave no handle"@,
            Error::Encoding => "the text of an engine string is not well-formed"@,
        }
    }

    /// The error in words.
    pub fn message(&self) -> (text: &'static str)
        ensures
            text@ == self.message_of(),
    {
        match self {
            Error::HandleUnavailable { .. } => "the engine gave no handle",
            Error::Encoding => "the text of an engine string is not well-formed",
        }
    }
}

} // verus!
