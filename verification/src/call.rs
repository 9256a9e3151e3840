//! Calls into the engine, as values.
//!
//! Most calls into the engine are the caller's business: it creates, sets,
//! gets and loads as it sees fit. A few calls are not: whether a handle is
//! destroyed, what a callback slot is written with, what is unlocked. Those
//! follow from what the wrappers of this crate know, so the functions of this
//! crate decide on them and hand them out as values. A caller that links the
//! engine performs each [`NativeCall`] it is given, once and in the order
//! given.

use vstd::prelude::*;
use crate::callback::EventKind;
use crate::handle::{Handle, ResourceKind};

verus! {

/// A call into the engine that a function of this crate has decided on.
#[derive(Clone, Copy, Debug, PartialEq, Eq, Structural)]
pub enum NativeCall {
    /// Destroy the resource behind `handle` with the destroy function of `kind`.
    Destroy { kind: ResourceKind, handle: Handle },
    /// Copy the resource behind `source` with the copy function of `kind`.
    /// The engine answers with the handle of the copy.
    Copy { kind: ResourceKind, source: Handle },
    /// Give the string behind `target` the contents of the string behind `source`.
    AssignString { target: Handle, source: Handle },
    /// Unlock the pixels of the bitmap or surface behind `handle`.
    UnlockPixels { kind: ResourceKind, handle: Handle },
    /// Unlock the script context of the view behind `view`.
    UnlockJsContext { view: Handle },
    /// Write the slot of `event` on `object`: the adapter of the event's shape
    /// as the function, `data` as the user data.
    SetCallback { object: Handle, event: EventKind, data: usize },
}

impl NativeCall {
    /// Whether this call destroys the resource of `kind` behind `handle`.
    pub open spec fn destroys(self, kind: ResourceKind, handle: Handle) -> bool {
        self == (NativeCall::Destroy { kind, handle })
    }

    /// Whether this call destroys the resource of `kind` behind `handle`.
    pub fn is_destroy_of(&self, kind: ResourceKind, handle: Handle) -> (b: bool)
        ensures
            b == self.destroys(kind, handle),
    {
        match self {
            NativeCall::Destroy { kind: k, handle: h } => *k == kind && *h == handle,
            _ => false,
        }
    }
}

/// How many calls of `calls` destroy the resource of `kind` behind `handle`.
pub open spec fn destroy_count(calls: Seq<NativeCall>, kind: ResourceKind, handle: Handle) -> nat
    decreases calls.len(),
{
    if calls.len() == 0 {
        0
    } else {
        let rest = destroy_count(calls.drop_last(), kind, handle);
        if calls.last().destroys(kind, handle) {
            rest + 1
        } else {
            rest
        }
    }
}

/// Counting goes through concatenation.
pub proof fn lemma_destroy_count_concat(
    a: Seq<NativeCall>,
    b: Seq<NativeCall>,
    kind: ResourceKind,
    handle: Handle,
)
    ensures
        destroy_count(a + b, kind, handle) == destroy_count(a, kind, handle) + destroy_count(
            b,
            kind,
            handle,
        ),
    decreases b.len(),
{
    if b.len() == 0 {
        assert(a + b =~= a);
    } else {
        lemma_destroy_count_concat(a, b.drop_last(), kind, handle);
        assert((a + b).drop_last() =~= a + b.drop_last());
        assert((a + b).last() == b.last());
    }
}

} // verus!
