//! Who destroys a handle.
//!
//! Every wrapper of this crate holds a handle and knows whether it is the one
//! that has to destroy it. A wrapper made from a handle that the engine has
//! just created owns it; a wrapper made from a handle that another resource
//! gave out does not. [`Wrapper`] is that knowledge as plain data, and the
//! functions here say what it entails; the wrapper types themselves are in
//! the modules of their resources.
//!
//! A wrapper that does not own its handle is good for as long as the owner
//! keeps the resource, and no longer. To use it after the owner was given up
//! is out of contract: the engine has no way to tell a stale handle from a
//! live one, and nothing in this crate can detect it either.

use vstd::prelude::*;
use crate::call::{destroy_count, lemma_destroy_count_concat, NativeCall};
use crate::handle::{Error, Handle, ResourceKind};

verus! {

/// What a wrapper is: the kind of its resource, its handle, and whether it
/// has to destroy the resource.
#[derive(Clone, Copy, Debug, PartialEq, Eq, Structural)]
pub struct Wrapper {
    pub kind: ResourceKind,
    pub handle: Handle,
    pub owns: bool,
}

impl Wrapper {
    /// The wrapper that owns `handle`.
    pub open spec fn owning(kind: ResourceKind, handle: Handle) -> Wrapper {
        Wrapper { kind, handle, owns: true }
    }

    /// The wrapper that refers to `handle` without owning it.
    pub open spec fn borrowed(kind: ResourceKind, handle: Handle) -> Wrapper {
        Wrapper { kind, handle, owns: false }
    }

    /// An owning wrapper holds a handle that is there, of a kind that can be
    /// destroyed.
    pub open spec fn wf(self) -> bool {
        self.owns ==> self.kind.destructible() && self.handle != Handle::null_value()
    }

    /// The call that is due when the wrapper is given up, if any.
    pub open spec fn release_call(self) -> Option<NativeCall> {
        if self.owns {
            Some(NativeCall::Destroy { kind: self.kind, handle: self.handle })
        } else {
            None
        }
    }

    /// All engine calls that giving up the wrapper entails, in order.
    pub open spec fn release_calls(self) -> Seq<NativeCall> {
        match self.release_call() {
            Some(call) => seq![call],
            None => seq![],
        }
    }

    /// The call that asks the engine for a copy of the wrapped resource.
    pub open spec fn copy_call(self) -> NativeCall {
        NativeCall::Copy { kind: self.kind, source: self.handle }
    }

    /// The wrapper for the handle `copy` with which the engine answered
    /// [`Wrapper::copy_call`]. A null handle is no copy, and neither is the
    /// handle of the source: two owners of one handle would destroy it twice.
    pub open spec fn copied(self, copy: Handle) -> Result<Wrapper, Error> {
        if copy == Handle::null_value() || copy == self.handle {
            Err(Error::HandleUnavailable { kind: self.kind })
        } else {
            Ok(Wrapper::owning(self.kind, copy))
        }
    }
}

/// The wrapper for the handle `raw` with which the engine answered a creation
/// call for a resource of `kind`.
pub open spec fn adopted(kind: ResourceKind, raw: Handle) -> Result<Wrapper, Error> {
    if raw == Handle::null_value() {
        Err(Error::HandleUnavailable { kind })
    } else {
        Ok(Wrapper::owning(kind, raw))
    }
}

/// A resource that is created and given up at once is destroyed exactly once,
/// and nothing else is.
pub proof fn law_owning_release_destroys_once(
    kind: ResourceKind,
    raw: Handle,
    other_kind: ResourceKind,
    other: Handle,
)
    requires
        raw != Handle::null_value(),
    ensures
        adopted(kind, raw) is Ok,
        destroy_count(adopted(kind, raw)->Ok_0.release_calls(), kind, raw) == 1,
        (other_kind != kind || other != raw) ==> destroy_count(
            adopted(kind, raw)->Ok_0.release_calls(),
            other_kind,
            other,
        ) == 0,
{
    let calls = adopted(kind, raw)->Ok_0.release_calls();
    assert(calls.drop_last() =~= Seq::<NativeCall>::empty());
    reveal_with_fuel(destroy_count, 2);
}

/// Giving up a wrapper that does not own its handle destroys nothing.
pub proof fn law_borrowed_release_destroys_nothing(
    kind: ResourceKind,
    raw: Handle,
    other_kind: ResourceKind,
    other: Handle,
)
    ensures
        Wrapper::borrowed(kind, raw).release_calls() == Seq::<NativeCall>::empty(),
        destroy_count(Wrapper::borrowed(kind, raw).release_calls(), other_kind, other) == 0,
{
}

/// A copy owns its handle, whether or not the source owned its own, and the
/// two handles differ.
pub proof fn law_copy_owns_a_distinct_handle(source: Wrapper, copy: Handle)
    ensures
        source.copied(copy) matches Ok(c) ==> c.owns && c.handle != source.handle && c.kind
            == source.kind && c.handle == copy,
        source.copied(copy) is Ok <==> copy != Handle::null_value() && copy != source.handle,
{
}

/// The source and its copy, given up in either order, destroy each of the
/// two handles exactly once.
pub proof fn law_source_and_copy_destroy_each_once(source: Wrapper, copy: Handle)
    requires
        source.owns,
        source.copied(copy) is Ok,
    ensures
        ({
            let copied = source.copied(copy)->Ok_0;
            let one_way = source.release_calls() + copied.release_calls();
            let other_way = copied.release_calls() + source.release_calls();
            &&& destroy_count(one_way, source.kind, source.handle) == 1
            &&& destroy_count(one_way, source.kind, copy) == 1
            &&& destroy_count(other_way, source.kind, source.handle) == 1
            &&& destroy_count(other_way, source.kind, copy) == 1
        }),
{
    let copied = source.copied(copy)->Ok_0;
    let one_way = source.release_calls() + copied.release_calls();
    let other_way = copied.release_calls() + source.release_calls();
    assert(one_way.drop_last() =~= source.release_calls());
    assert(one_way.drop_last().drop_last() =~= Seq::<NativeCall>::empty());
    assert(other_way.drop_last() =~= copied.release_calls());
    assert(other_way.drop_last().drop_last() =~= Seq::<NativeCall>::empty());
    reveal_with_fuel(destroy_count, 3);
}

/// All engine calls that giving up each of `wrappers` entails, in their order.
pub open spec fn release_all(wrappers: Seq<Wrapper>) -> Seq<NativeCall>
    decreases wrappers.len(),
{
    if wrappers.len() == 0 {
        seq![]
    } else {
        release_all(wrappers.drop_last()) + wrappers.last().release_calls()
    }
}

/// How many of `wrappers` own the resource of `kind` behind `handle`.
pub open spec fn owners(wrappers: Seq<Wrapper>, kind: ResourceKind, handle: Handle) -> nat
    decreases wrappers.len(),
{
    if wrappers.len() == 0 {
        0
    } else {
        let rest = owners(wrappers.drop_last(), kind, handle);
        if wrappers.last() == Wrapper::owning(kind, handle) {
            rest + 1
        } else {
            rest
        }
    }
}

/// However many wrappers refer to a handle, it is destroyed as often as it
/// has owners among them: once where one of them owns it, never where none
/// does.
pub proof fn law_destroyed_once_per_owner(
    wrappers: Seq<Wrapper>,
    kind: ResourceKind,
    handle: Handle,
)
    ensures
        destroy_count(release_all(wrappers), kind, handle) == owners(wrappers, kind, handle),
    decreases wrappers.len(),
{
    if wrappers.len() > 0 {
        let last = wrappers.last();
        law_destroyed_once_per_owner(wrappers.drop_last(), kind, handle);
        lemma_destroy_count_concat(
            release_all(wrappers.drop_last()),
            last.release_calls(),
            kind,
            handle,
        );
        if last.owns {
            assert(last.release_calls().drop_last() =~= Seq::<NativeCall>::empty());
            reveal_with_fuel(destroy_count, 2);
        }
    }
}

} // verus!
