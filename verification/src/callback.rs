//! Callback slots.
//!
//! The engine keeps, for each of its objects, one slot per event: a function
//! pointer and one word of user data. Registering writes the slot; whatever
//! was there before is gone. This module names the slots, says which shape of
//! adapter belongs to each, and describes a registration as plain data.

use vstd::prelude::*;
use crate::call::NativeCall;
use crate::handle::{Handle, ResourceKind};

verus! {

/// The events that the engine reports through a callback slot.
#[derive(Clone, Copy, Debug, PartialEq, Eq, Structural, Hash)]
pub enum EventKind {
    /// The application is about to update and render.
    Update,
    /// A window was resized.
    Resize,
    /// A window was closed.
    Close,
    /// A frame finished loading.
    FinishLoading,
    /// The document of a frame is parsed and its scripts have run.
    DomReady,
    /// A frame began loading.
    BeginLoading,
    /// The script global of a frame was reset for a new page.
    WindowObjectReady,
    /// The title of the page changed.
    ChangeTitle,
    /// The address of the page changed.
    ChangeUrl,
    /// The tooltip changed.
    ChangeTooltip,
    /// The mouse cursor changed.
    ChangeCursor,
    /// The page asks for a new view.
    CreateChildView,
    /// Loading an address into a frame failed.
    FailLoading,
    /// The back and forward history changed.
    UpdateHistory,
    /// The page wrote to its console.
    AddConsoleMessage,
}

/// The argument and result shapes of the engine's callbacks. Each shape has
/// one adapter in [`crate::internal`] or [`crate::helpers_internal`].
#[derive(Clone, Copy, Debug, PartialEq, Eq, Structural, Hash)]
pub enum EventShape {
    /// No argument.
    Plain,
    /// A width and a height.
    Size,
    /// A view, a frame id, whether the frame is the main one, an address.
    Frame,
    /// A view and a text.
    Text,
    /// A view and a cursor.
    Cursor,
    /// A view.
    History,
    /// A view, two addresses, a flag and a rectangle; answers with a view.
    CreateChild,
    /// A frame event with a description, an error domain and an error code.
    FailLoading,
    /// A view, a source, a level, a message, a position and a source id.
    ConsoleMessage,
    /// A host function called from script.
    Hook,
}

/// Where the engine keeps the word that leads back to the closure.
#[derive(Clone, Copy, Debug, PartialEq, Eq, Structural, Hash)]
pub enum DataChannel {
    /// The user-data word of the callback slot.
    UserData,
    /// The private-data word of the script object that stands for the function.
    ObjectPrivate,
}

impl EventShape {
    /// The channel through which an adapter of this shape gets its closure.
    pub open spec fn channel_of(self) -> DataChannel {
        if self is Hook {
            DataChannel::ObjectPrivate
        } else {
            DataChannel::UserData
        }
    }

    /// The channel through which an adapter of this shape gets its closure.
    pub fn channel(&self) -> (c: DataChannel)
        ensures
            c == self.channel_of(),
    {
        match self {
            EventShape::Hook => DataChannel::ObjectPrivate,
            _ => DataChannel::UserData,
        }
    }
}

impl EventKind {
    /// The shape of the callback that the engine declares for this event.
    pub open spec fn shape_of(self) -> EventShape {
        match self {
            EventKind::Update | EventKind::Close => EventShape::Plain,
            EventKind::Resize => EventShape::Size,
            EventKind::FinishLoading
            | EventKind::DomReady
            | EventKind::BeginLoading
            | EventKind::WindowObjectReady => EventShape::Frame,
            EventKind::ChangeTitle | EventKind::ChangeUrl | EventKind::ChangeTooltip => EventShape::Text,
            EventKind::ChangeCursor => EventShape::Cursor,
            EventKind::CreateChildView => EventShape::CreateChild,
            EventKind::FailLoading => EventShape::FailLoading,
            EventKind::UpdateHistory => EventShape::History,
            EventKind::AddConsoleMessage => EventShape::ConsoleMessage,
        }
    }

    /// The kind of resource that has a slot for this event.
    pub open spec fn owner_of(self) -> ResourceKind {
        match self {
            EventKind::Update => ResourceKind::App,
            EventKind::Resize | EventKind::Close => ResourceKind::Window,
            _ => ResourceKind::View,
        }
    }

    /// The shape of the callback that the engine declares for this event.
    pub fn shape(&self) -> (s: EventShape)
        ensures
            s == self.shape_of(),
    {
        match self {
            EventKind::Update | EventKind::Close => EventShape::Plain,
            EventKind::Resize => EventShape::Size,
            EventKind::FinishLoading
            | EventKind::DomReady
            | EventKind::BeginLoading
            | EventKind::WindowObjectReady => EventShape::Frame,
            EventKind::ChangeTitle | EventKind::ChangeUrl | EventKind::ChangeTooltip => EventShape::Text,
            EventKind::ChangeCursor => EventShape::Cursor,
            EventKind::CreateChildView => EventShape::CreateChild,
            EventKind::FailLoading => EventShape::FailLoading,
            EventKind::UpdateHistory => EventShape::History,
            EventKind::AddConsoleMessage => EventShape::ConsoleMessage,
        }
    }

    /// The kind of resource that has a slot for this event.
    pub fn owner(&self) -> (k: ResourceKind)
        ensures
            k == self.owner_of(),
    {
        match self {
            EventKind::Update => ResourceKind::App,
            EventKind::Resize | EventKind::Close => ResourceKind::Window,
            _ => ResourceKind::View,
        }
    }
}

/// One registration: the closure behind `data` is to be called when `event`
/// happens on `object`.
///
/// `data` is the word that the engine stores and hands back: the address of
/// the closure's state. The state belongs to whoever registered it and has to
/// stay where it is until the slot is written again or the object is
/// destroyed; nothing in this crate can check that.
#[derive(Clone, Copy, Debug, PartialEq, Eq, Structural, Hash)]
pub struct Registration {
    pub object: Handle,
    pub event: EventKind,
    pub data: usize,
}

impl Registration {
    /// The engine call that writes this registration into its slot.
    pub open spec fn call_of(self) -> NativeCall {
        NativeCall::SetCallback { object: self.object, event: self.event, data: self.data }
    }

    /// The engine call that writes this registration into its slot.
    pub fn call(&self) -> (c: NativeCall)
        ensures
            c == self.call_of(),
    {
        NativeCall::SetCallback { object: self.object, event: self.event, data: self.data }
    }
}

/// A slot: an event on an object.
pub type Slot = (Handle, EventKind);

impl Registration {
    /// The slot that this registration writes.
    pub open spec fn slot(self) -> Slot {
        (self.object, self.event)
    }
}

/// The slots after `registration` was written into `slots`.
pub open spec fn registered(slots: Map<Slot, usize>, registration: Registration) -> Map<
    Slot,
    usize,
> {
    slots.insert(registration.slot(), registration.data)
}

/// The word in `slot`, if anything is registered there.
pub open spec fn live(slots: Map<Slot, usize>, slot: Slot) -> Option<usize> {
    if slots.contains_key(slot) {
        Some(slots[slot])
    } else {
        None
    }
}

/// The slots after the object behind `object` is gone: its slots are empty,
/// the others are as they were.
pub open spec fn without_object(slots: Map<Slot, usize>, object: Handle) -> Map<Slot, usize> {
    slots.remove_keys(Set::new(|slot: Slot| slot.0 == object))
}

/// What is registered, slot by slot: the binding's own record of what it has
/// written into the engine's callback slots.
///
/// The engine cannot be asked what a slot holds. This record answers instead:
/// which word a slot holds now, and which word a registration has displaced,
/// so that the state behind a displaced word can be let go and a call that
/// arrives with a word that is no longer registered can be told apart.
#[derive(Debug)]
pub struct CallbackRegistry {
    entries: Vec<Registration>,
}

impl CallbackRegistry {
    /// The record is sound: no slot is recorded twice. Every function here
    /// that makes or changes a record leaves it so.
    pub closed spec fn wf(&self) -> bool {
        Self::distinct(self.entries@)
    }

    /// No slot occurs twice.
    spec fn distinct(entries: Seq<Registration>) -> bool {
        forall|i: int, j: int|
            0 <= i < j < entries.len() ==> #[trigger] entries[i].slot() != #[trigger] entries[j].slot()
    }

    /// Whether `entries` hold `slot`.
    spec fn holds(entries: Seq<Registration>, slot: Slot) -> bool {
        exists|i: int| 0 <= i < entries.len() && #[trigger] entries[i].slot() == slot
    }

    /// Where `entries` hold `slot`.
    spec fn position(entries: Seq<Registration>, slot: Slot) -> int {
        choose|i: int| 0 <= i < entries.len() && #[trigger] entries[i].slot() == slot
    }

    /// The slots as a map.
    spec fn slots_of(entries: Seq<Registration>) -> Map<Slot, usize> {
        Map::new(
            |slot: Slot| Self::holds(entries, slot),
            |slot: Slot| entries[Self::position(entries, slot)].data,
        )
    }

    /// What each written slot holds.
    pub closed spec fn view(&self) -> Map<Slot, usize> {
        Self::slots_of(self.entries@)
    }

    /// The entry at `i` is what the map has for its slot.
    proof fn lemma_entry(entries: Seq<Registration>, i: int)
        requires
            Self::distinct(entries),
            0 <= i < entries.len(),
        ensures
            Self::slots_of(entries).contains_key(entries[i].slot()),
            Self::slots_of(entries)[entries[i].slot()] == entries[i].data,
    {
        let slot = entries[i].slot();
        assert(Self::holds(entries, slot));
        let p = Self::position(entries, slot);
        assert(0 <= p < entries.len() && entries[p].slot() == slot);
        if p < i {
            assert(entries[p].slot() != entries[i].slot());
        } else if i < p {
            assert(entries[i].slot() != entries[p].slot());
        }
    }

    /// Writing a registration over the entry of its slot writes the slot in
    /// the map.
    proof fn lemma_replace(entries: Seq<Registration>, i: int, registration: Registration)
        requires
            Self::distinct(entries),
            0 <= i < entries.len(),
            entries[i].slot() == registration.slot(),
        ensures
            Self::distinct(entries.update(i, registration)),
            Self::slots_of(entries.update(i, registration)) == registered(
                Self::slots_of(entries),
                registration,
            ),
    {
        let after = entries.update(i, registration);
        assert forall|j: int| 0 <= j < after.len() implies #[trigger] after[j].slot()
            == entries[j].slot() by {}
        assert forall|slot: Slot| #[trigger]
            Self::holds(after, slot) == Self::holds(entries, slot) by {
            if Self::holds(entries, slot) {
                let p = Self::position(entries, slot);
                assert(after[p].slot() == slot);
            }
            if Self::holds(after, slot) {
                let p = Self::position(after, slot);
                assert(entries[p].slot() == slot);
            }
        }
        assert forall|slot: Slot| #[trigger] Self::holds(after, slot) implies Self::slots_of(
            after,
        )[slot] == registered(Self::slots_of(entries), registration)[slot] by {
            let p = Self::position(after, slot);
            Self::lemma_entry(after, p);
            Self::lemma_entry(entries, p);
        }
        assert(Self::slots_of(after) =~= registered(Self::slots_of(entries), registration));
    }

    /// Adding a registration for a slot that no entry has writes the slot in
    /// the map.
    proof fn lemma_append(entries: Seq<Registration>, registration: Registration)
        requires
            Self::distinct(entries),
            !Self::holds(entries, registration.slot()),
        ensures
            Self::distinct(entries.push(registration)),
            Self::slots_of(entries.push(registration)) == registered(
                Self::slots_of(entries),
                registration,
            ),
    {
        let after = entries.push(registration);
        let last = entries.len() as int;
        assert forall|i: int, j: int| 0 <= i < j < after.len() implies #[trigger] after[i].slot()
            != #[trigger] after[j].slot() by {
            if j == last {
                assert(entries[i].slot() != registration.slot());
            } else {
                assert(entries[i].slot() != entries[j].slot());
            }
        }
        assert forall|slot: Slot| #[trigger]
            Self::holds(after, slot) == (Self::holds(entries, slot) || slot
                == registration.slot()) by {
            if Self::holds(entries, slot) {
                let p = Self::position(entries, slot);
                assert(after[p].slot() == slot);
            }
            if slot == registration.slot() {
                assert(after[last].slot() == slot);
            }
            if Self::holds(after, slot) {
                let p = Self::position(after, slot);
                if p < last {
                    assert(entries[p].slot() == slot);
                }
            }
        }
        assert forall|slot: Slot| #[trigger] Self::holds(after, slot) implies Self::slots_of(
            after,
        )[slot] == registered(Self::slots_of(entries), registration)[slot] by {
            let p = Self::position(after, slot);
            Self::lemma_entry(after, p);
            if p < last {
                Self::lemma_entry(entries, p);
            }
        }
        assert(Self::slots_of(after) =~= registered(Self::slots_of(entries), registration));
    }

    /// A record with nothing registered.
    pub fn new() -> (registry: CallbackRegistry)
        ensures
            registry.wf(),
            registry@ == Map::<Slot, usize>::empty(),
    {
        let registry = CallbackRegistry { entries: Vec::new() };
        assert(registry@ =~= Map::<Slot, usize>::empty());
        registry
    }

    /// The index of the entry for the slot, if there is one.
    fn find(&self, object: Handle, event: EventKind) -> (found: Option<usize>)
        ensures
            match found {
                Some(i) => i < self.entries@.len() && self.entries@[i as int].slot() == (
                    object,
                    event,
                ),
                None => !Self::holds(self.entries@, (object, event)),
            },
    {
        let mut i: usize = 0;
        while i < self.entries.len()
            invariant
                i <= self.entries@.len(),
                forall|j: int| 0 <= j < i ==> (#[trigger] self.entries@[j].slot()) != (object, event),
            decreases self.entries@.len() - i,
        {
            if self.entries[i].object == object && self.entries[i].event == event {
                return Some(i);
            }
            i = i + 1;
        }
        None
    }

    /// The word that the slot holds, if anything is registered there.
    pub fn lookup(&self, object: Handle, event: EventKind) -> (data: Option<usize>)
        requires
            self.wf(),
        ensures
            data == live(self@, (object, event)),
    {
        match self.find(object, event) {
            Some(i) => {
                proof {
                    Self::lemma_entry(self.entries@, i as int);
                }
                Some(self.entries[i].data)
            },
            None => None,
        }
    }

    /// Whether `data` is the word that the slot holds now. A call that
    /// arrives with another word comes from a registration that was replaced.
    pub fn is_live(&self, object: Handle, event: EventKind, data: usize) -> (b: bool)
        requires
            self.wf(),
        ensures
            b == (live(self@, (object, event)) == Some(data)),
    {
        match self.lookup(object, event) {
            Some(current) => current == data,
            None => false,
        }
    }

    /// Records a registration. The slot holds the new word from now on; the
    /// word that it held before, if any, is returned: the engine will not
    /// hand it out again once the registration's call has been made.
    pub fn register(&mut self, registration: Registration) -> (displaced: Option<usize>)
        requires
            old(self).wf(),
        ensures
            final(self).wf(),
            final(self)@ == registered(old(self)@, registration),
            displaced == live(old(self)@, registration.slot()),
    {
        let ghost before = self.entries@;
        match self.find(registration.object, registration.event) {
            Some(i) => {
                proof {
                    Self::lemma_entry(before, i as int);
                    Self::lemma_replace(before, i as int, registration);
                }
                let displaced = self.entries[i].data;
                self.entries.set(i, registration);
                Some(displaced)
            },
            None => {
                proof {
                    Self::lemma_append(before, registration);
                }
                self.entries.push(registration);
                None
            },
        }
    }

    /// Forgets the slots of an object that is being destroyed. Returns the
    /// words that its slots held: with the object gone the engine will hand
    /// out none of them again.
    pub fn forget_object(&mut self, object: Handle) -> (released: Vec<usize>)
        requires
            old(self).wf(),
        ensures
            final(self).wf(),
            final(self)@ == without_object(old(self)@, object),
            forall|data: usize|
                released@.contains(data) <==> exists|event: EventKind|
                    live(old(self)@, (object, event)) == Some(data),
    {
        let ghost before = self.entries@;
        let mut kept: Vec<Registration> = Vec::new();
        let mut released: Vec<usize> = Vec::new();
        let ghost mut origin: Seq<int> = Seq::empty();
        let mut i: usize = 0;
        while i < self.entries.len()
            invariant
                self.entries@ == before,
                Self::distinct(before),
                i <= before.len(),
                origin.len() == kept@.len(),
                forall|k: int|
                    0 <= k < kept@.len() ==> 0 <= #[trigger] origin[k] < i && kept@[k]
                        == before[origin[k]] && kept@[k].object != object,
                forall|k: int, l: int| 0 <= k < l < kept@.len() ==> origin[k] < origin[l],
                forall|j: int|
                    0 <= j < i && (#[trigger] before[j]).object != object ==> exists|k: int|
                        0 <= k < kept@.len() && origin[k] == j,
                forall|data: usize|
                    released@.contains(data) <==> exists|j: int|
                        0 <= j < i && (#[trigger] before[j]).object == object && before[j].data
                            == data,
            decreases before.len() - i,
        {
            let entry = self.entries[i];
            if entry.object == object {
                let ghost old_released = released@;
                released.push(entry.data);
                proof {
                    assert forall|data: usize| released@.contains(data) <==> exists|j: int|
                        0 <= j < i + 1 && (#[trigger] before[j]).object == object && before[j].data
                            == data by {
                        if released@.contains(data) {
                            let p = choose|p: int| 0 <= p < released@.len() && released@[p] == data;
                            if p < old_released.len() {
                                assert(old_released[p] == data);
                                assert(old_released.contains(data));
                            } else {
                                assert(before[i as int].object == object && before[i as int].data
                                    == data);
                            }
                        }
                        if exists|j: int|
                            0 <= j < i + 1 && (#[trigger] before[j]).object == object
                                && before[j].data == data {
                            let j = choose|j: int|
                                0 <= j < i + 1 && (#[trigger] before[j]).object == object
                                    && before[j].data == data;
                            if j < i {
                                assert(old_released.contains(data));
                                let p = choose|p: int|
                                    0 <= p < old_released.len() && old_released[p] == data;
                                assert(released@[p] == data);
                            } else {
                                assert(released@[old_released.len() as int] == data);
                            }
                        }
                    }
                }
            } else {
                let ghost old_origin = origin;
                kept.push(entry);
                proof {
                    origin = origin.push(i as int);
                    assert forall|j: int|
                        0 <= j < i + 1 && (#[trigger] before[j]).object != object implies exists|
                        k: int,
                    | 0 <= k < kept@.len() && origin[k] == j by {
                        if j < i {
                            let k = choose|k: int| 0 <= k < old_origin.len() && old_origin[k] == j;
                            assert(origin[k] == j);
                        } else {
                            assert(origin[old_origin.len() as int] == j);
                        }
                    }
                }
            }
            i = i + 1;
        }
        self.entries = kept;
        proof {
            let after = self.entries@;
            assert forall|k: int, l: int| 0 <= k < l < after.len() implies #[trigger] after[k].slot()
                != #[trigger] after[l].slot() by {
                assert(origin[k] < origin[l]);
                assert(before[origin[k]].slot() != before[origin[l]].slot());
            }
            let target = without_object(Self::slots_of(before), object);
            assert forall|slot: Slot| #[trigger] Self::holds(after, slot) == (Self::holds(before, slot)
                && slot.0 != object) by {
                if Self::holds(after, slot) {
                    let k = Self::position(after, slot);
                    assert(before[origin[k]].slot() == slot);
                }
                if Self::holds(before, slot) && slot.0 != object {
                    let j = Self::position(before, slot);
                    assert(before[j].object != object);
                    let k = choose|k: int| 0 <= k < after.len() && origin[k] == j;
                    assert(after[k].slot() == slot);
                }
            }
            assert forall|slot: Slot| #[trigger] Self::holds(after, slot) implies Self::slots_of(after)[slot]
                == target[slot] by {
                let k = Self::position(after, slot);
                Self::lemma_entry(after, k);
                Self::lemma_entry(before, origin[k]);
            }
            assert(Self::slots_of(after) =~= target);
            assert forall|data: usize|
                released@.contains(data) <==> exists|event: EventKind|
                    live(Self::slots_of(before), (object, event)) == Some(data) by {
                if released@.contains(data) {
                    let j = choose|j: int|
                        0 <= j < before.len() && (#[trigger] before[j]).object == object
                            && before[j].data == data;
                    Self::lemma_entry(before, j);
                    assert(live(Self::slots_of(before), (object, before[j].event)) == Some(data));
                }
                if exists|event: EventKind|
                    live(Self::slots_of(before), (object, event)) == Some(data) {
                    let event = choose|event: EventKind|
                        live(Self::slots_of(before), (object, event)) == Some(data);
                    let j = Self::position(before, (object, event));
                    Self::lemma_entry(before, j);
                    assert(before[j].object == object && before[j].data == data);
                }
            }
        }
        released
    }
}

/// After a registration its slot holds its word, and every other slot holds
/// what it held before.
pub proof fn law_registration_writes_its_slot(
    slots: Map<Slot, usize>,
    registration: Registration,
    other: Slot,
)
    ensures
        live(registered(slots, registration), registration.slot()) == Some(registration.data),
        other != registration.slot() ==> live(registered(slots, registration), other) == live(
            slots,
            other,
        ),
{
}

/// Once an object is gone none of its slots holds anything, and the slots of
/// the other objects hold what they held before.
pub proof fn law_object_gone_empties_its_slots(slots: Map<Slot, usize>, object: Handle, other: Slot)
    ensures
        other.0 == object ==> live(without_object(slots, object), other) is None,
        other.0 != object ==> live(without_object(slots, object), other) == live(slots, other),
{
}

/// A second registration for a slot replaces the first: the slot holds the
/// second word only, as if the first registration had never been made.
pub proof fn law_registering_again_replaces(
    slots: Map<Slot, usize>,
    first: Registration,
    second: Registration,
)
    requires
        first.slot() == second.slot(),
    ensures
        registered(registered(slots, first), second) == registered(slots, second),
        live(registered(registered(slots, first), second), first.slot()) == Some(second.data),
        live(registered(slots, first), second.slot()) == Some(first.data),
{
    assert(registered(registered(slots, first), second) =~= registered(slots, second));
}

} // verus!
