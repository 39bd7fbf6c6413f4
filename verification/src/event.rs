//! the subsystem that governs the events of the game engine: storage for
//! observers and the traits through which observables notify them
//!
//! A storage keeps its observers in slots, so that an observer can be
//! dropped without disturbing the positions of the others: a vacated slot is
//! reused by the next observer that arrives, and only when no slot is free
//! does the storage grow.

use vstd::prelude::*;

verus! {

/// storage for one observer, which may be vacant so that slots can be
/// reused after an observer is dropped
pub enum ObserverSlot<O> {
    /// no observer present, can be populated with a new one
    Empty,
    /// an observer which is owned by the storage (it will not drop until the
    /// storage does)
    Owned(O),
}

impl<O> ObserverSlot<O> {
    /// whether the slot holds no observer
    pub fn is_vacant(&self) -> (r: bool)
        ensures
            r == (*self is Empty),
    {
        match self {
            ObserverSlot::Empty => true,
            ObserverSlot::Owned(_) => false,
        }
    }
}

/// an error returned when setting an observer fails (for single-observer
/// storages)
pub enum SetObserverError {
    /// the observer has already been set, and must be cleared before another
    /// can be set
    ObserverAlreadySet,
}

/// an event emitter which other objects can observe
pub trait Observable {
    /// the event type that can be dispatched
    type NotificationType: Send + Sync;

    /// dispatch a new event, and discard any response from the listeners
    fn notify_observers(&self, notification: Self::NotificationType);
}

/// a storage capable of holding observers in an inspectable row of slots
pub trait ObserverStorage {
    /// the type of the stored observers
    type Observer;

    /// the slots of the storage, in order (spec view)
    spec fn spec_slots(&self) -> Seq<ObserverSlot<Self::Observer>>;

    /// the number of slots (vacant ones included)
    fn slot_count(&self) -> (n: usize)
        ensures
            n == self.spec_slots().len(),
    ;

    /// the slot at a given index
    fn slot(&self, index: usize) -> (r: &ObserverSlot<Self::Observer>)
        requires
            index < self.spec_slots().len(),
        ensures
            *r == self.spec_slots()[index as int],
    ;
}

/// the index of the first vacant slot, or a negative number if every slot is
/// occupied
pub open spec fn first_vacant_slot<O>(slots: Seq<ObserverSlot<O>>) -> int
    decreases slots.len(),
{
    if slots.len() == 0 {
        -1
    } else if slots[0] is Empty {
        0
    } else {
        let rest = first_vacant_slot(slots.drop_first());
        if rest < 0 {
            -1
        } else {
            1 + rest
        }
    }
}

/// a scan that passes every occupied slot and stops at a vacant one (or at
/// the end) has found the first vacant slot (or shown there is none)
proof fn lemma_first_vacant_from_scan<O>(slots: Seq<ObserverSlot<O>>, i: int)
    requires
        0 <= i <= slots.len(),
        forall|k: int| 0 <= k < i ==> !((#[trigger] slots[k]) is Empty),
        i < slots.len() ==> slots[i] is Empty,
    ensures
        i < slots.len() ==> first_vacant_slot(slots) == i,
        i == slots.len() ==> first_vacant_slot(slots) < 0,
    decreases slots.len(),
{
    if slots.len() == 0 {
    } else if slots[0] is Empty {
    } else {
        lemma_first_vacant_from_scan(slots.drop_first(), i - 1);
    }
}

/// whether `observer` occupies some slot of the storage and every other
/// slot is vacant
pub open spec fn sole_observer<O>(slots: Seq<ObserverSlot<O>>, observer: O) -> bool {
    exists|i: int|
        0 <= i < slots.len() && (#[trigger] slots[i]) == ObserverSlot::Owned(observer) && (
        forall|j: int| 0 <= j < slots.len() && j != i ==> ((#[trigger] slots[j]) is Empty))
}

/// storage for observables that can only hold a single observer
pub trait SingleObserverStorage: ObserverStorage {
    /// set the observer to an owned observer; fails, changing nothing, if
    /// one is already set
    fn set_observer_owned(&mut self, observer: Self::Observer) -> (r: Result<
        (),
        SetObserverError,
    >)
        ensures
            ({
                let before = old(self).spec_slots();
                let after = final(self).spec_slots();
                &&& (exists|i: int| 0 <= i < before.len() && !((#[trigger] before[i]) is Empty))
                    ==> (r is Err && after == before)
                &&& (forall|i: int| 0 <= i < before.len() ==> ((#[trigger] before[i]) is Empty))
                    ==> (r is Ok && sole_observer(after, observer))
                &&& (r is Err ==> r->Err_0 == SetObserverError::ObserverAlreadySet)
            }),
    ;

    /// clear the set observer, or no-op if not set: afterwards no slot
    /// holds an observer
    fn clear_observer(&mut self)
        ensures
            ({
                let after = final(self).spec_slots();
                forall|i: int| 0 <= i < after.len() ==> ((#[trigger] after[i]) is Empty)
            }),
    ;

    /// replace the observer with an owned observer, equivalent to
    /// `clear_observer` followed by `set_observer_owned`: always succeeds,
    /// since clearing guarantees a vacant storage
    fn replace_observer_owned(&mut self, observer: Self::Observer) -> (r: Result<
        (),
        SetObserverError,
    >)
        ensures
            r is Ok,
            sole_observer(final(self).spec_slots(), observer),
    {
        self.clear_observer();
        self.set_observer_owned(observer)
    }
}

/// storage for observables that can hold multiple observers
pub trait MultipleObserverStorage: ObserverStorage {
    /// add an owned observer, reusing the first vacant slot if there is one
    /// and growing the storage by one slot otherwise
    fn add_observer_owned(&mut self, observer: Self::Observer)
        ensures
            ({
                let s = old(self).spec_slots();
                let i = first_vacant_slot(s);
                &&& i < 0 ==> final(self).spec_slots() == s.push(ObserverSlot::Owned(observer))
                &&& i >= 0 ==> final(self).spec_slots() == s.update(
                    i,
                    ObserverSlot::Owned(observer),
                )
            }),
    ;

    /// clear all stored observers
    fn clear_observers(&mut self)
        ensures
            final(self).spec_slots() == Seq::<ObserverSlot<Self::Observer>>::empty(),
    ;
}

/// a multi-observer storage backed by Vec
pub struct VecObserverStorage<O> {
    /// the active listeners
    event_listeners: Vec<ObserverSlot<O>>,
}

impl<O> VecObserverStorage<O> {
    /// place a slot into the storage: the first vacant slot is reused, and
    /// only when every slot is occupied does the storage grow
    fn push_observer_slot(&mut self, observer_slot: ObserverSlot<O>)
        ensures
            ({
                let s = old(self).event_listeners@;
                let i = first_vacant_slot(s);
                &&& i < 0 ==> final(self).event_listeners@ == s.push(observer_slot)
                &&& i >= 0 ==> final(self).event_listeners@ == s.update(i, observer_slot)
            }),
    {
        let ghost s = self.event_listeners@;
        let n = self.event_listeners.len();
        let mut i: usize = 0;
        while i < n && !self.event_listeners[i].is_vacant()
            invariant
                i <= n,
                n == s.len(),
                self.event_listeners@ == s,
                forall|k: int| 0 <= k < i ==> !((#[trigger] s[k]) is Empty),
            decreases n - i,
        {
            i = i + 1;
        }
        if i < n {
            proof {
                lemma_first_vacant_from_scan(s, i as int);
            }
            let matched_observer_slot = &mut self.event_listeners[i];
            *matched_observer_slot = observer_slot;
        } else {
            proof {
                lemma_first_vacant_from_scan(s, n as int);
            }
            self.event_listeners.push(observer_slot);
        }
    }
}

impl<O> Default for VecObserverStorage<O> {
    /// a fresh storage has no slots at all
    fn default() -> (r: Self)
        ensures
            r.spec_slots() == Seq::<ObserverSlot<O>>::empty(),
    {
        VecObserverStorage { event_listeners: Vec::new() }
    }
}

impl<O> ObserverStorage for VecObserverStorage<O> {
    type Observer = O;

    closed spec fn spec_slots(&self) -> Seq<ObserverSlot<O>> {
        self.event_listeners@
    }

    fn slot_count(&self) -> (n: usize) {
        self.event_listeners.len()
    }

    fn slot(&self, index: usize) -> (r: &ObserverSlot<O>) {
        &self.event_listeners[index]
    }
}

impl<O> MultipleObserverStorage for VecObserverStorage<O> {
    fn add_observer_owned(&mut self, observer: O) {
        self.push_observer_slot(ObserverSlot::Owned(observer));
    }

    fn clear_observers(&mut self) {
        self.event_listeners.clear();
    }
}

} // verus!
