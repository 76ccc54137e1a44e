//! The per-gesture listener registry.
//!
//! Listeners that must live on the document rather than the element are
//! registered here for the duration of one gesture and released together
//! on every termination path. The registry records each registration
//! under a fresh integer key; the adapter attaches and detaches the real
//! platform listeners from the effect lists the press machine returns.

use vstd::prelude::*;

verus! {

/// The object a listener is attached to.
#[derive(Clone, Copy, PartialEq, Eq, Structural, Debug)]
pub enum ListenerTarget {
    Document,
    Element(u64),
}

/// The document-level event names the press machine registers listeners
/// for.
#[derive(Clone, Copy, PartialEq, Eq, Structural, Debug)]
pub enum ListenerEventType {
    PointerMove,
    PointerUp,
    PointerCancel,
    KeyUp,
}

/// One recorded listener registration.
#[derive(Clone, Copy, PartialEq, Eq, Structural, Debug)]
pub struct ListenerEntry {
    pub target: ListenerTarget,
    pub event_type: ListenerEventType,
    pub capture: bool,
}

/// The registry of listener registrations created for one gesture.
pub struct GlobalListeners {
    /// The key the next registration will receive.
    pub next_key: u64,
    /// The recorded registrations, oldest first, keyed by their handles.
    pub entries: Vec<(u64, ListenerEntry)>,
}

impl GlobalListeners {
    /// Keys are strictly increasing, so every key is unique and every
    /// recorded key is below `next_key`.
    pub open spec fn wf(&self) -> bool {
        &&& forall|i: int, j: int|
            0 <= i < j < self.entries@.len() ==> #[trigger] self.entries@[i].0
                < #[trigger] self.entries@[j].0
        &&& forall|i: int|
            0 <= i < self.entries@.len() ==> #[trigger] self.entries@[i].0 < self.next_key
    }

    /// An empty registry.
    pub fn new() -> (r: GlobalListeners)
        ensures
            r.wf(),
            r.entries@.len() == 0,
            r.next_key == 0,
    {
        GlobalListeners { next_key: 0, entries: Vec::new() }
    }

    /// Records a listener registration and returns its fresh key. The
    /// adapter attaches the matching platform listener.
    pub fn add_listener(
        &mut self,
        target: ListenerTarget,
        event_type: ListenerEventType,
        capture: bool,
    ) -> (key: u64)
        requires
            old(self).wf(),
            old(self).next_key < u64::MAX,
        ensures
            final(self).wf(),
            key == old(self).next_key,
            final(self).next_key == old(self).next_key + 1,
            final(self).entries@ == old(self).entries@.push(
                (key, ListenerEntry { target, event_type, capture }),
            ),
    {
        let key = self.next_key;
        self.next_key = self.next_key + 1;
        self.entries.push((key, ListenerEntry { target, event_type, capture }));
        key
    }

    /// Removes the registration recorded under `key`, returning it so the
    /// adapter can detach the matching platform listener; a key that is
    /// not recorded leaves the registry unchanged.
    pub fn remove_listener(&mut self, key: u64) -> (removed: Option<ListenerEntry>)
        requires
            old(self).wf(),
        ensures
            final(self).wf(),
            final(self).next_key == old(self).next_key,
            match removed {
                Some(entry) => exists|i: int|
                    0 <= i < old(self).entries@.len() && #[trigger] old(self).entries@[i] == (
                    key,
                    entry,
                ) && final(self).entries@ == old(self).entries@.remove(i),
                None => {
                    &&& final(self).entries@ == old(self).entries@
                    &&& forall|i: int|
                        0 <= i < old(self).entries@.len() ==> #[trigger] old(
                            self,
                        ).entries@[i].0 != key
                },
            },
    {
        let mut index: usize = 0;
        while index < self.entries.len()
            invariant
                old(self).wf(),
                *self == *old(self),
                index <= self.entries@.len(),
                forall|i: int| 0 <= i < index ==> #[trigger] self.entries@[i].0 != key,
            decreases self.entries@.len() - index,
        {
            if self.entries[index].0 == key {
                let ghost before = self.entries@;
                let (_, entry) = self.entries.remove(index);
                proof {
                    assert(self.entries@ == before.subrange(0, index as int) + before.subrange(
                        index as int + 1,
                        before.len() as int,
                    ));
                    assert forall|a: int, b: int|
                        0 <= a < b < self.entries@.len() implies #[trigger] self.entries@[a].0
                        < #[trigger] self.entries@[b].0 by {
                        let a0 = if a < index { a } else { a + 1 };
                        let b0 = if b < index { b } else { b + 1 };
                        assert(self.entries@[a] == before[a0]);
                        assert(self.entries@[b] == before[b0]);
                        assert(before == old(self).entries@);
                        assert(old(self).entries@[a0].0 < old(self).entries@[b0].0);
                    }
                }
                return Some(entry);
            }
            index += 1;
        }
        None
    }

    /// Removes every recorded registration, returning them all so the
    /// adapter can detach the matching platform listeners; on an empty
    /// registry this is a no-op that returns nothing.
    pub fn remove_all_listeners(&mut self) -> (removed: Vec<(u64, ListenerEntry)>)
        requires
            old(self).wf(),
        ensures
            final(self).wf(),
            final(self).next_key == old(self).next_key,
            final(self).entries@.len() == 0,
            removed@ == old(self).entries@,
    {
        let mut taken: Vec<(u64, ListenerEntry)> = Vec::new();
        core::mem::swap(&mut taken, &mut self.entries);
        taken
    }
}

impl Default for GlobalListeners {
    /// An empty registry.
    fn default() -> (r: GlobalListeners)
        ensures
            r.wf(),
            r.entries@.len() == 0,
            r.next_key == 0,
    {
        GlobalListeners::new()
    }
}

} // verus!
