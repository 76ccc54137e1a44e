//! Running work once CSS transitions have settled.
//!
//! The page keeps one registry of the elements that are currently
//! transitioning, each mapped to the set of CSS properties in flight on
//! it. Tracking the properties, not a bare count, is what lets duplicate
//! end/cancel events (which some browsers fire together) be ignored.
//! Callbacks handed to [`TransitionTracker::run_after_transition`] run
//! immediately while nothing transitions, and otherwise wait until the
//! registry drains.
//!
//! The adapter assigns stable integer handles to elements and to
//! distinct property names, wires the document-level transition
//! listeners, and owns the callback closures behind their ids.

use vstd::prelude::*;
use crate::handle_map::HandleMap;

verus! {

/// Every key of `a` other than `element` is present in `b` with the same
/// value.
pub open spec fn spec_other_keys_unchanged(
    a: Map<u64, HandleMap<()>>,
    b: Map<u64, HandleMap<()>>,
    element: u64,
) -> bool {
    forall|k: u64|
        k != element && #[trigger] a.contains_key(k) ==> b.contains_key(k) && b[k] == a[k]
}

/// The per-root registry of in-flight CSS transitions, with the
/// callbacks waiting for them to settle.
pub struct TransitionTracker {
    /// For each transitioning element, the set of transitioning
    /// properties on it (a map to unit).
    pub transitions: HandleMap<HandleMap<()>>,
    /// The callbacks to run once no element is transitioning.
    pub callbacks: Vec<u64>,
}

impl TransitionTracker {
    /// The registry and every property set in it are well formed.
    pub open spec fn wf(&self) -> bool {
        &&& self.transitions.wf()
        &&& forall|k: u64|
            #[trigger] self.transitions@.contains_key(k) ==> self.transitions@[k].wf()
    }

    /// A fresh tracker: nothing transitions, nothing waits.
    pub fn new() -> (r: TransitionTracker)
        ensures
            r.wf(),
            r.transitions@ == Map::<u64, HandleMap<()>>::empty(),
            r.callbacks@.len() == 0,
    {
        TransitionTracker { transitions: HandleMap::new(), callbacks: Vec::new() }
    }

    /// Records that `property` started transitioning on `element`.
    /// Returns whether the element is newly transitioning, in which case
    /// the adapter attaches a transition-cancel listener to it.
    pub fn on_transition_run(&mut self, element: u64, property: u64) -> (watch_cancel: bool)
        requires
            old(self).wf(),
        ensures
            final(self).wf(),
            watch_cancel == !old(self).transitions@.contains_key(element),
            final(self).callbacks@ == old(self).callbacks@,
            final(self).transitions@.dom() == old(self).transitions@.dom().insert(element),
            final(self).transitions@[element]@ == (if old(self).transitions@.contains_key(element) {
                old(self).transitions@[element]@
            } else {
                Map::<u64, ()>::empty()
            }).insert(property, ()),
            spec_other_keys_unchanged(
                old(self).transitions@,
                final(self).transitions@,
                element,
            ),
    {
        match self.transitions.take(element) {
            Some(mut properties) => {
                properties.set(property, ());
                self.transitions.set(element, properties);
                proof {
                    assert(self.transitions@.dom() =~= old(self).transitions@.dom().insert(
                        element,
                    ));
                }
                false
            },
            None => {
                let mut properties: HandleMap<()> = HandleMap::new();
                properties.set(property, ());
                self.transitions.set(element, properties);
                proof {
                    assert(self.transitions@.dom() =~= old(self).transitions@.dom().insert(
                        element,
                    ));
                }
                true
            },
        }
    }

    /// Records that `property` stopped transitioning on `element`; a
    /// duplicate report for an element that is not transitioning changes
    /// nothing. Returns whether the element stopped transitioning
    /// entirely — the adapter then removes its transition-cancel listener
    /// — and the callbacks that became due because nothing transitions
    /// any more; they leave the queue and the adapter runs them in
    /// order.
    pub fn on_transition_end(&mut self, element: u64, property: u64) -> (r: (bool, Vec<u64>))
        requires
            old(self).wf(),
        ensures
            final(self).wf(),
            !old(self).transitions@.contains_key(element) ==> {
                &&& final(self).transitions@ == old(self).transitions@
                &&& final(self).callbacks@ == old(self).callbacks@
                &&& r.0 == false
                &&& r.1@.len() == 0
            },
            old(self).transitions@.contains_key(element) ==> {
                let remaining = old(self).transitions@[element]@.remove(property);
                let settled = remaining.dom() =~= Set::<u64>::empty();
                let drained = settled && old(self).transitions@.dom() =~= set![element];
                &&& r.0 == settled
                &&& final(self).transitions@.dom() == if settled {
                    old(self).transitions@.dom().remove(element)
                } else {
                    old(self).transitions@.dom()
                }
                &&& (!settled ==> final(self).transitions@[element]@ == remaining)
                &&& spec_other_keys_unchanged(
                    old(self).transitions@,
                    final(self).transitions@,
                    element,
                )
                &&& r.1@ == if drained {
                    old(self).callbacks@
                } else {
                    Seq::<u64>::empty()
                }
                &&& final(self).callbacks@ == if drained {
                    Seq::<u64>::empty()
                } else {
                    old(self).callbacks@
                }
            },
    {
        match self.transitions.take(element) {
            Some(mut properties) => {
                properties.delete(property);
                let settled = properties.is_empty();
                if !settled {
                    self.transitions.set(element, properties);
                    proof {
                        assert(self.transitions@.dom() =~= old(self).transitions@.dom());
                    }
                }
                let drained = self.transitions.is_empty();
                proof {
                    if settled {
                        assert(self.transitions@.dom() =~= old(self).transitions@.dom().remove(
                            element,
                        ));
                        if drained {
                            assert(old(self).transitions@.dom() =~= set![element]);
                        } else {
                            assert(!(old(self).transitions@.dom() =~= set![element])) by {
                                if old(self).transitions@.dom() =~= set![element] {
                                    assert(self.transitions@.dom() =~= Set::<u64>::empty());
                                    assert(self.transitions@ =~= Map::<u64, HandleMap<()>>::empty());
                                }
                            }
                        }
                        assert(properties@.dom() =~= Set::<u64>::empty()) by {
                            if !(properties@.dom() =~= Set::<u64>::empty()) {
                                assert(!(properties@ =~= Map::<u64, ()>::empty()));
                            }
                        }
                    } else {
                        assert(!(properties@.dom() =~= Set::<u64>::empty())) by {
                            if properties@.dom() =~= Set::<u64>::empty() {
                                assert(properties@ =~= Map::<u64, ()>::empty());
                            }
                        }
                        assert(self.transitions@.contains_key(element));
                        assert(!drained);
                    }
                }
                if drained {
                    let mut due: Vec<u64> = Vec::new();
                    core::mem::swap(&mut due, &mut self.callbacks);
                    (settled, due)
                } else {
                    let due: Vec<u64> = Vec::new();
                    assert(due@ =~= Seq::<u64>::empty());
                    (settled, due)
                }
            },
            None => {
                proof {
                    assert(self.transitions@ =~= old(self).transitions@);
                }
                let due: Vec<u64> = Vec::new();
                assert(due@ =~= Seq::<u64>::empty());
                (false, due)
            },
        }
    }

    /// Asks for `callback` to run once no CSS transition is in flight.
    /// Returns true when nothing transitions, in which case the adapter
    /// runs the callback immediately (after the animation frame it
    /// already waited); otherwise the callback joins the queue.
    pub fn run_after_transition(&mut self, callback: u64) -> (run_now: bool)
        requires
            old(self).wf(),
        ensures
            final(self).wf(),
            final(self).transitions@ == old(self).transitions@,
            run_now == (old(self).transitions@.dom() =~= Set::<u64>::empty()),
            final(self).callbacks@ == if run_now {
                old(self).callbacks@
            } else {
                old(self).callbacks@.push(callback)
            },
    {
        proof {
            if self.transitions@ =~= Map::<u64, HandleMap<()>>::empty() {
                assert(self.transitions@.dom() =~= Set::<u64>::empty());
            } else {
                assert(!(self.transitions@.dom() =~= Set::<u64>::empty())) by {
                    if self.transitions@.dom() =~= Set::<u64>::empty() {
                        assert(self.transitions@ =~= Map::<u64, HandleMap<()>>::empty());
                    }
                }
            }
        }
        if self.transitions.is_empty() {
            true
        } else {
            self.callbacks.push(callback);
            false
        }
    }
}

} // verus!
