//! Synchronization state: the shared exit flag, and the bookkeeping of the
//! dynamically-joinable phase barrier.
//!
//! The barrier's blocking — parking a thread until the generation turns —
//! is the platform's business and lives with the runtime around the
//! library; every decision about when a generation turns, who is counted,
//! and how a panic poisons the group is taken here, on plain state.

use std::sync::Arc;
use std::sync::atomic::AtomicBool;
use std::sync::atomic::Ordering;

use vstd::prelude::*;

verus! {

/// The process-wide shutdown flag, observed by every worker at the top of
/// its loop. Clones share the one flag.
#[derive(Clone, Debug)]
pub struct Exit {
    exit: Arc<AtomicBool>,
}

impl Exit {
    /// A fresh flag, not yet triggered.
    pub fn new() -> Exit {
        Exit { exit: Arc::new(AtomicBool::new(false)) }
    }

    /// Whether shutdown has been requested. The flag is shared across
    /// threads, so nothing relates one observation to the next.
    ///
    /// Relies on std::sync::atomic::AtomicBool::load.
    #[verifier::external_body]
    pub fn triggered(&self) -> bool {
        self.exit.load(Ordering::Relaxed)
    }

    /// Requests shutdown.
    ///
    /// Relies on std::sync::atomic::AtomicBool::store.
    #[verifier::external_body]
    pub fn trigger(&mut self) {
        self.exit.store(true, Ordering::Relaxed);
    }
}

impl Default for Exit {
    fn default() -> Exit {
        Exit::new()
    }
}

/// What a panicking participant does to the rest of the barrier group:
/// either the group merely shrinks and the others continue, or the group
/// is poisoned and every waiter observes the failure.
#[derive(Clone, Copy, Debug, PartialEq, Eq, Structural)]
pub enum BarrierGroupPanic {
    Continue,
    Poison,
}

impl Default for BarrierGroupPanic {
    fn default() -> (r: BarrierGroupPanic)
        ensures
            r == BarrierGroupPanic::Continue,
    {
        BarrierGroupPanic::Continue
    }
}

/// The bookkeeping of one barrier group: how many participants are active,
/// how many stand waiting, which generation the group is in, and whether a
/// panic has poisoned it.
#[derive(Clone, Copy, Debug, PartialEq, Eq, Structural)]
pub struct BarrierGroupData {
    pub active: usize,
    pub waiting: usize,
    pub generation: usize,
    pub poisoned: bool,
}

impl Default for BarrierGroupData {
    /// A fresh group: nobody joined, nobody waiting, generation zero.
    fn default() -> (r: BarrierGroupData)
        ensures
            r.active == 0,
            r.waiting == 0,
            r.generation == 0,
            !r.poisoned,
    {
        BarrierGroupData { active: 0, waiting: 0, generation: 0, poisoned: false }
    }
}

impl BarrierGroupData {
    /// A participant takes a handle and joins the group.
    pub fn join(&mut self)
        requires
            old(self).active < usize::MAX,
        ensures
            *final(self) == (BarrierGroupData { active: (old(self).active + 1) as usize, ..*old(
                self,
            ) }),
    {
        self.active = self.active + 1;
    }

    /// A participant arrives at the barrier and stands waiting.
    pub fn arrive(&mut self)
        requires
            old(self).waiting < usize::MAX,
        ensures
            *final(self) == (BarrierGroupData { waiting: (old(self).waiting + 1) as usize, ..*old(
                self,
            ) }),
    {
        self.waiting = self.waiting + 1;
    }

    /// Whether the barrier opens: everyone active is waiting, or the group
    /// is poisoned. If it opens, the generation turns over — waking every
    /// waiter exactly once — and the waiting count starts afresh.
    pub fn release(&mut self) -> (r: bool)
        ensures
            r <==> (old(self).waiting >= old(self).active || old(self).poisoned),
            r ==> *final(self) == (BarrierGroupData {
                generation: old(self).generation.wrapping_add(1),
                waiting: 0,
                ..*old(self)
            }),
            !r ==> *final(self) == *old(self),
    {
        if self.waiting >= self.active || self.poisoned {
            self.generation = self.generation.wrapping_add(1);
            self.waiting = 0;
            true
        } else {
            false
        }
    }

    /// A participant drops its handle and leaves the group, possibly
    /// because its thread is panicking: under the poison policy that
    /// poisons the group, so that every other waiter observes the failure
    /// and exits; under the continue policy the group merely shrinks.
    pub fn leave(&mut self, panicking: bool, policy: BarrierGroupPanic)
        requires
            old(self).active >= 1,
        ensures
            final(self).active == old(self).active - 1,
            final(self).waiting == old(self).waiting,
            final(self).generation == old(self).generation,
            final(self).poisoned == (old(self).poisoned || (panicking && policy
                == BarrierGroupPanic::Poison)),
    {
        self.active = self.active - 1;
        if panicking {
            match policy {
                BarrierGroupPanic::Poison => {
                    self.poisoned = true;
                },
                BarrierGroupPanic::Continue => {},
            }
        }
    }
}

} // verus!
