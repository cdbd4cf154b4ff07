//! The non-associative combiner: a strict first-in first-out queue of
//! substrate updates, folded into the forcing accumulator in arrival order.
//!
//! The forcing accumulator is held as its IEEE-754 binary64 bit pattern; the
//! fold itself, being floating-point arithmetic, is made by the caller over
//! the updates this queue hands out.

use vstd::prelude::*;
pub use crate::actor::SubstrateUpdate;

verus! {

/// The combiner's queue and forcing accumulator.
#[derive(Clone, Debug)]
pub struct NonAssociativeCombiner {
    /// Updates waiting to be combined, oldest first.
    pub update_queue: std::collections::VecDeque<SubstrateUpdate>,
    /// Bit pattern of the forcing accumulator.
    pub alpha_forcing: u64,
}

impl NonAssociativeCombiner {
    /// An empty combiner with the given forcing.
    pub fn new(initial_forcing: u64) -> (c: Self)
        ensures
            c.update_queue@ == Seq::<SubstrateUpdate>::empty(),
            c.alpha_forcing == initial_forcing,
    {
        NonAssociativeCombiner {
            update_queue: std::collections::VecDeque::new(),
            alpha_forcing: initial_forcing,
        }
    }

    /// Queues an update behind those already waiting.
    pub fn push_update(&mut self, update: SubstrateUpdate)
        ensures
            final(self).update_queue@ == old(self).update_queue@.push(update),
            final(self).alpha_forcing == old(self).alpha_forcing,
    {
        self.update_queue.push_back(update);
    }

    /// Takes every waiting update, oldest first, leaving the queue empty; the
    /// caller folds them into the forcing in exactly this order.
    pub fn take_pending_updates(&mut self) -> (taken: Vec<SubstrateUpdate>)
        ensures
            taken@ == old(self).update_queue@,
            final(self).update_queue@ == Seq::<SubstrateUpdate>::empty(),
            final(self).alpha_forcing == old(self).alpha_forcing,
    {
        let mut taken: Vec<SubstrateUpdate> = Vec::new();
        loop
            invariant
                old(self).update_queue@ == taken@ + self.update_queue@,
                self.alpha_forcing == old(self).alpha_forcing,
            decreases self.update_queue@.len(),
        {
            match self.update_queue.pop_front() {
                Some(u) => {
                    taken.push(u);
                },
                None => {
                    assert(taken@ =~= old(self).update_queue@);
                    return taken;
                },
            }
        }
    }
}

} // verus!
