//! Supplementary services (clause 12).

use crate::messagerouter::MessageQueue;
use crate::saps::sapmsg::SapMsg;
use vstd::prelude::*;

verus! {

/// The supplementary services sub-entity. It handles nothing yet.
pub struct SsSubentity {}

impl SsSubentity {
    pub fn new() -> (ss: SsSubentity)
        ensures
            ss == (SsSubentity {  }),
    {
        SsSubentity {  }
    }

    /// Takes a primitive that call control hands on and drops it; the queue
    /// stays as it is.
    pub fn route_re_deliver(&mut self, queue: &mut MessageQueue, message: SapMsg)
        ensures
            final(queue)@ == old(queue)@,
    {
    }
}

} // verus!
