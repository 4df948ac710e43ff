//! The short data service (clause 13).

use vstd::prelude::*;

verus! {

/// The short data service sub-entity. It handles nothing yet.
pub struct SdsSubentity {}

impl SdsSubentity {
    pub fn new() -> (sds: SdsSubentity)
        ensures
            sds == (SdsSubentity {  }),
    {
        SdsSubentity {  }
    }
}

} // verus!
