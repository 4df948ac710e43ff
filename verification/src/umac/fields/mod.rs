//! Fields that the MAC governs.

use vstd::prelude::*;

pub mod endpoint_id;

verus! {

/// A short label that the MAC assigns in place of an address.
pub type EventLabel = u16;

} // verus!
