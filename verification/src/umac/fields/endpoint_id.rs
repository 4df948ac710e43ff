//! The identifier of a MAC resource.

use vstd::prelude::*;

verus! {

/// The endpoint identifiers between the MLE and LLC, and between the LLC and
/// MAC, refer to the MAC resource that is used for a service. There is a unique
/// correspondence between the endpoint identifier and the timeslot or timeslots
/// used in the MAC, which only the MAC knows. Here it is the timeslot number.
pub type EndpointId = u8;

} // verus!
