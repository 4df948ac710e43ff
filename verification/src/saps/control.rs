//! Management primitives, which reach the stack from outside the protocol layers.

use vstd::prelude::*;

verus! {

/// What happened to a subscriber.
#[derive(Debug, Clone, Copy, PartialEq, Eq, Structural)]
pub enum BrewSubscriberAction {
    /// The subscriber registered with the cell.
    Register,
    /// The subscriber attached to the groups of the update.
    Affiliate,
    /// The subscriber left the cell.
    Deregister,
    /// The subscriber detached from the groups of the update.
    Detach,
}

/// An update on one subscriber, by its ISSI, and the groups it concerns.
#[derive(Debug, Clone)]
pub struct MmSubscriberUpdate {
    pub issi: u32,
    pub groups: Vec<u32>,
    pub action: BrewSubscriberAction,
}

} // verus!
