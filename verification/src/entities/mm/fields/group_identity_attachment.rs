//! How long a group attachment lasts and what the group is used for.

use vstd::prelude::*;

verus! {

/// The attachment that the infrastructure grants for one group.
#[derive(Clone, Copy, Debug, PartialEq, Eq, Structural)]
pub struct GroupIdentityAttachment {
    /// 2 bits; 3 asks the mobile to attach again after the next location update.
    pub group_identity_attachment_lifetime: u64,
    /// 3 bits.
    pub class_of_usage: u64,
}

} // verus!
