//! Who takes part in a call.

use vstd::prelude::*;

verus! {

/// The communication type, a field of two bits all of whose values are defined.
#[derive(Clone, Copy, Debug, PartialEq, Eq, Structural)]
pub enum CommunicationType {
    /// Point to point.
    P2p,
    /// Point to multipoint.
    P2Mp,
    /// Point to multipoint, acknowledged.
    P2MpAcked,
    /// Broadcast.
    Broadcast,
}

impl CommunicationType {
    /// The value of the field.
    pub open spec fn spec_into_raw(self) -> u64 {
        match self {
            CommunicationType::P2p => 0,
            CommunicationType::P2Mp => 1,
            CommunicationType::P2MpAcked => 2,
            CommunicationType::Broadcast => 3,
        }
    }

    /// The value that the low bits of `v` name.
    pub open spec fn spec_from_raw(v: u64) -> CommunicationType {
        if v % 4 == 0 {
            CommunicationType::P2p
        } else if v % 4 == 1 {
            CommunicationType::P2Mp
        } else if v % 4 == 2 {
            CommunicationType::P2MpAcked
        } else {
            CommunicationType::Broadcast
        }
    }

    #[verifier::when_used_as_spec(spec_into_raw)]
    pub fn into_raw(self) -> (v: u64)
        ensures
            v == self.spec_into_raw(),
            v < 4,
    {
        match self {
            CommunicationType::P2p => 0,
            CommunicationType::P2Mp => 1,
            CommunicationType::P2MpAcked => 2,
            CommunicationType::Broadcast => 3,
        }
    }

    #[verifier::when_used_as_spec(spec_from_raw)]
    pub fn from_raw(v: u64) -> (t: CommunicationType)
        ensures
            t == CommunicationType::spec_from_raw(v),
            v < 4 ==> t.spec_into_raw() == v,
    {
        match v % 4 {
            0 => CommunicationType::P2p,
            1 => CommunicationType::P2Mp,
            2 => CommunicationType::P2MpAcked,
            _ => CommunicationType::Broadcast,
        }
    }

    /// Every value of the enumeration is found again from its number.
    pub proof fn lemma_from_raw_into_raw(self)
        ensures
            CommunicationType::spec_from_raw(self.spec_into_raw()) == self,
    {
    }
}

} // verus!
