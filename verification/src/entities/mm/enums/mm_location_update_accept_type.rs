//! What kind of location update an accept answers.

use vstd::prelude::*;

verus! {

/// The location update accept type, a field of three bits all of whose values
/// are defined.
#[derive(Clone, Copy, Debug, PartialEq, Eq, Structural)]
pub enum MmLocationUpdateAcceptType {
    RoamingLocationUpdating,
    TemporaryRegistration,
    PeriodicLocationUpdating,
    ItsiAttach,
    CallRestorationRoamingLocationUpdating,
    MigratingOrCallRestorationMigratingLocationUpdating,
    DemandLocationUpdating,
    DisabledMsUpdating,
}

impl MmLocationUpdateAcceptType {
    /// The value of the field.
    pub open spec fn spec_into_raw(self) -> u64 {
        match self {
            MmLocationUpdateAcceptType::RoamingLocationUpdating => 0,
            MmLocationUpdateAcceptType::TemporaryRegistration => 1,
            MmLocationUpdateAcceptType::PeriodicLocationUpdating => 2,
            MmLocationUpdateAcceptType::ItsiAttach => 3,
            MmLocationUpdateAcceptType::CallRestorationRoamingLocationUpdating => 4,
            MmLocationUpdateAcceptType::MigratingOrCallRestorationMigratingLocationUpdating => 5,
            MmLocationUpdateAcceptType::DemandLocationUpdating => 6,
            MmLocationUpdateAcceptType::DisabledMsUpdating => 7,
        }
    }

    /// The accept type that the three low bits of `v` name.
    pub open spec fn spec_from_raw(v: u64) -> MmLocationUpdateAcceptType {
        if v % 8 == 0 {
            MmLocationUpdateAcceptType::RoamingLocationUpdating
        } else if v % 8 == 1 {
            MmLocationUpdateAcceptType::TemporaryRegistration
        } else if v % 8 == 2 {
            MmLocationUpdateAcceptType::PeriodicLocationUpdating
        } else if v % 8 == 3 {
            MmLocationUpdateAcceptType::ItsiAttach
        } else if v % 8 == 4 {
            MmLocationUpdateAcceptType::CallRestorationRoamingLocationUpdating
        } else if v % 8 == 5 {
            MmLocationUpdateAcceptType::MigratingOrCallRestorationMigratingLocationUpdating
        } else if v % 8 == 6 {
            MmLocationUpdateAcceptType::DemandLocationUpdating
        } else {
            MmLocationUpdateAcceptType::DisabledMsUpdating
        }
    }

    #[verifier::when_used_as_spec(spec_into_raw)]
    pub fn into_raw(self) -> (v: u64)
        ensures
            v == self.spec_into_raw(),
            v < 8,
    {
        match self {
            MmLocationUpdateAcceptType::RoamingLocationUpdating => 0,
            MmLocationUpdateAcceptType::TemporaryRegistration => 1,
            MmLocationUpdateAcceptType::PeriodicLocationUpdating => 2,
            MmLocationUpdateAcceptType::ItsiAttach => 3,
            MmLocationUpdateAcceptType::CallRestorationRoamingLocationUpdating => 4,
            MmLocationUpdateAcceptType::MigratingOrCallRestorationMigratingLocationUpdating => 5,
            MmLocationUpdateAcceptType::DemandLocationUpdating => 6,
            MmLocationUpdateAcceptType::DisabledMsUpdating => 7,
        }
    }

    #[verifier::when_used_as_spec(spec_from_raw)]
    pub fn from_raw(v: u64) -> (t: MmLocationUpdateAcceptType)
        ensures
            t == MmLocationUpdateAcceptType::spec_from_raw(v),
            v < 8 ==> t.spec_into_raw() == v,
    {
        match v % 8 {
            0 => MmLocationUpdateAcceptType::RoamingLocationUpdating,
            1 => MmLocationUpdateAcceptType::TemporaryRegistration,
            2 => MmLocationUpdateAcceptType::PeriodicLocationUpdating,
            3 => MmLocationUpdateAcceptType::ItsiAttach,
            4 => MmLocationUpdateAcceptType::CallRestorationRoamingLocationUpdating,
            5 => MmLocationUpdateAcceptType::MigratingOrCallRestorationMigratingLocationUpdating,
            6 => MmLocationUpdateAcceptType::DemandLocationUpdating,
            _ => MmLocationUpdateAcceptType::DisabledMsUpdating,
        }
    }

    /// Every accept type is found again from its value.
    pub proof fn lemma_from_raw_into_raw(self)
        ensures
            MmLocationUpdateAcceptType::spec_from_raw(self.spec_into_raw()) == self,
    {
    }
}

} // verus!
