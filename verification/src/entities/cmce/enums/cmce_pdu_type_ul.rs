//! The PDU types that a mobile sends to circuit mode control.

use vstd::prelude::*;

verus! {

/// The width of the PDU type field that every CMCE PDU starts with.
pub const CMCE_PDU_TYPE_BITS: usize = 5;

/// Uplink CMCE PDU types. The values of the field that are not listed are
/// reserved.
#[derive(Clone, Copy, Debug, PartialEq, Eq, Structural)]
pub enum CmcePduTypeUl {
    UAlert,
    UConnect,
    UDisconnect,
    UInfo,
    URelease,
    USetup,
    UStatus,
    UTxCeased,
    UTxDemand,
    UCallRestore,
    USdsData,
    UFacility,
    CmceFunctionNotSupported,
}

impl CmcePduTypeUl {
    /// The value of the PDU type field. Every PDU type is found again from its
    /// value.
    pub open spec fn spec_into_raw(self) -> u64 {
        match self {
            CmcePduTypeUl::UAlert => 0,
            CmcePduTypeUl::UConnect => 2,
            CmcePduTypeUl::UDisconnect => 4,
            CmcePduTypeUl::UInfo => 5,
            CmcePduTypeUl::URelease => 6,
            CmcePduTypeUl::USetup => 7,
            CmcePduTypeUl::UStatus => 8,
            CmcePduTypeUl::UTxCeased => 9,
            CmcePduTypeUl::UTxDemand => 10,
            CmcePduTypeUl::UCallRestore => 14,
            CmcePduTypeUl::USdsData => 15,
            CmcePduTypeUl::UFacility => 16,
            CmcePduTypeUl::CmceFunctionNotSupported => 31,
        }
    }

    /// The PDU type that a value of the field names, if it names one.
    pub open spec fn spec_try_from(v: u64) -> Result<CmcePduTypeUl, u64> {
        if v == 0 {
            Ok(CmcePduTypeUl::UAlert)
        } else if v == 2 {
            Ok(CmcePduTypeUl::UConnect)
        } else if v == 4 {
            Ok(CmcePduTypeUl::UDisconnect)
        } else if v == 5 {
            Ok(CmcePduTypeUl::UInfo)
        } else if v == 6 {
            Ok(CmcePduTypeUl::URelease)
        } else if v == 7 {
            Ok(CmcePduTypeUl::USetup)
        } else if v == 8 {
            Ok(CmcePduTypeUl::UStatus)
        } else if v == 9 {
            Ok(CmcePduTypeUl::UTxCeased)
        } else if v == 10 {
            Ok(CmcePduTypeUl::UTxDemand)
        } else if v == 14 {
            Ok(CmcePduTypeUl::UCallRestore)
        } else if v == 15 {
            Ok(CmcePduTypeUl::USdsData)
        } else if v == 16 {
            Ok(CmcePduTypeUl::UFacility)
        } else if v == 31 {
            Ok(CmcePduTypeUl::CmceFunctionNotSupported)
        } else {
            Err(v)
        }
    }

    #[verifier::when_used_as_spec(spec_into_raw)]
    pub fn into_raw(self) -> (v: u64)
        ensures
            v == self.spec_into_raw(),
            v < 32,
            CmcePduTypeUl::spec_try_from(v) == Ok::<CmcePduTypeUl, u64>(self),
    {
        match self {
            CmcePduTypeUl::UAlert => 0,
            CmcePduTypeUl::UConnect => 2,
            CmcePduTypeUl::UDisconnect => 4,
            CmcePduTypeUl::UInfo => 5,
            CmcePduTypeUl::URelease => 6,
            CmcePduTypeUl::USetup => 7,
            CmcePduTypeUl::UStatus => 8,
            CmcePduTypeUl::UTxCeased => 9,
            CmcePduTypeUl::UTxDemand => 10,
            CmcePduTypeUl::UCallRestore => 14,
            CmcePduTypeUl::USdsData => 15,
            CmcePduTypeUl::UFacility => 16,
            CmcePduTypeUl::CmceFunctionNotSupported => 31,
        }
    }

    /// The PDU type that `v` names, or `v` back where it names none.
    #[verifier::when_used_as_spec(spec_try_from)]
    pub fn try_from(v: u64) -> (r: Result<CmcePduTypeUl, u64>)
        ensures
            r == CmcePduTypeUl::spec_try_from(v),
            r matches Ok(t) ==> t.spec_into_raw() == v,
    {
        match v {
            0 => Ok(CmcePduTypeUl::UAlert),
            2 => Ok(CmcePduTypeUl::UConnect),
            4 => Ok(CmcePduTypeUl::UDisconnect),
            5 => Ok(CmcePduTypeUl::UInfo),
            6 => Ok(CmcePduTypeUl::URelease),
            7 => Ok(CmcePduTypeUl::USetup),
            8 => Ok(CmcePduTypeUl::UStatus),
            9 => Ok(CmcePduTypeUl::UTxCeased),
            10 => Ok(CmcePduTypeUl::UTxDemand),
            14 => Ok(CmcePduTypeUl::UCallRestore),
            15 => Ok(CmcePduTypeUl::USdsData),
            16 => Ok(CmcePduTypeUl::UFacility),
            31 => Ok(CmcePduTypeUl::CmceFunctionNotSupported),
            _ => Err(v),
        }
    }
}

} // verus!
