//! The PDU types that a mobile sends to mobility management.

use vstd::prelude::*;

verus! {

/// The width of the PDU type field that every MM PDU starts with.
pub const MM_PDU_TYPE_BITS: usize = 4;

/// Uplink MM PDU types. The values 10 and 12 to 14 of the field are reserved.
#[derive(Clone, Copy, Debug, PartialEq, Eq, Structural)]
pub enum MmPduTypeUl {
    UAuthentication,
    UItsiDetach,
    ULocationUpdateDemand,
    UMmStatus,
    UCkChangeResult,
    UOtar,
    UInformationProvide,
    UAttachDetachGroupIdentity,
    UAttachDetachGroupIdentityAcknowledgement,
    UTeiProvide,
    UDisableStatus,
    MmPduFunctionNotSupported,
}

impl MmPduTypeUl {
    /// The value of the PDU type field. Every PDU type is found again from its
    /// value.
    pub open spec fn spec_into_raw(self) -> u64 {
        match self {
            MmPduTypeUl::UAuthentication => 0,
            MmPduTypeUl::UItsiDetach => 1,
            MmPduTypeUl::ULocationUpdateDemand => 2,
            MmPduTypeUl::UMmStatus => 3,
            MmPduTypeUl::UCkChangeResult => 4,
            MmPduTypeUl::UOtar => 5,
            MmPduTypeUl::UInformationProvide => 6,
            MmPduTypeUl::UAttachDetachGroupIdentity => 7,
            MmPduTypeUl::UAttachDetachGroupIdentityAcknowledgement => 8,
            MmPduTypeUl::UTeiProvide => 9,
            MmPduTypeUl::UDisableStatus => 11,
            MmPduTypeUl::MmPduFunctionNotSupported => 15,
        }
    }

    /// The PDU type that a value of the field names, if it names one.
    pub open spec fn spec_try_from(v: u64) -> Result<MmPduTypeUl, u64> {
        if v == 0 {
            Ok(MmPduTypeUl::UAuthentication)
        } else if v == 1 {
            Ok(MmPduTypeUl::UItsiDetach)
        } else if v == 2 {
            Ok(MmPduTypeUl::ULocationUpdateDemand)
        } else if v == 3 {
            Ok(MmPduTypeUl::UMmStatus)
        } else if v == 4 {
            Ok(MmPduTypeUl::UCkChangeResult)
        } else if v == 5 {
            Ok(MmPduTypeUl::UOtar)
        } else if v == 6 {
            Ok(MmPduTypeUl::UInformationProvide)
        } else if v == 7 {
            Ok(MmPduTypeUl::UAttachDetachGroupIdentity)
        } else if v == 8 {
            Ok(MmPduTypeUl::UAttachDetachGroupIdentityAcknowledgement)
        } else if v == 9 {
            Ok(MmPduTypeUl::UTeiProvide)
        } else if v == 11 {
            Ok(MmPduTypeUl::UDisableStatus)
        } else if v == 15 {
            Ok(MmPduTypeUl::MmPduFunctionNotSupported)
        } else {
            Err(v)
        }
    }

    #[verifier::when_used_as_spec(spec_into_raw)]
    pub fn into_raw(self) -> (v: u64)
        ensures
            v == self.spec_into_raw(),
            v < 16,
            MmPduTypeUl::spec_try_from(v) == Ok::<MmPduTypeUl, u64>(self),
    {
        match self {
            MmPduTypeUl::UAuthentication => 0,
            MmPduTypeUl::UItsiDetach => 1,
            MmPduTypeUl::ULocationUpdateDemand => 2,
            MmPduTypeUl::UMmStatus => 3,
            MmPduTypeUl::UCkChangeResult => 4,
            MmPduTypeUl::UOtar => 5,
            MmPduTypeUl::UInformationProvide => 6,
            MmPduTypeUl::UAttachDetachGroupIdentity => 7,
            MmPduTypeUl::UAttachDetachGroupIdentityAcknowledgement => 8,
            MmPduTypeUl::UTeiProvide => 9,
            MmPduTypeUl::UDisableStatus => 11,
            MmPduTypeUl::MmPduFunctionNotSupported => 15,
        }
    }

    /// The PDU type that `v` names, or `v` back where it names none.
    #[verifier::when_used_as_spec(spec_try_from)]
    pub fn try_from(v: u64) -> (r: Result<MmPduTypeUl, u64>)
        ensures
            r == MmPduTypeUl::spec_try_from(v),
            r matches Ok(t) ==> t.spec_into_raw() == v,
            r is Err <==> (v == 10 || (12 <= v <= 14) || v > 15),
    {
        match v {
            0 => Ok(MmPduTypeUl::UAuthentication),
            1 => Ok(MmPduTypeUl::UItsiDetach),
            2 => Ok(MmPduTypeUl::ULocationUpdateDemand),
            3 => Ok(MmPduTypeUl::UMmStatus),
            4 => Ok(MmPduTypeUl::UCkChangeResult),
            5 => Ok(MmPduTypeUl::UOtar),
            6 => Ok(MmPduTypeUl::UInformationProvide),
            7 => Ok(MmPduTypeUl::UAttachDetachGroupIdentity),
            8 => Ok(MmPduTypeUl::UAttachDetachGroupIdentityAcknowledgement),
            9 => Ok(MmPduTypeUl::UTeiProvide),
            11 => Ok(MmPduTypeUl::UDisableStatus),
            15 => Ok(MmPduTypeUl::MmPduFunctionNotSupported),
            _ => Err(v),
        }
    }
}

} // verus!
