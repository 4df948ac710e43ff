//! The PDU types that mobility management sends to a mobile.

use vstd::prelude::*;

verus! {

/// Downlink MM PDU types. The values 8, 13 and 14 of the field are reserved.
#[derive(Clone, Copy, Debug, PartialEq, Eq, Structural)]
pub enum MmPduTypeDl {
    DOtar,
    DAuthentication,
    DCkChangeDemand,
    DDisable,
    DEnable,
    DLocationUpdateAccept,
    DLocationUpdateCommand,
    DLocationUpdateReject,
    DLocationUpdateProceeding,
    DAttachDetachGroupIdentity,
    DAttachDetachGroupIdentityAcknowledgement,
    DMmStatus,
    MmPduFunctionNotSupported,
}

impl MmPduTypeDl {
    /// The value of the PDU type field. Every PDU type is found again from its
    /// value.
    pub open spec fn spec_into_raw(self) -> u64 {
        match self {
            MmPduTypeDl::DOtar => 0,
            MmPduTypeDl::DAuthentication => 1,
            MmPduTypeDl::DCkChangeDemand => 2,
            MmPduTypeDl::DDisable => 3,
            MmPduTypeDl::DEnable => 4,
            MmPduTypeDl::DLocationUpdateAccept => 5,
            MmPduTypeDl::DLocationUpdateCommand => 6,
            MmPduTypeDl::DLocationUpdateReject => 7,
            MmPduTypeDl::DLocationUpdateProceeding => 9,
            MmPduTypeDl::DAttachDetachGroupIdentity => 10,
            MmPduTypeDl::DAttachDetachGroupIdentityAcknowledgement => 11,
            MmPduTypeDl::DMmStatus => 12,
            MmPduTypeDl::MmPduFunctionNotSupported => 15,
        }
    }

    /// The PDU type that a value of the field names, if it names one.
    pub open spec fn spec_try_from(v: u64) -> Result<MmPduTypeDl, u64> {
        if v == 0 {
            Ok(MmPduTypeDl::DOtar)
        } else if v == 1 {
            Ok(MmPduTypeDl::DAuthentication)
        } else if v == 2 {
            Ok(MmPduTypeDl::DCkChangeDemand)
        } else if v == 3 {
            Ok(MmPduTypeDl::DDisable)
        } else if v == 4 {
            Ok(MmPduTypeDl::DEnable)
        } else if v == 5 {
            Ok(MmPduTypeDl::DLocationUpdateAccept)
        } else if v == 6 {
            Ok(MmPduTypeDl::DLocationUpdateCommand)
        } else if v == 7 {
            Ok(MmPduTypeDl::DLocationUpdateReject)
        } else if v == 9 {
            Ok(MmPduTypeDl::DLocationUpdateProceeding)
        } else if v == 10 {
            Ok(MmPduTypeDl::DAttachDetachGroupIdentity)
        } else if v == 11 {
            Ok(MmPduTypeDl::DAttachDetachGroupIdentityAcknowledgement)
        } else if v == 12 {
            Ok(MmPduTypeDl::DMmStatus)
        } else if v == 15 {
            Ok(MmPduTypeDl::MmPduFunctionNotSupported)
        } else {
            Err(v)
        }
    }

    #[verifier::when_used_as_spec(spec_into_raw)]
    pub fn into_raw(self) -> (v: u64)
        ensures
            v == self.spec_into_raw(),
            v < 16,
            MmPduTypeDl::spec_try_from(v) == Ok::<MmPduTypeDl, u64>(self),
    {
        match self {
            MmPduTypeDl::DOtar => 0,
            MmPduTypeDl::DAuthentication => 1,
            MmPduTypeDl::DCkChangeDemand => 2,
            MmPduTypeDl::DDisable => 3,
            MmPduTypeDl::DEnable => 4,
            MmPduTypeDl::DLocationUpdateAccept => 5,
            MmPduTypeDl::DLocationUpdateCommand => 6,
            MmPduTypeDl::DLocationUpdateReject => 7,
            MmPduTypeDl::DLocationUpdateProceeding => 9,
            MmPduTypeDl::DAttachDetachGroupIdentity => 10,
            MmPduTypeDl::DAttachDetachGroupIdentityAcknowledgement => 11,
            MmPduTypeDl::DMmStatus => 12,
            MmPduTypeDl::MmPduFunctionNotSupported => 15,
        }
    }

    /// The PDU type that `v` names, or `v` back where it names none.
    #[verifier::when_used_as_spec(spec_try_from)]
    pub fn try_from(v: u64) -> (r: Result<MmPduTypeDl, u64>)
        ensures
            r == MmPduTypeDl::spec_try_from(v),
            r matches Ok(t) ==> t.spec_into_raw() == v,
            r is Err <==> (v == 8 || v == 13 || v == 14 || v > 15),
    {
        match v {
            0 => Ok(MmPduTypeDl::DOtar),
            1 => Ok(MmPduTypeDl::DAuthentication),
            2 => Ok(MmPduTypeDl::DCkChangeDemand),
            3 => Ok(MmPduTypeDl::DDisable),
            4 => Ok(MmPduTypeDl::DEnable),
            5 => Ok(MmPduTypeDl::DLocationUpdateAccept),
            6 => Ok(MmPduTypeDl::DLocationUpdateCommand),
            7 => Ok(MmPduTypeDl::DLocationUpdateReject),
            9 => Ok(MmPduTypeDl::DLocationUpdateProceeding),
            10 => Ok(MmPduTypeDl::DAttachDetachGroupIdentity),
            11 => Ok(MmPduTypeDl::DAttachDetachGroupIdentityAcknowledgement),
            12 => Ok(MmPduTypeDl::DMmStatus),
            15 => Ok(MmPduTypeDl::MmPduFunctionNotSupported),
            _ => Err(v),
        }
    }
}

} // verus!
