//! The primitives of the LMM-SAP, between MLE and mobility management.

use crate::address::TetraAddress;
use crate::bitbuffer::BitBuffer;
use crate::tetra_common::Uninterpreted;
use vstd::prelude::*;

verus! {

/// MLE-UNITDATA request: MM sends a PDU to its peer.
#[derive(Debug, Clone)]
pub struct LmmMleUnitdataReq {
    pub sdu: BitBuffer,
    pub handle: Uninterpreted,
    pub address: TetraAddress,
    pub layer2service: Uninterpreted,
    pub stealing_permission: bool,
    pub stealing_repeats_flag: bool,
    pub encryption_flag: bool,
    pub is_null_pdu: bool,
}

/// MLE-UNITDATA indication: the MLE passes to MM a PDU received from its peer.
#[derive(Debug, Clone)]
pub struct LmmMleUnitdataInd {
    pub sdu: BitBuffer,
    pub handle: Uninterpreted,
    pub received_address: TetraAddress,
}

} // verus!
