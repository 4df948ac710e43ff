//! The primitives of the LCMC-SAP, between MLE and CMCE (clause 17.3.3).

use crate::address::TetraAddress;
use crate::bitbuffer::BitBuffer;
use crate::tetra_common::Uninterpreted;
use crate::tx_receipt::TxReporter;
use vstd::prelude::*;

verus! {

/// MLE-ACTIVITY request: the CMCE informs the MLE of the state of any circuit
/// mode calls.
#[derive(Debug, Clone)]
pub struct LcmcMleActivityReq {
    pub call_state: Uninterpreted,
}

/// MLE-BREAK indication: access to the communication resources is temporarily
/// unavailable and the data transfer service cannot be used.
#[derive(Debug, Clone)]
pub struct LcmcMleBreakInd {
    pub permitted_services_in_ms_graceful_service_degradation_mode: Uninterpreted,
}

/// MLE-BUSY indication: an MM protocol exchange is in progress.
#[derive(Debug, Clone)]
pub struct LcmcMleBusyInd {}

/// MLE-CANCEL request: the CMCE deletes a previous request that was issued but
/// not yet transmitted.
#[derive(Debug, Clone)]
pub struct LcmcMleCancelReq {
    pub handle: Uninterpreted,
}

/// MLE-CLOSE indication: access to the communication resources has been removed.
#[derive(Debug, Clone)]
pub struct LcmcMleCloseInd {}

/// MLE-CONFIGURE request: inter-layer management information relating to
/// circuit mode calls.
#[derive(Debug, Clone)]
pub struct LcmcMleConfigureReq {
    pub endpoint_id: Uninterpreted,
    pub chan_change_accepted: bool,
    pub chan_change_handle: Uninterpreted,
    pub call_release: Uninterpreted,
    pub encryption_flag: bool,
    pub circuit_mode_type: Uninterpreted,
    pub simplex_duplex: bool,
    pub add_temp_gssi: Uninterpreted,
    pub del_temp_gssi: Uninterpreted,
    pub tx_grant: Uninterpreted,
    pub switch_u_plane: Uninterpreted,
}

/// MLE-CONFIGURE indication: inter-layer management information relating to
/// circuit mode calls and packet data conflicts.
#[derive(Debug, Clone)]
pub struct LcmcMleConfigureInd {
    pub endpoint_id: Uninterpreted,
    pub chan_change_responce_required: bool,
    pub chan_change_handle: Uninterpreted,
    pub reason_for_config_indication: Uninterpreted,
    pub conflicting_endpoint_id: Uninterpreted,
}

/// MLE-DISABLE indication: the CMCE is to enter the temporarily disabled state.
#[derive(Debug, Clone)]
pub struct LcmcMleDisableInd {
    pub permitted_services_in_temp_disabled_mode: Uninterpreted,
}

/// MLE-ENABLE indication: the CMCE is to recover from the temporarily disabled
/// state.
#[derive(Debug, Clone)]
pub struct LcmcMleEnableInd {}

/// MLE-IDENTITIES request: the CMCE informs the MLE and layer 2 of a change to
/// the list of group identities.
#[derive(Debug, Clone)]
pub struct LcmcMleIdentitiesReq {
    pub gssi_list: Vec<Uninterpreted>,
}

/// MLE-IDLE indication: an MM protocol exchange has completed.
#[derive(Debug, Clone)]
pub struct LcmcMleIdleInd {}

/// MLE-INFO indication: a change in system broadcast parameters.
#[derive(Debug, Clone)]
pub struct LcmcMleInfoInd {
    pub broadcast_params: Uninterpreted,
    pub subscriber_class_match: Uninterpreted,
    pub permitted_cell_info: Uninterpreted,
}

/// MLE-OPEN indication: the CMCE has access to the communication resources.
#[derive(Debug, Clone)]
pub struct LcmcMleOpenInd {
    pub mcc: Uninterpreted,
    pub mnc: Uninterpreted,
}

/// MLE-REOPEN indication: access to the communication resources is available
/// again after a failed call restoration.
#[derive(Debug, Clone)]
pub struct LcmcMleReopenInd {}

/// MLE-REPORT indication: the completion of an MLE-UNITDATA request procedure.
#[derive(Debug, Clone)]
pub struct LcmcMleReportInd {
    pub handle: Uninterpreted,
    pub transfer_result: Uninterpreted,
    pub channel_change_response_required: bool,
    pub channel_change_handle: Uninterpreted,
}

/// MLE-RESTORE request: the CMCE restores a call after a cell reselection.
#[derive(Debug, Clone)]
pub struct LcmcMleRestoreReq {
    pub sdu: Uninterpreted,
    pub handle: Uninterpreted,
    pub layer2service: Uninterpreted,
    pub pdu_prio: Uninterpreted,
    pub stealing_permission: bool,
    pub stealing_repeats_flag: bool,
}

/// MLE-RESTORE confirm: the success or failure of a call restoration.
#[derive(Debug, Clone)]
pub struct LcmcMleRestoreConf {
    pub sdu: Uninterpreted,
    pub handle: Uninterpreted,
}

/// MLE-RESUME indication: access to the communication resources is available
/// again and the CMCE may attempt to restore circuit mode calls.
#[derive(Debug, Clone)]
pub struct LcmcMleResumeInd {
    pub mcc: Uninterpreted,
    pub mnc: Uninterpreted,
}

/// The traffic channel that goes with a PDU: which timeslot the call is given,
/// and under which usage marker.
#[derive(Debug, Clone, Copy, PartialEq, Eq, Structural)]
pub struct CmceChanAllocReq {
    /// The usage marker of the traffic channel, 6 bits.
    pub usage: Option<u8>,
    /// The timeslot of the traffic channel, 1 to 4.
    pub timeslot: u8,
}

/// MLE-UNITDATA request: the CMCE sends a PDU to its peer.
#[derive(Debug, Clone)]
pub struct LcmcMleUnitdataReq {
    pub sdu: BitBuffer,
    pub handle: Uninterpreted,
    pub endpoint_id: Uninterpreted,
    pub link_id: Uninterpreted,
    pub layer2service: Uninterpreted,
    pub pdu_prio: Uninterpreted,
    pub layer2_qos: Uninterpreted,
    pub stealing_permission: bool,
    pub stealing_repeats_flag: bool,
    /// Whether the PDU may be sent again where the first copy is lost.
    pub eligible_for_graceful_degradation: bool,
    /// The traffic channel that the PDU assigns, if it assigns one.
    pub chan_alloc: Option<CmceChanAllocReq>,
    /// Where the lower layers report what became of the PDU.
    pub tx_reporter: Option<TxReporter>,
}

/// MLE-UNITDATA indication: the MLE passes to the CMCE a PDU received from its
/// peer.
#[derive(Debug, Clone)]
pub struct LcmcMleUnitdataInd {
    pub sdu: BitBuffer,
    pub handle: Uninterpreted,
    pub endpoint_id: Uninterpreted,
    pub link_id: Uninterpreted,
    pub received_tetra_address: TetraAddress,
    pub chan_change_resp_req: bool,
    pub chan_change_handle: Option<Uninterpreted>,
}

} // verus!
