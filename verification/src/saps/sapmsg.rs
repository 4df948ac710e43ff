//! The envelope in which every primitive travels.

use crate::saps::control::MmSubscriberUpdate;
use crate::saps::lcmc::LcmcMleActivityReq;
use crate::saps::lcmc::LcmcMleBreakInd;
use crate::saps::lcmc::LcmcMleBusyInd;
use crate::saps::lcmc::LcmcMleCancelReq;
use crate::saps::lcmc::LcmcMleCloseInd;
use crate::saps::lcmc::LcmcMleConfigureInd;
use crate::saps::lcmc::LcmcMleConfigureReq;
use crate::saps::lcmc::LcmcMleDisableInd;
use crate::saps::lcmc::LcmcMleEnableInd;
use crate::saps::lcmc::LcmcMleIdentitiesReq;
use crate::saps::lcmc::LcmcMleIdleInd;
use crate::saps::lcmc::LcmcMleInfoInd;
use crate::saps::lcmc::LcmcMleOpenInd;
use crate::saps::lcmc::LcmcMleReopenInd;
use crate::saps::lcmc::LcmcMleReportInd;
use crate::saps::lcmc::LcmcMleRestoreConf;
use crate::saps::lcmc::LcmcMleRestoreReq;
use crate::saps::lcmc::LcmcMleResumeInd;
use crate::saps::lcmc::LcmcMleUnitdataInd;
use crate::saps::lcmc::LcmcMleUnitdataReq;
use crate::saps::lmm::LmmMleUnitdataInd;
use crate::saps::lmm::LmmMleUnitdataReq;
use crate::tdma_time::TdmaTime;
use crate::tetra_common::Sap;
use crate::tetra_entities::TetraEntity;
use vstd::prelude::*;

verus! {

/// The body of a primitive.
#[derive(Debug, Clone)]
pub enum SapMsgInner {
    LmmMleUnitdataReq(LmmMleUnitdataReq),
    LmmMleUnitdataInd(LmmMleUnitdataInd),
    LcmcMleActivityReq(LcmcMleActivityReq),
    LcmcMleBreakInd(LcmcMleBreakInd),
    LcmcMleBusyInd(LcmcMleBusyInd),
    LcmcMleCancelReq(LcmcMleCancelReq),
    LcmcMleCloseInd(LcmcMleCloseInd),
    LcmcMleConfigureReq(LcmcMleConfigureReq),
    LcmcMleConfigureInd(LcmcMleConfigureInd),
    LcmcMleDisableInd(LcmcMleDisableInd),
    LcmcMleEnableInd(LcmcMleEnableInd),
    LcmcMleIdentitiesReq(LcmcMleIdentitiesReq),
    LcmcMleIdleInd(LcmcMleIdleInd),
    LcmcMleInfoInd(LcmcMleInfoInd),
    LcmcMleOpenInd(LcmcMleOpenInd),
    LcmcMleReopenInd(LcmcMleReopenInd),
    LcmcMleReportInd(LcmcMleReportInd),
    LcmcMleRestoreReq(LcmcMleRestoreReq),
    LcmcMleRestoreConf(LcmcMleRestoreConf),
    LcmcMleResumeInd(LcmcMleResumeInd),
    LcmcMleUnitdataReq(LcmcMleUnitdataReq),
    LcmcMleUnitdataInd(LcmcMleUnitdataInd),
    MmSubscriberUpdate(MmSubscriberUpdate),
}

/// A primitive on its way from one entity to another.
#[derive(Debug, Clone)]
pub struct SapMsg {
    /// The service access point that the primitive belongs to.
    pub sap: Sap,
    /// The entity that sent it.
    pub src: TetraEntity,
    /// The entity that is to receive it.
    pub dest: TetraEntity,
    /// The downlink time at which it was sent.
    pub dltime: TdmaTime,
    /// The body of the primitive.
    pub msg: SapMsgInner,
}

} // verus!
