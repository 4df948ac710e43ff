//! Mobility management on the mobile side.
//!
//! The mobile side reads the PDU type of what the infrastructure sends and
//! knows the handler it belongs to. None of the handlers is written yet: every
//! PDU is dropped, and the caller is told of what type it was.

use crate::config::stack_config::SharedConfig;
use crate::entities::mm::enums::mm_pdu_type_dl::MmPduTypeDl;
use crate::entities::mm::enums::mm_pdu_type_ul::MM_PDU_TYPE_BITS;
use crate::entities::mm::mm_bs::pdu_bits;
use crate::entities::sink::Sink;
use crate::entities::TetraEntityTrait;
use crate::messagerouter::MessageQueue;
use crate::saps::sapmsg::SapMsg;
use crate::saps::sapmsg::SapMsgInner;
use crate::tetra_common::Sap;
use crate::tdma_time::TdmaTime;
use crate::tetra_entities::TetraEntity;
use crate::typed_pdu_fields::lemma_take_some;
use crate::typed_pdu_fields::peek;
use crate::typed_pdu_fields::take;
use vstd::prelude::*;

verus! {

/// Mobility management of a mobile.
pub struct MmMs {
    config: SharedConfig,
}

/// The PDU type of the PDU that a primitive carries, where its first four bits
/// name a downlink PDU type.
pub open spec fn dl_pdu_type_of(message: SapMsg) -> Option<MmPduTypeDl> {
    match take(pdu_bits(message), MM_PDU_TYPE_BITS as nat) {
        None => None,
        Some((bits, _)) => match MmPduTypeDl::spec_try_from(bits) {
            Ok(pdu_type) => Some(pdu_type),
            Err(_) => None,
        },
    }
}

/// A primitive that carries fewer than four bits names no PDU type.
pub proof fn lemma_short_names_no_type(message: SapMsg)
    requires
        pdu_bits(message).len() < MM_PDU_TYPE_BITS,
    ensures
        dl_pdu_type_of(message) is None,
{
    lemma_take_some(pdu_bits(message), MM_PDU_TYPE_BITS as nat);
}

impl MmMs {
    /// The shared configuration that the entity holds.
    pub closed spec fn shared_config(&self) -> SharedConfig {
        self.config
    }

    /// Mobility management that holds `config`.
    pub fn new(config: SharedConfig) -> (mm: MmMs)
        ensures
            mm.shared_config() == config,
    {
        MmMs { config }
    }

    /// Handles an indication: reads the PDU type from the first four bits. The
    /// PDU is dropped whatever its type; the queue stays as it is. Returns the
    /// PDU type, or `None` for a primitive with fewer than four bits or whose
    /// bits name no downlink PDU type.
    pub fn rx_lmm_mle_unitdata_ind(
        &mut self,
        queue: &mut MessageQueue,
        message: SapMsg,
    ) -> (dropped: Option<MmPduTypeDl>)
        requires
            message.msg is LmmMleUnitdataInd,
        ensures
            dropped == dl_pdu_type_of(message),
            *final(self) == *old(self),
            final(queue)@ == old(queue)@,
    {
        let bits = match &message.msg {
            SapMsgInner::LmmMleUnitdataInd(prim) => match peek(&prim.sdu, MM_PDU_TYPE_BITS) {
                Some(bits) => bits,
                None => {
                    return None;
                },
            },
            _ => {
                return None;
            },
        };
        match MmPduTypeDl::try_from(bits) {
            Ok(pdu_type) => Some(pdu_type),
            Err(_) => None,
        }
    }
}

impl TetraEntityTrait for MmMs {
    open spec fn spec_entity(&self) -> TetraEntity {
        TetraEntity::Mm
    }

    open spec fn spec_config(&self) -> Option<SharedConfig> {
        Some(self.shared_config())
    }

    fn entity(&self) -> (e: TetraEntity) {
        TetraEntity::Mm
    }

    /// MM serves the LMM-SAP and handles the indication on it.
    open spec fn accepts(&self, message: &SapMsg) -> bool {
        message.sap == Sap::LmmSap && message.msg is LmmMleUnitdataInd
    }

    fn can_accept(&self, message: &SapMsg) -> (b: bool) {
        message.sap == Sap::LmmSap && match &message.msg {
            SapMsgInner::LmmMleUnitdataInd(_) => true,
            _ => false,
        }
    }

    fn set_config(&mut self, config: SharedConfig)
        ensures
            final(self).shared_config() == config,
    {
        self.config = config;
    }

    /// Drops the primitive: the entity and the queue stay as they are.
    fn rx_prim(&mut self, queue: &mut MessageQueue, message: SapMsg)
        ensures
            *final(self) == *old(self),
            final(queue)@ == old(queue)@,
    {
        let _ = self.rx_lmm_mle_unitdata_ind(queue, message);
    }

    /// Mobility management has no turn at the start of a tick: nothing changes.
    fn tick_start(&mut self, queue: &mut MessageQueue, ts: Option<TdmaTime>)
        ensures
            *final(self) == *old(self),
            final(queue)@ == old(queue)@,
    {
    }

    /// Mobility management has no turn at the end of a tick: nothing changes, and the router
    /// is not asked to stop.
    fn tick_end(&mut self, queue: &mut MessageQueue, ts: Option<TdmaTime>) -> (stop: bool)
        ensures
            !stop,
            *final(self) == *old(self),
            final(queue)@ == old(queue)@,
    {
        false
    }

    fn as_sink(&mut self) -> (sink: Option<&mut Sink>) {
        None
    }
}

} // verus!
