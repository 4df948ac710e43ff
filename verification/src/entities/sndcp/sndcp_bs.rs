//! The packet data entity of a base station. It takes the primitives of its
//! service access point and drops them: packet data is not handled.

use crate::config::stack_config::SharedConfig;
use crate::entities::sink::Sink;
use crate::entities::TetraEntityTrait;
use crate::messagerouter::MessageQueue;
use crate::saps::sapmsg::SapMsg;
use crate::tetra_common::Sap;
use crate::tdma_time::TdmaTime;
use crate::tetra_entities::TetraEntity;
use vstd::prelude::*;

verus! {

/// The packet data entity.
pub struct Sndcp {
    config: SharedConfig,
}

impl Sndcp {
    /// The shared configuration that the entity holds.
    pub closed spec fn shared_config(&self) -> SharedConfig {
        self.config
    }

    /// A packet data entity that holds `config`.
    pub fn new(config: SharedConfig) -> (sndcp: Sndcp)
        ensures
            sndcp.shared_config() == config,
    {
        Sndcp { config }
    }
}

impl TetraEntityTrait for Sndcp {
    open spec fn spec_entity(&self) -> TetraEntity {
        TetraEntity::Sndcp
    }

    open spec fn spec_config(&self) -> Option<SharedConfig> {
        Some(self.shared_config())
    }

    fn entity(&self) -> (e: TetraEntity) {
        TetraEntity::Sndcp
    }

    /// SNDCP serves the TLPD-SAP.
    open spec fn accepts(&self, message: &SapMsg) -> bool {
        message.sap == Sap::TlpdSap
    }

    fn can_accept(&self, message: &SapMsg) -> (b: bool) {
        message.sap == Sap::TlpdSap
    }

    fn set_config(&mut self, config: SharedConfig)
        ensures
            final(self).shared_config() == config,
    {
        self.config = config;
    }

    /// Drops the primitive: the entity and the queue stay as they are.
    fn rx_prim(&mut self, queue: &mut MessageQueue, message: SapMsg)
        ensures
            *final(self) == *old(self),
            final(queue)@ == old(queue)@,
    {
    }

    /// SNDCP has no turn at the start of a tick: nothing changes.
    fn tick_start(&mut self, queue: &mut MessageQueue, ts: Option<TdmaTime>)
        ensures
            *final(self) == *old(self),
            final(queue)@ == old(queue)@,
    {
    }

    /// SNDCP has no turn at the end of a tick: nothing changes, and the router
    /// is not asked to stop.
    fn tick_end(&mut self, queue: &mut MessageQueue, ts: Option<TdmaTime>) -> (stop: bool)
        ensures
            !stop,
            *final(self) == *old(self),
            final(queue)@ == old(queue)@,
    {
        false
    }

    fn as_sink(&mut self) -> (sink: Option<&mut Sink>) {
        None
    }
}

} // verus!
