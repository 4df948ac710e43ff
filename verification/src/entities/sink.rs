//! A capture point for tests: an entity that claims an identity and keeps every
//! primitive that is sent to it.

use crate::config::stack_config::SharedConfig;
use crate::entities::TetraEntityTrait;
use crate::messagerouter::MessageQueue;
use crate::saps::sapmsg::SapMsg;
use crate::tdma_time::TdmaTime;
use crate::tetra_entities::TetraEntity;
use vstd::prelude::*;

verus! {

/// An entity that stands in for another and records what that one would have
/// received.
pub struct Sink {
    entity: TetraEntity,
    msgqueue: Vec<SapMsg>,
}

impl Sink {
    /// The primitives captured so far, oldest first.
    pub closed spec fn captured(&self) -> Seq<SapMsg> {
        self.msgqueue@
    }

    /// The identity that the sink claims.
    pub closed spec fn claimed(&self) -> TetraEntity {
        self.entity
    }

    /// A sink that claims the identity `entity` and has captured nothing.
    pub fn new(entity: TetraEntity) -> (sink: Sink)
        ensures
            sink.claimed() == entity,
            sink.captured() == Seq::<SapMsg>::empty(),
    {
        Sink { entity, msgqueue: Vec::new() }
    }

    /// Hands out the captured primitives, oldest first, and starts afresh.
    pub fn take_msgqueue(&mut self) -> (msgs: Vec<SapMsg>)
        ensures
            msgs@ == old(self).captured(),
            final(self).captured() == Seq::<SapMsg>::empty(),
            final(self).claimed() == old(self).claimed(),
    {
        let mut msgs: Vec<SapMsg> = Vec::new();
        std::mem::swap(&mut msgs, &mut self.msgqueue);
        msgs
    }

    /// The number of captured primitives.
    pub fn len(&self) -> (n: usize)
        ensures
            n == self.captured().len(),
    {
        self.msgqueue.len()
    }
}

impl TetraEntityTrait for Sink {
    open spec fn spec_entity(&self) -> TetraEntity {
        self.claimed()
    }

    fn entity(&self) -> (e: TetraEntity) {
        self.entity
    }

    /// A sink takes every primitive.
    open spec fn accepts(&self, message: &SapMsg) -> bool {
        true
    }

    fn can_accept(&self, message: &SapMsg) -> (b: bool) {
        true
    }

    /// Captures the primitive; the queue stays as it is.
    fn rx_prim(&mut self, queue: &mut MessageQueue, message: SapMsg)
        ensures
            final(self).captured() == old(self).captured().push(message),
            final(queue)@ == old(queue)@,
    {
        self.msgqueue.push(message);
    }

    /// A sink holds no configuration, and stays as it is.
    fn set_config(&mut self, config: SharedConfig)
        ensures
            *final(self) == *old(self),
    {
    }

    open spec fn spec_captures(&self) -> bool {
        true
    }

    open spec fn spec_captured(&self) -> Seq<SapMsg> {
        self.captured()
    }

    /// A sink has no turn at the start of a tick: nothing changes.
    fn tick_start(&mut self, queue: &mut MessageQueue, ts: Option<TdmaTime>)
        ensures
            *final(self) == *old(self),
            final(queue)@ == old(queue)@,
    {
    }

    /// A sink has no turn at the end of a tick: nothing changes, and the router
    /// is not asked to stop.
    fn tick_end(&mut self, queue: &mut MessageQueue, ts: Option<TdmaTime>) -> (stop: bool)
        ensures
            !stop,
            *final(self) == *old(self),
            final(queue)@ == old(queue)@,
    {
        false
    }

    fn as_sink(&mut self) -> (sink: Option<&mut Sink>) {
        Some(self)
    }
}

} // verus!
