//! The protocol entities and the contract that the router holds them to.

use crate::config::stack_config::SharedConfig;
use crate::entities::cmce::cmce_bs::CmceBs;
use crate::entities::mm::mm_bs::MmBs;
use crate::entities::mm::mm_ms::MmMs;
use crate::entities::sink::Sink;
use crate::entities::sndcp::sndcp_bs::Sndcp;
use crate::messagerouter::MessageQueue;
use crate::saps::sapmsg::SapMsg;
use crate::tdma_time::TdmaTime;
use crate::tetra_entities::TetraEntity;
use vstd::prelude::*;

pub mod cmce;
pub mod mm;
pub mod sink;
pub mod sndcp;

verus! {

/// What the router asks of an entity.
///
/// An entity has one identity, which never changes. It is handed the primitives
/// addressed to that identity, one at a time, and gets a turn at the start and
/// at the end of every tick. Whatever it does in a turn, it leaves the
/// primitives that already wait in the queue where they are and only adds
/// primitives at the end.
///
/// `spec_entity` and `accepts` say in contracts what `entity` and `can_accept`
/// compute. An entity that is written outside verified code, such as a PHY,
/// defines them as ordinary functions that return the same. `spec_config`,
/// `spec_captures`, `spec_captured` and `spec_may_stop` say what the entity
/// holds and does; unless an entity says otherwise, it holds no configuration
/// handle, is no sink and never asks the router to stop.
pub trait TetraEntityTrait {
    /// The identity of the entity.
    spec fn spec_entity(&self) -> TetraEntity;

    /// The identity of the entity.
    fn entity(&self) -> (e: TetraEntity)
        ensures
            e == self.spec_entity(),
    ;

    /// Whether the entity takes this primitive: its service access point is one
    /// that the entity serves, and its body one that the entity handles. To hand
    /// an entity a primitive that it does not take is a programming fault. What
    /// an entity takes is fixed: nothing that is done with the entity changes it.
    spec fn accepts(&self, message: &SapMsg) -> bool;

    /// Whether the entity takes this primitive.
    fn can_accept(&self, message: &SapMsg) -> (b: bool)
        ensures
            b == self.accepts(message),
    ;

    /// The configuration handle that the entity holds, if it holds one.
    open spec fn spec_config(&self) -> Option<SharedConfig> {
        None
    }

    /// Whether the entity is a sink: one that keeps every primitive that it is
    /// handed.
    open spec fn spec_captures(&self) -> bool {
        false
    }

    /// The primitives that the entity has captured and not yet handed out, oldest
    /// first, if it is a sink; of any other entity, none.
    open spec fn spec_captured(&self) -> Seq<SapMsg> {
        Seq::empty()
    }

    /// Whether the entity is one that may ask the router to stop at the end of
    /// a tick.
    open spec fn spec_may_stop(&self) -> bool {
        false
    }

    /// Hands the entity a primitive. The entity owns it for the call. A sink
    /// keeps it behind those that it has captured; no entity changes its
    /// configuration handle on that account.
    fn rx_prim(&mut self, queue: &mut MessageQueue, message: SapMsg)
        requires
            old(self).accepts(&message),
        ensures
            final(self).spec_entity() == old(self).spec_entity(),
            final(self).spec_config() == old(self).spec_config(),
            forall|any: SapMsg| (#[trigger] final(self).accepts(&any)) == old(self).accepts(&any),
            final(self).spec_captures() == old(self).spec_captures(),
            final(self).spec_may_stop() == old(self).spec_may_stop(),
            final(self).spec_captured() == if old(self).spec_captures() {
                old(self).spec_captured().push(message)
            } else {
                old(self).spec_captured()
            },
            old(queue)@.is_prefix_of(final(queue)@),
    ;

    /// Replaces the shared configuration handle: an entity that holds one holds
    /// `config` from now on.
    fn set_config(&mut self, config: SharedConfig)
        ensures
            final(self).spec_entity() == old(self).spec_entity(),
            final(self).spec_config() == match old(self).spec_config() {
                Some(_) => Some(config),
                None => None,
            },
            forall|any: SapMsg| (#[trigger] final(self).accepts(&any)) == old(self).accepts(&any),
            final(self).spec_captures() == old(self).spec_captures(),
            final(self).spec_may_stop() == old(self).spec_may_stop(),
            final(self).spec_captured() == old(self).spec_captured(),
    ;

    /// The entity's turn at the start of a tick.
    fn tick_start(&mut self, _queue: &mut MessageQueue, _ts: Option<TdmaTime>)
        ensures
            final(self).spec_entity() == old(self).spec_entity(),
            final(self).spec_config() == old(self).spec_config(),
            forall|any: SapMsg| (#[trigger] final(self).accepts(&any)) == old(self).accepts(&any),
            final(self).spec_captures() == old(self).spec_captures(),
            final(self).spec_may_stop() == old(self).spec_may_stop(),
            final(self).spec_captured() == old(self).spec_captured(),
            old(_queue)@.is_prefix_of(final(_queue)@),
    {
    }

    /// The entity's turn at the end of a tick. `true` asks the router to stop:
    /// only an entity that may stop asks. An entity that keeps this turn as it
    /// is here does nothing and never asks.
    fn tick_end(&mut self, _queue: &mut MessageQueue, _ts: Option<TdmaTime>) -> (stop: bool)
        ensures
            stop ==> old(self).spec_may_stop(),
            final(self).spec_entity() == old(self).spec_entity(),
            final(self).spec_config() == old(self).spec_config(),
            forall|any: SapMsg| (#[trigger] final(self).accepts(&any)) == old(self).accepts(&any),
            final(self).spec_captures() == old(self).spec_captures(),
            final(self).spec_may_stop() == old(self).spec_may_stop(),
            final(self).spec_captured() == old(self).spec_captured(),
            old(_queue)@.is_prefix_of(final(_queue)@),
    {
        false
    }

    /// The entity as a sink, if it is one: the safe downcast by which a test
    /// gets at what a sink has captured. The sink that is handed out is the
    /// entity itself: what the caller makes of it is what the entity becomes.
    fn as_sink(&mut self) -> (sink: Option<&mut Sink>)
        ensures
            sink is Some <==> old(self).spec_captures(),
            forall|any: SapMsg| (#[trigger] final(self).accepts(&any)) == old(self).accepts(&any),
            final(self).spec_captures() == old(self).spec_captures(),
            final(self).spec_may_stop() == old(self).spec_may_stop(),
            final(self).spec_config() == old(self).spec_config(),
            match sink {
                Some(s) => {
                    &&& s.claimed() == old(self).spec_entity()
                    &&& s.captured() == old(self).spec_captured()
                    &&& final(self).spec_entity() == final(s).claimed()
                    &&& final(self).spec_captured() == final(s).captured()
                },
                None => {
                    &&& final(self).spec_entity() == old(self).spec_entity()
                    &&& old(self).spec_captured() == Seq::<SapMsg>::empty()
                    &&& final(self).spec_captured() == Seq::<SapMsg>::empty()
                },
            },
    ;
}

/// A boxed entity of any type is an entity: every turn is handed on to what is
/// in the box.
impl TetraEntityTrait for Box<dyn TetraEntityTrait> {
    open spec fn spec_entity(&self) -> TetraEntity {
        (**self).spec_entity()
    }

    fn entity(&self) -> (e: TetraEntity) {
        (**self).entity()
    }

    open spec fn accepts(&self, message: &SapMsg) -> bool {
        (**self).accepts(message)
    }

    fn can_accept(&self, message: &SapMsg) -> (b: bool) {
        (**self).can_accept(message)
    }

    fn rx_prim(&mut self, queue: &mut MessageQueue, message: SapMsg) {
        (**self).rx_prim(queue, message)
    }

    fn set_config(&mut self, config: SharedConfig) {
        (**self).set_config(config)
    }

    fn tick_start(&mut self, queue: &mut MessageQueue, ts: Option<TdmaTime>) {
        (**self).tick_start(queue, ts)
    }

    fn tick_end(&mut self, queue: &mut MessageQueue, ts: Option<TdmaTime>) -> (stop: bool) {
        (**self).tick_end(queue, ts)
    }

    open spec fn spec_config(&self) -> Option<SharedConfig> {
        (**self).spec_config()
    }

    open spec fn spec_captures(&self) -> bool {
        (**self).spec_captures()
    }

    open spec fn spec_may_stop(&self) -> bool {
        (**self).spec_may_stop()
    }

    open spec fn spec_captured(&self) -> Seq<SapMsg> {
        (**self).spec_captured()
    }

    fn as_sink(&mut self) -> (sink: Option<&mut Sink>) {
        (**self).as_sink()
    }
}

/// An entity of the stack: one of the entities that this library holds, or one
/// that it does not know, such as a PHY that drives a radio. The router holds
/// all its entities as values of this one type.
pub enum StackEntity {
    MmBs(MmBs),
    MmMs(MmMs),
    CmceBs(CmceBs),
    Sndcp(Sndcp),
    Sink(Sink),
    /// An entity from outside this library.
    Other(Box<dyn TetraEntityTrait>),
}

/// What handling the primitive `message` makes of an entity of the stack and of
/// the queue: what it makes of the entity that it is. MM and the CMCE of a base
/// station handle it, MM of a mobile and SNDCP drop it, and a sink keeps it
/// behind those that it has captured. Of an entity from outside, only what
/// holds of every entity is known. An entity stays of the type that it was.
pub open spec fn primitive_handled(
    before: StackEntity,
    after: StackEntity,
    waiting: Seq<SapMsg>,
    queued: Seq<SapMsg>,
    message: SapMsg,
) -> bool {
    match (before, after) {
        (StackEntity::MmBs(b), StackEntity::MmBs(a)) => mm::mm_bs::indication_handled(
            b,
            a,
            waiting,
            queued,
            message,
        ),
        (StackEntity::MmMs(b), StackEntity::MmMs(a)) => a == b && queued == waiting,
        (StackEntity::CmceBs(b), StackEntity::CmceBs(a)) => cmce::cmce_bs::primitive_handled(
            b,
            a,
            waiting,
            queued,
            message,
        ),
        (StackEntity::Sndcp(b), StackEntity::Sndcp(a)) => a == b && queued == waiting,
        (StackEntity::Sink(b), StackEntity::Sink(a)) => {
            &&& a.claimed() == b.claimed()
            &&& a.captured() == b.captured().push(message)
            &&& queued == waiting
        },
        (StackEntity::Other(_), StackEntity::Other(_)) => true,
        _ => false,
    }
}

/// What replacing the configuration handle by `config` makes of an entity of
/// the stack: an entity of this library that holds a handle holds `config` and
/// is otherwise as it was, and a sink, which holds none, is as it was. Of an
/// entity from outside, only what holds of every entity is known.
pub open spec fn config_replaced(
    before: StackEntity,
    after: StackEntity,
    config: SharedConfig,
) -> bool {
    match (before, after) {
        (StackEntity::MmBs(b), StackEntity::MmBs(a)) => {
            &&& a.shared_config() == config
            &&& a.known() == b.known()
        },
        (StackEntity::MmMs(_), StackEntity::MmMs(a)) => a.shared_config() == config,
        (StackEntity::CmceBs(b), StackEntity::CmceBs(a)) => {
            &&& a.shared_config() == config
            &&& a.calls() == b.calls()
            &&& a.upcoming_call_identifier() == b.upcoming_call_identifier()
            &&& a.subscribers() == b.subscribers()
        },
        (StackEntity::Sndcp(_), StackEntity::Sndcp(a)) => a.shared_config() == config,
        (StackEntity::Sink(b), StackEntity::Sink(a)) => a == b,
        (StackEntity::Other(_), StackEntity::Other(_)) => true,
        _ => false,
    }
}

/// What the turn at the start of a tick makes of an entity of the stack and of
/// the queue: the CMCE of a base station gives its calls their turns, and
/// every other entity of this library stays as it was and queues nothing. Of an
/// entity from outside, only what holds of every entity is known.
pub open spec fn start_turn_taken(
    before: StackEntity,
    after: StackEntity,
    waiting: Seq<SapMsg>,
    queued: Seq<SapMsg>,
    ts: Option<TdmaTime>,
) -> bool {
    match (before, after) {
        (StackEntity::CmceBs(b), StackEntity::CmceBs(a)) => cmce::cmce_bs::start_turn_taken(
            b,
            a,
            waiting,
            queued,
            ts,
        ),
        (StackEntity::Other(_), StackEntity::Other(_)) => true,
        _ => after == before && queued == waiting,
    }
}

/// What the turn at the end of a tick makes of an entity of the stack and of
/// the queue, and whether the entity asks the router to stop: every entity of
/// this library stays as it was, queues nothing and does not ask. Of an entity
/// from outside, only what holds of every entity is known.
pub open spec fn end_turn_taken(
    before: StackEntity,
    after: StackEntity,
    waiting: Seq<SapMsg>,
    queued: Seq<SapMsg>,
    stop: bool,
) -> bool {
    match (before, after) {
        (StackEntity::Other(_), StackEntity::Other(_)) => true,
        _ => after == before && queued == waiting && !stop,
    }
}

/// An entity of the stack is an entity: every turn is handed on to the entity
/// that it is.
impl TetraEntityTrait for StackEntity {
    open spec fn spec_entity(&self) -> TetraEntity {
        match self {
            StackEntity::MmBs(e) => e.spec_entity(),
            StackEntity::MmMs(e) => e.spec_entity(),
            StackEntity::CmceBs(e) => e.spec_entity(),
            StackEntity::Sndcp(e) => e.spec_entity(),
            StackEntity::Sink(e) => e.spec_entity(),
            StackEntity::Other(e) => e.spec_entity(),
        }
    }

    fn entity(&self) -> (e: TetraEntity) {
        match self {
            StackEntity::MmBs(e) => e.entity(),
            StackEntity::MmMs(e) => e.entity(),
            StackEntity::CmceBs(e) => e.entity(),
            StackEntity::Sndcp(e) => e.entity(),
            StackEntity::Sink(e) => e.entity(),
            StackEntity::Other(e) => e.entity(),
        }
    }

    open spec fn accepts(&self, message: &SapMsg) -> bool {
        match self {
            StackEntity::MmBs(e) => e.accepts(message),
            StackEntity::MmMs(e) => e.accepts(message),
            StackEntity::CmceBs(e) => e.accepts(message),
            StackEntity::Sndcp(e) => e.accepts(message),
            StackEntity::Sink(e) => e.accepts(message),
            StackEntity::Other(e) => e.accepts(message),
        }
    }

    fn can_accept(&self, message: &SapMsg) -> (b: bool) {
        match self {
            StackEntity::MmBs(e) => e.can_accept(message),
            StackEntity::MmMs(e) => e.can_accept(message),
            StackEntity::CmceBs(e) => e.can_accept(message),
            StackEntity::Sndcp(e) => e.can_accept(message),
            StackEntity::Sink(e) => e.can_accept(message),
            StackEntity::Other(e) => e.can_accept(message),
        }
    }

    /// Hands the primitive on to the entity that this is.
    fn rx_prim(&mut self, queue: &mut MessageQueue, message: SapMsg)
        ensures
            primitive_handled(*old(self), *final(self), old(queue)@, final(queue)@, message),
    {
        match self {
            StackEntity::MmBs(e) => e.rx_prim(queue, message),
            StackEntity::MmMs(e) => e.rx_prim(queue, message),
            StackEntity::CmceBs(e) => e.rx_prim(queue, message),
            StackEntity::Sndcp(e) => e.rx_prim(queue, message),
            StackEntity::Sink(e) => e.rx_prim(queue, message),
            StackEntity::Other(e) => e.rx_prim(queue, message),
        }
    }

    /// Hands the configuration handle on to the entity that this is.
    fn set_config(&mut self, config: SharedConfig)
        ensures
            config_replaced(*old(self), *final(self), config),
    {
        match self {
            StackEntity::MmBs(e) => e.set_config(config),
            StackEntity::MmMs(e) => e.set_config(config),
            StackEntity::CmceBs(e) => e.set_config(config),
            StackEntity::Sndcp(e) => e.set_config(config),
            StackEntity::Sink(e) => e.set_config(config),
            StackEntity::Other(e) => e.set_config(config),
        }
    }

    /// Gives the turn at the start of a tick to the entity that this is.
    fn tick_start(&mut self, queue: &mut MessageQueue, ts: Option<TdmaTime>)
        ensures
            start_turn_taken(*old(self), *final(self), old(queue)@, final(queue)@, ts),
    {
        match self {
            StackEntity::MmBs(e) => e.tick_start(queue, ts),
            StackEntity::MmMs(e) => e.tick_start(queue, ts),
            StackEntity::CmceBs(e) => e.tick_start(queue, ts),
            StackEntity::Sndcp(e) => e.tick_start(queue, ts),
            StackEntity::Sink(e) => e.tick_start(queue, ts),
            StackEntity::Other(e) => e.tick_start(queue, ts),
        }
    }

    /// Gives the turn at the end of a tick to the entity that this is. No
    /// entity of this library asks the router to stop.
    fn tick_end(&mut self, queue: &mut MessageQueue, ts: Option<TdmaTime>) -> (stop: bool)
        ensures
            end_turn_taken(*old(self), *final(self), old(queue)@, final(queue)@, stop),
    {
        match self {
            StackEntity::MmBs(e) => e.tick_end(queue, ts),
            StackEntity::MmMs(e) => e.tick_end(queue, ts),
            StackEntity::CmceBs(e) => e.tick_end(queue, ts),
            StackEntity::Sndcp(e) => e.tick_end(queue, ts),
            StackEntity::Sink(e) => e.tick_end(queue, ts),
            StackEntity::Other(e) => e.tick_end(queue, ts),
        }
    }

    open spec fn spec_config(&self) -> Option<SharedConfig> {
        match self {
            StackEntity::MmBs(e) => e.spec_config(),
            StackEntity::MmMs(e) => e.spec_config(),
            StackEntity::CmceBs(e) => e.spec_config(),
            StackEntity::Sndcp(e) => e.spec_config(),
            StackEntity::Sink(e) => e.spec_config(),
            StackEntity::Other(e) => e.spec_config(),
        }
    }

    open spec fn spec_captures(&self) -> bool {
        match self {
            StackEntity::MmBs(e) => e.spec_captures(),
            StackEntity::MmMs(e) => e.spec_captures(),
            StackEntity::CmceBs(e) => e.spec_captures(),
            StackEntity::Sndcp(e) => e.spec_captures(),
            StackEntity::Sink(e) => e.spec_captures(),
            StackEntity::Other(e) => e.spec_captures(),
        }
    }

    /// No entity of this library asks the router to stop.
    open spec fn spec_may_stop(&self) -> bool {
        match self {
            StackEntity::Other(e) => e.spec_may_stop(),
            _ => false,
        }
    }

    open spec fn spec_captured(&self) -> Seq<SapMsg> {
        match self {
            StackEntity::MmBs(e) => e.spec_captured(),
            StackEntity::MmMs(e) => e.spec_captured(),
            StackEntity::CmceBs(e) => e.spec_captured(),
            StackEntity::Sndcp(e) => e.spec_captured(),
            StackEntity::Sink(e) => e.spec_captured(),
            StackEntity::Other(e) => e.spec_captured(),
        }
    }

    fn as_sink(&mut self) -> (sink: Option<&mut Sink>) {
        match self {
            StackEntity::MmBs(e) => e.as_sink(),
            StackEntity::MmMs(e) => e.as_sink(),
            StackEntity::CmceBs(e) => e.as_sink(),
            StackEntity::Sndcp(e) => e.as_sink(),
            StackEntity::Sink(e) => e.as_sink(),
            StackEntity::Other(e) => e.as_sink(),
        }
    }
}

} // verus!
