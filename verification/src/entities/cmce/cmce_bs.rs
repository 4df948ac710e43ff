//! Circuit mode control on the base station side.
//!
//! The CMCE serves two service access points. On the LCMC-SAP it takes the
//! indication that carries a PDU from a mobile, reads the PDU type, and hands
//! the PDU to the sub-entity that handles that type. On the control access
//! point it takes the updates on subscribers. At the start of every tick call
//! control gets its turn.

use crate::config::stack_config::SharedConfig;
use crate::entities::cmce::components::subscribers::memberships;
use crate::entities::cmce::components::subscribers::without_groups;
use crate::entities::cmce::components::subscribers::without_subscriber;
use crate::entities::cmce::components::subscribers::Affiliation;
use crate::entities::cmce::components::subscribers::SubscriberDirectory;
use crate::entities::cmce::enums::cmce_pdu_type_ul::CmcePduTypeUl;
use crate::entities::cmce::enums::cmce_pdu_type_ul::CMCE_PDU_TYPE_BITS;
use crate::entities::cmce::subentities::cc::call_asked;
use crate::entities::cmce::subentities::cc::d_setup_sent;
use crate::entities::cmce::subentities::cc::indication;
use crate::entities::cmce::subentities::cc::next_call_identifier;
use crate::entities::cmce::subentities::cc::turns_taken;
use crate::entities::cmce::subentities::cc::CallParameters;
use crate::entities::cmce::subentities::cc::CcSubentity;
use crate::entities::cmce::subentities::cc::GroupCall;
use crate::entities::cmce::subentities::cc::D_SETUP_BACKUP_DELAY;
use crate::entities::cmce::subentities::cc::D_SETUP_REPEATS;
use crate::entities::cmce::subentities::sds::SdsSubentity;
use crate::entities::cmce::subentities::ss::SsSubentity;
use crate::entities::sink::Sink;
use crate::entities::TetraEntityTrait;
use crate::messagerouter::MessageQueue;
use crate::saps::control::BrewSubscriberAction;
use crate::saps::control::MmSubscriberUpdate;
use crate::saps::sapmsg::SapMsg;
use crate::saps::sapmsg::SapMsgInner;
use crate::tdma_time::TdmaTime;
use crate::tetra_common::Sap;
use crate::tetra_entities::TetraEntity;
use crate::typed_pdu_fields::lemma_take_some;
use crate::typed_pdu_fields::peek;
use crate::typed_pdu_fields::take;
use vstd::prelude::*;

verus! {

/// Circuit mode control of a base station.
pub struct CmceBs {
    config: SharedConfig,
    sds: SdsSubentity,
    cc: CcSubentity,
    ss: SsSubentity,
    subscribers: SubscriberDirectory,
}

/// The PDU type of the PDU that a primitive carries, where its first five bits
/// name one.
pub open spec fn pdu_type_of(message: SapMsg) -> Option<CmcePduTypeUl> {
    match take(indication(message).sdu.remaining(), CMCE_PDU_TYPE_BITS as nat) {
        None => None,
        Some((bits, _)) => match CmcePduTypeUl::spec_try_from(bits) {
            Ok(pdu_type) => Some(pdu_type),
            Err(_) => None,
        },
    }
}

/// A primitive that carries fewer than five bits names no PDU type: it is
/// dropped.
pub proof fn lemma_short_names_no_type(message: SapMsg)
    requires
        indication(message).sdu.remaining().len() < CMCE_PDU_TYPE_BITS,
    ensures
        pdu_type_of(message) is None,
{
    lemma_take_some(indication(message).sdu.remaining(), CMCE_PDU_TYPE_BITS as nat);
}

/// What handling the indication `message` makes of the CMCE and of the queue.
/// A U-SETUP that asks for a call that is set up, as `call_asked` says, has the
/// call's D-SETUP queued without a reporter and the call kept as the youngest,
/// with no receipt and the schedule of a call that starts at the time the
/// primitive is stamped with, and the call identifiers move on. Any other
/// primitive changes nothing. The subscribers and the configuration handle
/// stay as they are.
pub open spec fn indication_handled(
    before: CmceBs,
    after: CmceBs,
    waiting: Seq<SapMsg>,
    queued: Seq<SapMsg>,
    message: SapMsg,
) -> bool {
    &&& after.shared_config() == before.shared_config()
    &&& after.subscribers() == before.subscribers()
    &&& match call_asked_of(before, message) {
        None => {
            &&& queued == waiting
            &&& after.calls() == before.calls()
            &&& after.upcoming_call_identifier() == before.upcoming_call_identifier()
        },
        Some(call) => {
            &&& d_setup_sent(waiting, queued, call, message.dltime, false)
            &&& after.calls().len() == before.calls().len() + 1
            &&& after.calls().drop_last() == before.calls()
            &&& after.calls().last().parameters() == call
            &&& !after.calls().last().has_receipt()
            &&& after.calls().last().schedule().next_due() == message.dltime.plus(
                D_SETUP_BACKUP_DELAY as int,
            )
            &&& after.calls().last().schedule().repeats_left() == D_SETUP_REPEATS
            &&& after.upcoming_call_identifier() == next_call_identifier(
                before.upcoming_call_identifier(),
            )
        },
    }
}

/// The call that the indication `message` asks the CMCE to set up, if it asks
/// for one: it carries a U-SETUP, and call control accepts what that asks for.
pub open spec fn call_asked_of(cmce: CmceBs, message: SapMsg) -> Option<CallParameters> {
    match pdu_type_of(message) {
        Some(CmcePduTypeUl::USetup) => call_asked(
            message,
            cmce.subscribers(),
            cmce.upcoming_call_identifier(),
        ),
        _ => None,
    }
}

/// What taking note of `update` makes of the CMCE: a subscriber that registers
/// is added unless it is there, one that deregisters leaves with its
/// affiliations, one that affiliates gets the groups named, and one that
/// detaches loses them. The calls and the configuration handle stay as they
/// are.
pub open spec fn update_noted(before: CmceBs, after: CmceBs, update: MmSubscriberUpdate) -> bool {
    &&& after.shared_config() == before.shared_config()
    &&& after.calls() == before.calls()
    &&& after.upcoming_call_identifier() == before.upcoming_call_identifier()
    &&& after.subscribers().registered() == match update.action {
        BrewSubscriberAction::Register => if before.subscribers().registered().contains(
            update.issi,
        ) {
            before.subscribers().registered()
        } else {
            before.subscribers().registered().push(update.issi)
        },
        BrewSubscriberAction::Deregister => before.subscribers().registered().filter(
            |s: u32| s != update.issi,
        ),
        _ => before.subscribers().registered(),
    }
    &&& after.subscribers().affiliations() == match update.action {
        BrewSubscriberAction::Register => before.subscribers().affiliations(),
        BrewSubscriberAction::Affiliate => before.subscribers().affiliations() + memberships(
            update.issi,
            update.groups@,
        ),
        BrewSubscriberAction::Deregister => without_subscriber(
            before.subscribers().affiliations(),
            update.issi,
        ),
        BrewSubscriberAction::Detach => without_groups(
            before.subscribers().affiliations(),
            update.issi,
            update.groups@,
        ),
    }
}

/// What handling the primitive `message` makes of the CMCE and of the queue: an
/// update on a subscriber is taken note of and queues nothing, and an
/// indication is handled.
pub open spec fn primitive_handled(
    before: CmceBs,
    after: CmceBs,
    waiting: Seq<SapMsg>,
    queued: Seq<SapMsg>,
    message: SapMsg,
) -> bool {
    match message.msg {
        SapMsgInner::MmSubscriberUpdate(update) => queued == waiting && update_noted(
            before,
            after,
            update,
        ),
        _ => indication_handled(before, after, waiting, queued, message),
    }
}

/// What the turn at the start of a tick makes of the CMCE and of the queue:
/// every call has its turn at the time `ts`, oldest first. Without a time, and
/// with one that is not valid, nothing changes. The subscribers, the call
/// identifiers and the configuration handle stay as they are.
pub open spec fn start_turn_taken(
    before: CmceBs,
    after: CmceBs,
    waiting: Seq<SapMsg>,
    queued: Seq<SapMsg>,
    ts: Option<TdmaTime>,
) -> bool {
    &&& after.subscribers() == before.subscribers()
    &&& after.shared_config() == before.shared_config()
    &&& after.upcoming_call_identifier() == before.upcoming_call_identifier()
    &&& match ts {
        Some(now) if now.is_valid() => turns_taken(
            before.calls(),
            after.calls(),
            waiting,
            queued,
            now,
        ),
        _ => queued == waiting && after.calls() == before.calls(),
    }
}

impl CmceBs {
    /// The calls that are set up, oldest first.
    pub closed spec fn calls(&self) -> Seq<GroupCall> {
        self.cc.calls()
    }

    /// The call identifier that the next call gets.
    pub closed spec fn upcoming_call_identifier(&self) -> u64 {
        self.cc.upcoming_call_identifier()
    }

    /// The subscribers and their groups.
    pub closed spec fn subscribers(&self) -> SubscriberDirectory {
        self.subscribers
    }

    /// The shared configuration that the entity holds.
    pub closed spec fn shared_config(&self) -> SharedConfig {
        self.config
    }

    /// Circuit mode control that holds `config`, with no call and no subscriber.
    pub fn new(config: SharedConfig) -> (cmce: CmceBs)
        ensures
            cmce.shared_config() == config,
            cmce.calls() == Seq::<GroupCall>::empty(),
            cmce.upcoming_call_identifier() == 1,
            cmce.subscribers().registered() == Seq::<u32>::empty(),
            cmce.subscribers().affiliations() == Seq::<Affiliation>::empty(),
    {
        CmceBs {
            config,
            sds: SdsSubentity::new(),
            cc: CcSubentity::new(),
            ss: SsSubentity::new(),
            subscribers: SubscriberDirectory::new(),
        }
    }

    /// The number of calls that are set up.
    pub fn num_calls(&self) -> (n: usize)
        ensures
            n == self.calls().len(),
    {
        self.cc.num_calls()
    }

    /// Handles an indication: reads the PDU type from the first five bits. A
    /// U-SETUP goes to call control, which sets up the call that it asks for, if
    /// it asks for one that is set up. A primitive with fewer than five bits,
    /// or whose bits name no uplink PDU type, is dropped and changes nothing, and
    /// so is a PDU of any other type. The subscribers stay as they are.
    pub fn rx_lcmc_mle_unitdata_ind(&mut self, queue: &mut MessageQueue, message: SapMsg)
        requires
            message.msg is LcmcMleUnitdataInd,
        ensures
            indication_handled(*old(self), *final(self), old(queue)@, final(queue)@, message),
    {
        let bits = match &message.msg {
            SapMsgInner::LcmcMleUnitdataInd(prim) => match peek(&prim.sdu, CMCE_PDU_TYPE_BITS) {
                Some(bits) => bits,
                None => {
                    return ;
                },
            },
            _ => {
                return ;
            },
        };
        let pdu_type = match CmcePduTypeUl::try_from(bits) {
            Ok(pdu_type) => pdu_type,
            Err(_) => {
                return ;
            },
        };
        match pdu_type {
            CmcePduTypeUl::USetup => self.cc.rx_u_setup(queue, message, &self.subscribers),
            CmcePduTypeUl::UAlert
            | CmcePduTypeUl::UConnect
            | CmcePduTypeUl::UDisconnect
            | CmcePduTypeUl::UInfo
            | CmcePduTypeUl::URelease
            | CmcePduTypeUl::UStatus
            | CmcePduTypeUl::UTxCeased
            | CmcePduTypeUl::UTxDemand
            | CmcePduTypeUl::UCallRestore
            | CmcePduTypeUl::USdsData
            | CmcePduTypeUl::UFacility
            | CmcePduTypeUl::CmceFunctionNotSupported => {},
        }
    }

    /// Handles an update on a subscriber: the directory takes note of it. The
    /// calls stay as they are.
    pub fn rx_subscriber_update(&mut self, update: &MmSubscriberUpdate)
        ensures
            update_noted(*old(self), *final(self), *update),
    {
        self.subscribers.apply(update);
    }
}

impl TetraEntityTrait for CmceBs {
    open spec fn spec_entity(&self) -> TetraEntity {
        TetraEntity::Cmce
    }

    open spec fn spec_config(&self) -> Option<SharedConfig> {
        Some(self.shared_config())
    }

    fn entity(&self) -> (e: TetraEntity) {
        TetraEntity::Cmce
    }

    /// The CMCE serves the LCMC-SAP, on which it handles the indication, and the
    /// control access point, on which it handles the updates on subscribers.
    open spec fn accepts(&self, message: &SapMsg) -> bool {
        ||| message.sap == Sap::LcmcSap && message.msg is LcmcMleUnitdataInd
        ||| message.sap == Sap::Control && message.msg is MmSubscriberUpdate
    }

    fn can_accept(&self, message: &SapMsg) -> (b: bool) {
        match &message.msg {
            SapMsgInner::LcmcMleUnitdataInd(_) => message.sap == Sap::LcmcSap,
            SapMsgInner::MmSubscriberUpdate(_) => message.sap == Sap::Control,
            _ => false,
        }
    }

    fn set_config(&mut self, config: SharedConfig)
        ensures
            final(self).shared_config() == config,
            final(self).calls() == old(self).calls(),
            final(self).upcoming_call_identifier() == old(self).upcoming_call_identifier(),
            final(self).subscribers() == old(self).subscribers(),
    {
        self.config = config;
    }

    /// Takes note of an update on a subscriber, and handles an indication, as
    /// `primitive_handled` says.
    fn rx_prim(&mut self, queue: &mut MessageQueue, message: SapMsg)
        ensures
            primitive_handled(*old(self), *final(self), old(queue)@, final(queue)@, message),
    {
        match &message.msg {
            SapMsgInner::MmSubscriberUpdate(update) => self.rx_subscriber_update(update),
            _ => self.rx_lcmc_mle_unitdata_ind(queue, message),
        }
    }

    /// Call control gets its turn: every call has its turn at the time `ts`,
    /// oldest first. Without a time, and with one that is not valid, nothing
    /// changes.
    fn tick_start(&mut self, queue: &mut MessageQueue, ts: Option<TdmaTime>)
        ensures
            start_turn_taken(*old(self), *final(self), old(queue)@, final(queue)@, ts),
    {
        match ts {
            Some(now) => self.cc.tick_start(queue, now),
            None => {},
        }
    }

    /// The CMCE has no turn at the end of a tick: nothing changes, and the router
    /// is not asked to stop.
    fn tick_end(&mut self, queue: &mut MessageQueue, ts: Option<TdmaTime>) -> (stop: bool)
        ensures
            !stop,
            *final(self) == *old(self),
            final(queue)@ == old(queue)@,
    {
        false
    }

    fn as_sink(&mut self) -> (sink: Option<&mut Sink>) {
        None
    }
}

} // verus!
