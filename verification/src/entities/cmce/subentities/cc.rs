//! Call control (clause 14): group calls and their late entry.
//!
//! A mobile asks for a group call with a U-SETUP. Call control answers with a
//! D-SETUP to the group and then sends the D-SETUP again from time to time, so
//! that mobiles which missed it, or came later, can join: first a backup copy a
//! frame later, then one copy per late-entry interval.
//!
//! Each copy after the first carries a reporter, and call control keeps the
//! receipt. While the lower layers have not reported what became of the last
//! copy, the next one is held back: a cell that is too busy to send one copy
//! is not given another.

use crate::bitbuffer::BitBuffer;
use crate::bits::overwrite;
use crate::entities::cmce::components::subscribers::SubscriberDirectory;
use crate::entities::cmce::enums::communication_type::CommunicationType;
use crate::entities::cmce::fields::basic_service_information::BasicServiceInformation;
use crate::entities::cmce::pdus::d_setup::DSetup;
use crate::entities::cmce::pdus::u_setup::USetup;
use crate::messagerouter::MessageQueue;
use crate::saps::lcmc::CmceChanAllocReq;
use crate::saps::lcmc::LcmcMleUnitdataInd;
use crate::saps::lcmc::LcmcMleUnitdataReq;
use crate::saps::sapmsg::SapMsg;
use crate::saps::sapmsg::SapMsgInner;
use crate::tdma_time::TdmaTime;
use crate::tdma_time::TIMESLOTS_PER_CYCLE;
use crate::tetra_common::Sap;
use crate::tetra_entities::TetraEntity;
use crate::tx_receipt::TxReceipt;
use crate::tx_receipt::TxReporter;
use vstd::prelude::*;

verus! {

/// The most copies of a D-SETUP that are sent after the first, before the call
/// is given up.
pub const D_SETUP_REPEATS: u32 = 8;

/// The number of timeslots after the first D-SETUP at which the backup copy is
/// due: one frame.
pub const D_SETUP_BACKUP_DELAY: u32 = 4;

/// The number of timeslots between two late-entry copies: five multiframes.
pub const LATE_ENTRY_INTERVAL: u32 = 360;

/// The largest call identifier; the identifiers run from 1 to this.
pub const MAX_CALL_IDENTIFIER: u64 = 16383;

/// The call time-out that a D-SETUP names: none.
pub const CALL_TIME_OUT: u64 = 0;

/// The timeslot that carries the traffic of a call.
pub const TRAFFIC_TIMESLOT: u8 = 2;

/// The lowest usage marker that is given to a call; those below are reserved.
pub const FIRST_USAGE_MARKER: u8 = 4;

/// What a call is: who asked for it, for which group, and of what kind.
#[derive(Clone, Copy, Debug, PartialEq, Eq, Structural)]
pub struct CallParameters {
    /// 14 bits.
    pub call_identifier: u64,
    pub gssi: u32,
    pub calling_issi: u32,
    pub hook_method_selection: bool,
    pub simplex_duplex_selection: bool,
    pub basic_service_information: BasicServiceInformation,
    /// 4 bits.
    pub call_priority: u64,
    /// The usage marker of the traffic channel, 6 bits.
    pub usage: u8,
    /// The timeslot of the traffic channel.
    pub timeslot: u8,
}

/// What the turn of a call comes to.
#[derive(Clone, Copy, Debug, PartialEq, Eq, Structural)]
pub enum Turn {
    /// No copy is due: the call is left as it is.
    Rest,
    /// A copy is due and is held back, because the receipt of the last copy is
    /// not in a final state.
    HeldBack,
    /// A copy is due and is sent.
    Sent,
}

/// When the next copy of a D-SETUP is due and how many copies may still be sent.
#[derive(Clone, Copy, Debug)]
pub struct LateEntrySchedule {
    next_due: TdmaTime,
    repeats_left: u32,
}

/// A group call that is set up.
pub struct GroupCall {
    parameters: CallParameters,
    schedule: LateEntrySchedule,
    receipt: Option<TxReceipt>,
}

/// Call control.
pub struct CcSubentity {
    calls: Vec<GroupCall>,
    next_call_identifier: u64,
}

/// Whether a copy may be sent: yes where no receipt is retained, and where the
/// retained receipt is in a final state; no while the retained receipt is not.
/// `retained` is `None` where no receipt is retained, and else tells whether
/// the retained receipt was found in a final state.
pub open spec fn spec_may_emit(retained: Option<bool>) -> bool {
    match retained {
        None => true,
        Some(in_final_state) => in_final_state,
    }
}

/// Whether a copy may be sent.
#[verifier::when_used_as_spec(spec_may_emit)]
pub fn may_emit(retained: Option<bool>) -> (emit: bool)
    ensures
        emit == spec_may_emit(retained),
{
    match retained {
        None => true,
        Some(in_final_state) => in_final_state,
    }
}

impl LateEntrySchedule {
    #[verifier::type_invariant]
    spec fn inv(self) -> bool {
        self.next_due.is_valid()
    }

    /// The time at which the next copy is due.
    pub closed spec fn next_due(self) -> TdmaTime {
        self.next_due
    }

    /// The number of copies that may still be sent.
    pub closed spec fn repeats_left(self) -> u32 {
        self.repeats_left
    }

    /// Whether the next copy is due at `now`: `now` is the time it is due at, or
    /// less than half a cycle later.
    pub open spec fn is_due(self, now: TdmaTime) -> bool {
        2 * now.since(self.next_due()) < TIMESLOTS_PER_CYCLE
    }

    /// What the turn of a call with this schedule comes to at `now`, `retained`
    /// being what was seen of the receipt of its last copy: rest where no copy is
    /// due; else the copy is sent where `spec_may_emit` allows it, and held back
    /// where not.
    pub open spec fn spec_turn(self, now: TdmaTime, retained: Option<bool>) -> Turn {
        if !self.is_due(now) {
            Turn::Rest
        } else if spec_may_emit(retained) {
            Turn::Sent
        } else {
            Turn::HeldBack
        }
    }

    /// Whether the call goes on after its turn: always, unless its last copy was
    /// sent.
    pub open spec fn goes_on(self, turn: Turn) -> bool {
        turn != Turn::Sent || self.repeats_left() > 1
    }

    /// When the next copy is due after the turn at `now`: as before after a
    /// rest, and else one late-entry interval after `now`.
    pub open spec fn due_after(self, now: TdmaTime, turn: Turn) -> TdmaTime {
        if turn == Turn::Rest {
            self.next_due()
        } else {
            now.plus(LATE_ENTRY_INTERVAL as int)
        }
    }

    /// How many copies may be sent after the turn: one fewer after a copy was
    /// sent, else as many as before.
    pub open spec fn repeats_after(self, turn: Turn) -> int {
        if turn == Turn::Sent {
            self.repeats_left() - 1
        } else {
            self.repeats_left() as int
        }
    }

    /// What the turn of a call with this schedule comes to at `now`.
    pub fn turn(&self, now: TdmaTime, retained: Option<bool>) -> (turn: Turn)
        requires
            now.is_valid(),
        ensures
            turn == self.spec_turn(now, retained),
    {
        if !self.due(now) {
            Turn::Rest
        } else if may_emit(retained) {
            Turn::Sent
        } else {
            Turn::HeldBack
        }
    }

    /// The schedule of a call whose first D-SETUP is sent at `now`: the backup
    /// copy is due `D_SETUP_BACKUP_DELAY` timeslots later, and `D_SETUP_REPEATS`
    /// copies may be sent.
    pub fn starting(now: TdmaTime) -> (schedule: LateEntrySchedule)
        requires
            now.is_valid(),
        ensures
            schedule.next_due() == now.plus(D_SETUP_BACKUP_DELAY as int),
            schedule.repeats_left() == D_SETUP_REPEATS,
    {
        LateEntrySchedule {
            next_due: now.add_timeslots(D_SETUP_BACKUP_DELAY as i32),
            repeats_left: D_SETUP_REPEATS,
        }
    }

    /// Whether the next copy is due at `now`.
    pub fn due(&self, now: TdmaTime) -> (due: bool)
        requires
            now.is_valid(),
        ensures
            due == self.is_due(now),
    {
        proof {
            use_type_invariant(self);
        }
        now.diff(self.next_due) < TIMESLOTS_PER_CYCLE / 2
    }

    /// The schedule after the copy that was due at `now` has been held back: the
    /// next copy is due one late-entry interval after `now`, and as many copies
    /// may be sent as before.
    pub fn held_back(&self, now: TdmaTime) -> (schedule: LateEntrySchedule)
        requires
            now.is_valid(),
        ensures
            schedule.next_due() == now.plus(LATE_ENTRY_INTERVAL as int),
            schedule.repeats_left() == self.repeats_left(),
    {
        LateEntrySchedule {
            next_due: now.add_timeslots(LATE_ENTRY_INTERVAL as i32),
            repeats_left: self.repeats_left,
        }
    }

    /// The schedule after a copy has been sent at `now`, or `None` where that was
    /// the last copy that may be sent: the next copy is due one late-entry
    /// interval after `now`, and one copy fewer may be sent.
    pub fn sent(&self, now: TdmaTime) -> (schedule: Option<LateEntrySchedule>)
        requires
            now.is_valid(),
        ensures
            schedule is Some <==> self.repeats_left() > 1,
            schedule matches Some(s) ==> s.next_due() == now.plus(LATE_ENTRY_INTERVAL as int)
                && s.repeats_left() == self.repeats_left() - 1,
    {
        if self.repeats_left <= 1 {
            None
        } else {
            Some(
                LateEntrySchedule {
                    next_due: now.add_timeslots(LATE_ENTRY_INTERVAL as i32),
                    repeats_left: self.repeats_left - 1,
                },
            )
        }
    }
}

/// The D-SETUP that tells the group of a call.
pub open spec fn d_setup_for(call: CallParameters) -> DSetup {
    DSetup {
        call_identifier: call.call_identifier,
        call_time_out: CALL_TIME_OUT,
        hook_method_selection: call.hook_method_selection,
        simplex_duplex_selection: call.simplex_duplex_selection,
        basic_service_information: call.basic_service_information,
        transmission_grant: 0,
        transmission_request_permission: false,
        call_priority: call.call_priority,
        notification_indicator: None,
        temporary_address: None,
        calling_party_type_identifier: Some(1u64),
        calling_party_address_ssi: Some(call.calling_issi as u64),
        calling_party_extension: None,
    }
}

/// `request` is the request that sends the D-SETUP of `call`: an MLE-UNITDATA
/// request on the LCMC-SAP from the CMCE to the MLE, stamped with `dltime`, its
/// buffer holding exactly the D-SETUP with the cursor at the start, with the
/// traffic channel of the call and every other field at zero; and it carries
/// a reporter, which expects no acknowledgement, exactly where `reported` says
/// so.
pub open spec fn is_d_setup(
    request: SapMsg,
    call: CallParameters,
    dltime: TdmaTime,
    reported: bool,
) -> bool {
    &&& request.sap == Sap::LcmcSap
    &&& request.src == TetraEntity::Cmce
    &&& request.dest == TetraEntity::Mle
    &&& request.dltime == dltime
    &&& request.msg matches SapMsgInner::LcmcMleUnitdataReq(req) && {
        &&& req.sdu.bits() == d_setup_for(call).encode()
        &&& req.sdu.cursor() == 0
        &&& req.handle == 0
        &&& req.endpoint_id == 0
        &&& req.link_id == 0
        &&& req.layer2service == 0
        &&& req.pdu_prio == 0
        &&& req.layer2_qos == 0
        &&& req.chan_alloc == Some(
            CmceChanAllocReq { usage: Some(call.usage), timeslot: call.timeslot },
        )
        &&& req.tx_reporter is Some <==> reported
        &&& req.tx_reporter matches Some(reporter) ==> !reporter.expects_ack()
        &&& req.eligible_for_graceful_degradation == reported
        &&& !req.stealing_permission
        &&& !req.stealing_repeats_flag
    }
}

/// The queue `after` is the queue `before` with one more primitive at its end,
/// the D-SETUP of `call`.
pub open spec fn d_setup_sent(
    before: Seq<SapMsg>,
    after: Seq<SapMsg>,
    call: CallParameters,
    dltime: TdmaTime,
    reported: bool,
) -> bool {
    after.len() == before.len() + 1 && after.drop_last() == before && is_d_setup(
        after.last(),
        call,
        dltime,
        reported,
    )
}

/// The indication in a primitive that carries one.
pub open spec fn indication(message: SapMsg) -> LcmcMleUnitdataInd
    recommends
        message.msg is LcmcMleUnitdataInd,
{
    message.msg->LcmcMleUnitdataInd_0
}

/// The call identifier that follows `call_identifier`: the next higher one, and
/// after the highest the lowest.
pub open spec fn next_call_identifier(call_identifier: u64) -> u64 {
    if call_identifier == MAX_CALL_IDENTIFIER {
        1
    } else {
        (call_identifier + 1) as u64
    }
}

/// The usage marker that goes with a call identifier.
pub open spec fn usage_for(call_identifier: u64) -> u8 {
    (FIRST_USAGE_MARKER + call_identifier % 60) as u8
}

/// The call that a primitive asks for, if it asks for one that is set up: the
/// primitive is stamped with a valid time, its PDU can be read as a U-SETUP,
/// the U-SETUP names its called party by SSI, does not ask for a call from
/// point to point, and the called party is a group that has members.
pub open spec fn call_asked(
    message: SapMsg,
    directory: SubscriberDirectory,
    call_identifier: u64,
) -> Option<CallParameters> {
    match USetup::spec_parse(indication(message).sdu.remaining()) {
        Err(_) => None,
        Ok((pdu, _)) => match pdu.called_party_ssi {
            None => None,
            Some(gssi) => if message.dltime.is_valid()
                && pdu.basic_service_information.communication_type != CommunicationType::P2p
                && gssi <= u32::MAX && directory.has_members(gssi as u32) {
                Some(
                    CallParameters {
                        call_identifier,
                        gssi: gssi as u32,
                        calling_issi: indication(message).received_tetra_address.ssi,
                        hook_method_selection: pdu.hook_method_selection,
                        simplex_duplex_selection: pdu.simplex_duplex_selection,
                        basic_service_information: pdu.basic_service_information,
                        call_priority: pdu.call_priority,
                        usage: usage_for(call_identifier),
                        timeslot: TRAFFIC_TIMESLOT,
                    },
                )
            } else {
                None
            },
        },
    }
}

impl GroupCall {
    /// What the call is.
    pub closed spec fn parameters(&self) -> CallParameters {
        self.parameters
    }

    /// When the next copy of the D-SETUP is due.
    pub closed spec fn schedule(&self) -> LateEntrySchedule {
        self.schedule
    }

    /// Whether the receipt of the last copy is retained.
    pub closed spec fn has_receipt(&self) -> bool {
        self.receipt is Some
    }

    /// Puts the D-SETUP of `call` in the queue, with `reporter` where there is
    /// one.
    fn send_d_setup(
        queue: &mut MessageQueue,
        call: &CallParameters,
        dltime: TdmaTime,
        reporter: Option<TxReporter>,
    )
        requires
            reporter matches Some(r) ==> !r.expects_ack(),
        ensures
            d_setup_sent(old(queue)@, final(queue)@, *call, dltime, reporter is Some),
    {
        let pdu = DSetup {
            call_identifier: call.call_identifier,
            call_time_out: CALL_TIME_OUT,
            hook_method_selection: call.hook_method_selection,
            simplex_duplex_selection: call.simplex_duplex_selection,
            basic_service_information: call.basic_service_information,
            transmission_grant: 0,
            transmission_request_permission: false,
            call_priority: call.call_priority,
            notification_indicator: None,
            temporary_address: None,
            calling_party_type_identifier: Some(1),
            calling_party_address_ssi: Some(call.calling_issi as u64),
            calling_party_extension: None,
        };
        let mut sdu = BitBuffer::new_autoexpand(80);
        let written = pdu.to_bitbuf(&mut sdu);
        proof {
            assert(written is Ok);
            assert(overwrite(Seq::<bool>::empty(), 0, pdu.encode()) =~= pdu.encode());
        }
        sdu.seek(0);
        let reported = reporter.is_some();
        let request = SapMsg {
            sap: Sap::LcmcSap,
            src: TetraEntity::Cmce,
            dest: TetraEntity::Mle,
            dltime,
            msg: SapMsgInner::LcmcMleUnitdataReq(
                LcmcMleUnitdataReq {
                    sdu,
                    handle: 0,
                    endpoint_id: 0,
                    link_id: 0,
                    layer2service: 0,
                    pdu_prio: 0,
                    layer2_qos: 0,
                    stealing_permission: false,
                    stealing_repeats_flag: false,
                    eligible_for_graceful_degradation: reported,
                    chan_alloc: Some(
                        CmceChanAllocReq { usage: Some(call.usage), timeslot: call.timeslot },
                    ),
                    tx_reporter: reporter,
                },
            ),
        };
        queue.push_back(request);
        assert(queue@.drop_last() =~= old(queue)@);
    }

    /// What the receipt of the last copy shows at this moment: `None` where no
    /// receipt is retained, else whether the receipt is in a final state.
    pub fn observe(&self) -> (retained: Option<bool>)
        ensures
            retained is Some <==> self.has_receipt(),
    {
        match &self.receipt {
            Some(receipt) => Some(receipt.is_in_final_state()),
            None => None,
        }
    }

    /// `self` is the call `was` after the turn `turn` at `now`: the same call,
    /// with the schedule and the receipt that the turn leaves it.
    pub open spec fn goes_on_as(&self, was: GroupCall, turn: Turn, now: TdmaTime) -> bool {
        &&& self.parameters() == was.parameters()
        &&& self.schedule().next_due() == was.schedule().due_after(now, turn)
        &&& self.schedule().repeats_left() == was.schedule().repeats_after(turn)
        &&& self.has_receipt() == (turn == Turn::Sent || was.has_receipt())
        &&& turn == Turn::Rest ==> *self == was
    }

    /// The call's turn at the time `now`, `retained` being what `observe` has
    /// seen. Returns the call as it goes on, or `None` where the call is given
    /// up.
    ///
    /// What the turn comes to is what `spec_turn` says. A call that rests is
    /// left as it is. A copy that is held back is not sent: the receipt stays,
    /// and the next copy is due one late-entry interval later. A copy that is
    /// sent is put in the queue with a fresh reporter; the receipt that goes with
    /// it replaces the one retained, and the call goes on unless this was its
    /// last copy.
    pub fn late_entry_turn(
        self,
        queue: &mut MessageQueue,
        now: TdmaTime,
        retained: Option<bool>,
    ) -> (kept: Option<GroupCall>)
        requires
            now.is_valid(),
            retained is Some <==> self.has_receipt(),
        ensures
            self.schedule().spec_turn(now, retained) == Turn::Sent ==> d_setup_sent(
                old(queue)@,
                final(queue)@,
                self.parameters(),
                now,
                true,
            ),
            self.schedule().spec_turn(now, retained) != Turn::Sent ==> final(queue)@ == old(queue)@,
            kept is Some <==> self.schedule().goes_on(self.schedule().spec_turn(now, retained)),
            kept matches Some(call) ==> call.goes_on_as(
                self,
                self.schedule().spec_turn(now, retained),
                now,
            ),
    {
        match self.schedule.turn(now, retained) {
            Turn::Rest => Some(self),
            Turn::HeldBack => Some(
                GroupCall {
                    parameters: self.parameters,
                    schedule: self.schedule.held_back(now),
                    receipt: self.receipt,
                },
            ),
            Turn::Sent => {
                let (receipt, reporter) = TxReceipt::new(false);
                Self::send_d_setup(queue, &self.parameters, now, Some(reporter));
                match self.schedule.sent(now) {
                    None => None,
                    Some(schedule) => Some(
                        GroupCall { parameters: self.parameters, schedule, receipt: Some(receipt) },
                    ),
                }
            },
        }
    }
}

/// The calls among `calls` whose copy is sent at `now`, in their order, `seen`
/// being what was seen of the receipt of each.
pub open spec fn senders(calls: Seq<GroupCall>, seen: Seq<Option<bool>>, now: TdmaTime) -> Seq<
    CallParameters,
>
    decreases calls.len(),
{
    if calls.len() == 0 {
        Seq::empty()
    } else {
        let before = senders(calls.drop_last(), seen.drop_last(), now);
        if calls.last().schedule().spec_turn(now, seen.last()) == Turn::Sent {
            before.push(calls.last().parameters())
        } else {
            before
        }
    }
}

/// The calls among `calls` that go on after their turn at `now`, in their order,
/// each with what its turn came to.
pub open spec fn survivors(calls: Seq<GroupCall>, seen: Seq<Option<bool>>, now: TdmaTime) -> Seq<
    (GroupCall, Turn),
>
    decreases calls.len(),
{
    if calls.len() == 0 {
        Seq::empty()
    } else {
        let before = survivors(calls.drop_last(), seen.drop_last(), now);
        let turn = calls.last().schedule().spec_turn(now, seen.last());
        if calls.last().schedule().goes_on(turn) {
            before.push((calls.last(), turn))
        } else {
            before
        }
    }
}

/// The queue `after` is the queue `before` with the D-SETUPs of the calls
/// `sent` at its end, one for each, in their order, each with a reporter.
pub open spec fn d_setups_sent(
    before: Seq<SapMsg>,
    after: Seq<SapMsg>,
    sent: Seq<CallParameters>,
    now: TdmaTime,
) -> bool {
    &&& after.len() == before.len() + sent.len()
    &&& after.take(before.len() as int) == before
    &&& forall|k: int|
        0 <= k < sent.len() ==> is_d_setup(#[trigger] after[before.len() + k], sent[k], now, true)
}

/// The calls `after` are the calls `gone_on`, each as its turn has left it.
pub open spec fn gone_on_as(
    after: Seq<GroupCall>,
    gone_on: Seq<(GroupCall, Turn)>,
    now: TdmaTime,
) -> bool {
    &&& after.len() == gone_on.len()
    &&& forall|k: int|
        0 <= k < after.len() ==> (#[trigger] after[k]).goes_on_as(gone_on[k].0, gone_on[k].1, now)
}

/// `seen` is something that can have been seen of the receipts of `calls`: one
/// observation for each call that retains a receipt, and none for the others.
pub open spec fn seen_of(seen: Seq<Option<bool>>, calls: Seq<GroupCall>) -> bool {
    &&& seen.len() == calls.len()
    &&& forall|k: int|
        0 <= k < calls.len() ==> ((#[trigger] seen[k]) is Some <==> calls[k].has_receipt())
}

/// Every call of `calls` has had its turn at `now`, oldest first, whatever the
/// receipts showed: there is something that can have been seen of them with
/// which the D-SETUPs of the calls whose copy is sent have been put in the queue,
/// in the order of the calls, and the calls that go on are `kept`, in their
/// order, each as its turn has left it.
pub open spec fn turns_taken(
    calls: Seq<GroupCall>,
    kept: Seq<GroupCall>,
    before: Seq<SapMsg>,
    after: Seq<SapMsg>,
    now: TdmaTime,
) -> bool {
    exists|seen: Seq<Option<bool>>|
        {
            &&& seen_of(seen, calls)
            &&& d_setups_sent(before, after, senders(calls, seen, now), now)
            &&& gone_on_as(kept, survivors(calls, seen, now), now)
        }
}

impl CcSubentity {
    /// The calls that are set up, oldest first.
    pub closed spec fn calls(&self) -> Seq<GroupCall> {
        self.calls@
    }

    /// The call identifier that the next call gets.
    pub closed spec fn upcoming_call_identifier(&self) -> u64 {
        if 1 <= self.next_call_identifier <= MAX_CALL_IDENTIFIER {
            self.next_call_identifier
        } else {
            1
        }
    }

    /// Call control with no call.
    pub fn new() -> (cc: CcSubentity)
        ensures
            cc.calls() == Seq::<GroupCall>::empty(),
            cc.upcoming_call_identifier() == 1,
    {
        CcSubentity { calls: Vec::new(), next_call_identifier: 1 }
    }

    /// The number of calls that are set up.
    pub fn num_calls(&self) -> (n: usize)
        ensures
            n == self.calls().len(),
    {
        self.calls.len()
    }

    /// Handles a U-SETUP. Where it asks for a call that is set up, as
    /// `call_asked` says, the call gets the upcoming call identifier, its
    /// D-SETUP is put in the queue without a reporter, and the call is kept,
    /// with no receipt and the schedule of a call that starts at the time the
    /// primitive is stamped with. Any other primitive changes nothing.
    pub fn rx_u_setup(
        &mut self,
        queue: &mut MessageQueue,
        message: SapMsg,
        directory: &SubscriberDirectory,
    )
        requires
            message.msg is LcmcMleUnitdataInd,
        ensures
            match call_asked(message, *directory, old(self).upcoming_call_identifier()) {
                None => final(queue)@ == old(queue)@ && final(self).calls() == old(self).calls()
                    && final(self).upcoming_call_identifier()
                    == old(self).upcoming_call_identifier(),
                Some(call) => {
                    &&& d_setup_sent(old(queue)@, final(queue)@, call, message.dltime, false)
                    &&& final(self).calls().len() == old(self).calls().len() + 1
                    &&& final(self).calls().drop_last() == old(self).calls()
                    &&& final(self).calls().last().parameters() == call
                    &&& !final(self).calls().last().has_receipt()
                    &&& final(self).calls().last().schedule().next_due() == message.dltime.plus(
                        D_SETUP_BACKUP_DELAY as int,
                    )
                    &&& final(self).calls().last().schedule().repeats_left() == D_SETUP_REPEATS
                    &&& final(self).upcoming_call_identifier() == next_call_identifier(
                        old(self).upcoming_call_identifier(),
                    )
                },
            },
    {
        let dltime = message.dltime;
        if let SapMsgInner::LcmcMleUnitdataInd(prim) = message.msg {
            let mut sdu = prim.sdu;
            let pdu = match USetup::from_bitbuf(&mut sdu) {
                Ok(pdu) => pdu,
                Err(_) => {
                    return ;
                },
            };
            let gssi = match pdu.called_party_ssi {
                Some(gssi) => gssi,
                None => {
                    return ;
                },
            };
            let point_to_point = match pdu.basic_service_information.communication_type {
                CommunicationType::P2p => true,
                _ => false,
            };
            if !dltime.check_valid() || point_to_point || gssi > 0xffff_ffff {
                return ;
            }
            if !directory.group_has_members(gssi as u32) {
                return ;
            }
            let call_identifier = if 1 <= self.next_call_identifier && self.next_call_identifier
                <= MAX_CALL_IDENTIFIER {
                self.next_call_identifier
            } else {
                1
            };
            let parameters = CallParameters {
                call_identifier,
                gssi: gssi as u32,
                calling_issi: prim.received_tetra_address.ssi,
                hook_method_selection: pdu.hook_method_selection,
                simplex_duplex_selection: pdu.simplex_duplex_selection,
                basic_service_information: pdu.basic_service_information,
                call_priority: pdu.call_priority,
                usage: FIRST_USAGE_MARKER + (call_identifier % 60) as u8,
                timeslot: TRAFFIC_TIMESLOT,
            };
            GroupCall::send_d_setup(queue, &parameters, dltime, None);
            self.calls.push(
                GroupCall {
                    parameters,
                    schedule: LateEntrySchedule::starting(dltime),
                    receipt: None,
                },
            );
            self.next_call_identifier = if call_identifier == MAX_CALL_IDENTIFIER {
                1
            } else {
                call_identifier + 1
            };
            assert(self.calls@.drop_last() =~= old(self).calls@);
        }
    }

    /// Gives every call its turn at the time `now`, oldest first, and keeps the
    /// calls that go on. A time that is not valid changes nothing.
    ///
    /// What each turn comes to depends on what the receipt of the call shows at
    /// that moment; `turns_taken` says what holds whatever the receipts show.
    pub fn tick_start(&mut self, queue: &mut MessageQueue, now: TdmaTime)
        ensures
            final(self).upcoming_call_identifier() == old(self).upcoming_call_identifier(),
            !now.is_valid() ==> final(queue)@ == old(queue)@
                && final(self).calls() == old(self).calls(),
            now.is_valid() ==> turns_taken(
                old(self).calls(),
                final(self).calls(),
                old(queue)@,
                final(queue)@,
                now,
            ),
    {
        if !now.check_valid() {
            return ;
        }
        let mut waiting: Vec<GroupCall> = Vec::new();
        std::mem::swap(&mut waiting, &mut self.calls);
        let ghost all = waiting@;
        let ghost mut seen: Seq<Option<bool>> = Seq::empty();
        let ghost mut i: int = 0;
        proof {
            assert(all.take(0) =~= Seq::<GroupCall>::empty());
            assert(queue@.take(queue@.len() as int) =~= queue@);
        }
        while waiting.len() > 0
            invariant
                now.is_valid(),
                all == old(self).calls(),
                i + waiting@.len() == all.len(),
                0 <= i,
                waiting@ == all.skip(i),
                seen_of(seen, all.take(i)),
                d_setups_sent(old(queue)@, queue@, senders(all.take(i), seen, now), now),
                gone_on_as(self.calls@, survivors(all.take(i), seen, now), now),
                self.next_call_identifier == old(self).next_call_identifier,
            decreases waiting.len(),
        {
            let ghost here = queue@;
            let ghost kept_before = self.calls@;
            let ghost done = all.take(i);
            let ghost sent_before = senders(done, seen, now);
            let call = waiting.remove(0);
            let retained = call.observe();
            let ghost turn = call.schedule().spec_turn(now, retained);
            proof {
                assert(call == all[i]);
                assert(all.take(i + 1).drop_last() =~= done);
                assert(all.take(i + 1).last() == call);
                assert(seen.push(retained).drop_last() =~= seen);
                assert(waiting@ =~= all.skip(i + 1));
            }
            match call.late_entry_turn(queue, now, retained) {
                Some(kept) => {
                    self.calls.push(kept);
                },
                None => {},
            }
            proof {
                seen = seen.push(retained);
                let sent = senders(all.take(i + 1), seen, now);
                if turn == Turn::Sent {
                    assert(sent == sent_before.push(call.parameters()));
                    assert(queue@.drop_last() == here);
                    assert(queue@.take(old(queue)@.len() as int) =~= here.take(
                        old(queue)@.len() as int,
                    ));
                    assert forall|k: int| 0 <= k < sent.len() implies is_d_setup(
                        #[trigger] queue@[old(queue)@.len() + k],
                        sent[k],
                        now,
                        true,
                    ) by {
                        if k < sent_before.len() {
                            assert(queue@[old(queue)@.len() + k] == here[old(queue)@.len() + k]);
                        }
                    }
                } else {
                    assert(sent == sent_before);
                }
                let gone_on = survivors(all.take(i + 1), seen, now);
                assert forall|k: int| 0 <= k < self.calls@.len() implies (
                #[trigger] self.calls@[k]).goes_on_as(gone_on[k].0, gone_on[k].1, now) by {
                    if k < kept_before.len() {
                        assert(self.calls@[k] == kept_before[k]);
                    }
                }
            }
            proof {
                i = i + 1;
            }
        }
        proof {
            assert(all.take(all.len() as int) =~= all);
            assert(seen_of(seen, all));
        }
    }
}

} // verus!
