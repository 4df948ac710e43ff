//! Transmit receipts: a shared progress tracker that links the originator of a
//! PDU to the copy travelling down through MAC and LLC.
//!
//! The originator keeps a [`TxReceipt`]; one or more [`TxReporter`] clones travel
//! with the PDU. Both halves share one atomic byte, which only ever advances
//! along the edges
//!
//! ```text
//! Pending -> Transmitted | Discarded
//! Transmitted -> Acknowledged | Lost      (only when an acknowledgement is expected)
//! ```
//!
//! What the shared byte holds at a given moment is not visible to the verifier,
//! so the rules of the state machine are stated on plain values ([`TxState`],
//! [`TxMark`]) and the two handles apply them to whatever the cell holds.

use std::sync::atomic::AtomicU8;
use std::sync::atomic::Ordering;
use std::sync::Arc;
use vstd::prelude::*;

verus! {

/// The states a transmit receipt can be in.
#[derive(Clone, Copy, Debug, PartialEq, Eq, Structural)]
pub enum TxState {
    /// Message is queued but not yet sent over the air.
    Pending,
    /// MAC layer had to discard this message.
    Discarded,
    /// MAC layer has sent the PDU over the air.
    Transmitted,
    /// Message was transmitted but the acknowledgement never came.
    Lost,
    /// The remote side has acknowledged receipt.
    Acknowledged,
}

/// The four transitions a reporter can drive.
#[derive(Clone, Copy, Debug, PartialEq, Eq, Structural)]
pub enum TxMark {
    /// Pending -> Transmitted
    Transmitted,
    /// Pending -> Discarded
    Discarded,
    /// Transmitted -> Acknowledged
    Acknowledged,
    /// Transmitted -> Lost
    Lost,
}

/// Why a `mark_*` call was refused. Either one is a programming fault of the caller.
#[derive(Clone, Copy, Debug, PartialEq, Eq, Structural)]
pub enum TxFault {
    /// `mark_acknowledged` or `mark_lost` on a message that expects no acknowledgement.
    AckNotExpected { mark: TxMark },
    /// The shared state was not the predecessor that the transition starts from.
    InvalidTransition { from: TxState, to: TxState, actual: TxState },
}

impl TxFault {
    /// What went wrong, in words.
    pub open spec fn spec_message(self) -> Seq<char> {
        match self {
            TxFault::AckNotExpected { mark: TxMark::Lost } => {
                "TxReporter: cannot mark as lost a message that does not expect an ACK"@
            },
            TxFault::AckNotExpected { .. } => {
                "TxReporter: cannot mark as acknowledged a message that does not expect an ACK"@
            },
            TxFault::InvalidTransition { .. } => "TxReporter: invalid transition"@,
        }
    }

    /// What went wrong, in words.
    pub fn message(&self) -> (text: &'static str)
        ensures
            text@ == self.spec_message(),
    {
        match self {
            TxFault::AckNotExpected { mark: TxMark::Lost } => {
                "TxReporter: cannot mark as lost a message that does not expect an ACK"
            },
            TxFault::AckNotExpected { .. } => {
                "TxReporter: cannot mark as acknowledged a message that does not expect an ACK"
            },
            TxFault::InvalidTransition { .. } => "TxReporter: invalid transition",
        }
    }
}

impl TxState {
    /// The byte under which a state is stored in the shared cell.
    pub open spec fn spec_raw(self) -> u8 {
        match self {
            TxState::Pending => 0,
            TxState::Discarded => 1,
            TxState::Transmitted => 2,
            TxState::Lost => 3,
            TxState::Acknowledged => 4,
        }
    }

    /// The state a stored byte stands for; every byte above 3 reads as `Acknowledged`.
    pub open spec fn spec_from_raw(v: u8) -> TxState {
        if v == 0 {
            TxState::Pending
        } else if v == 1 {
            TxState::Discarded
        } else if v == 2 {
            TxState::Transmitted
        } else if v == 3 {
            TxState::Lost
        } else {
            TxState::Acknowledged
        }
    }

    /// True once the PDU has left MAC: the state is `Transmitted` or a later one.
    pub open spec fn spec_is_transmitted(self) -> bool {
        self.spec_raw() >= TxState::Transmitted.spec_raw()
    }

    /// True once the remote side has acknowledged receipt.
    pub open spec fn spec_is_acknowledged(self) -> bool {
        self.spec_raw() >= TxState::Acknowledged.spec_raw()
    }

    /// Finality: `Pending` never, `Transmitted` iff no acknowledgement is expected,
    /// the other three always.
    pub open spec fn spec_is_final(self, expects_ack: bool) -> bool {
        match self {
            TxState::Pending => false,
            TxState::Discarded => true,
            TxState::Transmitted => !expects_ack,
            TxState::Lost => true,
            TxState::Acknowledged => true,
        }
    }

    #[verifier::when_used_as_spec(spec_raw)]
    pub fn raw(self) -> (r: u8)
        ensures
            r == self.spec_raw(),
    {
        match self {
            TxState::Pending => 0,
            TxState::Discarded => 1,
            TxState::Transmitted => 2,
            TxState::Lost => 3,
            TxState::Acknowledged => 4,
        }
    }

    #[verifier::when_used_as_spec(spec_from_raw)]
    pub fn from_raw(v: u8) -> (s: TxState)
        ensures
            s == TxState::spec_from_raw(v),
    {
        match v {
            0 => TxState::Pending,
            1 => TxState::Discarded,
            2 => TxState::Transmitted,
            3 => TxState::Lost,
            _ => TxState::Acknowledged,
        }
    }

    #[verifier::when_used_as_spec(spec_is_transmitted)]
    pub fn is_transmitted(self) -> (b: bool)
        ensures
            b == self.spec_is_transmitted(),
            b <==> (self == TxState::Transmitted || self == TxState::Lost || self
                == TxState::Acknowledged),
    {
        self.raw() >= 2
    }

    #[verifier::when_used_as_spec(spec_is_acknowledged)]
    pub fn is_acknowledged(self) -> (b: bool)
        ensures
            b == self.spec_is_acknowledged(),
            b <==> self == TxState::Acknowledged,
    {
        self.raw() >= 4
    }

    #[verifier::when_used_as_spec(spec_is_final)]
    pub fn is_final(self, expects_ack: bool) -> (b: bool)
        ensures
            b == self.spec_is_final(expects_ack),
    {
        match self {
            TxState::Pending => false,
            TxState::Discarded => true,
            TxState::Transmitted => !expects_ack,
            TxState::Lost => true,
            TxState::Acknowledged => true,
        }
    }

    /// The state after `mark`, or `None` where the transition is not legal from `self`.
    pub open spec fn spec_advance(self, expects_ack: bool, mark: TxMark) -> Option<TxState> {
        if mark.spec_needs_ack() && !expects_ack {
            None
        } else if self == mark.spec_source() {
            Some(mark.spec_target())
        } else {
            None
        }
    }

    #[verifier::when_used_as_spec(spec_advance)]
    pub fn advance(self, expects_ack: bool, mark: TxMark) -> (next: Option<TxState>)
        ensures
            next == self.spec_advance(expects_ack, mark),
    {
        if mark.needs_ack() && !expects_ack {
            None
        } else if self == mark.source() {
            Some(mark.target())
        } else {
            None
        }
    }
}

impl TxMark {
    /// The state a transition starts from.
    pub open spec fn spec_source(self) -> TxState {
        match self {
            TxMark::Transmitted => TxState::Pending,
            TxMark::Discarded => TxState::Pending,
            TxMark::Acknowledged => TxState::Transmitted,
            TxMark::Lost => TxState::Transmitted,
        }
    }

    /// The state a transition leads to.
    pub open spec fn spec_target(self) -> TxState {
        match self {
            TxMark::Transmitted => TxState::Transmitted,
            TxMark::Discarded => TxState::Discarded,
            TxMark::Acknowledged => TxState::Acknowledged,
            TxMark::Lost => TxState::Lost,
        }
    }

    /// Whether the transition exists only for messages that expect an acknowledgement.
    pub open spec fn spec_needs_ack(self) -> bool {
        self == TxMark::Acknowledged || self == TxMark::Lost
    }

    #[verifier::when_used_as_spec(spec_source)]
    pub fn source(self) -> (s: TxState)
        ensures
            s == self.spec_source(),
    {
        match self {
            TxMark::Transmitted => TxState::Pending,
            TxMark::Discarded => TxState::Pending,
            TxMark::Acknowledged => TxState::Transmitted,
            TxMark::Lost => TxState::Transmitted,
        }
    }

    #[verifier::when_used_as_spec(spec_target)]
    pub fn target(self) -> (s: TxState)
        ensures
            s == self.spec_target(),
    {
        match self {
            TxMark::Transmitted => TxState::Transmitted,
            TxMark::Discarded => TxState::Discarded,
            TxMark::Acknowledged => TxState::Acknowledged,
            TxMark::Lost => TxState::Lost,
        }
    }

    /// What a mark has come to, given what the swap of the shared byte from the
    /// source to the target returned: done where the swap took place; else a
    /// fault that names the state which the cell held instead of the source.
    pub open spec fn spec_outcome(self, swapped: Result<u8, u8>) -> Result<(), TxFault> {
        match swapped {
            Ok(_) => Ok(()),
            Err(actual) => Err(
                TxFault::InvalidTransition {
                    from: self.spec_source(),
                    to: self.spec_target(),
                    actual: TxState::spec_from_raw(actual),
                },
            ),
        }
    }

    #[verifier::when_used_as_spec(spec_outcome)]
    pub fn outcome(self, swapped: Result<u8, u8>) -> (r: Result<(), TxFault>)
        ensures
            r == self.spec_outcome(swapped),
    {
        match swapped {
            Ok(_) => Ok(()),
            Err(actual) => Err(
                TxFault::InvalidTransition {
                    from: self.source(),
                    to: self.target(),
                    actual: TxState::from_raw(actual),
                },
            ),
        }
    }

    #[verifier::when_used_as_spec(spec_needs_ack)]
    pub fn needs_ack(self) -> (b: bool)
        ensures
            b == self.spec_needs_ack(),
    {
        match self {
            TxMark::Transmitted => false,
            TxMark::Discarded => false,
            TxMark::Acknowledged => true,
            TxMark::Lost => true,
        }
    }
}

/// The state reached from `start` by applying `marks` in order, or `None` as soon
/// as one of them is not legal.
pub open spec fn state_after(start: TxState, expects_ack: bool, marks: Seq<TxMark>) -> Option<
    TxState,
>
    decreases marks.len(),
{
    if marks.len() == 0 {
        Some(start)
    } else {
        match state_after(start, expects_ack, marks.drop_last()) {
            Some(s) => s.spec_advance(expects_ack, marks.last()),
            None => None,
        }
    }
}

/// Every legal transition moves to a state with a strictly higher byte.
pub proof fn lemma_advance_increases(state: TxState, expects_ack: bool, mark: TxMark)
    requires
        state.spec_advance(expects_ack, mark) is Some,
    ensures
        state.spec_raw() < state.spec_advance(expects_ack, mark).unwrap().spec_raw(),
{
}

/// No transition leaves a final state.
pub proof fn lemma_final_is_terminal(state: TxState, expects_ack: bool, mark: TxMark)
    requires
        state.spec_is_final(expects_ack),
    ensures
        state.spec_advance(expects_ack, mark) is None,
{
}

/// A reader never sees the receipt go backwards: along any legal sequence of marks
/// the state after the first `i` marks is defined and is no later, by its byte,
/// than the state after the first `j >= i` marks. So whoever reads between two
/// marks sees the state just reached or a later one, never an earlier one.
pub proof fn lemma_marks_never_go_back(
    start: TxState,
    expects_ack: bool,
    marks: Seq<TxMark>,
    i: int,
    j: int,
)
    requires
        state_after(start, expects_ack, marks) is Some,
        0 <= i <= j <= marks.len(),
    ensures
        state_after(start, expects_ack, marks.take(i)) is Some,
        state_after(start, expects_ack, marks.take(j)) is Some,
        state_after(start, expects_ack, marks.take(i)).unwrap().spec_raw() <= state_after(
            start,
            expects_ack,
            marks.take(j),
        ).unwrap().spec_raw(),
        i < j ==> state_after(start, expects_ack, marks.take(i)).unwrap().spec_raw() < state_after(
            start,
            expects_ack,
            marks.take(j),
        ).unwrap().spec_raw(),
    decreases marks.len() - i, j - i,
{
    if j < marks.len() {
        // Shorten the sequence from the right until it ends at `j`.
        assert(marks.drop_last().take(i) =~= marks.take(i));
        assert(marks.drop_last().take(j) =~= marks.take(j));
        lemma_marks_never_go_back(start, expects_ack, marks.drop_last(), i, j);
    } else if i < j {
        assert(marks.take(j) =~= marks);
        assert(marks.drop_last().take(i) =~= marks.take(i));
        assert(marks.drop_last().take(j - 1) =~= marks.drop_last());
        lemma_marks_never_go_back(start, expects_ack, marks.drop_last(), i, j - 1);
        let before = state_after(start, expects_ack, marks.drop_last()).unwrap();
        lemma_advance_increases(before, expects_ack, marks.last());
    } else {
        assert(marks.take(j) =~= marks);
    }
}

/// A transmit receipt kept by the originator to ask whether the message was sent
/// and, where that is expected, acknowledged.
#[derive(Debug)]
pub struct TxReceipt {
    expects_ack: bool,
    state: Arc<AtomicU8>,
}

/// The reporting half of a transmit receipt, carried alongside the PDU down
/// through MAC and LLC, which call the `mark_*` methods.
#[derive(Debug)]
pub struct TxReporter {
    expects_ack: bool,
    state: Arc<AtomicU8>,
}

/// A clone of a receipt is a second handle on the same cell, for the same
/// message.
impl Clone for TxReceipt {
    fn clone(&self) -> (handle: Self)
        ensures
            handle == *self,
            handle.expects_ack() == self.expects_ack(),
    {
        TxReceipt { expects_ack: self.expects_ack, state: Arc::clone(&self.state) }
    }
}

/// A clone of a reporter is a second handle on the same cell, for the same
/// message: any one of them may make a mark.
impl Clone for TxReporter {
    fn clone(&self) -> (handle: Self)
        ensures
            handle == *self,
            handle.expects_ack() == self.expects_ack(),
    {
        TxReporter { expects_ack: self.expects_ack, state: Arc::clone(&self.state) }
    }
}

impl TxReceipt {
    /// Whether the message expects an acknowledgement; fixed at creation.
    pub closed spec fn expects_ack(&self) -> bool {
        self.expects_ack
    }

    /// Whether the message expects an acknowledgement.
    pub fn ack_expected(&self) -> (b: bool)
        ensures
            b == self.expects_ack(),
    {
        self.expects_ack
    }

    /// Creates a linked receipt and reporter. The receipt stays with the
    /// originator; the reporter travels down the stack. Both start at `Pending`.
    pub fn new(expects_ack: bool) -> (pair: (TxReceipt, TxReporter))
        ensures
            pair.0.expects_ack() == expects_ack,
            pair.1.expects_ack() == expects_ack,
    {
        let state = Arc::new(AtomicU8::new(TxState::Pending.raw()));
        (TxReceipt { expects_ack, state: state.clone() }, TxReporter { expects_ack, state })
    }

    /// The state the shared cell holds at the moment of the call.
    pub fn get_state(&self) -> TxState {
        TxState::from_raw(self.state.load(Ordering::Relaxed))
    }

    /// True once the PDU has been sent over the air (or further).
    pub fn is_transmitted(&self) -> bool {
        self.get_state().is_transmitted()
    }

    /// True once the remote side has acknowledged receipt.
    pub fn is_acknowledged(&self) -> bool {
        self.get_state().is_acknowledged()
    }

    /// True if the state read at the moment of the call is final for this message.
    pub fn is_in_final_state(&self) -> bool {
        self.get_state().is_final(self.expects_ack)
    }
}

impl TxReporter {
    /// Whether the message expects an acknowledgement; fixed at creation.
    pub closed spec fn expects_ack(&self) -> bool {
        self.expects_ack
    }

    /// Whether the message expects an acknowledgement.
    pub fn ack_expected(&self) -> (b: bool)
        ensures
            b == self.expects_ack(),
    {
        self.expects_ack
    }

    /// The state the shared cell holds at the moment of the call.
    pub fn get_state(&self) -> TxState {
        TxState::from_raw(self.state.load(Ordering::Relaxed))
    }

    /// Swaps the shared byte from the source of `mark` to its target. Fails, and
    /// changes nothing, where the mark needs an expected acknowledgement and there
    /// is none, or where the cell does not hold the source.
    fn mark(&self, mark: TxMark) -> (r: Result<(), TxFault>)
        ensures
            mark.spec_needs_ack() && !self.expects_ack() ==> r == Err::<(), TxFault>(
                TxFault::AckNotExpected { mark },
            ),
            r matches Err(TxFault::InvalidTransition { from, to, .. }) ==> from
                == mark.spec_source() && to == mark.spec_target(),
            r matches Err(TxFault::AckNotExpected { mark: m }) ==> m == mark
                && mark.spec_needs_ack() && !self.expects_ack(),
    {
        if mark.needs_ack() && !self.expects_ack {
            return Err(TxFault::AckNotExpected { mark });
        }
        mark.outcome(self.swap_up(mark.source().raw(), mark.target().raw()))
    }

    /// The only write to the shared cell: where it holds `from`, it is given
    /// `to`, which is the higher byte. So the byte in the cell never falls.
    fn swap_up(&self, from: u8, to: u8) -> Result<u8, u8>
        requires
            from < to,
    {
        self.state.compare_exchange(from, to, Ordering::Relaxed, Ordering::Relaxed)
    }

    /// Pending -> Transmitted: MAC layer has sent the PDU over the air.
    pub fn mark_transmitted(&self) -> (r: Result<(), TxFault>)
        ensures
            r matches Err(f) ==> f matches TxFault::InvalidTransition { from, to, .. } && from
                == TxState::Pending && to == TxState::Transmitted,
    {
        self.mark(TxMark::Transmitted)
    }

    /// Pending -> Discarded: MAC layer was too busy to transmit.
    pub fn mark_discarded(&self) -> (r: Result<(), TxFault>)
        ensures
            r matches Err(f) ==> f matches TxFault::InvalidTransition { from, to, .. } && from
                == TxState::Pending && to == TxState::Discarded,
    {
        self.mark(TxMark::Discarded)
    }

    /// Transmitted -> Acknowledged: LLC received an ACK from the remote side.
    /// Only for a message that expects an acknowledgement. A caller that is not
    /// verified and calls it for another message gets `AckNotExpected`, and
    /// nothing changes.
    pub fn mark_acknowledged(&self) -> (r: Result<(), TxFault>)
        requires
            self.expects_ack(),
        ensures
            r matches Err(f) ==> f matches TxFault::InvalidTransition { from, to, .. } && from
                == TxState::Transmitted && to == TxState::Acknowledged,
    {
        self.mark(TxMark::Acknowledged)
    }

    /// Transmitted -> Lost: LLC did not receive an ACK within the expected time
    /// window. Only for a message that expects an acknowledgement. A caller that
    /// is not verified and calls it for another message gets `AckNotExpected`,
    /// and nothing changes.
    pub fn mark_lost(&self) -> (r: Result<(), TxFault>)
        requires
            self.expects_ack(),
        ensures
            r matches Err(f) ==> f matches TxFault::InvalidTransition { from, to, .. } && from
                == TxState::Transmitted && to == TxState::Lost,
    {
        self.mark(TxMark::Lost)
    }
}

} // verus!
