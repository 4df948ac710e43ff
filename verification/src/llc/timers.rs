//! LLC timers (ETSI EN 300 392-2, annex A.1), in timeslots.

use vstd::prelude::*;

verus! {

/// Timeslots in one TDMA frame: the unit in which the signalling-frame timers
/// below are counted.
pub const TIMESLOTS_PER_FRAME: u32 = 4;

pub const T251_SENDER_RETRY_TIMER: u32 = 4 * TIMESLOTS_PER_FRAME;

pub const T252_ACK_WAITING_TIMER: u32 = 9 * TIMESLOTS_PER_FRAME;

pub const T261_SETUP_WAITING_TIMER: u32 = 4 * TIMESLOTS_PER_FRAME;

pub const T263_DISCONNECT_WAITING_TIMER: u32 = 4 * TIMESLOTS_PER_FRAME;

pub const T265_RECONNECT_WAITING_TIMER: u32 = 4 * TIMESLOTS_PER_FRAME;

pub const T271_RECEIVER_NOT_READY_FOR_TX_TIMER: u32 = 36 * TIMESLOTS_PER_FRAME;

pub const T272_RECEIVER_NOT_READY_FOR_RX_TIMER: u32 = 18 * TIMESLOTS_PER_FRAME;

} // verus!
