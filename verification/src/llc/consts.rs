//! LLC constants (ETSI EN 300 392-2, annex A.2).

use vstd::prelude::*;

verus! {

/// Maximum length of one TL-SDU on the basic link, in bits, when the optional
/// frame check sequence is used (about 324 octets).
pub const N251_BL_MAX_TLSDU_LEN_BITS: u32 = 2595;

/// Maximum number of retransmissions of an acknowledged TL-SDU on the basic link.
pub const N252_BL_MAX_TLSDU_RETRANSMITS_ACKED: u32 = 3;

/// The same where the stealing repeats flag is not set.
pub const N252_BL_MAX_TLSDU_RETRANSMITS_ACKED_STEALING_REPEATS: u32 = 3;

/// Number of repetitions of an unacknowledged TL-SDU on the basic link where the
/// service user names none.
pub const N253_BL_MAX_TLSDU_REPETITIONS_UNACKED: u32 = 3;

/// Maximum number of connection set-up retries on the advanced link.
pub const N262_AL_MAX_CONNECTION_SETUP_RETRIES: u32 = 3;

/// Maximum number of disconnection retries on the advanced link.
pub const N263_AL_MAX_DISCONNECTION_RETRIES: u32 = 3;

/// Number of timeslots used per TDMA frame on the advanced link.
pub const N264_AL_NUM_DQPSK_TIMESLOTS: u32 = 4;

/// Maximum number of reconnection retries on the advanced link.
pub const N265_AL_MAX_RECONNECTION_RETRIES: u32 = 3;

/// Maximum length of one TL-SDU on the advanced link, frame check sequence
/// included, in octets.
pub const N271_AL_MAX_TLSDU_LEN: u32 = 4096;

/// Window size for acknowledged TL-SDUs on the advanced link.
pub const N272_AL_WINDOW_SIZE_TLSDU_ACKED: u32 = 3;

/// Maximum number of TL-SDU retransmissions on the advanced link.
pub const N273_AL_MAX_TLSDU_RETRANSMISSIONS: u32 = 3;

/// Maximum number of segment retransmissions on the advanced link.
pub const N274_AL_MAX_SEGMENT_RETRANSMISSIONS: u32 = 3;

/// Window size for unacknowledged TL-SDUs on the advanced link.
pub const N281_AL_WINDOW_SIZE_TLSDU_UNACKED: u32 = 3;

/// Number of repetitions of an unacknowledged TL-SDU on the advanced link.
pub const N282_AL_NUM_REPETITIONS_UNACKED: u32 = 3;

/// Number of repetitions of a layer 2 signalling PDU where the MAC names none.
pub const N293_AL_NUM_REPETITIONS_LAYER2_SIGNALLING_PDU: u32 = 3;

} // verus!
