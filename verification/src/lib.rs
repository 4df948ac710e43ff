//! The upper protocol stack of a TETRA base station and mobile station.
//!
//! The stack is a set of entities, one per protocol layer, that exchange
//! primitives across named service access points. A router owns the entities,
//! keeps the TDMA clock, and gives every entity a turn at the start and at the
//! end of each timeslot; in between it delivers the primitives that the
//! entities have put in its queue, first in, first out. Entities never call
//! each other.
//!
//! The modules, leaves first:
//!
//! - [`bits`], [`bitbuffer`], [`typed_pdu_fields`], [`typed_pdu_lists`]: bit
//!   strings, the buffer that PDUs are written to and read from, and the
//!   building blocks of the wire formats.
//! - [`tdma_time`]: the clock.
//! - [`tx_receipt`]: the receipt by which the originator of a PDU learns what
//!   became of it further down.
//! - [`address`], [`tetra_common`], [`tetra_entities`], [`pdu_parse_error`]:
//!   names shared by all layers.
//! - [`saps`]: the primitives and their envelope.
//! - [`config`], [`freqs`], [`scrambler`]: the configuration and what it is
//!   validated against.
//! - [`messagerouter`]: the queue and the router.
//! - [`entities`]: the contract between router and entities, and the entities:
//!   mobility management, circuit mode control, packet data, and the sink that
//!   tests observe the stack with.
//! - [`stack`]: putting a stack together.
//! - [`llc`], [`umac`]: constants and names of the layers below.
//!
//! Every function is verified against its contract, but for five small
//! wrappers around the lock of the standard library and its guards. Contracts are stated over
//! mathematical views: a buffer is a sequence of bits and a cursor, a PDU's
//! wire format is a function from the PDU to a bit string, the router's queue
//! is a sequence of primitives.

pub mod address;
pub mod bitbuffer;
pub mod bits;
pub mod config;
pub mod entities;
pub mod freqs;
pub mod llc;
pub mod messagerouter;
pub mod pdu_parse_error;
pub mod saps;
pub mod scrambler;
pub mod stack;
pub mod tdma_time;
pub mod tetra_common;
pub mod tetra_entities;
pub mod tx_receipt;
pub mod typed_pdu_fields;
pub mod typed_pdu_lists;
pub mod umac;
