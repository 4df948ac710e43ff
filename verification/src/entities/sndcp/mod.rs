//! Subnetwork dependent convergence: packet data.

pub mod sndcp_bs;
