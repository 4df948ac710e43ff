//! The structured fields of the mobility management PDUs.

pub mod group_identity_attachment;
pub mod group_identity_downlink;
pub mod group_identity_uplink;
