//! The mobility management PDUs.

pub mod d_attach_detach_group_identity_acknowledgement;
pub mod d_location_update_accept;
pub mod mm_pdu_function_not_supported;
pub mod u_attach_detach_group_identity;
pub mod u_itsi_detach;
pub mod u_location_update_demand;
