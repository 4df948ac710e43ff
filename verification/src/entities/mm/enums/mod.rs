//! The enumerations of the mobility management PDUs.

pub mod mm_location_update_accept_type;
pub mod mm_pdu_type_dl;
pub mod mm_pdu_type_ul;
