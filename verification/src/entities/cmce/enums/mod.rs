//! The enumerations of the CMCE PDUs.

pub mod circuit_mode_type;
pub mod cmce_pdu_type_ul;
pub mod communication_type;
