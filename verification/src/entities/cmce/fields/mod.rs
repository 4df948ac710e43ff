//! The structured fields of the CMCE PDUs.

pub mod basic_service_information;
