//! The configuration of the stack.

pub mod stack_config;
pub mod stack_config_soapy;
