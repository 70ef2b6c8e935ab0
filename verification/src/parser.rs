//! The declared entries and the loaded configuration that holds them.

pub mod dto;
pub mod parser;
