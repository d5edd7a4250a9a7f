//! The commands an operator can give, and how the supervisor carries
//! them out.

pub mod command;
pub mod manager;
