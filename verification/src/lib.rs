//! A supervisor's model of the backend processes it manages.
//!
//! The crate holds the registry of managed servers, the rules that the
//! registry enforces, the two-state lifecycle of each entry, the command
//! lines with which an entry is launched, stopped and inspected, and the
//! way an operator's command is carried out on the registry.
//!
//! Nothing here touches the operating system. What an operation has to
//! know of the machine it is told: a [`host::Site`] says what the host saw
//! at a server's location. What an operation needs done it asks for: it
//! answers [`host::Step::Run`] with an [`host::Action`], the caller
//! performs the action and calls again with the [`host::Report`] appended,
//! until the operation answers [`host::Step::Done`]. An operation that
//! changes the registry hands out the snapshot that the caller is to
//! persist.

pub mod commands;
pub mod error;
pub mod host;
pub mod server;
pub mod text;
pub mod utils;
