//! Managed servers: one entry, the registry of entries, and the two
//! launchers.

pub mod gunicorn;
pub mod laws;
pub mod names;
pub mod redis;
pub mod server;
pub mod servers;
