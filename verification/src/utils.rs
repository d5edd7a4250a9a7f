//! Helpers of the update workflow.

pub mod rebuild;
