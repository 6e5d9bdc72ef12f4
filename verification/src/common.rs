//! Shared utilities.

pub mod bitman;
pub mod timing;
