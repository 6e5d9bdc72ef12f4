//! System control coprocessor.

pub mod cpacr;
