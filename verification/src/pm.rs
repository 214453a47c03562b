//! Power management.

pub mod runtime;
