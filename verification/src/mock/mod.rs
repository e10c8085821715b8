//! In-memory stand-ins for hardware access, used by tests.

pub mod dmi;
pub mod fan;
