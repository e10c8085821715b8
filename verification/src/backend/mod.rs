//! Hardware abstractions that platform backends implement.

pub mod fan;
pub mod keyboard;
pub mod profile;
