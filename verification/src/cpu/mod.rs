//! CPU load sampling and TDP backend selection.

pub mod governor;
pub mod sampler;
pub mod tdp;
