//! Hardware abstraction for power profile control.
use crate::error::IoError;
use vstd::prelude::*;

verus! {

/// Hardware abstraction for power profile control.
pub trait ProfileBackend {
    /// Get the current active profile name.
    fn get_profile(&self) -> Result<String, IoError>;

    /// Set the active power profile.
    fn set_profile(&self, profile: &str) -> Result<(), IoError>;

    /// List available power profiles.
    fn available_profiles(&self) -> Vec<String>;
}

} // verus!
