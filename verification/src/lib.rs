//! Hardware model and control logic for TUXEDO laptops.
use vstd::prelude::*;

pub mod fan_curve;
pub mod fan_engine;
pub mod gpu;
pub mod hid;
pub mod text;
pub mod platform;
pub mod profile;
pub mod registers;
pub mod device;
pub mod backend;
pub mod charging;
pub mod client_tracker;
pub mod config;
pub mod cpu;
pub mod custom_device;
pub mod dbus;
pub mod dbus_types;
pub mod error;
pub mod device_table;
pub mod display;
pub mod dmi;
pub mod mock;
pub mod request_log;

verus! {

/// Library version string.
pub fn version() -> (v: &'static str)
    ensures
        v@ == "0.1.0"@,
{
    "0.1.0"
}

} // verus!
