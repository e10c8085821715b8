//! The logic behind the daemon's D-Bus interfaces: argument checks, the
//! values that each method answers and how backend failures are reported.
use crate::device::ChargingCapability;
use vstd::prelude::*;

pub mod charging;
pub mod cpu;
pub mod device;
pub mod fan;
pub mod gpu_power;
pub mod keyboard;
pub mod profile;
pub mod settings;
pub mod system;
pub mod tcc_compat;

verus! {

/// Well-known bus name of the daemon.
pub const BUS_NAME: &'static str = "com.tuxedocomputers.tccd";

/// Object path of the daemon's interfaces.
pub const OBJECT_PATH: &'static str = "/com/tuxedocomputers/tccd";

/// The interfaces served only on hardware that has them; the device,
/// settings, profile, system and TCC interfaces are always served.
#[derive(Debug, Clone, Copy, PartialEq, Eq, Structural)]
pub struct OptionalInterfaces {
    /// The fan interface, with a fan backend.
    pub fan: bool,
    /// The keyboard interface, with at least one keyboard.
    pub keyboard: bool,
    /// The charging interface, on a device with a charging capability
    /// (whether or not its backend could be opened).
    pub charging: bool,
    /// The CPU interface, with a CPU governor.
    pub cpu: bool,
    /// The GPU power interface, with a GPU power backend.
    pub gpu_power: bool,
}

/// The optional interfaces to serve for the hardware found.
pub fn optional_interfaces(
    has_fan: bool,
    keyboard_count: usize,
    charging: ChargingCapability,
    has_governor: bool,
    has_gpu_power: bool,
) -> (r: OptionalInterfaces)
    ensures
        r == (OptionalInterfaces {
            fan: has_fan,
            keyboard: keyboard_count > 0,
            charging: charging != ChargingCapability::Unavailable,
            cpu: has_governor,
            gpu_power: has_gpu_power,
        }),
{
    let charging = match charging {
        ChargingCapability::Unavailable => false,
        _ => true,
    };
    OptionalInterfaces { fan: has_fan, keyboard: keyboard_count > 0, charging, cpu: has_governor, gpu_power: has_gpu_power }
}

/// Which D-Bus bus to connect to.
#[derive(Debug, Clone, Copy, PartialEq, Eq, Structural)]
pub enum BusType {
    System,
    Session,
}

/// The error that a D-Bus method answers.
#[derive(Debug, Clone)]
pub enum BusError {
    /// The operation failed.
    Failed(String),
    /// An argument was invalid.
    InvalidArgs(String),
    /// The operation is not supported on this machine.
    NotSupported(String),
}

/// The message that a D-Bus error carries.
pub open spec fn bus_error_message(e: BusError) -> Seq<char> {
    match e {
        BusError::Failed(m) => m@,
        BusError::InvalidArgs(m) => m@,
        BusError::NotSupported(m) => m@,
    }
}

/// A failure whose message is `m`.
pub open spec fn is_failed_with(e: BusError, m: Seq<char>) -> bool {
    e matches BusError::Failed(x) && x@ == m
}

impl BusError {
    /// The message that the error carries.
    pub fn message(&self) -> (r: &str)
        ensures
            r@ == bus_error_message(*self),
    {
        match self {
            BusError::Failed(m) => m.as_str(),
            BusError::InvalidArgs(m) => m.as_str(),
            BusError::NotSupported(m) => m.as_str(),
        }
    }
}

/// A backend failure reported as a failed D-Bus call.
pub fn failed(e: crate::error::IoError) -> (r: BusError)
    ensures
        is_failed_with(r, e.message@),
{
    BusError::Failed(e.message)
}

} // verus!
