//! Platform discriminant stored alongside a device descriptor.
use vstd::prelude::*;

verus! {

/// Platform discriminant stored alongside a device descriptor.
///
/// All hardware-specific addressing lives in the kernel drivers' sysfs
/// interfaces; this enum is kept for pattern-matching and documentation.
#[derive(Debug, Clone, Copy, PartialEq, Eq, Structural)]
pub enum PlatformRegisters {
    Nb05,
    Nb04,
    Uniwill,
    Clevo,
    Tuxi,
}

} // verus!
