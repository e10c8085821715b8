//! Hardware platform families for TUXEDO laptops.
use vstd::prelude::*;

verus! {

/// Hardware platform families for TUXEDO laptops.
///
/// Each platform uses a different hardware access method and kernel shim.
#[derive(Debug, Clone, Copy, PartialEq, Eq, Hash, Structural)]
pub enum Platform {
    /// EC port I/O via tuxedo-ec shim (Pulse, InfinityFlex)
    Nb05,
    /// WMI AB/BS methods via tuxedo-nb04 shim (Sirius)
    Nb04,
    /// ACPI EC methods via tuxedo-uniwill shim (InfinityBook)
    Uniwill,
    /// WMI + ACPI DSM via tuxedo-clevo shim (Polaris, Stellaris)
    Clevo,
    /// ACPI TFAN evaluation via tuxedo-tuxi shim (Aura)
    Tuxi,
}

/// The user-facing name of a platform.
pub open spec fn display_name_spec(p: Platform) -> Seq<char> {
    match p {
        Platform::Nb05 => "NB05"@,
        Platform::Nb04 => "NB04"@,
        Platform::Uniwill => "Uniwill"@,
        Platform::Clevo => "Clevo"@,
        Platform::Tuxi => "Tuxi"@,
    }
}

/// The variant name of a platform, as its debug form shows it.
pub open spec fn debug_name_spec(p: Platform) -> Seq<char> {
    match p {
        Platform::Nb05 => "Nb05"@,
        Platform::Nb04 => "Nb04"@,
        Platform::Uniwill => "Uniwill"@,
        Platform::Clevo => "Clevo"@,
        Platform::Tuxi => "Tuxi"@,
    }
}

impl Platform {
    /// The user-facing name of the platform ("NB05", "NB04", "Uniwill",
    /// "Clevo", "Tuxi").
    pub fn display_name(&self) -> (r: &'static str)
        ensures
            r@ == display_name_spec(*self),
    {
        match self {
            Platform::Nb05 => "NB05",
            Platform::Nb04 => "NB04",
            Platform::Uniwill => "Uniwill",
            Platform::Clevo => "Clevo",
            Platform::Tuxi => "Tuxi",
        }
    }

    /// The variant name of the platform ("Nb05", "Nb04", "Uniwill",
    /// "Clevo", "Tuxi").
    pub fn debug_name(&self) -> (r: &'static str)
        ensures
            r@ == debug_name_spec(*self),
    {
        match self {
            Platform::Nb05 => "Nb05",
            Platform::Nb04 => "Nb04",
            Platform::Uniwill => "Uniwill",
            Platform::Clevo => "Clevo",
            Platform::Tuxi => "Tuxi",
        }
    }
}

} // verus!
