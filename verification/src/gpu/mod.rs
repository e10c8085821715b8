//! GPU power control and GPU classification.
use crate::error::IoError;
use vstd::prelude::*;

verus! {

/// GPU power control backend.
///
/// `ctgp_requests` is the history of the cTGP offsets (in watts) requested
/// of the backend, each with whether the request succeeded. The contract
/// binds a type only where `obeys_gpu_model` holds; a type that keeps the
/// defaults (the daemon's hardware backend, test doubles) promises nothing
/// by it.
pub trait GpuPowerBackend {
    /// Whether this type keeps the contract stated over `ctgp_requests`;
    /// a type that does not say so promises nothing by it.
    closed spec fn obeys_gpu_model() -> bool {
        false
    }

    /// The cTGP offsets requested so far, in order, each with whether the
    /// request succeeded.
    closed spec fn ctgp_requests(&self) -> Seq<(u8, bool)> {
        arbitrary()
    }

    /// Get the current cTGP offset in watts.
    fn get_ctgp_offset(&self) -> Result<u8, IoError>;

    /// Set the cTGP offset in watts.
    fn set_ctgp_offset(&mut self, watts: u8) -> (r: Result<(), IoError>)
        ensures
            Self::obeys_gpu_model() ==> (final(self).ctgp_requests() == old(self).ctgp_requests().push((watts, r is Ok))),
    ;
}

/// Type of GPU.
#[derive(Debug, Clone, Copy, PartialEq, Eq, Structural)]
pub enum GpuType {
    Discrete,
    Integrated,
}

/// The wire string of a GPU type.
pub open spec fn wire_str_spec(t: GpuType) -> Seq<char> {
    match t {
        GpuType::Discrete => "discrete"@,
        GpuType::Integrated => "integrated"@,
    }
}

impl GpuType {
    /// Wire string used in the `GpuData.gpu_type` field over D-Bus.
    pub fn as_wire_str(&self) -> (r: &'static str)
        ensures
            r@ == wire_str_spec(*self),
    {
        match self {
            GpuType::Discrete => "discrete",
            GpuType::Integrated => "integrated",
        }
    }
}

/// The GPU type of a hwmon driver: nvidia is discrete, i915 and xe are
/// integrated, amdgpu is integrated only when it is the boot VGA device;
/// other drivers are no GPU.
pub open spec fn classify_gpu_spec(driver: Seq<char>, boot_vga: Option<bool>) -> Option<GpuType> {
    if driver == "nvidia"@ {
        Some(GpuType::Discrete)
    } else if driver == "i915"@ || driver == "xe"@ {
        Some(GpuType::Integrated)
    } else if driver == "amdgpu"@ {
        if boot_vga == Some(true) {
            Some(GpuType::Integrated)
        } else {
            Some(GpuType::Discrete)
        }
    } else {
        None
    }
}

/// Classify a hwmon entry by driver name and, for amdgpu, by whether its
/// PCI device is the boot VGA device.
pub fn classify_gpu(driver: &str, boot_vga: Option<bool>) -> (r: Option<GpuType>)
    ensures
        r == classify_gpu_spec(driver@, boot_vga),
{
    if crate::text::same_text(driver, "nvidia") {
        Some(GpuType::Discrete)
    } else if crate::text::same_text(driver, "i915") || crate::text::same_text(driver, "xe") {
        Some(GpuType::Integrated)
    } else if crate::text::same_text(driver, "amdgpu") {
        match boot_vga {
            Some(true) => Some(GpuType::Integrated),
            _ => Some(GpuType::Discrete),
        }
    } else {
        None
    }
}

} // verus!
