//! The Device interface: model name, platform and daemon version.
use vstd::prelude::*;

verus! {

/// D-Bus object implementing the Device interface.
pub struct DeviceInterface {
    device_name: String,
    platform: String,
    daemon_version: String,
}

impl DeviceInterface {
    /// The interface for this model and platform, reporting the library's
    /// version.
    pub fn new(device_name: String, platform: String) -> (r: Self)
        ensures
            r.device_name_spec() == device_name@,
            r.platform_spec() == platform@,
            r.daemon_version_spec() == "0.1.0"@,
    {
        DeviceInterface {
            device_name,
            platform,
            daemon_version: crate::version().to_owned(),
        }
    }

    /// The model name.
    pub closed spec fn device_name_spec(&self) -> Seq<char> {
        self.device_name@
    }

    /// The platform name.
    pub closed spec fn platform_spec(&self) -> Seq<char> {
        self.platform@
    }

    /// The daemon version.
    pub closed spec fn daemon_version_spec(&self) -> Seq<char> {
        self.daemon_version@
    }

    /// Human-readable device model name.
    pub fn device_name(&self) -> (r: &str)
        ensures
            r@ == self.device_name_spec(),
    {
        self.device_name.as_str()
    }

    /// Platform identifier (e.g., "Uniwill", "Clevo").
    pub fn platform(&self) -> (r: &str)
        ensures
            r@ == self.platform_spec(),
    {
        self.platform.as_str()
    }

    /// Daemon version string.
    pub fn daemon_version(&self) -> (r: &str)
        ensures
            r@ == self.daemon_version_spec(),
    {
        self.daemon_version.as_str()
    }
}

} // verus!
