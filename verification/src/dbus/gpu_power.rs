//! The GpuPower interface: the NVIDIA cTGP offset.
use crate::dbus::{failed, BusError};
use crate::gpu::GpuPowerBackend;
use vstd::prelude::*;

verus! {

/// D-Bus object for GPU power control.
pub struct GpuPowerInterface<B: GpuPowerBackend> {
    backend: B,
}

impl<B: GpuPowerBackend> GpuPowerInterface<B> {
    /// The interface over this backend.
    pub fn new(backend: B) -> (r: Self)
        ensures
            r.backend_spec() == backend,
    {
        GpuPowerInterface { backend }
    }

    /// The backend.
    pub closed spec fn backend_spec(&self) -> B {
        self.backend
    }

    /// The backend.
    pub fn backend(&self) -> (r: &B)
        ensures
            *r == self.backend_spec(),
    {
        &self.backend
    }

    /// The cTGP offset in watts; a backend failure is a failed call.
    pub fn get_ctgp_offset(&self) -> (r: Result<u8, BusError>)
        ensures
            r matches Err(e) ==> e is Failed,
    {
        match self.backend.get_ctgp_offset() {
            Ok(v) => Ok(v),
            Err(e) => Err(failed(e)),
        }
    }

    /// Set the cTGP offset in watts; a backend failure is a failed call.
    pub fn set_ctgp_offset(&mut self, watts: u8) -> (r: Result<(), BusError>)
        ensures
            r matches Err(e) ==> e is Failed,
            B::obeys_gpu_model() ==> final(self).backend_spec().ctgp_requests() == old(self).backend_spec().ctgp_requests().push(
                (watts, r is Ok),
            ),
    {
        match self.backend.set_ctgp_offset(watts) {
            Ok(()) => Ok(()),
            Err(e) => Err(failed(e)),
        }
    }
}

} // verus!
