//! The Cpu interface: CPU governor access and TDP power limits.
use crate::cpu::tdp::{TdpBackend, TdpRequest};
use crate::dbus::{failed, is_failed_with, BusError};
use crate::device::TdpBounds;
use crate::text::{concat, decimal, decimal_text};
use crate::error::IoError;
use vstd::prelude::*;

verus! {

/// D-Bus object for CPU governor + TDP control.
pub struct CpuInterface<G, T: TdpBackend> {
    governor: G,
    tdp: Option<T>,
}

/// The message of a power-limit request on a machine without TDP control.
pub open spec fn no_tdp_message() -> Seq<char> {
    "TDP control not available on this platform"@
}

/// The TOML text that describes TDP bounds.
pub open spec fn bounds_text(b: TdpBounds) -> Seq<char> {
    "pl1_min = "@ + decimal_text(b.pl1_min as nat) + "\npl1_max = "@ + decimal_text(
        b.pl1_max as nat,
    ) + "\npl2_min = "@ + decimal_text(b.pl2_min as nat) + "\npl2_max = "@ + decimal_text(
        b.pl2_max as nat,
    ) + "\n"@
}

/// TDP bounds as TOML.
pub fn bounds_toml(b: &TdpBounds) -> (r: String)
    ensures
        r@ == bounds_text(*b),
{
    let s1 = concat("pl1_min = ", decimal(b.pl1_min as u64).as_str());
    let s2 = concat(s1.as_str(), "\npl1_max = ");
    let s3 = concat(s2.as_str(), decimal(b.pl1_max as u64).as_str());
    let s4 = concat(s3.as_str(), "\npl2_min = ");
    let s5 = concat(s4.as_str(), decimal(b.pl2_min as u64).as_str());
    let s6 = concat(s5.as_str(), "\npl2_max = ");
    let s7 = concat(s6.as_str(), decimal(b.pl2_max as u64).as_str());
    concat(s7.as_str(), "\n")
}

/// The request error of a machine without TDP control.
fn not_supported() -> (r: BusError)
    ensures
        r matches BusError::NotSupported(m) && m@ == no_tdp_message(),
{
    BusError::NotSupported("TDP control not available on this platform".to_owned())
}

impl<G, T: TdpBackend> CpuInterface<G, T> {
    /// The interface over a governor and an optional TDP backend.
    pub fn new(governor: G, tdp: Option<T>) -> (r: Self)
        ensures
            r.governor_spec() == governor,
            r.tdp_spec() == tdp,
    {
        CpuInterface { governor, tdp }
    }

    /// The governor.
    pub closed spec fn governor_spec(&self) -> G {
        self.governor
    }

    /// The TDP backend, if the machine has one.
    pub closed spec fn tdp_spec(&self) -> Option<T> {
        self.tdp
    }

    /// The governor that the governor methods use.
    pub fn governor(&self) -> (r: &G)
        ensures
            *r == self.governor_spec(),
    {
        &self.governor
    }

    /// PL1 power limit in watts; 0 if TDP control is unavailable.
    pub fn get_pl1(&self) -> (r: Result<u32, BusError>)
        ensures
            self.tdp_spec() is None ==> r == Ok::<u32, BusError>(0),
            r matches Err(e) ==> e is Failed,
            T::obeys_tdp_model() && self.tdp_spec() is Some ==> exists|t: Result<u32, IoError>|
                #[trigger] self.tdp_spec()->Some_0.pl1_outcome(t) && match t {
                    Ok(v) => r == Ok::<u32, BusError>(v),
                    Err(e) => r matches Err(x) && is_failed_with(x, e.message@),
                },
    {
        match &self.tdp {
            Some(t) => {
                let read = t.get_pl1();
                let ghost g = read;
                let r = match read {
                    Ok(v) => Ok(v),
                    Err(e) => Err(failed(e)),
                };
                proof {
                    if T::obeys_tdp_model() {
                        assert(t.pl1_outcome(g));
                    }
                }
                r
            },
            None => Ok(0),
        }
    }

    /// Set the PL1 power limit in watts.
    pub fn set_pl1(&mut self, watts: u32) -> (r: Result<(), BusError>)
        ensures
            old(self).tdp_spec() is None ==> (r matches Err(BusError::NotSupported(m)) && m@
                == no_tdp_message()) && final(self).tdp_spec() is None,
            old(self).tdp_spec() is Some ==> (r matches Err(e) ==> e is Failed),
            T::obeys_tdp_model() && old(self).tdp_spec() is Some ==> (final(self).tdp_spec() matches Some(t1)
                && t1.tdp_requests() == old(self).tdp_spec()->Some_0.tdp_requests().push((TdpRequest::Pl1(watts), r is Ok))
                && t1.bounds_spec() == old(self).tdp_spec()->Some_0.bounds_spec()),
            final(self).governor_spec() == old(self).governor_spec(),
    {
        match &mut self.tdp {
            Some(t) => match t.set_pl1(watts) {
                Ok(()) => Ok(()),
                Err(e) => Err(failed(e)),
            },
            None => Err(not_supported()),
        }
    }

    /// PL2 power limit in watts; 0 if TDP control is unavailable.
    pub fn get_pl2(&self) -> (r: Result<u32, BusError>)
        ensures
            self.tdp_spec() is None ==> r == Ok::<u32, BusError>(0),
            r matches Err(e) ==> e is Failed,
            T::obeys_tdp_model() && self.tdp_spec() is Some ==> exists|t: Result<u32, IoError>|
                #[trigger] self.tdp_spec()->Some_0.pl2_outcome(t) && match t {
                    Ok(v) => r == Ok::<u32, BusError>(v),
                    Err(e) => r matches Err(x) && is_failed_with(x, e.message@),
                },
    {
        match &self.tdp {
            Some(t) => {
                let read = t.get_pl2();
                let ghost g = read;
                let r = match read {
                    Ok(v) => Ok(v),
                    Err(e) => Err(failed(e)),
                };
                proof {
                    if T::obeys_tdp_model() {
                        assert(t.pl2_outcome(g));
                    }
                }
                r
            },
            None => Ok(0),
        }
    }

    /// Set the PL2 power limit in watts.
    pub fn set_pl2(&mut self, watts: u32) -> (r: Result<(), BusError>)
        ensures
            old(self).tdp_spec() is None ==> (r matches Err(BusError::NotSupported(m)) && m@
                == no_tdp_message()) && final(self).tdp_spec() is None,
            old(self).tdp_spec() is Some ==> (r matches Err(e) ==> e is Failed),
            T::obeys_tdp_model() && old(self).tdp_spec() is Some ==> (final(self).tdp_spec() matches Some(t1)
                && t1.tdp_requests() == old(self).tdp_spec()->Some_0.tdp_requests().push((TdpRequest::Pl2(watts), r is Ok))
                && t1.bounds_spec() == old(self).tdp_spec()->Some_0.bounds_spec()),
            final(self).governor_spec() == old(self).governor_spec(),
    {
        match &mut self.tdp {
            Some(t) => match t.set_pl2(watts) {
                Ok(()) => Ok(()),
                Err(e) => Err(failed(e)),
            },
            None => Err(not_supported()),
        }
    }

    /// TDP bounds as TOML; empty if TDP control is unavailable.
    pub fn get_tdp_bounds(&self) -> (r: String)
        ensures
            T::obeys_tdp_model() && self.tdp_spec() is Some ==> r@ == bounds_text(self.tdp_spec()->Some_0.bounds_spec()),
            self.tdp_spec() is None ==> r@.len() == 0,
    {
        match &self.tdp {
            Some(t) => bounds_toml(t.bounds()),
            None => String::new(),
        }
    }
}

} // verus!
