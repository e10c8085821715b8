//! TDP (PL1/PL2) control: backend selection and the power-limit arithmetic
//! of the EC and Intel RAPL backends.
use crate::device::{DeviceDescriptor, TdpBounds, TdpSource};
use crate::error::IoError;
use crate::text::same_text;
use vstd::prelude::*;

verus! {

/// Conservative lower bound when firmware does not publish a minimum.
pub const RAPL_FLOOR_W: u32 = 1;

/// Microwatts per watt (RAPL sysfs unit).
pub const UW_PER_W: u32 = 1000000;

/// EC RAM address of the PL1 limit (NB05).
pub const EC_PL1_ADDR: u64 = 0x0783;

/// EC RAM address of the PL2 limit (NB05).
pub const EC_PL2_ADDR: u64 = 0x0784;

/// A request that changes a power limit, in watts.
pub enum TdpRequest {
    Pl1(u32),
    Pl2(u32),
}

/// TDP backend for reading/writing power limits.
///
/// `tdp_requests` is the history of the limit changes requested of the
/// backend, each with whether it succeeded, and `bounds_spec` the bounds it
/// was made with; every setter adds exactly its request and keeps the
/// bounds. These contracts bind a type only where `obeys_tdp_model` holds;
/// a type that keeps the defaults (the daemon's hardware backends, test
/// doubles) promises nothing by them.
pub trait TdpBackend {
    /// Whether this type keeps the contracts stated over the spec functions below;
    /// a type that does not say so promises nothing by them.
    closed spec fn obeys_tdp_model() -> bool {
        false
    }

    /// The limit changes requested so far, in order, each with whether it
    /// succeeded.
    closed spec fn tdp_requests(&self) -> Seq<(TdpRequest, bool)> {
        arbitrary()
    }

    /// The bounds of the power limits.
    closed spec fn bounds_spec(&self) -> TdpBounds {
        arbitrary()
    }

    /// Whether `r` is a result that reading the PL1 limit may give.
    closed spec fn pl1_outcome(&self, r: Result<u32, IoError>) -> bool {
        arbitrary()
    }

    /// Whether `r` is a result that reading the PL2 limit may give.
    closed spec fn pl2_outcome(&self, r: Result<u32, IoError>) -> bool {
        arbitrary()
    }

    fn get_pl1(&self) -> (r: Result<u32, IoError>)
        ensures
            Self::obeys_tdp_model() ==> self.pl1_outcome(r),
    ;

    fn set_pl1(&mut self, watts: u32) -> (r: Result<(), IoError>)
        ensures
            Self::obeys_tdp_model() ==> (final(self).tdp_requests() == old(self).tdp_requests().push((TdpRequest::Pl1(watts), r is Ok))),
            Self::obeys_tdp_model() ==> (final(self).bounds_spec() == old(self).bounds_spec()),
    ;

    fn get_pl2(&self) -> (r: Result<u32, IoError>)
        ensures
            Self::obeys_tdp_model() ==> self.pl2_outcome(r),
    ;

    fn set_pl2(&mut self, watts: u32) -> (r: Result<(), IoError>)
        ensures
            Self::obeys_tdp_model() ==> (final(self).tdp_requests() == old(self).tdp_requests().push((TdpRequest::Pl2(watts), r is Ok))),
            Self::obeys_tdp_model() ==> (final(self).bounds_spec() == old(self).bounds_spec()),
    ;

    fn bounds(&self) -> (r: &TdpBounds)
        ensures
            Self::obeys_tdp_model() ==> (*r == self.bounds_spec()),
    ;
}

/// Which TDP backend a device gets.
#[derive(Debug, Clone, Copy, PartialEq, Eq, Structural)]
pub enum TdpChoice {
    /// EC RAM power limits with the descriptor's bounds.
    Ec(TdpBounds),
    /// Intel RAPL with the bounds that firmware reports.
    Rapl(TdpBounds),
}

/// The backend that a device gets: none for `TdpSource::Unavailable`; the
/// EC backend when the descriptor has bounds and the EC interface exists;
/// RAPL when the probe found it. There is no fallthrough between sources.
pub open spec fn build_backend_spec(
    source: TdpSource,
    bounds: Option<TdpBounds>,
    ec_available: bool,
    rapl_probe: Option<TdpBounds>,
) -> Option<TdpChoice> {
    match source {
        TdpSource::Unavailable => None,
        TdpSource::Ec => match bounds {
            Some(b) => if ec_available {
                Some(TdpChoice::Ec(b))
            } else {
                None
            },
            None => None,
        },
        TdpSource::Rapl => match rapl_probe {
            Some(b) => Some(TdpChoice::Rapl(b)),
            None => None,
        },
    }
}

/// Build the TDP backend choice for `descriptor`, or `None` if TDP control
/// is not available. `ec_available` tells whether the EC interface exists
/// and `rapl_probe` holds the bounds of a successful RAPL probe; each is
/// consulted only for its own source.
pub fn build_backend(
    descriptor: &DeviceDescriptor,
    ec_available: bool,
    rapl_probe: Option<TdpBounds>,
) -> (r: Option<TdpChoice>)
    ensures
        r == build_backend_spec(descriptor.tdp_source, descriptor.tdp, ec_available, rapl_probe),
{
    match descriptor.tdp_source {
        TdpSource::Unavailable => None,
        TdpSource::Ec => match descriptor.tdp {
            Some(b) => if ec_available {
                Some(TdpChoice::Ec(b))
            } else {
                None
            },
            None => None,
        },
        TdpSource::Rapl => match rapl_probe {
            Some(b) => Some(TdpChoice::Rapl(b)),
            None => None,
        },
    }
}

/// `w` limited to `[lo, hi]`.
pub open spec fn clamp_spec(w: int, lo: int, hi: int) -> int {
    if w < lo {
        lo
    } else if w > hi {
        hi
    } else {
        w
    }
}

/// `watts` limited to `[min, max]`, as `u32::clamp` does.
pub fn clamp_watts(watts: u32, min: u32, max: u32) -> (r: u32)
    requires
        min <= max,
    ensures
        r == clamp_spec(watts as int, min as int, max as int),
{
    if watts < min {
        min
    } else if watts > max {
        max
    } else {
        watts
    }
}

/// The byte that the EC backend writes for a power limit: the watts
/// clamped to the bounds, truncated to 8 bits.
pub fn ec_limit_byte(watts: u32, min: u32, max: u32) -> (r: u8)
    requires
        min <= max,
    ensures
        r == clamp_spec(watts as int, min as int, max as int) % 256,
{
    let w = clamp_watts(watts, min, max);
    (w % 256) as u8
}

/// The microwatt value that the RAPL backend writes for a power limit: the
/// watts clamped to the bounds, times 10^6, saturating.
pub fn rapl_limit_uw(watts: u32, min: u32, max: u32) -> (r: u32)
    requires
        min <= max,
    ensures
        r == (if clamp_spec(watts as int, min as int, max as int) * 1000000 > u32::MAX {
            u32::MAX as int
        } else {
            clamp_spec(watts as int, min as int, max as int) * 1000000
        }),
{
    let w = clamp_watts(watts, min, max);
    let product: u64 = w as u64 * UW_PER_W as u64;
    if product > u32::MAX as u64 {
        u32::MAX
    } else {
        product as u32
    }
}

/// Microwatts to whole watts, rounding down.
pub fn uw_to_w(uw: u32) -> (r: u32)
    ensures
        r == uw / 1000000,
{
    uw / UW_PER_W
}

/// The bounds that RAPL reports: PL1 at least 1 W, PL2 falling back to
/// PL1's maximum where firmware reports 0; both minimums are 1 W.
pub open spec fn rapl_bounds_spec(pl1_max_uw: u32, pl2_max_uw: u32) -> TdpBounds {
    let pl1_max = if pl1_max_uw / 1000000 > 1 {
        (pl1_max_uw / 1000000) as u32
    } else {
        1u32
    };
    let pl2_max = if pl2_max_uw / 1000000 == 0 {
        pl1_max
    } else {
        (pl2_max_uw / 1000000) as u32
    };
    TdpBounds {
        pl1_min: 1,
        pl1_max,
        pl2_min: 1,
        pl2_max,
        pl4_min: None,
        pl4_max: None,
    }
}

/// The bounds that RAPL's maximum-power attributes (in µW) describe.
pub fn rapl_bounds(pl1_max_uw: u32, pl2_max_uw: u32) -> (r: TdpBounds)
    ensures
        r == rapl_bounds_spec(pl1_max_uw, pl2_max_uw),
{
    let w1 = uw_to_w(pl1_max_uw);
    let pl1_max = if w1 > RAPL_FLOOR_W {
        w1
    } else {
        RAPL_FLOOR_W
    };
    let w2 = uw_to_w(pl2_max_uw);
    let pl2_max = if w2 == 0 {
        pl1_max
    } else {
        w2
    };
    TdpBounds {
        pl1_min: RAPL_FLOOR_W,
        pl1_max,
        pl2_min: RAPL_FLOOR_W,
        pl2_max,
        pl4_min: None,
        pl4_max: None,
    }
}

/// Whether a RAPL zone is the package domain with PL1 as its long-term
/// and PL2 as its short-term constraint.
pub fn rapl_zone_matches(name: &str, constraint0_name: &str, constraint1_name: &str) -> (r: bool)
    ensures
        r == (name@ == "package-0"@ && constraint0_name@ == "long_term"@ && constraint1_name@
            == "short_term"@),
{
    same_text(name, "package-0") && same_text(constraint0_name, "long_term") && same_text(
        constraint1_name,
        "short_term",
    )
}

} // verus!
