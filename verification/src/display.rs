//! Display backlight arithmetic: raw sysfs brightness values and
//! percentages.
use crate::error::IoError;
use vstd::prelude::*;

verus! {

/// A raw brightness as a percentage of the maximum, rounding down.
pub open spec fn percent_of_raw_spec(raw: u32, max: u32) -> int {
    ((raw as int * 100) / max as int) as u32 as int
}

/// A raw brightness as a percentage of the maximum (0–100 for a raw value
/// within range), rounding down.
pub fn percent_of_raw(raw: u32, max: u32) -> (r: u32)
    requires
        max > 0,
    ensures
        r == percent_of_raw_spec(raw, max),
        raw <= max ==> r <= 100,
{
    let q: u64 = (raw as u64 * 100) / max as u64;
    proof {
        if raw <= max {
            assert(raw as int * 100 <= max as int * 100) by (nonlinear_arith)
                requires
                    raw <= max,
            ;
            assert((raw as int * 100) / max as int <= 100) by (nonlinear_arith)
                requires
                    raw as int * 100 <= max as int * 100,
                    max > 0,
            ;
        }
    }
    q as u32
}

/// The raw value for a percentage (capped at 100) of the maximum, rounding
/// down.
pub open spec fn raw_for_percent_spec(percent: u32, max: u32) -> int {
    let p: int = if percent > 100 {
        100
    } else {
        percent as int
    };
    p * max as int / 100
}

/// The raw value for a percentage (capped at 100) of the maximum.
pub fn raw_for_percent(percent: u32, max: u32) -> (r: u32)
    ensures
        r == raw_for_percent_spec(percent, max),
        r <= max,
{
    let p: u64 = if percent > 100 {
        100
    } else {
        percent as u64
    };
    proof {
        assert(p * max as int / 100 <= max as int) by (nonlinear_arith)
            requires
                p <= 100,
        ;
    }
    (p * max as u64 / 100) as u32
}

/// A raw brightness capped at the maximum.
pub fn clamp_raw(raw: u32, max: u32) -> (r: u32)
    ensures
        r == (if raw > max {
            max
        } else {
            raw
        }),
{
    if raw > max {
        max
    } else {
        raw
    }
}

/// Whether a backlight driver with this maximum can be used (a maximum of
/// 0 cannot express any level).
pub fn backlight_usable(max_brightness: u32) -> (r: bool)
    ensures
        r == (max_brightness != 0),
{
    max_brightness != 0
}

/// The outcome of setting brightness on every controller: the last
/// failure when there is a single controller, otherwise success.
pub fn set_all_outcome(controller_count: usize, last_err: Option<IoError>) -> (r: Result<(), IoError>)
    ensures
        (last_err is Some && controller_count == 1) ==> r == Err::<(), IoError>(last_err->0),
        !(last_err is Some && controller_count == 1) ==> r is Ok,
{
    match last_err {
        Some(e) => if controller_count == 1 {
            Err(e)
        } else {
            Ok(())
        },
        None => Ok(()),
    }
}

/// Law: reading back a percentage that was written never reports more
/// than was asked (capped at 100), and reports exactly that when the
/// maximum is a multiple of 100.
pub proof fn law_percent_read_back(percent: u32, max: u32)
    requires
        max > 0,
    ensures
        ({
            let asked: int = if percent > 100 {
                100
            } else {
                percent as int
            };
            let back = percent_of_raw_spec(raw_for_percent_spec(percent, max) as u32, max);
            &&& back <= asked
            &&& max % 100 == 0 ==> back == asked
        }),
{
    let q: int = if percent > 100 {
        100
    } else {
        percent as int
    };
    let m = max as int;
    let raw = q * m / 100;
    assert(0 <= raw <= m) by (nonlinear_arith)
        requires
            0 <= q <= 100,
            m > 0,
            raw == q * m / 100,
    ;
    assert(raw * 100 / m <= q) by (nonlinear_arith)
        requires
            0 <= q <= 100,
            m > 0,
            raw == q * m / 100,
    ;
    assert(raw * 100 / m <= 100);
    if max % 100 == 0 {
        let k = m / 100;
        assert(m == 100 * k);
        assert(raw == q * k) by (nonlinear_arith)
            requires
                m == 100 * k,
                raw == q * m / 100,
        ;
        assert(raw * 100 / m == q) by (nonlinear_arith)
            requires
                m == 100 * k,
                k > 0,
                raw == q * k,
        ;
    }
}

} // verus!
