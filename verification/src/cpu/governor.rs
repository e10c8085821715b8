//! The decisions of CPU governor, EPP and turbo control: which sysfs
//! directories are CPUs, governor availability and how per-CPU writes add
//! up.
use crate::error::{IoError, IoErrorKind};
use crate::text::{concat, same_text, starts_with, starts_with_spec, words, words_spec};
use vstd::prelude::*;
use vstd::string::StrSliceExecFns;

verus! {

/// A directory name of the form `cpu` followed by digits only.
pub open spec fn is_cpu_dir_name_spec(name: Seq<char>) -> bool {
    starts_with_spec(name, "cpu"@) && forall|i: int| 3 <= i < name.len() ==> '0' <= #[trigger] name[i]
        <= '9'
}

/// Whether a sysfs directory name is a CPU (`cpu` followed by digits).
pub fn is_cpu_dir_name(name: &str) -> (r: bool)
    ensures
        r == is_cpu_dir_name_spec(name@),
{
    if !starts_with(name, "cpu") {
        return false;
    }
    proof {
        reveal_strlit("cpu");
    }
    let n = name.unicode_len();
    let mut i: usize = 3;
    while i < n
        invariant
            n == name@.len(),
            3 <= i <= n,
            forall|k: int| 3 <= k < i ==> '0' <= #[trigger] name@[k] <= '9',
        decreases n - i,
    {
        let c = name.get_char(i);
        if c < '0' || c > '9' {
            return false;
        }
        i = i + 1;
    }
    true
}

/// The governors that `scaling_available_governors` lists.
pub fn parse_available_governors(raw: &str) -> (r: Vec<String>)
    ensures
        r@.map_values(|s: String| s@) == words_spec(raw@),
{
    words(raw)
}

/// The names joined with ", ".
pub open spec fn comma_join(names: Seq<Seq<char>>) -> Seq<char>
    decreases names.len(),
{
    if names.len() == 0 {
        seq![]
    } else if names.len() == 1 {
        names[0]
    } else {
        comma_join(names.drop_last()) + ", "@ + names.last()
    }
}

/// The names joined with ", ".
fn join_names(names: &Vec<String>) -> (r: String)
    ensures
        r@ == comma_join(names@.map_values(|s: String| s@)),
{
    let ghost ns = names@.map_values(|s: String| s@);
    let n = names.len();
    let mut out = String::new();
    let mut i: usize = 0;
    while i < n
        invariant
            n == names@.len(),
            ns == names@.map_values(|s: String| s@),
            i <= n,
            out@ == comma_join(ns.subrange(0, i as int)),
        decreases n - i,
    {
        proof {
            assert(ns.subrange(0, i + 1).drop_last() =~= ns.subrange(0, i as int));
            assert(ns.subrange(0, i + 1).last() == names@[i as int]@);
        }
        if i > 0 {
            out = concat(out.as_str(), ", ");
        }
        let next = concat(out.as_str(), names[i].as_str());
        proof {
            if i == 0 {
                assert(next@ =~= names@[0]@);
            }
        }
        out = next;
        i = i + 1;
    }
    assert(ns.subrange(0, n as int) =~= ns);
    out
}

/// Check that a governor is among the available ones.
pub fn check_governor(governor: &str, available: &Vec<String>) -> (r: Result<(), IoError>)
    ensures
        r is Ok <==> available@.map_values(|s: String| s@).contains(governor@),
        r matches Err(e) ==> e.kind == IoErrorKind::InvalidInput && e.message@ == "governor '"@
            + governor@ + "' not available (available: "@ + comma_join(
            available@.map_values(|s: String| s@),
        ) + ")"@,
{
    let ghost names = available@.map_values(|s: String| s@);
    let n = available.len();
    let mut i: usize = 0;
    while i < n
        invariant
            n == available@.len(),
            names == available@.map_values(|s: String| s@),
            i <= n,
            forall|k: int| 0 <= k < i ==> names[k] != governor@,
        decreases n - i,
    {
        if same_text(available[i].as_str(), governor) {
            assert(names[i as int] == governor@);
            return Ok(());
        }
        i = i + 1;
    }
    assert(!names.contains(governor@));
    let a = concat("governor '", governor);
    let b = concat(a.as_str(), "' not available (available: ");
    let c = concat(b.as_str(), join_names(available).as_str());
    Err(IoError { kind: IoErrorKind::InvalidInput, message: concat(c.as_str(), ")") })
}

/// The outcome of writing an attribute on every CPU: success when any
/// write succeeded, otherwise the last failure; no CPU at all is an error.
pub open spec fn write_all_spec(results: Seq<Result<(), IoError>>) -> Option<Result<(), IoError>> {
    if results.len() == 0 {
        None
    } else if exists|i: int| 0 <= i < results.len() && results[i] is Ok {
        Some(Ok(()))
    } else {
        Some(results.last())
    }
}

/// The outcome of writing an attribute on every CPU: success when any
/// write succeeded, otherwise the last failure; without CPUs, a not-found
/// error.
pub fn write_all_outcome(results: Vec<Result<(), IoError>>) -> (r: Result<(), IoError>)
    ensures
        results@.len() == 0 ==> (r matches Err(e) && e.kind == IoErrorKind::NotFound && e.message@
            == "no CPU cpufreq directories found"@),
        results@.len() > 0 ==> Some(r) == write_all_spec(results@),
{
    let n = results.len();
    if n == 0 {
        return Err(
            IoError {
                kind: IoErrorKind::NotFound,
                message: "no CPU cpufreq directories found".to_owned(),
            },
        );
    }
    let mut i: usize = 0;
    while i < n
        invariant
            n == results@.len(),
            i <= n,
            forall|k: int| 0 <= k < i ==> results@[k] is Err,
        decreases n - i,
    {
        if results[i].is_ok() {
            assert(results@[i as int] is Ok);
            return Ok(());
        }
        i = i + 1;
    }
    let mut v = results;
    v.pop().unwrap()
}

/// Which turbo switch a machine has.
#[derive(Debug, Clone, Copy, PartialEq, Eq, Structural)]
pub enum TurboSwitch {
    /// `intel_pstate/no_turbo`: 1 disables turbo.
    IntelNoTurbo,
    /// `cpufreq/boost`: 1 enables turbo.
    Boost,
}

/// The value written to the turbo switch for a `no_turbo` request.
pub fn turbo_switch_value(switch: TurboSwitch, no_turbo: bool) -> (r: &'static str)
    ensures
        r@ == (if (switch == TurboSwitch::IntelNoTurbo) == no_turbo {
            "1"@
        } else {
            "0"@
        }),
{
    match switch {
        TurboSwitch::IntelNoTurbo => if no_turbo {
            "1"
        } else {
            "0"
        },
        TurboSwitch::Boost => if no_turbo {
            "0"
        } else {
            "1"
        },
    }
}

/// Whether turbo is disabled, from the trimmed value of the turbo switch.
pub fn no_turbo_from(switch: TurboSwitch, value: &str) -> (r: bool)
    ensures
        r == (match switch {
            TurboSwitch::IntelNoTurbo => value@ == "1"@,
            TurboSwitch::Boost => value@ == "0"@,
        }),
{
    match switch {
        TurboSwitch::IntelNoTurbo => same_text(value, "1"),
        TurboSwitch::Boost => same_text(value, "0"),
    }
}

} // verus!
