//! Profile selection: which profile is active for each power state, and the
//! rules for changing that assignment.
use crate::config::ProfileAssignments;
use crate::dbus::{is_failed_with, BusError};
use crate::error::{IoError, IoErrorKind};
use crate::profile::TuxProfile;
use crate::text::{concat, same_text};
use vstd::prelude::*;

verus! {

/// Whether the machine runs on mains or on battery power.
#[derive(Debug, Clone, Copy, PartialEq, Eq, Structural)]
pub enum PowerState {
    Ac,
    Battery,
}

/// The wire name of a power state.
pub open spec fn power_state_name_spec(s: PowerState) -> Seq<char> {
    match s {
        PowerState::Ac => "ac"@,
        PowerState::Battery => "battery"@,
    }
}

/// The wire name of a power state: "ac" or "battery".
pub fn power_state_name(s: PowerState) -> (r: &'static str)
    ensures
        r@ == power_state_name_spec(s),
{
    match s {
        PowerState::Ac => "ac",
        PowerState::Battery => "battery",
    }
}

/// The message for a state name that is neither "ac" nor "battery".
pub open spec fn bad_state_message(state: Seq<char>) -> Seq<char> {
    "state must be 'ac' or 'battery', got '"@ + state + "'"@
}

/// The power state with this wire name.
pub fn parse_power_state(state: &str) -> (r: Result<PowerState, BusError>)
    ensures
        state@ == "ac"@ ==> r == Ok::<PowerState, BusError>(PowerState::Ac),
        state@ == "battery"@ ==> r == Ok::<PowerState, BusError>(PowerState::Battery),
        state@ != "ac"@ && state@ != "battery"@ ==> (r matches Err(BusError::InvalidArgs(m)) && m@
            == bad_state_message(state@)),
{
    proof {
        reveal_strlit("ac");
        reveal_strlit("battery");
        assert("ac"@.len() == 2);
        assert("battery"@.len() == 7);
        assert("ac"@ != "battery"@);
    }
    if same_text(state, "ac") {
        Ok(PowerState::Ac)
    } else if same_text(state, "battery") {
        Ok(PowerState::Battery)
    } else {
        let head = concat("state must be 'ac' or 'battery', got '", state);
        Err(BusError::InvalidArgs(concat(head.as_str(), "'")))
    }
}

/// The profile ID assigned to a power state.
pub open spec fn assigned_id(a: ProfileAssignments, s: PowerState) -> Seq<char> {
    match s {
        PowerState::Ac => a.ac_profile@,
        PowerState::Battery => a.battery_profile@,
    }
}

/// The profile ID assigned to a power state.
pub fn active_profile_id(a: &ProfileAssignments, s: PowerState) -> (r: &String)
    ensures
        r@ == assigned_id(*a, s),
{
    match s {
        PowerState::Ac => &a.ac_profile,
        PowerState::Battery => &a.battery_profile,
    }
}

/// Assign a profile ID to a power state; the other state keeps its profile.
pub fn assign_profile(a: &mut ProfileAssignments, s: PowerState, id: &str)
    ensures
        assigned_id(*final(a), s) == id@,
        forall|other: PowerState| other != s ==> assigned_id(*final(a), other) == assigned_id(*old(a), other),
{
    match s {
        PowerState::Ac => {
            a.ac_profile = id.to_owned();
        },
        PowerState::Battery => {
            a.battery_profile = id.to_owned();
        },
    }
}

/// Whether a profile with this ID exists.
pub open spec fn has_id(profiles: Seq<TuxProfile>, id: Seq<char>) -> bool {
    exists|i: int| 0 <= i < profiles.len() && #[trigger] profiles[i].id@ == id
}

/// The position of the first profile with this ID, if any.
pub fn find_profile_by_id(profiles: &Vec<TuxProfile>, id: &str) -> (r: Option<usize>)
    ensures
        r is None <==> !has_id(profiles@, id@),
        r matches Some(i) ==> i < profiles@.len() && profiles@[i as int].id@ == id@ && forall|j: int|
            0 <= j < i ==> profiles@[j].id@ != id@,
{
    let n = profiles.len();
    let mut i: usize = 0;
    while i < n
        invariant
            n == profiles@.len(),
            i <= n,
            forall|j: int| 0 <= j < i ==> profiles@[j].id@ != id@,
        decreases n - i,
    {
        if same_text(profiles[i].id.as_str(), id) {
            return Some(i);
        }
        i = i + 1;
    }
    None
}

/// Whether a profile with this name exists.
pub open spec fn has_name(profiles: Seq<TuxProfile>, name: Seq<char>) -> bool {
    exists|i: int| 0 <= i < profiles.len() && #[trigger] profiles[i].name@ == name
}

/// The position of the first profile with this name, if any.
pub fn find_profile_by_name(profiles: &Vec<TuxProfile>, name: &str) -> (r: Option<usize>)
    ensures
        r is None <==> !has_name(profiles@, name@),
        r matches Some(i) ==> i < profiles@.len() && profiles@[i as int].name@ == name@ && forall|j: int|
            0 <= j < i ==> profiles@[j].name@ != name@,
{
    let n = profiles.len();
    let mut i: usize = 0;
    while i < n
        invariant
            n == profiles@.len(),
            i <= n,
            forall|j: int| 0 <= j < i ==> profiles@[j].name@ != name@,
        decreases n - i,
    {
        if same_text(profiles[i].name.as_str(), name) {
            return Some(i);
        }
        i = i + 1;
    }
    None
}

/// The message for an unknown profile ID.
pub open spec fn not_found_message(id: Seq<char>) -> Seq<char> {
    "ProfileNotFound: '"@ + id + "'"@
}

/// Make `id` the profile of the power state named `state`: the state must be
/// "ac" or "battery", and the profile must exist. On success only that
/// state's assignment changes; on failure nothing changes.
pub fn set_active_profile(
    assignments: &mut ProfileAssignments,
    profiles: &Vec<TuxProfile>,
    id: &str,
    state: &str,
) -> (r: Result<(), BusError>)
    ensures
        state@ != "ac"@ && state@ != "battery"@ ==> (r matches Err(BusError::InvalidArgs(m)) && m@
            == bad_state_message(state@)),
        (state@ == "ac"@ || state@ == "battery"@) && !has_id(profiles@, id@) ==> (r matches Err(e)
            && is_failed_with(e, not_found_message(id@))),
        r is Ok <==> (state@ == "ac"@ || state@ == "battery"@) && has_id(profiles@, id@),
        r is Ok ==> ({
            let s = if state@ == "ac"@ {
                PowerState::Ac
            } else {
                PowerState::Battery
            };
            &&& assigned_id(*final(assignments), s) == id@
            &&& forall|other: PowerState| other != s ==> assigned_id(*final(assignments), other) == assigned_id(*old(assignments), other)
        }),
        r is Err ==> *final(assignments) == *old(assignments),
{
    let s = parse_power_state(state)?;
    if find_profile_by_id(profiles, id).is_none() {
        let head = concat("ProfileNotFound: '", id);
        return Err(BusError::Failed(concat(head.as_str(), "'")));
    }
    assign_profile(assignments, s, id);
    Ok(())
}

/// The name of the active profile for the power state (the first profile
/// with its ID), or its ID when no profile has that ID.
pub fn active_profile_name(profiles: &Vec<TuxProfile>, a: &ProfileAssignments, s: PowerState) -> (r: String)
    ensures
        has_id(profiles@, assigned_id(*a, s)) ==> exists|i: int|
            0 <= i < profiles@.len() && profiles@[i].id@ == assigned_id(*a, s) && r@ == profiles@[i].name@
                && forall|j: int| 0 <= j < i ==> #[trigger] profiles@[j].id@ != assigned_id(*a, s),
        !has_id(profiles@, assigned_id(*a, s)) ==> r@ == assigned_id(*a, s),
{
    let id = active_profile_id(a, s);
    match find_profile_by_id(profiles, id.as_str()) {
        Some(i) => profiles[i].name.as_str().to_owned(),
        None => id.as_str().to_owned(),
    }
}

/// Whether updating the profile `updated_id` must re-apply it: it is the
/// one active in the current power state.
pub fn needs_reapply(a: &ProfileAssignments, s: PowerState, updated_id: &str) -> (r: bool)
    ensures
        r == (assigned_id(*a, s) == updated_id@),
{
    same_text(active_profile_id(a, s).as_str(), updated_id)
}

/// The D-Bus error for a profile storage failure, by its kind.
pub open spec fn store_error_message(kind: IoErrorKind, message: Seq<char>) -> Seq<char> {
    match kind {
        IoErrorKind::NotFound => "ProfileNotFound: "@ + message,
        IoErrorKind::PermissionDenied => "ProfileReadOnly: "@ + message,
        IoErrorKind::AlreadyExists => "InvalidProfile: "@ + message,
        _ => "StorageError: "@ + message,
    }
}

/// Map a profile storage failure to a failed D-Bus call.
pub fn store_error(e: IoError) -> (r: BusError)
    ensures
        is_failed_with(r, store_error_message(e.kind, e.message@)),
{
    let prefix = match e.kind {
        IoErrorKind::NotFound => "ProfileNotFound: ",
        IoErrorKind::PermissionDenied => "ProfileReadOnly: ",
        IoErrorKind::AlreadyExists => "InvalidProfile: ",
        _ => "StorageError: ",
    };
    BusError::Failed(concat(prefix, e.message.as_str()))
}

// ── Laws ─────────────────────────────────────────────────────────────────

/// Law: the default assignments ("__office__" on AC, "__quiet__" on
/// battery) name built-in profiles, so a fresh configuration activates an
/// existing profile in either power state.
pub proof fn law_default_assignments_are_builtin(a: ProfileAssignments, v: Seq<TuxProfile>, s: PowerState)
    requires
        a.ac_profile@ == "__office__"@,
        a.battery_profile@ == "__quiet__"@,
        crate::profile::is_builtin_profiles(v),
    ensures
        has_id(v, assigned_id(a, s)),
{
    match s {
        PowerState::Ac => assert(v[2].id@ == assigned_id(a, s)),
        PowerState::Battery => assert(v[1].id@ == assigned_id(a, s)),
    }
}

} // verus!
