//! Platform detection for TUXEDO laptops from DMI identification strings,
//! WMI GUIDs and sysfs paths.
//!
//! The source of those facts is a [`DmiSource`]; detection resolves them to
//! a device description from the registry or to a platform fallback.
use crate::device::{same_descriptor, DeviceDescriptor};
use crate::error::{IoError, IoErrorKind};
use crate::device_table::{
    fallback_for_platform, fallback_is, first_with_sku, lookup_by_sku, search_order,
    DeviceRegistry,
};
use crate::platform::{debug_name_spec, display_name_spec, Platform};
use crate::text::{
    concat, eq_ignore_ascii_case, eq_ignore_ascii_case_spec, join_lines, join_lines_spec,
    same_text, split, split_spec, trim, trim_spec,
};
use vstd::prelude::*;
use vstd::string::StrSliceExecFns;

verus! {

/// NB04 WMI GUID used for platform detection.
pub const NB04_WMI_GUID: &'static str = "80C9BAA6-AC48-4538-9234-9F81A55E7C85";

/// Clevo WMI event GUID — unique to Clevo hardware.
pub const CLEVO_WMI_EVENT_GUID: &'static str = "ABBC0F6B-8EA1-11D1-00A0-C90629100000";

/// Uniwill WMI event GUID 2 — unique to Uniwill hardware.
pub const UNIWILL_WMI_EVENT_GUID_2: &'static str = "ABBC0F72-8EA1-11D1-00A0-C90629100000";

/// NB04 platform path exposed by tuxedo-drivers.
pub const NB04_SHIM_SYSFS_PATH: &'static str = "/sys/devices/platform/tuxedo_nb04_sensors/";

/// Tuxi platform path exposed by tuxedo-drivers.
pub const TUXI_FAN_CONTROL_SYSFS_PATH: &'static str = "/sys/devices/platform/tuxedo_fan_control/";

/// Abstraction over DMI/sysfs access for testability.
///
/// A source answers each question the same way every time it is asked
/// during one detection; the spec functions name those answers.
pub trait DmiSource {
    /// The value of DMI field `field`, or `None` when it cannot be read.
    spec fn field_value(&self, field: Seq<char>) -> Option<Seq<char>>;

    /// The message of the error that a failed read of `field` reports.
    spec fn read_error(&self, field: Seq<char>) -> Seq<char>;

    /// The kind of the error that a failed read of `field` reports.
    spec fn read_error_kind(&self, field: Seq<char>) -> IoErrorKind;

    /// Whether a WMI device with this GUID exists.
    spec fn has_wmi_guid(&self, guid: Seq<char>) -> bool;

    /// Whether this sysfs path exists.
    spec fn has_sysfs_path(&self, path: Seq<char>) -> bool;

    /// Read a DMI field (e.g. "board_vendor").
    fn read_dmi_field(&self, field: &str) -> (r: Result<String, IoError>)
        ensures
            r matches Ok(v) ==> self.field_value(field@) == Some(v@),
            r matches Err(e) ==> self.field_value(field@) is None && e.message@ == self.read_error(
                field@,
            ) && e.kind == self.read_error_kind(field@),
    ;

    /// Check if a WMI GUID directory exists in `/sys/bus/wmi/devices/`.
    fn wmi_guid_exists(&self, guid: &str) -> (r: bool)
        ensures
            r == self.has_wmi_guid(guid@),
    ;

    /// Check if a sysfs path exists.
    fn sysfs_path_exists(&self, path: &str) -> (r: bool)
        ensures
            r == self.has_sysfs_path(path@),
    ;
}

/// DMI identification strings read from sysfs.
#[derive(Debug, Clone)]
pub struct DmiInfo {
    pub board_vendor: String,
    pub board_name: String,
    pub product_sku: String,
    pub sys_vendor: String,
    pub product_name: String,
    pub product_version: String,
}

/// Result of successful platform detection.
#[derive(Debug)]
pub struct DetectedDevice {
    /// The resolved device descriptor (from the registry or a fallback).
    pub descriptor: DeviceDescriptor,
    /// DMI identification strings.
    pub dmi: DmiInfo,
    /// `false` if using a platform fallback instead of an exact SKU match.
    pub exact_match: bool,
}

/// Errors that can occur during platform detection.
#[derive(Debug)]
pub enum DetectionError {
    /// Cannot read DMI data from sysfs (permissions, missing files).
    NoDmiAccess(IoError),
    /// DMI data was read but no TUXEDO platform could be identified.
    UnknownPlatform { dmi: Box<DmiInfo> },
    /// Platform was identified but its kernel shim is not loaded.
    NoKernelShim { platform: Platform },
}

/// The value of the last entry for `key`, if any.
pub open spec fn last_value(fields: Seq<(String, String)>, key: Seq<char>) -> Option<Seq<char>>
    decreases fields.len(),
{
    if fields.len() == 0 {
        None
    } else if fields.last().0@ == key {
        Some(fields.last().1@)
    } else {
        last_value(fields.drop_last(), key)
    }
}

/// Whether one of the strings is `s`.
pub open spec fn listed(items: Seq<String>, s: Seq<char>) -> bool {
    exists|i: int| 0 <= i < items.len() && #[trigger] items[i]@ == s
}

/// The kind and message of the last error recorded for `key`, if any.
pub open spec fn last_error(errors: Seq<(String, IoError)>, key: Seq<char>) -> Option<(IoErrorKind, Seq<char>)>
    decreases errors.len(),
{
    if errors.len() == 0 {
        None
    } else if errors.last().0@ == key {
        Some((errors.last().1.kind, errors.last().1.message@))
    } else {
        last_error(errors.drop_last(), key)
    }
}

/// What a machine's DMI and sysfs report, read once: field values, the
/// failures of fields that could not be read, and the WMI GUIDs and sysfs
/// paths that exist.
pub struct DmiSnapshot {
    /// Field names and values; a later entry for a name replaces an earlier one.
    pub fields: Vec<(String, String)>,
    /// Field names and the failures reading them.
    pub read_errors: Vec<(String, IoError)>,
    pub wmi_guids: Vec<String>,
    pub sysfs_paths: Vec<String>,
}

/// The index of the last entry whose name is `key`, searching below `n`.
fn find_last<T>(entries: &Vec<(String, T)>, key: &str) -> (r: Option<usize>)
    ensures
        r matches Some(i) ==> i < entries@.len() && entries@[i as int].0@ == key@ && forall|j: int|
            i < j < entries@.len() ==> #[trigger] entries@[j].0@ != key@,
        r is None ==> forall|j: int| 0 <= j < entries@.len() ==> #[trigger] entries@[j].0@ != key@,
{
    let k = key.to_owned();
    let mut i = entries.len();
    while i > 0
        invariant
            i <= entries@.len(),
            k@ == key@,
            forall|j: int| i <= j < entries@.len() ==> #[trigger] entries@[j].0@ != key@,
        decreases i,
    {
        if entries[i - 1].0 == k {
            return Some(i - 1);
        }
        i = i - 1;
    }
    None
}

proof fn lemma_last_value(fields: Seq<(String, String)>, key: Seq<char>, i: int)
    requires
        0 <= i < fields.len(),
        fields[i].0@ == key,
        forall|j: int| i < j < fields.len() ==> #[trigger] fields[j].0@ != key,
    ensures
        last_value(fields, key) == Some(fields[i].1@),
    decreases fields.len(),
{
    if i < fields.len() - 1 {
        assert(fields.last().0@ != key);
        assert(fields.drop_last()[i] == fields[i]);
        lemma_last_value(fields.drop_last(), key, i);
    }
}

proof fn lemma_no_value(fields: Seq<(String, String)>, key: Seq<char>)
    requires
        forall|j: int| 0 <= j < fields.len() ==> #[trigger] fields[j].0@ != key,
    ensures
        last_value(fields, key) is None,
    decreases fields.len(),
{
    if fields.len() > 0 {
        assert(fields.last().0@ != key);
        assert forall|j: int| 0 <= j < fields.drop_last().len() implies #[trigger] fields.drop_last()[j].0@
            != key by {
            assert(fields.drop_last()[j] == fields[j]);
        }
        lemma_no_value(fields.drop_last(), key);
    }
}

proof fn lemma_last_error(errors: Seq<(String, IoError)>, key: Seq<char>, i: int)
    requires
        0 <= i < errors.len(),
        errors[i].0@ == key,
        forall|j: int| i < j < errors.len() ==> #[trigger] errors[j].0@ != key,
    ensures
        last_error(errors, key) == Some((errors[i].1.kind, errors[i].1.message@)),
    decreases errors.len(),
{
    if i < errors.len() - 1 {
        assert(errors.last().0@ != key);
        assert(errors.drop_last()[i] == errors[i]);
        lemma_last_error(errors.drop_last(), key, i);
    }
}

proof fn lemma_no_error(errors: Seq<(String, IoError)>, key: Seq<char>)
    requires
        forall|j: int| 0 <= j < errors.len() ==> #[trigger] errors[j].0@ != key,
    ensures
        last_error(errors, key) is None,
    decreases errors.len(),
{
    if errors.len() > 0 {
        assert(errors.last().0@ != key);
        assert forall|j: int| 0 <= j < errors.drop_last().len() implies #[trigger] errors.drop_last()[j].0@
            != key by {
            assert(errors.drop_last()[j] == errors[j]);
        }
        lemma_no_error(errors.drop_last(), key);
    }
}

/// Whether one of the strings is `s`.
fn contains_text(items: &Vec<String>, s: &str) -> (r: bool)
    ensures
        r == listed(items@, s@),
{
    let k = s.to_owned();
    let n = items.len();
    let mut i: usize = 0;
    while i < n
        invariant
            n == items@.len(),
            k@ == s@,
            i <= n,
            forall|j: int| 0 <= j < i ==> #[trigger] items@[j]@ != s@,
        decreases n - i,
    {
        if items[i] == k {
            return true;
        }
        i = i + 1;
    }
    false
}

impl DmiSource for DmiSnapshot {
    open spec fn field_value(&self, field: Seq<char>) -> Option<Seq<char>> {
        last_value(self.fields@, field)
    }

    open spec fn read_error(&self, field: Seq<char>) -> Seq<char> {
        match last_error(self.read_errors@, field) {
            Some(e) => e.1,
            None => "no DMI field: "@ + field,
        }
    }

    open spec fn read_error_kind(&self, field: Seq<char>) -> IoErrorKind {
        match last_error(self.read_errors@, field) {
            Some(e) => e.0,
            None => IoErrorKind::NotFound,
        }
    }

    open spec fn has_wmi_guid(&self, guid: Seq<char>) -> bool {
        listed(self.wmi_guids@, guid)
    }

    open spec fn has_sysfs_path(&self, path: Seq<char>) -> bool {
        listed(self.sysfs_paths@, path)
    }

    fn read_dmi_field(&self, field: &str) -> (r: Result<String, IoError>) {
        match find_last(&self.fields, field) {
            Some(i) => {
                proof {
                    lemma_last_value(self.fields@, field@, i as int);
                }
                Ok(self.fields[i].1.clone())
            },
            None => {
                proof {
                    lemma_no_value(self.fields@, field@);
                }
                match find_last(&self.read_errors, field) {
                    Some(j) => {
                        proof {
                            lemma_last_error(self.read_errors@, field@, j as int);
                        }
                        let e = &self.read_errors[j].1;
                        Err(IoError { kind: e.kind, message: e.message.clone() })
                    },
                    None => {
                        proof {
                            lemma_no_error(self.read_errors@, field@);
                        }
                        Err(
                            IoError {
                                kind: IoErrorKind::NotFound,
                                message: concat("no DMI field: ", field),
                            },
                        )
                    },
                }
            },
        }
    }

    fn wmi_guid_exists(&self, guid: &str) -> (r: bool) {
        contains_text(&self.wmi_guids, guid)
    }

    fn sysfs_path_exists(&self, path: &str) -> (r: bool) {
        contains_text(&self.sysfs_paths, path)
    }
}

// ── Specification ────────────────────────────────────────────────────────

/// The value of a field that the source can read.
pub open spec fn field_of<S: DmiSource>(source: S, field: Seq<char>) -> Seq<char> {
    source.field_value(field)->0
}

/// All six identification fields can be read.
pub open spec fn dmi_readable<S: DmiSource>(source: S) -> bool {
    &&& source.field_value("board_vendor"@) is Some
    &&& source.field_value("board_name"@) is Some
    &&& source.field_value("product_sku"@) is Some
    &&& source.field_value("sys_vendor"@) is Some
    &&& source.field_value("product_name"@) is Some
    &&& source.field_value("product_version"@) is Some
}

/// The error message of the first field, in reading order, that cannot be
/// read.
pub open spec fn first_read_error<S: DmiSource>(source: S) -> Seq<char> {
    if source.field_value("board_vendor"@) is None {
        source.read_error("board_vendor"@)
    } else if source.field_value("board_name"@) is None {
        source.read_error("board_name"@)
    } else if source.field_value("product_sku"@) is None {
        source.read_error("product_sku"@)
    } else if source.field_value("sys_vendor"@) is None {
        source.read_error("sys_vendor"@)
    } else if source.field_value("product_name"@) is None {
        source.read_error("product_name"@)
    } else {
        source.read_error("product_version"@)
    }
}

/// The error kind of the first field, in reading order, that cannot be
/// read.
pub open spec fn first_read_error_kind<S: DmiSource>(source: S) -> IoErrorKind {
    if source.field_value("board_vendor"@) is None {
        source.read_error_kind("board_vendor"@)
    } else if source.field_value("board_name"@) is None {
        source.read_error_kind("board_name"@)
    } else if source.field_value("product_sku"@) is None {
        source.read_error_kind("product_sku"@)
    } else if source.field_value("sys_vendor"@) is None {
        source.read_error_kind("sys_vendor"@)
    } else if source.field_value("product_name"@) is None {
        source.read_error_kind("product_name"@)
    } else {
        source.read_error_kind("product_version"@)
    }
}

/// `d` holds the six fields as the source reports them.
pub open spec fn dmi_is<S: DmiSource>(source: S, d: DmiInfo) -> bool {
    &&& source.field_value("board_vendor"@) == Some(d.board_vendor@)
    &&& source.field_value("board_name"@) == Some(d.board_name@)
    &&& source.field_value("product_sku"@) == Some(d.product_sku@)
    &&& source.field_value("sys_vendor"@) == Some(d.sys_vendor@)
    &&& source.field_value("product_name"@) == Some(d.product_name@)
    &&& source.field_value("product_version"@) == Some(d.product_version@)
}

/// Platform hint from the curated list of combined SKU strings of recent
/// models that the table does not list yet.
pub open spec fn tcc_hint_spec(sku: Seq<char>) -> Option<Platform> {
    let t = trim_spec(sku);
    if t == "IBP14A09MK1 / IBP15A09MK1"@ || t == "IBP14A10MK1 / IBP15A10MK1"@ || t
        == "IIBP14A10MK1 / IBP15A10MK1"@ {
        Some(Platform::Uniwill)
    } else {
        None
    }
}

/// The platform that the probes point to, in order of precedence: an NB05
/// board vendor, the NB04, Uniwill and Clevo WMI GUIDs, the Tuxi sysfs
/// path, the SKU hint, and last an NB02 board vendor (Uniwill).
pub open spec fn platform_guess<S: DmiSource>(source: S, vendor: Seq<char>, sku: Seq<char>) -> Option<
    Platform,
> {
    if eq_ignore_ascii_case_spec(vendor, "NB05"@) {
        Some(Platform::Nb05)
    } else if source.has_wmi_guid(NB04_WMI_GUID@) {
        Some(Platform::Nb04)
    } else if source.has_wmi_guid(UNIWILL_WMI_EVENT_GUID_2@) {
        Some(Platform::Uniwill)
    } else if source.has_wmi_guid(CLEVO_WMI_EVENT_GUID@) {
        Some(Platform::Clevo)
    } else if source.has_sysfs_path(TUXI_FAN_CONTROL_SYSFS_PATH@) {
        Some(Platform::Tuxi)
    } else if tcc_hint_spec(sku) is Some {
        tcc_hint_spec(sku)
    } else if eq_ignore_ascii_case_spec(vendor, "NB02"@) {
        Some(Platform::Uniwill)
    } else {
        None
    }
}

/// Index of the first description that the trimmed, non-empty pieces from
/// index `i` on match, or -1.
pub open spec fn token_match(entries: Seq<DeviceDescriptor>, pieces: Seq<Seq<char>>, i: int) -> int
    decreases pieces.len() - i,
{
    if i < 0 || i >= pieces.len() {
        -1
    } else if trim_spec(pieces[i]).len() > 0 && first_with_sku(entries, trim_spec(pieces[i]), 0)
        != -1 {
        first_with_sku(entries, trim_spec(pieces[i]), 0)
    } else {
        token_match(entries, pieces, i + 1)
    }
}

/// Index of the description for a DMI SKU: the exact SKU first, then each
/// slash-separated token of a combined SKU string; -1 if none matches.
pub open spec fn sku_match(entries: Seq<DeviceDescriptor>, sku: Seq<char>) -> int {
    if first_with_sku(entries, sku, 0) != -1 {
        first_with_sku(entries, sku, 0)
    } else if !sku.contains('/') {
        -1
    } else {
        token_match(entries, split_spec(sku, '/'), 0)
    }
}

/// What detection answers for a registry and a source.
pub open spec fn detection_outcome<S: DmiSource>(
    registry: DeviceRegistry,
    source: S,
    r: Result<DetectedDevice, DetectionError>,
) -> bool {
    if !dmi_readable(source) {
        r matches Err(DetectionError::NoDmiAccess(e)) && e.message@ == first_read_error(source) && e.kind
            == first_read_error_kind(source)
    } else {
        let vendor = field_of(source, "board_vendor"@);
        let sku = field_of(source, "product_sku"@);
        let k = sku_match(search_order(registry), sku);
        if k != -1 {
            &&& r matches Ok(dev)
            &&& dev.exact_match
            &&& dmi_is(source, dev.dmi)
            &&& same_descriptor(dev.descriptor, search_order(registry)[k])
        } else {
            match platform_guess(source, vendor, sku) {
                None => r matches Err(DetectionError::UnknownPlatform { dmi }) && dmi_is(
                    source,
                    *dmi,
                ),
                Some(p) => if p == Platform::Nb04 && !source.has_sysfs_path(
                    NB04_SHIM_SYSFS_PATH@,
                ) {
                    r matches Err(DetectionError::NoKernelShim { platform }) && platform
                        == Platform::Nb04
                } else {
                    &&& r matches Ok(dev)
                    &&& !dev.exact_match
                    &&& dmi_is(source, dev.dmi)
                    &&& fallback_is(dev.descriptor, p)
                },
            }
        }
    }
}

/// The message of a detection error.
pub open spec fn error_message_spec(e: DetectionError) -> Seq<char> {
    match e {
        DetectionError::NoDmiAccess(x) => "cannot access DMI data: "@ + x.message@,
        DetectionError::UnknownPlatform { dmi } => "unknown platform — DMI: board_vendor="@
            + dmi.board_vendor@ + ", product_sku="@ + dmi.product_sku@,
        DetectionError::NoKernelShim { platform } => "kernel shim not loaded for platform "@
            + display_name_spec(platform),
    }
}

/// "true" or "false".
pub open spec fn bool_text(b: bool) -> Seq<char> {
    if b {
        "true"@
    } else {
        "false"@
    }
}

/// The variant name of a guessed platform, or "none".
pub open spec fn guess_text(p: Option<Platform>) -> Seq<char> {
    match p {
        Some(p) => debug_name_spec(p),
        None => "none"@,
    }
}

/// The lines of the startup diagnostics block.
pub open spec fn debug_lines<S: DmiSource>(source: S) -> Seq<Seq<char>> {
    let head = if dmi_readable(source) {
        let vendor = field_of(source, "board_vendor"@);
        let sku = field_of(source, "product_sku"@);
        seq![
            "tux-rs startup diagnostics"@,
            "dmi.board_vendor="@ + vendor,
            "dmi.board_name="@ + field_of(source, "board_name"@),
            "dmi.product_sku="@ + sku,
            "dmi.sys_vendor="@ + field_of(source, "sys_vendor"@),
            "dmi.product_name="@ + field_of(source, "product_name"@),
            "dmi.product_version="@ + field_of(source, "product_version"@),
            "detect.platform_guess="@ + guess_text(platform_guess(source, vendor, sku)),
            "detect.platform_hint_from_tcc_sku="@ + guess_text(tcc_hint_spec(sku)),
        ]
    } else {
        seq![
            "tux-rs startup diagnostics"@,
            "dmi.read_error="@ + ("cannot access DMI data: "@ + first_read_error(source)),
            "detect.platform_guess=unknown"@,
            "detect.platform_hint_from_tcc_sku=unknown"@,
        ]
    };
    head + seq![
        "probe.wmi.nb04_guid="@ + bool_text(source.has_wmi_guid(NB04_WMI_GUID@)),
        "probe.wmi.uniwill_guid_2="@ + bool_text(source.has_wmi_guid(UNIWILL_WMI_EVENT_GUID_2@)),
        "probe.wmi.clevo_guid="@ + bool_text(source.has_wmi_guid(CLEVO_WMI_EVENT_GUID@)),
        "probe.sysfs.nb04_shim="@ + bool_text(source.has_sysfs_path(NB04_SHIM_SYSFS_PATH@)),
        "probe.sysfs.tuxi_fan_control="@ + bool_text(
            source.has_sysfs_path(TUXI_FAN_CONTROL_SYSFS_PATH@),
        ),
    ]
}

// ── Implementation ───────────────────────────────────────────────────────

impl DetectionError {
    /// The human-readable message of the error.
    pub fn message(&self) -> (r: String)
        ensures
            r@ == error_message_spec(*self),
    {
        match self {
            DetectionError::NoDmiAccess(x) => concat("cannot access DMI data: ", x.message.as_str()),
            DetectionError::UnknownPlatform { dmi } => {
                let a = concat("unknown platform — DMI: board_vendor=", dmi.board_vendor.as_str());
                let b = concat(a.as_str(), ", product_sku=");
                concat(b.as_str(), dmi.product_sku.as_str())
            },
            DetectionError::NoKernelShim { platform } => concat(
                "kernel shim not loaded for platform ",
                platform.display_name(),
            ),
        }
    }
}

/// Curated platform hints for recent models not yet in the table.
fn platform_hint_from_tcc_sku_map(sku: &str) -> (r: Option<Platform>)
    ensures
        r == tcc_hint_spec(sku@),
{
    let t = trim(sku);
    if same_text(t.as_str(), "IBP14A09MK1 / IBP15A09MK1") || same_text(
        t.as_str(),
        "IBP14A10MK1 / IBP15A10MK1",
    ) || same_text(t.as_str(), "IIBP14A10MK1 / IBP15A10MK1") {
        Some(Platform::Uniwill)
    } else {
        None
    }
}

/// Read one DMI field, turning a failure into a detection error.
fn read_field<S: DmiSource>(source: &S, field: &str) -> (r: Result<String, DetectionError>)
    ensures
        r matches Ok(v) ==> source.field_value(field@) == Some(v@),
        r matches Err(e) ==> source.field_value(field@) is None && (e matches DetectionError::NoDmiAccess(x)
            && x.message@ == source.read_error(field@) && x.kind == source.read_error_kind(field@)),
{
    match source.read_dmi_field(field) {
        Ok(v) => Ok(v),
        Err(e) => Err(DetectionError::NoDmiAccess(e)),
    }
}

/// Read DMI info from the given source.
pub fn read_dmi_info<S: DmiSource>(source: &S) -> (r: Result<DmiInfo, DetectionError>)
    ensures
        r is Ok <==> dmi_readable(*source),
        r matches Ok(d) ==> dmi_is(*source, d),
        r matches Err(e) ==> (e matches DetectionError::NoDmiAccess(x) && x.message@
            == first_read_error(*source) && x.kind == first_read_error_kind(*source)),
{
    let board_vendor = match read_field(source, "board_vendor") {
        Ok(v) => v,
        Err(e) => return Err(e),
    };
    let board_name = match read_field(source, "board_name") {
        Ok(v) => v,
        Err(e) => return Err(e),
    };
    let product_sku = match read_field(source, "product_sku") {
        Ok(v) => v,
        Err(e) => return Err(e),
    };
    let sys_vendor = match read_field(source, "sys_vendor") {
        Ok(v) => v,
        Err(e) => return Err(e),
    };
    let product_name = match read_field(source, "product_name") {
        Ok(v) => v,
        Err(e) => return Err(e),
    };
    let product_version = match read_field(source, "product_version") {
        Ok(v) => v,
        Err(e) => return Err(e),
    };
    Ok(DmiInfo { board_vendor, board_name, product_sku, sys_vendor, product_name, product_version })
}

/// Detect the platform from DMI info and sysfs probing.
fn detect_platform<S: DmiSource>(source: &S, dmi: &DmiInfo) -> (r: Option<Platform>)
    ensures
        r == platform_guess(*source, dmi.board_vendor@, dmi.product_sku@),
{
    if eq_ignore_ascii_case(dmi.board_vendor.as_str(), "NB05") {
        return Some(Platform::Nb05);
    }
    if source.wmi_guid_exists(NB04_WMI_GUID) {
        return Some(Platform::Nb04);
    }
    if source.wmi_guid_exists(UNIWILL_WMI_EVENT_GUID_2) {
        return Some(Platform::Uniwill);
    }
    if source.wmi_guid_exists(CLEVO_WMI_EVENT_GUID) {
        return Some(Platform::Clevo);
    }
    if source.sysfs_path_exists(TUXI_FAN_CONTROL_SYSFS_PATH) {
        return Some(Platform::Tuxi);
    }
    if let Some(platform) = platform_hint_from_tcc_sku_map(dmi.product_sku.as_str()) {
        return Some(platform);
    }
    if eq_ignore_ascii_case(dmi.board_vendor.as_str(), "NB02") {
        return Some(Platform::Uniwill);
    }
    None
}

/// Try exact SKU lookup, then tokenized lookup for combined SKU strings.
///
/// Some hardware reports composite values like "SKU_A / SKU_B" in DMI.
/// The exact match comes first, then the slash-delimited tokens.
fn lookup_descriptor_for_sku<'a>(registry: &'a DeviceRegistry, sku: &str) -> (r: Option<
    &'a DeviceDescriptor,
>)
    ensures
        sku_match(search_order(*registry), sku@) == -1 ==> r is None,
        sku_match(search_order(*registry), sku@) != -1 ==> (r matches Some(d) && *d
            == search_order(*registry)[sku_match(search_order(*registry), sku@)]),
{
    let ghost all = search_order(*registry);
    if let Some(descriptor) = lookup_by_sku(registry, sku) {
        return Some(descriptor);
    }
    if !crate::text::contains_char(sku, '/') {
        return None;
    }
    let pieces = split(sku, '/');
    let ghost ps = split_spec(sku@, '/');
    assert(pieces@.map_values(|p: String| p@) == ps);
    let n = pieces.len();
    let mut i: usize = 0;
    while i < n
        invariant
            n == pieces@.len(),
            pieces@.map_values(|p: String| p@) == ps,
            ps == split_spec(sku@, '/'),
            all == search_order(*registry),
            first_with_sku(all, sku@, 0) == -1,
            sku@.contains('/'),
            i <= n,
            token_match(all, ps, 0) == token_match(all, ps, i as int),
        decreases n - i,
    {
        assert(pieces@[i as int]@ == ps[i as int]);
        let token = trim(pieces[i].as_str());
        if token.as_str().unicode_len() > 0 {
            if let Some(descriptor) = lookup_by_sku(registry, token.as_str()) {
                return Some(descriptor);
            }
        }
        i = i + 1;
    }
    None
}

/// Detect the running TUXEDO laptop model.
///
/// # Detection flow
///
/// 1. Read DMI strings from sysfs
/// 2. Try exact SKU match in the registry
/// 3. If no match, detect platform heuristically (board_vendor, WMI, sysfs)
/// 4. Return platform fallback if platform detected but SKU unknown
/// 5. Return error if no platform can be identified
pub fn detect_device<S: DmiSource>(registry: &DeviceRegistry, source: &S) -> (r: Result<
    DetectedDevice,
    DetectionError,
>)
    ensures
        detection_outcome(*registry, *source, r),
{
    let dmi = match read_dmi_info(source) {
        Ok(d) => d,
        Err(e) => return Err(e),
    };
    if let Some(descriptor) = lookup_descriptor_for_sku(registry, dmi.product_sku.as_str()) {
        return Ok(DetectedDevice { descriptor: descriptor.duplicate(), dmi, exact_match: true });
    }
    let platform = match detect_platform(source, &dmi) {
        Some(p) => p,
        None => return Err(DetectionError::UnknownPlatform { dmi: Box::new(dmi) }),
    };
    // NB04 is detected by its WMI GUID; its kernel module must also be loaded.
    if platform == Platform::Nb04 && !source.sysfs_path_exists(NB04_SHIM_SYSFS_PATH) {
        return Err(DetectionError::NoKernelShim { platform });
    }
    let descriptor = fallback_for_platform(platform);
    Ok(DetectedDevice { descriptor, dmi, exact_match: false })
}

/// "true" or "false".
fn bool_str(b: bool) -> (r: &'static str)
    ensures
        r@ == bool_text(b),
{
    if b {
        "true"
    } else {
        "false"
    }
}

/// The variant name of a guessed platform, or "none".
fn guess_str(p: Option<Platform>) -> (r: &'static str)
    ensures
        r@ == guess_text(p),
{
    match p {
        Some(p) => p.debug_name(),
        None => "none",
    }
}

/// Build a copy-paste diagnostics block for startup detection failures.
pub fn startup_detection_debug_block<S: DmiSource>(source: &S) -> (r: String)
    ensures
        r@ == join_lines_spec(debug_lines(*source)),
{
    let mut lines: Vec<String> = Vec::new();
    lines.push("tux-rs startup diagnostics".to_owned());
    match read_dmi_info(source) {
        Ok(dmi) => {
            lines.push(concat("dmi.board_vendor=", dmi.board_vendor.as_str()));
            lines.push(concat("dmi.board_name=", dmi.board_name.as_str()));
            lines.push(concat("dmi.product_sku=", dmi.product_sku.as_str()));
            lines.push(concat("dmi.sys_vendor=", dmi.sys_vendor.as_str()));
            lines.push(concat("dmi.product_name=", dmi.product_name.as_str()));
            lines.push(concat("dmi.product_version=", dmi.product_version.as_str()));
            let guess = detect_platform(source, &dmi);
            lines.push(concat("detect.platform_guess=", guess_str(guess)));
            let hint = platform_hint_from_tcc_sku_map(dmi.product_sku.as_str());
            lines.push(concat("detect.platform_hint_from_tcc_sku=", guess_str(hint)));
        },
        Err(e) => {
            let m = e.message();
            lines.push(concat("dmi.read_error=", m.as_str()));
            lines.push("detect.platform_guess=unknown".to_owned());
            lines.push("detect.platform_hint_from_tcc_sku=unknown".to_owned());
        },
    }
    lines.push(concat("probe.wmi.nb04_guid=", bool_str(source.wmi_guid_exists(NB04_WMI_GUID))));
    lines.push(
        concat(
            "probe.wmi.uniwill_guid_2=",
            bool_str(source.wmi_guid_exists(UNIWILL_WMI_EVENT_GUID_2)),
        ),
    );
    lines.push(
        concat("probe.wmi.clevo_guid=", bool_str(source.wmi_guid_exists(CLEVO_WMI_EVENT_GUID))),
    );
    lines.push(
        concat(
            "probe.sysfs.nb04_shim=",
            bool_str(source.sysfs_path_exists(NB04_SHIM_SYSFS_PATH)),
        ),
    );
    lines.push(
        concat(
            "probe.sysfs.tuxi_fan_control=",
            bool_str(source.sysfs_path_exists(TUXI_FAN_CONTROL_SYSFS_PATH)),
        ),
    );
    assert(lines@.map_values(|s: String| s@) =~= debug_lines(*source));
    join_lines(&lines)
}

/// `first_with_sku` is -1 or an index of `entries` from `from` on.
proof fn lemma_first_with_sku_range(entries: Seq<DeviceDescriptor>, sku: Seq<char>, from: int)
    requires
        0 <= from,
    ensures
        first_with_sku(entries, sku, from) == -1 || from <= first_with_sku(entries, sku, from) < entries.len(),
    decreases entries.len() - from,
{
    if from < entries.len() && entries[from].product_sku@ != sku {
        lemma_first_with_sku_range(entries, sku, from + 1);
    }
}

/// Scanning the tokens from `i` reaches a listed token `k`: the scan finds
/// a description whose SKU is one of the tokens from `i` to `k`.
proof fn lemma_token_scan_reaches(entries: Seq<DeviceDescriptor>, pieces: Seq<Seq<char>>, i: int, k: int, w: int)
    requires
        0 <= i <= k < pieces.len(),
        trim_spec(pieces[k]).len() > 0,
        0 <= w < entries.len(),
        entries[w].product_sku@ == trim_spec(pieces[k]),
    ensures
        0 <= token_match(entries, pieces, i) < entries.len(),
        exists|m: int|
            i <= m <= k && entries[token_match(entries, pieces, i)].product_sku@ == #[trigger] trim_spec(pieces[m]),
    decreases k - i,
{
    let tok = trim_spec(pieces[i]);
    if tok.len() > 0 && first_with_sku(entries, tok, 0) != -1 {
        lemma_first_with_sku_range(entries, tok, 0);
        crate::device_table::law_lookup_matches_sku(entries, tok, 0);
        assert(entries[token_match(entries, pieces, i)].product_sku@ == trim_spec(pieces[i]));
    } else {
        if i == k {
            crate::device_table::law_lookup_matches_sku(entries, tok, 0);
            assert(entries[w].product_sku@ == tok);
            assert(false);
        }
        lemma_token_scan_reaches(entries, pieces, i + 1, k, w);
        let m = choose|m: int|
            i + 1 <= m <= k && entries[token_match(entries, pieces, i + 1)].product_sku@ == #[trigger] trim_spec(
                pieces[m],
            );
        assert(entries[token_match(entries, pieces, i)].product_sku@ == trim_spec(pieces[m]));
    }
}

/// Law: a combined SKU ("A / B") whose trimmed, non-empty slash-separated
/// token `k` is listed is found: the lookup gives a description whose SKU
/// is the whole SKU or one of the trimmed tokens up to `k` (the first of
/// them that is listed).
pub proof fn law_combined_sku_finds_listed_token(entries: Seq<DeviceDescriptor>, sku: Seq<char>, k: int, w: int)
    requires
        sku.contains('/'),
        0 <= k < split_spec(sku, '/').len(),
        trim_spec(split_spec(sku, '/')[k]).len() > 0,
        0 <= w < entries.len(),
        entries[w].product_sku@ == trim_spec(split_spec(sku, '/')[k]),
    ensures
        0 <= sku_match(entries, sku) < entries.len(),
        entries[sku_match(entries, sku)].product_sku@ == sku || exists|m: int|
            0 <= m <= k && entries[sku_match(entries, sku)].product_sku@ == #[trigger] trim_spec(
                split_spec(sku, '/')[m],
            ),
{
    if first_with_sku(entries, sku, 0) != -1 {
        lemma_first_with_sku_range(entries, sku, 0);
        crate::device_table::law_lookup_matches_sku(entries, sku, 0);
    } else {
        lemma_token_scan_reaches(entries, split_spec(sku, '/'), 0, k, w);
    }
}

} // verus!
