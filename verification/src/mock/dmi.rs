//! Mock DMI source for testing platform detection.
use crate::dmi::{last_value, listed, DmiSource};
use crate::error::{IoError, IoErrorKind};
use crate::text::concat;
use vstd::prelude::*;

verus! {

/// Configurable mock DMI source for testing.
///
/// Use the builder methods to configure which DMI fields, WMI GUIDs,
/// and sysfs paths are present.
pub struct MockDmiSource {
    /// Field names and values; a later entry for a name replaces an earlier one.
    pub fields: Vec<(String, String)>,
    pub wmi_guids: Vec<String>,
    pub sysfs_paths: Vec<String>,
}

impl MockDmiSource {
    /// A source with no fields, GUIDs or paths.
    pub fn new() -> (r: Self)
        ensures
            r.fields@.len() == 0,
            r.wmi_guids@.len() == 0,
            r.sysfs_paths@.len() == 0,
    {
        MockDmiSource { fields: Vec::new(), wmi_guids: Vec::new(), sysfs_paths: Vec::new() }
    }

    /// The source with field `field` set to `value`.
    pub fn with_field(self, field: &str, value: &str) -> (r: Self)
        ensures
            forall|k: Seq<char>| #[trigger]
                r.field_value(k) == (if k == field@ {
                    Some(value@)
                } else {
                    self.field_value(k)
                }),
            r.wmi_guids@ == self.wmi_guids@,
            r.sysfs_paths@ == self.sysfs_paths@,
    {
        let mut s = self;
        let ghost before = s.fields@;
        s.fields.push((field.to_owned(), value.to_owned()));
        assert(s.fields@.drop_last() =~= before);
        s
    }

    /// The source with WMI GUID `guid` present.
    pub fn with_wmi_guid(self, guid: &str) -> (r: Self)
        ensures
            forall|g: Seq<char>| #[trigger]
                r.has_wmi_guid(g) == (self.has_wmi_guid(g) || g == guid@),
            r.fields@ == self.fields@,
            r.sysfs_paths@ == self.sysfs_paths@,
    {
        let mut s = self;
        let ghost before = s.wmi_guids@;
        s.wmi_guids.push(guid.to_owned());
        proof {
            assert forall|g: Seq<char>| #[trigger]
                s.has_wmi_guid(g) == (listed(before, g) || g == guid@) by {
                if listed(before, g) {
                    let i = choose|i: int| 0 <= i < before.len() && #[trigger] before[i]@ == g;
                    assert(s.wmi_guids@[i]@ == g);
                }
                if g == guid@ {
                    assert(s.wmi_guids@[before.len() as int]@ == g);
                }
                if listed(s.wmi_guids@, g) {
                    let i = choose|i: int|
                        0 <= i < s.wmi_guids@.len() && #[trigger] s.wmi_guids@[i]@ == g;
                    if i < before.len() {
                        assert(before[i]@ == g);
                    }
                }
            }
        }
        s
    }

    /// The source with sysfs path `path` present.
    pub fn with_sysfs_path(self, path: &str) -> (r: Self)
        ensures
            forall|p: Seq<char>| #[trigger]
                r.has_sysfs_path(p) == (self.has_sysfs_path(p) || p == path@),
            r.fields@ == self.fields@,
            r.wmi_guids@ == self.wmi_guids@,
    {
        let mut s = self;
        let ghost before = s.sysfs_paths@;
        s.sysfs_paths.push(path.to_owned());
        proof {
            assert forall|p: Seq<char>| #[trigger]
                s.has_sysfs_path(p) == (listed(before, p) || p == path@) by {
                if listed(before, p) {
                    let i = choose|i: int| 0 <= i < before.len() && #[trigger] before[i]@ == p;
                    assert(s.sysfs_paths@[i]@ == p);
                }
                if p == path@ {
                    assert(s.sysfs_paths@[before.len() as int]@ == p);
                }
                if listed(s.sysfs_paths@, p) {
                    let i = choose|i: int|
                        0 <= i < s.sysfs_paths@.len() && #[trigger] s.sysfs_paths@[i]@ == p;
                    if i < before.len() {
                        assert(before[i]@ == p);
                    }
                }
            }
        }
        s
    }

    /// Set standard TUXEDO DMI fields with the given SKU.
    pub fn tuxedo_base(self, sku: &str) -> (r: Self)
        ensures
            r.field_value("board_vendor"@) == Some("TUXEDO"@),
            r.field_value("board_name"@) == Some("TUXEDO"@),
            r.field_value("product_sku"@) == Some(sku@),
            r.field_value("sys_vendor"@) == Some("TUXEDO"@),
            r.field_value("product_name"@) == Some("TUXEDO Laptop"@),
            r.field_value("product_version"@) == Some("N/A"@),
            forall|k: Seq<char>|
                k != "board_vendor"@ && k != "board_name"@ && k != "product_sku"@ && k
                    != "sys_vendor"@ && k != "product_name"@ && k != "product_version"@
                    ==> #[trigger] r.field_value(k) == self.field_value(k),
            r.wmi_guids@ == self.wmi_guids@,
            r.sysfs_paths@ == self.sysfs_paths@,
    {
        let s1 = self.with_field("board_vendor", "TUXEDO");
        let s2 = s1.with_field("board_name", "TUXEDO");
        let s3 = s2.with_field("product_sku", sku);
        let s4 = s3.with_field("sys_vendor", "TUXEDO");
        let s5 = s4.with_field("product_name", "TUXEDO Laptop");
        let s6 = s5.with_field("product_version", "N/A");
        proof {
            reveal_strlit("board_vendor");
            reveal_strlit("board_name");
            reveal_strlit("product_sku");
            reveal_strlit("sys_vendor");
            reveal_strlit("product_name");
            reveal_strlit("product_version");
            assert("board_name"@[0] != "sys_vendor"@[0]);
            assert("board_vendor"@[0] != "product_name"@[0]);
            assert("product_sku"@.len() != "product_version"@.len());
            assert("product_sku"@.len() != "product_name"@.len());
            assert("product_sku"@.len() != "sys_vendor"@.len());
            assert("product_name"@.len() != "product_version"@.len());
            assert(s6.field_value("board_vendor"@) == s1.field_value("board_vendor"@));
            assert(s6.field_value("board_name"@) == s2.field_value("board_name"@));
            assert(s6.field_value("product_sku"@) == s3.field_value("product_sku"@));
            assert(s6.field_value("sys_vendor"@) == s4.field_value("sys_vendor"@));
            assert(s6.field_value("product_name"@) == s5.field_value("product_name"@));
        }
        s6
    }
}

impl Default for MockDmiSource {
    fn default() -> (r: Self)
        ensures
            r.fields@.len() == 0,
            r.wmi_guids@.len() == 0,
            r.sysfs_paths@.len() == 0,
    {
        Self::new()
    }
}

impl DmiSource for MockDmiSource {
    open spec fn field_value(&self, field: Seq<char>) -> Option<Seq<char>> {
        last_value(self.fields@, field)
    }

    open spec fn read_error(&self, field: Seq<char>) -> Seq<char> {
        "no DMI field: "@ + field
    }

    open spec fn read_error_kind(&self, field: Seq<char>) -> IoErrorKind {
        IoErrorKind::NotFound
    }

    open spec fn has_wmi_guid(&self, guid: Seq<char>) -> bool {
        listed(self.wmi_guids@, guid)
    }

    open spec fn has_sysfs_path(&self, path: Seq<char>) -> bool {
        listed(self.sysfs_paths@, path)
    }

    fn read_dmi_field(&self, field: &str) -> (r: Result<String, IoError>) {
        let key = field.to_owned();
        let mut i = self.fields.len();
        assert(self.fields@.subrange(0, i as int) =~= self.fields@);
        while i > 0
            invariant
                i <= self.fields@.len(),
                key@ == field@,
                last_value(self.fields@, field@) == last_value(
                    self.fields@.subrange(0, i as int),
                    field@,
                ),
            decreases i,
        {
            let ghost prefix = self.fields@.subrange(0, i as int);
            assert(prefix.last() == self.fields@[i - 1]);
            assert(prefix.drop_last() =~= self.fields@.subrange(0, i - 1));
            if self.fields[i - 1].0 == key {
                return Ok(self.fields[i - 1].1.clone());
            }
            i = i - 1;
        }
        Err(IoError { kind: IoErrorKind::NotFound, message: concat("no DMI field: ", field) })
    }

    fn wmi_guid_exists(&self, guid: &str) -> (r: bool) {
        let key = guid.to_owned();
        let n = self.wmi_guids.len();
        let mut i: usize = 0;
        while i < n
            invariant
                n == self.wmi_guids@.len(),
                key@ == guid@,
                i <= n,
                forall|j: int| 0 <= j < i ==> #[trigger] self.wmi_guids@[j]@ != guid@,
            decreases n - i,
        {
            if self.wmi_guids[i] == key {
                return true;
            }
            i = i + 1;
        }
        false
    }

    fn sysfs_path_exists(&self, path: &str) -> (r: bool) {
        let key = path.to_owned();
        let n = self.sysfs_paths.len();
        let mut i: usize = 0;
        while i < n
            invariant
                n == self.sysfs_paths@.len(),
                key@ == path@,
                i <= n,
                forall|j: int| 0 <= j < i ==> #[trigger] self.sysfs_paths@[j]@ != path@,
            decreases n - i,
        {
            if self.sysfs_paths[i] == key {
                return true;
            }
            i = i + 1;
        }
        false
    }
}

} // verus!
