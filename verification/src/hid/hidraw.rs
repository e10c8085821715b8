//! The operations on a hidraw device that keyboard drivers use, and an
//! in-memory device that records them.
use crate::error::IoError;
use vstd::prelude::*;

verus! {

/// Raw HID device info returned by `HIDIOCGRAWINFO`.
#[derive(Debug, Clone, Copy, PartialEq, Eq, Structural)]
pub struct HidrawInfo {
    pub bus_type: u32,
    pub vendor_id: u16,
    pub product_id: u16,
}

/// Operations on a hidraw device (enables mock testing).
///
/// `sent` is the history of the reports sent to the device: for each,
/// whether it is a feature report, its bytes, and whether sending it
/// succeeded. The contracts over it bind a type only where
/// `obeys_hid_model` holds: the in-memory device of this crate says so; a
/// type that keeps the default (the daemon's hidraw device) promises
/// nothing by them.
pub trait HidrawOps {
    /// Whether this type keeps the contracts stated over `sent`;
    /// a type that does not say so promises nothing by them.
    closed spec fn obeys_hid_model() -> bool {
        false
    }

    /// The reports sent so far, in order, each with whether it was sent.
    closed spec fn sent(&self) -> Seq<((bool, Seq<u8>), bool)> {
        arbitrary()
    }

    /// Send a SET_FEATURE report.
    fn set_feature(&mut self, data: &[u8]) -> (r: Result<(), IoError>)
        ensures
            Self::obeys_hid_model() ==> (final(self).sent() == old(self).sent().push(((true, data@), r is Ok))),
    ;

    /// Send a GET_FEATURE report, filling `buf`; returns the length read.
    fn get_feature(&mut self, buf: &mut Vec<u8>) -> (r: Result<usize, IoError>)
        ensures
            Self::obeys_hid_model() ==> (final(self).sent() == old(self).sent()),
    ;

    /// Write an output report (interrupt endpoint data).
    fn write_output(&mut self, data: &[u8]) -> (r: Result<(), IoError>)
        ensures
            Self::obeys_hid_model() ==> (final(self).sent() == old(self).sent().push(((false, data@), r is Ok))),
    ;

    /// The device's USB product ID.
    fn product_id(&self) -> u16;
}

/// Mock HID device that records the reports sent to it.
pub struct MockHidraw {
    pub pid: u16,
    pub reports: Vec<Vec<u8>>,
    pub output_reports: Vec<Vec<u8>>,
    /// Every report sent, in order, with its kind and outcome.
    pub log: Ghost<Seq<((bool, Seq<u8>), bool)>>,
}

/// The views of a list of byte reports.
pub open spec fn report_views(v: Seq<Vec<u8>>) -> Seq<Seq<u8>> {
    v.map_values(|r: Vec<u8>| r@)
}

/// A copy of a byte slice.
pub fn bytes_of(data: &[u8]) -> (r: Vec<u8>)
    ensures
        r@ == data@,
{
    let mut out: Vec<u8> = Vec::new();
    let n = data.len();
    let mut i: usize = 0;
    while i < n
        invariant
            n == data@.len(),
            i <= n,
            out@ == data@.subrange(0, i as int),
        decreases n - i,
    {
        out.push(data[i]);
        i = i + 1;
        assert(out@ =~= data@.subrange(0, i as int));
    }
    assert(out@ =~= data@);
    out
}

/// A copy of a list of byte reports.
pub fn copy_reports(v: &Vec<Vec<u8>>) -> (r: Vec<Vec<u8>>)
    ensures
        report_views(r@) == report_views(v@),
{
    let mut out: Vec<Vec<u8>> = Vec::new();
    let n = v.len();
    let mut i: usize = 0;
    while i < n
        invariant
            n == v@.len(),
            i <= n,
            report_views(out@) == report_views(v@.subrange(0, i as int)),
        decreases n - i,
    {
        let copy = bytes_of(v[i].as_slice());
        let ghost before = out@;
        out.push(copy);
        proof {
            assert(report_views(out@) =~= report_views(before).push(v@[i as int]@));
            assert(report_views(v@.subrange(0, i + 1)) =~= report_views(v@.subrange(0, i as int)).push(
                v@[i as int]@,
            ));
        }
        i = i + 1;
    }
    assert(v@.subrange(0, n as int) =~= v@);
    out
}

impl MockHidraw {
    /// A device with this product ID that has received no reports.
    pub fn new(pid: u16) -> (r: Self)
        ensures
            r.pid == pid,
            r.reports@.len() == 0,
            r.output_reports@.len() == 0,
    {
        MockHidraw { pid, reports: Vec::new(), output_reports: Vec::new(), log: Ghost(Seq::empty()) }
    }

    /// The feature reports sent so far, in order.
    pub fn sent_reports(&self) -> (r: Vec<Vec<u8>>)
        ensures
            report_views(r@) == report_views(self.reports@),
    {
        copy_reports(&self.reports)
    }

    /// The output reports sent so far, in order.
    pub fn sent_output_reports(&self) -> (r: Vec<Vec<u8>>)
        ensures
            report_views(r@) == report_views(self.output_reports@),
    {
        copy_reports(&self.output_reports)
    }
}

impl HidrawOps for MockHidraw {
    open spec fn obeys_hid_model() -> bool {
        true
    }

    open spec fn sent(&self) -> Seq<((bool, Seq<u8>), bool)> {
        self.log@
    }

    fn set_feature(&mut self, data: &[u8]) -> (r: Result<(), IoError>)
        ensures
            r is Ok,
            report_views(final(self).reports@) == report_views(old(self).reports@).push(data@),
            final(self).output_reports@ == old(self).output_reports@,
            final(self).pid == old(self).pid,
    {
        let ghost before = self.reports@;
        self.reports.push(bytes_of(data));
        assert(report_views(self.reports@) =~= report_views(before).push(data@));
        self.log = Ghost(self.log@.push(((true, data@), true)));
        Ok(())
    }

    fn get_feature(&mut self, buf: &mut Vec<u8>) -> (r: Result<usize, IoError>)
        ensures
            r == Ok::<usize, IoError>(old(buf)@.len() as usize),
            final(buf)@ == Seq::new(old(buf)@.len(), |i: int| 0u8),
            report_views(final(self).reports@) == report_views(old(self).reports@),
            report_views(final(self).output_reports@) == report_views(old(self).output_reports@),
    {
        let n = buf.len();
        let mut i: usize = 0;
        while i < n
            invariant
                n == buf@.len(),
                i <= n,
                forall|k: int| 0 <= k < i ==> buf@[k] == 0u8,
            decreases n - i,
        {
            buf.set(i, 0);
            i = i + 1;
        }
        assert(buf@ =~= Seq::new(n as nat, |i: int| 0u8));
        Ok(n)
    }

    fn write_output(&mut self, data: &[u8]) -> (r: Result<(), IoError>)
        ensures
            r is Ok,
            report_views(final(self).output_reports@) == report_views(old(self).output_reports@).push(
                data@,
            ),
            final(self).reports@ == old(self).reports@,
            final(self).pid == old(self).pid,
    {
        let ghost before = self.output_reports@;
        self.output_reports.push(bytes_of(data));
        assert(report_views(self.output_reports@) =~= report_views(before).push(data@));
        self.log = Ghost(self.log@.push(((false, data@), true)));
        Ok(())
    }

    fn product_id(&self) -> (r: u16)
        ensures
            r == self.pid,
    {
        self.pid
    }
}

} // verus!
