//! CPU load sampling: parses `/proc/stat` lines and computes per-core and
//! overall busy/total deltas between two samples.
use crate::error::{IoError, IoErrorKind};
use crate::text::{parse_unsigned, parse_unsigned_spec, starts_with, starts_with_spec, words, words_spec};
use vstd::prelude::*;
use vstd::string::StrSliceExecFns;

verus! {

/// Raw CPU time counters from a single `/proc/stat` line.
#[derive(Debug, Clone, Copy, PartialEq, Eq, Structural)]
pub struct CpuJiffies {
    pub user: u64,
    pub nice: u64,
    pub system: u64,
    pub idle: u64,
    pub iowait: u64,
    pub irq: u64,
    pub softirq: u64,
    pub steal: u64,
}

/// Busy and total jiffies that passed between two samples.
#[derive(Debug, Clone, Copy, PartialEq, Eq, Structural)]
pub struct LoadDelta {
    pub busy: u64,
    pub total: u64,
}

/// The values of the words that parse as `u64`, in order.
pub open spec fn parsed_values(ws: Seq<Seq<char>>) -> Seq<u64>
    decreases ws.len(),
{
    if ws.len() == 0 {
        seq![]
    } else {
        let init = parsed_values(ws.drop_last());
        match parse_unsigned_spec(ws.last(), u64::MAX as int) {
            Some(v) => init.push(v as u64),
            None => init,
        }
    }
}

/// The `i`-th value, or 0 when there are fewer values.
pub open spec fn value_or_zero(vals: Seq<u64>, i: int) -> u64 {
    if i < vals.len() {
        vals[i]
    } else {
        0
    }
}

/// The counters that a `/proc/stat` CPU line holds: the line's first word
/// starts with "cpu" and at least four of the other words are numbers; the
/// numbers fill the counters in order, missing ones being 0.
pub open spec fn jiffies_parse_spec(line: Seq<char>) -> Option<CpuJiffies> {
    let ws = words_spec(line);
    if ws.len() == 0 || !starts_with_spec(ws[0], "cpu"@) {
        None
    } else {
        let vals = parsed_values(ws.drop_first());
        if vals.len() < 4 {
            None
        } else {
            Some(
                CpuJiffies {
                    user: vals[0],
                    nice: vals[1],
                    system: vals[2],
                    idle: vals[3],
                    iowait: value_or_zero(vals, 4),
                    irq: value_or_zero(vals, 5),
                    softirq: value_or_zero(vals, 6),
                    steal: value_or_zero(vals, 7),
                },
            )
        }
    }
}

/// The sum of all counters.
pub open spec fn total_spec(j: CpuJiffies) -> int {
    j.user + j.nice + j.system + j.idle + j.iowait + j.irq + j.softirq + j.steal
}

/// The idle counters (idle and iowait) summed.
pub open spec fn idle_total_spec(j: CpuJiffies) -> int {
    j.idle + j.iowait
}

/// The counters' sum fits in 64 bits.
pub open spec fn total_fits(j: CpuJiffies) -> bool {
    total_spec(j) <= u64::MAX
}

/// `a - b`, or 0 when `b` exceeds `a`.
pub open spec fn sat_sub(a: int, b: int) -> int {
    if a >= b {
        a - b
    } else {
        0
    }
}

/// The busy and total jiffies between `prev` and `cur`, each difference
/// saturating at 0.
pub open spec fn delta_spec(cur: CpuJiffies, prev: CpuJiffies) -> LoadDelta {
    let total = sat_sub(total_spec(cur), total_spec(prev));
    let idle = sat_sub(idle_total_spec(cur), idle_total_spec(prev));
    LoadDelta { busy: sat_sub(total, idle) as u64, total: total as u64 }
}

impl Default for CpuJiffies {
    fn default() -> (r: Self)
        ensures
            total_spec(r) == 0,
            r == (CpuJiffies {
                user: 0,
                nice: 0,
                system: 0,
                idle: 0,
                iowait: 0,
                irq: 0,
                softirq: 0,
                steal: 0,
            }),
    {
        CpuJiffies { user: 0, nice: 0, system: 0, idle: 0, iowait: 0, irq: 0, softirq: 0, steal: 0 }
    }
}

impl CpuJiffies {
    /// Parse a `/proc/stat` CPU line (e.g. `cpu  1234 56 789 ...` or `cpu0 ...`).
    pub fn parse(line: &str) -> (r: Option<Self>)
        ensures
            r == jiffies_parse_spec(line@),
    {
        let ws = words(line);
        let ghost wv = ws@.map_values(|p: String| p@);
        assert(wv == words_spec(line@));
        if ws.len() == 0 {
            return None;
        }
        assert(ws@[0]@ == wv[0]);
        if !starts_with(ws[0].as_str(), "cpu") {
            return None;
        }
        let ghost rest = wv.drop_first();
        let mut vals: Vec<u64> = Vec::new();
        let n = ws.len();
        let mut i: usize = 1;
        while i < n
            invariant
                n == ws@.len(),
                wv == ws@.map_values(|p: String| p@),
                rest == wv.drop_first(),
                1 <= i <= n,
                vals@ == parsed_values(rest.subrange(0, i - 1)),
            decreases n - i,
        {
            let ghost prefix = rest.subrange(0, i as int);
            assert(prefix.drop_last() =~= rest.subrange(0, i - 1));
            assert(prefix.last() == ws@[i as int]@);
            if let Some(v) = parse_unsigned(ws[i].as_str(), u64::MAX) {
                vals.push(v);
            }
            i = i + 1;
        }
        assert(rest.subrange(0, n - 1) =~= rest);
        if vals.len() < 4 {
            return None;
        }
        Some(
            CpuJiffies {
                user: vals[0],
                nice: vals[1],
                system: vals[2],
                idle: vals[3],
                iowait: if vals.len() > 4 {
                    vals[4]
                } else {
                    0
                },
                irq: if vals.len() > 5 {
                    vals[5]
                } else {
                    0
                },
                softirq: if vals.len() > 6 {
                    vals[6]
                } else {
                    0
                },
                steal: if vals.len() > 7 {
                    vals[7]
                } else {
                    0
                },
            },
        )
    }

    /// Whether the counters' sum fits in 64 bits.
    pub fn total_fits(&self) -> (r: bool)
        ensures
            r == total_fits(*self),
    {
        let sum: u128 = self.user as u128 + self.nice as u128 + self.system as u128
            + self.idle as u128 + self.iowait as u128 + self.irq as u128 + self.softirq as u128
            + self.steal as u128;
        sum <= u64::MAX as u128
    }

    /// The sum of all counters.
    pub fn total(&self) -> (r: u64)
        requires
            total_fits(*self),
        ensures
            r == total_spec(*self),
    {
        self.user + self.nice + self.system + self.idle + self.iowait + self.irq + self.softirq
            + self.steal
    }

    /// The idle counters (idle and iowait) summed.
    pub fn idle_total(&self) -> (r: u64)
        requires
            total_fits(*self),
        ensures
            r == idle_total_spec(*self),
    {
        self.idle + self.iowait
    }

    /// The busy and total jiffies since `prev`; the utilization is
    /// `busy / total` (0 when `total` is 0).
    pub fn delta_from(&self, prev: &Self) -> (r: LoadDelta)
        requires
            total_fits(*self),
            total_fits(*prev),
        ensures
            r == delta_spec(*self, *prev),
    {
        let total_delta = self.total().saturating_sub(prev.total());
        let idle_delta = self.idle_total().saturating_sub(prev.idle_total());
        let busy_delta = total_delta.saturating_sub(idle_delta);
        LoadDelta { busy: busy_delta, total: total_delta }
    }
}

/// Kind of a `/proc/stat` line.
#[derive(Debug, Clone, Copy, PartialEq, Eq, Structural)]
pub enum StatLine {
    /// The aggregate `cpu ` line.
    Aggregate,
    /// A per-core `cpuN` line.
    Core,
    /// Another `cpu…` line.
    OtherCpu,
    /// A line that does not start with `cpu`.
    Other,
}

/// The kind of a `/proc/stat` line.
pub open spec fn stat_line_spec(line: Seq<char>) -> StatLine {
    if !starts_with_spec(line, "cpu"@) {
        StatLine::Other
    } else if starts_with_spec(line, "cpu "@) {
        StatLine::Aggregate
    } else if line.len() > 3 && '0' <= line[3] <= '9' {
        StatLine::Core
    } else {
        StatLine::OtherCpu
    }
}

/// The kind of a `/proc/stat` line.
pub fn stat_line_kind(line: &str) -> (r: StatLine)
    ensures
        r == stat_line_spec(line@),
{
    if !starts_with(line, "cpu") {
        StatLine::Other
    } else if starts_with(line, "cpu ") {
        StatLine::Aggregate
    } else if line.unicode_len() > 3 && '0' <= line.get_char(3) && line.get_char(3) <= '9' {
        StatLine::Core
    } else {
        StatLine::OtherCpu
    }
}

/// What a scan of `/proc/stat` has found so far: the aggregate counters,
/// the per-core counters and whether the scan has passed the CPU lines.
pub open spec fn stat_step(
    st: (Option<CpuJiffies>, Seq<CpuJiffies>, bool),
    line: Seq<char>,
) -> (Option<CpuJiffies>, Seq<CpuJiffies>, bool) {
    if st.2 {
        st
    } else {
        match stat_line_spec(line) {
            StatLine::Aggregate => (jiffies_parse_spec(line), st.1, false),
            StatLine::Core => match jiffies_parse_spec(line) {
                Some(j) => (st.0, st.1.push(j), false),
                None => st,
            },
            StatLine::OtherCpu => st,
            StatLine::Other => if st.1.len() > 0 {
                (st.0, st.1, true)
            } else {
                st
            },
        }
    }
}

/// The scan of the lines of `/proc/stat`, in order.
pub open spec fn stat_scan(lines: Seq<Seq<char>>) -> (Option<CpuJiffies>, Seq<CpuJiffies>, bool)
    decreases lines.len(),
{
    if lines.len() == 0 {
        (None, seq![], false)
    } else {
        stat_step(stat_scan(lines.drop_last()), lines.last())
    }
}

/// Parse the lines of `/proc/stat`: the aggregate counters and those of
/// each core, in order. Scanning stops at the first non-CPU line after the
/// per-core lines; a file without an aggregate line is malformed.
pub fn parse_stat(lines: &Vec<String>) -> (r: Result<(CpuJiffies, Vec<CpuJiffies>), IoError>)
    ensures
        r matches Ok(v) ==> stat_scan(lines@.map_values(|l: String| l@)).0 == Some(v.0) && v.1@
            == stat_scan(lines@.map_values(|l: String| l@)).1,
        r matches Err(e) ==> stat_scan(lines@.map_values(|l: String| l@)).0 is None && e.kind
            == IoErrorKind::InvalidData,
{
    let ghost ls = lines@.map_values(|l: String| l@);
    let mut overall: Option<CpuJiffies> = None;
    let mut per_core: Vec<CpuJiffies> = Vec::new();
    let n = lines.len();
    let mut i: usize = 0;
    assert(ls.subrange(0, n as int) =~= ls);
    while i < n
        invariant_except_break
            stat_scan(ls.subrange(0, i as int)) == (overall, per_core@, false),
        invariant
            n == lines@.len(),
            ls == lines@.map_values(|l: String| l@),
            ls.subrange(0, n as int) == ls,
            i <= n,
        ensures
            stat_scan(ls) == (overall, per_core@, stat_scan(ls).2),
        decreases n - i,
    {
        let ghost prefix = ls.subrange(0, i + 1);
        assert(prefix.drop_last() =~= ls.subrange(0, i as int));
        assert(prefix.last() == lines@[i as int]@);
        let line = lines[i].as_str();
        match stat_line_kind(line) {
            StatLine::Aggregate => {
                overall = CpuJiffies::parse(line);
            },
            StatLine::Core => {
                if let Some(j) = CpuJiffies::parse(line) {
                    per_core.push(j);
                }
            },
            StatLine::OtherCpu => {},
            StatLine::Other => {
                if per_core.len() > 0 {
                    proof {
                        lemma_stat_scan_done(ls, i as int + 1);
                    }
                    break;
                }
            },
        }
        i = i + 1;
    }
    match overall {
        Some(o) => Ok((o, per_core)),
        None => Err(
            IoError {
                kind: IoErrorKind::InvalidData,
                message: "no aggregate cpu line in /proc/stat".to_owned(),
            },
        ),
    }
}

/// Once a scan has passed the CPU lines, later lines change nothing.
proof fn lemma_stat_scan_done(ls: Seq<Seq<char>>, k: int)
    requires
        0 <= k <= ls.len(),
        stat_scan(ls.subrange(0, k)).2,
    ensures
        stat_scan(ls) == stat_scan(ls.subrange(0, k)),
    decreases ls.len() - k,
{
    if k == ls.len() {
        assert(ls.subrange(0, k) =~= ls);
    } else {
        let p = ls.subrange(0, k + 1);
        assert(p.drop_last() =~= ls.subrange(0, k));
        lemma_stat_scan_done(ls, k + 1);
    }
}

/// Stateful sampler that tracks previous jiffies to compute deltas.
pub struct CpuSampler {
    proc_stat_path: String,
    prev_overall: Option<CpuJiffies>,
    prev_per_core: Vec<CpuJiffies>,
}

/// The delta of each core against the previous sample of the same index,
/// `None` where there was none.
pub open spec fn core_deltas_spec(cur: Seq<CpuJiffies>, prev: Seq<CpuJiffies>) -> Seq<Option<LoadDelta>> {
    Seq::new(
        cur.len(),
        |i: int|
            if i < prev.len() {
                Some(delta_spec(cur[i], prev[i]))
            } else {
                None
            },
    )
}

/// All counters of the list fit in 64 bits.
pub open spec fn all_fit(js: Seq<CpuJiffies>) -> bool {
    forall|i: int| 0 <= i < js.len() ==> total_fits(#[trigger] js[i])
}

impl CpuSampler {
    /// Create a new sampler reading from the given `/proc/stat` path.
    pub fn new(proc_stat_path: &str) -> (r: Self)
        ensures
            r.path() == proc_stat_path@,
            r.previous() is None,
            r.previous_cores().len() == 0,
            r.fits(),
    {
        CpuSampler {
            proc_stat_path: proc_stat_path.to_owned(),
            prev_overall: None,
            prev_per_core: Vec::new(),
        }
    }

    /// Create a sampler using the default `/proc/stat`.
    pub fn system() -> (r: Self)
        ensures
            r.path() == "/proc/stat"@,
            r.previous() is None,
            r.previous_cores().len() == 0,
            r.fits(),
    {
        Self::new("/proc/stat")
    }

    /// The `/proc/stat` file that samples are read from.
    pub closed spec fn path(&self) -> Seq<char> {
        self.proc_stat_path@
    }

    /// The `/proc/stat` file that samples are read from.
    pub fn proc_stat_path(&self) -> (r: &str)
        ensures
            r@ == self.path(),
    {
        self.proc_stat_path.as_str()
    }

    /// The aggregate counters of the previous sample.
    pub closed spec fn previous(&self) -> Option<CpuJiffies> {
        self.prev_overall
    }

    /// The per-core counters of the previous sample.
    pub closed spec fn previous_cores(&self) -> Seq<CpuJiffies> {
        self.prev_per_core@
    }

    /// The previous sample's counters all fit in 64 bits.
    pub closed spec fn fits(&self) -> bool {
        &&& (self.prev_overall matches Some(p) ==> total_fits(p))
        &&& all_fit(self.prev_per_core@)
    }

    /// Record a sample and return the deltas against the previous one: the
    /// aggregate delta (`None` on the first sample) and one per core
    /// (`None` for a core that the previous sample did not have).
    pub fn record(&mut self, overall: CpuJiffies, per_core: Vec<CpuJiffies>) -> (r: (
        Option<LoadDelta>,
        Vec<Option<LoadDelta>>,
    ))
        requires
            old(self).fits(),
            total_fits(overall),
            all_fit(per_core@),
        ensures
            r.0 == (match old(self).previous() {
                Some(p) => Some(delta_spec(overall, p)),
                None => None,
            }),
            r.1@ == core_deltas_spec(per_core@, old(self).previous_cores()),
            final(self).previous() == Some(overall),
            final(self).previous_cores() == per_core@,
            final(self).fits(),
            final(self).path() == old(self).path(),
    {
        let overall_delta = match &self.prev_overall {
            Some(prev) => Some(overall.delta_from(prev)),
            None => None,
        };
        let mut cores: Vec<Option<LoadDelta>> = Vec::new();
        let n = per_core.len();
        let mut i: usize = 0;
        while i < n
            invariant
                n == per_core@.len(),
                i <= n,
                all_fit(per_core@),
                all_fit(self.prev_per_core@),
                cores@ == core_deltas_spec(per_core@, self.prev_per_core@).subrange(0, i as int),
            decreases n - i,
        {
            let d = if i < self.prev_per_core.len() {
                Some(per_core[i].delta_from(&self.prev_per_core[i]))
            } else {
                None
            };
            cores.push(d);
            i = i + 1;
            assert(cores@ =~= core_deltas_spec(per_core@, self.prev_per_core@).subrange(0, i as int));
        }
        assert(core_deltas_spec(per_core@, self.prev_per_core@).subrange(0, n as int)
            =~= core_deltas_spec(per_core@, self.prev_per_core@));
        self.prev_overall = Some(overall);
        self.prev_per_core = per_core;
        (overall_delta, cores)
    }
}

/// Law: a load delta never counts more busy time than elapsed time, so the
/// utilization it gives lies within 0–100%.
pub proof fn law_busy_within_total(cur: CpuJiffies, prev: CpuJiffies)
    requires
        total_fits(cur),
        total_fits(prev),
    ensures
        delta_spec(cur, prev).busy <= delta_spec(cur, prev).total,
{
}

/// Law: time spent waiting for I/O is idle time. Between two samples that
/// differ only in the iowait counter, the delta's total is the iowait that
/// passed and none of it is busy.
pub proof fn law_iowait_counts_as_idle(prev: CpuJiffies, cur: CpuJiffies)
    requires
        cur == (CpuJiffies { iowait: cur.iowait, ..prev }),
        cur.iowait >= prev.iowait,
    ensures
        delta_spec(cur, prev) == (LoadDelta { busy: 0, total: (cur.iowait - prev.iowait) as u64 }),
{
}

/// Law: time in the idle counter is idle, and time in the user counter is
/// busy. Between two samples that differ only in the idle counter nothing
/// is busy; between two that differ only in the user counter all of it is.
pub proof fn law_idle_and_user_time(prev: CpuJiffies, cur: CpuJiffies)
    ensures
        cur == (CpuJiffies { idle: cur.idle, ..prev }) && cur.idle >= prev.idle ==> delta_spec(cur, prev)
            == (LoadDelta { busy: 0, total: (cur.idle - prev.idle) as u64 }),
        cur == (CpuJiffies { user: cur.user, ..prev }) && cur.user >= prev.user ==> delta_spec(cur, prev)
            == (LoadDelta { busy: (cur.user - prev.user) as u64, total: (cur.user - prev.user) as u64 }),
{
}

/// Law: when no counter went backwards, the busy time between two samples
/// is the growth of the user, nice, system, irq, softirq and steal counters,
/// and the total is the growth of all eight.
pub proof fn law_busy_is_growth_of_working_counters(prev: CpuJiffies, cur: CpuJiffies)
    requires
        prev.user <= cur.user,
        prev.nice <= cur.nice,
        prev.system <= cur.system,
        prev.idle <= cur.idle,
        prev.iowait <= cur.iowait,
        prev.irq <= cur.irq,
        prev.softirq <= cur.softirq,
        prev.steal <= cur.steal,
        total_fits(cur),
    ensures
        delta_spec(cur, prev).busy == (cur.user - prev.user) + (cur.nice - prev.nice) + (cur.system - prev.system)
            + (cur.irq - prev.irq) + (cur.softirq - prev.softirq) + (cur.steal - prev.steal),
        delta_spec(cur, prev).total == (cur.user - prev.user) + (cur.nice - prev.nice) + (cur.system - prev.system)
            + (cur.idle - prev.idle) + (cur.iowait - prev.iowait) + (cur.irq - prev.irq) + (cur.softirq
            - prev.softirq) + (cur.steal - prev.steal),
{
}

} // verus!
