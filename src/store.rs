//! A time-indexed history of battery snapshots: append, recency-bounded
//! windows, aggregate statistics and retention pruning.
//!
//! Times are Unix seconds. The present time is an argument of every
//! operation that depends on it.

use vstd::prelude::*;
use crate::telemetry::BatteryInfo;

verus! {

/// Seconds in an hour.
pub const SECONDS_PER_HOUR: i64 = 3600;

/// Seconds in a day.
pub const SECONDS_PER_DAY: i64 = 86400;

/// Age in days beyond which records are dropped when a history is opened.
pub const DEFAULT_RETENTION_DAYS: i64 = 30;

/// A snapshot together with the time it was recorded.
pub struct HistoryRecord {
    /// Unix seconds.
    pub timestamp: i64,
    pub info: BatteryInfo,
}

impl HistoryRecord {
    /// A field-for-field copy.
    pub fn duplicate(&self) -> (r: HistoryRecord)
        ensures
            r == *self,
    {
        HistoryRecord { timestamp: self.timestamp, info: self.info.duplicate() }
    }
}

/// Records in non-decreasing order of time.
pub open spec fn sorted(s: Seq<HistoryRecord>) -> bool {
    forall|i: int, j: int| 0 <= i <= j < s.len() ==> s[i].timestamp <= s[j].timestamp
}

/// The records of `s` at or after `start`, in their order in `s`.
pub open spec fn select_since(s: Seq<HistoryRecord>, start: int) -> Seq<HistoryRecord>
    decreases s.len(),
{
    if s.len() == 0 {
        Seq::empty()
    } else if s.last().timestamp >= start {
        select_since(s.drop_last(), start).push(s.last())
    } else {
        select_since(s.drop_last(), start)
    }
}

/// The first moment of a window of `hours` hours that ends at `now`.
pub open spec fn window_start(now: int, hours: int) -> int {
    now - hours * 3600
}

/// The moment before which records older than `days` days lie.
pub open spec fn retention_cutoff(now: int, days: int) -> int {
    now - days * 86400
}

/// Where a record at time `t` goes in `s`: after every record at or before `t`.
pub open spec fn insert_pos(s: Seq<HistoryRecord>, t: int) -> int
    decreases s.len(),
{
    if s.len() == 0 {
        0
    } else if s.last().timestamp <= t {
        s.len() as int
    } else {
        insert_pos(s.drop_last(), t)
    }
}

/// `s` with `r` placed after every record at or before its time.
pub open spec fn sorted_insert(s: Seq<HistoryRecord>, r: HistoryRecord) -> Seq<HistoryRecord> {
    s.insert(insert_pos(s, r.timestamp as int), r)
}

/// The records of `rows` put in order of time one after another, each
/// after every earlier one at or before its time.
pub open spec fn sorted_from(rows: Seq<HistoryRecord>) -> Seq<HistoryRecord>
    decreases rows.len(),
{
    if rows.len() == 0 {
        Seq::empty()
    } else {
        sorted_insert(sorted_from(rows.drop_last()), rows.last())
    }
}

/// An in-memory history, kept in order of time.
pub struct HistoryStore {
    records: Vec<HistoryRecord>,
}

impl View for HistoryStore {
    type V = Seq<HistoryRecord>;

    closed spec fn view(&self) -> Seq<HistoryRecord> {
        self.records@
    }
}

impl HistoryStore {
    pub open spec fn wf(&self) -> bool {
        sorted(self@)
    }

    /// An empty history.
    pub fn new() -> (s: HistoryStore)
        ensures
            s.wf(),
            s@ == Seq::<HistoryRecord>::empty(),
    {
        HistoryStore { records: Vec::new() }
    }

    /// The number of records held.
    pub fn len(&self) -> (n: usize)
        ensures
            n == self@.len(),
    {
        self.records.len()
    }

    /// Adds a record after every record at or before its time. Records with
    /// equal times keep the order in which they came.
    pub fn insert(&mut self, r: HistoryRecord)
        requires
            old(self).wf(),
        ensures
            final(self).wf(),
            final(self)@ == sorted_insert(old(self)@, r),
    {
        let ghost s = self@;
        let t = r.timestamp;
        let mut k: usize = self.records.len();
        assert(s.subrange(0, k as int) =~= s);
        while k > 0 && self.records[k - 1].timestamp > t
            invariant
                self@ == s,
                k <= s.len(),
                insert_pos(s, t as int) == insert_pos(s.subrange(0, k as int), t as int),
                forall|j: int| k <= j < s.len() ==> s[j].timestamp > t,
            decreases k,
        {
            assert(s.subrange(0, k as int).drop_last() =~= s.subrange(0, k - 1));
            k = k - 1;
        }
        proof {
            if k > 0 {
                assert(s.subrange(0, k as int).last() == s[k - 1]);
            }
        }
        self.records.insert(k, r);
        proof {
            let n = self@;
            assert forall|i: int, j: int| 0 <= i <= j < n.len() implies n[i].timestamp
                <= n[j].timestamp by {
                if i < k {
                    assert(n[i] == s[i]);
                    assert(s[i].timestamp <= s[k - 1].timestamp);
                }
                if j > k {
                    assert(n[j] == s[j - 1]);
                }
                if i > k {
                    assert(n[i] == s[i - 1]);
                }
                if j < k {
                    assert(n[j] == s[j]);
                }
            }
        }
    }

    /// Records `info` as taken at `now`.
    pub fn append_at(&mut self, info: BatteryInfo, now: i64)
        requires
            old(self).wf(),
        ensures
            final(self).wf(),
            final(self)@ == sorted_insert(old(self)@, (HistoryRecord { timestamp: now, info })),
    {
        self.insert(HistoryRecord { timestamp: now, info });
    }
}


/// The records of `v` at or after `start`, copied, in their order in `v`.
fn copy_since(v: &Vec<HistoryRecord>, start: i128) -> (r: Vec<HistoryRecord>)
    ensures
        r@ == select_since(v@, start as int),
        sorted(v@) ==> sorted(r@),
        r@.len() <= v@.len(),
{
    let ghost s = v@;
    let mut out: Vec<HistoryRecord> = Vec::new();
    let ghost mut last: int = 0;
    let mut k: usize = 0;
    while k < v.len()
        invariant
            s == v@,
            k <= s.len(),
            out@ == select_since(s.subrange(0, k as int), start as int),
            out@.len() <= k,
            sorted(s) ==> sorted(out@),
            out@.len() > 0 ==> 0 <= last < k && out@.last() == s[last],
        decreases s.len() - k,
    {
        assert(s.subrange(0, k + 1).drop_last() =~= s.subrange(0, k as int));
        assert(s.subrange(0, k + 1).last() == s[k as int]);
        if v[k].timestamp as i128 >= start {
            let c = v[k].duplicate();
            proof {
                if sorted(s) && out@.len() > 0 {
                    assert(s[last].timestamp <= s[k as int].timestamp);
                }
            }
            out.push(c);
            proof {
                last = k as int;
                if sorted(s) {
                    let n = out@;
                    assert forall|i: int, j: int| 0 <= i <= j < n.len() implies n[i].timestamp
                        <= n[j].timestamp by {
                        if j == n.len() - 1 && i < j {
                            assert(n[i].timestamp <= n[n.len() - 2].timestamp);
                        }
                    }
                }
            }
        }
        k = k + 1;
    }
    assert(s.subrange(0, k as int) =~= s);
    out
}

/// The sum of the charge levels of `s`.
pub open spec fn percent_total(s: Seq<HistoryRecord>) -> int
    decreases s.len(),
{
    if s.len() == 0 {
        0
    } else {
        percent_total(s.drop_last()) + s.last().info.percent
    }
}

/// The sum of the power figures of `s`; records without one add nothing.
pub open spec fn power_total(s: Seq<HistoryRecord>) -> int
    decreases s.len(),
{
    if s.len() == 0 {
        0
    } else {
        power_total(s.drop_last()) + match s.last().info.power_now {
            Some(p) => p as int,
            None => 0,
        }
    }
}

/// The number of records of `s` that have a power figure.
pub open spec fn power_count(s: Seq<HistoryRecord>) -> int
    decreases s.len(),
{
    if s.len() == 0 {
        0
    } else {
        power_count(s.drop_last()) + if s.last().info.power_now is Some {
            1int
        } else {
            0int
        }
    }
}

/// The lowest charge level of `s`; zero when `s` is empty.
pub open spec fn min_percent_of(s: Seq<HistoryRecord>) -> int
    decreases s.len(),
{
    if s.len() == 0 {
        0
    } else if s.len() == 1 {
        s[0].info.percent as int
    } else {
        let m = min_percent_of(s.drop_last());
        if s.last().info.percent < m {
            s.last().info.percent as int
        } else {
            m
        }
    }
}

/// The highest charge level of `s`; zero when `s` is empty.
pub open spec fn max_percent_of(s: Seq<HistoryRecord>) -> int
    decreases s.len(),
{
    if s.len() == 0 {
        0
    } else if s.len() == 1 {
        s[0].info.percent as int
    } else {
        let m = max_percent_of(s.drop_last());
        if s.last().info.percent > m {
            s.last().info.percent as int
        } else {
            m
        }
    }
}

/// Aggregates over a window of records. Averages are the sums divided by
/// the counts; an empty window gives all zeros.
pub struct Statistics {
    /// Sum of the charge levels.
    pub percent_sum: i128,
    pub min_percent: i32,
    pub max_percent: i32,
    /// Sum of the power figures, in microwatts.
    pub power_sum: i128,
    /// Number of records with a power figure.
    pub power_samples: u64,
    pub total_records: u64,
}

impl Statistics {
    /// Whether these are the aggregates of `s`.
    pub open spec fn describes(&self, s: Seq<HistoryRecord>) -> bool {
        &&& self.total_records == s.len()
        &&& self.percent_sum == percent_total(s)
        &&& self.min_percent == min_percent_of(s)
        &&& self.max_percent == max_percent_of(s)
        &&& self.power_sum == power_total(s)
        &&& self.power_samples == power_count(s)
    }

    /// Whether every figure is zero.
    pub open spec fn all_zero(&self) -> bool {
        &&& self.total_records == 0 && self.percent_sum == 0 && self.min_percent == 0
        &&& self.max_percent == 0 && self.power_sum == 0 && self.power_samples == 0
    }
}

/// Aggregates over `records`: count, sum, lowest and highest charge level,
/// and the sum and count of the power figures that are present.
pub fn statistics_of(records: &Vec<HistoryRecord>) -> (r: Statistics)
    ensures
        r.describes(records@),
        records@.len() == 0 ==> r.all_zero(),
{
    let ghost s = records@;
    let mut percent_sum: i128 = 0;
    let mut min_percent: i32 = 0;
    let mut max_percent: i32 = 0;
    let mut power_sum: i128 = 0;
    let mut power_samples: u64 = 0;
    let mut k: usize = 0;
    while k < records.len()
        invariant
            s == records@,
            k <= s.len(),
            percent_sum == percent_total(s.subrange(0, k as int)),
            -(k as int) * 0x8000_0000 <= percent_sum <= (k as int) * 0x8000_0000,
            min_percent == min_percent_of(s.subrange(0, k as int)),
            max_percent == max_percent_of(s.subrange(0, k as int)),
            power_sum == power_total(s.subrange(0, k as int)),
            -(k as int) * 0x8000_0000_0000_0000 <= power_sum <= (k as int) * 0x8000_0000_0000_0000,
            power_samples == power_count(s.subrange(0, k as int)),
            power_samples <= k,
        decreases s.len() - k,
    {
        let ghost prev = s.subrange(0, k as int);
        let ghost next = s.subrange(0, k + 1);
        assert(next.drop_last() =~= prev);
        assert(next.last() == s[k as int]);
        let p = records[k].info.percent;
        assert(k + 1 <= usize::MAX);
        assert(-((k + 1) as int) * 0x8000_0000 <= percent_sum + p <= ((k + 1) as int) * 0x8000_0000)
            by (nonlinear_arith)
            requires
                -(k as int) * 0x8000_0000 <= percent_sum <= (k as int) * 0x8000_0000,
                -0x8000_0000 <= p < 0x8000_0000,
        ;
        assert(((k + 1) as int) * 0x8000_0000 < 0x7fff_ffff_ffff_ffff_ffff_ffff_ffff_ffff)
            by (nonlinear_arith)
            requires
                k + 1 <= 0xffff_ffff_ffff_ffff,
        ;
        percent_sum = percent_sum + p as i128;
        if k == 0 {
            min_percent = p;
            max_percent = p;
        } else {
            if p < min_percent {
                min_percent = p;
            }
            if p > max_percent {
                max_percent = p;
            }
        }
        match records[k].info.power_now {
            Some(w) => {
                assert(-((k + 1) as int) * 0x8000_0000_0000_0000 <= power_sum + w <= ((k + 1) as int)
                    * 0x8000_0000_0000_0000) by (nonlinear_arith)
                    requires
                        -(k as int) * 0x8000_0000_0000_0000 <= power_sum <= (k as int)
                            * 0x8000_0000_0000_0000,
                        -0x8000_0000_0000_0000 <= w < 0x8000_0000_0000_0000,
                ;
                assert(((k + 1) as int) * 0x8000_0000_0000_0000 <= 0x7fff_ffff_ffff_ffff_ffff_ffff_ffff_ffff)
                    by (nonlinear_arith)
                    requires
                        k + 1 <= 0xffff_ffff_ffff_ffff,
                ;
                power_sum = power_sum + w as i128;
                power_samples = power_samples + 1;
            },
            None => {},
        }
        k = k + 1;
    }
    assert(s.subrange(0, k as int) =~= s);
    Statistics {
        percent_sum,
        min_percent,
        max_percent,
        power_sum,
        power_samples,
        total_records: k as u64,
    }
}

/// The exact start of a window of `hours` hours that ends at `now`.
fn window_start_exact(now: i64, hours: i64) -> (r: i128)
    ensures
        r == window_start(now as int, hours as int),
{
    now as i128 - hours as i128 * 3600
}

/// The exact retention cutoff for `days` days before `now`.
fn retention_cutoff_exact(now: i64, days: i64) -> (r: i128)
    ensures
        r == retention_cutoff(now as int, days as int),
{
    now as i128 - days as i128 * 86400
}

/// `x` forced into the range of `i64`.
fn clamp_to_i64(x: i128) -> (r: i64)
    ensures
        x <= i64::MIN ==> r == i64::MIN,
        x >= i64::MAX ==> r == i64::MAX,
        i64::MIN <= x <= i64::MAX ==> r == x,
{
    if x < i64::MIN as i128 {
        i64::MIN
    } else if x > i64::MAX as i128 {
        i64::MAX
    } else {
        x as i64
    }
}

/// The start of a window of `hours` hours that ends at `now`, forced into
/// the range of `i64`: every `i64` time in the window is at or after it.
pub fn window_bound(now: i64, hours: i64) -> (r: i64)
    ensures
        window_start(now as int, hours as int) <= i64::MIN ==> r == i64::MIN,
        i64::MIN <= window_start(now as int, hours as int) <= i64::MAX ==> r == window_start(
            now as int,
            hours as int,
        ),
        window_start(now as int, hours as int) >= i64::MAX ==> r == i64::MAX,
{
    clamp_to_i64(window_start_exact(now, hours))
}

/// The retention cutoff for `days` days before `now` as an `i64`: every
/// `i64` time before the exact cutoff is before it, and it equals the exact
/// cutoff whenever that fits in `i64`.
pub fn retention_bound(now: i64, days: i64) -> (r: i64)
    ensures
        retention_cutoff(now as int, days as int) <= i64::MIN ==> r == i64::MIN,
        i64::MIN <= retention_cutoff(now as int, days as int) <= i64::MAX ==> r
            == retention_cutoff(now as int, days as int),
        retention_cutoff(now as int, days as int) > i64::MAX ==> r == i64::MAX,
{
    clamp_to_i64(retention_cutoff_exact(now, days))
}

impl HistoryStore {
    /// The records of the last `hours` hours before `now` (those at or after
    /// `now - hours * 3600`), oldest first.
    pub fn query_window(&self, hours: i64, now: i64) -> (r: Vec<HistoryRecord>)
        requires
            self.wf(),
        ensures
            r@ == select_since(self@, window_start(now as int, hours as int)),
            sorted(r@),
    {
        copy_since(&self.records, window_start_exact(now, hours))
    }

    /// Aggregates over the same window as `query_window`.
    pub fn aggregate_window(&self, hours: i64, now: i64) -> (r: Statistics)
        requires
            self.wf(),
        ensures
            r.describes(select_since(self@, window_start(now as int, hours as int))),
    {
        let w = self.query_window(hours, now);
        statistics_of(&w)
    }

    /// Drops the records older than `days` days before `now` (those before
    /// `now - days * 86400`) and returns how many were dropped.
    pub fn prune(&mut self, days: i64, now: i64) -> (removed: usize)
        requires
            old(self).wf(),
        ensures
            final(self).wf(),
            final(self)@ == select_since(old(self)@, retention_cutoff(now as int, days as int)),
            removed == old(self)@.len() - final(self)@.len(),
    {
        let kept = copy_since(&self.records, retention_cutoff_exact(now, days));
        let removed = self.records.len() - kept.len();
        self.records = kept;
        removed
    }

    /// A history holding exactly `rows`, put in order of time by inserting
    /// them one after another; rows with equal times keep their order.
    pub fn from_records(rows: Vec<HistoryRecord>) -> (s: HistoryStore)
        ensures
            s.wf(),
            s@ == sorted_from(rows@),
            s@.to_multiset() == rows@.to_multiset(),
    {
        let mut s = HistoryStore::new();
        let mut k: usize = 0;
        proof {
            broadcast use vstd::seq_lib::group_to_multiset_ensures;

            assert(rows@.subrange(0, 0) =~= Seq::<HistoryRecord>::empty());
            assert(s@.to_multiset() =~= rows@.subrange(0, 0).to_multiset());
        }
        while k < rows.len()
            invariant
                k <= rows@.len(),
                s.wf(),
                s@ == sorted_from(rows@.subrange(0, k as int)),
                s@.to_multiset() == rows@.subrange(0, k as int).to_multiset(),
            decreases rows@.len() - k,
        {
            let r = rows[k].duplicate();
            let ghost before = s@;
            s.insert(r);
            proof {
                broadcast use vstd::seq_lib::group_to_multiset_ensures;

                let p = insert_pos(before, r.timestamp as int);
                lemma_insert_pos_range(before, r.timestamp as int);
                let n = s@;
                assert(n.remove(p) =~= before);
                assert(n[p] == r);
                assert(n.to_multiset().remove(r) == before.to_multiset());
                assert(n.to_multiset().count(r) > 0) by {
                    assert(n.contains(r));
                }
                assert(n.to_multiset() =~= before.to_multiset().insert(r));
                assert(rows@.subrange(0, k + 1) =~= rows@.subrange(0, k as int).push(r));
                assert(rows@.subrange(0, k + 1).drop_last() =~= rows@.subrange(0, k as int));
            }
            k = k + 1;
        }
        assert(rows@.subrange(0, k as int) =~= rows@);
        s
    }
}

/// Where a record goes lies within `s`, and at its end when no record of
/// `s` is later than `t`.
pub proof fn lemma_insert_pos_range(s: Seq<HistoryRecord>, t: int)
    ensures
        0 <= insert_pos(s, t) <= s.len(),
        (forall|i: int| 0 <= i < s.len() ==> #[trigger] s[i].timestamp <= t) ==> insert_pos(s, t)
            == s.len(),
    decreases s.len(),
{
    if s.len() > 0 {
        lemma_insert_pos_range(s.drop_last(), t);
        assert(s.last() == s[s.len() - 1]);
    }
}

} // verus!
