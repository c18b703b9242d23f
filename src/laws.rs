//! Laws that relate the operations of a history.

use vstd::prelude::*;
use crate::store::{
    insert_pos, lemma_insert_pos_range, retention_cutoff, select_since, sorted_insert, window_start, HistoryRecord,
    Statistics,
};
use crate::capacity::{saturate_i32, time_estimates_spec, trunc_div};
use crate::telemetry::{from_report_fields, opt_i32, report_usable, BatteryInfo, PowerReport};

verus! {

proof fn lemma_select_none(s: Seq<HistoryRecord>, start: int)
    requires
        forall|i: int| 0 <= i < s.len() ==> #[trigger] s[i].timestamp < start,
    ensures
        select_since(s, start) == Seq::<HistoryRecord>::empty(),
    decreases s.len(),
{
    if s.len() > 0 {
        assert(s.last() == s[s.len() - 1]);
        let d = s.drop_last();
        assert forall|i: int| 0 <= i < d.len() implies #[trigger] d[i].timestamp < start by {
            assert(d[i] == s[i]);
        }
        lemma_select_none(d, start);
    }
}

proof fn lemma_select_all(s: Seq<HistoryRecord>, start: int)
    requires
        forall|i: int| 0 <= i < s.len() ==> #[trigger] s[i].timestamp >= start,
    ensures
        select_since(s, start) == s,
    decreases s.len(),
{
    if s.len() > 0 {
        assert(s.last() == s[s.len() - 1]);
        let d = s.drop_last();
        assert forall|i: int| 0 <= i < d.len() implies #[trigger] d[i].timestamp >= start by {
            assert(d[i] == s[i]);
        }
        lemma_select_all(d, start);
        assert(d.push(s.last()) =~= s);
    }
}

proof fn lemma_select_keeps(s: Seq<HistoryRecord>, start: int, i: int)
    requires
        0 <= i < s.len(),
        s[i].timestamp >= start,
    ensures
        select_since(s, start).contains(s[i]),
    decreases s.len(),
{
    let w = select_since(s, start);
    if i == s.len() - 1 {
        assert(w[w.len() - 1] == s[i]);
    } else {
        let d = s.drop_last();
        assert(d[i] == s[i]);
        lemma_select_keeps(d, start, i);
        let v = select_since(d, start);
        let j = choose|j: int| 0 <= j < v.len() && v[j] == s[i];
        if s.last().timestamp >= start {
            assert(w[j] == v[j]);
        }
    }
}

/// Appending a snapshot taken at `now` and then asking for the last hour
/// gives exactly that record, when nothing else lies in that hour.
pub proof fn law_append_then_last_hour(s: Seq<HistoryRecord>, info: BatteryInfo, now: i64)
    requires
        forall|i: int| 0 <= i < s.len() ==> #[trigger] s[i].timestamp < window_start(now as int, 1),
    ensures
        select_since(
            sorted_insert(s, (HistoryRecord { timestamp: now, info })),
            window_start(now as int, 1),
        ) == seq![(HistoryRecord { timestamp: now, info })],
{
    let r = HistoryRecord { timestamp: now, info };
    let start = window_start(now as int, 1);
    assert forall|i: int| 0 <= i < s.len() implies #[trigger] s[i].timestamp <= now by {}
    lemma_insert_pos_range(s, now as int);
    let n = sorted_insert(s, r);
    assert(n =~= s.push(r));
    assert(n.drop_last() =~= s);
    lemma_select_none(s, start);
    assert(select_since(n, start) =~= seq![r]);
}

/// A window that begins after every record is empty.
pub proof fn law_window_after_all_is_empty(s: Seq<HistoryRecord>, now: int, hours: int)
    requires
        forall|i: int| 0 <= i < s.len() ==> #[trigger] s[i].timestamp < window_start(now, hours),
    ensures
        select_since(s, window_start(now, hours)) == Seq::<HistoryRecord>::empty(),
{
    lemma_select_none(s, window_start(now, hours));
}

/// The aggregates of an empty window are all zero.
pub proof fn law_empty_statistics(st: Statistics)
    requires
        st.describes(Seq::<HistoryRecord>::empty()),
    ensures
        st.all_zero(),
{
}

/// Pruning with zero days keeps nothing of what was recorded before `now`.
pub proof fn law_prune_zero_days(s: Seq<HistoryRecord>, now: int)
    requires
        forall|i: int| 0 <= i < s.len() ==> #[trigger] s[i].timestamp < now,
    ensures
        select_since(s, retention_cutoff(now, 0)) == Seq::<HistoryRecord>::empty(),
{
    lemma_select_none(s, retention_cutoff(now, 0));
}

/// Pruning with a cutoff older than every record keeps them all.
pub proof fn law_prune_before_all(s: Seq<HistoryRecord>, now: int, days: int)
    requires
        forall|i: int| 0 <= i < s.len() ==> #[trigger] s[i].timestamp >= retention_cutoff(now, days),
    ensures
        select_since(s, retention_cutoff(now, days)) == s,
{
    lemma_select_all(s, retention_cutoff(now, days));
}

/// A record whose optional fields are all absent comes back, unchanged and
/// so with those fields still absent, from a window that covers it.
pub proof fn law_absent_fields_round_trip(
    s: Seq<HistoryRecord>,
    info: BatteryInfo,
    now: i64,
    hours: int,
)
    requires
        info.all_absent(),
        hours >= 0,
    ensures
        select_since(
            sorted_insert(s, (HistoryRecord { timestamp: now, info })),
            window_start(now as int, hours),
        ).contains((HistoryRecord { timestamp: now, info })),
{
    let r = HistoryRecord { timestamp: now, info };
    lemma_insert_pos_range(s, now as int);
    let p = insert_pos(s, now as int);
    let n = sorted_insert(s, r);
    assert(n[p] == r);
    assert(hours * 3600 >= 0) by (nonlinear_arith)
        requires
            hours >= 0,
    ;
    lemma_select_keeps(n, window_start(now as int, hours), p);
}

/// A rate gives at most one time estimate: the time to empty exactly when
/// it is negative, the time to full exactly when it is positive, neither
/// when it is zero.
pub proof fn law_one_time_estimate(remaining: int, full: int, rate: int)
    ensures
        time_estimates_spec(remaining, full, rate).0 is Some <==> rate < 0,
        time_estimates_spec(remaining, full, rate).1 is Some <==> rate > 0,
{
}

/// A snapshot from a power report holds one time estimate when the report
/// gives a nonzero rate and none otherwise. The estimate is the truncated
/// number of minutes, `remaining / -rate * 60` to empty or
/// `(full - remaining) / rate * 60` to full, whenever that fits in an `i32`.
pub proof fn law_report_time_estimates(info: BatteryInfo, r: PowerReport)
    requires
        report_usable(r),
        from_report_fields(info, r),
    ensures
        !(info.time_to_empty is Some && info.time_to_full is Some),
        (info.time_to_empty is Some || info.time_to_full is Some) <==> (r.charge_rate is Some
            && r.charge_rate->0 != 0),
        r.charge_rate is Some && r.charge_rate->0 < 0 ==> opt_i32(info.time_to_empty) == Some(
            saturate_i32(
                trunc_div(r.remaining_capacity->0 as int * 60, -(r.charge_rate->0 as int)),
            ),
        ),
        r.charge_rate is Some && r.charge_rate->0 > 0 ==> opt_i32(info.time_to_full) == Some(
            saturate_i32(
                trunc_div(
                    (r.full_capacity->0 as int - r.remaining_capacity->0 as int) * 60,
                    r.charge_rate->0 as int,
                ),
            ),
        ),
        r.charge_rate is Some && r.charge_rate->0 < 0 && i32::MIN <= trunc_div(
            r.remaining_capacity->0 as int * 60,
            -(r.charge_rate->0 as int),
        ) <= i32::MAX ==> opt_i32(info.time_to_empty) == Some(
            trunc_div(r.remaining_capacity->0 as int * 60, -(r.charge_rate->0 as int)),
        ),
        r.charge_rate is Some && r.charge_rate->0 > 0 && i32::MIN <= trunc_div(
            (r.full_capacity->0 as int - r.remaining_capacity->0 as int) * 60,
            r.charge_rate->0 as int,
        ) <= i32::MAX ==> opt_i32(info.time_to_full) == Some(
            trunc_div((r.full_capacity->0 as int - r.remaining_capacity->0 as int) * 60, r.charge_rate->0 as int),
        ),
{
}

} // verus!
