use rusttery::store::{retention_bound, statistics_of, window_bound, HistoryRecord, HistoryStore};
use rusttery::telemetry::BatteryInfo;

const NOW: i64 = 1_700_000_000;

fn bare(percent: i32) -> BatteryInfo {
    BatteryInfo {
        percent,
        health: None,
        status: None,
        cycle_count: None,
        voltage_now: None,
        current_now: None,
        power_now: None,
        technology: None,
        manufacturer: None,
        model: None,
        serial_number: None,
        capacity_full: None,
        capacity_design: None,
        time_to_empty: None,
        time_to_full: None,
    }
}

fn with_power(percent: i32, power: i64) -> BatteryInfo {
    let mut i = bare(percent);
    i.power_now = Some(power);
    i
}

fn scenario_store() -> HistoryStore {
    let mut s = HistoryStore::new();
    s.append_at(bare(80), NOW - 2 * 3600);
    s.append_at(bare(60), NOW - 3600);
    s.append_at(bare(50), NOW - 600);
    s
}

#[test]
fn append_then_last_hour_returns_the_record() {
    let mut s = HistoryStore::new();
    let mut info = bare(73);
    info.status = Some("Charging".to_string());
    s.append_at(info, NOW);
    let w = s.query_window(1, NOW);
    assert_eq!(w.len(), 1);
    assert_eq!(w[0].timestamp, NOW);
    assert_eq!(w[0].info.percent, 73);
    assert_eq!(w[0].info.status.as_deref(), Some("Charging"));
}

#[test]
fn window_is_in_time_order() {
    let mut s = HistoryStore::new();
    s.append_at(bare(10), NOW - 100);
    s.append_at(bare(30), NOW - 300);
    s.append_at(bare(20), NOW - 200);
    s.append_at(bare(11), NOW - 100);
    let w = s.query_window(1, NOW);
    let times: Vec<i64> = w.iter().map(|r| r.timestamp).collect();
    assert_eq!(times, vec![NOW - 300, NOW - 200, NOW - 100, NOW - 100]);
    let levels: Vec<i32> = w.iter().map(|r| r.info.percent).collect();
    assert_eq!(levels, vec![30, 20, 10, 11]);
}

#[test]
fn zero_hour_window_is_empty() {
    let s = scenario_store();
    assert!(s.query_window(0, NOW).is_empty());
    assert!(s.query_window(1, NOW + 2 * 3600).is_empty());
}

#[test]
fn empty_window_statistics_are_zero() {
    let s = scenario_store();
    let st = s.aggregate_window(0, NOW);
    assert_eq!(st.total_records, 0);
    assert_eq!(st.percent_sum, 0);
    assert_eq!(st.min_percent, 0);
    assert_eq!(st.max_percent, 0);
    assert_eq!(st.power_sum, 0);
    assert_eq!(st.power_samples, 0);
    let none: Vec<HistoryRecord> = Vec::new();
    assert_eq!(statistics_of(&none).total_records, 0);
}

#[test]
fn prune_zero_days_removes_everything() {
    let mut s = scenario_store();
    assert_eq!(s.prune(0, NOW), 3);
    assert_eq!(s.len(), 0);
}

#[test]
fn prune_before_all_removes_nothing() {
    let mut s = scenario_store();
    assert_eq!(s.prune(30, NOW), 0);
    assert_eq!(s.len(), 3);
}

#[test]
fn prune_drops_only_older_records() {
    let mut s = scenario_store();
    s.append_at(bare(90), NOW - 40 * 86400);
    assert_eq!(s.prune(30, NOW), 1);
    assert_eq!(s.len(), 3);
    assert_eq!(s.query_window(24, NOW)[0].info.percent, 80);
}

#[test]
fn absent_fields_stay_absent() {
    let mut s = HistoryStore::new();
    s.append_at(bare(42), NOW);
    let w = s.query_window(1, NOW);
    let i = &w[0].info;
    assert_eq!(i.percent, 42);
    assert!(i.health.is_none() && i.status.is_none() && i.cycle_count.is_none());
    assert!(i.voltage_now.is_none() && i.current_now.is_none() && i.power_now.is_none());
    assert!(i.technology.is_none() && i.manufacturer.is_none() && i.model.is_none());
    assert!(i.serial_number.is_none() && i.capacity_full.is_none());
    assert!(i.capacity_design.is_none() && i.time_to_empty.is_none() && i.time_to_full.is_none());
    let st = s.aggregate_window(1, NOW);
    assert_eq!(st.power_samples, 0);
    assert_eq!(st.power_sum, 0);
}

#[test]
fn last_hour_of_three_records() {
    let s = scenario_store();
    let w = s.query_window(1, NOW);
    assert_eq!(w.len(), 2);
    assert_eq!(w[0].info.percent, 60);
    assert_eq!(w[0].timestamp, NOW - 3600);
    assert_eq!(w[1].info.percent, 50);
    assert_eq!(w[1].timestamp, NOW - 600);
    let st = s.aggregate_window(1, NOW);
    assert_eq!(st.min_percent, 50);
    assert_eq!(st.max_percent, 60);
    assert_eq!(st.total_records, 2);
    assert_eq!(st.percent_sum, 110);
}

#[test]
fn statistics_skip_missing_power() {
    let records = vec![
        HistoryRecord { timestamp: NOW, info: with_power(40, -2_000_000) },
        HistoryRecord { timestamp: NOW, info: bare(70) },
        HistoryRecord { timestamp: NOW, info: with_power(55, -4_000_000) },
    ];
    let st = statistics_of(&records);
    assert_eq!(st.total_records, 3);
    assert_eq!(st.percent_sum, 165);
    assert_eq!(st.min_percent, 40);
    assert_eq!(st.max_percent, 70);
    assert_eq!(st.power_sum, -6_000_000);
    assert_eq!(st.power_samples, 2);
}

#[test]
fn from_records_orders_by_time() {
    let rows = vec![
        HistoryRecord { timestamp: NOW - 10, info: bare(1) },
        HistoryRecord { timestamp: NOW - 30, info: bare(2) },
        HistoryRecord { timestamp: NOW - 20, info: bare(3) },
    ];
    let s = HistoryStore::from_records(rows);
    assert_eq!(s.len(), 3);
    let w = s.query_window(1, NOW);
    let levels: Vec<i32> = w.iter().map(|r| r.info.percent).collect();
    assert_eq!(levels, vec![2, 3, 1]);
}

#[test]
fn bounds_are_exact_or_saturated() {
    assert_eq!(window_bound(NOW, 24), NOW - 86400);
    assert_eq!(window_bound(NOW, 0), NOW);
    assert_eq!(window_bound(0, i64::MAX), i64::MIN);
    assert_eq!(window_bound(0, i64::MIN), i64::MAX);
    assert_eq!(retention_bound(NOW, 30), NOW - 30 * 86400);
    assert_eq!(retention_bound(0, i64::MAX), i64::MIN);
}

#[test]
fn huge_window_keeps_everything() {
    let s = scenario_store();
    assert_eq!(s.query_window(i64::MAX, NOW).len(), 3);
    assert_eq!(s.query_window(i64::MIN, NOW).len(), 0);
}

#[test]
fn from_records_keeps_order_of_equal_times() {
    let rows = vec![
        HistoryRecord { timestamp: NOW - 10, info: bare(1) },
        HistoryRecord { timestamp: NOW - 20, info: bare(2) },
        HistoryRecord { timestamp: NOW - 10, info: bare(3) },
        HistoryRecord { timestamp: NOW - 20, info: bare(4) },
    ];
    let s = HistoryStore::from_records(rows);
    let levels: Vec<i32> = s.query_window(1, NOW).iter().map(|r| r.info.percent).collect();
    assert_eq!(levels, vec![2, 4, 1, 3]);
}
