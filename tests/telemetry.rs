use rusttery::capacity::{charge_percent, health_percent, time_estimates};
use rusttery::telemetry::{first_battery, from_power_report, from_sysfs, PowerReport, SysfsAttributes};
use rusttery::text::{read_int, read_text};

fn text(s: &str) -> Option<String> {
    Some(s.to_string())
}

fn empty_node() -> SysfsAttributes {
    SysfsAttributes {
        kind: None,
        capacity: None,
        status: None,
        cycle_count: None,
        voltage_now: None,
        current_now: None,
        power_now: None,
        technology: None,
        manufacturer: None,
        model_name: None,
        serial_number: None,
        energy_full: None,
        energy_full_design: None,
        energy_now: None,
        charge_full: None,
        charge_full_design: None,
        charge_now: None,
    }
}

fn battery_node() -> SysfsAttributes {
    let mut n = empty_node();
    n.kind = text("Battery\n");
    n.capacity = text("85\n");
    n.status = text("Discharging\n");
    n.cycle_count = text("120\n");
    n.voltage_now = text("12000000\n");
    n.current_now = text("1500000\n");
    n.power_now = text("15000000\n");
    n.technology = text("Li-ion\n");
    n.manufacturer = text("ACME\n");
    n.model_name = text("BAT-1\n");
    n.serial_number = text("  42  \n");
    n.energy_full = text("45000000\n");
    n.energy_full_design = text("50000000\n");
    n.energy_now = text("30000000\n");
    n
}

#[test]
fn percent_is_rounded_ratio() {
    assert_eq!(charge_percent(50, 100), Some(50));
    assert_eq!(charge_percent(2, 3), Some(67));
    assert_eq!(charge_percent(1, 8), Some(13));
    assert_eq!(charge_percent(1, 3), Some(33));
    assert_eq!(charge_percent(0, 40), Some(0));
    assert_eq!(charge_percent(40, 40), Some(100));
}

#[test]
fn percent_is_clamped() {
    assert_eq!(charge_percent(150, 100), Some(100));
    assert_eq!(charge_percent(-20, 100), Some(0));
}

#[test]
fn percent_without_positive_full_is_absent() {
    assert_eq!(charge_percent(10, 0), None);
    assert_eq!(charge_percent(10, -5), None);
    assert_eq!(charge_percent(0, 0), None);
}

#[test]
fn health_of_half_capacity_is_fifty() {
    assert_eq!(health_percent(50, 100), Some(50));
    assert_eq!(health_percent(120, 100), Some(100));
    assert_eq!(health_percent(50, 0), None);
}

#[test]
fn time_estimates_follow_rate_sign() {
    assert_eq!(time_estimates(30000, 50000, -10000), (Some(180), None));
    assert_eq!(time_estimates(30000, 50000, 10000), (None, Some(120)));
    assert_eq!(time_estimates(30000, 50000, 0), (None, None));
    assert_eq!(time_estimates(1, 10, -7), (Some(8), None));
}

#[test]
fn power_report_is_normalized() {
    let r = PowerReport {
        full_capacity: Some(40000),
        remaining_capacity: Some(30000),
        design_capacity: Some(50000),
        status: Some(3),
        charge_rate: Some(5000),
    };
    let info = from_power_report(&r).unwrap();
    assert_eq!(info.percent, 75);
    assert_eq!(info.health, Some(80));
    assert_eq!(info.status.as_deref(), Some("Charging"));
    assert_eq!(info.power_now, Some(5_000_000));
    assert_eq!(info.capacity_full, Some(40000));
    assert_eq!(info.capacity_design, Some(50000));
    assert_eq!(info.time_to_full, Some(120));
    assert_eq!(info.time_to_empty, None);
}

#[test]
fn power_report_discharging() {
    let r = PowerReport {
        full_capacity: Some(40000),
        remaining_capacity: Some(20000),
        design_capacity: None,
        status: Some(1),
        charge_rate: Some(-10000),
    };
    let info = from_power_report(&r).unwrap();
    assert_eq!(info.percent, 50);
    assert_eq!(info.health, None);
    assert_eq!(info.capacity_design, None);
    assert_eq!(info.status.as_deref(), Some("Discharging"));
    assert_eq!(info.power_now, Some(-10_000_000));
    assert_eq!(info.time_to_empty, Some(120));
    assert_eq!(info.time_to_full, None);
}

#[test]
fn power_report_status_labels() {
    let mut r = PowerReport {
        full_capacity: Some(100),
        remaining_capacity: Some(100),
        design_capacity: Some(0),
        status: Some(2),
        charge_rate: Some(0),
    };
    let info = from_power_report(&r).unwrap();
    assert_eq!(info.status.as_deref(), Some("Idle"));
    assert_eq!(info.health, None);
    assert_eq!(info.time_to_empty, None);
    assert_eq!(info.time_to_full, None);
    r.status = Some(0);
    assert_eq!(from_power_report(&r).unwrap().status.as_deref(), Some("Unknown"));
}

#[test]
fn power_report_without_full_capacity_is_absent() {
    let mut r = PowerReport {
        full_capacity: Some(0),
        remaining_capacity: Some(10),
        design_capacity: Some(100),
        status: None,
        charge_rate: None,
    };
    assert!(from_power_report(&r).is_none());
    r.full_capacity = Some(-1);
    assert!(from_power_report(&r).is_none());
    r.full_capacity = None;
    assert!(from_power_report(&r).is_none());
    r.full_capacity = Some(100);
    r.remaining_capacity = None;
    assert!(from_power_report(&r).is_none());
}

#[test]
fn sysfs_node_is_normalized() {
    let info = from_sysfs(&battery_node()).unwrap();
    assert_eq!(info.percent, 85);
    assert_eq!(info.status.as_deref(), Some("Discharging"));
    assert_eq!(info.cycle_count, Some(120));
    assert_eq!(info.voltage_now, Some(12_000_000));
    assert_eq!(info.current_now, Some(1_500_000));
    assert_eq!(info.power_now, Some(-15_000_000));
    assert_eq!(info.technology.as_deref(), Some("Li-ion"));
    assert_eq!(info.manufacturer.as_deref(), Some("ACME"));
    assert_eq!(info.model.as_deref(), Some("BAT-1"));
    assert_eq!(info.serial_number.as_deref(), Some("42"));
    assert_eq!(info.health, Some(90));
    assert_eq!(info.capacity_full, Some(45000));
    assert_eq!(info.capacity_design, Some(50000));
    assert_eq!(info.time_to_empty, Some(120));
    assert_eq!(info.time_to_full, None);
}

#[test]
fn sysfs_charging_power_is_positive() {
    let mut n = battery_node();
    n.status = text("Charging\n");
    let info = from_sysfs(&n).unwrap();
    assert_eq!(info.power_now, Some(15_000_000));
    assert_eq!(info.time_to_empty, None);
    assert_eq!(info.time_to_full, Some(60));
}

#[test]
fn sysfs_falls_back_to_charge_figures() {
    let mut n = battery_node();
    n.energy_full = None;
    n.energy_full_design = None;
    n.energy_now = None;
    n.charge_full = text("4000000\n");
    n.charge_full_design = text("5000000\n");
    n.charge_now = text("3000000\n");
    let info = from_sysfs(&n).unwrap();
    assert_eq!(info.health, Some(80));
    assert_eq!(info.capacity_full, Some(4000));
    assert_eq!(info.capacity_design, Some(5000));
    assert_eq!(info.time_to_empty, Some(120));
}

#[test]
fn sysfs_never_mixes_energy_and_charge() {
    let mut n = battery_node();
    n.energy_full_design = None;
    n.charge_full = text("4000000\n");
    n.charge_full_design = text("5000000\n");
    let info = from_sysfs(&n).unwrap();
    assert_eq!(info.health, None);
    assert_eq!(info.capacity_full, Some(45000));
    assert_eq!(info.capacity_design, None);
    assert_eq!(info.time_to_empty, Some(120));
}

#[test]
fn sysfs_missing_attributes_are_absent() {
    let mut n = empty_node();
    n.kind = text("Battery");
    n.capacity = text("140");
    n.cycle_count = text("many");
    let info = from_sysfs(&n).unwrap();
    assert_eq!(info.percent, 100);
    assert_eq!(info.cycle_count, None);
    assert_eq!(info.status, None);
    assert_eq!(info.health, None);
    assert_eq!(info.capacity_full, None);
    assert_eq!(info.time_to_empty, None);
    assert_eq!(info.time_to_full, None);
}

#[test]
fn sysfs_rejects_other_nodes() {
    let mut n = battery_node();
    n.kind = text("Mains\n");
    assert!(from_sysfs(&n).is_none());
    let mut m = battery_node();
    m.capacity = text("full\n");
    assert!(from_sysfs(&m).is_none());
    let mut k = battery_node();
    k.kind = None;
    assert!(from_sysfs(&k).is_none());
}

#[test]
fn sysfs_capacity_beyond_i32_is_unreadable() {
    let mut n = battery_node();
    n.capacity = text("3000000000\n");
    assert!(from_sysfs(&n).is_none());
    n.capacity = text("-3000000000\n");
    assert!(from_sysfs(&n).is_none());
    n.capacity = text("2147483647\n");
    assert_eq!(from_sysfs(&n).unwrap().percent, 100);
    let mut big = battery_node();
    big.capacity = text("3000000000\n");
    let mut second = battery_node();
    second.capacity = text("40\n");
    assert_eq!(first_battery(&vec![big, second]).unwrap().percent, 40);
}

#[test]
fn first_battery_skips_other_nodes() {
    let mut mains = empty_node();
    mains.kind = text("Mains\n");
    let mut unreadable = battery_node();
    unreadable.capacity = None;
    let mut second = battery_node();
    second.capacity = text("40\n");
    let nodes = vec![mains, unreadable, battery_node(), second];
    assert_eq!(first_battery(&nodes).unwrap().percent, 85);
    assert!(first_battery(&vec![]).is_none());
    let mut only = empty_node();
    only.kind = text("USB");
    assert!(first_battery(&vec![only]).is_none());
}

#[test]
fn attribute_text_is_trimmed() {
    assert_eq!(read_text(&text("  Full\n")).as_deref(), Some("Full"));
    assert_eq!(read_text(&None), None);
}

#[test]
fn attribute_integers_are_parsed() {
    assert_eq!(read_int(&text(" 42\n")), Some(42));
    assert_eq!(read_int(&text("+7")), Some(7));
    assert_eq!(read_int(&text("-0012")), Some(-12));
    assert_eq!(read_int(&text("12a")), None);
    assert_eq!(read_int(&text("")), None);
    assert_eq!(read_int(&text("-")), None);
    assert_eq!(read_int(&text("9223372036854775807")), Some(i64::MAX));
    assert_eq!(read_int(&text("9223372036854775808")), None);
    assert_eq!(read_int(&text("-9223372036854775808")), Some(i64::MIN));
    assert_eq!(read_int(&text("-9223372036854775809")), None);
    assert_eq!(read_int(&text("123456789012345678901234567890")), None);
    assert_eq!(read_int(&None), None);
}
