//! One normalized battery snapshot, built from either of two kinds of raw
//! platform data.
//!
//! Units: capacities are in milliwatt-hours (milliamp-hours where a device
//! reports only charge figures), voltage in microvolts, current in
//! microamps, power in microwatts, times in minutes.

use vstd::prelude::*;
use crate::capacity::{
    charge_percent, health_percent, time_estimates, clamp_percent, ratio_percent,
    time_estimates_spec, trunc_div,
};
use crate::text::{read_int, read_text, int_attr, text_attr};

verus! {

/// One snapshot of battery state.
pub struct BatteryInfo {
    /// Charge level, always within `0..=100`.
    pub percent: i32,
    /// Full-charge capacity as a share of design capacity, within `0..=100`.
    pub health: Option<i32>,
    /// Charging state as the platform names it.
    pub status: Option<String>,
    pub cycle_count: Option<i32>,
    /// Microvolts.
    pub voltage_now: Option<i64>,
    /// Microamps.
    pub current_now: Option<i64>,
    /// Microwatts; positive while charging, negative while discharging.
    pub power_now: Option<i64>,
    pub technology: Option<String>,
    pub manufacturer: Option<String>,
    pub model: Option<String>,
    pub serial_number: Option<String>,
    /// Milliwatt-hours (milliamp-hours for charge-only devices).
    pub capacity_full: Option<i32>,
    /// Same unit as `capacity_full`.
    pub capacity_design: Option<i32>,
    /// Minutes until empty; only while discharging.
    pub time_to_empty: Option<i32>,
    /// Minutes until full; only while charging.
    pub time_to_full: Option<i32>,
}

/// The view of an optional text.
pub open spec fn opt_text(o: Option<String>) -> Option<Seq<char>> {
    match o {
        Some(s) => Some(s@),
        None => None,
    }
}

/// Optional `i32` seen as an optional integer.
pub open spec fn opt_i32(o: Option<i32>) -> Option<int> {
    match o {
        Some(v) => Some(v as int),
        None => None,
    }
}

/// Optional `i64` seen as an optional integer.
pub open spec fn opt_i64(o: Option<i64>) -> Option<int> {
    match o {
        Some(v) => Some(v as int),
        None => None,
    }
}

impl BatteryInfo {
    /// The invariants every snapshot keeps.
    pub open spec fn wf(&self) -> bool {
        &&& 0 <= self.percent <= 100
        &&& (self.health matches Some(h) ==> 0 <= h <= 100)
        &&& !(self.time_to_empty is Some && self.time_to_full is Some)
    }
}

/// What a power report of the operating system's aggregate battery gives,
/// each figure absent where the report could not supply it.
pub struct PowerReport {
    /// Milliwatt-hours.
    pub full_capacity: Option<i32>,
    /// Milliwatt-hours.
    pub remaining_capacity: Option<i32>,
    /// Milliwatt-hours.
    pub design_capacity: Option<i32>,
    /// Battery status code: 1 discharging, 2 idle, 3 charging.
    pub status: Option<i32>,
    /// Milliwatts; positive while charging.
    pub charge_rate: Option<i32>,
}

/// The label of a power report's status code.
pub open spec fn status_label(code: int) -> Seq<char> {
    if code == 1 {
        "Discharging"@
    } else if code == 2 {
        "Idle"@
    } else if code == 3 {
        "Charging"@
    } else {
        "Unknown"@
    }
}

/// Whether a power report carries what a snapshot needs: the remaining
/// capacity and a positive full-charge capacity.
pub open spec fn report_usable(r: PowerReport) -> bool {
    &&& r.remaining_capacity is Some
    &&& r.full_capacity matches Some(f) && f > 0
}

/// The snapshot built from a usable power report, field by field.
pub open spec fn from_report_fields(info: BatteryInfo, r: PowerReport) -> bool {
    let full = r.full_capacity->0 as int;
    let remaining = r.remaining_capacity->0 as int;
    let design_ok = r.design_capacity matches Some(d) && d > 0;
    &&& Some(info.percent as int) == ratio_percent(remaining, full)
    &&& opt_i32(info.health) == (if design_ok {
        ratio_percent(full, r.design_capacity->0 as int)
    } else {
        None
    })
    &&& info.capacity_design == (if design_ok {
        r.design_capacity
    } else {
        None
    })
    &&& info.capacity_full == Some(full as i32)
    &&& opt_text(info.status) == (match r.status {
        Some(c) => Some(status_label(c as int)),
        None => None,
    })
    &&& opt_i64(info.power_now) == (match r.charge_rate {
        Some(c) => Some(c as int * 1000),
        None => None,
    })
    &&& (opt_i32(info.time_to_empty), opt_i32(info.time_to_full)) == (match r.charge_rate {
        Some(c) => time_estimates_spec(remaining, full, c as int),
        None => (None, None),
    })
    &&& info.cycle_count is None && info.voltage_now is None && info.current_now is None
    &&& info.technology is None && info.manufacturer is None
    &&& info.model is None && info.serial_number is None
}

fn status_text(code: i32) -> (r: String)
    ensures
        r@ == status_label(code as int),
{
    if code == 1 {
        String::from_str("Discharging")
    } else if code == 2 {
        String::from_str("Idle")
    } else if code == 3 {
        String::from_str("Charging")
    } else {
        String::from_str("Unknown")
    }
}

/// Normalizes a power report. `None` when the remaining or full-charge
/// capacity is missing or the full-charge capacity is not positive.
pub fn from_power_report(r: &PowerReport) -> (out: Option<BatteryInfo>)
    ensures
        out is Some <==> report_usable(*r),
        out matches Some(info) ==> info.wf() && from_report_fields(info, *r),
{
    let (full, remaining) = match (r.full_capacity, r.remaining_capacity) {
        (Some(f), Some(m)) => (f, m),
        _ => {
            return None;
        },
    };
    if full <= 0 {
        return None;
    }
    let percent = match charge_percent(remaining as i64, full as i64) {
        Some(p) => p,
        None => {
            return None;
        },
    };
    let (health, capacity_design) = match r.design_capacity {
        Some(d) => if d > 0 {
            (health_percent(full as i64, d as i64), Some(d))
        } else {
            (None, None)
        },
        None => (None, None),
    };
    let status = match r.status {
        Some(c) => Some(status_text(c)),
        None => None,
    };
    let power_now = match r.charge_rate {
        Some(c) => Some(c as i64 * 1000),
        None => None,
    };
    let (time_to_empty, time_to_full) = match r.charge_rate {
        Some(c) => time_estimates(remaining as i64, full as i64, c as i64),
        None => (None, None),
    };
    Some(
        BatteryInfo {
            percent,
            health,
            status,
            cycle_count: None,
            voltage_now: None,
            current_now: None,
            power_now,
            technology: None,
            manufacturer: None,
            model: None,
            serial_number: None,
            capacity_full: Some(full),
            capacity_design,
            time_to_empty,
            time_to_full,
        },
    )
}

} // verus!

verus! {

/// The attribute files of one power-supply device node, as read: each is
/// absent where the file could not be read.
pub struct SysfsAttributes {
    /// The `type` file.
    pub kind: Option<String>,
    /// The `capacity` file: charge level in percent.
    pub capacity: Option<String>,
    pub status: Option<String>,
    pub cycle_count: Option<String>,
    /// Microvolts.
    pub voltage_now: Option<String>,
    /// Microamps.
    pub current_now: Option<String>,
    /// Microwatts.
    pub power_now: Option<String>,
    pub technology: Option<String>,
    pub manufacturer: Option<String>,
    pub model_name: Option<String>,
    pub serial_number: Option<String>,
    /// Microwatt-hours.
    pub energy_full: Option<String>,
    /// Microwatt-hours.
    pub energy_full_design: Option<String>,
    /// Microwatt-hours.
    pub energy_now: Option<String>,
    /// Microamp-hours.
    pub charge_full: Option<String>,
    /// Microamp-hours.
    pub charge_full_design: Option<String>,
    /// Microamp-hours.
    pub charge_now: Option<String>,
}

/// A micro-unit figure in milli-units, when that fits in an `i32`.
pub open spec fn milli_of(x: int) -> Option<int> {
    let m = trunc_div(x, 1000);
    if i32::MIN <= m <= i32::MAX {
        Some(m)
    } else {
        None
    }
}

/// A magnitude given the sign of the flow: negative while discharging.
/// Absent where the magnitude does not fit in an `i64`.
pub open spec fn signed_flow(x: int, discharging: bool) -> Option<int> {
    if x == i64::MIN {
        None
    } else {
        let m = if x < 0 {
            -x
        } else {
            x
        };
        Some(
            if discharging {
                -m
            } else {
                m
            },
        )
    }
}

/// The charge level written in the node's `capacity` file, when it reads
/// as an integer within `i32`.
pub open spec fn capacity_attr(n: SysfsAttributes) -> Option<int> {
    match int_attr(n.capacity) {
        Some(c) => if i32::MIN <= c <= i32::MAX {
            Some(c)
        } else {
            None
        },
        None => None,
    }
}

/// Whether the node is a battery whose charge level can be read.
pub open spec fn node_usable(n: SysfsAttributes) -> bool {
    &&& text_attr(n.kind) == Some("Battery"@)
    &&& capacity_attr(n) is Some
}

pub open spec fn is_discharging(n: SysfsAttributes) -> bool {
    text_attr(n.status) == Some("Discharging"@)
}

pub open spec fn opt_flow(a: Option<int>, discharging: bool) -> Option<int> {
    match a {
        Some(x) => signed_flow(x, discharging),
        None => None,
    }
}

/// Whether any energy figure of the node can be read. The figures of a
/// snapshot then all come from the energy family, else all from the charge
/// family: the two are never mixed.
pub open spec fn energy_family(n: SysfsAttributes) -> bool {
    int_attr(n.energy_full) is Some || int_attr(n.energy_full_design) is Some
}

/// An optional micro-unit figure in milli-units.
pub open spec fn opt_milli(x: Option<int>) -> Option<int> {
    match x {
        Some(v) => milli_of(v),
        None => None,
    }
}

/// The capacity-derived fields of a snapshot, from the full, design and
/// present figures and a signed flow of one family of micro-units.
pub open spec fn figures_fields(
    info: BatteryInfo,
    full: Option<int>,
    design: Option<int>,
    now: Option<int>,
    rate: Option<int>,
) -> bool {
    &&& opt_i32(info.health) == (match (full, design) {
        (Some(f), Some(d)) => ratio_percent(f, d),
        _ => None,
    })
    &&& opt_i32(info.capacity_full) == opt_milli(full)
    &&& opt_i32(info.capacity_design) == opt_milli(design)
    &&& (opt_i32(info.time_to_empty), opt_i32(info.time_to_full)) == (match (now, full, rate) {
        (Some(m), Some(f), Some(q)) => time_estimates_spec(m, f, q),
        _ => (None, None),
    })
}

/// The snapshot built from a usable node, field by field.
pub open spec fn from_node_fields(info: BatteryInfo, n: SysfsAttributes) -> bool {
    let d = is_discharging(n);
    &&& Some(info.percent as int) == (match capacity_attr(n) {
        Some(c) => Some(clamp_percent(c)),
        None => None,
    })
    &&& opt_text(info.status) == text_attr(n.status)
    &&& opt_i32(info.cycle_count) == (match int_attr(n.cycle_count) {
        Some(c) => if 0 <= c <= i32::MAX {
            Some(c)
        } else {
            None
        },
        None => None,
    })
    &&& opt_i64(info.voltage_now) == int_attr(n.voltage_now)
    &&& opt_i64(info.current_now) == int_attr(n.current_now)
    &&& opt_i64(info.power_now) == opt_flow(int_attr(n.power_now), d)
    &&& opt_text(info.technology) == text_attr(n.technology)
    &&& opt_text(info.manufacturer) == text_attr(n.manufacturer)
    &&& opt_text(info.model) == text_attr(n.model_name)
    &&& opt_text(info.serial_number) == text_attr(n.serial_number)
    &&& if energy_family(n) {
        figures_fields(
            info,
            int_attr(n.energy_full),
            int_attr(n.energy_full_design),
            int_attr(n.energy_now),
            opt_flow(int_attr(n.power_now), d),
        )
    } else {
        figures_fields(
            info,
            int_attr(n.charge_full),
            int_attr(n.charge_full_design),
            int_attr(n.charge_now),
            opt_flow(int_attr(n.current_now), d),
        )
    }
}

fn text_equals(t: &String, lit: &str) -> (r: bool)
    ensures
        r == (t@ == lit@),
{
    let l = String::from_str(lit);
    *t == l
}

fn to_milli(x: i64) -> (r: Option<i32>)
    ensures
        opt_i32(r) == milli_of(x as int),
{
    let m: i64 = if x >= 0 {
        x / 1000
    } else {
        -((-(x as i128) / 1000) as i64)
    };
    if m < i32::MIN as i64 || m > i32::MAX as i64 {
        None
    } else {
        Some(m as i32)
    }
}

fn flow(a: Option<i64>, discharging: bool) -> (r: Option<i64>)
    ensures
        opt_i64(r) == opt_flow(opt_i64(a), discharging),
{
    match a {
        Some(x) => {
            if x == i64::MIN {
                None
            } else {
                let m = if x < 0 {
                    -x
                } else {
                    x
                };
                Some(
                    if discharging {
                        -m
                    } else {
                        m
                    },
                )
            }
        },
        None => None,
    }
}

fn opt_to_milli(x: Option<i64>) -> (r: Option<i32>)
    ensures
        opt_i32(r) == opt_milli(opt_i64(x)),
{
    match x {
        Some(v) => to_milli(v),
        None => None,
    }
}

/// Health, capacities and time estimates from the full, design and present
/// figures and a signed flow of one family of micro-units.
fn figures(full: Option<i64>, design: Option<i64>, now: Option<i64>, rate: Option<i64>) -> (r: (
    Option<i32>,
    Option<i32>,
    Option<i32>,
    Option<i32>,
    Option<i32>,
))
    ensures
        opt_i32(r.0) == (match (opt_i64(full), opt_i64(design)) {
            (Some(f), Some(d)) => ratio_percent(f, d),
            _ => None,
        }),
        opt_i32(r.1) == opt_milli(opt_i64(full)),
        opt_i32(r.2) == opt_milli(opt_i64(design)),
        (opt_i32(r.3), opt_i32(r.4)) == (match (opt_i64(now), opt_i64(full), opt_i64(rate)) {
            (Some(m), Some(f), Some(q)) => time_estimates_spec(m, f, q),
            _ => (None, None),
        }),
        r.0 matches Some(h) ==> 0 <= h <= 100,
        !(r.3 is Some && r.4 is Some),
{
    let health = match (full, design) {
        (Some(f), Some(d)) => health_percent(f, d),
        _ => None,
    };
    let (time_to_empty, time_to_full) = match (now, full, rate) {
        (Some(m), Some(f), Some(q)) => time_estimates(m, f, q),
        _ => (None, None),
    };
    (health, opt_to_milli(full), opt_to_milli(design), time_to_empty, time_to_full)
}

/// Normalizes the attributes of one device node. `None` unless the node's
/// type is `Battery` and its charge level reads as an integer within `i32`. Every other
/// attribute that is missing or does not parse is left absent. Capacity
/// figures come from the energy family when any energy figure reads, else
/// from the charge family.
pub fn from_sysfs(n: &SysfsAttributes) -> (out: Option<BatteryInfo>)
    ensures
        out is Some <==> node_usable(*n),
        out matches Some(info) ==> info.wf() && from_node_fields(info, *n),
{
    let kind = match read_text(&n.kind) {
        Some(k) => k,
        None => {
            return None;
        },
    };
    if !text_equals(&kind, "Battery") {
        return None;
    }
    let percent: i32 = match read_int(&n.capacity) {
        Some(c) => if c < i32::MIN as i64 || c > i32::MAX as i64 {
            return None;
        } else if c < 0 {
            0
        } else if c > 100 {
            100
        } else {
            c as i32
        },
        None => {
            return None;
        },
    };
    let status = read_text(&n.status);
    let discharging = match &status {
        Some(s) => text_equals(s, "Discharging"),
        None => false,
    };
    let cycle_count = match read_int(&n.cycle_count) {
        Some(c) => if 0 <= c && c <= i32::MAX as i64 {
            Some(c as i32)
        } else {
            None
        },
        None => None,
    };
    let voltage_now = read_int(&n.voltage_now);
    let current_now = read_int(&n.current_now);
    let power_now = flow(read_int(&n.power_now), discharging);
    let energy_full = read_int(&n.energy_full);
    let energy_full_design = read_int(&n.energy_full_design);
    let (health, capacity_full, capacity_design, time_to_empty, time_to_full) =
        if energy_full.is_some() || energy_full_design.is_some() {
        figures(energy_full, energy_full_design, read_int(&n.energy_now), power_now)
    } else {
        figures(
            read_int(&n.charge_full),
            read_int(&n.charge_full_design),
            read_int(&n.charge_now),
            flow(current_now, discharging),
        )
    };
    Some(
        BatteryInfo {
            percent,
            health,
            status,
            cycle_count,
            voltage_now,
            current_now,
            power_now,
            technology: read_text(&n.technology),
            manufacturer: read_text(&n.manufacturer),
            model: read_text(&n.model_name),
            serial_number: read_text(&n.serial_number),
            capacity_full,
            capacity_design,
            time_to_empty,
            time_to_full,
        },
    )
}

/// The first node that is a readable battery, normalized; nodes before it
/// are skipped. `None` when no node qualifies.
pub fn first_battery(nodes: &Vec<SysfsAttributes>) -> (out: Option<BatteryInfo>)
    ensures
        out is None <==> forall|i: int| 0 <= i < nodes@.len() ==> !node_usable(#[trigger] nodes@[i]),
        out matches Some(info) ==> exists|i: int|
            0 <= i < nodes@.len() && node_usable(#[trigger] nodes@[i]) && info.wf()
                && from_node_fields(info, nodes@[i]) && forall|j: int|
                0 <= j < i ==> !node_usable(#[trigger] nodes@[j]),
{
    let mut k: usize = 0;
    while k < nodes.len()
        invariant
            k <= nodes@.len(),
            forall|j: int| 0 <= j < k ==> !node_usable(#[trigger] nodes@[j]),
        decreases nodes@.len() - k,
    {
        match from_sysfs(&nodes[k]) {
            Some(info) => {
                return Some(info);
            },
            None => {},
        }
        k = k + 1;
    }
    None
}

} // verus!

verus! {

fn copy_text(o: &Option<String>) -> (r: Option<String>)
    ensures
        r == *o,
{
    match o {
        Some(s) => Some(s.clone()),
        None => None,
    }
}

impl BatteryInfo {
    /// A field-for-field copy.
    pub fn duplicate(&self) -> (r: BatteryInfo)
        ensures
            r == *self,
    {
        BatteryInfo {
            percent: self.percent,
            health: self.health,
            status: copy_text(&self.status),
            cycle_count: self.cycle_count,
            voltage_now: self.voltage_now,
            current_now: self.current_now,
            power_now: self.power_now,
            technology: copy_text(&self.technology),
            manufacturer: copy_text(&self.manufacturer),
            model: copy_text(&self.model),
            serial_number: copy_text(&self.serial_number),
            capacity_full: self.capacity_full,
            capacity_design: self.capacity_design,
            time_to_empty: self.time_to_empty,
            time_to_full: self.time_to_full,
        }
    }

    /// Whether every optional field is absent.
    pub open spec fn all_absent(&self) -> bool {
        &&& self.health is None && self.status is None && self.cycle_count is None
        &&& self.voltage_now is None && self.current_now is None && self.power_now is None
        &&& self.technology is None && self.manufacturer is None && self.model is None
        &&& self.serial_number is None && self.capacity_full is None
        &&& self.capacity_design is None && self.time_to_empty is None
        &&& self.time_to_full is None
    }
}

} // verus!
