//! Tests for the comparability and ordering rules.

use std::cmp::Ordering;

use california_reservoir::date::Date;
use california_reservoir::observation::{DataRecording, Duration, Observation};
use california_reservoir::timed_observation::{CoreObservation, TimedObservation};

fn obs(station: &str, duration: Duration, day: u32, value: u32) -> Observation {
    Observation {
        station_id: String::from(station),
        date_observation: Date { year: 2022, month: 2, day },
        date_recording: Date { year: 2022, month: 2, day },
        value: DataRecording::Recording(value),
        duration,
    }
}

fn payload(station: &str, day: u32) -> CoreObservation {
    CoreObservation {
        station_id: String::from(station),
        date_observation: Date { year: 2022, month: 2, day },
        date_recording: Date { year: 2022, month: 2, day },
        value: DataRecording::Recording(1),
    }
}

#[test]
fn same_subgroup_orders_by_observation_date() {
    let a = obs("VIL", Duration::Daily, 15, 9593);
    let b = obs("VIL", Duration::Daily, 16, 9589);
    assert_eq!(a.partial_cmp(&b), Some(Ordering::Less));
    assert_eq!(b.partial_cmp(&a), Some(Ordering::Greater));
    assert!(a < b);
    assert!(b > a);
    assert!(a <= b);
    assert!(b >= a);
}

#[test]
fn same_subgroup_same_date_is_ordered_equal() {
    let a = obs("VIL", Duration::Daily, 15, 9593);
    let b = obs("VIL", Duration::Daily, 15, 9601);
    assert_eq!(a.partial_cmp(&b), Some(Ordering::Equal));
    assert_eq!(b.partial_cmp(&a), Some(Ordering::Equal));
    assert!(a != b);
    assert!(a <= b && a >= b);
    assert!(!(a < b) && !(a > b));
}

#[test]
fn different_stations_are_incomparable() {
    let a = obs("VIL", Duration::Daily, 15, 9593);
    let b = obs("SHA", Duration::Daily, 16, 9589);
    assert_eq!(a.partial_cmp(&b), None);
    assert_eq!(b.partial_cmp(&a), None);
    assert!(!(a < b) && !(a > b) && !(a <= b) && !(a >= b));
}

#[test]
fn different_durations_are_incomparable() {
    let a = obs("VIL", Duration::Daily, 15, 9593);
    let b = obs("VIL", Duration::Monthly, 16, 9589);
    assert_eq!(a.partial_cmp(&b), None);
    assert_eq!(b.partial_cmp(&a), None);
}

#[test]
fn equal_observations_compare_equal() {
    let a = obs("VIL", Duration::Daily, 15, 9593);
    let b = obs("VIL", Duration::Daily, 15, 9593);
    assert_eq!(a, b);
    assert_eq!(a.partial_cmp(&b), Some(Ordering::Equal));
}

#[test]
fn timed_same_variant_orders_by_date() {
    let a = TimedObservation::Daily(payload("VIL", 15));
    let b = TimedObservation::Daily(payload("VIL", 16));
    assert_eq!(a.partial_cmp(&b), Some(Ordering::Less));
    assert!(a < b);
    let m1 = TimedObservation::Monthly(payload("VIL", 1));
    let m2 = TimedObservation::Monthly(payload("VIL", 2));
    assert_eq!(m1.partial_cmp(&m2), Some(Ordering::Less));
}

#[test]
fn timed_different_stations_are_incomparable() {
    let a = TimedObservation::Daily(payload("VIL", 15));
    let b = TimedObservation::Daily(payload("SHA", 16));
    assert_eq!(a.partial_cmp(&b), None);
    assert_eq!(b.partial_cmp(&a), None);
}

#[test]
fn daily_and_monthly_are_isolated_even_with_equal_payloads() {
    let d = TimedObservation::Daily(payload("VIL", 15));
    let m = TimedObservation::Monthly(payload("VIL", 15));
    assert!(d != m);
    assert!(m != d);
    assert_eq!(d.partial_cmp(&m), None);
    assert_eq!(m.partial_cmp(&d), None);
    assert!(!(d < m) && !(d > m) && !(d <= m) && !(d >= m));
}

#[test]
fn dates_compare_lexicographically() {
    let a = Date { year: 2021, month: 12, day: 31 };
    let b = Date { year: 2022, month: 1, day: 1 };
    assert_eq!(a.compare(&b), Ordering::Less);
    assert_eq!(b.compare(&a), Ordering::Greater);
    assert_eq!(a.compare(&a), Ordering::Equal);
}
