//! Tests for the normalizer: field rules, rejection, coercion.

use california_reservoir::conversions::{normalize, normalize_with_policy, NumericPolicy};
use california_reservoir::date::Date;
use california_reservoir::observation::{DataRecording, Duration};
use california_reservoir::raw_observation::RawObservation;

fn row(station: &str, duration: &str, date_rec: &str, date_obs: &str, value: &str) -> RawObservation {
    RawObservation {
        station_id: String::from(station),
        duration: String::from(duration),
        sensor_number: String::from("15"),
        sensor_type: String::from("STORAGE"),
        date_recording: String::from(date_rec),
        date_observation: String::from(date_obs),
        value: String::from(value),
        data_flag: String::from(" "),
        units: String::from("AF"),
    }
}

#[test]
fn normalize_accepts_a_plain_daily_row() {
    let o = normalize(&row("VIL", "D", "20220215 0000", "20220215 0000", "9593")).unwrap();
    assert_eq!(o.station_id, "VIL");
    assert_eq!(o.duration, Duration::Daily);
    assert_eq!(o.date_observation, Date { year: 2022, month: 2, day: 15 });
    assert_eq!(o.date_recording, Date { year: 2022, month: 2, day: 15 });
    assert_eq!(o.value, DataRecording::Recording(9593));
}

#[test]
fn normalize_trims_and_uppercases_the_station() {
    let o = normalize(&row("  vil ", "D", "20220215 0000", "20220215 0000", "0")).unwrap();
    assert_eq!(o.station_id, "VIL");
}

#[test]
fn normalize_reads_the_duration_code_case_insensitively() {
    let o = normalize(&row("VIL", " m ", "20220215 0000", "20220215 0000", "0")).unwrap();
    assert_eq!(o.duration, Duration::Monthly);
}

#[test]
fn normalize_rejects_a_bad_duration_code() {
    assert!(normalize(&row("VIL", "X", "20220215 0000", "20220215 0000", "9593")).is_err());
}

#[test]
fn normalize_rejects_a_malformed_observation_date() {
    assert!(normalize(&row("VIL", "D", "20220215 0000", "2022-13-40 0000", "9593")).is_err());
}

#[test]
fn normalize_rejects_an_impossible_calendar_day() {
    assert!(normalize(&row("VIL", "D", "20220215 0000", "20220230 0000", "9593")).is_err());
}

#[test]
fn normalize_accepts_a_leap_day() {
    let o = normalize(&row("VIL", "D", "20240229 0000", "20240229 0000", "1")).unwrap();
    assert_eq!(o.date_observation, Date { year: 2024, month: 2, day: 29 });
}

#[test]
fn normalize_coerces_unparseable_values_to_zero() {
    let o = normalize(&row("VIL", "D", "20220215 0000", "20220215 0000", "abc")).unwrap();
    assert_eq!(o.value, DataRecording::Recording(0));
}

#[test]
fn normalize_coerces_an_overflowing_value_to_zero() {
    let o = normalize(&row("VIL", "D", "20220215 0000", "20220215 0000", "4294967296")).unwrap();
    assert_eq!(o.value, DataRecording::Recording(0));
    let o = normalize(&row("VIL", "D", "20220215 0000", "20220215 0000", "4294967295")).unwrap();
    assert_eq!(o.value, DataRecording::Recording(4294967295));
}

#[test]
fn normalize_accepts_a_plus_signed_value() {
    let o = normalize(&row("VIL", "D", "20220215 0000", "20220215 0000", "+123")).unwrap();
    assert_eq!(o.value, DataRecording::Recording(123));
}

#[test]
fn normalize_maps_the_three_markers() {
    let brt = normalize(&row("VIL", "D", "20220215 0000", "20220215 0000", " BRT ")).unwrap();
    assert_eq!(brt.value, DataRecording::Brt);
    let art = normalize(&row("VIL", "D", "20220215 0000", "20220215 0000", "ART")).unwrap();
    assert_eq!(art.value, DataRecording::Art);
    let dash = normalize(&row("VIL", "D", "20220215 0000", "20220215 0000", "---")).unwrap();
    assert_eq!(dash.value, DataRecording::Dash);
}

#[test]
fn normalize_treats_lowercase_markers_as_numbers_and_coerces() {
    let o = normalize(&row("VIL", "D", "20220215 0000", "20220215 0000", "brt")).unwrap();
    assert_eq!(o.value, DataRecording::Recording(0));
}

#[test]
fn reject_policy_refuses_unparseable_values() {
    let bad = row("VIL", "D", "20220215 0000", "20220215 0000", "abc");
    assert!(normalize_with_policy(&bad, NumericPolicy::Reject).is_err());
    let o = normalize_with_policy(&bad, NumericPolicy::CoerceToZero).unwrap();
    assert_eq!(o.value, DataRecording::Recording(0));
    let num = row("VIL", "D", "20220215 0000", "20220215 0000", "9593");
    let o = normalize_with_policy(&num, NumericPolicy::Reject).unwrap();
    assert_eq!(o.value, DataRecording::Recording(9593));
    let brt = row("VIL", "D", "20220215 0000", "20220215 0000", "BRT");
    let o = normalize_with_policy(&brt, NumericPolicy::Reject).unwrap();
    assert_eq!(o.value, DataRecording::Brt);
}
