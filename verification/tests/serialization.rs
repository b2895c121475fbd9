//! Tests for the serialization adapter, the granularity partitioner, the
//! round trip, and reading raw rows out of CSV text.

use california_reservoir::conversions::normalize;
use california_reservoir::date::Date;
use california_reservoir::observation::{DataRecording, Duration, Observation};
use california_reservoir::raw_observation::RawObservation;
use california_reservoir::timed_observation::TimedObservation;

const STR_RESULT: &str = r#"STATION_ID,DURATION,SENSOR_NUMBER,SENSOR_TYPE,DATE TIME,OBS DATE,VALUE,DATA_FLAG,UNITS
VIL,D,15,STORAGE,20220215 0000,20220215 0000,9593, ,AF
VIL,D,15,STORAGE,20220216 0000,20220216 0000,9589, ,AF
VIL,D,15,STORAGE,20220217 0000,20220217 0000,9589, ,AF
VIL,D,15,STORAGE,20220218 0000,20220218 0000,9585, ,AF
VIL,D,15,STORAGE,20220219 0000,20220219 0000,9585, ,AF
VIL,D,15,STORAGE,20220220 0000,20220220 0000,9585, ,AF
VIL,D,15,STORAGE,20220221 0000,20220221 0000,9581, ,AF
VIL,D,15,STORAGE,20220222 0000,20220222 0000,9593, ,AF
VIL,D,15,STORAGE,20220223 0000,20220223 0000,9601, ,AF
VIL,D,15,STORAGE,20220224 0000,20220224 0000,9601, ,AF
VIL,D,15,STORAGE,20220225 0000,20220225 0000,9601, ,AF
VIL,D,15,STORAGE,20220226 0000,20220226 0000,9597, ,AF
VIL,D,15,STORAGE,20220227 0000,20220227 0000,9597, ,AF
VIL,D,15,STORAGE,20220228 0000,20220228 0000,9597, ,AF
"#;

fn row_from_record(headers: &csv::StringRecord, rec: &csv::StringRecord) -> RawObservation {
    let field = |name: &str| -> String {
        for (i, h) in headers.iter().enumerate() {
            if h == name {
                return rec.get(i).unwrap_or("").to_string();
            }
        }
        String::new()
    };
    RawObservation {
        station_id: field("STATION_ID"),
        duration: field("DURATION"),
        sensor_number: field("SENSOR_NUMBER"),
        sensor_type: field("SENSOR_TYPE"),
        date_recording: field("DATE TIME"),
        date_observation: field("OBS DATE"),
        value: field("VALUE"),
        data_flag: field("DATA_FLAG"),
        units: field("UNITS"),
    }
}

#[test]
fn test_daily_observation_serde_deserialization() {
    let expected = String::from("VIL");
    let mut rdr = csv::ReaderBuilder::new().delimiter(b',').from_reader(STR_RESULT.as_bytes());
    let headers = rdr.headers().unwrap().clone();
    for result in rdr.records() {
        let record = row_from_record(&headers, &result.unwrap());
        assert_eq!(expected, record.station_id);
    }
}

fn sample_observation() -> Observation {
    Observation {
        station_id: String::from("VIL"),
        date_observation: Date { year: 2022, month: 2, day: 15 },
        date_recording: Date { year: 2022, month: 2, day: 15 },
        value: DataRecording::Recording(9593),
        duration: Duration::Daily,
    }
}

#[test]
fn end_to_end_normalize_and_serialize() {
    let raw = RawObservation {
        station_id: String::from("VIL"),
        duration: String::from("D"),
        sensor_number: String::from("15"),
        sensor_type: String::from("STORAGE"),
        date_recording: String::from("20220215 0000"),
        date_observation: String::from("20220215 0000"),
        value: String::from("9593"),
        data_flag: String::from(" "),
        units: String::from("AF"),
    };
    let o = normalize(&raw).unwrap();
    assert_eq!(o, sample_observation());
    let back = o.to_raw().unwrap();
    let line = [
        back.station_id.as_str(),
        back.duration.as_str(),
        back.sensor_number.as_str(),
        back.sensor_type.as_str(),
        back.date_recording.as_str(),
        back.date_observation.as_str(),
        back.value.as_str(),
        back.data_flag.as_str(),
        back.units.as_str(),
    ]
    .join(",");
    assert_eq!(line, "VIL,D,15,STORAGE,20220215 0000,20220215 0000,9593,,AF");
}

#[test]
fn string_record_has_the_nine_columns_in_order() {
    let o = sample_observation();
    let rec = o.to_string_record().unwrap();
    let fields: Vec<&str> = rec.iter().collect();
    assert_eq!(
        fields,
        vec![
            "VIL",
            "D",
            "15",
            "STORAGE",
            "20220215 0000",
            "20220215 0000",
            "9593",
            "",
            "AF"
        ]
    );
}

#[test]
fn round_trip_is_identity_on_the_kept_fields() {
    let cases = vec![
        sample_observation(),
        Observation {
            station_id: String::from("SHA"),
            date_observation: Date { year: 2024, month: 2, day: 29 },
            date_recording: Date { year: 2024, month: 3, day: 1 },
            value: DataRecording::Brt,
            duration: Duration::Monthly,
        },
        Observation {
            station_id: String::from("X1"),
            date_observation: Date { year: 1000, month: 1, day: 1 },
            date_recording: Date { year: 9999, month: 12, day: 31 },
            value: DataRecording::Dash,
            duration: Duration::Daily,
        },
        Observation {
            station_id: String::from("ORO"),
            date_observation: Date { year: 2022, month: 7, day: 4 },
            date_recording: Date { year: 2022, month: 7, day: 4 },
            value: DataRecording::Art,
            duration: Duration::Monthly,
        },
        Observation {
            station_id: String::from("ZRO"),
            date_observation: Date { year: 2022, month: 7, day: 4 },
            date_recording: Date { year: 2022, month: 7, day: 4 },
            value: DataRecording::Recording(0),
            duration: Duration::Daily,
        },
    ];
    for o in cases {
        let raw = o.to_raw().unwrap();
        let back = normalize(&raw).unwrap();
        assert_eq!(back, o);
    }
}

#[test]
fn round_trip_loses_the_sensor_metadata() {
    let raw = RawObservation {
        station_id: String::from("VIL"),
        duration: String::from("D"),
        sensor_number: String::from("77"),
        sensor_type: String::from("FLOW"),
        date_recording: String::from("20220215 0000"),
        date_observation: String::from("20220215 0000"),
        value: String::from("9593"),
        data_flag: String::from("e"),
        units: String::from("CFS"),
    };
    let o = normalize(&raw).unwrap();
    let back = o.to_raw().unwrap();
    assert_eq!(back.sensor_number, "15");
    assert_eq!(back.sensor_type, "STORAGE");
    assert_eq!(back.units, "AF");
    assert_eq!(back.data_flag, "");
}

#[test]
fn partitioner_tags_by_duration_and_inverts() {
    let o = sample_observation();
    let t = o.clone().to_timed().unwrap();
    match &t {
        TimedObservation::Daily(c) => {
            assert_eq!(c.station_id, "VIL");
            assert_eq!(c.value, DataRecording::Recording(9593));
        }
        TimedObservation::Monthly(_) => panic!("daily observation got a monthly tag"),
    }
    let back = Observation::from_timed(t).unwrap();
    assert_eq!(back, o);

    let m = Observation { duration: Duration::Monthly, ..sample_observation() };
    let tm = m.clone().to_timed().unwrap();
    assert!(matches!(tm, TimedObservation::Monthly(_)));
    assert_eq!(Observation::from_timed(tm).unwrap(), m);
}

#[test]
fn serialization_uppercases_the_station_for_the_output_record() {
    let o = Observation { station_id: String::from("vil"), ..sample_observation() };
    let rec = o.to_string_record().unwrap();
    assert_eq!(rec.get(0), Some("VIL"));
}
