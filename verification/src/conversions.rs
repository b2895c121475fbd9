//! The conversion chain between the record forms.
//!
//! [`normalize`] turns a raw tabular row into a validated
//! [`Observation`], enforcing the field-level parsing rules; the granularity
//! partitioner re-expresses an observation as a [`TimedObservation`] and
//! back; and the serialization adapter reconstructs a tabular row, filling
//! the sensor metadata with fixed constants (a lossy round trip).

use vstd::prelude::*;
use chrono::Datelike;
use crate::date::{valid_ymd, Date};
use crate::observation::{ConversionError, DataRecording, Duration, Observation};
use crate::raw_observation::{RawFields, RawObservation};
use crate::text::{
    all_digits, append_two_digits, append_u32, dec_str, dec_val, is_digit_char,
    is_space_char, lemma_dec_str_len, lemma_dec_str_value, lemma_digit_roundtrip,
    lemma_parse_dec_str, lemma_trim_seq_ends, lemma_trim_untrimmed, lemma_two_digits_value,
    lemma_upper_char_facts, parse_u32, parse_u32_seq, push_char, to_upper, trim_seq, trim_str,
    two_digits, u32_string, upper_char, upper_seq,
};
use crate::timed_observation::{CoreObservation, TimedObservation};

verus! {

/// Station-identifier normalization: trim whitespace, uppercase.
pub open spec fn norm_station(s: Seq<char>) -> Seq<char> {
    upper_seq(trim_seq(s))
}

/// Duration-code normalization: after uppercasing and trimming, `D` means
/// daily and `M` means monthly; any other text is a validation error.
pub open spec fn norm_duration(s: Seq<char>) -> Option<Duration> {
    let t = trim_seq(upper_seq(s));
    if t == seq!['D'] {
        Some(Duration::Daily)
    } else if t == seq!['M'] {
        Some(Duration::Monthly)
    } else {
        None
    }
}

/// Value normalization: the trimmed text is matched case-sensitively against
/// the three marker literals; any other text is read as a decimal number,
/// and text that is no number is coerced to the numeric reading zero rather
/// than rejected.
pub open spec fn norm_value(s: Seq<char>) -> DataRecording {
    let t = trim_seq(s);
    if t == seq!['B', 'R', 'T'] {
        DataRecording::Brt
    } else if t == seq!['A', 'R', 'T'] {
        DataRecording::Art
    } else if t == seq!['-', '-', '-'] {
        DataRecording::Dash
    } else {
        match parse_u32_seq(t) {
            Some(u) => DataRecording::Recording(u),
            None => DataRecording::Recording(0),
        }
    }
}

/// Whether the value field's text was neither one of the three markers nor
/// a parseable number, so that normalization coerced it to the zero reading.
pub open spec fn value_coerced(s: Seq<char>) -> bool {
    let t = trim_seq(s);
    &&& t != seq!['B', 'R', 'T']
    &&& t != seq!['A', 'R', 'T']
    &&& t != seq!['-', '-', '-']
    &&& parse_u32_seq(t) is None
}

/// What to do with a value field that is neither a marker nor a parseable
/// number: coerce it to the numeric reading zero, as the source table's
/// consumers have always done, or reject the row as a validation error.
/// The coercion hides malformed readings behind a valid-looking zero, so
/// the choice is kept visible here instead of being wired in.
#[derive(Debug, PartialEq, Eq, Structural, Clone, Copy)]
pub enum NumericPolicy {
    CoerceToZero,
    Reject,
}

/// The year spelled by the first four characters of a date text.
pub open spec fn text_year(s: Seq<char>) -> int {
    dec_val(s.subrange(0, 4))
}

/// The month spelled by characters four and five of a date text.
pub open spec fn text_month(s: Seq<char>) -> int {
    dec_val(s.subrange(4, 6))
}

/// The day spelled by characters six and seven of a date text.
pub open spec fn text_day(s: Seq<char>) -> int {
    dec_val(s.subrange(6, 8))
}

/// A date text in the canonical shape of the source table: exactly
/// `YYYYMMDD HHMM`, all positions decimal digits but the single space, the
/// date a real calendar day, the time within range.
pub open spec fn canonical_date_text(s: Seq<char>) -> bool {
    &&& s.len() == 13
    &&& all_digits(s.subrange(0, 8))
    &&& s[8] == ' '
    &&& all_digits(s.subrange(9, 13))
    &&& valid_ymd(text_year(s), text_month(s), text_day(s))
    &&& dec_val(s.subrange(9, 11)) <= 23
    &&& dec_val(s.subrange(11, 13)) <= 59
}

/// What `chrono` makes of a date text that is not in the canonical shape.
pub uninterp spec fn chrono_date_of(s: Seq<char>) -> Option<(int, int, int)>;

/// The date a text denotes: a canonical text denotes the date its digits
/// spell; anything else denotes whatever the date parser of the `chrono`
/// crate accepts for it.
pub open spec fn parsed_date_spec(s: Seq<char>) -> Option<(int, int, int)> {
    if canonical_date_text(s) {
        Some((text_year(s), text_month(s), text_day(s)))
    } else {
        chrono_date_of(s)
    }
}

/// Relies on `chrono::NaiveDate::parse_from_str` with the format
/// `"%Y%m%d %H%M"`, and on the `Datelike` accessors `year`, `month` and
/// `day`: the result depends on the input characters alone; a parsed
/// `NaiveDate` always denotes a real day of the proleptic Gregorian
/// calendar; and a canonical `YYYYMMDD HHMM` text parses to exactly the date
/// its first eight digits spell.
#[verifier::external_body]
fn parse_date_text(s: &str) -> (r: Option<(i32, u32, u32)>)
    ensures
        match r {
            Some(t) => parsed_date_spec(s@) == Some((t.0 as int, t.1 as int, t.2 as int))
                && valid_ymd(t.0 as int, t.1 as int, t.2 as int),
            None => parsed_date_spec(s@) is None,
        },
        !canonical_date_text(s@) ==> (match r {
            Some(t) => chrono_date_of(s@) == Some((t.0 as int, t.1 as int, t.2 as int)),
            None => chrono_date_of(s@) is None,
        }),
{
    match chrono::NaiveDate::parse_from_str(s, "%Y%m%d %H%M") {
        Ok(d) => Some((d.year(), d.month(), d.day())),
        Err(_) => None,
    }
}

/// The calendar day a date field normalizes to: the field is trimmed and
/// parsed, the time of day is discarded, and the date must fit the
/// four-digit-year data model.
pub open spec fn date_model(s: Seq<char>) -> Option<Date> {
    match parsed_date_spec(trim_seq(s)) {
        Some(t) => if 0 <= t.0 <= 9999 && valid_ymd(t.0, t.1, t.2) {
            Some(Date { year: t.0 as u32, month: t.1 as u32, day: t.2 as u32 })
        } else {
            None
        },
        None => None,
    }
}

/// A raw row passes normalization exactly when its duration code and both
/// of its date fields do.
pub open spec fn norm_ok(v: RawFields) -> bool {
    &&& norm_duration(v.duration) is Some
    &&& date_model(v.date_observation) is Some
    &&& date_model(v.date_recording) is Some
}

fn normalize_date_field(s: &str) -> (r: Result<Date, ConversionError>)
    ensures
        r matches Ok(d) ==> date_model(s@) == Some(d) && d.valid(),
        r is Err ==> date_model(s@) is None,
{
    let t = trim_str(s);
    match parse_date_text(t) {
        Some(ymd) => {
            if ymd.0 < 0 || ymd.0 > 9999 {
                Err(ConversionError)
            } else {
                Ok(Date { year: ymd.0 as u32, month: ymd.1, day: ymd.2 })
            }
        },
        None => Err(ConversionError),
    }
}

fn normalize_duration_field(s: &str) -> (r: Result<Duration, ConversionError>)
    ensures
        r matches Ok(d) ==> norm_duration(s@) == Some(d),
        r is Err ==> norm_duration(s@) is None,
{
    let up = to_upper(s);
    let t = trim_str(up.as_str());
    let n: usize = t.unicode_len();
    if n == 1 && t.get_char(0) == 'D' {
        proof {
            assert(t@ =~= seq!['D']);
        }
        Ok(Duration::Daily)
    } else if n == 1 && t.get_char(0) == 'M' {
        proof {
            assert(t@ =~= seq!['M']);
        }
        Ok(Duration::Monthly)
    } else {
        proof {
            let u = trim_seq(upper_seq(s@));
            assert(u == t@);
            if u == seq!['D'] {
                assert(u.len() == 1 && u[0] == 'D');
            }
            if u == seq!['M'] {
                assert(u.len() == 1 && u[0] == 'M');
            }
        }
        Err(ConversionError)
    }
}

fn normalize_value_field(s: &str) -> (r: (DataRecording, bool))
    ensures
        r.0 == norm_value(s@),
        r.1 == value_coerced(s@),
{
    let t = trim_str(s);
    let n: usize = t.unicode_len();
    if n == 3 && t.get_char(0) == 'B' && t.get_char(1) == 'R' && t.get_char(2) == 'T' {
        proof {
            assert(t@ =~= seq!['B', 'R', 'T']);
        }
        (DataRecording::Brt, false)
    } else if n == 3 && t.get_char(0) == 'A' && t.get_char(1) == 'R' && t.get_char(2) == 'T' {
        proof {
            assert(t@ =~= seq!['A', 'R', 'T']);
        }
        (DataRecording::Art, false)
    } else if n == 3 && t.get_char(0) == '-' && t.get_char(1) == '-' && t.get_char(2) == '-' {
        proof {
            assert(t@ =~= seq!['-', '-', '-']);
        }
        (DataRecording::Dash, false)
    } else {
        proof {
            let u = trim_seq(s@);
            assert(u == t@);
            if u == seq!['B', 'R', 'T'] {
                assert(u.len() == 3 && u[0] == 'B' && u[1] == 'R' && u[2] == 'T');
            }
            if u == seq!['A', 'R', 'T'] {
                assert(u.len() == 3 && u[0] == 'A' && u[1] == 'R' && u[2] == 'T');
            }
            if u == seq!['-', '-', '-'] {
                assert(u.len() == 3 && u[0] == '-' && u[1] == '-' && u[2] == '-');
            }
        }
        match parse_u32(t) {
            Some(u) => (DataRecording::Recording(u), false),
            None => (DataRecording::Recording(0), true),
        }
    }
}

/// A normalized station identifier stays fixed under another round of
/// trimming and uppercasing.
pub proof fn lemma_norm_station_idempotent(s: Seq<char>)
    ensures
        norm_station(norm_station(s)) == norm_station(s),
{
    let t = trim_seq(s);
    let u = upper_seq(t);
    lemma_trim_seq_ends(s);
    if u.len() > 0 {
        lemma_upper_char_facts(t[0]);
        lemma_upper_char_facts(t[t.len() - 1]);
        assert(u[0] == upper_char(t[0]));
        assert(u.last() == upper_char(t[t.len() - 1]));
    }
    lemma_trim_untrimmed(u);
    assert(upper_seq(u) =~= u) by {
        assert forall|i: int| 0 <= i < u.len() implies upper_seq(u)[i] == u[i] by {
            lemma_upper_char_facts(t[i]);
        }
    }
}

/// Converts a raw tabular row into a validated observation.
///
/// The station identifier is trimmed and uppercased; the duration code must
/// normalize to `D` or `M`; both date fields must parse as `YYYYMMDD HHMM`
/// calendar dates (the time of day is discarded); the value field maps to
/// one of the three markers, to the number it spells, or — if it is neither
/// — to the numeric reading zero. Any field failure rejects the whole row.
pub fn normalize(raw: &RawObservation) -> (r: Result<Observation, ConversionError>)
    ensures
        r is Ok <==> norm_ok(raw@),
        r matches Ok(o) ==> {
            &&& o.wf()
            &&& o.station_id@ == norm_station(raw@.station_id)
            &&& norm_duration(raw@.duration) == Some(o.duration)
            &&& date_model(raw@.date_observation) == Some(o.date_observation)
            &&& date_model(raw@.date_recording) == Some(o.date_recording)
            &&& o.value == norm_value(raw@.value)
        },
{
    let station_id = to_upper(trim_str(raw.station_id.as_str()));
    let duration = match normalize_duration_field(raw.duration.as_str()) {
        Ok(d) => d,
        Err(e) => {
            return Err(e);
        },
    };
    let date_observation = match normalize_date_field(raw.date_observation.as_str()) {
        Ok(d) => d,
        Err(e) => {
            return Err(e);
        },
    };
    let date_recording = match normalize_date_field(raw.date_recording.as_str()) {
        Ok(d) => d,
        Err(e) => {
            return Err(e);
        },
    };
    let value = normalize_value_field(raw.value.as_str()).0;
    proof {
        lemma_norm_station_idempotent(raw.station_id@);
    }
    Ok(Observation { station_id, date_observation, date_recording, value, duration })
}

/// [`normalize`], with the treatment of unparseable numeric value text made
/// explicit: under [`NumericPolicy::CoerceToZero`] this is exactly
/// [`normalize`]; under [`NumericPolicy::Reject`] a value field that is
/// neither a marker nor a number rejects the row instead of becoming a zero
/// reading.
pub fn normalize_with_policy(raw: &RawObservation, policy: NumericPolicy) -> (r: Result<
    Observation,
    ConversionError,
>)
    ensures
        r is Ok <==> (norm_ok(raw@) && (policy == NumericPolicy::Reject ==> !value_coerced(
            raw@.value,
        ))),
        r matches Ok(o) ==> {
            &&& o.wf()
            &&& o.station_id@ == norm_station(raw@.station_id)
            &&& norm_duration(raw@.duration) == Some(o.duration)
            &&& date_model(raw@.date_observation) == Some(o.date_observation)
            &&& date_model(raw@.date_recording) == Some(o.date_recording)
            &&& o.value == norm_value(raw@.value)
        },
{
    let coerced = normalize_value_field(raw.value.as_str()).1;
    if coerced && matches!(policy, NumericPolicy::Reject) {
        return Err(ConversionError);
    }
    normalize(raw)
}

/// The granularity-tagged form of an observation: the payload fields are
/// copied and the duration becomes the variant.
pub open spec fn timed_of(o: Observation) -> TimedObservation {
    let c = CoreObservation {
        station_id: o.station_id,
        date_observation: o.date_observation,
        date_recording: o.date_recording,
        value: o.value,
    };
    match o.duration {
        Duration::Daily => TimedObservation::Daily(c),
        Duration::Monthly => TimedObservation::Monthly(c),
    }
}

/// The plain form of a granularity-tagged observation: the variant becomes
/// the duration field again.
pub open spec fn untimed_of(t: TimedObservation) -> Observation {
    Observation {
        station_id: t.payload().station_id,
        date_observation: t.payload().date_observation,
        date_recording: t.payload().date_recording,
        value: t.payload().value,
        duration: t.granularity(),
    }
}

impl Observation {
    /// Re-expresses the observation with its granularity as the variant tag.
    /// The conversion itself always succeeds; the `Result` keeps the uniform
    /// fallible-conversion interface.
    pub fn to_timed(self) -> (r: Result<TimedObservation, ConversionError>)
        ensures
            r == Ok::<TimedObservation, ConversionError>(timed_of(self)),
    {
        let duration = self.duration;
        let c = CoreObservation {
            station_id: self.station_id,
            date_observation: self.date_observation,
            date_recording: self.date_recording,
            value: self.value,
        };
        match duration {
            Duration::Daily => Ok(TimedObservation::Daily(c)),
            Duration::Monthly => Ok(TimedObservation::Monthly(c)),
        }
    }

    /// Rebuilds the plain observation from the granularity-tagged form.
    /// Always succeeds; the `Result` keeps the uniform interface.
    pub fn from_timed(t: TimedObservation) -> (r: Result<Observation, ConversionError>)
        ensures
            r == Ok::<Observation, ConversionError>(untimed_of(t)),
    {
        match t {
            TimedObservation::Daily(c) => Ok(
                Observation {
                    station_id: c.station_id,
                    date_observation: c.date_observation,
                    date_recording: c.date_recording,
                    value: c.value,
                    duration: Duration::Daily,
                },
            ),
            TimedObservation::Monthly(c) => Ok(
                Observation {
                    station_id: c.station_id,
                    date_observation: c.date_observation,
                    date_recording: c.date_recording,
                    value: c.value,
                    duration: Duration::Monthly,
                },
            ),
        }
    }
}

/// Converts a raw tabular row straight into a granularity-tagged
/// observation: normalization followed by the partitioner.
pub fn normalize_timed(raw: &RawObservation) -> (r: Result<TimedObservation, ConversionError>)
    ensures
        r is Ok <==> norm_ok(raw@),
        r matches Ok(t) ==> {
            &&& t.payload().station_id@ == norm_station(raw@.station_id)
            &&& norm_duration(raw@.duration) == Some(t.granularity())
            &&& date_model(raw@.date_observation) == Some(t.payload().date_observation)
            &&& date_model(raw@.date_recording) == Some(t.payload().date_recording)
            &&& t.payload().value == norm_value(raw@.value)
        },
{
    match normalize(raw) {
        Ok(o) => o.to_timed(),
        Err(e) => Err(e),
    }
}

/// The single-letter duration code of the tabular source.
pub open spec fn duration_code(d: Duration) -> Seq<char> {
    match d {
        Duration::Daily => seq!['D'],
        Duration::Monthly => seq!['M'],
    }
}

/// The `YYYYMMDD HHMM` text of a date, with the time fixed to `0000`.
pub open spec fn date_text(d: Date) -> Seq<char> {
    dec_str(d.year as int) + two_digits(d.month as int) + two_digits(d.day as int) + seq![
        ' ',
        '0',
        '0',
        '0',
        '0',
    ]
}

/// The value field text: the marker literals, or the decimal digits of the
/// numeric reading.
pub open spec fn value_text(v: DataRecording) -> Seq<char> {
    match v {
        DataRecording::Brt => seq!['B', 'R', 'T'],
        DataRecording::Art => seq!['A', 'R', 'T'],
        DataRecording::Dash => seq!['-', '-', '-'],
        DataRecording::Recording(a) => dec_str(a as int),
    }
}

/// The raw row serialized from an observation: station, duration code and
/// dates are reconstructed; sensor number, sensor type, units and data flag
/// are the adapter's fixed constants, since the observation does not retain
/// them.
pub open spec fn serial_fields(o: Observation) -> RawFields {
    RawFields {
        station_id: o.station_id@,
        duration: duration_code(o.duration),
        sensor_number: seq!['1', '5'],
        sensor_type: seq!['S', 'T', 'O', 'R', 'A', 'G', 'E'],
        date_recording: date_text(o.date_recording),
        date_observation: date_text(o.date_observation),
        value: value_text(o.value),
        data_flag: Seq::<char>::empty(),
        units: seq!['A', 'F'],
    }
}

fn date_string(d: &Date) -> (r: String)
    requires
        d.valid(),
    ensures
        r@ == date_text(*d),
{
    let mut out = String::new();
    append_u32(&mut out, d.year);
    append_two_digits(&mut out, d.month);
    append_two_digits(&mut out, d.day);
    push_char(&mut out, ' ');
    push_char(&mut out, '0');
    push_char(&mut out, '0');
    push_char(&mut out, '0');
    push_char(&mut out, '0');
    proof {
        assert(out@ =~= date_text(*d));
    }
    out
}

fn value_string(v: &DataRecording) -> (r: String)
    ensures
        r@ == value_text(*v),
{
    match v {
        DataRecording::Brt => {
            let r = String::from_str("BRT");
            proof {
                reveal_strlit("BRT");
                assert(r@ =~= seq!['B', 'R', 'T']);
            }
            r
        },
        DataRecording::Art => {
            let r = String::from_str("ART");
            proof {
                reveal_strlit("ART");
                assert(r@ =~= seq!['A', 'R', 'T']);
            }
            r
        },
        DataRecording::Dash => {
            let r = String::from_str("---");
            proof {
                reveal_strlit("---");
                assert(r@ =~= seq!['-', '-', '-']);
            }
            r
        },
        DataRecording::Recording(a) => u32_string(*a),
    }
}

impl Observation {
    /// Serializes the observation back into a raw tabular row. The sensor
    /// metadata is filled with the adapter's constants, so the round trip
    /// through [`normalize`] is lossy in those fields and exact in the
    /// others. Always succeeds; the `Result` keeps the uniform interface.
    pub fn to_raw(&self) -> (r: Result<RawObservation, ConversionError>)
        requires
            self.date_observation.valid(),
            self.date_recording.valid(),
        ensures
            r matches Ok(raw) && raw@ == serial_fields(*self),
    {
        let station_id = self.station_id.clone();
        let duration = match self.duration {
            Duration::Daily => {
                let d = String::from_str("D");
                proof {
                    reveal_strlit("D");
                    assert(d@ =~= seq!['D']);
                }
                d
            },
            Duration::Monthly => {
                let m = String::from_str("M");
                proof {
                    reveal_strlit("M");
                    assert(m@ =~= seq!['M']);
                }
                m
            },
        };
        let sensor_number = String::from_str("15");
        let sensor_type = String::from_str("STORAGE");
        let date_recording = date_string(&self.date_recording);
        let date_observation = date_string(&self.date_observation);
        let value = value_string(&self.value);
        let data_flag = String::new();
        let units = String::from_str("AF");
        proof {
            reveal_strlit("15");
            reveal_strlit("STORAGE");
            reveal_strlit("AF");
            assert(sensor_number@ =~= seq!['1', '5']);
            assert(sensor_type@ =~= seq!['S', 'T', 'O', 'R', 'A', 'G', 'E']);
            assert(units@ =~= seq!['A', 'F']);
        }
        Ok(
            RawObservation {
                station_id,
                duration,
                sensor_number,
                sensor_type,
                date_recording,
                date_observation,
                value,
                data_flag,
                units,
            },
        )
    }
}

/// The `csv` crate's record type, used for the tabular output rows.
#[verifier::external_type_specification]
#[verifier::external_body]
pub struct ExStringRecord(csv::StringRecord);

/// The fields a `csv::StringRecord` holds, as character sequences.
pub uninterp spec fn record_fields(r: csv::StringRecord) -> Seq<Seq<char>>;

/// Relies on `csv::ByteRecord::from` and `csv::StringRecord::from_byte_record`:
/// a record built from the nine fields of a row holds exactly those nine
/// fields, and the conversion cannot fail because the fields of a
/// `RawObservation` are `String`s and therefore valid UTF-8.
#[verifier::external_body]
fn record_of_row(row: &RawObservation) -> (r: csv::StringRecord)
    ensures
        record_fields(r) == seq![
            row.station_id@,
            row.duration@,
            row.sensor_number@,
            row.sensor_type@,
            row.date_recording@,
            row.date_observation@,
            row.value@,
            row.data_flag@,
            row.units@,
        ],
{
    let b = csv::ByteRecord::from(vec![
        row.station_id.as_str(),
        row.duration.as_str(),
        row.sensor_number.as_str(),
        row.sensor_type.as_str(),
        row.date_recording.as_str(),
        row.date_observation.as_str(),
        row.value.as_str(),
        row.data_flag.as_str(),
        row.units.as_str(),
    ]);
    csv::StringRecord::from_byte_record(b).unwrap()
}

impl Observation {
    /// Serializes the observation into a `csv` output record, in the column
    /// order of the source table. The station identifier is uppercased once
    /// more, as the adapter does; the sensor metadata is the adapter's
    /// constants. Always succeeds; the `Result` keeps the uniform interface.
    pub fn to_string_record(&self) -> (r: Result<csv::StringRecord, ConversionError>)
        requires
            self.date_observation.valid(),
            self.date_recording.valid(),
        ensures
            r matches Ok(rec) && record_fields(rec) == seq![
                upper_seq(self.station_id@),
                duration_code(self.duration),
                seq!['1', '5'],
                seq!['S', 'T', 'O', 'R', 'A', 'G', 'E'],
                date_text(self.date_recording),
                date_text(self.date_observation),
                value_text(self.value),
                Seq::<char>::empty(),
                seq!['A', 'F'],
            ],
    {
        let raw = match self.to_raw() {
            Ok(raw) => raw,
            Err(e) => {
                return Err(e);
            },
        };
        let station_id = to_upper(raw.station_id.as_str());
        let row = RawObservation {
            station_id,
            duration: raw.duration,
            sensor_number: raw.sensor_number,
            sensor_type: raw.sensor_type,
            date_recording: raw.date_recording,
            date_observation: raw.date_observation,
            value: raw.value,
            data_flag: raw.data_flag,
            units: raw.units,
        };
        Ok(record_of_row(&row))
    }
}

proof fn lemma_duration_roundtrip(d: Duration)
    ensures
        norm_duration(duration_code(d)) == Some(d),
{
    let code = duration_code(d);
    assert(upper_seq(code) =~= code);
    lemma_trim_untrimmed(upper_seq(code));
    match d {
        Duration::Daily => {
            assert(trim_seq(upper_seq(code)) == seq!['D']);
        },
        Duration::Monthly => {
            assert(trim_seq(upper_seq(code)) == seq!['M']);
            assert(seq!['M'] != seq!['D']) by {
                assert(seq!['M'][0] == 'M' && seq!['D'][0] == 'D');
            };
        },
    }
}

proof fn lemma_date_roundtrip(d: Date)
    requires
        d.valid(),
        d.year >= 1000,
    ensures
        date_model(date_text(d)) == Some(d),
{
    let y = d.year as int;
    let m = d.month as int;
    let dd = d.day as int;
    let s = date_text(d);
    lemma_dec_str_value(y);
    lemma_dec_str_len(y);
    lemma_two_digits_value(m);
    lemma_two_digits_value(dd);
    lemma_two_digits_value(0);
    assert(s.len() == 13);
    assert(s.subrange(0, 4) =~= dec_str(y));
    assert(s.subrange(4, 6) =~= two_digits(m));
    assert(s.subrange(6, 8) =~= two_digits(dd));
    assert(s.subrange(9, 11) =~= two_digits(0));
    assert(s.subrange(11, 13) =~= two_digits(0));
    assert(s.subrange(9, 13) =~= two_digits(0) + two_digits(0));
    assert(all_digits(s.subrange(0, 8))) by {
        assert forall|i: int| 0 <= i < 8 implies is_digit_char(s.subrange(0, 8)[i]) by {
            if i < 4 {
                assert(s.subrange(0, 8)[i] == dec_str(y)[i]);
            } else if i < 6 {
                assert(s.subrange(0, 8)[i] == two_digits(m)[i - 4]);
            } else {
                assert(s.subrange(0, 8)[i] == two_digits(dd)[i - 6]);
            }
        }
    };
    assert(s[8] == ' ');
    assert(all_digits(s.subrange(9, 13))) by {
        assert forall|i: int| 0 <= i < 4 implies is_digit_char(s.subrange(9, 13)[i]) by {
            if i < 2 {
                assert(s.subrange(9, 13)[i] == two_digits(0)[i]);
            } else {
                assert(s.subrange(9, 13)[i] == two_digits(0)[i - 2]);
            }
        }
    };
    assert(text_year(s) == y);
    assert(text_month(s) == m);
    assert(text_day(s) == dd);
    assert(dec_val(s.subrange(9, 11)) == 0);
    assert(dec_val(s.subrange(11, 13)) == 0);
    assert(canonical_date_text(s));
    assert(!is_space_char(s[0])) by {
        assert(s[0] == dec_str(y)[0]);
    };
    assert(!is_space_char(s[12])) by {
        assert(s[12] == two_digits(0)[1]);
        lemma_digit_roundtrip(0);
    };
    lemma_trim_untrimmed(s);
    assert(parsed_date_spec(trim_seq(s)) == Some((y, m, dd)));
    assert(date_model(s) == Some(Date { year: y as u32, month: m as u32, day: dd as u32 }));
    assert(Date { year: y as u32, month: m as u32, day: dd as u32 } == d);
}

proof fn lemma_value_roundtrip(v: DataRecording)
    ensures
        norm_value(value_text(v)) == v,
{
    let s = value_text(v);
    match v {
        DataRecording::Brt => {
            lemma_trim_untrimmed(s);
        },
        DataRecording::Art => {
            lemma_trim_untrimmed(s);
            assert(s != seq!['B', 'R', 'T']) by {
                assert(s[0] == 'A');
            };
        },
        DataRecording::Dash => {
            lemma_trim_untrimmed(s);
            assert(s != seq!['B', 'R', 'T']) by {
                assert(s[0] == '-');
            };
            assert(s != seq!['A', 'R', 'T']) by {
                assert(s[0] == '-');
            };
        },
        DataRecording::Recording(a) => {
            lemma_dec_str_value(a as int);
            lemma_trim_untrimmed(s);
            assert(s != seq!['B', 'R', 'T']) by {
                assert(seq!['B', 'R', 'T'][0] == 'B');
            };
            assert(s != seq!['A', 'R', 'T']) by {
                assert(seq!['A', 'R', 'T'][0] == 'A');
            };
            assert(s != seq!['-', '-', '-']) by {
                assert(seq!['-', '-', '-'][0] == '-');
            };
            lemma_parse_dec_str(a);
        },
    }
}

/// The lossy round trip: serializing a well-formed observation and
/// normalizing the row again gives back the observation, field for field.
/// Only the sensor metadata is lost, since the adapter fills it with fixed
/// constants. The observation dates must have four-digit years, the shape
/// in which the adapter prints and the normalizer reads them.
pub proof fn lemma_round_trip(o: Observation)
    requires
        o.wf(),
        o.date_observation.year >= 1000,
        o.date_recording.year >= 1000,
    ensures
        norm_ok(serial_fields(o)),
        norm_station(serial_fields(o).station_id) == o.station_id@,
        norm_duration(serial_fields(o).duration) == Some(o.duration),
        date_model(serial_fields(o).date_observation) == Some(o.date_observation),
        date_model(serial_fields(o).date_recording) == Some(o.date_recording),
        norm_value(serial_fields(o).value) == o.value,
{
    lemma_duration_roundtrip(o.duration);
    lemma_date_roundtrip(o.date_observation);
    lemma_date_roundtrip(o.date_recording);
    lemma_value_roundtrip(o.value);
}


} // verus!
