//! The unvalidated tabular row, exactly as read from the source table.

use vstd::prelude::*;

verus! {

/// The character sequences of the nine row fields; the view of a
/// [`RawObservation`].
pub struct RawFields {
    pub station_id: Seq<char>,
    pub duration: Seq<char>,
    pub sensor_number: Seq<char>,
    pub sensor_type: Seq<char>,
    pub date_recording: Seq<char>,
    pub date_observation: Seq<char>,
    pub value: Seq<char>,
    pub data_flag: Seq<char>,
    pub units: Seq<char>,
}

/// One row of the tabular source, all fields as untyped text: station id,
/// duration code, sensor number, sensor type, recording timestamp,
/// observation timestamp, value, data-quality flag, units. Nothing is
/// validated here.
#[derive(Default, Debug, Clone, PartialEq)]
pub struct RawObservation {
    pub station_id: String,
    pub duration: String,
    pub sensor_number: String,
    pub sensor_type: String,
    pub date_recording: String,
    pub date_observation: String,
    pub value: String,
    pub data_flag: String,
    pub units: String,
}

impl View for RawObservation {
    type V = RawFields;

    open spec fn view(&self) -> RawFields {
        RawFields {
            station_id: self.station_id@,
            duration: self.duration@,
            sensor_number: self.sensor_number@,
            sensor_type: self.sensor_type@,
            date_recording: self.date_recording@,
            date_observation: self.date_observation@,
            value: self.value@,
            data_flag: self.data_flag@,
            units: self.units@,
        }
    }
}

} // verus!
