//! The validated observation record and its comparability rules.
//!
//! Two observations are comparable exactly when they agree on station and on
//! sampling granularity; comparable observations order chronologically by
//! observation date. Observations of different stations or granularities are
//! incomparable: `partial_cmp` returns no relation in either direction.

use vstd::prelude::*;
use core::cmp::Ordering;
use crate::date::Date;
use crate::text::{trim_seq, upper_seq};

verus! {

/// Failures of the wider observation pipeline. Retrieval-side errors live at
/// the same enumeration level as computation-side failures so that callers
/// see one error surface; the conversions in this crate themselves report
/// [`ConversionError`].
#[derive(Debug, PartialEq, Eq, Structural, Clone, Copy)]
pub enum ObservationError {
    HttpRequestError,
    HttpResponseParseError,
    ObservationCollectionError,
    FunctionFail,
}

/// The single opaque failure signal of every fallible conversion between the
/// raw, validated and granularity-tagged record forms.
#[derive(Debug, PartialEq, Eq, Structural, Clone, Copy)]
pub struct ConversionError;

/// Granularity tag of an observation: one reading per day or one per month.
#[derive(Debug, PartialEq, Eq, Structural, Clone, Copy)]
pub enum Duration {
    Daily,
    Monthly,
}

/// A tagged sensor reading: one of the three textual markers of the source
/// table, or a numeric storage value.
#[derive(Debug, PartialEq, Eq, Structural, Clone, Copy)]
pub enum DataRecording {
    Brt,
    Art,
    Dash,
    Recording(u32),
}

/// A validated reading for one station, one date, at one granularity.
#[derive(Debug, Clone)]
pub struct Observation {
    pub station_id: String,
    pub date_observation: Date,
    pub date_recording: Date,
    pub value: DataRecording,
    pub duration: Duration,
}

impl Observation {
    /// Well-formedness: both dates are real calendar days and the station
    /// identifier is already normalized (trimming and uppercasing it again
    /// would change nothing).
    pub open spec fn wf(self) -> bool {
        &&& self.date_observation.valid()
        &&& self.date_recording.valid()
        &&& upper_seq(trim_seq(self.station_id@)) == self.station_id@
    }

    /// Structural equality over all five fields.
    pub open spec fn same_as(self, other: Observation) -> bool {
        &&& self.station_id@ == other.station_id@
        &&& self.date_observation == other.date_observation
        &&& self.date_recording == other.date_recording
        &&& self.value == other.value
        &&& self.duration == other.duration
    }
}

/// The partial order over observations: comparable exactly when station and
/// granularity agree, and then ordered chronologically by observation date.
pub open spec fn obs_cmp(a: Observation, b: Observation) -> Option<Ordering> {
    if a.station_id@ != b.station_id@ {
        None
    } else if a.duration != b.duration {
        None
    } else {
        Some(a.date_observation.cmp_spec(b.date_observation))
    }
}

impl PartialEq for Observation {
    fn eq(&self, other: &Self) -> (r: bool) {
        self.date_observation == other.date_observation && self.date_recording
            == other.date_recording && self.station_id == other.station_id && self.value
            == other.value && self.duration == other.duration
    }
}

impl Eq for Observation {

}

impl vstd::std_specs::cmp::PartialEqSpecImpl for Observation {
    open spec fn obeys_eq_spec() -> bool {
        true
    }

    open spec fn eq_spec(&self, other: &Self) -> bool {
        self.same_as(*other)
    }
}

impl PartialOrd for Observation {
    fn partial_cmp(&self, other: &Self) -> (r: Option<Ordering>) {
        if !(self.station_id == other.station_id) {
            None
        } else if !(self.duration == other.duration) {
            None
        } else {
            Some(self.date_observation.compare(&other.date_observation))
        }
    }

    fn lt(&self, other: &Self) -> (r: bool) {
        matches!(self.partial_cmp(other), Some(Ordering::Less))
    }

    fn le(&self, other: &Self) -> (r: bool) {
        matches!(self.partial_cmp(other), Some(Ordering::Less | Ordering::Equal))
    }

    fn gt(&self, other: &Self) -> (r: bool) {
        matches!(self.partial_cmp(other), Some(Ordering::Greater))
    }

    fn ge(&self, other: &Self) -> (r: bool) {
        matches!(self.partial_cmp(other), Some(Ordering::Greater | Ordering::Equal))
    }
}

impl vstd::std_specs::cmp::PartialOrdSpecImpl for Observation {
    open spec fn obeys_partial_cmp_spec() -> bool {
        true
    }

    open spec fn partial_cmp_spec(&self, other: &Self) -> Option<Ordering> {
        obs_cmp(*self, *other)
    }
}

/// On a subgroup of equal station and equal granularity the partial order is
/// total: the two observations are always related, the relation is exactly
/// the chronological comparison of their observation dates, and exactly one
/// of before / ordered-equal / after holds. Structurally equal observations
/// are ordered equal.
pub proof fn lemma_order_total_on_subgroup(a: Observation, b: Observation)
    requires
        a.station_id@ == b.station_id@,
        a.duration == b.duration,
    ensures
        obs_cmp(a, b) == Some(a.date_observation.cmp_spec(b.date_observation)),
        obs_cmp(a, b) is Some,
        (obs_cmp(a, b) == Some(Ordering::Less) <==> a.date_observation.cmp_spec(b.date_observation)
            == Ordering::Less),
        (obs_cmp(a, b) == Some(Ordering::Equal) <==> a.date_observation == b.date_observation),
        (obs_cmp(a, b) == Some(Ordering::Greater) <==> a.date_observation.cmp_spec(
            b.date_observation,
        ) == Ordering::Greater),
        a.same_as(b) ==> obs_cmp(a, b) == Some(Ordering::Equal),
{
}

/// Observations of different stations or different granularities are
/// incomparable, in both directions.
pub proof fn lemma_order_incomparable(a: Observation, b: Observation)
    requires
        a.station_id@ != b.station_id@ || a.duration != b.duration,
    ensures
        obs_cmp(a, b) is None,
        obs_cmp(b, a) is None,
{
}

} // verus!
