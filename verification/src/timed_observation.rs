//! Observations re-tagged by sampling granularity.
//!
//! A [`TimedObservation`] carries the granularity in its variant instead of a
//! field, so a daily payload can never carry a monthly tag. Two values of
//! different variants are never equal and never ordered, whatever their
//! payloads; within one variant the comparability rule of plain observations
//! applies.

use vstd::prelude::*;
use core::cmp::Ordering;
use crate::date::Date;
use crate::observation::{DataRecording, Duration};

verus! {

/// The granularity-agnostic payload shared by both variants: station, both
/// dates, and the tagged reading.
#[derive(Debug, Clone)]
pub struct CoreObservation {
    pub station_id: String,
    pub date_observation: Date,
    pub date_recording: Date,
    pub value: DataRecording,
}

/// An observation whose granularity is part of the variant.
#[derive(Debug, Clone)]
pub enum TimedObservation {
    Monthly(CoreObservation),
    Daily(CoreObservation),
}

impl CoreObservation {
    /// Structural equality over all four fields.
    pub open spec fn same_as(self, other: CoreObservation) -> bool {
        &&& self.station_id@ == other.station_id@
        &&& self.date_observation == other.date_observation
        &&& self.date_recording == other.date_recording
        &&& self.value == other.value
    }
}

impl TimedObservation {
    /// The payload, without the granularity tag.
    pub open spec fn payload(self) -> CoreObservation {
        match self {
            TimedObservation::Daily(c) => c,
            TimedObservation::Monthly(c) => c,
        }
    }

    /// The granularity encoded by the variant.
    pub open spec fn granularity(self) -> Duration {
        match self {
            TimedObservation::Daily(_) => Duration::Daily,
            TimedObservation::Monthly(_) => Duration::Monthly,
        }
    }

    /// Structural equality: same variant, same payload.
    pub open spec fn same_as(self, other: TimedObservation) -> bool {
        self.granularity() == other.granularity() && self.payload().same_as(other.payload())
    }
}

/// The partial order over granularity-tagged observations: values of
/// different variants are incomparable; within one variant, comparable
/// exactly when the stations agree, ordered chronologically by observation
/// date.
pub open spec fn timed_cmp(a: TimedObservation, b: TimedObservation) -> Option<Ordering> {
    if a.granularity() != b.granularity() {
        None
    } else if a.payload().station_id@ != b.payload().station_id@ {
        None
    } else {
        Some(a.payload().date_observation.cmp_spec(b.payload().date_observation))
    }
}

impl PartialEq for CoreObservation {
    fn eq(&self, other: &Self) -> (r: bool) {
        self.station_id == other.station_id && self.date_observation == other.date_observation
            && self.date_recording == other.date_recording && self.value == other.value
    }
}

impl Eq for CoreObservation {

}

impl vstd::std_specs::cmp::PartialEqSpecImpl for CoreObservation {
    open spec fn obeys_eq_spec() -> bool {
        true
    }

    open spec fn eq_spec(&self, other: &Self) -> bool {
        self.same_as(*other)
    }
}

impl PartialEq for TimedObservation {
    fn eq(&self, other: &Self) -> (r: bool) {
        match (self, other) {
            (TimedObservation::Monthly(l), TimedObservation::Monthly(r)) => l == r,
            (TimedObservation::Daily(l), TimedObservation::Daily(r)) => l == r,
            _ => false,
        }
    }
}

impl Eq for TimedObservation {

}

impl vstd::std_specs::cmp::PartialEqSpecImpl for TimedObservation {
    open spec fn obeys_eq_spec() -> bool {
        true
    }

    open spec fn eq_spec(&self, other: &Self) -> bool {
        self.same_as(*other)
    }
}

impl PartialOrd for TimedObservation {
    fn partial_cmp(&self, other: &Self) -> (r: Option<Ordering>) {
        match (self, other) {
            (TimedObservation::Daily(a), TimedObservation::Daily(b)) => {
                if !(a.station_id == b.station_id) {
                    None
                } else {
                    Some(a.date_observation.compare(&b.date_observation))
                }
            },
            (TimedObservation::Monthly(a), TimedObservation::Monthly(b)) => {
                if !(a.station_id == b.station_id) {
                    None
                } else {
                    Some(a.date_observation.compare(&b.date_observation))
                }
            },
            _ => None,
        }
    }

    fn lt(&self, other: &Self) -> (r: bool) {
        matches!(self.partial_cmp(other), Some(Ordering::Less))
    }

    fn le(&self, other: &Self) -> (r: bool) {
        matches!(self.partial_cmp(other), Some(Ordering::Less | Ordering::Equal))
    }

    fn gt(&self, other: &Self) -> (r: bool) {
        matches!(self.partial_cmp(other), Some(Ordering::Greater))
    }

    fn ge(&self, other: &Self) -> (r: bool) {
        matches!(self.partial_cmp(other), Some(Ordering::Greater | Ordering::Equal))
    }
}

impl vstd::std_specs::cmp::PartialOrdSpecImpl for TimedObservation {
    open spec fn obeys_partial_cmp_spec() -> bool {
        true
    }

    open spec fn partial_cmp_spec(&self, other: &Self) -> Option<Ordering> {
        timed_cmp(*self, *other)
    }
}

/// Variant isolation: a daily value is never equal to, nor ordered relative
/// to, a monthly value, regardless of the payloads.
pub proof fn lemma_variant_isolation(x: CoreObservation, y: CoreObservation)
    ensures
        !TimedObservation::Daily(x).same_as(TimedObservation::Monthly(y)),
        !TimedObservation::Monthly(y).same_as(TimedObservation::Daily(x)),
        timed_cmp(TimedObservation::Daily(x), TimedObservation::Monthly(y)) is None,
        timed_cmp(TimedObservation::Monthly(y), TimedObservation::Daily(x)) is None,
{
}

/// Within one variant the comparability rule of plain observations applies:
/// equal stations make the pair totally ordered by observation date, and
/// different stations make it incomparable in both directions.
pub proof fn lemma_timed_order_same_variant(a: TimedObservation, b: TimedObservation)
    requires
        a.granularity() == b.granularity(),
    ensures
        a.payload().station_id@ == b.payload().station_id@ ==> timed_cmp(a, b) == Some(
            a.payload().date_observation.cmp_spec(b.payload().date_observation),
        ),
        a.payload().station_id@ != b.payload().station_id@ ==> timed_cmp(a, b) is None && timed_cmp(
            b,
            a,
        ) is None,
{
}

} // verus!
