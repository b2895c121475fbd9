//! The interpolation-engine interface.
//!
//! Densification fills daily-granularity gaps from monthly or mixed
//! granularity input: a chronologically ordered run of same-station
//! observations goes in, a chronologically ordered, fully daily sequence
//! covering the same date span comes out. A mismatched station is a fatal
//! error, and implementations report computation failure as a distinct
//! error value rather than a malformed result. The numeric densification
//! formula is deliberately left to implementations of this trait, so it can
//! be swapped without touching the data model or the ordering rules.

use vstd::prelude::*;

verus! {

/// Derives dense daily observation sequences from sparser input.
pub trait ObservationInterpolation<T> {
    type Error;

    /// Produces a chronologically ordered daily sequence covering the date
    /// span of a chronologically ordered run of same-station monthly
    /// observations.
    fn derive_daily_observations_from_monthly_observations(input: Vec<T>) -> Result<
        Vec<T>,
        Self::Error,
    >;

    /// Produces a fully daily sequence from a chronologically ordered run of
    /// same-station observations of mixed granularity, preferring readings
    /// that are already daily over values synthesized from the surrounding
    /// monthly readings.
    fn derive_daily_observations_from_mixed_time_observations(input: Vec<T>) -> Result<
        Vec<T>,
        Self::Error,
    >;
}

} // verus!
