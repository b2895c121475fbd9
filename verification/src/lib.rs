//! Normalization of tabular reservoir-storage readings into a validated,
//! partially ordered time-series representation.

pub mod conversions;
pub mod date;
pub mod interpolation;
pub mod observation;
pub mod raw_observation;
pub mod text;
pub mod timed_observation;
