//! Air-quality reporting core: converts pollutant concentrations into
//! Air Quality Index (AQI) values with severity tiers via piecewise-linear
//! interpolation over regulator breakpoint tables, and derives daily
//! (current + forecast) report entries for a reading's dominant pollutant.

pub mod convert;
pub mod order;
pub mod pollutant;
pub mod report;
pub mod severity;
