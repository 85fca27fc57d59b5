//! UK PAYE Income Tax and Class 1 employee National Insurance, computed in
//! whole pence over historical tax-year parameter tables.

/// The shared banded marginal-rate engine.
pub mod banding;
/// Income Tax.
pub mod it;
/// National Insurance.
pub mod ni;
/// Rates and thresholds of each supported tax year.
pub mod tax_years;
