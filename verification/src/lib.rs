//! Equity ownership across funding rounds, in exact integer arithmetic.
//!
//! A [`Company`](models::Company) holds founders, an option pool and the
//! rounds applied so far. A round is checked ([`validation`]), then applied
//! ([`dilution`]); the cap table ([`cap_table`]) and the exit projections
//! ([`exits`]) are read from the state that results, and [`format`] turns
//! figures into text. Percentages and money are fixed-point integers (see
//! [`units`]), so every figure the library returns is determined to the
//! last unit by its contract.

pub mod units;
pub mod models;
pub mod validation;
pub mod dilution;
pub mod founders;
pub mod cap_table;
pub mod binary64;
pub mod format;
pub mod exits;
pub mod insights;
pub mod utils;
