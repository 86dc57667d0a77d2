//! The calculations of the library under one roof, by name.

pub use crate::cap_table::calculate_cap_table_summary;
pub use crate::dilution::{
    calculate_equity_percentage, calculate_founder_dilution, calculate_new_shares_issued,
    calculate_post_money_valuation, simulate_funding_round,
};
pub use crate::exits::{
    calculate_dilution_impact, calculate_ownership_value, generate_exit_scenarios,
};
pub use crate::format::{format_currency, format_percentage, format_shares};
pub use crate::validation::validate_funding_round;
