//! Checking a proposed funding round before it is applied.

use vstd::prelude::*;
use crate::models::{FundingRound, FundingRoundView};
use crate::units::WHOLE;

verus! {

/// Why a proposed funding round is turned down.
#[derive(Debug, Clone, Copy, PartialEq, Eq, Structural)]
pub enum ErrorKind {
    /// No money is invested.
    InvalidAmount,
    /// The pre-money valuation is nothing.
    InvalidValuation,
    /// The equity sold is nothing, or more than the whole.
    InvalidEquityPercentage,
    /// The option pool top-up is more than the whole.
    InvalidEsopPercentage,
    /// The round names no investor.
    MissingInvestors,
}

impl ErrorKind {
    /// The sentence shown to the user for this error.
    pub open spec fn message_text(self) -> Seq<char> {
        match self {
            ErrorKind::InvalidAmount => "Investment amount must be positive"@,
            ErrorKind::InvalidValuation => "Pre-money valuation must be positive"@,
            ErrorKind::InvalidEquityPercentage => "Equity sold must be between 0% and 100%"@,
            ErrorKind::InvalidEsopPercentage => "ESOP allocation must be between 0% and 100%"@,
            ErrorKind::MissingInvestors => "At least one investor must be specified"@,
        }
    }

    /// The sentence shown to the user for this error.
    pub fn message(&self) -> (text: String)
        ensures
            text@ == self.message_text(),
    {
        match self {
            ErrorKind::InvalidAmount => String::from_str("Investment amount must be positive"),
            ErrorKind::InvalidValuation => String::from_str("Pre-money valuation must be positive"),
            ErrorKind::InvalidEquityPercentage => String::from_str(
                "Equity sold must be between 0% and 100%",
            ),
            ErrorKind::InvalidEsopPercentage => String::from_str(
                "ESOP allocation must be between 0% and 100%",
            ),
            ErrorKind::MissingInvestors => String::from_str(
                "At least one investor must be specified",
            ),
        }
    }
}

/// The verdict on a proposed round: the first check it fails, in the order
/// amount, valuation, equity sold, option pool top-up, investors.
///
/// Amounts and percentages are unsigned, so "positive" is "not zero" and a
/// top-up has no lower bound to test. A round is not held against the rounds
/// before it, nor its equity sold against its top-up.
pub open spec fn validated(round: FundingRoundView) -> Result<(), ErrorKind> {
    if round.amount == 0 {
        Err(ErrorKind::InvalidAmount)
    } else if round.valuation == 0 {
        Err(ErrorKind::InvalidValuation)
    } else if round.equity_sold == 0 || round.equity_sold > WHOLE {
        Err(ErrorKind::InvalidEquityPercentage)
    } else if round.esop_allocation > WHOLE {
        Err(ErrorKind::InvalidEsopPercentage)
    } else if round.investors.len() == 0 {
        Err(ErrorKind::MissingInvestors)
    } else {
        Ok(())
    }
}

/// Checks a proposed round and reports the first check it fails.
pub fn validate_funding_round(round: &FundingRound) -> (verdict: Result<(), ErrorKind>)
    ensures
        verdict == validated(round@),
{
    if round.amount == 0 {
        return Err(ErrorKind::InvalidAmount);
    }
    if round.valuation == 0 {
        return Err(ErrorKind::InvalidValuation);
    }
    if round.equity_sold == 0 || round.equity_sold > WHOLE {
        return Err(ErrorKind::InvalidEquityPercentage);
    }
    if round.esop_allocation > WHOLE {
        return Err(ErrorKind::InvalidEsopPercentage);
    }
    if round.investors.len() == 0 {
        return Err(ErrorKind::MissingInvestors);
    }
    Ok(())
}

} // verus!
