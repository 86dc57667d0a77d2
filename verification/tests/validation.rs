use startup_equity_scenario_builder::models::{DealType, FundingRound};
use startup_equity_scenario_builder::units::{DOLLAR, PERCENT};
use startup_equity_scenario_builder::validation::{validate_funding_round, ErrorKind};

fn seed_round() -> FundingRound {
    FundingRound {
        name: "Seed Round".to_string(),
        amount: 1_000_000 * DOLLAR,
        valuation: 5_000_000 * DOLLAR,
        equity_sold: 20 * PERCENT,
        deal_type: DealType::Equity,
        investors: vec!["VC Fund".to_string()],
        esop_allocation: 10 * PERCENT,
        anti_dilution: false,
    }
}

#[test]
fn validate_accepts_the_seed_round() {
    assert_eq!(validate_funding_round(&seed_round()), Ok(()));
}

#[test]
fn validate_rejects_no_equity_and_too_much_and_accepts_twenty() {
    let mut round = seed_round();
    round.equity_sold = 0;
    assert_eq!(validate_funding_round(&round), Err(ErrorKind::InvalidEquityPercentage));
    round.equity_sold = 150 * PERCENT;
    assert_eq!(validate_funding_round(&round), Err(ErrorKind::InvalidEquityPercentage));
    round.equity_sold = 20 * PERCENT;
    assert_eq!(validate_funding_round(&round), Ok(()));
}

#[test]
fn validate_equity_bounds_are_exact() {
    let mut round = seed_round();
    round.equity_sold = 1;
    assert_eq!(validate_funding_round(&round), Ok(()));
    round.equity_sold = 100 * PERCENT;
    assert_eq!(validate_funding_round(&round), Ok(()));
    round.equity_sold = 100 * PERCENT + 1;
    assert_eq!(validate_funding_round(&round), Err(ErrorKind::InvalidEquityPercentage));
}

#[test]
fn validate_rejects_no_amount() {
    let mut round = seed_round();
    round.amount = 0;
    assert_eq!(validate_funding_round(&round), Err(ErrorKind::InvalidAmount));
}

#[test]
fn validate_rejects_no_valuation() {
    let mut round = seed_round();
    round.valuation = 0;
    assert_eq!(validate_funding_round(&round), Err(ErrorKind::InvalidValuation));
}

#[test]
fn validate_esop_bounds_are_exact() {
    let mut round = seed_round();
    round.esop_allocation = 0;
    assert_eq!(validate_funding_round(&round), Ok(()));
    round.esop_allocation = 100 * PERCENT;
    assert_eq!(validate_funding_round(&round), Ok(()));
    round.esop_allocation = 100 * PERCENT + 1;
    assert_eq!(validate_funding_round(&round), Err(ErrorKind::InvalidEsopPercentage));
}

#[test]
fn validate_rejects_no_investors() {
    let mut round = seed_round();
    round.investors.clear();
    assert_eq!(validate_funding_round(&round), Err(ErrorKind::MissingInvestors));
}

#[test]
fn validate_reports_the_first_failure() {
    let mut round = seed_round();
    round.investors.clear();
    round.esop_allocation = 200 * PERCENT;
    assert_eq!(validate_funding_round(&round), Err(ErrorKind::InvalidEsopPercentage));
    round.equity_sold = 0;
    assert_eq!(validate_funding_round(&round), Err(ErrorKind::InvalidEquityPercentage));
    round.valuation = 0;
    assert_eq!(validate_funding_round(&round), Err(ErrorKind::InvalidValuation));
    round.amount = 0;
    assert_eq!(validate_funding_round(&round), Err(ErrorKind::InvalidAmount));
}

#[test]
fn validate_does_not_hold_equity_against_esop() {
    let mut round = seed_round();
    round.equity_sold = 80 * PERCENT;
    round.esop_allocation = 80 * PERCENT;
    assert_eq!(validate_funding_round(&round), Ok(()));
}

#[test]
fn error_messages_are_the_sentences_shown() {
    assert_eq!(ErrorKind::InvalidAmount.message(), "Investment amount must be positive");
    assert_eq!(ErrorKind::InvalidValuation.message(), "Pre-money valuation must be positive");
    assert_eq!(
        ErrorKind::InvalidEquityPercentage.message(),
        "Equity sold must be between 0% and 100%"
    );
    assert_eq!(
        ErrorKind::InvalidEsopPercentage.message(),
        "ESOP allocation must be between 0% and 100%"
    );
    assert_eq!(ErrorKind::MissingInvestors.message(), "At least one investor must be specified");
}
