use startup_equity_scenario_builder::dilution::{
    calculate_equity_percentage, calculate_founder_dilution, calculate_new_shares_issued,
    calculate_post_money_valuation, ownership_percentage, simulate_funding_round,
    total_shares_after,
};
use startup_equity_scenario_builder::models::{Company, DealType, Founder, FundingRound};
use startup_equity_scenario_builder::units::{add_saturating, mul_div, DOLLAR, PERCENT, WHOLE};

fn seed_round() -> FundingRound {
    FundingRound {
        name: "Seed Round".to_string(),
        amount: 1_000_000 * DOLLAR,
        valuation: 5_000_000 * DOLLAR,
        equity_sold: 20 * PERCENT,
        deal_type: DealType::Equity,
        investors: vec!["VC Fund".to_string()],
        esop_allocation: 10 * PERCENT,
        anti_dilution: false,
    }
}

fn series_a() -> FundingRound {
    FundingRound {
        name: "Series A".to_string(),
        amount: 4_000_000 * DOLLAR,
        valuation: 16_000_000 * DOLLAR,
        equity_sold: 25 * PERCENT,
        deal_type: DealType::PreferredStock,
        investors: vec!["VC Fund".to_string(), "Angel".to_string(), "Growth LP".to_string()],
        esop_allocation: 0,
        anti_dilution: true,
    }
}

#[test]
fn seed_round_on_the_default_company() {
    let mut company = Company::default();
    let snapshot = simulate_funding_round(&mut company, &seed_round());
    assert_eq!(company.total_shares, 12_000_000);
    assert_eq!(company.founders[0].current_ownership, 41_666_666_666_666_666);
    assert_eq!(company.founders[1].current_ownership, 41_666_666_666_666_666);
    assert_eq!(company.esop_pool.total_allocation, 10 * PERCENT);
    assert_eq!(snapshot.round_name, "Seed Round");
    assert_eq!(
        snapshot.founder_ownership,
        vec![("Founder 1".to_string(), 41_666_666_666_666_666), ("Founder 2".to_string(), 41_666_666_666_666_666)]
    );
    assert_eq!(snapshot.investor_ownership, vec![("VC Fund".to_string(), 20 * PERCENT)]);
    assert_eq!(snapshot.esop_ownership, 10 * PERCENT);
    assert_eq!(snapshot.total_valuation, 6_000_000 * DOLLAR);
}

#[test]
fn seed_round_agrees_with_the_figures_in_floating_point() {
    let mut company = Company::default();
    simulate_funding_round(&mut company, &seed_round());
    let expected = 5_000_000.0f64 / 12_000_000.0 * 100.0;
    let got = company.founders[0].current_ownership as f64 / PERCENT as f64;
    assert!((got - expected).abs() < 1e-12);
    assert_eq!(company.total_shares as f64, 10_000_000.0 * (6_000_000.0 / 5_000_000.0));
}

#[test]
fn the_method_and_the_function_do_the_same() {
    let mut by_function = Company::default();
    let mut by_method = Company::default();
    let first = simulate_funding_round(&mut by_function, &seed_round());
    let second = by_method.calculate_ownership_after_round(&seed_round());
    assert_eq!(first, second);
    assert_eq!(by_function, by_method);
}

#[test]
fn a_round_leaves_shares_and_initial_ownership_alone() {
    let mut company = Company::default();
    simulate_funding_round(&mut company, &seed_round());
    for founder in &company.founders {
        assert_eq!(founder.shares, 5_000_000);
        assert_eq!(founder.initial_ownership, 50 * PERCENT);
    }
    assert_eq!(company.name, "My Startup");
    assert!(company.exit_scenarios.is_empty());
}

#[test]
fn a_round_is_appended_to_the_history() {
    let mut company = Company::default();
    simulate_funding_round(&mut company, &seed_round());
    assert_eq!(company.funding_rounds, vec![seed_round()]);
    simulate_funding_round(&mut company, &series_a());
    assert_eq!(company.funding_rounds, vec![seed_round(), series_a()]);
}

#[test]
fn two_rounds_in_a_row() {
    let mut company = Company::default();
    simulate_funding_round(&mut company, &seed_round());
    let snapshot = simulate_funding_round(&mut company, &series_a());
    // 12,000,000 * 20,000,000 / 16,000,000
    assert_eq!(company.total_shares, 15_000_000);
    // 5,000,000 / 15,000,000 of the whole, rounded down
    assert_eq!(company.founders[0].current_ownership, 33_333_333_333_333_333);
    assert_eq!(company.esop_pool.total_allocation, 10 * PERCENT);
    assert_eq!(snapshot.total_valuation, 20_000_000 * DOLLAR);
    // 25% among three investors, rounded down
    assert_eq!(
        snapshot.investor_ownership,
        vec![
            ("VC Fund".to_string(), 8_333_333_333_333_333),
            ("Angel".to_string(), 8_333_333_333_333_333),
            ("Growth LP".to_string(), 8_333_333_333_333_333),
        ]
    );
    assert_eq!(snapshot.esop_ownership, 10 * PERCENT);
}

#[test]
fn a_round_with_money_adds_shares() {
    let mut company = Company::default();
    let before = company.total_shares;
    simulate_funding_round(&mut company, &seed_round());
    assert!(company.total_shares > before);
}

#[test]
fn a_round_too_small_for_one_share_adds_none() {
    let mut company = Company::default();
    company.total_shares = 1;
    let mut round = seed_round();
    round.amount = 1;
    round.valuation = 5;
    simulate_funding_round(&mut company, &round);
    assert_eq!(company.total_shares, 1);
}

#[test]
fn a_round_does_not_raise_what_founders_hold() {
    let mut company = Company::default();
    let before: Vec<u64> = company.founders.iter().map(|f| f.current_ownership).collect();
    simulate_funding_round(&mut company, &seed_round());
    let middle: Vec<u64> = company.founders.iter().map(|f| f.current_ownership).collect();
    simulate_funding_round(&mut company, &series_a());
    let after: Vec<u64> = company.founders.iter().map(|f| f.current_ownership).collect();
    for i in 0..before.len() {
        assert!(middle[i] <= before[i]);
        assert!(after[i] <= middle[i]);
    }
    assert!(after.iter().sum::<u64>() <= before.iter().sum::<u64>());
}

#[test]
fn a_founder_on_record_below_their_shares_is_restated_upwards() {
    let mut company = Company::default();
    company.founders[0].current_ownership = 10 * PERCENT;
    simulate_funding_round(&mut company, &seed_round());
    assert_eq!(company.founders[0].current_ownership, 41_666_666_666_666_666);
}

#[test]
fn esop_top_ups_add_up_without_a_cap() {
    let mut company = Company::default();
    let mut round = seed_round();
    round.esop_allocation = 60 * PERCENT;
    simulate_funding_round(&mut company, &round);
    simulate_funding_round(&mut company, &round);
    assert_eq!(company.esop_pool.total_allocation, 120 * PERCENT);
    assert_eq!(company.esop_pool.allocated, 0);
    assert_eq!(company.esop_pool.reserved, 0);
}

#[test]
fn a_round_without_esop_leaves_the_pool() {
    let mut company = Company::default();
    company.esop_pool.total_allocation = 7 * PERCENT;
    simulate_funding_round(&mut company, &series_a());
    assert_eq!(company.esop_pool.total_allocation, 7 * PERCENT);
}

#[test]
fn a_round_without_investors_has_an_empty_investor_list() {
    let mut company = Company::default();
    let mut round = seed_round();
    round.investors.clear();
    let snapshot = simulate_funding_round(&mut company, &round);
    assert!(snapshot.investor_ownership.is_empty());
    assert_eq!(company.total_shares, 12_000_000);
}

#[test]
fn a_company_without_founders_takes_a_round() {
    let mut company = Company::default();
    company.founders.clear();
    let snapshot = simulate_funding_round(&mut company, &seed_round());
    assert!(snapshot.founder_ownership.is_empty());
    assert_eq!(company.total_shares, 12_000_000);
}

#[test]
fn the_anti_dilution_flag_changes_nothing() {
    let mut plain = Company::default();
    let mut flagged = Company::default();
    let mut round = seed_round();
    let first = simulate_funding_round(&mut plain, &round);
    round.anti_dilution = true;
    let second = simulate_funding_round(&mut flagged, &round);
    assert_eq!(first, second);
    assert_eq!(plain.total_shares, flagged.total_shares);
    assert_eq!(plain.founders, flagged.founders);
    assert!(flagged.funding_rounds[0].anti_dilution);
}

#[test]
fn totals_are_held_at_the_ceiling() {
    let mut company = Company::default();
    company.total_shares = u64::MAX / 2;
    company.founders.push(Founder {
        name: "Whale".to_string(),
        initial_ownership: 0,
        current_ownership: 0,
        shares: u64::MAX,
    });
    let mut round = seed_round();
    round.amount = u64::MAX;
    round.valuation = 1;
    round.esop_allocation = u64::MAX;
    company.esop_pool.total_allocation = 1;
    let snapshot = simulate_funding_round(&mut company, &round);
    assert_eq!(company.total_shares, u64::MAX);
    assert_eq!(company.esop_pool.total_allocation, u64::MAX);
    assert_eq!(snapshot.total_valuation, u64::MAX);
    assert_eq!(company.founders[2].current_ownership, WHOLE);
}

#[test]
fn post_money_is_pre_money_plus_the_investment() {
    assert_eq!(calculate_post_money_valuation(500_000_000, 100_000_000), 600_000_000);
    assert_eq!(calculate_post_money_valuation(0, 0), 0);
    assert_eq!(calculate_post_money_valuation(u64::MAX, 1), u64::MAX);
}

#[test]
fn equity_percentage_is_the_investment_over_post_money() {
    // 1,000,000 / 6,000,000 of the whole, rounded down
    assert_eq!(calculate_equity_percentage(100_000_000, 600_000_000), 16_666_666_666_666_666);
    assert_eq!(calculate_equity_percentage(1, 1), WHOLE);
    assert_eq!(calculate_equity_percentage(0, 7), 0);
}

#[test]
fn new_shares_are_in_the_proportion_of_the_money() {
    // 10,000,000 * 1,000,000 / 5,000,000
    assert_eq!(calculate_new_shares_issued(100_000_000, 500_000_000, 10_000_000), 2_000_000);
    assert_eq!(calculate_new_shares_issued(1, 3, 10), 3);
    assert_eq!(calculate_new_shares_issued(0, 3, 10), 0);
    assert_eq!(calculate_new_shares_issued(u64::MAX, 1, 2), u64::MAX);
}

#[test]
fn total_after_is_total_before_plus_new_shares() {
    assert_eq!(total_shares_after(10_000_000, 500_000_000, 100_000_000), 12_000_000);
    assert_eq!(total_shares_after(10, 3, 1), 13);
    assert_eq!(total_shares_after(10, 3, 0), 10);
    assert_eq!(total_shares_after(0, 3, 5), 0);
}

#[test]
fn founder_dilution_is_the_difference_of_two_percentages() {
    assert_eq!(calculate_founder_dilution(5_000_000, 10_000_000, 12_000_000), 8_333_333_333_333_334);
    assert_eq!(calculate_founder_dilution(5_000_000, 12_000_000, 10_000_000), -8_333_333_333_333_334);
    assert_eq!(calculate_founder_dilution(0, 1, 2), 0);
}

#[test]
fn ownership_percentage_rounds_down() {
    assert_eq!(ownership_percentage(1, 3), 33_333_333_333_333_333);
    assert_eq!(ownership_percentage(2, 3), 66_666_666_666_666_666);
    assert_eq!(ownership_percentage(3, 3), WHOLE);
    assert_eq!(ownership_percentage(u64::MAX, 1), u64::MAX);
}

#[test]
fn units_arithmetic_is_exact_or_held_at_the_ceiling() {
    assert_eq!(mul_div(7, 3, 2), 10);
    assert_eq!(mul_div(u64::MAX, u64::MAX, u64::MAX), u64::MAX);
    assert_eq!(mul_div(u64::MAX, 2, 1), u64::MAX);
    assert_eq!(mul_div(u64::MAX, 2, 4), u64::MAX / 2);
    assert_eq!(add_saturating(1, 2), 3);
    assert_eq!(add_saturating(u64::MAX, 0), u64::MAX);
    assert_eq!(add_saturating(u64::MAX - 1, 2), u64::MAX);
}
