use startup_equity_scenario_builder::cap_table::calculate_cap_table_summary;
use startup_equity_scenario_builder::dilution::simulate_funding_round;
use startup_equity_scenario_builder::format::{format_currency, format_percentage};
use startup_equity_scenario_builder::models::{Company, DealType, FundingRound};
use startup_equity_scenario_builder::units::{DOLLAR, PERCENT};

fn next(seed: &mut u64) -> u64 {
    *seed ^= *seed << 13;
    *seed ^= *seed >> 7;
    *seed ^= *seed << 17;
    *seed
}

fn currency_in_floating_point(amount: f64) -> String {
    if amount >= 1_000_000_000.0 {
        format!("${:.1}B", amount / 1_000_000_000.0)
    } else if amount >= 1_000_000.0 {
        format!("${:.1}M", amount / 1_000_000.0)
    } else if amount >= 1_000.0 {
        format!("${:.1}K", amount / 1_000.0)
    } else {
        format!("${:.0}", amount)
    }
}

#[test]
fn a_history_of_rounds_shows_the_figures_of_double_precision() {
    let mut seed: u64 = 0xD1B5_4A32_D192_ED03;
    for _ in 0..300 {
        let mut company = Company::default();
        let mut total_shares: u64 = company.total_shares;
        let shares: Vec<f64> = company.founders.iter().map(|f| f.shares as f64).collect();
        let mut pool: f64 = 0.0;
        let mut history: Vec<(f64, usize)> = Vec::new();
        for number in 0..6 {
            let amount_dollars = 50_000 + next(&mut seed) % 20_000_000;
            let valuation_dollars = 500_000 + next(&mut seed) % 200_000_000;
            let equity_tenths = 1 + next(&mut seed) % 400;
            let esop_tenths = next(&mut seed) % 150;
            let investors = 1 + (next(&mut seed) % 4) as usize;
            let round = FundingRound {
                name: format!("Round {}", number),
                amount: amount_dollars * DOLLAR,
                valuation: valuation_dollars * DOLLAR,
                equity_sold: equity_tenths * (PERCENT / 10),
                deal_type: DealType::Equity,
                investors: (0..investors).map(|i| format!("Investor {}", i)).collect(),
                esop_allocation: esop_tenths * (PERCENT / 10),
                anti_dilution: false,
            };
            let snapshot = simulate_funding_round(&mut company, &round);

            let amount = amount_dollars as f64;
            let valuation = valuation_dollars as f64;
            let post_money = valuation + amount;
            let expected_total = (total_shares as f64 * post_money / valuation) as u64;
            // The total is the floor of the exact quotient; double precision
            // may land one share to either side of it.
            assert!(company.total_shares.abs_diff(expected_total) <= 1);
            total_shares = company.total_shares;
            pool += esop_tenths as f64 / 10.0;
            history.push((equity_tenths as f64 / 10.0, investors));

            assert_eq!(
                format_currency(snapshot.total_valuation),
                currency_in_floating_point(post_money)
            );
            assert_eq!(
                format_percentage(snapshot.esop_ownership as i128),
                format!("{:.1}%", pool)
            );
            for (i, founder) in company.founders.iter().enumerate() {
                let ownership = shares[i] / total_shares as f64 * 100.0;
                assert_eq!(
                    format_percentage(founder.current_ownership as i128),
                    format!("{:.1}%", ownership),
                    "founder {} of {:?}",
                    i,
                    company
                );
                let held = founder.current_ownership as f64 / PERCENT as f64;
                assert!((held - ownership).abs() < 1e-12);
            }
            for (_, stake) in &snapshot.investor_ownership {
                let expected = equity_tenths as f64 / 10.0 / investors as f64;
                assert!((*stake as f64 / PERCENT as f64 - expected).abs() < 1e-12);
            }
        }
        let table = calculate_cap_table_summary(&company);
        let rows: usize = 2 + (pool > 0.0) as usize + history.iter().map(|h| h.1).sum::<usize>();
        assert_eq!(table.len(), rows);
        for valuation_dollars in [10_000_000u64, 250_000_000, 1_000_000_000] {
            let scenario = company.calculate_exit_scenario(valuation_dollars * DOLLAR);
            for (i, payout) in scenario.founder_payouts.iter().enumerate() {
                let ownership = shares[i] / total_shares as f64 * 100.0;
                let expected = ownership / 100.0 * valuation_dollars as f64;
                let paid = payout.payout_amount as f64 / DOLLAR as f64;
                assert!((paid - expected).abs() <= 0.01, "{} against {}", paid, expected);
                let lost = payout.dilution_impact as f64 / PERCENT as f64;
                assert!((lost - (50.0 - ownership)).abs() < 1e-12);
            }
        }
    }
}
