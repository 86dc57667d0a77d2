use startup_equity_scenario_builder::dilution::{ownership_percentage, simulate_funding_round};
use startup_equity_scenario_builder::models::{Company, DealType, Founder, FundingRound};
use startup_equity_scenario_builder::units::{DOLLAR, PERCENT};

#[test]
fn a_new_founder_holds_nothing() {
    let mut company = Company::default();
    company.add_founder("Founder 3".to_string());
    assert_eq!(company.founders.len(), 3);
    assert_eq!(
        company.founders[2],
        Founder {
            name: "Founder 3".to_string(),
            initial_ownership: 0,
            current_ownership: 0,
            shares: 0,
        }
    );
    assert_eq!(company.founders[0].name, "Founder 1");
    assert_eq!(company.total_shares, 10_000_000);
}

#[test]
fn removing_a_founder_moves_the_others_up() {
    let mut company = Company::default();
    company.add_founder("Founder 3".to_string());
    company.remove_founder(0);
    let names: Vec<&str> = company.founders.iter().map(|f| f.name.as_str()).collect();
    assert_eq!(names, vec!["Founder 2", "Founder 3"]);
    company.remove_founder(1);
    company.remove_founder(0);
    assert!(company.founders.is_empty());
}

#[test]
fn renaming_a_founder_changes_the_name_alone() {
    let mut company = Company::default();
    let before = company.clone();
    company.rename_founder(1, "Ada".to_string());
    assert_eq!(company.founders[1].name, "Ada");
    assert_eq!(company.founders[1].shares, before.founders[1].shares);
    assert_eq!(company.founders[0], before.founders[0]);
    company.rename_founder(2, "Nobody".to_string());
    assert_eq!(company.founders.len(), 2);
    assert_eq!(company.founders[1].name, "Ada");
}

#[test]
fn a_stake_sets_both_percentages_and_the_shares() {
    let mut company = Company::default();
    company.set_founder_ownership(0, 30 * PERCENT);
    assert_eq!(
        company.founders[0],
        Founder {
            name: "Founder 1".to_string(),
            initial_ownership: 30 * PERCENT,
            current_ownership: 30 * PERCENT,
            shares: 3_000_000,
        }
    );
    assert_eq!(company.founders[1].shares, 5_000_000);
    company.set_founder_ownership(1, 33_333_333_333_333_333);
    // 10,000,000 * 33.333... %, rounded down
    assert_eq!(company.founders[1].shares, 3_333_333);
}

#[test]
fn a_stake_for_nobody_changes_nothing() {
    let mut company = Company::default();
    let before = company.clone();
    company.set_founder_ownership(2, 30 * PERCENT);
    assert_eq!(company, before);
}

#[test]
fn a_stake_is_never_below_what_its_shares_come_to() {
    let mut company = Company::default();
    company.total_shares = 7;
    for ownership in [
        0,
        1,
        14_285_714_285_714_285,
        14_285_714_285_714_286,
        33 * PERCENT,
        100 * PERCENT - 1,
        100 * PERCENT,
    ] {
        company.set_founder_ownership(0, ownership);
        let back = ownership_percentage(company.founders[0].shares, company.total_shares);
        assert!(back <= ownership, "{} gave {}", ownership, back);
    }
}

#[test]
fn a_staked_founder_is_diluted_by_the_next_round() {
    let mut company = Company::default();
    company.add_founder("Founder 3".to_string());
    company.set_founder_ownership(2, 10 * PERCENT);
    let round = FundingRound {
        name: "Seed Round".to_string(),
        amount: 1_000_000 * DOLLAR,
        valuation: 5_000_000 * DOLLAR,
        equity_sold: 20 * PERCENT,
        deal_type: DealType::SAFE,
        investors: vec!["VC Fund".to_string()],
        esop_allocation: 0,
        anti_dilution: false,
    };
    simulate_funding_round(&mut company, &round);
    // 1,000,000 / 12,000,000 of the whole, rounded down
    assert_eq!(company.founders[2].current_ownership, 8_333_333_333_333_333);
    assert_eq!(company.founders[2].initial_ownership, 10 * PERCENT);
    assert_eq!(company.founders[2].shares, 1_000_000);
}
