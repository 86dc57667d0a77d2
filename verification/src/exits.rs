//! Projecting exits: what each founder would receive if the company were
//! sold at a given price.
//!
//! A projection reads the company and changes nothing: it is neither kept in
//! the company nor does it depend on anything but the company and the price.

use vstd::prelude::*;
use crate::binary64::shown_in_units;
use crate::format::{one_decimal, push_tenths, MILLION};
use crate::models::{
    Company, CompanyView, ExitScenario, ExitScenarioView, ExitType, Founder, FounderPayout,
    FounderPayoutView, FounderView,
};
use crate::units::{mul_div, saturated, scaled, DOLLAR, WHOLE};

verus! {

/// What `ownership` percentage units of a sale at `valuation` come to.
pub open spec fn payout_of(ownership: u64, valuation: u64) -> u64 {
    saturated(scaled(ownership as int, valuation as int, WHOLE as int))
}

/// The percentage units a stake has lost: what it was at first, less what
/// it is now. Negative where the stake has grown.
pub open spec fn dilution_of(initial_ownership: u64, current_ownership: u64) -> i128 {
    (initial_ownership - current_ownership) as i128
}

/// What one founder receives from a sale at `exit_valuation`.
pub open spec fn founder_payout(founder: FounderView, exit_valuation: u64) -> FounderPayoutView {
    FounderPayoutView {
        founder_name: founder.name,
        ownership_at_exit: founder.current_ownership,
        shares_at_exit: founder.shares,
        payout_amount: payout_of(founder.current_ownership, exit_valuation),
        dilution_impact: dilution_of(founder.initial_ownership, founder.current_ownership),
    }
}

/// The name of the scenario of a sale at `exit_valuation`: the price in
/// millions of dollars to one decimal place, as in `$10.0M Exit`.
pub open spec fn scenario_name(exit_valuation: u64) -> Seq<char> {
    "$"@ + one_decimal(exit_valuation as nat, (MILLION * DOLLAR) as nat) + "M Exit"@
}

/// The scenario of a sale of `company` at `exit_valuation`.
pub open spec fn exit_scenario(company: CompanyView, exit_valuation: u64) -> ExitScenarioView {
    ExitScenarioView {
        name: scenario_name(exit_valuation),
        exit_valuation,
        exit_type: ExitType::Acquisition,
        founder_payouts: company.founders.map_values(
            |f: FounderView| founder_payout(f, exit_valuation),
        ),
    }
}

/// The scenarios of a sale of `company` at each of `exit_valuations`, in
/// the order of the valuations.
pub open spec fn exit_scenarios(company: CompanyView, exit_valuations: Seq<u64>) -> Seq<
    ExitScenarioView,
> {
    exit_valuations.map_values(|valuation: u64| exit_scenario(company, valuation))
}

/// The percentage units a stake has lost since it was first recorded.
pub fn calculate_dilution_impact(initial_ownership: u64, current_ownership: u64) -> (impact: i128)
    ensures
        impact == dilution_of(initial_ownership, current_ownership),
{
    (initial_ownership as i128) - (current_ownership as i128)
}

/// What `ownership_percentage` percentage units of a company worth
/// `company_valuation` cents come to, in cents.
pub fn calculate_ownership_value(ownership_percentage: u64, company_valuation: u64) -> (value: u64)
    ensures
        value == payout_of(ownership_percentage, company_valuation),
{
    mul_div(ownership_percentage, company_valuation, WHOLE)
}

impl Company {
    /// The scenario of a sale at `exit_valuation` cents: each founder's
    /// part of the price by their current percentage, and what they have
    /// lost to dilution. The scenario is an acquisition.
    pub fn calculate_exit_scenario(&self, exit_valuation: u64) -> (scenario: ExitScenario)
        ensures
            scenario@ == exit_scenario(self@, exit_valuation),
    {
        let mut founder_payouts: Vec<FounderPayout> = Vec::new();
        let mut i: usize = 0;
        while i < self.founders.len()
            invariant
                i <= self.founders.len(),
                founder_payouts.len() == i,
                forall|j: int|
                    0 <= j < i ==> founder_payouts[j]@ == founder_payout(
                        self.founders[j]@,
                        exit_valuation,
                    ),
            decreases self.founders.len() - i,
        {
            let founder: &Founder = &self.founders[i];
            founder_payouts.push(
                FounderPayout {
                    founder_name: founder.name.clone(),
                    ownership_at_exit: founder.current_ownership,
                    shares_at_exit: founder.shares,
                    payout_amount: calculate_ownership_value(
                        founder.current_ownership,
                        exit_valuation,
                    ),
                    dilution_impact: calculate_dilution_impact(
                        founder.initial_ownership,
                        founder.current_ownership,
                    ),
                },
            );
            i += 1;
        }
        let mut name: String = String::from_str("$");
        push_tenths(
            &mut name,
            shown_in_units(exit_valuation as u128, (MILLION * DOLLAR) as u128, 10),
        );
        name.append("M Exit");
        let scenario = ExitScenario {
            name,
            exit_valuation,
            exit_type: ExitType::Acquisition,
            founder_payouts,
        };
        assert(scenario@.founder_payouts =~= exit_scenario(self@, exit_valuation).founder_payouts);
        scenario
    }
}

/// One scenario per valuation, in the order of the valuations: see
/// [`Company::calculate_exit_scenario`].
pub fn generate_exit_scenarios(company: &Company, exit_valuations: Vec<u64>) -> (scenarios: Vec<
    ExitScenario,
>)
    ensures
        scenarios.deep_view() == exit_scenarios(company@, exit_valuations@),
        scenarios.len() == exit_valuations.len(),
        forall|i: int|
            0 <= i < exit_valuations.len() ==> (#[trigger] scenarios[i]).exit_valuation
                == exit_valuations[i],
{
    let mut scenarios: Vec<ExitScenario> = Vec::new();
    let mut i: usize = 0;
    while i < exit_valuations.len()
        invariant
            i <= exit_valuations.len(),
            scenarios.len() == i,
            forall|j: int|
                0 <= j < i ==> scenarios[j]@ == exit_scenario(company@, exit_valuations[j]),
        decreases exit_valuations.len() - i,
    {
        scenarios.push(company.calculate_exit_scenario(exit_valuations[i]));
        i += 1;
    }
    scenarios
}

/// There is one scenario per valuation, and the scenario at each place is
/// that of the valuation at the same place.
pub proof fn lemma_exit_scenarios_follow_valuations(
    company: CompanyView,
    exit_valuations: Seq<u64>,
)
    ensures
        exit_scenarios(company, exit_valuations).len() == exit_valuations.len(),
        forall|i: int|
            0 <= i < exit_valuations.len() ==> (#[trigger] exit_scenarios(
                company,
                exit_valuations,
            )[i]) == exit_scenario(company, exit_valuations[i]),
        forall|i: int|
            0 <= i < exit_valuations.len() ==> (#[trigger] exit_scenarios(
                company,
                exit_valuations,
            )[i]).exit_valuation == exit_valuations[i],
{
}

/// Projecting twice, with nothing applied in between, projects the same:
/// what [`generate_exit_scenarios`] returns depends on the company and the
/// valuations alone.
pub proof fn lemma_exit_projections_agree(
    company: &Company,
    exit_valuations: Vec<u64>,
    first: Vec<ExitScenario>,
    second: Vec<ExitScenario>,
)
    requires
        first.deep_view() == exit_scenarios(company@, exit_valuations@),
        second.deep_view() == exit_scenarios(company@, exit_valuations@),
    ensures
        first.deep_view() == second.deep_view(),
{
}

} // verus!
