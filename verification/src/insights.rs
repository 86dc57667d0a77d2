//! Figures read off a company for display beside the tables: totals,
//! averages, and how a figure is to be judged.
//!
//! A total of percentages, money or payouts is held at `u64::MAX` like every
//! other figure; a difference of two such totals is exact.

use vstd::prelude::*;
use crate::cap_table::CapTableRow;
use crate::dilution::{calculate_post_money_valuation, founder_ownership, post_money};
use crate::models::{
    Company, CompanyView, ExitScenario, ExitScenarioView, FounderPayoutView, FounderView,
    FundingRoundView,
};
use crate::units::{add_saturating, saturated, PERCENT, WHOLE};

verus! {

/// The sum of `values`.
pub open spec fn sum_of(values: Seq<u64>) -> int
    decreases values.len(),
{
    if values.len() == 0 {
        0
    } else {
        sum_of(values.drop_last()) + values.last()
    }
}

/// The sum of the first `i + 1` values is the sum of the first `i` and the
/// next one, and no sum is negative.
pub proof fn lemma_sum_of_step(values: Seq<u64>, i: int)
    requires
        0 <= i < values.len(),
    ensures
        sum_of(values.take(i + 1)) == sum_of(values.take(i)) + values[i],
        sum_of(values.take(i)) >= 0,
    decreases i,
{
    assert(values.take(i + 1).drop_last() =~= values.take(i));
    if i > 0 {
        lemma_sum_of_step(values, i - 1);
    }
}

/// What the founders hold together grows founder by founder, and is never
/// negative.
pub proof fn lemma_founder_ownership_step(founders: Seq<FounderView>, i: int)
    requires
        0 <= i < founders.len(),
    ensures
        founder_ownership(founders.take(i + 1)) == founder_ownership(founders.take(i))
            + founders[i].current_ownership,
        founder_ownership(founders.take(i)) >= 0,
    decreases i,
{
    assert(founders.take(i + 1).drop_last() =~= founders.take(i));
    if i > 0 {
        lemma_founder_ownership_step(founders, i - 1);
    }
}

/// The percentage units each founder was first recorded with, in order.
pub open spec fn initial_ownerships(company: CompanyView) -> Seq<u64> {
    company.founders.map_values(|f: FounderView| f.initial_ownership)
}

/// The money each applied round brought in, in order.
pub open spec fn amounts_raised(company: CompanyView) -> Seq<u64> {
    company.funding_rounds.map_values(|r: FundingRoundView| r.amount)
}

/// The percentage units of each row of a cap table, in order.
pub open spec fn row_ownerships(table: Seq<(Seq<char>, u64, u64)>) -> Seq<u64> {
    table.map_values(|row: (Seq<char>, u64, u64)| row.1)
}

/// What an exit pays each founder, in order.
pub open spec fn payouts(scenario: ExitScenarioView) -> Seq<u64> {
    scenario.founder_payouts.map_values(|p: FounderPayoutView| p.payout_amount)
}

/// The percentage units that the founders hold together.
pub fn total_founder_ownership(company: &Company) -> (total: u64)
    ensures
        total == saturated(founder_ownership(company@.founders)),
{
    let mut total: u64 = 0;
    let mut i: usize = 0;
    while i < company.founders.len()
        invariant
            i <= company.founders.len(),
            founder_ownership(company@.founders.take(i as int)) >= 0,
            total == saturated(founder_ownership(company@.founders.take(i as int))),
        decreases company.founders.len() - i,
    {
        proof {
            lemma_founder_ownership_step(company@.founders, i as int);
        }
        total = add_saturating(total, company.founders[i].current_ownership);
        i += 1;
    }
    assert(company@.founders.take(company.founders.len() as int) =~= company@.founders);
    total
}

/// The percentage units that the founders were first recorded with,
/// together.
pub fn total_initial_ownership(company: &Company) -> (total: u64)
    ensures
        total == saturated(sum_of(initial_ownerships(company@))),
{
    let ghost values = initial_ownerships(company@);
    let mut total: u64 = 0;
    let mut i: usize = 0;
    while i < company.founders.len()
        invariant
            i <= company.founders.len(),
            values == initial_ownerships(company@),
            sum_of(values.take(i as int)) >= 0,
            total == saturated(sum_of(values.take(i as int))),
        decreases company.founders.len() - i,
    {
        proof {
            lemma_sum_of_step(values, i as int);
        }
        total = add_saturating(total, company.founders[i].initial_ownership);
        i += 1;
    }
    assert(values.take(company.founders.len() as int) =~= values);
    total
}

/// The money that the applied rounds brought in together, in cents.
pub fn total_raised(company: &Company) -> (total: u64)
    ensures
        total == saturated(sum_of(amounts_raised(company@))),
{
    let ghost values = amounts_raised(company@);
    let mut total: u64 = 0;
    let mut i: usize = 0;
    while i < company.funding_rounds.len()
        invariant
            i <= company.funding_rounds.len(),
            values == amounts_raised(company@),
            sum_of(values.take(i as int)) >= 0,
            total == saturated(sum_of(values.take(i as int))),
        decreases company.funding_rounds.len() - i,
    {
        proof {
            lemma_sum_of_step(values, i as int);
        }
        total = add_saturating(total, company.funding_rounds[i].amount);
        i += 1;
    }
    assert(values.take(company.funding_rounds.len() as int) =~= values);
    total
}

/// The percentage units of all rows of a cap table together.
pub fn total_table_ownership(table: &Vec<CapTableRow>) -> (total: u64)
    ensures
        total == saturated(sum_of(row_ownerships(table.deep_view()))),
{
    let ghost values = row_ownerships(table.deep_view());
    let mut total: u64 = 0;
    let mut i: usize = 0;
    while i < table.len()
        invariant
            i <= table.len(),
            values == row_ownerships(table.deep_view()),
            sum_of(values.take(i as int)) >= 0,
            total == saturated(sum_of(values.take(i as int))),
        decreases table.len() - i,
    {
        proof {
            lemma_sum_of_step(values, i as int);
        }
        total = add_saturating(total, table[i].1);
        i += 1;
    }
    assert(values.take(table.len() as int) =~= values);
    total
}

/// What an exit pays the founders together, in cents.
pub fn total_founder_payout(scenario: &ExitScenario) -> (total: u64)
    ensures
        total == saturated(sum_of(payouts(scenario@))),
{
    let ghost values = payouts(scenario@);
    let mut total: u64 = 0;
    let mut i: usize = 0;
    while i < scenario.founder_payouts.len()
        invariant
            i <= scenario.founder_payouts.len(),
            values == payouts(scenario@),
            sum_of(values.take(i as int)) >= 0,
            total == saturated(sum_of(values.take(i as int))),
        decreases scenario.founder_payouts.len() - i,
    {
        proof {
            lemma_sum_of_step(values, i as int);
        }
        total = add_saturating(total, scenario.founder_payouts[i].payout_amount);
        i += 1;
    }
    assert(values.take(scenario.founder_payouts.len() as int) =~= values);
    total
}

/// The percentage units left to the investors once the founders and the
/// option pool have theirs; negative where those two exceed the whole.
pub fn investor_ownership(company: &Company) -> (left: i128)
    ensures
        left == WHOLE - saturated(founder_ownership(company@.founders))
            - company.esop_pool.total_allocation,
{
    (WHOLE as i128) - (total_founder_ownership(company) as i128) - (
    company.esop_pool.total_allocation as i128)
}

/// The percentage units that the founders have lost together since they
/// were first recorded; negative where they have gained.
pub fn total_dilution(company: &Company) -> (lost: i128)
    ensures
        lost == saturated(sum_of(initial_ownerships(company@))) - saturated(
            founder_ownership(company@.founders),
        ),
{
    (total_initial_ownership(company) as i128) - (total_founder_ownership(company) as i128)
}

/// A figure divided evenly among `parts`, rounded towards zero.
pub open spec fn evenly(figure: int, parts: int) -> int
    recommends
        parts > 0,
{
    if figure >= 0 {
        figure / parts
    } else {
        -((-figure) / parts)
    }
}

/// What the founders have lost to dilution per applied round.
pub fn average_dilution(company: &Company) -> (lost: i128)
    requires
        company.funding_rounds.len() > 0,
    ensures
        lost == evenly(
            saturated(sum_of(initial_ownerships(company@))) - saturated(
                founder_ownership(company@.founders),
            ),
            company.funding_rounds.len() as int,
        ),
{
    let total: i128 = total_dilution(company);
    let rounds: u128 = company.funding_rounds.len() as u128;
    if total >= 0 {
        ((total as u128) / rounds) as i128
    } else {
        -((((-total) as u128) / rounds) as i128)
    }
}

/// The money an applied round brought in on average, in cents.
pub fn average_round_size(company: &Company) -> (average: u64)
    requires
        company.funding_rounds.len() > 0,
    ensures
        average == saturated(sum_of(amounts_raised(company@))) / (
        company.funding_rounds.len() as u64),
{
    total_raised(company) / (company.funding_rounds.len() as u64)
}

/// What the company was worth after its latest round, in cents, or nothing
/// where no round has been applied.
pub open spec fn latest_valuation(company: CompanyView) -> u64 {
    if company.funding_rounds.len() == 0 {
        0
    } else {
        post_money(company.funding_rounds.last().valuation, company.funding_rounds.last().amount)
    }
}

/// What the company was worth after its latest round, in cents, or nothing
/// where no round has been applied.
pub fn current_valuation(company: &Company) -> (valuation: u64)
    ensures
        valuation == latest_valuation(company@),
{
    let rounds: usize = company.funding_rounds.len();
    if rounds == 0 {
        0
    } else {
        calculate_post_money_valuation(
            company.funding_rounds[rounds - 1].valuation,
            company.funding_rounds[rounds - 1].amount,
        )
    }
}

/// Whether `name` is the name of a founder of `company`.
pub fn is_founder(company: &Company, name: &String) -> (found: bool)
    ensures
        found <==> exists|i: int|
            0 <= i < company.founders.len() && (#[trigger] company@.founders[i]).name == name@,
{
    let mut i: usize = 0;
    while i < company.founders.len()
        invariant
            i <= company.founders.len(),
            forall|j: int| 0 <= j < i ==> (#[trigger] company@.founders[j]).name != name@,
        decreases company.founders.len() - i,
    {
        if company.founders[i].name == *name {
            assert(company@.founders[i as int].name == name@);
            return true;
        }
        i += 1;
    }
    false
}

/// How the founders' stakes as first recorded stand against the whole.
#[derive(Debug, Clone, Copy, PartialEq, Eq, Structural)]
pub enum OwnershipBalance {
    /// Within a tenth of a percent of the whole.
    Balanced,
    /// More than the whole by over a tenth of a percent.
    Exceeds,
    /// Less than the whole by over a tenth of a percent.
    Under,
}

/// The slack allowed between the founders' stakes and the whole: a tenth of
/// a percent.
pub const BALANCE_SLACK: u64 = 100_000_000_000_000;

/// How a total of `total` percentage units stands against the whole.
pub open spec fn balance_of(total: u64) -> OwnershipBalance {
    if total > WHOLE + BALANCE_SLACK {
        OwnershipBalance::Exceeds
    } else if total + BALANCE_SLACK < WHOLE {
        OwnershipBalance::Under
    } else {
        OwnershipBalance::Balanced
    }
}

/// How the founders' stakes as first recorded stand against the whole.
pub fn initial_ownership_balance(company: &Company) -> (balance: OwnershipBalance)
    ensures
        balance == balance_of(saturated(sum_of(initial_ownerships(company@)))),
{
    let total: u64 = total_initial_ownership(company);
    if total > WHOLE + BALANCE_SLACK {
        OwnershipBalance::Exceeds
    } else if total < WHOLE - BALANCE_SLACK {
        OwnershipBalance::Under
    } else {
        OwnershipBalance::Balanced
    }
}

/// How heavy a loss to dilution is.
#[derive(Debug, Clone, Copy, PartialEq, Eq, Structural)]
pub enum DilutionSeverity {
    /// Five percent or less, or none, or a gain.
    Light,
    /// More than five percent, up to ten.
    Moderate,
    /// More than ten percent.
    Heavy,
}

/// How heavy a loss of `impact` percentage units is.
pub open spec fn severity_of(impact: i128) -> DilutionSeverity {
    if impact > 10 * PERCENT {
        DilutionSeverity::Heavy
    } else if impact > 5 * PERCENT {
        DilutionSeverity::Moderate
    } else {
        DilutionSeverity::Light
    }
}

/// How heavy a loss of `impact` percentage units is.
pub fn dilution_severity(impact: i128) -> (severity: DilutionSeverity)
    ensures
        severity == severity_of(impact),
{
    if impact > 10 * (PERCENT as i128) {
        DilutionSeverity::Heavy
    } else if impact > 5 * (PERCENT as i128) {
        DilutionSeverity::Moderate
    } else {
        DilutionSeverity::Light
    }
}

} // verus!
