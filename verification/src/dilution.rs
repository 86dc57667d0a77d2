//! Applying a funding round to a company.
//!
//! A round issues new shares in the proportion of post-money to pre-money
//! valuation. Founders keep the shares they have; what changes is the
//! percentage those shares come to against the larger total.

use vstd::prelude::*;
use crate::models::{
    default_company, Company, CompanyView, ESOPPool, Founder, FounderView, FundingRound,
    FundingRoundView, OwnershipSnapshot, OwnershipSnapshotView,
};
use crate::units::{add_saturating, mul_div, saturated, scaled, PERCENT, WHOLE};

verus! {

/// Post-money valuation: what the company is worth once the money is in.
pub open spec fn post_money(valuation: u64, amount: u64) -> u64 {
    saturated(valuation + amount)
}

/// The total share count after a round: the count before it, scaled by
/// post-money over pre-money valuation.
pub open spec fn diluted_total(total_shares: u64, valuation: u64, amount: u64) -> u64
    recommends
        valuation > 0,
{
    saturated(scaled(total_shares as int, valuation + amount, valuation as int))
}

/// The percentage units that `part` comes to out of `whole`: shares out of
/// all shares, or money out of a valuation.
pub open spec fn percentage_of(part: u64, whole: u64) -> u64
    recommends
        whole > 0,
{
    saturated(scaled(part as int, WHOLE as int, whole as int))
}

/// The shares a round issues: as many, against the shares there are, as the
/// money invested is against the pre-money valuation.
pub open spec fn issued_shares(total_shares: u64, valuation: u64, amount: u64) -> u64
    recommends
        valuation > 0,
{
    saturated(scaled(total_shares as int, amount as int, valuation as int))
}

/// A founder after a round: the same shares against the new total.
pub open spec fn diluted_founder(founder: FounderView, total_shares: u64) -> FounderView {
    FounderView { current_ownership: percentage_of(founder.shares, total_shares), ..founder }
}

/// The option pool after a round has topped it up.
pub open spec fn topped_up(pool: ESOPPool, allocation: u64) -> ESOPPool {
    ESOPPool { total_allocation: saturated(pool.total_allocation + allocation), ..pool }
}

/// The company after `round` has been applied to it.
pub open spec fn applied(company: CompanyView, round: FundingRoundView) -> CompanyView
    recommends
        round.valuation > 0,
        company.total_shares > 0,
{
    let total_shares = diluted_total(company.total_shares, round.valuation, round.amount);
    CompanyView {
        name: company.name,
        total_shares,
        founders: company.founders.map_values(|f: FounderView| diluted_founder(f, total_shares)),
        funding_rounds: company.funding_rounds.push(round),
        esop_pool: topped_up(company.esop_pool, round.esop_allocation),
        exit_scenarios: company.exit_scenarios,
    }
}

/// What each investor of a round holds: the equity sold, divided evenly.
pub open spec fn investor_stake(equity_sold: u64, investors: nat) -> u64
    recommends
        investors > 0,
{
    (equity_sold as nat / investors) as u64
}

/// The snapshot of a company right after `round` was applied to it.
pub open spec fn snapshot_of(after: CompanyView, round: FundingRoundView) -> OwnershipSnapshotView {
    OwnershipSnapshotView {
        round_name: round.name,
        founder_ownership: after.founders.map_values(
            |f: FounderView| (f.name, f.current_ownership),
        ),
        investor_ownership: round.investors.map_values(
            |name: Seq<char>| (name, investor_stake(round.equity_sold, round.investors.len())),
        ),
        esop_ownership: after.esop_pool.total_allocation,
        total_valuation: post_money(round.valuation, round.amount),
    }
}

/// Post-money valuation, in cents: pre-money plus the money invested.
pub fn calculate_post_money_valuation(pre_money: u64, investment_amount: u64) -> (post: u64)
    ensures
        post == post_money(pre_money, investment_amount),
{
    add_saturating(pre_money, investment_amount)
}

/// The percentage units of a company that `investment_amount` buys at a
/// post-money valuation of `post_money_valuation`.
pub fn calculate_equity_percentage(investment_amount: u64, post_money_valuation: u64) -> (equity:
    u64)
    requires
        post_money_valuation > 0,
    ensures
        equity == percentage_of(investment_amount, post_money_valuation),
{
    mul_div(investment_amount, WHOLE, post_money_valuation)
}

/// The percentage units that `shares` come to out of `total_shares`.
pub fn ownership_percentage(shares: u64, total_shares: u64) -> (ownership: u64)
    requires
        total_shares > 0,
    ensures
        ownership == percentage_of(shares, total_shares),
{
    mul_div(shares, WHOLE, total_shares)
}

/// The shares issued to the investors of a round that brings
/// `investment_amount` in at `pre_money_valuation`, the company having
/// `existing_shares` before it.
pub fn calculate_new_shares_issued(
    investment_amount: u64,
    pre_money_valuation: u64,
    existing_shares: u64,
) -> (issued: u64)
    requires
        pre_money_valuation > 0,
    ensures
        issued == issued_shares(existing_shares, pre_money_valuation, investment_amount),
{
    mul_div(existing_shares, investment_amount, pre_money_valuation)
}

/// The percentage units that a holder of `founder_shares` loses when the
/// total share count goes from `total_shares_before` to
/// `total_shares_after`; negative where the total has shrunk.
pub fn calculate_founder_dilution(
    founder_shares: u64,
    total_shares_before: u64,
    total_shares_after: u64,
) -> (dilution: i128)
    requires
        total_shares_before > 0,
        total_shares_after > 0,
    ensures
        dilution == percentage_of(founder_shares, total_shares_before) - percentage_of(
            founder_shares,
            total_shares_after,
        ),
{
    let before: u64 = ownership_percentage(founder_shares, total_shares_before);
    let after: u64 = ownership_percentage(founder_shares, total_shares_after);
    (before as i128) - (after as i128)
}

/// The total share count after a round at `valuation` that brings in
/// `amount`. It is never below the count before the round.
pub fn total_shares_after(total_shares: u64, valuation: u64, amount: u64) -> (total: u64)
    requires
        valuation > 0,
    ensures
        total == diluted_total(total_shares, valuation, amount),
        total >= total_shares,
{
    let issued: u64 = calculate_new_shares_issued(amount, valuation, total_shares);
    proof {
        lemma_diluted_total_split(total_shares, valuation, amount);
    }
    add_saturating(total_shares, issued)
}

/// The total after a round is the total before it and the shares issued:
/// scaling by post-money over pre-money adds the floor of
/// `total_shares * amount / valuation`, and nothing else.
pub proof fn lemma_diluted_total_split(total_shares: u64, valuation: u64, amount: u64)
    requires
        valuation > 0,
    ensures
        scaled(total_shares as int, valuation + amount, valuation as int) == total_shares + scaled(
            total_shares as int,
            amount as int,
            valuation as int,
        ),
        scaled(total_shares as int, amount as int, valuation as int) >= 0,
        diluted_total(total_shares, valuation, amount) == saturated(
            total_shares + issued_shares(total_shares, valuation, amount),
        ),
{
    let t = total_shares as int;
    let v = valuation as int;
    let a = amount as int;
    assert(t * (v + a) == t * a + t * v) by (nonlinear_arith);
    vstd::arithmetic::div_mod::lemma_hoist_over_denominator(t * a, t, v as nat);
    assert(t * a / v >= 0) by (nonlinear_arith)
        requires
            t >= 0,
            a >= 0,
            v > 0,
    ;
}

/// Each founder's name with their current percentage units, in order.
fn founder_stakes(founders: &Vec<Founder>) -> (stakes: Vec<(String, u64)>)
    ensures
        stakes.deep_view() == founders.deep_view().map_values(
            |f: FounderView| (f.name, f.current_ownership),
        ),
{
    let mut stakes: Vec<(String, u64)> = Vec::new();
    let mut i: usize = 0;
    while i < founders.len()
        invariant
            i <= founders.len(),
            stakes.len() == i,
            forall|j: int|
                0 <= j < i ==> stakes[j].deep_view() == (
                    founders[j].name@,
                    founders[j].current_ownership,
                ),
        decreases founders.len() - i,
    {
        stakes.push((founders[i].name.clone(), founders[i].current_ownership));
        i += 1;
    }
    stakes
}

/// Each investor's name with the same `stake`, in order.
fn investor_stakes(investors: &Vec<String>, stake: u64) -> (stakes: Vec<(String, u64)>)
    ensures
        stakes.deep_view() == investors.deep_view().map_values(|name: Seq<char>| (name, stake)),
{
    let mut stakes: Vec<(String, u64)> = Vec::new();
    let mut i: usize = 0;
    while i < investors.len()
        invariant
            i <= investors.len(),
            stakes.len() == i,
            forall|j: int| 0 <= j < i ==> stakes[j].deep_view() == (investors[j]@, stake),
        decreases investors.len() - i,
    {
        stakes.push((investors[i].clone(), stake));
        i += 1;
    }
    stakes
}

impl Company {
    /// Applies `round`: issues the new shares, restates each founder's
    /// percentage against the new total, tops up the option pool, and
    /// appends the round to the history. Returns who owns what afterwards.
    ///
    /// The round is taken as checked: nothing here rejects it. A round
    /// without a valuation, or a company without shares, has no quotient to
    /// compute and is left out.
    pub fn calculate_ownership_after_round(&mut self, round: &FundingRound) -> (snapshot:
        OwnershipSnapshot)
        requires
            round.valuation > 0,
            old(self).total_shares > 0,
        ensures
            final(self)@ == applied(old(self)@, round@),
            snapshot@ == snapshot_of(final(self)@, round@),
            final(self).total_shares >= old(self).total_shares,
    {
        let total_shares: u64 = total_shares_after(
            self.total_shares,
            round.valuation,
            round.amount,
        );
        self.total_shares = total_shares;
        let mut i: usize = 0;
        while i < self.founders.len()
            invariant
                total_shares > 0,
                self.total_shares == total_shares,
                self.name == old(self).name,
                self.funding_rounds == old(self).funding_rounds,
                self.esop_pool == old(self).esop_pool,
                self.exit_scenarios == old(self).exit_scenarios,
                i <= self.founders.len(),
                self.founders.len() == old(self).founders.len(),
                forall|j: int|
                    0 <= j < i ==> self.founders[j]@ == diluted_founder(
                        old(self).founders[j]@,
                        total_shares,
                    ),
                forall|j: int|
                    i <= j < self.founders.len() ==> self.founders[j] == old(self).founders[j],
            decreases self.founders.len() - i,
        {
            let ownership: u64 = ownership_percentage(self.founders[i].shares, total_shares);
            self.founders[i].current_ownership = ownership;
            i += 1;
        }
        self.esop_pool.total_allocation = add_saturating(
            self.esop_pool.total_allocation,
            round.esop_allocation,
        );
        self.funding_rounds.push(round.clone());
        proof {
            let after = applied(old(self)@, round@);
            assert(self@.founders =~= after.founders);
            assert(self@.funding_rounds =~= after.funding_rounds);
        }
        let stake: u64 = if round.investors.len() == 0 {
            0
        } else {
            round.equity_sold / (round.investors.len() as u64)
        };
        let founder_ownership = founder_stakes(&self.founders);
        let investor_ownership = investor_stakes(&round.investors, stake);
        proof {
            assert(investor_ownership.deep_view() =~= snapshot_of(
                self@,
                round@,
            ).investor_ownership);
        }
        OwnershipSnapshot {
            round_name: round.name.clone(),
            founder_ownership,
            investor_ownership,
            esop_ownership: self.esop_pool.total_allocation,
            total_valuation: calculate_post_money_valuation(round.valuation, round.amount),
        }
    }
}

/// Applies `round` to `company` and returns the ownership that results: see
/// [`Company::calculate_ownership_after_round`].
pub fn simulate_funding_round(company: &mut Company, round: &FundingRound) -> (snapshot:
    OwnershipSnapshot)
    requires
        round.valuation > 0,
        old(company).total_shares > 0,
    ensures
        final(company)@ == applied(old(company)@, round@),
        snapshot@ == snapshot_of(final(company)@, round@),
        final(company).total_shares >= old(company).total_shares,
{
    company.calculate_ownership_after_round(round)
}

/// The percentage units that the founders hold together.
pub open spec fn founder_ownership(founders: Seq<FounderView>) -> int
    decreases founders.len(),
{
    if founders.len() == 0 {
        0
    } else {
        founder_ownership(founders.drop_last()) + founders.last().current_ownership
    }
}

/// A company is settled when no founder is on record with less than their
/// shares come to out of the total. The company that [`Company::default`]
/// gives is settled, and so is every company a round has been applied to.
pub open spec fn is_settled(company: CompanyView) -> bool {
    forall|i: int|
        0 <= i < company.founders.len() ==> (#[trigger] company.founders[i]).current_ownership
            >= percentage_of(company.founders[i].shares, company.total_shares)
}

/// The company that [`Company::default`] gives is settled.
pub proof fn lemma_default_is_settled()
    ensures
        is_settled(default_company()),
{
    assert(scaled(5_000_000, WHOLE as int, 10_000_000) == 50 * PERCENT) by (nonlinear_arith);
}

/// A round never takes shares away, and it adds some exactly where it
/// issues at least one whole share and the count is not at its ceiling.
pub proof fn lemma_round_adds_shares(company: CompanyView, round: FundingRoundView)
    requires
        round.valuation > 0,
    ensures
        applied(company, round).total_shares >= company.total_shares,
        applied(company, round).total_shares > company.total_shares <==> (company.total_shares
            * round.amount >= round.valuation && company.total_shares < u64::MAX),
{
    let t = company.total_shares as int;
    let v = round.valuation as int;
    let a = round.amount as int;
    lemma_diluted_total_split(company.total_shares, round.valuation, round.amount);
    assert(t * a / v >= 1 <==> t * a >= v) by (nonlinear_arith)
        requires
            v > 0,
            t >= 0,
            a >= 0,
    ;
}

/// The same part is a smaller percentage, or the same, of a larger whole.
pub proof fn lemma_percentage_falls_as_whole_grows(part: u64, smaller: u64, larger: u64)
    requires
        0 < smaller <= larger,
    ensures
        percentage_of(part, larger) <= percentage_of(part, smaller),
{
    assert(part * WHOLE >= 0) by (nonlinear_arith);
    vstd::arithmetic::div_mod::lemma_div_is_ordered_by_denominator(
        part * WHOLE,
        smaller as int,
        larger as int,
    );
    assert(part * WHOLE / (larger as int) >= 0) by (nonlinear_arith)
        requires
            part * WHOLE >= 0,
            larger > 0,
    ;
}

/// Founders of whom none holds more than their counterpart hold no more
/// together.
pub proof fn lemma_founder_ownership_is_monotone(
    fewer: Seq<FounderView>,
    more: Seq<FounderView>,
)
    requires
        fewer.len() == more.len(),
        forall|i: int|
            0 <= i < fewer.len() ==> (#[trigger] fewer[i]).current_ownership
                <= more[i].current_ownership,
    ensures
        founder_ownership(fewer) <= founder_ownership(more),
    decreases fewer.len(),
{
    if fewer.len() > 0 {
        lemma_founder_ownership_is_monotone(fewer.drop_last(), more.drop_last());
    }
}

/// Applied to a settled company, a round raises no founder's percentage,
/// and so does not raise what the founders hold together.
pub proof fn lemma_round_dilutes_founders(company: CompanyView, round: FundingRoundView)
    requires
        round.valuation > 0,
        company.total_shares > 0,
        is_settled(company),
    ensures
        applied(company, round).founders.len() == company.founders.len(),
        forall|i: int|
            0 <= i < company.founders.len() ==> (#[trigger] applied(
                company,
                round,
            ).founders[i]).current_ownership <= company.founders[i].current_ownership,
        founder_ownership(applied(company, round).founders) <= founder_ownership(company.founders),
{
    let after = applied(company, round);
    lemma_round_adds_shares(company, round);
    assert forall|i: int| 0 <= i < company.founders.len() implies (#[trigger] after.founders[i])
        .current_ownership <= company.founders[i].current_ownership by {
        lemma_percentage_falls_as_whole_grows(
            company.founders[i].shares,
            company.total_shares,
            after.total_shares,
        );
    }
    lemma_founder_ownership_is_monotone(after.founders, company.founders);
}

/// Whatever a round is applied to, what results is settled: each founder is
/// on record with exactly what their shares come to.
pub proof fn lemma_applied_is_settled(company: CompanyView, round: FundingRoundView)
    ensures
        is_settled(applied(company, round)),
        forall|i: int|
            0 <= i < company.founders.len() ==> (#[trigger] applied(
                company,
                round,
            ).founders[i]).current_ownership == percentage_of(
                company.founders[i].shares,
                applied(company, round).total_shares,
            ),
{
}

} // verus!
