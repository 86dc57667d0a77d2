//! The cap table: every stake in the company as one flat list.
//!
//! Founders come first, in the company's order; then the option pool, if it
//! holds anything; then the investors of every applied round, oldest round
//! first. An investor who took part in two rounds has two rows.

use vstd::prelude::*;
use crate::dilution::investor_stake;
use crate::models::{Company, CompanyView, Founder, FounderView, FundingRound, FundingRoundView};
use crate::units::{mul_div, saturated, scaled, WHOLE};

verus! {

/// One row of the cap table: the holder's name, their percentage units, and
/// their share count.
pub type CapTableRow = (String, u64, u64);

/// The view of a [`CapTableRow`].
pub type CapTableRowView = (Seq<char>, u64, u64);

/// The shares that `ownership` percentage units of `total_shares` come to.
pub open spec fn stake_shares(total_shares: u64, ownership: u64) -> u64 {
    saturated(scaled(total_shares as int, ownership as int, WHOLE as int))
}

/// One row per founder, with the percentage and the shares on record.
pub open spec fn founder_rows(founders: Seq<FounderView>) -> Seq<CapTableRowView> {
    founders.map_values(|f: FounderView| (f.name, f.current_ownership, f.shares))
}

/// The option pool's row, or nothing where the pool is empty.
pub open spec fn pool_rows(company: CompanyView) -> Seq<CapTableRowView> {
    let allocation = company.esop_pool.total_allocation;
    if allocation > 0 {
        seq![("ESOP Pool"@, allocation, stake_shares(company.total_shares, allocation))]
    } else {
        Seq::empty()
    }
}

/// One row per investor of `round`: an even part of the equity sold, and the
/// shares that part comes to out of `total_shares`.
pub open spec fn round_rows(round: FundingRoundView, total_shares: u64) -> Seq<CapTableRowView> {
    let stake = investor_stake(round.equity_sold, round.investors.len());
    round.investors.map_values(|name: Seq<char>| (name, stake, stake_shares(total_shares, stake)))
}

/// The rows of every round in `rounds`, oldest round first.
pub open spec fn investor_rows(rounds: Seq<FundingRoundView>, total_shares: u64) -> Seq<
    CapTableRowView,
>
    decreases rounds.len(),
{
    if rounds.len() == 0 {
        Seq::empty()
    } else {
        investor_rows(rounds.drop_last(), total_shares) + round_rows(rounds.last(), total_shares)
    }
}

/// The cap table of `company`.
pub open spec fn cap_table(company: CompanyView) -> Seq<CapTableRowView> {
    founder_rows(company.founders) + pool_rows(company) + investor_rows(
        company.funding_rounds,
        company.total_shares,
    )
}

/// The number of investor rows that `rounds` give: the investors of every
/// round, counted once per round they are in.
pub open spec fn investor_count(rounds: Seq<FundingRoundView>) -> nat
    decreases rounds.len(),
{
    if rounds.len() == 0 {
        0
    } else {
        investor_count(rounds.drop_last()) + rounds.last().investors.len()
    }
}

/// The cap table has one row per founder, one for the option pool where it
/// holds anything, and one per investor of each applied round.
pub proof fn lemma_cap_table_len(company: CompanyView)
    ensures
        cap_table(company).len() == company.founders.len() + (if company.esop_pool.total_allocation
            > 0 {
            1nat
        } else {
            0nat
        }) + investor_count(company.funding_rounds),
{
    lemma_investor_rows_len(company.funding_rounds, company.total_shares);
}

/// The rows of a list of rounds are as many as its investors.
pub proof fn lemma_investor_rows_len(rounds: Seq<FundingRoundView>, total_shares: u64)
    ensures
        investor_rows(rounds, total_shares).len() == investor_count(rounds),
    decreases rounds.len(),
{
    if rounds.len() > 0 {
        lemma_investor_rows_len(rounds.drop_last(), total_shares);
    }
}

/// The shares that `ownership` percentage units of `total_shares` come to.
pub fn shares_for_stake(total_shares: u64, ownership: u64) -> (shares: u64)
    ensures
        shares == stake_shares(total_shares, ownership),
{
    mul_div(total_shares, ownership, WHOLE)
}

/// Appends the rows of `round` to `table`.
fn push_round_rows(table: &mut Vec<CapTableRow>, round: &FundingRound, total_shares: u64)
    ensures
        final(table).deep_view() == old(table).deep_view() + round_rows(round@, total_shares),
{
    let count: usize = round.investors.len();
    if count == 0 {
        return ;
    }
    let stake: u64 = round.equity_sold / (count as u64);
    let shares: u64 = shares_for_stake(total_shares, stake);
    let mut i: usize = 0;
    while i < count
        invariant
            count == round.investors.len(),
            i <= count,
            stake == investor_stake(round.equity_sold, round.investors.len() as nat),
            shares == stake_shares(total_shares, stake),
            table.deep_view() == old(table).deep_view() + round_rows(round@, total_shares).take(
                i as int,
            ),
        decreases count - i,
    {
        let ghost before = table.deep_view();
        table.push((round.investors[i].clone(), stake, shares));
        assert(table.deep_view() =~= before.push((round.investors[i as int]@, stake, shares)));
        i += 1;
    }
}

/// The cap table of `company`: founders, then the option pool if it holds
/// anything, then the investors of each applied round, oldest round first.
///
/// A founder's row carries the percentage and shares on record. The pool and
/// each investor are given the shares their percentage comes to out of the
/// current total. Percentages are reported as they stand; they are not made
/// to add up to the whole.
pub fn calculate_cap_table_summary(company: &Company) -> (table: Vec<CapTableRow>)
    ensures
        table.deep_view() == cap_table(company@),
        table.len() == company.founders.len() + (if company.esop_pool.total_allocation > 0 {
            1nat
        } else {
            0nat
        }) + investor_count(company@.funding_rounds),
{
    proof {
        lemma_cap_table_len(company@);
    }
    let mut table: Vec<CapTableRow> = Vec::new();
    let mut i: usize = 0;
    while i < company.founders.len()
        invariant
            i <= company.founders.len(),
            table.deep_view() == founder_rows(company@.founders).take(i as int),
        decreases company.founders.len() - i,
    {
        let founder: &Founder = &company.founders[i];
        table.push((founder.name.clone(), founder.current_ownership, founder.shares));
        assert(founder_rows(company@.founders).take(i + 1) =~= founder_rows(
            company@.founders,
        ).take(i as int).push((founder.name@, founder.current_ownership, founder.shares)));
        i += 1;
    }
    let allocation: u64 = company.esop_pool.total_allocation;
    if allocation > 0 {
        let ghost before = table.deep_view();
        let shares: u64 = shares_for_stake(company.total_shares, allocation);
        table.push((String::from_str("ESOP Pool"), allocation, shares));
        assert(table.deep_view() =~= before + pool_rows(company@));
    }
    let ghost head = table.deep_view();
    let mut k: usize = 0;
    while k < company.funding_rounds.len()
        invariant
            k <= company.funding_rounds.len(),
            head == founder_rows(company@.founders) + pool_rows(company@),
            table.deep_view() == head + investor_rows(
                company@.funding_rounds.take(k as int),
                company.total_shares,
            ),
        decreases company.funding_rounds.len() - k,
    {
        push_round_rows(&mut table, &company.funding_rounds[k], company.total_shares);
        proof {
            let rounds = company@.funding_rounds;
            assert(rounds.take(k + 1).drop_last() =~= rounds.take(k as int));
        }
        k += 1;
    }
    assert(company@.funding_rounds.take(company.funding_rounds.len() as int)
        =~= company@.funding_rounds);
    table
}

/// Reading the cap table twice, with nothing applied in between, reads the
/// same table: what [`calculate_cap_table_summary`] returns depends on the
/// company alone.
pub proof fn lemma_cap_table_reads_agree(
    company: &Company,
    first: Vec<CapTableRow>,
    second: Vec<CapTableRow>,
)
    requires
        first.deep_view() == cap_table(company@),
        second.deep_view() == cap_table(company@),
    ensures
        first.deep_view() == second.deep_view(),
{
}

} // verus!
