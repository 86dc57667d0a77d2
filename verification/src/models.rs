//! The data model: founders, funding rounds, the option pool, the company
//! that owns them, and the values derived from it.
//!
//! Each type that holds text or a list has a view, a value of the same shape
//! over `Seq`, and every contract of the library is stated over views.

use vstd::prelude::*;
use crate::units::PERCENT;

verus! {

/// The legal form of a funding round.
#[derive(Debug, Clone, Copy, PartialEq, Eq, Structural)]
pub enum DealType {
    Equity,
    ConvertibleNote,
    SAFE,
    PreferredStock,
}

/// The kind of event at which the company is sold or listed.
#[derive(Debug, Clone, Copy, PartialEq, Eq, Structural)]
pub enum ExitType {
    IPO,
    Acquisition,
    Merger,
    SecondarySale,
}

/// A founder and the stake they hold.
///
/// `shares` is what the founder was issued; `current_ownership` is what those
/// shares came to when the last round was applied. The two are written
/// independently and are not derived from one another on reading.
#[derive(Debug, PartialEq, Eq)]
pub struct Founder {
    pub name: String,
    /// Percentage units held when the founder was recorded.
    pub initial_ownership: u64,
    /// Percentage units held after the last applied round.
    pub current_ownership: u64,
    pub shares: u64,
}

/// The view of a [`Founder`].
pub struct FounderView {
    pub name: Seq<char>,
    pub initial_ownership: u64,
    pub current_ownership: u64,
    pub shares: u64,
}

impl View for Founder {
    type V = FounderView;

    open spec fn view(&self) -> FounderView {
        FounderView {
            name: self.name@,
            initial_ownership: self.initial_ownership,
            current_ownership: self.current_ownership,
            shares: self.shares,
        }
    }
}

impl DeepView for Founder {
    type V = FounderView;

    open spec fn deep_view(&self) -> FounderView {
        self@
    }
}

impl Clone for Founder {
    fn clone(&self) -> (copy: Self)
        ensures
            copy@ == self@,
    {
        Founder {
            name: self.name.clone(),
            initial_ownership: self.initial_ownership,
            current_ownership: self.current_ownership,
            shares: self.shares,
        }
    }
}

/// A financing event as it is proposed and, once applied, recorded.
#[derive(Debug, PartialEq, Eq)]
pub struct FundingRound {
    pub name: String,
    /// Money invested, in cents.
    pub amount: u64,
    /// Pre-money valuation, in cents.
    pub valuation: u64,
    /// Percentage units of the company sold in the round.
    pub equity_sold: u64,
    pub deal_type: DealType,
    pub investors: Vec<String>,
    /// Percentage units added to the option pool by the round.
    pub esop_allocation: u64,
    /// Recorded with the round; no calculation reads it.
    pub anti_dilution: bool,
}

/// The view of a [`FundingRound`].
pub struct FundingRoundView {
    pub name: Seq<char>,
    pub amount: u64,
    pub valuation: u64,
    pub equity_sold: u64,
    pub deal_type: DealType,
    pub investors: Seq<Seq<char>>,
    pub esop_allocation: u64,
    pub anti_dilution: bool,
}

impl View for FundingRound {
    type V = FundingRoundView;

    open spec fn view(&self) -> FundingRoundView {
        FundingRoundView {
            name: self.name@,
            amount: self.amount,
            valuation: self.valuation,
            equity_sold: self.equity_sold,
            deal_type: self.deal_type,
            investors: self.investors.deep_view(),
            esop_allocation: self.esop_allocation,
            anti_dilution: self.anti_dilution,
        }
    }
}

impl DeepView for FundingRound {
    type V = FundingRoundView;

    open spec fn deep_view(&self) -> FundingRoundView {
        self@
    }
}

/// A copy of a list of names.
pub fn clone_names(names: &Vec<String>) -> (copy: Vec<String>)
    ensures
        copy@ == names@,
{
    let mut copy: Vec<String> = Vec::new();
    let mut i: usize = 0;
    while i < names.len()
        invariant
            i <= names.len(),
            copy@ == names@.take(i as int),
        decreases names.len() - i,
    {
        copy.push(names[i].clone());
        i += 1;
    }
    copy
}

impl Clone for FundingRound {
    fn clone(&self) -> (copy: Self)
        ensures
            copy@ == self@,
    {
        FundingRound {
            name: self.name.clone(),
            amount: self.amount,
            valuation: self.valuation,
            equity_sold: self.equity_sold,
            deal_type: self.deal_type,
            investors: clone_names(&self.investors),
            esop_allocation: self.esop_allocation,
            anti_dilution: self.anti_dilution,
        }
    }
}

/// The share of the company set aside for employee options.
///
/// Only `total_allocation` is written by the library, and only upwards.
#[derive(Debug, Clone, Copy, PartialEq, Eq, Structural)]
pub struct ESOPPool {
    pub total_allocation: u64,
    pub allocated: u64,
    pub reserved: u64,
}

/// What one founder receives at an exit.
#[derive(Debug, PartialEq, Eq)]
pub struct FounderPayout {
    pub founder_name: String,
    /// Percentage units held at the exit.
    pub ownership_at_exit: u64,
    pub shares_at_exit: u64,
    /// The founder's part of the exit valuation, in cents.
    pub payout_amount: u64,
    /// Percentage units lost since the founder was recorded; negative where
    /// the stake has grown.
    pub dilution_impact: i128,
}

/// The view of a [`FounderPayout`].
pub struct FounderPayoutView {
    pub founder_name: Seq<char>,
    pub ownership_at_exit: u64,
    pub shares_at_exit: u64,
    pub payout_amount: u64,
    pub dilution_impact: i128,
}

impl View for FounderPayout {
    type V = FounderPayoutView;

    open spec fn view(&self) -> FounderPayoutView {
        FounderPayoutView {
            founder_name: self.founder_name@,
            ownership_at_exit: self.ownership_at_exit,
            shares_at_exit: self.shares_at_exit,
            payout_amount: self.payout_amount,
            dilution_impact: self.dilution_impact,
        }
    }
}

impl DeepView for FounderPayout {
    type V = FounderPayoutView;

    open spec fn deep_view(&self) -> FounderPayoutView {
        self@
    }
}

impl Clone for FounderPayout {
    fn clone(&self) -> (copy: Self)
        ensures
            copy@ == self@,
    {
        FounderPayout {
            founder_name: self.founder_name.clone(),
            ownership_at_exit: self.ownership_at_exit,
            shares_at_exit: self.shares_at_exit,
            payout_amount: self.payout_amount,
            dilution_impact: self.dilution_impact,
        }
    }
}

/// A hypothetical sale of the company and what it pays each founder.
#[derive(Debug, PartialEq, Eq)]
pub struct ExitScenario {
    pub name: String,
    /// The price paid for the whole company, in cents.
    pub exit_valuation: u64,
    pub exit_type: ExitType,
    pub founder_payouts: Vec<FounderPayout>,
}

/// The view of an [`ExitScenario`].
pub struct ExitScenarioView {
    pub name: Seq<char>,
    pub exit_valuation: u64,
    pub exit_type: ExitType,
    pub founder_payouts: Seq<FounderPayoutView>,
}

impl View for ExitScenario {
    type V = ExitScenarioView;

    open spec fn view(&self) -> ExitScenarioView {
        ExitScenarioView {
            name: self.name@,
            exit_valuation: self.exit_valuation,
            exit_type: self.exit_type,
            founder_payouts: self.founder_payouts.deep_view(),
        }
    }
}

impl DeepView for ExitScenario {
    type V = ExitScenarioView;

    open spec fn deep_view(&self) -> ExitScenarioView {
        self@
    }
}

impl Clone for ExitScenario {
    fn clone(&self) -> (copy: Self)
        ensures
            copy@ == self@,
    {
        let mut founder_payouts: Vec<FounderPayout> = Vec::new();
        let mut i: usize = 0;
        while i < self.founder_payouts.len()
            invariant
                i <= self.founder_payouts.len(),
                founder_payouts.len() == i,
                forall|j: int| 0 <= j < i ==> founder_payouts[j]@ == self.founder_payouts[j]@,
            decreases self.founder_payouts.len() - i,
        {
            founder_payouts.push(self.founder_payouts[i].clone());
            i += 1;
        }
        assert(founder_payouts.deep_view() =~= self.founder_payouts.deep_view());
        ExitScenario {
            name: self.name.clone(),
            exit_valuation: self.exit_valuation,
            exit_type: self.exit_type,
            founder_payouts,
        }
    }
}

/// Who owns what right after a round: returned when the round is applied,
/// kept nowhere.
#[derive(Debug, PartialEq, Eq)]
pub struct OwnershipSnapshot {
    pub round_name: String,
    /// Each founder with their percentage units, in the company's order.
    pub founder_ownership: Vec<(String, u64)>,
    /// Each investor of the round with their percentage units, in the
    /// round's order.
    pub investor_ownership: Vec<(String, u64)>,
    /// The option pool's percentage units after the round.
    pub esop_ownership: u64,
    /// Post-money valuation, in cents.
    pub total_valuation: u64,
}

/// The view of an [`OwnershipSnapshot`].
pub struct OwnershipSnapshotView {
    pub round_name: Seq<char>,
    pub founder_ownership: Seq<(Seq<char>, u64)>,
    pub investor_ownership: Seq<(Seq<char>, u64)>,
    pub esop_ownership: u64,
    pub total_valuation: u64,
}

impl View for OwnershipSnapshot {
    type V = OwnershipSnapshotView;

    open spec fn view(&self) -> OwnershipSnapshotView {
        OwnershipSnapshotView {
            round_name: self.round_name@,
            founder_ownership: self.founder_ownership.deep_view(),
            investor_ownership: self.investor_ownership.deep_view(),
            esop_ownership: self.esop_ownership,
            total_valuation: self.total_valuation,
        }
    }
}

/// A copy of a list of names, each with its percentage units.
fn clone_stakes(stakes: &Vec<(String, u64)>) -> (copy: Vec<(String, u64)>)
    ensures
        copy.deep_view() == stakes.deep_view(),
{
    let mut copy: Vec<(String, u64)> = Vec::new();
    let mut i: usize = 0;
    while i < stakes.len()
        invariant
            i <= stakes.len(),
            copy.len() == i,
            forall|j: int| 0 <= j < i ==> copy[j].deep_view() == stakes[j].deep_view(),
        decreases stakes.len() - i,
    {
        copy.push((stakes[i].0.clone(), stakes[i].1));
        i += 1;
    }
    copy
}

impl Clone for OwnershipSnapshot {
    fn clone(&self) -> (copy: Self)
        ensures
            copy@ == self@,
    {
        OwnershipSnapshot {
            round_name: self.round_name.clone(),
            founder_ownership: clone_stakes(&self.founder_ownership),
            investor_ownership: clone_stakes(&self.investor_ownership),
            esop_ownership: self.esop_ownership,
            total_valuation: self.total_valuation,
        }
    }
}

/// The company: the state that rounds are applied to and that the cap table
/// and the exit projections are read from.
#[derive(Debug, PartialEq, Eq)]
pub struct Company {
    pub name: String,
    pub total_shares: u64,
    pub founders: Vec<Founder>,
    /// The rounds applied so far, oldest first.
    pub funding_rounds: Vec<FundingRound>,
    pub esop_pool: ESOPPool,
    /// A place for the caller to keep projections; the library never reads
    /// or writes it.
    pub exit_scenarios: Vec<ExitScenario>,
}

/// The view of a [`Company`].
pub struct CompanyView {
    pub name: Seq<char>,
    pub total_shares: u64,
    pub founders: Seq<FounderView>,
    pub funding_rounds: Seq<FundingRoundView>,
    pub esop_pool: ESOPPool,
    pub exit_scenarios: Seq<ExitScenarioView>,
}

impl View for Company {
    type V = CompanyView;

    open spec fn view(&self) -> CompanyView {
        CompanyView {
            name: self.name@,
            total_shares: self.total_shares,
            founders: self.founders.deep_view(),
            funding_rounds: self.funding_rounds.deep_view(),
            esop_pool: self.esop_pool,
            exit_scenarios: self.exit_scenarios.deep_view(),
        }
    }
}

impl Clone for Company {
    fn clone(&self) -> (copy: Self)
        ensures
            copy@ == self@,
    {
        let mut founders: Vec<Founder> = Vec::new();
        let mut i: usize = 0;
        while i < self.founders.len()
            invariant
                i <= self.founders.len(),
                founders.len() == i,
                forall|j: int| 0 <= j < i ==> founders[j]@ == self.founders[j]@,
            decreases self.founders.len() - i,
        {
            founders.push(self.founders[i].clone());
            i += 1;
        }
        let mut funding_rounds: Vec<FundingRound> = Vec::new();
        let mut k: usize = 0;
        while k < self.funding_rounds.len()
            invariant
                k <= self.funding_rounds.len(),
                funding_rounds.len() == k,
                forall|j: int| 0 <= j < k ==> funding_rounds[j]@ == self.funding_rounds[j]@,
            decreases self.funding_rounds.len() - k,
        {
            funding_rounds.push(self.funding_rounds[k].clone());
            k += 1;
        }
        let mut exit_scenarios: Vec<ExitScenario> = Vec::new();
        let mut n: usize = 0;
        while n < self.exit_scenarios.len()
            invariant
                n <= self.exit_scenarios.len(),
                exit_scenarios.len() == n,
                forall|j: int| 0 <= j < n ==> exit_scenarios[j]@ == self.exit_scenarios[j]@,
            decreases self.exit_scenarios.len() - n,
        {
            exit_scenarios.push(self.exit_scenarios[n].clone());
            n += 1;
        }
        assert(founders.deep_view() =~= self.founders.deep_view());
        assert(funding_rounds.deep_view() =~= self.funding_rounds.deep_view());
        assert(exit_scenarios.deep_view() =~= self.exit_scenarios.deep_view());
        Company {
            name: self.name.clone(),
            total_shares: self.total_shares,
            founders,
            funding_rounds,
            esop_pool: self.esop_pool,
            exit_scenarios,
        }
    }
}

/// The company that every session starts from: two founders with half of
/// ten million shares each, no round, an empty option pool.
pub open spec fn default_company() -> CompanyView {
    CompanyView {
        name: "My Startup"@,
        total_shares: 10_000_000,
        founders: seq![
            FounderView {
                name: "Founder 1"@,
                initial_ownership: (50 * PERCENT) as u64,
                current_ownership: (50 * PERCENT) as u64,
                shares: 5_000_000,
            },
            FounderView {
                name: "Founder 2"@,
                initial_ownership: (50 * PERCENT) as u64,
                current_ownership: (50 * PERCENT) as u64,
                shares: 5_000_000,
            },
        ],
        funding_rounds: Seq::empty(),
        esop_pool: ESOPPool { total_allocation: 0, allocated: 0, reserved: 0 },
        exit_scenarios: Seq::empty(),
    }
}

impl Default for Company {
    fn default() -> (company: Self)
        ensures
            company@ == default_company(),
    {
        let mut founders: Vec<Founder> = Vec::new();
        founders.push(
            Founder {
                name: String::from_str("Founder 1"),
                initial_ownership: 50 * PERCENT,
                current_ownership: 50 * PERCENT,
                shares: 5_000_000,
            },
        );
        founders.push(
            Founder {
                name: String::from_str("Founder 2"),
                initial_ownership: 50 * PERCENT,
                current_ownership: 50 * PERCENT,
                shares: 5_000_000,
            },
        );
        let company = Company {
            name: String::from_str("My Startup"),
            total_shares: 10_000_000,
            founders,
            funding_rounds: Vec::new(),
            esop_pool: ESOPPool { total_allocation: 0, allocated: 0, reserved: 0 },
            exit_scenarios: Vec::new(),
        };
        assert(company@.founders =~= default_company().founders);
        assert(company@.funding_rounds =~= default_company().funding_rounds);
        assert(company@.exit_scenarios =~= default_company().exit_scenarios);
        company
    }
}

} // verus!
