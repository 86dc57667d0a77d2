//! Editing the founders of a company.
//!
//! A founder is recorded with nothing, then given a stake: a percentage,
//! and the shares that percentage comes to out of the total at that moment.
//! Rounds applied later restate the percentage and leave the shares.

use vstd::prelude::*;
use crate::cap_table::{shares_for_stake, stake_shares};
use crate::dilution::percentage_of;
use crate::models::{Company, CompanyView, Founder, FounderView};
use crate::units::{scaled, WHOLE};

verus! {

/// A founder as first recorded: a name, and no stake.
pub open spec fn new_founder(name: Seq<char>) -> FounderView {
    FounderView { name, initial_ownership: 0, current_ownership: 0, shares: 0 }
}

/// A founder given a stake of `ownership` percentage units of
/// `total_shares`: both percentages are the stake, the shares what it comes
/// to.
pub open spec fn staked_founder(founder: FounderView, ownership: u64, total_shares: u64)
    -> FounderView {
    FounderView {
        name: founder.name,
        initial_ownership: ownership,
        current_ownership: ownership,
        shares: stake_shares(total_shares, ownership),
    }
}

impl Company {
    /// Records a new founder under `name`, after those there are, holding
    /// nothing yet.
    pub fn add_founder(&mut self, name: String)
        ensures
            final(self)@ == (CompanyView {
                founders: old(self)@.founders.push(new_founder(name@)),
                ..old(self)@
            }),
    {
        self.founders.push(
            Founder { name, initial_ownership: 0, current_ownership: 0, shares: 0 },
        );
        assert(self@.founders =~= old(self)@.founders.push(new_founder(name@)));
    }

    /// Takes the founder at `index` off the record; those after move up one
    /// place.
    pub fn remove_founder(&mut self, index: usize)
        requires
            index < old(self).founders.len(),
        ensures
            final(self)@ == (CompanyView {
                founders: old(self)@.founders.remove(index as int),
                ..old(self)@
            }),
    {
        self.founders.remove(index);
        assert(self@.founders =~= old(self)@.founders.remove(index as int));
    }

    /// Gives the founder at `index` the name `name`. Where there is no such
    /// founder, nothing changes.
    pub fn rename_founder(&mut self, index: usize, name: String)
        ensures
            index < old(self).founders.len() ==> final(self)@ == (CompanyView {
                founders: old(self)@.founders.update(
                    index as int,
                    FounderView { name: name@, ..old(self)@.founders[index as int] },
                ),
                ..old(self)@
            }),
            index >= old(self).founders.len() ==> final(self)@ == old(self)@,
    {
        if index < self.founders.len() {
            self.founders[index].name = name;
            assert(self@.founders =~= old(self)@.founders.update(
                index as int,
                FounderView { name: name@, ..old(self)@.founders[index as int] },
            ));
        }
    }

    /// Gives the founder at `index` a stake of `ownership` percentage
    /// units: that is their initial and their current percentage, and their
    /// shares are what it comes to out of the total as it stands. Where
    /// there is no such founder, nothing changes.
    pub fn set_founder_ownership(&mut self, index: usize, ownership: u64)
        ensures
            index < old(self).founders.len() ==> final(self)@ == (CompanyView {
                founders: old(self)@.founders.update(
                    index as int,
                    staked_founder(
                        old(self)@.founders[index as int],
                        ownership,
                        old(self).total_shares,
                    ),
                ),
                ..old(self)@
            }),
            index >= old(self).founders.len() ==> final(self)@ == old(self)@,
    {
        if index < self.founders.len() {
            let shares: u64 = shares_for_stake(self.total_shares, ownership);
            self.founders[index].initial_ownership = ownership;
            self.founders[index].current_ownership = ownership;
            self.founders[index].shares = shares;
            assert(self@.founders =~= old(self)@.founders.update(
                index as int,
                staked_founder(
                    old(self)@.founders[index as int],
                    ownership,
                    old(self).total_shares,
                ),
            ));
        }
    }
}

/// A founder who has just been given a stake is on record with no less than
/// their shares come to: shares are rounded down from the percentage, and
/// the percentage they come to is rounded down again.
pub proof fn lemma_staked_founder_is_settled(
    founder: FounderView,
    ownership: u64,
    total_shares: u64,
)
    requires
        total_shares > 0,
    ensures
        percentage_of(staked_founder(founder, ownership, total_shares).shares, total_shares)
            <= staked_founder(founder, ownership, total_shares).current_ownership,
{
    let t = total_shares as int;
    let w = WHOLE as int;
    let o = ownership as int;
    let exact = scaled(t, o, w);
    let shares = stake_shares(total_shares, ownership) as int;
    assert(0 <= exact && exact * w <= t * o) by (nonlinear_arith)
        requires
            exact == t * o / w,
            w > 0,
            t >= 0,
            o >= 0,
    ;
    assert(shares * w <= t * o) by (nonlinear_arith)
        requires
            0 <= shares <= exact,
            exact * w <= t * o,
            w > 0,
    ;
    assert(shares * w / t <= o) by (nonlinear_arith)
        requires
            shares * w <= t * o,
            t > 0,
            shares * w >= 0,
    ;
}

} // verus!
