//! What a campaign does with money: it takes credit while it is active and
//! has not ended.

use vstd::prelude::*;
use crate::errors::SaviaError;
use crate::records::{Campaign, CampaignView};

verus! {

/// Why a campaign refuses credit at `now`, if it does: it was closed, or its
/// end has passed.
pub open spec fn check_credit(c: CampaignView, now: u64) -> Option<SaviaError> {
    if !c.active {
        Some(SaviaError::CampaignInactive)
    } else if now > c.end_time {
        Some(SaviaError::CampaignEnded)
    } else {
        None
    }
}

/// The campaign after `amount` was credited to it.
pub open spec fn credited(c: CampaignView, amount: u64) -> CampaignView {
    CampaignView { current_amount: (c.current_amount + amount) as u64, ..c }
}

impl Campaign {
    /// Whether the campaign takes donations at `now`: it is active and its
    /// end has not passed.
    pub fn is_open(&self, now: u64) -> (open: bool)
        ensures
            open == (check_credit(self@, now) is None),
    {
        self.active && now <= self.end_time
    }

    /// Adds `amount` to what the campaign holds.
    pub fn credit(&mut self, amount: u64, now: u64) -> (r: Result<(), SaviaError>)
        requires
            check_credit(old(self)@, now) is None ==> old(self).current_amount + amount
                <= u64::MAX,
        ensures
            match r {
                Ok(()) => check_credit(old(self)@, now) is None && final(self)@ == credited(
                    old(self)@,
                    amount,
                ),
                Err(e) => check_credit(old(self)@, now) == Some(e) && final(self)@ == old(self)@,
            },
    {
        if !self.active {
            return Err(SaviaError::CampaignInactive);
        }
        if now > self.end_time {
            return Err(SaviaError::CampaignEnded);
        }
        self.current_amount = self.current_amount + amount;
        Ok(())
    }
}

} // verus!
