//! The trust score of a principal: a value in `[0, 100]` recomputed from the
//! principal's donation and campaign history.

use vstd::prelude::*;
use crate::records::{Address, TrustScore, TrustScoreView};

verus! {

/// The score of a principal that has no history yet.
pub const BASELINE_SCORE: u32 = 50;

/// The highest score.
pub const MAX_SCORE: u32 = 100;

pub open spec fn min_int(a: int, b: int) -> int {
    if a <= b {
        a
    } else {
        b
    }
}

/// The score of a donor with `donation_count` donations that add up to
/// `total_donated`: the baseline, up to 30 points for frequency, up to 15 for
/// volume, and 5 more from the second donation on.
pub open spec fn donor_score(donation_count: u32, total_donated: u64) -> int {
    let frequency = min_int(donation_count as int, 100) * 30 / 100;
    let volume = min_int(total_donated as int / 1000, 100) * 15 / 100;
    let consistency: int = if donation_count > 1 {
        5
    } else {
        0
    };
    min_int(BASELINE_SCORE + frequency + volume + consistency, MAX_SCORE as int)
}

/// The score of a beneficiary after its `campaigns_created`-th campaign, from
/// the score it had before.
pub open spec fn beneficiary_score(score: u32, campaigns_created: u32) -> int {
    min_int(score + min_int(campaigns_created as int, 20), MAX_SCORE as int)
}

/// Both scores lie in `[0, 100]`, whatever the history.
pub proof fn lemma_scores_in_range(
    donation_count: u32,
    total_donated: u64,
    score: u32,
    campaigns_created: u32,
)
    ensures
        BASELINE_SCORE <= donor_score(donation_count, total_donated) <= MAX_SCORE,
        0 <= beneficiary_score(score, campaigns_created) <= MAX_SCORE,
        score <= MAX_SCORE ==> score <= beneficiary_score(score, campaigns_created),
{
}

/// The record of a principal without history, created at `now`.
pub open spec fn fresh_score(entity: Seq<char>, now: u64) -> TrustScoreView {
    TrustScoreView {
        entity,
        score: BASELINE_SCORE,
        verification_level: 0,
        donation_count: 0,
        total_donated: 0,
        campaigns_created: 0,
        last_updated: now,
    }
}

/// The record after a donation of `amount` at `now`.
pub open spec fn after_donation(t: TrustScoreView, amount: u64, now: u64) -> TrustScoreView {
    let donation_count = (t.donation_count + 1) as u32;
    let total_donated = (t.total_donated + amount) as u64;
    TrustScoreView {
        donation_count,
        total_donated,
        last_updated: now,
        score: donor_score(donation_count, total_donated) as u32,
        ..t
    }
}

/// The record after the principal created a campaign at `now`.
pub open spec fn after_campaign(t: TrustScoreView, now: u64) -> TrustScoreView {
    let campaigns_created = (t.campaigns_created + 1) as u32;
    TrustScoreView {
        campaigns_created,
        last_updated: now,
        score: beneficiary_score(t.score, campaigns_created) as u32,
        ..t
    }
}

/// Computes [`donor_score`].
pub fn compute_donor_score(donation_count: u32, total_donated: u64) -> (score: u32)
    ensures
        score == donor_score(donation_count, total_donated),
        BASELINE_SCORE <= score <= MAX_SCORE,
{
    let donation_factor: u64 = if donation_count < 100 {
        donation_count as u64
    } else {
        100
    };
    let per_thousand: u64 = total_donated / 1000;
    let amount_factor: u64 = if per_thousand < 100 {
        per_thousand
    } else {
        100
    };
    let consistency_bonus: u64 = if donation_count > 1 {
        5
    } else {
        0
    };
    let new_score: u64 = BASELINE_SCORE as u64 + (donation_factor * 30 / 100) + (amount_factor * 15 / 100)
        + consistency_bonus;
    if new_score < MAX_SCORE as u64 {
        new_score as u32
    } else {
        MAX_SCORE
    }
}

/// Computes [`beneficiary_score`].
pub fn compute_beneficiary_score(score: u32, campaigns_created: u32) -> (new_score: u32)
    ensures
        new_score == beneficiary_score(score, campaigns_created),
        new_score <= MAX_SCORE,
{
    let campaign_factor: u64 = if campaigns_created < 20 {
        campaigns_created as u64
    } else {
        20
    };
    let raised: u64 = score as u64 + campaign_factor;
    if raised < MAX_SCORE as u64 {
        raised as u32
    } else {
        MAX_SCORE
    }
}

impl TrustScore {
    /// The record of a principal without history.
    pub fn baseline(entity: Address, now: u64) -> (t: TrustScore)
        ensures
            t@ == fresh_score(entity@, now),
    {
        TrustScore {
            entity,
            score: BASELINE_SCORE,
            verification_level: 0,
            donation_count: 0,
            total_donated: 0,
            campaigns_created: 0,
            last_updated: now,
        }
    }

    /// Counts a donation of `amount` and recomputes the score.
    pub fn record_donation(&mut self, amount: u64, now: u64)
        requires
            old(self).donation_count < u32::MAX,
            old(self).total_donated + amount <= u64::MAX,
        ensures
            final(self)@ == after_donation(old(self)@, amount, now),
            final(self).score <= MAX_SCORE,
    {
        self.donation_count = self.donation_count + 1;
        self.total_donated = self.total_donated + amount;
        self.last_updated = now;
        self.score = compute_donor_score(self.donation_count, self.total_donated);
    }

    /// Counts a created campaign and raises the score.
    pub fn record_campaign_created(&mut self, now: u64)
        requires
            old(self).campaigns_created < u32::MAX,
        ensures
            final(self)@ == after_campaign(old(self)@, now),
            final(self).score <= MAX_SCORE,
    {
        self.campaigns_created = self.campaigns_created + 1;
        self.last_updated = now;
        self.score = compute_beneficiary_score(self.score, self.campaigns_created);
    }
}

} // verus!
