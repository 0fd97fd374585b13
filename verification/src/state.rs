//! The ledger as a mathematical value, and what every operation does to it.
//!
//! Each operation has a `check_*` function, which names the error that
//! refuses it (or none), and an `after_*` function, which gives the ledger
//! after it succeeded. Where an operation derives an identifier, `after_*`
//! takes the identifier as an argument.

use vstd::prelude::*;
use crate::errors::SaviaError;
use crate::fees::net_of;
use crate::badge::{badge_name, metadata_uri};
use crate::campaign::{check_credit, credited};
use crate::records::{
    Campaign,
    CampaignView,
    DataKeyView,
    Disbursement,
    DisbursementStatus,
    DisbursementView,
    Donation,
    DonationView,
    NFTBadge,
    NFTBadgeView,
    PlatformStats,
    TrustScore,
    TrustScoreView,
};
use crate::store::row_key;
use crate::table::{
    distinct_keys,
    lemma_lookup,
    lemma_upsert,
    lemma_upsert_distinct,
    lemma_upsert_rows,
    row_of,
    upsert,
};
use crate::fees::{DEFAULT_FEE_BPS, MAX_FEE_BPS};
use crate::trust::{
    after_campaign,
    after_donation,
    fresh_score,
    lemma_scores_in_range,
    MAX_SCORE,
};

verus! {

/// The whole state of the ledger. Each table lists its rows in the order in
/// which their keys were first written.
pub struct LedgerView {
    pub admin: Option<Seq<char>>,
    pub platform_fee: Option<u64>,
    pub campaign_counter: u64,
    pub donation_counter: u64,
    pub nft_counter: u64,
    pub disbursement_counter: u64,
    pub stats: PlatformStats,
    pub campaigns: Seq<CampaignView>,
    pub donations: Seq<DonationView>,
    pub trust_scores: Seq<TrustScoreView>,
    pub nfts: Seq<NFTBadgeView>,
    pub disbursements: Seq<DisbursementView>,
}

/// A campaign's key: its identifier.
pub open spec fn campaign_key() -> spec_fn(CampaignView) -> Seq<u8> {
    row_key::<Campaign>()
}

/// A donation's key: its identifier.
pub open spec fn donation_key() -> spec_fn(DonationView) -> Seq<u8> {
    row_key::<Donation>()
}

/// A trust score's key: the principal it belongs to.
pub open spec fn trust_key() -> spec_fn(TrustScoreView) -> Seq<char> {
    row_key::<TrustScore>()
}

/// A badge's key: its identifier.
pub open spec fn nft_key() -> spec_fn(NFTBadgeView) -> Seq<u8> {
    row_key::<NFTBadge>()
}

/// A disbursement's key: its identifier.
pub open spec fn disbursement_key() -> spec_fn(DisbursementView) -> Seq<u8> {
    row_key::<Disbursement>()
}

/// Whether a disbursement in this status has reached its end: it was
/// executed or rejected, and no operation changes it any more.
pub open spec fn settled(status: DisbursementStatus) -> bool {
    status == DisbursementStatus::Executed || status == DisbursementStatus::Rejected
}

/// Statistics with every total at zero.
pub open spec fn zero_stats() -> PlatformStats {
    PlatformStats {
        total_campaigns: 0,
        total_donations: 0,
        total_raised: 0,
        total_nfts: 0,
        active_campaigns: 0,
    }
}

/// The seconds in `days` days.
pub open spec fn seconds_in(days: u64) -> int {
    days * 86400
}

/// The campaign that `create_campaign` writes: it starts at `now`, ends
/// `duration_days` days later, and is active, unverified and without funds.
pub open spec fn new_campaign(
    id: Seq<u8>,
    beneficiary: Seq<char>,
    title: Seq<char>,
    description: Seq<char>,
    goal_amount: u64,
    duration_days: u64,
    category: Seq<char>,
    location: Seq<char>,
    now: u64,
) -> CampaignView {
    CampaignView {
        id,
        title,
        description,
        beneficiary,
        goal_amount,
        current_amount: 0,
        start_time: now,
        end_time: (now + seconds_in(duration_days)) as u64,
        verified: false,
        trust_score: 0,
        category,
        location,
        active: true,
    }
}

/// The campaign after it was verified with `trust_score`, which is cut off
/// at the highest score.
pub open spec fn verified_with(c: CampaignView, trust_score: u32) -> CampaignView {
    CampaignView {
        verified: true,
        trust_score: if trust_score < MAX_SCORE {
            trust_score
        } else {
            MAX_SCORE
        },
        ..c
    }
}

/// The campaign after it was closed.
pub open spec fn closed(c: CampaignView) -> CampaignView {
    CampaignView { active: false, ..c }
}

/// A change to the platform statistics.
#[derive(Clone, Copy, Debug, PartialEq, Eq, Structural)]
pub enum StatsChange {
    /// A campaign was created.
    CampaignOpened,
    /// A donation of the given net amount was made.
    DonationMade(u64),
    /// A badge was minted.
    NftMinted,
    /// A campaign was closed.
    CampaignClosed,
}

/// The statistics after `change`. Closing a campaign never takes the number
/// of active campaigns below zero.
pub open spec fn stats_after(stats: PlatformStats, change: StatsChange) -> PlatformStats {
    match change {
        StatsChange::CampaignOpened => PlatformStats {
            total_campaigns: (stats.total_campaigns + 1) as u64,
            active_campaigns: (stats.active_campaigns + 1) as u64,
            ..stats
        },
        StatsChange::DonationMade(net) => PlatformStats {
            total_donations: (stats.total_donations + 1) as u64,
            total_raised: (stats.total_raised + net) as u64,
            ..stats
        },
        StatsChange::NftMinted => PlatformStats {
            total_nfts: (stats.total_nfts + 1) as u64,
            ..stats
        },
        StatsChange::CampaignClosed => PlatformStats {
            active_campaigns: if stats.active_campaigns == 0 {
                0
            } else {
                (stats.active_campaigns - 1) as u64
            },
            ..stats
        },
    }
}

/// Whether `change` keeps every total within sixty-four bits.
pub open spec fn stats_fit(stats: PlatformStats, change: StatsChange) -> bool {
    match change {
        StatsChange::CampaignOpened => stats.total_campaigns < u64::MAX && stats.active_campaigns
            < u64::MAX,
        StatsChange::DonationMade(net) => stats.total_donations < u64::MAX && stats.total_raised
            + net <= u64::MAX,
        StatsChange::NftMinted => stats.total_nfts < u64::MAX,
        StatsChange::CampaignClosed => true,
    }
}

impl LedgerView {
    /// The ledger of a contract on which nothing has been called yet.
    pub open spec fn empty() -> LedgerView {
        LedgerView {
            admin: None,
            platform_fee: None,
            campaign_counter: 0,
            donation_counter: 0,
            nft_counter: 0,
            disbursement_counter: 0,
            stats: zero_stats(),
            campaigns: Seq::empty(),
            donations: Seq::empty(),
            trust_scores: Seq::empty(),
            nfts: Seq::empty(),
            disbursements: Seq::empty(),
        }
    }

    /// Well-formedness: every key occurs once in its table, every donation
    /// names a campaign of the ledger, the configured fee is at most ten
    /// percent, and every score is at most 100.
    pub open spec fn wf(self) -> bool {
        &&& self.donations_name_campaigns()
        &&& distinct_keys(self.campaigns, campaign_key())
        &&& distinct_keys(self.donations, donation_key())
        &&& distinct_keys(self.trust_scores, trust_key())
        &&& distinct_keys(self.nfts, nft_key())
        &&& distinct_keys(self.disbursements, disbursement_key())
        &&& self.platform_fee matches Some(fee) ==> fee <= MAX_FEE_BPS
        &&& forall|i: int|
            0 <= i < self.trust_scores.len() ==> (#[trigger] self.trust_scores[i]).score
                <= MAX_SCORE
        &&& forall|i: int|
            0 <= i < self.campaigns.len() ==> (#[trigger] self.campaigns[i]).trust_score
                <= MAX_SCORE
    }

    /// Every donation names a campaign that the ledger holds.
    pub open spec fn donations_name_campaigns(self) -> bool {
        forall|j: int|
            0 <= j < self.donations.len() ==> self.campaign(
                (#[trigger] self.donations[j]).campaign_id,
            ) is Some
    }

    /// The campaign with identifier `id`.
    pub open spec fn campaign(self, id: Seq<u8>) -> Option<CampaignView> {
        row_of(self.campaigns, campaign_key(), id)
    }

    /// The donation with identifier `id`.
    pub open spec fn donation(self, id: Seq<u8>) -> Option<DonationView> {
        row_of(self.donations, donation_key(), id)
    }

    /// The trust score of `entity`.
    pub open spec fn trust_score(self, entity: Seq<char>) -> Option<TrustScoreView> {
        row_of(self.trust_scores, trust_key(), entity)
    }

    /// The badge with identifier `id`.
    pub open spec fn nft(self, id: Seq<u8>) -> Option<NFTBadgeView> {
        row_of(self.nfts, nft_key(), id)
    }

    /// The disbursement with identifier `id`.
    pub open spec fn disbursement(self, id: Seq<u8>) -> Option<DisbursementView> {
        row_of(self.disbursements, disbursement_key(), id)
    }

    /// Whether the slot under `key` holds a value. A record's slot holds one
    /// once the record was written; the administrator's and the fee's once
    /// the contract was initialized. The counters and the statistics always
    /// hold a value, zero from the start. Nothing is ever written under the
    /// two index keys.
    pub open spec fn has(self, key: DataKeyView) -> bool {
        match key {
            DataKeyView::Campaign(id) => self.campaign(id) is Some,
            DataKeyView::Donation(id) => self.donation(id) is Some,
            DataKeyView::TrustScore(entity) => self.trust_score(entity) is Some,
            DataKeyView::NFTBadge(id) => self.nft(id) is Some,
            DataKeyView::Disbursement(id) => self.disbursement(id) is Some,
            DataKeyView::PlatformFee => self.platform_fee is Some,
            DataKeyView::Admin => self.admin is Some,
            DataKeyView::CampaignCounter => true,
            DataKeyView::DonationCounter => true,
            DataKeyView::NFTCounter => true,
            DataKeyView::DisbursementCounter => true,
            DataKeyView::Stats => true,
            DataKeyView::CampaignsByBeneficiary(_) => false,
            DataKeyView::DonationsByCampaign(_) => false,
        }
    }

    /// The fee rate in force, in basis points: the configured one, or two
    /// percent while none is configured.
    pub open spec fn fee_rate(self) -> u64 {
        match self.platform_fee {
            Some(fee) => fee,
            None => DEFAULT_FEE_BPS,
        }
    }

    /// The trust score of `entity`, or a fresh one where it has none.
    pub open spec fn score_or_fresh(self, entity: Seq<char>, now: u64) -> TrustScoreView {
        match self.trust_score(entity) {
            Some(t) => t,
            None => fresh_score(entity, now),
        }
    }

    // ---- administration ----

    /// Why `initialize` is refused, if it is.
    pub open spec fn check_initialize(
        self,
        caller: Seq<char>,
        admin: Seq<char>,
        platform_fee: u64,
    ) -> Option<SaviaError> {
        if self.admin is Some {
            Some(SaviaError::AlreadyInitialized)
        } else if platform_fee > MAX_FEE_BPS {
            Some(SaviaError::InvalidFee)
        } else if caller != admin {
            Some(SaviaError::Unauthorized)
        } else {
            None
        }
    }

    /// The ledger after `initialize`: administrator and fee are set, every
    /// counter is zero and the statistics are empty.
    pub open spec fn after_initialize(self, admin: Seq<char>, platform_fee: u64) -> LedgerView {
        LedgerView {
            admin: Some(admin),
            platform_fee: Some(platform_fee),
            campaign_counter: 0,
            donation_counter: 0,
            nft_counter: 0,
            disbursement_counter: 0,
            stats: zero_stats(),
            ..self
        }
    }

    // ---- statistics ----

    /// The ledger after a change to its statistics.
    pub open spec fn after_update_stats(self, change: StatsChange) -> LedgerView {
        LedgerView { stats: stats_after(self.stats, change), ..self }
    }

    // ---- trust scores ----

    /// Why `create_trust_score` is refused, if it is.
    pub open spec fn check_create_trust_score(self, entity: Seq<char>) -> Option<SaviaError> {
        if self.trust_score(entity) is Some {
            Some(SaviaError::ScoreExists)
        } else {
            None
        }
    }

    /// The ledger after a fresh trust score was created for `entity`.
    pub open spec fn after_create_trust_score(self, entity: Seq<char>, now: u64) -> LedgerView {
        LedgerView {
            trust_scores: upsert(self.trust_scores, trust_key(), fresh_score(entity, now)),
            ..self
        }
    }

    /// The ledger after it was made sure that `entity` has a trust score:
    /// a fresh one is created where it has none.
    pub open spec fn after_ensure_trust_score(self, entity: Seq<char>, now: u64) -> LedgerView {
        if self.trust_score(entity) is Some {
            self
        } else {
            self.after_create_trust_score(entity, now)
        }
    }

    /// Whether counting a donation of `amount` for `donor` stays within the
    /// record's integer widths.
    pub open spec fn donor_update_fits(self, donor: Seq<char>, amount: u64) -> bool {
        let t = self.score_or_fresh(donor, 0);
        t.donation_count < u32::MAX && t.total_donated + amount <= u64::MAX
    }

    /// The ledger after a donation of `amount` was counted for `donor`.
    pub open spec fn after_update_donor(self, donor: Seq<char>, amount: u64, now: u64)
        -> LedgerView {
        LedgerView {
            trust_scores: upsert(
                self.trust_scores,
                trust_key(),
                after_donation(self.score_or_fresh(donor, now), amount, now),
            ),
            ..self
        }
    }

    /// Whether counting a campaign for `beneficiary` stays within the
    /// record's integer widths.
    pub open spec fn beneficiary_update_fits(self, beneficiary: Seq<char>) -> bool {
        self.score_or_fresh(beneficiary, 0).campaigns_created < u32::MAX
    }

    /// The ledger after a created campaign was counted for `beneficiary`.
    pub open spec fn after_update_beneficiary(self, beneficiary: Seq<char>, now: u64)
        -> LedgerView {
        LedgerView {
            trust_scores: upsert(
                self.trust_scores,
                trust_key(),
                after_campaign(self.score_or_fresh(beneficiary, now), now),
            ),
            ..self
        }
    }

    // ---- campaigns ----

    /// Why `create_campaign` is refused, if it is.
    pub open spec fn check_create_campaign(
        self,
        caller: Seq<char>,
        beneficiary: Seq<char>,
        title: Seq<char>,
        description: Seq<char>,
        goal_amount: u64,
        duration_days: u64,
    ) -> Option<SaviaError> {
        if caller != beneficiary {
            Some(SaviaError::Unauthorized)
        } else if goal_amount == 0 {
            Some(SaviaError::InvalidGoal)
        } else if duration_days == 0 || duration_days > 365 {
            Some(SaviaError::InvalidDuration)
        } else if title.len() == 0 || description.len() == 0 {
            Some(SaviaError::InvalidInput)
        } else {
            None
        }
    }

    /// Whether creating a campaign stays within the ledger's integer widths.
    pub open spec fn create_campaign_fits(
        self,
        beneficiary: Seq<char>,
        duration_days: u64,
        now: u64,
    ) -> bool {
        &&& self.campaign_counter < u64::MAX
        &&& now + seconds_in(duration_days) <= u64::MAX
        &&& stats_fit(self.stats, StatsChange::CampaignOpened)
        &&& self.beneficiary_update_fits(beneficiary)
    }

    /// The ledger after a campaign was created under identifier `id`.
    pub open spec fn after_create_campaign(
        self,
        id: Seq<u8>,
        beneficiary: Seq<char>,
        title: Seq<char>,
        description: Seq<char>,
        goal_amount: u64,
        duration_days: u64,
        category: Seq<char>,
        location: Seq<char>,
        now: u64,
    ) -> LedgerView {
        let campaign = new_campaign(
            id,
            beneficiary,
            title,
            description,
            goal_amount,
            duration_days,
            category,
            location,
            now,
        );
        LedgerView {
            campaign_counter: (self.campaign_counter + 1) as u64,
            campaigns: upsert(self.campaigns, campaign_key(), campaign),
            ..self
        }.after_update_stats(StatsChange::CampaignOpened).after_update_beneficiary(
            beneficiary,
            now,
        )
    }

    /// Why `verify_campaign` is refused, if it is.
    pub open spec fn check_verify_campaign(self, caller: Seq<char>, campaign_id: Seq<u8>)
        -> Option<SaviaError> {
        if self.admin != Some(caller) {
            Some(SaviaError::Unauthorized)
        } else if self.campaign(campaign_id) is None {
            Some(SaviaError::CampaignNotFound)
        } else {
            None
        }
    }

    /// The ledger after the campaign was verified with `trust_score`, which
    /// is cut off at 100.
    pub open spec fn after_verify_campaign(self, campaign_id: Seq<u8>, trust_score: u32)
        -> LedgerView {
        let campaign = self.campaign(campaign_id).unwrap();
        LedgerView {
            campaigns: upsert(
                self.campaigns,
                campaign_key(),
                verified_with(campaign, trust_score),
            ),
            ..self
        }
    }

    /// Why `close_campaign` is refused, if it is.
    pub open spec fn check_close_campaign(self, caller: Seq<char>, campaign_id: Seq<u8>)
        -> Option<SaviaError> {
        match self.campaign(campaign_id) {
            None => Some(SaviaError::CampaignNotFound),
            Some(campaign) => if caller != campaign.beneficiary {
                Some(SaviaError::Unauthorized)
            } else if !campaign.active {
                Some(SaviaError::CampaignInactive)
            } else {
                None
            },
        }
    }

    /// The ledger after the campaign was closed.
    pub open spec fn after_close_campaign(self, campaign_id: Seq<u8>) -> LedgerView {
        let campaign = self.campaign(campaign_id).unwrap();
        LedgerView {
            campaigns: upsert(
                self.campaigns,
                campaign_key(),
                closed(campaign),
            ),
            ..self
        }.after_update_stats(StatsChange::CampaignClosed)
    }

    // ---- badges ----

    /// Whether minting a badge stays within the ledger's integer widths.
    pub open spec fn mint_fits(self) -> bool {
        self.nft_counter < u64::MAX && stats_fit(self.stats, StatsChange::NftMinted)
    }

    /// The ledger after a badge was minted under identifier `id` for a
    /// donation of `amount` to the campaign.
    pub open spec fn after_mint(
        self,
        id: Seq<u8>,
        owner: Seq<char>,
        campaign_id: Seq<u8>,
        amount: u64,
        now: u64,
    ) -> LedgerView {
        let badge = NFTBadgeView {
            id,
            owner,
            badge_type: badge_name(amount),
            campaign_id: Some(campaign_id),
            minted_at: now,
            metadata_uri: metadata_uri(),
        };
        LedgerView {
            nft_counter: (self.nft_counter + 1) as u64,
            nfts: upsert(self.nfts, nft_key(), badge),
            ..self
        }.after_update_stats(StatsChange::NftMinted)
    }

    // ---- donations ----

    /// Why `donate` is refused, if it is.
    pub open spec fn check_donate(
        self,
        caller: Seq<char>,
        campaign_id: Seq<u8>,
        donor: Seq<char>,
        amount: u64,
        now: u64,
    ) -> Option<SaviaError> {
        if caller != donor {
            Some(SaviaError::Unauthorized)
        } else {
            match self.campaign(campaign_id) {
                None => Some(SaviaError::CampaignNotFound),
                Some(campaign) => if check_credit(campaign, now) is Some {
                    check_credit(campaign, now)
                } else if amount == 0 {
                    Some(SaviaError::InvalidAmount)
                } else {
                    None
                },
            }
        }
    }

    /// The net amount of a gross donation of `amount` at the fee rate in
    /// force.
    pub open spec fn net_amount(self, amount: u64) -> u64 {
        net_of(amount, self.fee_rate()) as u64
    }

    /// Whether a donation stays within the ledger's integer widths.
    pub open spec fn donate_fits(
        self,
        campaign_id: Seq<u8>,
        donor: Seq<char>,
        amount: u64,
        mint_nft: bool,
    ) -> bool {
        let net = self.net_amount(amount);
        &&& self.donation_counter < u64::MAX
        &&& self.campaign(campaign_id) matches Some(campaign) ==> campaign.current_amount + net
            <= u64::MAX
        &&& stats_fit(self.stats, StatsChange::DonationMade(net))
        &&& self.donor_update_fits(donor, net)
        &&& mint_nft ==> self.mint_fits()
    }

    /// The ledger after a donation was recorded under `donation_id`, and its
    /// badge, where one was asked for, under `nft_id`.
    pub open spec fn after_donate(
        self,
        donation_id: Seq<u8>,
        nft_id: Seq<u8>,
        campaign_id: Seq<u8>,
        donor: Seq<char>,
        amount: u64,
        anonymous: bool,
        mint_nft: bool,
        now: u64,
    ) -> LedgerView {
        let net = self.net_amount(amount);
        let campaign = self.campaign(campaign_id).unwrap();
        let donation = DonationView {
            id: donation_id,
            campaign_id,
            donor,
            amount: net,
            timestamp: now,
            nft_minted: mint_nft,
            anonymous,
        };
        let recorded = LedgerView {
            donation_counter: (self.donation_counter + 1) as u64,
            campaigns: upsert(self.campaigns, campaign_key(), credited(campaign, net)),
            donations: upsert(self.donations, donation_key(), donation),
            ..self
        }.after_update_stats(StatsChange::DonationMade(net)).after_update_donor(donor, net, now);
        if mint_nft {
            recorded.after_mint(nft_id, donor, campaign_id, net, now)
        } else {
            recorded
        }
    }

    // ---- disbursements ----

    /// Why `create_disbursement` is refused, if it is.
    pub open spec fn check_create_disbursement(
        self,
        caller: Seq<char>,
        campaign_id: Seq<u8>,
        amount: u64,
    ) -> Option<SaviaError> {
        match self.campaign(campaign_id) {
            None => Some(SaviaError::CampaignNotFound),
            Some(campaign) => if caller != campaign.beneficiary {
                Some(SaviaError::Unauthorized)
            } else if amount > campaign.current_amount {
                Some(SaviaError::InsufficientFunds)
            } else {
                None
            },
        }
    }

    /// Whether creating a disbursement stays within the ledger's integer
    /// widths.
    pub open spec fn create_disbursement_fits(self) -> bool {
        self.disbursement_counter < u64::MAX
    }

    /// The ledger after a disbursement was requested under identifier `id`.
    pub open spec fn after_create_disbursement(
        self,
        id: Seq<u8>,
        campaign_id: Seq<u8>,
        recipient: Seq<char>,
        amount: u64,
        milestone: Seq<char>,
        now: u64,
    ) -> LedgerView {
        let disbursement = DisbursementView {
            id,
            campaign_id,
            recipient,
            amount,
            milestone,
            status: DisbursementStatus::Pending,
            created_at: now,
            executed_at: None,
        };
        LedgerView {
            disbursement_counter: (self.disbursement_counter + 1) as u64,
            disbursements: upsert(self.disbursements, disbursement_key(), disbursement),
            ..self
        }
    }

    /// Why `approve_disbursement` is refused, if it is. A disbursement that
    /// was executed or rejected is settled: it is never approved again, and
    /// the refusal is `NotApproved`.
    pub open spec fn check_approve_disbursement(self, caller: Seq<char>, id: Seq<u8>)
        -> Option<SaviaError> {
        if self.admin != Some(caller) {
            Some(SaviaError::Unauthorized)
        } else {
            match self.disbursement(id) {
                None => Some(SaviaError::DisbursementNotFound),
                Some(disbursement) => if settled(disbursement.status) {
                    Some(SaviaError::NotApproved)
                } else {
                    None
                },
            }
        }
    }

    /// The ledger after the disbursement, pending or approved before, was
    /// approved.
    pub open spec fn after_approve_disbursement(self, id: Seq<u8>) -> LedgerView {
        let disbursement = self.disbursement(id).unwrap();
        LedgerView {
            disbursements: upsert(
                self.disbursements,
                disbursement_key(),
                DisbursementView { status: DisbursementStatus::Approved, ..disbursement },
            ),
            ..self
        }
    }

    /// Why `execute_disbursement` is refused, if it is.
    pub open spec fn check_execute_disbursement(self, caller: Seq<char>, id: Seq<u8>)
        -> Option<SaviaError> {
        match self.disbursement(id) {
            None => Some(SaviaError::DisbursementNotFound),
            Some(disbursement) => if caller != disbursement.recipient {
                Some(SaviaError::Unauthorized)
            } else if disbursement.status != DisbursementStatus::Approved {
                Some(SaviaError::NotApproved)
            } else {
                None
            },
        }
    }

    /// The ledger after the disbursement was executed at `now`.
    pub open spec fn after_execute_disbursement(self, id: Seq<u8>, now: u64) -> LedgerView {
        let disbursement = self.disbursement(id).unwrap();
        LedgerView {
            disbursements: upsert(
                self.disbursements,
                disbursement_key(),
                DisbursementView {
                    status: DisbursementStatus::Executed,
                    executed_at: Some(now),
                    ..disbursement
                },
            ),
            ..self
        }
    }
}

/// Where no badge is asked for, the badge's identifier plays no part in a
/// donation.
pub proof fn lemma_donate_without_badge(
    s: LedgerView,
    donation_id: Seq<u8>,
    nft_id: Seq<u8>,
    other_nft_id: Seq<u8>,
    campaign_id: Seq<u8>,
    donor: Seq<char>,
    amount: u64,
    anonymous: bool,
    now: u64,
)
    ensures
        s.after_donate(donation_id, nft_id, campaign_id, donor, amount, anonymous, false, now)
            == s.after_donate(
            donation_id,
            other_nft_id,
            campaign_id,
            donor,
            amount,
            anonymous,
            false,
            now,
        ),
{
}

/// Writing a trust score of at most 100 keeps the ledger well-formed.
pub proof fn lemma_put_trust_score_wf(s: LedgerView, t: TrustScoreView)
    requires
        s.wf(),
        t.score <= MAX_SCORE,
    ensures
        (LedgerView { trust_scores: upsert(s.trust_scores, trust_key(), t), ..s }).wf(),
{
    lemma_upsert_distinct(s.trust_scores, trust_key(), t);
    lemma_upsert_rows(s.trust_scores, trust_key(), t);
}

/// Writing a campaign whose trust score is at most 100 keeps the ledger
/// well-formed.
pub proof fn lemma_put_campaign_wf(s: LedgerView, c: CampaignView)
    requires
        s.wf(),
        c.trust_score <= MAX_SCORE,
    ensures
        (LedgerView { campaigns: upsert(s.campaigns, campaign_key(), c), ..s }).wf(),
{
    lemma_upsert_distinct(s.campaigns, campaign_key(), c);
    lemma_upsert_rows(s.campaigns, campaign_key(), c);
    let after = LedgerView { campaigns: upsert(s.campaigns, campaign_key(), c), ..s };
    assert forall|j: int| 0 <= j < after.donations.len() implies after.campaign(
        (#[trigger] after.donations[j]).campaign_id,
    ) is Some by {
        assert(s.campaign(s.donations[j].campaign_id) is Some);
        lemma_upsert(s.campaigns, campaign_key(), c, s.donations[j].campaign_id);
    }
}

/// Writing a donation that names a campaign of the ledger keeps the ledger
/// well-formed.
pub proof fn lemma_put_donation_wf(s: LedgerView, d: DonationView)
    requires
        s.wf(),
        s.campaign(d.campaign_id) is Some,
    ensures
        (LedgerView { donations: upsert(s.donations, donation_key(), d), ..s }).wf(),
{
    lemma_upsert_distinct(s.donations, donation_key(), d);
    lemma_upsert_rows(s.donations, donation_key(), d);
    let after = LedgerView { donations: upsert(s.donations, donation_key(), d), ..s };
    assert forall|j: int| 0 <= j < after.donations.len() implies after.campaign(
        (#[trigger] after.donations[j]).campaign_id,
    ) is Some by {
        if after.donations[j] != d {
            assert(after.donations[j] == s.donations[j]);
            assert(s.campaign(s.donations[j].campaign_id) is Some);
        }
    }
}

/// Writing a badge keeps the ledger well-formed.
pub proof fn lemma_put_nft_wf(s: LedgerView, n: NFTBadgeView)
    requires
        s.wf(),
    ensures
        (LedgerView { nfts: upsert(s.nfts, nft_key(), n), ..s }).wf(),
{
    lemma_upsert_distinct(s.nfts, nft_key(), n);
}

/// Writing a disbursement keeps the ledger well-formed.
pub proof fn lemma_put_disbursement_wf(s: LedgerView, d: DisbursementView)
    requires
        s.wf(),
    ensures
        (LedgerView { disbursements: upsert(s.disbursements, disbursement_key(), d), ..s }).wf(),
{
    lemma_upsert_distinct(s.disbursements, disbursement_key(), d);
}

/// A row that a well-formed ledger holds obeys the score bounds.
pub proof fn lemma_rows_bounded(s: LedgerView, campaign_id: Seq<u8>, entity: Seq<char>)
    requires
        s.wf(),
    ensures
        s.campaign(campaign_id) matches Some(c) ==> c.trust_score <= MAX_SCORE && c.id
            == campaign_id,
        s.trust_score(entity) matches Some(t) ==> t.score <= MAX_SCORE && t.entity == entity,
{
    lemma_lookup(s.campaigns, campaign_key(), campaign_id);
    lemma_lookup(s.trust_scores, trust_key(), entity);
}

/// Every operation on trust scores keeps the ledger well-formed.
pub proof fn lemma_trust_updates_wf(s: LedgerView, entity: Seq<char>, amount: u64, now: u64)
    requires
        s.wf(),
    ensures
        s.after_create_trust_score(entity, now).wf(),
        s.after_update_donor(entity, amount, now).wf(),
        s.after_update_beneficiary(entity, now).wf(),
{
    lemma_rows_bounded(s, Seq::empty(), entity);
    let t = s.score_or_fresh(entity, now);
    let d = after_donation(t, amount, now);
    let c = after_campaign(t, now);
    lemma_scores_in_range(d.donation_count, d.total_donated, t.score, c.campaigns_created);
    lemma_put_trust_score_wf(s, fresh_score(entity, now));
    lemma_put_trust_score_wf(s, d);
    lemma_put_trust_score_wf(s, c);
}

} // verus!
