//! The contract: the ledger state and the operations on it.
//!
//! Every operation validates first and writes afterwards, so a refused
//! operation leaves the ledger untouched. The caller passes the principal
//! that authorized the call and, where an operation records the time, the
//! current time in seconds.

use vstd::prelude::*;
use crate::errors::SaviaError;
use crate::records::{
    text_bytes,
    Address,
    Campaign,
    DataKey,
    Disbursement,
    DisbursementStatus,
    Donation,
    NFTBadge,
    PlatformStats,
    TrustScore,
};
use crate::badge::{badge_metadata_uri, get_badge_type};
use crate::fees::{fee_of, split_fee, DEFAULT_FEE_BPS, MAX_FEE_BPS};
use crate::funding::{
    funds_consistent,
    lemma_donate_keeps_funds,
    lemma_recorded_amount_plus_fee,
};
use crate::history::{apply, Call};
use crate::lifecycle::lemma_approve_again_changes_nothing;
use crate::ident::{
    campaign_id,
    campaign_id_of,
    disbursement_id,
    disbursement_id_of,
    donation_id,
    donation_id_of,
    nft_id,
    nft_id_of,
    Id,
};
use crate::state::{
    campaign_key,
    lemma_donate_without_badge,
    lemma_put_campaign_wf,
    lemma_put_disbursement_wf,
    lemma_put_donation_wf,
    lemma_put_nft_wf,
    lemma_rows_bounded,
    lemma_trust_updates_wf,
    seconds_in,
    stats_fit,
    LedgerView,
    StatsChange,
};
use crate::store::{distinct, find, put};
use crate::table::{lemma_upsert, upsert, views_of};
use crate::trust::MAX_SCORE;

verus! {

/// The ledger of one deployment of the platform.
pub struct SaviaContract {
    admin: Option<Address>,
    platform_fee: Option<u64>,
    campaign_counter: u64,
    donation_counter: u64,
    nft_counter: u64,
    disbursement_counter: u64,
    stats: PlatformStats,
    campaigns: Vec<Campaign>,
    donations: Vec<Donation>,
    trust_scores: Vec<TrustScore>,
    nfts: Vec<NFTBadge>,
    disbursements: Vec<Disbursement>,
}

impl View for SaviaContract {
    type V = LedgerView;

    closed spec fn view(&self) -> LedgerView {
        LedgerView {
            admin: match self.admin {
                Some(a) => Some(a@),
                None => None,
            },
            platform_fee: self.platform_fee,
            campaign_counter: self.campaign_counter,
            donation_counter: self.donation_counter,
            nft_counter: self.nft_counter,
            disbursement_counter: self.disbursement_counter,
            stats: self.stats,
            campaigns: views_of(self.campaigns@),
            donations: views_of(self.donations@),
            trust_scores: views_of(self.trust_scores@),
            nfts: views_of(self.nfts@),
            disbursements: views_of(self.disbursements@),
        }
    }
}

/// The whole ledger as plain data, for keeping it between calls.
#[derive(Debug)]
pub struct LedgerSnapshot {
    pub admin: Option<Address>,
    pub platform_fee: Option<u64>,
    pub campaign_counter: u64,
    pub donation_counter: u64,
    pub nft_counter: u64,
    pub disbursement_counter: u64,
    pub stats: PlatformStats,
    pub campaigns: Vec<Campaign>,
    pub donations: Vec<Donation>,
    pub trust_scores: Vec<TrustScore>,
    pub nfts: Vec<NFTBadge>,
    pub disbursements: Vec<Disbursement>,
}

impl View for LedgerSnapshot {
    type V = LedgerView;

    open spec fn view(&self) -> LedgerView {
        LedgerView {
            admin: match self.admin {
                Some(a) => Some(a@),
                None => None,
            },
            platform_fee: self.platform_fee,
            campaign_counter: self.campaign_counter,
            donation_counter: self.donation_counter,
            nft_counter: self.nft_counter,
            disbursement_counter: self.disbursement_counter,
            stats: self.stats,
            campaigns: views_of(self.campaigns@),
            donations: views_of(self.donations@),
            trust_scores: views_of(self.trust_scores@),
            nfts: views_of(self.nfts@),
            disbursements: views_of(self.disbursements@),
        }
    }
}

/// Whether every donation in `donations` names a campaign in `campaigns`.
pub fn donations_name_campaigns(donations: &Vec<Donation>, campaigns: &Vec<Campaign>) -> (ok: bool)
    ensures
        ok == (forall|j: int|
            0 <= j < donations@.len() ==> crate::table::lookup(
                views_of(campaigns@),
                campaign_key(),
                (#[trigger] views_of(donations@)[j]).campaign_id,
            ) is Some),
{
    let mut j: usize = 0;
    while j < donations.len()
        invariant
            j <= donations.len(),
            forall|k: int|
                0 <= k < j ==> crate::table::lookup(
                    views_of(campaigns@),
                    campaign_key(),
                    (#[trigger] views_of(donations@)[k]).campaign_id,
                ) is Some,
        decreases donations.len() - j,
    {
        if find(campaigns, &donations[j].campaign_id).is_none() {
            assert(crate::table::lookup(
                views_of(campaigns@),
                campaign_key(),
                views_of(donations@)[j as int].campaign_id,
            ) is None);
            return false;
        }
        j = j + 1;
    }
    true
}

/// Whether every trust score in `rows` is at most the highest score.
pub fn trust_scores_bounded(rows: &Vec<TrustScore>) -> (ok: bool)
    ensures
        ok == (forall|i: int| 0 <= i < rows@.len() ==> (#[trigger] views_of(rows@)[i]).score
            <= MAX_SCORE),
{
    let mut i: usize = 0;
    while i < rows.len()
        invariant
            i <= rows.len(),
            forall|j: int| 0 <= j < i ==> (#[trigger] views_of(rows@)[j]).score <= MAX_SCORE,
        decreases rows.len() - i,
    {
        if rows[i].score > MAX_SCORE {
            assert(views_of(rows@)[i as int].score > MAX_SCORE);
            return false;
        }
        i = i + 1;
    }
    true
}

/// Whether the trust score of every campaign in `rows` is at most the
/// highest score.
pub fn campaign_scores_bounded(rows: &Vec<Campaign>) -> (ok: bool)
    ensures
        ok == (forall|i: int|
            0 <= i < rows@.len() ==> (#[trigger] views_of(rows@)[i]).trust_score <= MAX_SCORE),
{
    let mut i: usize = 0;
    while i < rows.len()
        invariant
            i <= rows.len(),
            forall|j: int| 0 <= j < i ==> (#[trigger] views_of(rows@)[j]).trust_score <= MAX_SCORE,
        decreases rows.len() - i,
    {
        if rows[i].trust_score > MAX_SCORE {
            assert(views_of(rows@)[i as int].trust_score > MAX_SCORE);
            return false;
        }
        i = i + 1;
    }
    true
}

impl SaviaContract {
    /// Takes the ledger apart into plain data.
    pub fn into_snapshot(self) -> (snapshot: LedgerSnapshot)
        ensures
            snapshot@ == self@,
    {
        LedgerSnapshot {
            admin: self.admin,
            platform_fee: self.platform_fee,
            campaign_counter: self.campaign_counter,
            donation_counter: self.donation_counter,
            nft_counter: self.nft_counter,
            disbursement_counter: self.disbursement_counter,
            stats: self.stats,
            campaigns: self.campaigns,
            donations: self.donations,
            trust_scores: self.trust_scores,
            nfts: self.nfts,
            disbursements: self.disbursements,
        }
    }

    /// Puts a ledger together from plain data, if the data is well-formed.
    pub fn restore(snapshot: LedgerSnapshot) -> (r: Option<SaviaContract>)
        ensures
            match r {
                Some(contract) => snapshot@.wf() && contract.wf() && contract@ == snapshot@,
                None => !snapshot@.wf(),
            },
    {
        let fee_ok = match snapshot.platform_fee {
            Some(fee) => fee <= MAX_FEE_BPS,
            None => true,
        };
        if !fee_ok {
            return None;
        }
        if !donations_name_campaigns(&snapshot.donations, &snapshot.campaigns) {
            return None;
        }
        if !distinct(&snapshot.campaigns) {
            return None;
        }
        if !distinct(&snapshot.donations) {
            return None;
        }
        if !distinct(&snapshot.trust_scores) {
            return None;
        }
        if !distinct(&snapshot.nfts) {
            return None;
        }
        if !distinct(&snapshot.disbursements) {
            return None;
        }
        if !trust_scores_bounded(&snapshot.trust_scores) {
            return None;
        }
        if !campaign_scores_bounded(&snapshot.campaigns) {
            return None;
        }
        Some(
            SaviaContract {
                admin: snapshot.admin,
                platform_fee: snapshot.platform_fee,
                campaign_counter: snapshot.campaign_counter,
                donation_counter: snapshot.donation_counter,
                nft_counter: snapshot.nft_counter,
                disbursement_counter: snapshot.disbursement_counter,
                stats: snapshot.stats,
                campaigns: snapshot.campaigns,
                donations: snapshot.donations,
                trust_scores: snapshot.trust_scores,
                nfts: snapshot.nfts,
                disbursements: snapshot.disbursements,
            },
        )
    }

    /// Well-formedness of the ledger; see [`LedgerView::wf`].
    pub open spec fn wf(&self) -> bool {
        self@.wf()
    }

    /// A contract on which nothing has been called yet.
    pub fn new() -> (contract: SaviaContract)
        ensures
            contract@ == LedgerView::empty(),
            contract.wf(),
    {
        let contract = SaviaContract {
            admin: None,
            platform_fee: None,
            campaign_counter: 0,
            donation_counter: 0,
            nft_counter: 0,
            disbursement_counter: 0,
            stats: PlatformStats {
                total_campaigns: 0,
                total_donations: 0,
                total_raised: 0,
                total_nfts: 0,
                active_campaigns: 0,
            },
            campaigns: Vec::new(),
            donations: Vec::new(),
            trust_scores: Vec::new(),
            nfts: Vec::new(),
            disbursements: Vec::new(),
        };
        assert(contract@.campaigns =~= LedgerView::empty().campaigns);
        assert(contract@.donations =~= LedgerView::empty().donations);
        assert(contract@.trust_scores =~= LedgerView::empty().trust_scores);
        assert(contract@.nfts =~= LedgerView::empty().nfts);
        assert(contract@.disbursements =~= LedgerView::empty().disbursements);
        contract
    }

    /// Sets the administrator and the platform fee, and resets every counter
    /// and the statistics. `caller` must be the administrator named.
    pub fn initialize(&mut self, caller: &Address, admin: Address, platform_fee: u64) -> (r:
        Result<(), SaviaError>)
        requires
            old(self).wf(),
        ensures
            final(self).wf(),
            final(self)@ == apply(old(self)@, Call::Initialize { caller: caller@, admin: admin@, platform_fee }),
            match r {
                Ok(()) => {
                    &&& old(self)@.check_initialize(caller@, admin@, platform_fee) is None
                    &&& final(self)@ == old(self)@.after_initialize(admin@, platform_fee)
                },
                Err(e) => {
                    &&& old(self)@.check_initialize(caller@, admin@, platform_fee) == Some(e)
                    &&& final(self)@ == old(self)@
                },
            },
    {
        if self.admin.is_some() {
            return Err(SaviaError::AlreadyInitialized);
        }
        if platform_fee > MAX_FEE_BPS {
            return Err(SaviaError::InvalidFee);
        }
        if !caller.same(&admin) {
            return Err(SaviaError::Unauthorized);
        }
        self.admin = Some(admin);
        self.platform_fee = Some(platform_fee);
        self.campaign_counter = 0;
        self.donation_counter = 0;
        self.nft_counter = 0;
        self.disbursement_counter = 0;
        self.stats = PlatformStats {
            total_campaigns: 0,
            total_donations: 0,
            total_raised: 0,
            total_nfts: 0,
            active_campaigns: 0,
        };
        Ok(())
    }

    /// The campaign with identifier `campaign_id`.
    pub fn get_campaign(&self, campaign_id: &Id) -> (r: Option<Campaign>)
        ensures
            match r {
                Some(c) => self@.campaign(campaign_id@) == Some(c@),
                None => self@.campaign(campaign_id@) is None,
            },
    {
        match find(&self.campaigns, campaign_id) {
            Some(i) => Some(self.campaigns[i].clone()),
            None => None,
        }
    }

    /// The donation with identifier `donation_id`.
    pub fn get_donation(&self, donation_id: &Id) -> (r: Option<Donation>)
        ensures
            match r {
                Some(d) => self@.donation(donation_id@) == Some(d@),
                None => self@.donation(donation_id@) is None,
            },
    {
        match find(&self.donations, donation_id) {
            Some(i) => Some(self.donations[i].clone()),
            None => None,
        }
    }

    /// The trust score of `entity`.
    pub fn get_trust_score(&self, entity: &Address) -> (r: Option<TrustScore>)
        ensures
            match r {
                Some(t) => self@.trust_score(entity@) == Some(t@),
                None => self@.trust_score(entity@) is None,
            },
    {
        match find(&self.trust_scores, entity) {
            Some(i) => Some(self.trust_scores[i].clone()),
            None => None,
        }
    }

    /// The badge with identifier `nft_id`.
    pub fn get_nft(&self, nft_id: &Id) -> (r: Option<NFTBadge>)
        ensures
            match r {
                Some(n) => self@.nft(nft_id@) == Some(n@),
                None => self@.nft(nft_id@) is None,
            },
    {
        match find(&self.nfts, nft_id) {
            Some(i) => Some(self.nfts[i].clone()),
            None => None,
        }
    }

    /// The disbursement with identifier `disbursement_id`.
    pub fn get_disbursement(&self, disbursement_id: &Id) -> (r: Option<Disbursement>)
        ensures
            match r {
                Some(d) => self@.disbursement(disbursement_id@) == Some(d@),
                None => self@.disbursement(disbursement_id@) is None,
            },
    {
        match find(&self.disbursements, disbursement_id) {
            Some(i) => Some(self.disbursements[i].clone()),
            None => None,
        }
    }

    /// Whether the slot under `key` holds a value.
    pub fn has(&self, key: &DataKey) -> (b: bool)
        ensures
            b == self@.has(key@),
    {
        match key {
            DataKey::Campaign(id) => find(&self.campaigns, id).is_some(),
            DataKey::Donation(id) => find(&self.donations, id).is_some(),
            DataKey::TrustScore(entity) => find(&self.trust_scores, entity).is_some(),
            DataKey::NFTBadge(id) => find(&self.nfts, id).is_some(),
            DataKey::Disbursement(id) => find(&self.disbursements, id).is_some(),
            DataKey::PlatformFee => self.platform_fee.is_some(),
            DataKey::Admin => self.admin.is_some(),
            DataKey::CampaignCounter => true,
            DataKey::DonationCounter => true,
            DataKey::NFTCounter => true,
            DataKey::DisbursementCounter => true,
            DataKey::Stats => true,
            DataKey::CampaignsByBeneficiary(_) => false,
            DataKey::DonationsByCampaign(_) => false,
        }
    }

    /// The platform statistics.
    pub fn get_stats(&self) -> (stats: PlatformStats)
        ensures
            stats == self@.stats,
    {
        self.stats
    }

    /// The administrator, once the contract is initialized.
    pub fn get_admin(&self) -> (r: Option<Address>)
        ensures
            match r {
                Some(a) => self@.admin == Some(a@),
                None => self@.admin is None,
            },
    {
        match &self.admin {
            Some(a) => Some(a.clone()),
            None => None,
        }
    }

    /// The fee rate in force, in basis points.
    pub fn get_platform_fee(&self) -> (rate: u64)
        requires
            self.wf(),
        ensures
            rate == self@.fee_rate(),
            rate <= MAX_FEE_BPS,
    {
        match self.platform_fee {
            Some(fee) => fee,
            None => DEFAULT_FEE_BPS,
        }
    }

    /// Applies `change` to the platform statistics.
    pub fn update_stats(&mut self, change: StatsChange)
        requires
            old(self).wf(),
            stats_fit(old(self)@.stats, change),
        ensures
            final(self).wf(),
            final(self)@ == apply(old(self)@, Call::UpdateStats { change }),
            final(self)@ == old(self)@.after_update_stats(change),
    {
        let stats = self.stats;
        self.stats = match change {
            StatsChange::CampaignOpened => PlatformStats {
                total_campaigns: stats.total_campaigns + 1,
                total_donations: stats.total_donations,
                total_raised: stats.total_raised,
                total_nfts: stats.total_nfts,
                active_campaigns: stats.active_campaigns + 1,
            },
            StatsChange::DonationMade(net) => PlatformStats {
                total_campaigns: stats.total_campaigns,
                total_donations: stats.total_donations + 1,
                total_raised: stats.total_raised + net,
                total_nfts: stats.total_nfts,
                active_campaigns: stats.active_campaigns,
            },
            StatsChange::NftMinted => PlatformStats {
                total_campaigns: stats.total_campaigns,
                total_donations: stats.total_donations,
                total_raised: stats.total_raised,
                total_nfts: stats.total_nfts + 1,
                active_campaigns: stats.active_campaigns,
            },
            StatsChange::CampaignClosed => PlatformStats {
                total_campaigns: stats.total_campaigns,
                total_donations: stats.total_donations,
                total_raised: stats.total_raised,
                total_nfts: stats.total_nfts,
                active_campaigns: if stats.active_campaigns == 0 {
                    0
                } else {
                    stats.active_campaigns - 1
                },
            },
        };
    }

    /// Creates the trust score of a principal that has none yet.
    pub fn create_trust_score(&mut self, entity: Address, now: u64) -> (r: Result<(), SaviaError>)
        requires
            old(self).wf(),
        ensures
            final(self).wf(),
            final(self)@ == apply(old(self)@, Call::CreateTrustScore { entity: entity@, now }),
            match r {
                Ok(()) => {
                    &&& old(self)@.check_create_trust_score(entity@) is None
                    &&& final(self)@ == old(self)@.after_create_trust_score(entity@, now)
                },
                Err(e) => {
                    &&& old(self)@.check_create_trust_score(entity@) == Some(e)
                    &&& final(self)@ == old(self)@
                },
            },
    {
        if find(&self.trust_scores, &entity).is_some() {
            return Err(SaviaError::ScoreExists);
        }
        proof {
            lemma_trust_updates_wf(self@, entity@, 0, now);
        }
        put(&mut self.trust_scores, TrustScore::baseline(entity, now));
        Ok(())
    }

    /// Makes sure that `entity` has a trust score: creates a fresh one where
    /// it has none, and changes nothing where it has one.
    pub fn ensure_trust_score(&mut self, entity: Address, now: u64)
        requires
            old(self).wf(),
        ensures
            final(self).wf(),
            final(self)@ == apply(old(self)@, Call::EnsureTrustScore { entity: entity@, now }),
            final(self)@ == old(self)@.after_ensure_trust_score(entity@, now),
    {
        if find(&self.trust_scores, &entity).is_none() {
            let _ = self.create_trust_score(entity, now);
        }
    }

    /// Counts a donation of `amount` for `donor`, whose trust score is
    /// created where it has none, and recomputes the score.
    pub fn update_donor_trust_score(&mut self, donor: Address, amount: u64, now: u64) -> (r:
        Result<(), SaviaError>)
        requires
            old(self).wf(),
            old(self)@.donor_update_fits(donor@, amount),
        ensures
            final(self).wf(),
            final(self)@ == apply(old(self)@, Call::UpdateDonorTrustScore { donor: donor@, amount, now }),
            r is Ok,
            final(self)@ == old(self)@.after_update_donor(donor@, amount, now),
    {
        proof {
            lemma_trust_updates_wf(self@, donor@, amount, now);
        }
        let mut trust_score = match find(&self.trust_scores, &donor) {
            Some(i) => self.trust_scores[i].clone(),
            None => TrustScore::baseline(donor, now),
        };
        trust_score.record_donation(amount, now);
        put(&mut self.trust_scores, trust_score);
        Ok(())
    }

    /// Counts a created campaign for `beneficiary`, whose trust score is
    /// created where it has none, and raises the score.
    pub fn update_beneficiary_trust_score(&mut self, beneficiary: Address, now: u64) -> (r:
        Result<(), SaviaError>)
        requires
            old(self).wf(),
            old(self)@.beneficiary_update_fits(beneficiary@),
        ensures
            final(self).wf(),
            final(self)@ == apply(old(self)@, Call::UpdateBeneficiaryTrustScore { beneficiary: beneficiary@, now }),
            r is Ok,
            final(self)@ == old(self)@.after_update_beneficiary(beneficiary@, now),
    {
        proof {
            lemma_trust_updates_wf(self@, beneficiary@, 0, now);
        }
        let mut trust_score = match find(&self.trust_scores, &beneficiary) {
            Some(i) => self.trust_scores[i].clone(),
            None => TrustScore::baseline(beneficiary, now),
        };
        trust_score.record_campaign_created(now);
        put(&mut self.trust_scores, trust_score);
        Ok(())
    }

    /// Validates a request to create a campaign.
    pub fn check_campaign_request(
        &self,
        caller: &Address,
        beneficiary: &Address,
        title: &str,
        description: &str,
        goal_amount: u64,
        duration_days: u64,
    ) -> (r: Result<(), SaviaError>)
        ensures
            match r {
                Ok(()) => self@.check_create_campaign(
                    caller@,
                    beneficiary@,
                    title@,
                    description@,
                    goal_amount,
                    duration_days,
                ) is None,
                Err(e) => self@.check_create_campaign(
                    caller@,
                    beneficiary@,
                    title@,
                    description@,
                    goal_amount,
                    duration_days,
                ) == Some(e),
            },
    {
        if !caller.same(beneficiary) {
            return Err(SaviaError::Unauthorized);
        }
        if goal_amount == 0 {
            return Err(SaviaError::InvalidGoal);
        }
        if duration_days == 0 || duration_days > 365 {
            return Err(SaviaError::InvalidDuration);
        }
        if title.is_empty() || description.is_empty() {
            return Err(SaviaError::InvalidInput);
        }
        Ok(())
    }

    /// Creates a campaign under the identifier given. `caller` must be the
    /// beneficiary. The campaign starts at `now`, runs for `duration_days`
    /// days, and is active, unverified and without funds.
    #[verifier::rlimit(40)]
    pub fn record_campaign(
        &mut self,
        id: Id,
        caller: &Address,
        beneficiary: Address,
        title: String,
        description: String,
        goal_amount: u64,
        duration_days: u64,
        category: String,
        location: String,
        now: u64,
    ) -> (r: Result<Id, SaviaError>)
        requires
            old(self).wf(),
            old(self)@.check_create_campaign(
                caller@,
                beneficiary@,
                title@,
                description@,
                goal_amount,
                duration_days,
            ) is None ==> old(self)@.create_campaign_fits(beneficiary@, duration_days, now),
        ensures
            final(self).wf(),
            final(self)@ == apply(
                old(self)@,
                Call::CreateCampaign {
                    id: id@,
                    caller: caller@,
                    beneficiary: beneficiary@,
                    title: title@,
                    description: description@,
                    goal_amount,
                    duration_days,
                    category: category@,
                    location: location@,
                    now,
                },
            ),
            match r {
                Ok(created) => {
                    &&& old(self)@.check_create_campaign(
                        caller@,
                        beneficiary@,
                        title@,
                        description@,
                        goal_amount,
                        duration_days,
                    ) is None
                    &&& created == id
                    &&& final(self)@ == old(self)@.after_create_campaign(
                        id@,
                        beneficiary@,
                        title@,
                        description@,
                        goal_amount,
                        duration_days,
                        category@,
                        location@,
                        now,
                    )
                },
                Err(e) => {
                    &&& old(self)@.check_create_campaign(
                        caller@,
                        beneficiary@,
                        title@,
                        description@,
                        goal_amount,
                        duration_days,
                    ) == Some(e)
                    &&& final(self)@ == old(self)@
                },
            },
    {
        match self.check_campaign_request(
            caller,
            &beneficiary,
            title.as_str(),
            description.as_str(),
            goal_amount,
            duration_days,
        ) {
            Err(e) => {
                return Err(e);
            },
            Ok(()) => {},
        }
        assert(seconds_in(duration_days) <= 365 * 86400);
        let end_time: u64 = now + duration_days * 86400;
        let owner = beneficiary.clone();
        let campaign = Campaign {
            id,
            title,
            description,
            beneficiary,
            goal_amount,
            current_amount: 0,
            start_time: now,
            end_time,
            verified: false,
            trust_score: 0,
            category,
            location,
            active: true,
        };
        proof {
            lemma_put_campaign_wf(
                LedgerView { campaign_counter: (self@.campaign_counter + 1) as u64, ..self@ },
                campaign@,
            );
        }
        self.campaign_counter = self.campaign_counter + 1;
        put(&mut self.campaigns, campaign);
        self.update_stats(StatsChange::CampaignOpened);
        let _ = self.update_beneficiary_trust_score(owner, now);
        Ok(id)
    }

    /// Creates a campaign and returns its identifier, which is derived from
    /// the beneficiary, the title, the goal, `now` and the campaign counter.
    /// `caller` must be the beneficiary.
    #[verifier::rlimit(40)]
    pub fn create_campaign(
        &mut self,
        caller: &Address,
        beneficiary: Address,
        title: String,
        description: String,
        goal_amount: u64,
        duration_days: u64,
        category: String,
        location: String,
        now: u64,
    ) -> (r: Result<Id, SaviaError>)
        requires
            old(self).wf(),
            old(self)@.check_create_campaign(
                caller@,
                beneficiary@,
                title@,
                description@,
                goal_amount,
                duration_days,
            ) is None ==> {
                &&& old(self)@.create_campaign_fits(beneficiary@, duration_days, now)
                &&& text_bytes(beneficiary@).len() + text_bytes(title@).len() + 24 <= u32::MAX
            },
        ensures
            final(self).wf(),
            match r {
                Ok(id) => {
                    &&& old(self)@.check_create_campaign(
                        caller@,
                        beneficiary@,
                        title@,
                        description@,
                        goal_amount,
                        duration_days,
                    ) is None
                    &&& id@ == campaign_id_of(
                        beneficiary@,
                        title@,
                        goal_amount,
                        now,
                        (old(self)@.campaign_counter + 1) as u64,
                    )
                    &&& final(self)@ == old(self)@.after_create_campaign(
                        id@,
                        beneficiary@,
                        title@,
                        description@,
                        goal_amount,
                        duration_days,
                        category@,
                        location@,
                        now,
                    )
                },
                Err(e) => {
                    &&& old(self)@.check_create_campaign(
                        caller@,
                        beneficiary@,
                        title@,
                        description@,
                        goal_amount,
                        duration_days,
                    ) == Some(e)
                    &&& final(self)@ == old(self)@
                },
            },
    {
        match self.check_campaign_request(
            caller,
            &beneficiary,
            title.as_str(),
            description.as_str(),
            goal_amount,
            duration_days,
        ) {
            Err(e) => {
                return Err(e);
            },
            Ok(()) => {},
        }
        let id = campaign_id(
            &beneficiary,
            title.as_str(),
            goal_amount,
            now,
            self.campaign_counter + 1,
        );
        self.record_campaign(
            id,
            caller,
            beneficiary,
            title,
            description,
            goal_amount,
            duration_days,
            category,
            location,
            now,
        )
    }

    /// Whether `caller` is the administrator.
    pub fn is_admin(&self, caller: &Address) -> (b: bool)
        ensures
            b == (self@.admin == Some(caller@)),
    {
        match &self.admin {
            Some(admin) => admin.same(caller),
            None => false,
        }
    }

    /// Marks a campaign as verified and sets its trust score, cut off at 100.
    /// `caller` must be the administrator.
    pub fn verify_campaign(&mut self, caller: &Address, campaign_id: &Id, trust_score: u32) -> (r:
        Result<(), SaviaError>)
        requires
            old(self).wf(),
        ensures
            final(self).wf(),
            final(self)@ == apply(old(self)@, Call::VerifyCampaign { caller: caller@, campaign_id: campaign_id@, trust_score }),
            match r {
                Ok(()) => {
                    &&& old(self)@.check_verify_campaign(caller@, campaign_id@) is None
                    &&& final(self)@ == old(self)@.after_verify_campaign(
                        campaign_id@,
                        trust_score,
                    )
                },
                Err(e) => {
                    &&& old(self)@.check_verify_campaign(caller@, campaign_id@) == Some(e)
                    &&& final(self)@ == old(self)@
                },
            },
    {
        if !self.is_admin(caller) {
            return Err(SaviaError::Unauthorized);
        }
        let mut campaign = match find(&self.campaigns, campaign_id) {
            Some(i) => self.campaigns[i].clone(),
            None => {
                return Err(SaviaError::CampaignNotFound);
            },
        };
        campaign.verified = true;
        campaign.trust_score = if trust_score < MAX_SCORE {
            trust_score
        } else {
            MAX_SCORE
        };
        proof {
            lemma_put_campaign_wf(self@, campaign@);
        }
        put(&mut self.campaigns, campaign);
        Ok(())
    }

    /// Closes a campaign before its end. `caller` must be the campaign's
    /// beneficiary, and the campaign must still be active.
    pub fn close_campaign(&mut self, caller: &Address, campaign_id: &Id) -> (r: Result<
        (),
        SaviaError,
    >)
        requires
            old(self).wf(),
        ensures
            final(self).wf(),
            final(self)@ == apply(old(self)@, Call::CloseCampaign { caller: caller@, campaign_id: campaign_id@ }),
            match r {
                Ok(()) => {
                    &&& old(self)@.check_close_campaign(caller@, campaign_id@) is None
                    &&& final(self)@ == old(self)@.after_close_campaign(campaign_id@)
                },
                Err(e) => {
                    &&& old(self)@.check_close_campaign(caller@, campaign_id@) == Some(e)
                    &&& final(self)@ == old(self)@
                },
            },
    {
        let mut campaign = match find(&self.campaigns, campaign_id) {
            Some(i) => self.campaigns[i].clone(),
            None => {
                return Err(SaviaError::CampaignNotFound);
            },
        };
        if !caller.same(&campaign.beneficiary) {
            return Err(SaviaError::Unauthorized);
        }
        if !campaign.active {
            return Err(SaviaError::CampaignInactive);
        }
        campaign.active = false;
        proof {
            lemma_rows_bounded(self@, campaign_id@, caller@);
            lemma_put_campaign_wf(self@, campaign@);
        }
        put(&mut self.campaigns, campaign);
        self.update_stats(StatsChange::CampaignClosed);
        Ok(())
    }

    /// Approves a pending disbursement. `caller` must be the administrator.
    /// Approving an approved disbursement succeeds and leaves it approved; a
    /// disbursement that was executed or rejected is settled, and approving
    /// it is refused with `NotApproved`.
    pub fn approve_disbursement(&mut self, caller: &Address, disbursement_id: &Id) -> (r: Result<
        (),
        SaviaError,
    >)
        requires
            old(self).wf(),
        ensures
            final(self).wf(),
            final(self)@ == apply(
                old(self)@,
                Call::ApproveDisbursement { caller: caller@, id: disbursement_id@ },
            ),
            (old(self)@.disbursement(disbursement_id@) matches Some(d) && d.status
                != DisbursementStatus::Pending) ==> final(self)@ == old(self)@,
            match r {
                Ok(()) => {
                    &&& old(self)@.check_approve_disbursement(caller@, disbursement_id@) is None
                    &&& final(self)@ == old(self)@.after_approve_disbursement(disbursement_id@)
                },
                Err(e) => {
                    &&& old(self)@.check_approve_disbursement(caller@, disbursement_id@) == Some(
                        e,
                    )
                    &&& final(self)@ == old(self)@
                },
            },
    {
        proof {
            if self@.disbursement(disbursement_id@) matches Some(d) && d.status
                == DisbursementStatus::Approved {
                lemma_approve_again_changes_nothing(self@, caller@, disbursement_id@);
            }
        }
        if !self.is_admin(caller) {
            return Err(SaviaError::Unauthorized);
        }
        let mut disbursement = match find(&self.disbursements, disbursement_id) {
            Some(i) => self.disbursements[i].clone(),
            None => {
                return Err(SaviaError::DisbursementNotFound);
            },
        };
        match disbursement.status {
            DisbursementStatus::Executed => {
                return Err(SaviaError::NotApproved);
            },
            DisbursementStatus::Rejected => {
                return Err(SaviaError::NotApproved);
            },
            _ => {},
        }
        disbursement.status = DisbursementStatus::Approved;
        proof {
            lemma_put_disbursement_wf(self@, disbursement@);
        }
        put(&mut self.disbursements, disbursement);
        Ok(())
    }

    /// Executes an approved disbursement and records the time. `caller` must
    /// be the disbursement's recipient.
    pub fn execute_disbursement(&mut self, caller: &Address, disbursement_id: &Id, now: u64) -> (r:
        Result<(), SaviaError>)
        requires
            old(self).wf(),
        ensures
            final(self).wf(),
            final(self)@ == apply(old(self)@, Call::ExecuteDisbursement { caller: caller@, id: disbursement_id@, now }),
            match r {
                Ok(()) => {
                    &&& old(self)@.check_execute_disbursement(caller@, disbursement_id@) is None
                    &&& final(self)@ == old(self)@.after_execute_disbursement(
                        disbursement_id@,
                        now,
                    )
                },
                Err(e) => {
                    &&& old(self)@.check_execute_disbursement(caller@, disbursement_id@) == Some(
                        e,
                    )
                    &&& final(self)@ == old(self)@
                },
            },
    {
        let mut disbursement = match find(&self.disbursements, disbursement_id) {
            Some(i) => self.disbursements[i].clone(),
            None => {
                return Err(SaviaError::DisbursementNotFound);
            },
        };
        if !caller.same(&disbursement.recipient) {
            return Err(SaviaError::Unauthorized);
        }
        if disbursement.status != DisbursementStatus::Approved {
            return Err(SaviaError::NotApproved);
        }
        disbursement.status = DisbursementStatus::Executed;
        disbursement.executed_at = Some(now);
        proof {
            lemma_put_disbursement_wf(self@, disbursement@);
        }
        put(&mut self.disbursements, disbursement);
        Ok(())
    }

    /// Mints a badge under the identifier given, for a donation of `amount`
    /// by `owner` to the campaign. The badge's tier follows from `amount`.
    pub fn record_badge(
        &mut self,
        id: Id,
        owner: Address,
        campaign_id: Id,
        amount: u64,
        now: u64,
    ) -> (r: Result<Id, SaviaError>)
        requires
            old(self).wf(),
            old(self)@.mint_fits(),
        ensures
            final(self).wf(),
            final(self)@ == apply(
                old(self)@,
                Call::MintBadge {
                    id: id@,
                    owner: owner@,
                    campaign_id: campaign_id@,
                    amount,
                    now,
                },
            ),
            r == Ok::<Id, SaviaError>(id),
            final(self)@ == old(self)@.after_mint(id@, owner@, campaign_id@, amount, now),
    {
        let badge = NFTBadge {
            id,
            owner,
            badge_type: get_badge_type(amount),
            campaign_id: Some(campaign_id),
            minted_at: now,
            metadata_uri: badge_metadata_uri(),
        };
        proof {
            lemma_put_nft_wf(
                LedgerView { nft_counter: (self@.nft_counter + 1) as u64, ..self@ },
                badge@,
            );
        }
        self.nft_counter = self.nft_counter + 1;
        put(&mut self.nfts, badge);
        self.update_stats(StatsChange::NftMinted);
        Ok(id)
    }

    /// Mints a badge for a donation of `amount` by `owner` and returns its
    /// identifier, which is derived from the owner, the campaign, the
    /// donation, the amount and the badge counter.
    pub fn mint_donation_nft(
        &mut self,
        owner: Address,
        campaign_id: Id,
        donation_id: Id,
        amount: u64,
        now: u64,
    ) -> (r: Result<Id, SaviaError>)
        requires
            old(self).wf(),
            old(self)@.mint_fits(),
            text_bytes(owner@).len() + 80 <= u32::MAX,
        ensures
            final(self).wf(),
            r matches Ok(id) && id@ == nft_id_of(
                owner@,
                campaign_id@,
                donation_id@,
                amount,
                (old(self)@.nft_counter + 1) as u64,
            ) && final(self)@ == old(self)@.after_mint(id@, owner@, campaign_id@, amount, now),
    {
        let id = nft_id(&owner, &campaign_id, &donation_id, amount, self.nft_counter + 1);
        self.record_badge(id, owner, campaign_id, amount, now)
    }

    /// Validates a donation.
    pub fn check_donation_request(
        &self,
        caller: &Address,
        campaign_id: &Id,
        donor: &Address,
        amount: u64,
        now: u64,
    ) -> (r: Result<(), SaviaError>)
        ensures
            match r {
                Ok(()) => self@.check_donate(caller@, campaign_id@, donor@, amount, now) is None,
                Err(e) => self@.check_donate(caller@, campaign_id@, donor@, amount, now) == Some(
                    e,
                ),
            },
    {
        if !caller.same(donor) {
            return Err(SaviaError::Unauthorized);
        }
        match find(&self.campaigns, campaign_id) {
            None => Err(SaviaError::CampaignNotFound),
            Some(i) => {
                if !self.campaigns[i].active {
                    Err(SaviaError::CampaignInactive)
                } else if !self.campaigns[i].is_open(now) {
                    Err(SaviaError::CampaignEnded)
                } else if amount == 0 {
                    Err(SaviaError::InvalidAmount)
                } else {
                    Ok(())
                }
            },
        }
    }

    /// Records a donation under `donation_id`, and mints its badge under
    /// `nft_id` where `mint_nft` asks for one. `caller` must be the donor. The
    /// platform fee is taken from `amount`; the rest is credited to the
    /// campaign, counted in the statistics and in the donor's trust score,
    /// and is the amount of the donation recorded.
    #[verifier::rlimit(40)]
    pub fn record_donation(
        &mut self,
        donation_id: Id,
        nft_id: Id,
        caller: &Address,
        campaign_id: Id,
        donor: Address,
        amount: u64,
        anonymous: bool,
        mint_nft: bool,
        now: u64,
    ) -> (r: Result<Id, SaviaError>)
        requires
            old(self).wf(),
            old(self)@.check_donate(caller@, campaign_id@, donor@, amount, now) is None
                ==> old(self)@.donate_fits(campaign_id@, donor@, amount, mint_nft),
        ensures
            final(self).wf(),
            r is Ok ==> (final(self)@.donation(donation_id@) matches Some(d) && d.amount + fee_of(
                amount,
                old(self)@.fee_rate(),
            ) == amount),
            (r is Ok && funds_consistent(old(self)@) && !(old(self)@.donation(
                donation_id@,
            ) matches Some(d) && d.amount != 0)) ==> funds_consistent(final(self)@),
            final(self)@ == apply(
                old(self)@,
                Call::Donate {
                    donation_id: donation_id@,
                    nft_id: nft_id@,
                    caller: caller@,
                    campaign_id: campaign_id@,
                    donor: donor@,
                    amount,
                    anonymous,
                    mint_nft,
                    now,
                },
            ),
            match r {
                Ok(recorded) => {
                    &&& old(self)@.check_donate(caller@, campaign_id@, donor@, amount, now) is None
                    &&& recorded == donation_id
                    &&& final(self)@ == old(self)@.after_donate(
                        donation_id@,
                        nft_id@,
                        campaign_id@,
                        donor@,
                        amount,
                        anonymous,
                        mint_nft,
                        now,
                    )
                },
                Err(e) => {
                    &&& old(self)@.check_donate(caller@, campaign_id@, donor@, amount, now) == Some(
                        e,
                    )
                    &&& final(self)@ == old(self)@
                },
            },
    {
        match self.check_donation_request(caller, &campaign_id, &donor, amount, now) {
            Err(e) => {
                return Err(e);
            },
            Ok(()) => {},
        }
        let mut campaign = match find(&self.campaigns, &campaign_id) {
            Some(i) => self.campaigns[i].clone(),
            None => {
                return Err(SaviaError::CampaignNotFound);
            },
        };
        proof {
            let before = self@;
            lemma_recorded_amount_plus_fee(
                before,
                donation_id@,
                nft_id@,
                caller@,
                campaign_id@,
                donor@,
                amount,
                anonymous,
                mint_nft,
                now,
            );
            if funds_consistent(before) && !(before.donation(donation_id@) matches Some(d)
                && d.amount != 0) {
                lemma_donate_keeps_funds(
                    before,
                    donation_id@,
                    nft_id@,
                    campaign_id@,
                    donor@,
                    amount,
                    anonymous,
                    mint_nft,
                    now,
                );
            }
        }
        let (_, net_amount) = split_fee(amount, self.get_platform_fee());
        let donation = Donation {
            id: donation_id,
            campaign_id,
            donor: donor.clone(),
            amount: net_amount,
            timestamp: now,
            nft_minted: mint_nft,
            anonymous,
        };
        let _ = campaign.credit(net_amount, now);
        proof {
            lemma_rows_bounded(self@, campaign_id@, donor@);
            let counted = LedgerView {
                donation_counter: (self@.donation_counter + 1) as u64,
                ..self@
            };
            lemma_put_campaign_wf(counted, campaign@);
            lemma_upsert(counted.campaigns, campaign_key(), campaign@, campaign_id@);
            lemma_put_donation_wf(
                LedgerView {
                    campaigns: upsert(counted.campaigns, campaign_key(), campaign@),
                    ..counted
                },
                donation@,
            );
        }
        self.donation_counter = self.donation_counter + 1;
        put(&mut self.campaigns, campaign);
        put(&mut self.donations, donation);
        self.update_stats(StatsChange::DonationMade(net_amount));
        let _ = self.update_donor_trust_score(donor.clone(), net_amount, now);
        if mint_nft {
            let _ = self.record_badge(nft_id, donor, campaign_id, net_amount, now);
        }
        Ok(donation_id)
    }

    /// Makes a donation of `amount` to a campaign and returns the donation's
    /// identifier, which is derived from the campaign, the donor, `amount`,
    /// `now` and the donation counter. `caller` must be the donor.
    #[verifier::rlimit(40)]
    pub fn donate(
        &mut self,
        caller: &Address,
        campaign_id: Id,
        donor: Address,
        amount: u64,
        anonymous: bool,
        mint_nft: bool,
        now: u64,
    ) -> (r: Result<Id, SaviaError>)
        requires
            old(self).wf(),
            old(self)@.check_donate(caller@, campaign_id@, donor@, amount, now) is None ==> {
                &&& old(self)@.donate_fits(campaign_id@, donor@, amount, mint_nft)
                &&& text_bytes(donor@).len() + 80 <= u32::MAX
            },
        ensures
            final(self).wf(),
            r matches Ok(id) ==> (final(self)@.donation(id@) matches Some(d) && d.amount + fee_of(
                amount,
                old(self)@.fee_rate(),
            ) == amount),
            (r matches Ok(id) && funds_consistent(old(self)@) && !(old(self)@.donation(
                id@,
            ) matches Some(d) && d.amount != 0)) ==> funds_consistent(final(self)@),
            match r {
                Ok(id) => {
                    &&& old(self)@.check_donate(caller@, campaign_id@, donor@, amount, now) is None
                    &&& id@ == donation_id_of(
                        campaign_id@,
                        donor@,
                        amount,
                        now,
                        (old(self)@.donation_counter + 1) as u64,
                    )
                    &&& final(self)@ == old(self)@.after_donate(
                        id@,
                        nft_id_of(
                            donor@,
                            campaign_id@,
                            id@,
                            old(self)@.net_amount(amount),
                            (old(self)@.nft_counter + 1) as u64,
                        ),
                        campaign_id@,
                        donor@,
                        amount,
                        anonymous,
                        mint_nft,
                        now,
                    )
                },
                Err(e) => {
                    &&& old(self)@.check_donate(caller@, campaign_id@, donor@, amount, now) == Some(
                        e,
                    )
                    &&& final(self)@ == old(self)@
                },
            },
    {
        match self.check_donation_request(caller, &campaign_id, &donor, amount, now) {
            Err(e) => {
                return Err(e);
            },
            Ok(()) => {},
        }
        let ghost before = self@;
        let (_, net_amount) = split_fee(amount, self.get_platform_fee());
        assert(net_amount == before.net_amount(amount));
        let id = donation_id(&campaign_id, &donor, amount, now, self.donation_counter + 1);
        let badge_id = if mint_nft {
            nft_id(&donor, &campaign_id, &id, net_amount, self.nft_counter + 1)
        } else {
            id
        };
        proof {
            if !mint_nft {
                lemma_donate_without_badge(
                    before,
                    id@,
                    badge_id@,
                    nft_id_of(
                        donor@,
                        campaign_id@,
                        id@,
                        before.net_amount(amount),
                        (before.nft_counter + 1) as u64,
                    ),
                    campaign_id@,
                    donor@,
                    amount,
                    anonymous,
                    now,
                );
            }
        }
        self.record_donation(
            id,
            badge_id,
            caller,
            campaign_id,
            donor,
            amount,
            anonymous,
            mint_nft,
            now,
        )
    }

    /// Validates a request for a disbursement.
    pub fn check_disbursement_request(&self, caller: &Address, campaign_id: &Id, amount: u64) -> (r:
        Result<(), SaviaError>)
        ensures
            match r {
                Ok(()) => self@.check_create_disbursement(caller@, campaign_id@, amount) is None,
                Err(e) => self@.check_create_disbursement(caller@, campaign_id@, amount) == Some(
                    e,
                ),
            },
    {
        match find(&self.campaigns, campaign_id) {
            None => Err(SaviaError::CampaignNotFound),
            Some(i) => {
                if !caller.same(&self.campaigns[i].beneficiary) {
                    Err(SaviaError::Unauthorized)
                } else if amount > self.campaigns[i].current_amount {
                    Err(SaviaError::InsufficientFunds)
                } else {
                    Ok(())
                }
            },
        }
    }

    /// Requests a disbursement under the identifier given. `caller` must be
    /// the campaign's beneficiary, and `amount` at most what the campaign
    /// holds. The disbursement is pending.
    pub fn record_disbursement(
        &mut self,
        id: Id,
        caller: &Address,
        campaign_id: Id,
        recipient: Address,
        amount: u64,
        milestone: String,
        now: u64,
    ) -> (r: Result<Id, SaviaError>)
        requires
            old(self).wf(),
            old(self)@.check_create_disbursement(caller@, campaign_id@, amount) is None
                ==> old(self)@.create_disbursement_fits(),
        ensures
            final(self).wf(),
            final(self)@ == apply(
                old(self)@,
                Call::CreateDisbursement {
                    id: id@,
                    caller: caller@,
                    campaign_id: campaign_id@,
                    recipient: recipient@,
                    amount,
                    milestone: milestone@,
                    now,
                },
            ),
            r is Ok ==> (old(self)@.campaign(campaign_id@) matches Some(c) && amount
                <= c.current_amount),
            match r {
                Ok(created) => {
                    &&& old(self)@.check_create_disbursement(caller@, campaign_id@, amount) is None
                    &&& created == id
                    &&& final(self)@ == old(self)@.after_create_disbursement(
                        id@,
                        campaign_id@,
                        recipient@,
                        amount,
                        milestone@,
                        now,
                    )
                },
                Err(e) => {
                    &&& old(self)@.check_create_disbursement(caller@, campaign_id@, amount) == Some(
                        e,
                    )
                    &&& final(self)@ == old(self)@
                },
            },
    {
        match self.check_disbursement_request(caller, &campaign_id, amount) {
            Err(e) => {
                return Err(e);
            },
            Ok(()) => {},
        }
        let disbursement = Disbursement {
            id,
            campaign_id,
            recipient,
            amount,
            milestone,
            status: DisbursementStatus::Pending,
            created_at: now,
            executed_at: None,
        };
        proof {
            lemma_put_disbursement_wf(
                LedgerView {
                    disbursement_counter: (self@.disbursement_counter + 1) as u64,
                    ..self@
                },
                disbursement@,
            );
        }
        self.disbursement_counter = self.disbursement_counter + 1;
        put(&mut self.disbursements, disbursement);
        Ok(id)
    }

    /// Requests a disbursement and returns its identifier, which is derived
    /// from the campaign, the recipient, the amount, the milestone and the
    /// disbursement counter. `caller` must be the campaign's beneficiary.
    pub fn create_disbursement(
        &mut self,
        caller: &Address,
        campaign_id: Id,
        recipient: Address,
        amount: u64,
        milestone: String,
        now: u64,
    ) -> (r: Result<Id, SaviaError>)
        requires
            old(self).wf(),
            old(self)@.check_create_disbursement(caller@, campaign_id@, amount) is None ==> {
                &&& old(self)@.create_disbursement_fits()
                &&& text_bytes(recipient@).len() + text_bytes(milestone@).len() + 48 <= u32::MAX
            },
        ensures
            final(self).wf(),
            r is Ok ==> (old(self)@.campaign(campaign_id@) matches Some(c) && amount
                <= c.current_amount),
            match r {
                Ok(id) => {
                    &&& old(self)@.check_create_disbursement(caller@, campaign_id@, amount) is None
                    &&& id@ == disbursement_id_of(
                        campaign_id@,
                        recipient@,
                        amount,
                        milestone@,
                        (old(self)@.disbursement_counter + 1) as u64,
                    )
                    &&& final(self)@ == old(self)@.after_create_disbursement(
                        id@,
                        campaign_id@,
                        recipient@,
                        amount,
                        milestone@,
                        now,
                    )
                },
                Err(e) => {
                    &&& old(self)@.check_create_disbursement(caller@, campaign_id@, amount) == Some(
                        e,
                    )
                    &&& final(self)@ == old(self)@
                },
            },
    {
        match self.check_disbursement_request(caller, &campaign_id, amount) {
            Err(e) => {
                return Err(e);
            },
            Ok(()) => {},
        }
        let id = disbursement_id(
            &campaign_id,
            &recipient,
            amount,
            milestone.as_str(),
            self.disbursement_counter + 1,
        );
        self.record_disbursement(id, caller, campaign_id, recipient, amount, milestone, now)
    }

    /// Whether `change` keeps the statistics within their integer widths.
    pub fn stats_change_fits(&self, change: StatsChange) -> (ok: bool)
        ensures
            ok == stats_fit(self@.stats, change),
    {
        match change {
            StatsChange::CampaignOpened => self.stats.total_campaigns < u64::MAX
                && self.stats.active_campaigns < u64::MAX,
            StatsChange::DonationMade(net) => self.stats.total_donations < u64::MAX && net
                <= u64::MAX - self.stats.total_raised,
            StatsChange::NftMinted => self.stats.total_nfts < u64::MAX,
            StatsChange::CampaignClosed => true,
        }
    }

    /// Whether a badge can be minted within the ledger's integer widths.
    pub fn can_mint(&self) -> (ok: bool)
        ensures
            ok == self@.mint_fits(),
    {
        self.nft_counter < u64::MAX && self.stats_change_fits(StatsChange::NftMinted)
    }

    /// Whether a donation of `amount` can be counted for `donor` within the
    /// integer widths of its trust score.
    pub fn can_update_donor(&self, donor: &Address, amount: u64) -> (ok: bool)
        ensures
            ok == self@.donor_update_fits(donor@, amount),
    {
        match find(&self.trust_scores, donor) {
            Some(i) => self.trust_scores[i].donation_count < u32::MAX && amount <= u64::MAX
                - self.trust_scores[i].total_donated,
            None => true,
        }
    }

    /// Whether a campaign can be counted for `beneficiary` within the integer
    /// widths of its trust score.
    pub fn can_update_beneficiary(&self, beneficiary: &Address) -> (ok: bool)
        ensures
            ok == self@.beneficiary_update_fits(beneficiary@),
    {
        match find(&self.trust_scores, beneficiary) {
            Some(i) => self.trust_scores[i].campaigns_created < u32::MAX,
            None => true,
        }
    }

    /// Whether `create_campaign` may be called with these arguments: whether
    /// the call is refused, or else stays within the ledger's integer widths
    /// and hashes no more bytes than the hash takes.
    pub fn can_create_campaign(
        &self,
        caller: &Address,
        beneficiary: &Address,
        title: &str,
        description: &str,
        goal_amount: u64,
        duration_days: u64,
        now: u64,
    ) -> (ok: bool)
        ensures
            ok == (self@.check_create_campaign(
                caller@,
                beneficiary@,
                title@,
                description@,
                goal_amount,
                duration_days,
            ) is None ==> {
                &&& self@.create_campaign_fits(beneficiary@, duration_days, now)
                &&& text_bytes(beneficiary@).len() + text_bytes(title@).len() + 24 <= u32::MAX
            }),
    {
        match self.check_campaign_request(
            caller,
            beneficiary,
            title,
            description,
            goal_amount,
            duration_days,
        ) {
            Err(_) => true,
            Ok(()) => {
                let hashed: u128 = beneficiary.as_str().as_bytes().len() as u128 + title.as_bytes().len() as u128
                    + 24;
                self.campaign_counter < u64::MAX && duration_days * 86400 <= u64::MAX - now
                    && self.stats_change_fits(StatsChange::CampaignOpened)
                    && self.can_update_beneficiary(beneficiary) && hashed <= 0xffff_ffff
            },
        }
    }

    /// Whether `donate` may be called with these arguments: whether the call
    /// is refused, or else stays within the ledger's integer widths and
    /// hashes no more bytes than the hash takes.
    pub fn can_donate(
        &self,
        caller: &Address,
        campaign_id: &Id,
        donor: &Address,
        amount: u64,
        mint_nft: bool,
        now: u64,
    ) -> (ok: bool)
        requires
            self.wf(),
        ensures
            ok == (self@.check_donate(caller@, campaign_id@, donor@, amount, now) is None ==> {
                &&& self@.donate_fits(campaign_id@, donor@, amount, mint_nft)
                &&& text_bytes(donor@).len() + 80 <= u32::MAX
            }),
    {
        match self.check_donation_request(caller, campaign_id, donor, amount, now) {
            Err(_) => true,
            Ok(()) => {
                let (_, net_amount) = split_fee(amount, self.get_platform_fee());
                let credited = match find(&self.campaigns, campaign_id) {
                    Some(i) => net_amount <= u64::MAX - self.campaigns[i].current_amount,
                    None => true,
                };
                let hashed: u128 = donor.as_str().as_bytes().len() as u128 + 80;
                self.donation_counter < u64::MAX && credited && self.stats_change_fits(
                    StatsChange::DonationMade(net_amount),
                ) && self.can_update_donor(donor, net_amount) && (!mint_nft || self.can_mint())
                    && hashed <= 0xffff_ffff
            },
        }
    }

    /// Whether `create_disbursement` may be called with these arguments:
    /// whether the call is refused, or else stays within the ledger's integer
    /// widths and hashes no more bytes than the hash takes.
    pub fn can_create_disbursement(
        &self,
        caller: &Address,
        campaign_id: &Id,
        recipient: &Address,
        amount: u64,
        milestone: &str,
    ) -> (ok: bool)
        ensures
            ok == (self@.check_create_disbursement(caller@, campaign_id@, amount) is None ==> {
                &&& self@.create_disbursement_fits()
                &&& text_bytes(recipient@).len() + text_bytes(milestone@).len() + 48 <= u32::MAX
            }),
    {
        match self.check_disbursement_request(caller, campaign_id, amount) {
            Err(_) => true,
            Ok(()) => {
                let hashed: u128 = recipient.as_str().as_bytes().len() as u128 + milestone.as_bytes().len() as u128
                    + 48;
                self.disbursement_counter < u64::MAX && hashed <= 0xffff_ffff
            },
        }
    }

    /// `update_donor_trust_score` for every input: where the call would
    /// leave the integer widths of the trust score, the result is `None` and
    /// nothing changes.
    pub fn try_update_donor_trust_score(&mut self, donor: Address, amount: u64, now: u64) -> (r:
        Option<Result<(), SaviaError>>)
        requires
            old(self).wf(),
        ensures
            final(self).wf(),
            r is None <==> !old(self)@.donor_update_fits(donor@, amount),
            match r {
                None => final(self)@ == old(self)@,
                Some(done) => done is Ok && final(self)@ == old(self)@.after_update_donor(
                    donor@,
                    amount,
                    now,
                ),
            },
    {
        if self.can_update_donor(&donor, amount) {
            Some(self.update_donor_trust_score(donor, amount, now))
        } else {
            None
        }
    }

    /// `update_beneficiary_trust_score` for every input: where the call
    /// would leave the integer widths of the trust score, the result is
    /// `None` and nothing changes.
    pub fn try_update_beneficiary_trust_score(&mut self, beneficiary: Address, now: u64) -> (r:
        Option<Result<(), SaviaError>>)
        requires
            old(self).wf(),
        ensures
            final(self).wf(),
            r is None <==> !old(self)@.beneficiary_update_fits(beneficiary@),
            match r {
                None => final(self)@ == old(self)@,
                Some(done) => done is Ok && final(self)@ == old(self)@.after_update_beneficiary(
                    beneficiary@,
                    now,
                ),
            },
    {
        if self.can_update_beneficiary(&beneficiary) {
            Some(self.update_beneficiary_trust_score(beneficiary, now))
        } else {
            None
        }
    }

    /// `create_campaign` for every input: where the call would leave the
    /// ledger's integer widths, or hash more bytes than the hash takes, the
    /// result is `None` and nothing changes; elsewhere it is what
    /// `create_campaign` returns.
    pub fn try_create_campaign(
        &mut self,
        caller: &Address,
        beneficiary: Address,
        title: String,
        description: String,
        goal_amount: u64,
        duration_days: u64,
        category: String,
        location: String,
        now: u64,
    ) -> (r: Option<Result<Id, SaviaError>>)
        requires
            old(self).wf(),
        ensures
            final(self).wf(),
            r is None <==> (old(self)@.check_create_campaign(
                caller@,
                beneficiary@,
                title@,
                description@,
                goal_amount,
                duration_days,
            ) is None && !(old(self)@.create_campaign_fits(beneficiary@, duration_days, now)
                && text_bytes(beneficiary@).len() + text_bytes(title@).len() + 24 <= u32::MAX)),
            match r {
                None => final(self)@ == old(self)@,
                Some(Ok(id)) => {
                    &&& old(self)@.check_create_campaign(
                        caller@,
                        beneficiary@,
                        title@,
                        description@,
                        goal_amount,
                        duration_days,
                    ) is None
                    &&& id@ == campaign_id_of(
                        beneficiary@,
                        title@,
                        goal_amount,
                        now,
                        (old(self)@.campaign_counter + 1) as u64,
                    )
                    &&& final(self)@ == old(self)@.after_create_campaign(
                        id@,
                        beneficiary@,
                        title@,
                        description@,
                        goal_amount,
                        duration_days,
                        category@,
                        location@,
                        now,
                    )
                },
                Some(Err(e)) => {
                    &&& old(self)@.check_create_campaign(
                        caller@,
                        beneficiary@,
                        title@,
                        description@,
                        goal_amount,
                        duration_days,
                    ) == Some(e)
                    &&& final(self)@ == old(self)@
                },
            },
    {
        if self.can_create_campaign(
            caller,
            &beneficiary,
            title.as_str(),
            description.as_str(),
            goal_amount,
            duration_days,
            now,
        ) {
            Some(
                self.create_campaign(
                    caller,
                    beneficiary,
                    title,
                    description,
                    goal_amount,
                    duration_days,
                    category,
                    location,
                    now,
                ),
            )
        } else {
            None
        }
    }

    /// `donate` for every input: where the call would leave the ledger's
    /// integer widths, or hash more bytes than the hash takes, the result is
    /// `None` and nothing changes; elsewhere it is what `donate` returns.
    pub fn try_donate(
        &mut self,
        caller: &Address,
        campaign_id: Id,
        donor: Address,
        amount: u64,
        anonymous: bool,
        mint_nft: bool,
        now: u64,
    ) -> (r: Option<Result<Id, SaviaError>>)
        requires
            old(self).wf(),
        ensures
            final(self).wf(),
            r is None <==> (old(self)@.check_donate(caller@, campaign_id@, donor@, amount, now)
                is None && !(old(self)@.donate_fits(campaign_id@, donor@, amount, mint_nft)
                && text_bytes(donor@).len() + 80 <= u32::MAX)),
            r matches Some(Ok(id)) ==> (final(self)@.donation(id@) matches Some(d) && d.amount
                + fee_of(amount, old(self)@.fee_rate()) == amount),
            (r matches Some(Ok(id)) && funds_consistent(old(self)@) && !(old(self)@.donation(
                id@,
            ) matches Some(d) && d.amount != 0)) ==> funds_consistent(final(self)@),
            match r {
                None => final(self)@ == old(self)@,
                Some(Ok(id)) => {
                    &&& old(self)@.check_donate(caller@, campaign_id@, donor@, amount, now) is None
                    &&& id@ == donation_id_of(
                        campaign_id@,
                        donor@,
                        amount,
                        now,
                        (old(self)@.donation_counter + 1) as u64,
                    )
                    &&& final(self)@ == old(self)@.after_donate(
                        id@,
                        nft_id_of(
                            donor@,
                            campaign_id@,
                            id@,
                            old(self)@.net_amount(amount),
                            (old(self)@.nft_counter + 1) as u64,
                        ),
                        campaign_id@,
                        donor@,
                        amount,
                        anonymous,
                        mint_nft,
                        now,
                    )
                },
                Some(Err(e)) => {
                    &&& old(self)@.check_donate(caller@, campaign_id@, donor@, amount, now) == Some(
                        e,
                    )
                    &&& final(self)@ == old(self)@
                },
            },
    {
        if self.can_donate(caller, &campaign_id, &donor, amount, mint_nft, now) {
            Some(self.donate(caller, campaign_id, donor, amount, anonymous, mint_nft, now))
        } else {
            None
        }
    }

    /// `create_disbursement` for every input: where the call would leave the
    /// ledger's integer widths, or hash more bytes than the hash takes, the
    /// result is `None` and nothing changes; elsewhere it is what
    /// `create_disbursement` returns.
    pub fn try_create_disbursement(
        &mut self,
        caller: &Address,
        campaign_id: Id,
        recipient: Address,
        amount: u64,
        milestone: String,
        now: u64,
    ) -> (r: Option<Result<Id, SaviaError>>)
        requires
            old(self).wf(),
        ensures
            final(self).wf(),
            r is None <==> (old(self)@.check_create_disbursement(caller@, campaign_id@, amount)
                is None && !(old(self)@.create_disbursement_fits() && text_bytes(
                recipient@,
            ).len() + text_bytes(milestone@).len() + 48 <= u32::MAX)),
            r matches Some(Ok(_)) ==> (old(self)@.campaign(campaign_id@) matches Some(c) && amount
                <= c.current_amount),
            match r {
                None => final(self)@ == old(self)@,
                Some(Ok(id)) => {
                    &&& old(self)@.check_create_disbursement(caller@, campaign_id@, amount) is None
                    &&& id@ == disbursement_id_of(
                        campaign_id@,
                        recipient@,
                        amount,
                        milestone@,
                        (old(self)@.disbursement_counter + 1) as u64,
                    )
                    &&& final(self)@ == old(self)@.after_create_disbursement(
                        id@,
                        campaign_id@,
                        recipient@,
                        amount,
                        milestone@,
                        now,
                    )
                },
                Some(Err(e)) => {
                    &&& old(self)@.check_create_disbursement(caller@, campaign_id@, amount) == Some(
                        e,
                    )
                    &&& final(self)@ == old(self)@
                },
            },
    {
        if self.can_create_disbursement(
            caller,
            &campaign_id,
            &recipient,
            amount,
            milestone.as_str(),
        ) {
            Some(self.create_disbursement(caller, campaign_id, recipient, amount, milestone, now))
        } else {
            None
        }
    }
}

} // verus!
