//! Sequences of operations on the ledger, and what holds after every one of
//! them.

use vstd::prelude::*;
use crate::errors::SaviaError;
use crate::records::{DisbursementStatus, DisbursementView, DonationView, NFTBadgeView};
use crate::state::{
    campaign_key,
    closed,
    disbursement_key,
    donation_key,
    lemma_put_campaign_wf,
    lemma_put_disbursement_wf,
    lemma_put_donation_wf,
    lemma_put_nft_wf,
    lemma_rows_bounded,
    lemma_trust_updates_wf,
    new_campaign,
    stats_fit,
    verified_with,
    LedgerView,
    StatsChange,
};
use crate::table::{lemma_lookup, lemma_upsert, upsert};
use crate::trust::MAX_SCORE;

verus! {

/// One call of an operation of the contract, with its arguments. Where the
/// operation derives an identifier, the call carries the identifier.
pub enum Call {
    Initialize { caller: Seq<char>, admin: Seq<char>, platform_fee: u64 },
    CreateCampaign {
        id: Seq<u8>,
        caller: Seq<char>,
        beneficiary: Seq<char>,
        title: Seq<char>,
        description: Seq<char>,
        goal_amount: u64,
        duration_days: u64,
        category: Seq<char>,
        location: Seq<char>,
        now: u64,
    },
    VerifyCampaign { caller: Seq<char>, campaign_id: Seq<u8>, trust_score: u32 },
    CloseCampaign { caller: Seq<char>, campaign_id: Seq<u8> },
    Donate {
        donation_id: Seq<u8>,
        nft_id: Seq<u8>,
        caller: Seq<char>,
        campaign_id: Seq<u8>,
        donor: Seq<char>,
        amount: u64,
        anonymous: bool,
        mint_nft: bool,
        now: u64,
    },
    CreateDisbursement {
        id: Seq<u8>,
        caller: Seq<char>,
        campaign_id: Seq<u8>,
        recipient: Seq<char>,
        amount: u64,
        milestone: Seq<char>,
        now: u64,
    },
    ApproveDisbursement { caller: Seq<char>, id: Seq<u8> },
    ExecuteDisbursement { caller: Seq<char>, id: Seq<u8>, now: u64 },
    CreateTrustScore { entity: Seq<char>, now: u64 },
    EnsureTrustScore { entity: Seq<char>, now: u64 },
    UpdateDonorTrustScore { donor: Seq<char>, amount: u64, now: u64 },
    UpdateBeneficiaryTrustScore { beneficiary: Seq<char>, now: u64 },
    MintBadge { id: Seq<u8>, owner: Seq<char>, campaign_id: Seq<u8>, amount: u64, now: u64 },
    UpdateStats { change: StatsChange },
}

/// The error with which the ledger refuses `call`, if it does.
pub open spec fn refusal(s: LedgerView, call: Call) -> Option<SaviaError> {
    match call {
        Call::Initialize { caller, admin, platform_fee } => s.check_initialize(
            caller,
            admin,
            platform_fee,
        ),
        Call::CreateCampaign {
            caller,
            beneficiary,
            title,
            description,
            goal_amount,
            duration_days,
            ..
        } => s.check_create_campaign(
            caller,
            beneficiary,
            title,
            description,
            goal_amount,
            duration_days,
        ),
        Call::VerifyCampaign { caller, campaign_id, .. } => s.check_verify_campaign(
            caller,
            campaign_id,
        ),
        Call::CloseCampaign { caller, campaign_id } => s.check_close_campaign(caller, campaign_id),
        Call::Donate { caller, campaign_id, donor, amount, now, .. } => s.check_donate(
            caller,
            campaign_id,
            donor,
            amount,
            now,
        ),
        Call::CreateDisbursement { caller, campaign_id, amount, .. } => s.check_create_disbursement(
            caller,
            campaign_id,
            amount,
        ),
        Call::ApproveDisbursement { caller, id } => s.check_approve_disbursement(caller, id),
        Call::ExecuteDisbursement { caller, id, .. } => s.check_execute_disbursement(caller, id),
        Call::CreateTrustScore { entity, .. } => s.check_create_trust_score(entity),
        Call::EnsureTrustScore { .. } => None,
        Call::UpdateDonorTrustScore { .. } => None,
        Call::UpdateBeneficiaryTrustScore { .. } => None,
        Call::MintBadge { .. } => None,
        Call::UpdateStats { .. } => None,
    }
}

/// Whether `call`, if it is not refused, stays within the ledger's integer
/// widths: what the operation asks of its caller.
pub open spec fn in_range(s: LedgerView, call: Call) -> bool {
    refusal(s, call) is None ==> match call {
        Call::CreateCampaign { beneficiary, duration_days, now, .. } => s.create_campaign_fits(
            beneficiary,
            duration_days,
            now,
        ),
        Call::Donate { campaign_id, donor, amount, mint_nft, .. } => s.donate_fits(
            campaign_id,
            donor,
            amount,
            mint_nft,
        ),
        Call::CreateDisbursement { .. } => s.create_disbursement_fits(),
        Call::UpdateDonorTrustScore { donor, amount, .. } => s.donor_update_fits(donor, amount),
        Call::UpdateBeneficiaryTrustScore { beneficiary, .. } => s.beneficiary_update_fits(
            beneficiary,
        ),
        Call::MintBadge { .. } => s.mint_fits(),
        Call::UpdateStats { change } => stats_fit(s.stats, change),
        _ => true,
    }
}

/// The ledger after `call` succeeded.
pub open spec fn effect(s: LedgerView, call: Call) -> LedgerView {
    match call {
        Call::Initialize { admin, platform_fee, .. } => s.after_initialize(admin, platform_fee),
        Call::CreateCampaign {
            id,
            beneficiary,
            title,
            description,
            goal_amount,
            duration_days,
            category,
            location,
            now,
            ..
        } => s.after_create_campaign(
            id,
            beneficiary,
            title,
            description,
            goal_amount,
            duration_days,
            category,
            location,
            now,
        ),
        Call::VerifyCampaign { campaign_id, trust_score, .. } => s.after_verify_campaign(
            campaign_id,
            trust_score,
        ),
        Call::CloseCampaign { campaign_id, .. } => s.after_close_campaign(campaign_id),
        Call::Donate {
            donation_id,
            nft_id,
            campaign_id,
            donor,
            amount,
            anonymous,
            mint_nft,
            now,
            ..
        } => s.after_donate(
            donation_id,
            nft_id,
            campaign_id,
            donor,
            amount,
            anonymous,
            mint_nft,
            now,
        ),
        Call::CreateDisbursement {
            id,
            campaign_id,
            recipient,
            amount,
            milestone,
            now,
            ..
        } => s.after_create_disbursement(id, campaign_id, recipient, amount, milestone, now),
        Call::ApproveDisbursement { id, .. } => s.after_approve_disbursement(id),
        Call::ExecuteDisbursement { id, now, .. } => s.after_execute_disbursement(id, now),
        Call::CreateTrustScore { entity, now } => s.after_create_trust_score(entity, now),
        Call::EnsureTrustScore { entity, now } => s.after_ensure_trust_score(entity, now),
        Call::UpdateDonorTrustScore { donor, amount, now } => s.after_update_donor(
            donor,
            amount,
            now,
        ),
        Call::UpdateBeneficiaryTrustScore { beneficiary, now } => s.after_update_beneficiary(
            beneficiary,
            now,
        ),
        Call::MintBadge { id, owner, campaign_id, amount, now } => s.after_mint(
            id,
            owner,
            campaign_id,
            amount,
            now,
        ),
        Call::UpdateStats { change } => s.after_update_stats(change),
    }
}

/// The ledger after `call`: changed where the call succeeds, as it was where
/// the call is refused.
pub open spec fn apply(s: LedgerView, call: Call) -> LedgerView {
    if refusal(s, call) is None {
        effect(s, call)
    } else {
        s
    }
}

/// The ledger after `calls`, made one after the other.
pub open spec fn run(s: LedgerView, calls: Seq<Call>) -> LedgerView
    decreases calls.len(),
{
    if calls.len() == 0 {
        s
    } else {
        apply(run(s, calls.drop_last()), calls.last())
    }
}

/// Whether each of `calls` stays within the ledger's integer widths in the
/// state in which it is made.
pub open spec fn all_in_range(s: LedgerView, calls: Seq<Call>) -> bool
    decreases calls.len(),
{
    calls.len() > 0 ==> all_in_range(s, calls.drop_last()) && in_range(
        run(s, calls.drop_last()),
        calls.last(),
    )
}

/// Every score of the ledger lies in `[0, 100]`.
pub open spec fn scores_bounded(s: LedgerView) -> bool {
    &&& forall|i: int|
        0 <= i < s.trust_scores.len() ==> 0 <= (#[trigger] s.trust_scores[i]).score <= MAX_SCORE
    &&& forall|i: int|
        0 <= i < s.campaigns.len() ==> 0 <= (#[trigger] s.campaigns[i]).trust_score <= MAX_SCORE
}

/// A call keeps a well-formed ledger well-formed.
#[verifier::rlimit(40)]
pub proof fn lemma_apply_wf(s: LedgerView, call: Call)
    requires
        s.wf(),
    ensures
        apply(s, call).wf(),
{
    if refusal(s, call) is None {
        match call {
            Call::Initialize { .. } => {},
            Call::CreateCampaign {
                id,
                beneficiary,
                title,
                description,
                goal_amount,
                duration_days,
                category,
                location,
                now,
                ..
            } => {
                lemma_after_create_campaign_wf(
                    s,
                    id,
                    beneficiary,
                    title,
                    description,
                    goal_amount,
                    duration_days,
                    category,
                    location,
                    now,
                );
            },
            Call::VerifyCampaign { campaign_id, trust_score, .. } => {
                let c = s.campaign(campaign_id).unwrap();
                lemma_put_campaign_wf(
                    s,
                    verified_with(c, trust_score),
                );
            },
            Call::CloseCampaign { campaign_id, .. } => {
                let c = s.campaign(campaign_id).unwrap();
                lemma_rows_bounded(s, campaign_id, Seq::empty());
                lemma_put_campaign_wf(s, closed(c));
            },
            Call::Donate {
                donation_id,
                nft_id,
                campaign_id,
                donor,
                amount,
                anonymous,
                mint_nft,
                now,
                ..
            } => {
                lemma_after_donate_wf(
                    s,
                    donation_id,
                    nft_id,
                    campaign_id,
                    donor,
                    amount,
                    anonymous,
                    mint_nft,
                    now,
                );
            },
            Call::CreateDisbursement { id, campaign_id, recipient, amount, milestone, now, .. } => {
                lemma_put_disbursement_wf(
                    LedgerView {
                        disbursement_counter: (s.disbursement_counter + 1) as u64,
                        ..s
                    },
                    DisbursementView {
                        id,
                        campaign_id,
                        recipient,
                        amount,
                        milestone,
                        status: DisbursementStatus::Pending,
                        created_at: now,
                        executed_at: None,
                    },
                );
            },
            Call::ApproveDisbursement { id, .. } => {
                let d = s.disbursement(id).unwrap();
                lemma_put_disbursement_wf(
                    s,
                    DisbursementView { status: DisbursementStatus::Approved, ..d },
                );
            },
            Call::ExecuteDisbursement { id, now, .. } => {
                let d = s.disbursement(id).unwrap();
                lemma_put_disbursement_wf(
                    s,
                    DisbursementView {
                        status: DisbursementStatus::Executed,
                        executed_at: Some(now),
                        ..d
                    },
                );
            },
            Call::CreateTrustScore { entity, now } => {
                lemma_trust_updates_wf(s, entity, 0, now);
            },
            Call::EnsureTrustScore { entity, now } => {
                lemma_trust_updates_wf(s, entity, 0, now);
            },
            Call::UpdateDonorTrustScore { donor, amount, now } => {
                lemma_trust_updates_wf(s, donor, amount, now);
            },
            Call::UpdateBeneficiaryTrustScore { beneficiary, now } => {
                lemma_trust_updates_wf(s, beneficiary, 0, now);
            },
            Call::MintBadge { id, owner, campaign_id, amount, now } => {
                lemma_after_mint_wf(s, id, owner, campaign_id, amount, now);
            },
            Call::UpdateStats { .. } => {},
        }
    }
}

/// Creating a campaign keeps the ledger well-formed.
pub proof fn lemma_after_create_campaign_wf(
    s: LedgerView,
    id: Seq<u8>,
    beneficiary: Seq<char>,
    title: Seq<char>,
    description: Seq<char>,
    goal_amount: u64,
    duration_days: u64,
    category: Seq<char>,
    location: Seq<char>,
    now: u64,
)
    requires
        s.wf(),
    ensures
        s.after_create_campaign(
            id,
            beneficiary,
            title,
            description,
            goal_amount,
            duration_days,
            category,
            location,
            now,
        ).wf(),
{
    let campaign = new_campaign(
        id,
        beneficiary,
        title,
        description,
        goal_amount,
        duration_days,
        category,
        location,
        now,
    );
    let counted = LedgerView { campaign_counter: (s.campaign_counter + 1) as u64, ..s };
    lemma_put_campaign_wf(counted, campaign);
    let stored = LedgerView {
        campaigns: upsert(s.campaigns, campaign_key(), campaign),
        ..counted
    }.after_update_stats(StatsChange::CampaignOpened);
    lemma_trust_updates_wf(stored, beneficiary, 0, now);
}

/// Minting a badge keeps the ledger well-formed.
pub proof fn lemma_after_mint_wf(
    s: LedgerView,
    id: Seq<u8>,
    owner: Seq<char>,
    campaign_id: Seq<u8>,
    amount: u64,
    now: u64,
)
    requires
        s.wf(),
    ensures
        s.after_mint(id, owner, campaign_id, amount, now).wf(),
{
    lemma_put_nft_wf(
        LedgerView { nft_counter: (s.nft_counter + 1) as u64, ..s },
        NFTBadgeView {
            id,
            owner,
            badge_type: crate::badge::badge_name(amount),
            campaign_id: Some(campaign_id),
            minted_at: now,
            metadata_uri: crate::badge::metadata_uri(),
        },
    );
}

/// A donation to a campaign that the ledger holds keeps it well-formed.
#[verifier::rlimit(40)]
pub proof fn lemma_after_donate_wf(
    s: LedgerView,
    donation_id: Seq<u8>,
    nft_id: Seq<u8>,
    campaign_id: Seq<u8>,
    donor: Seq<char>,
    amount: u64,
    anonymous: bool,
    mint_nft: bool,
    now: u64,
)
    requires
        s.wf(),
        s.campaign(campaign_id) is Some,
    ensures
        s.after_donate(
            donation_id,
            nft_id,
            campaign_id,
            donor,
            amount,
            anonymous,
            mint_nft,
            now,
        ).wf(),
{
    let net = s.net_amount(amount);
    let campaign = s.campaign(campaign_id).unwrap();
    lemma_rows_bounded(s, campaign_id, donor);
    let counted = LedgerView { donation_counter: (s.donation_counter + 1) as u64, ..s };
    let credited = crate::campaign::credited(campaign, net);
    lemma_put_campaign_wf(counted, credited);
    let with_campaign = LedgerView {
        campaigns: upsert(s.campaigns, campaign_key(), credited),
        ..counted
    };
    let donation = DonationView {
        id: donation_id,
        campaign_id,
        donor,
        amount: net,
        timestamp: now,
        nft_minted: mint_nft,
        anonymous,
    };
    lemma_upsert(s.campaigns, campaign_key(), credited, campaign_id);
    lemma_put_donation_wf(with_campaign, donation);
    let stored = LedgerView {
        donations: upsert(s.donations, donation_key(), donation),
        ..with_campaign
    }.after_update_stats(StatsChange::DonationMade(net));
    lemma_trust_updates_wf(stored, donor, net, now);
    let recorded = stored.after_update_donor(donor, net, now);
    lemma_after_mint_wf(recorded, nft_id, donor, campaign_id, net, now);
}

/// After any sequence of calls on a well-formed ledger, the ledger is
/// well-formed, and so every score lies in `[0, 100]`.
pub proof fn lemma_run_wf(s: LedgerView, calls: Seq<Call>)
    requires
        s.wf(),
    ensures
        run(s, calls).wf(),
        scores_bounded(run(s, calls)),
    decreases calls.len(),
{
    if calls.len() > 0 {
        lemma_run_wf(s, calls.drop_last());
        lemma_apply_wf(run(s, calls.drop_last()), calls.last());
    }
}

/// After any sequence of calls on a new contract every trust score, of a
/// principal or of a campaign, lies in `[0, 100]`.
pub proof fn lemma_scores_always_bounded(calls: Seq<Call>)
    ensures
        scores_bounded(run(LedgerView::empty(), calls)),
{
    lemma_run_wf(LedgerView::empty(), calls);
}

/// The status of the disbursement with identifier `id`, if the ledger holds
/// one.
pub open spec fn status_of(s: LedgerView, id: Seq<u8>) -> Option<DisbursementStatus> {
    match s.disbursement(id) {
        Some(d) => Some(d.status),
        None => None,
    }
}

/// A call leaves a disbursement executed that was not executed before only
/// if it is the execution of that very disbursement, and the disbursement was
/// approved when the call was made.
pub proof fn lemma_executed_only_from_approved(s: LedgerView, call: Call, id: Seq<u8>)
    requires
        status_of(apply(s, call), id) == Some(DisbursementStatus::Executed),
        status_of(s, id) != Some(DisbursementStatus::Executed),
    ensures
        status_of(s, id) == Some(DisbursementStatus::Approved),
        call matches Call::ExecuteDisbursement { id: executed, .. } && executed == id,
{
    if refusal(s, call) is None {
        match call {
            Call::CreateDisbursement {
                id: created,
                campaign_id,
                recipient,
                amount,
                milestone,
                now,
                ..
            } => {
                let row = DisbursementView {
                    id: created,
                    campaign_id,
                    recipient,
                    amount,
                    milestone,
                    status: DisbursementStatus::Pending,
                    created_at: now,
                    executed_at: None,
                };
                lemma_upsert(s.disbursements, disbursement_key(), row, id);
            },
            Call::ApproveDisbursement { id: approved, .. } => {
                let d = s.disbursement(approved).unwrap();
                lemma_lookup(s.disbursements, disbursement_key(), approved);
                let row = DisbursementView { status: DisbursementStatus::Approved, ..d };
                lemma_upsert(s.disbursements, disbursement_key(), row, id);
            },
            Call::ExecuteDisbursement { id: executed, now, .. } => {
                let d = s.disbursement(executed).unwrap();
                lemma_lookup(s.disbursements, disbursement_key(), executed);
                let row = DisbursementView {
                    status: DisbursementStatus::Executed,
                    executed_at: Some(now),
                    ..d
                };
                lemma_upsert(s.disbursements, disbursement_key(), row, id);
            },
            _ => {},
        }
    }
}

/// Executing a disbursement that is not approved is refused.
pub proof fn lemma_execute_before_approve_refused(
    s: LedgerView,
    caller: Seq<char>,
    id: Seq<u8>,
    now: u64,
)
    requires
        s.disbursement(id) matches Some(d) && caller == d.recipient && d.status
            != DisbursementStatus::Approved,
    ensures
        refusal(s, Call::ExecuteDisbursement { caller, id, now }) == Some(SaviaError::NotApproved),
        apply(s, Call::ExecuteDisbursement { caller, id, now }) == s,
{
}

/// A disbursement that is executed after a sequence of calls, and was not
/// executed before it, was approved at some point on the way.
pub proof fn lemma_executed_was_approved(s: LedgerView, calls: Seq<Call>, id: Seq<u8>)
    requires
        status_of(s, id) != Some(DisbursementStatus::Executed),
        status_of(run(s, calls), id) == Some(DisbursementStatus::Executed),
    ensures
        exists|k: int|
            0 <= k < calls.len() && status_of(#[trigger] run(s, calls.subrange(0, k)), id) == Some(
                DisbursementStatus::Approved,
            ),
    decreases calls.len(),
{
    if calls.len() > 0 {
        let before = calls.drop_last();
        if status_of(run(s, before), id) == Some(DisbursementStatus::Executed) {
            lemma_executed_was_approved(s, before, id);
            let k = choose|k: int|
                0 <= k < before.len() && status_of(#[trigger] run(s, before.subrange(0, k)), id)
                    == Some(DisbursementStatus::Approved);
            assert(before.subrange(0, k) =~= calls.subrange(0, k));
        } else {
            lemma_executed_only_from_approved(run(s, before), calls.last(), id);
            assert(calls.subrange(0, calls.len() - 1) =~= before);
        }
    }
}

/// On a contract that started new, a disbursement reaches `Executed` only by
/// passing through `Approved`.
pub proof fn lemma_executed_passed_through_approved(calls: Seq<Call>, id: Seq<u8>)
    requires
        status_of(run(LedgerView::empty(), calls), id) == Some(DisbursementStatus::Executed),
    ensures
        exists|k: int|
            0 <= k < calls.len() && status_of(
                #[trigger] run(LedgerView::empty(), calls.subrange(0, k)),
                id,
            ) == Some(DisbursementStatus::Approved),
{
    lemma_executed_was_approved(LedgerView::empty(), calls, id);
}

} // verus!
