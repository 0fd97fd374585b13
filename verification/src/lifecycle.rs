//! How records change over their life: what a call can and cannot do to a
//! campaign, a donation or a disbursement that the ledger already holds.

use vstd::prelude::*;
use crate::campaign::credited;
use crate::fees::lemma_fee_bounds;
use crate::funding::overwrites_no_funds;
use crate::history::{apply, in_range, refusal, run, status_of, Call};
use crate::records::{DisbursementStatus, DisbursementView, DonationView, NFTBadgeView};
use crate::state::{
    campaign_key,
    closed,
    disbursement_key,
    donation_key,
    new_campaign,
    nft_key,
    settled,
    trust_key,
    verified_with,
    LedgerView,
};
use crate::trust::{min_int, MAX_SCORE};
use crate::table::{lemma_lookup, lemma_upsert, lemma_upsert_rows};

verus! {

/// A campaign that was just created starts at the time of the call, ends
/// the given number of days later, and is active, unverified and without
/// funds.
pub proof fn lemma_created_campaign(
    s: LedgerView,
    id: Seq<u8>,
    caller: Seq<char>,
    beneficiary: Seq<char>,
    title: Seq<char>,
    description: Seq<char>,
    goal_amount: u64,
    duration_days: u64,
    category: Seq<char>,
    location: Seq<char>,
    now: u64,
)
    requires
        s.check_create_campaign(caller, beneficiary, title, description, goal_amount, duration_days)
            is None,
        s.create_campaign_fits(beneficiary, duration_days, now),
    ensures
        s.after_create_campaign(
            id,
            beneficiary,
            title,
            description,
            goal_amount,
            duration_days,
            category,
            location,
            now,
        ).campaign(id) matches Some(c) && c.start_time == now && c.end_time == c.start_time
            + duration_days * 86400 && c.current_amount == 0 && c.active && !c.verified
            && c.trust_score == 0 && c.goal_amount == goal_amount && c.beneficiary
            == beneficiary,
{
    let campaign = new_campaign(
        id,
        beneficiary,
        title,
        description,
        goal_amount,
        duration_days,
        category,
        location,
        now,
    );
    lemma_upsert(s.campaigns, campaign_key(), campaign, id);
}

/// What a campaign holds never goes down, as long as no call creates a
/// campaign over one that holds funds.
#[verifier::rlimit(40)]
pub proof fn lemma_funds_never_decrease(s: LedgerView, call: Call, id: Seq<u8>)
    requires
        s.wf(),
        in_range(s, call),
        overwrites_no_funds(s, call),
        s.campaign(id) is Some,
    ensures
        apply(s, call).campaign(id) matches Some(after) && after.current_amount >= s.campaign(
            id,
        ).unwrap().current_amount,
{
    if refusal(s, call) is None {
        match call {
            Call::CreateCampaign {
                id: created,
                beneficiary,
                title,
                description,
                goal_amount,
                duration_days,
                category,
                location,
                now,
                ..
            } => {
                let campaign = new_campaign(
                    created,
                    beneficiary,
                    title,
                    description,
                    goal_amount,
                    duration_days,
                    category,
                    location,
                    now,
                );
                lemma_upsert(s.campaigns, campaign_key(), campaign, id);
            },
            Call::VerifyCampaign { campaign_id, trust_score, .. } => {
                let c = s.campaign(campaign_id).unwrap();
                lemma_lookup(s.campaigns, campaign_key(), campaign_id);
                lemma_upsert(
                    s.campaigns,
                    campaign_key(),
                    verified_with(c, trust_score),
                    id,
                );
            },
            Call::CloseCampaign { campaign_id, .. } => {
                let c = s.campaign(campaign_id).unwrap();
                lemma_lookup(s.campaigns, campaign_key(), campaign_id);
                lemma_upsert(s.campaigns, campaign_key(), closed(c), id);
            },
            Call::Donate { campaign_id, amount, .. } => {
                let c = s.campaign(campaign_id).unwrap();
                lemma_fee_bounds(amount, s.fee_rate());
                lemma_lookup(s.campaigns, campaign_key(), campaign_id);
                lemma_upsert(s.campaigns, campaign_key(), credited(c, s.net_amount(amount)), id);
            },
            _ => {},
        }
    }
}

/// A donation, once recorded, stays as it is: no call changes it, unless it
/// records a donation under the same identifier.
pub proof fn lemma_donation_stays(s: LedgerView, call: Call, id: Seq<u8>)
    requires
        s.donation(id) is Some,
        !(call matches Call::Donate { donation_id, .. } && donation_id == id),
    ensures
        apply(s, call).donation(id) == s.donation(id),
{
    if refusal(s, call) is None {
        match call {
            Call::Donate {
                donation_id,
                campaign_id,
                donor,
                amount,
                anonymous,
                mint_nft,
                now,
                ..
            } => {
                let donation = DonationView {
                    id: donation_id,
                    campaign_id,
                    donor,
                    amount: s.net_amount(amount),
                    timestamp: now,
                    nft_minted: mint_nft,
                    anonymous,
                };
                lemma_upsert(s.donations, donation_key(), donation, id);
            },
            _ => {},
        }
    }
}

/// A badge, once minted, stays as it is: no call changes it, unless it mints
/// a badge under the same identifier.
pub proof fn lemma_badge_stays(s: LedgerView, call: Call, id: Seq<u8>)
    requires
        s.nft(id) is Some,
        !(call matches Call::MintBadge { id: minted, .. } && minted == id),
        !(call matches Call::Donate { nft_id, mint_nft, .. } && mint_nft && nft_id == id),
    ensures
        apply(s, call).nft(id) == s.nft(id),
{
    if refusal(s, call) is None {
        match call {
            Call::MintBadge { id: minted, owner, campaign_id, amount, now } => {
                lemma_upsert(
                    s.nfts,
                    nft_key(),
                    NFTBadgeView {
                        id: minted,
                        owner,
                        badge_type: crate::badge::badge_name(amount),
                        campaign_id: Some(campaign_id),
                        minted_at: now,
                        metadata_uri: crate::badge::metadata_uri(),
                    },
                    id,
                );
            },
            Call::Donate { nft_id, campaign_id, donor, amount, mint_nft, now, .. } => {
                if mint_nft {
                    lemma_upsert(
                        s.nfts,
                        nft_key(),
                        NFTBadgeView {
                            id: nft_id,
                            owner: donor,
                            badge_type: crate::badge::badge_name(s.net_amount(amount)),
                            campaign_id: Some(campaign_id),
                            minted_at: now,
                            metadata_uri: crate::badge::metadata_uri(),
                        },
                        id,
                    );
                }
            },
            _ => {},
        }
    }
}

/// A closed campaign stays closed: no call makes it active again, unless it
/// creates a campaign under the same identifier.
#[verifier::rlimit(40)]
pub proof fn lemma_closed_stays_closed(s: LedgerView, call: Call, id: Seq<u8>)
    requires
        s.campaign(id) matches Some(c) && !c.active,
        !(call matches Call::CreateCampaign { id: created, .. } && created == id),
    ensures
        apply(s, call).campaign(id) matches Some(after) && !after.active,
{
    if refusal(s, call) is None {
        match call {
            Call::CreateCampaign {
                id: created,
                beneficiary,
                title,
                description,
                goal_amount,
                duration_days,
                category,
                location,
                now,
                ..
            } => {
                let campaign = new_campaign(
                    created,
                    beneficiary,
                    title,
                    description,
                    goal_amount,
                    duration_days,
                    category,
                    location,
                    now,
                );
                lemma_upsert(s.campaigns, campaign_key(), campaign, id);
            },
            Call::VerifyCampaign { campaign_id, trust_score, .. } => {
                let c = s.campaign(campaign_id).unwrap();
                lemma_lookup(s.campaigns, campaign_key(), campaign_id);
                lemma_upsert(
                    s.campaigns,
                    campaign_key(),
                    verified_with(c, trust_score),
                    id,
                );
            },
            Call::CloseCampaign { campaign_id, .. } => {
                let c = s.campaign(campaign_id).unwrap();
                lemma_lookup(s.campaigns, campaign_key(), campaign_id);
                lemma_upsert(s.campaigns, campaign_key(), closed(c), id);
            },
            Call::Donate { campaign_id, amount, .. } => {
                let c = s.campaign(campaign_id).unwrap();
                lemma_lookup(s.campaigns, campaign_key(), campaign_id);
                lemma_upsert(s.campaigns, campaign_key(), credited(c, s.net_amount(amount)), id);
            },
            _ => {},
        }
    }
}

/// A settled disbursement stays as it is: once executed or rejected, no call
/// changes its status, the time of its execution or anything else of it,
/// unless the call requests a disbursement under the same identifier. So no
/// disbursement is executed twice.
pub proof fn lemma_settled_stays(s: LedgerView, call: Call, id: Seq<u8>)
    requires
        s.disbursement(id) matches Some(d) && settled(d.status),
        !(call matches Call::CreateDisbursement { id: created, .. } && created == id),
    ensures
        apply(s, call).disbursement(id) == s.disbursement(id),
{
    if refusal(s, call) is None {
        match call {
            Call::CreateDisbursement {
                id: created,
                campaign_id,
                recipient,
                amount,
                milestone,
                now,
                ..
            } => {
                lemma_upsert(
                    s.disbursements,
                    disbursement_key(),
                    DisbursementView {
                        id: created,
                        campaign_id,
                        recipient,
                        amount,
                        milestone,
                        status: DisbursementStatus::Pending,
                        created_at: now,
                        executed_at: None,
                    },
                    id,
                );
            },
            Call::ApproveDisbursement { id: approved, .. } => {
                let d = s.disbursement(approved).unwrap();
                lemma_lookup(s.disbursements, disbursement_key(), approved);
                lemma_upsert(
                    s.disbursements,
                    disbursement_key(),
                    DisbursementView { status: DisbursementStatus::Approved, ..d },
                    id,
                );
            },
            Call::ExecuteDisbursement { id: executed, now, .. } => {
                let d = s.disbursement(executed).unwrap();
                lemma_lookup(s.disbursements, disbursement_key(), executed);
                lemma_upsert(
                    s.disbursements,
                    disbursement_key(),
                    DisbursementView {
                        status: DisbursementStatus::Executed,
                        executed_at: Some(now),
                        ..d
                    },
                    id,
                );
            },
            _ => {},
        }
    }
}

/// Whether none of `calls` requests a disbursement under identifier `id`.
pub open spec fn never_requests(calls: Seq<Call>, id: Seq<u8>) -> bool {
    forall|k: int|
        0 <= k < calls.len() ==> !(#[trigger] calls[k] matches Call::CreateDisbursement {
            id: created,
            ..
        } && created == id)
}

/// A settled disbursement is the same after any sequence of calls of which
/// none requests a disbursement under its identifier: an executed
/// disbursement stays executed, at the time at which it was executed.
pub proof fn lemma_settled_for_good(s: LedgerView, calls: Seq<Call>, id: Seq<u8>)
    requires
        s.disbursement(id) matches Some(d) && settled(d.status),
        never_requests(calls, id),
    ensures
        run(s, calls).disbursement(id) == s.disbursement(id),
    decreases calls.len(),
{
    if calls.len() > 0 {
        let before = calls.drop_last();
        assert forall|k: int| 0 <= k < before.len() implies !(#[trigger] before[k] matches Call::CreateDisbursement {
            id: created,
            ..
        } && created == id) by {
            assert(before[k] == calls[k]);
        }
        lemma_settled_for_good(s, before, id);
        assert(calls.last() == calls[calls.len() - 1]);
        lemma_settled_stays(run(s, before), calls.last(), id);
    }
}

/// Approving a settled disbursement is refused and changes nothing.
pub proof fn lemma_approve_settled_refused(s: LedgerView, caller: Seq<char>, id: Seq<u8>)
    requires
        s.disbursement(id) matches Some(d) && settled(d.status),
    ensures
        refusal(s, Call::ApproveDisbursement { caller, id }) is Some,
        s.admin == Some(caller) ==> refusal(s, Call::ApproveDisbursement { caller, id }) == Some(
            crate::errors::SaviaError::NotApproved,
        ),
        apply(s, Call::ApproveDisbursement { caller, id }) == s,
{
}

/// Approving an approved disbursement changes nothing.
pub proof fn lemma_approve_again_changes_nothing(s: LedgerView, caller: Seq<char>, id: Seq<u8>)
    requires
        s.disbursement(id) matches Some(d) && d.status == DisbursementStatus::Approved,
    ensures
        apply(s, Call::ApproveDisbursement { caller, id }) == s,
{
    let call = Call::ApproveDisbursement { caller, id };
    if refusal(s, call) is None {
        let d = s.disbursement(id).unwrap();
        lemma_lookup(s.disbursements, disbursement_key(), id);
        let at = crate::table::lookup(s.disbursements, disbursement_key(), id).unwrap();
        assert(s.disbursements.update(at, d) =~= s.disbursements);
    }
}

/// The first donation on a new contract, for all principals, texts and
/// identifiers: after the contract was initialized with a fee of two percent
/// and a campaign was created, a donation of 1000 with a badge records 980,
/// credits 980 to the campaign and to the total raised, and mints exactly one
/// badge, of the tier of the net amount, owned by the donor.
#[verifier::rlimit(40)]
pub proof fn lemma_first_donation_with_badge(
    admin: Seq<char>,
    beneficiary: Seq<char>,
    donor: Seq<char>,
    campaign_id: Seq<u8>,
    donation_id: Seq<u8>,
    nft_id: Seq<u8>,
    title: Seq<char>,
    description: Seq<char>,
    category: Seq<char>,
    location: Seq<char>,
    goal_amount: u64,
    duration_days: u64,
    created: u64,
    donated: u64,
    anonymous: bool,
)
    requires
        title.len() > 0,
        description.len() > 0,
        goal_amount > 0,
        1 <= duration_days <= 365,
        created + duration_days * 86400 <= u64::MAX,
        donated <= created + duration_days * 86400,
    ensures
        ({
            let after = run(
                LedgerView::empty(),
                seq![
                    Call::Initialize { caller: admin, admin, platform_fee: 200 },
                    Call::CreateCampaign {
                        id: campaign_id,
                        caller: beneficiary,
                        beneficiary,
                        title,
                        description,
                        goal_amount,
                        duration_days,
                        category,
                        location,
                        now: created,
                    },
                    Call::Donate {
                        donation_id,
                        nft_id,
                        caller: donor,
                        campaign_id,
                        donor,
                        amount: 1000,
                        anonymous,
                        mint_nft: true,
                        now: donated,
                    },
                ],
            );
            &&& after.donation(donation_id) matches Some(d) && d.amount == 980 && d.campaign_id
                == campaign_id && d.donor == donor && d.nft_minted
            &&& after.campaign(campaign_id) matches Some(c) && c.current_amount == 980
            &&& after.stats.total_raised == 980
            &&& after.stats.total_donations == 1
            &&& after.stats.total_nfts == 1
            &&& after.nfts.len() == 1
            &&& after.nft(nft_id) matches Some(n) && n.owner == donor && n.campaign_id == Some(
                campaign_id,
            ) && n.badge_type == "Bronze Supporter"@
        }),
{
    let first = Call::Initialize { caller: admin, admin, platform_fee: 200 };
    let second = Call::CreateCampaign {
        id: campaign_id,
        caller: beneficiary,
        beneficiary,
        title,
        description,
        goal_amount,
        duration_days,
        category,
        location,
        now: created,
    };
    let third = Call::Donate {
        donation_id,
        nft_id,
        caller: donor,
        campaign_id,
        donor,
        amount: 1000,
        anonymous,
        mint_nft: true,
        now: donated,
    };
    let calls = seq![first, second, third];
    let s0 = LedgerView::empty();
    let s1 = apply(s0, first);
    let s2 = apply(s1, second);
    let s3 = apply(s2, third);
    assert(run(s0, calls) == s3) by {
        let two = calls.drop_last();
        let one = two.drop_last();
        assert(one.drop_last() =~= Seq::<Call>::empty());
        assert(run(s0, one.drop_last()) == s0);
        assert(one.last() == first);
        assert(run(s0, one) == s1);
        assert(two.last() == second);
        assert(run(s0, two) == s2);
        assert(calls.last() == third);
    }
    assert(refusal(s0, first) is None);
    assert(s1.fee_rate() == 200);
    assert(refusal(s1, second) is None);
    let campaign = new_campaign(
        campaign_id,
        beneficiary,
        title,
        description,
        goal_amount,
        duration_days,
        category,
        location,
        created,
    );
    lemma_upsert(s1.campaigns, campaign_key(), campaign, campaign_id);
    assert(s2.campaign(campaign_id) == Some(campaign));
    assert(s2.fee_rate() == 200);
    assert(s2.net_amount(1000) == 980) by {
        lemma_fee_bounds(1000, 200);
    }
    assert(refusal(s2, third) is None);
    let donation = DonationView {
        id: donation_id,
        campaign_id,
        donor,
        amount: 980,
        timestamp: donated,
        nft_minted: true,
        anonymous,
    };
    lemma_upsert(s2.donations, donation_key(), donation, donation_id);
    lemma_upsert(s2.campaigns, campaign_key(), credited(campaign, 980), campaign_id);
    let badge = NFTBadgeView {
        id: nft_id,
        owner: donor,
        badge_type: crate::badge::badge_name(980),
        campaign_id: Some(campaign_id),
        minted_at: donated,
        metadata_uri: crate::badge::metadata_uri(),
    };
    lemma_upsert(s2.nfts, nft_key(), badge, nft_id);
    assert(s3.nfts == crate::table::upsert(s2.nfts, nft_key(), badge));
}

/// Counting a campaign for a beneficiary adds one to its campaigns, raises
/// its score by the number of its campaigns, at most 20, up to the highest
/// score, and sets the time of the update. Its other counts stay, and so does
/// the trust score of every other principal.
pub proof fn lemma_beneficiary_counted(
    s: LedgerView,
    beneficiary: Seq<char>,
    other: Seq<char>,
    now: u64,
)
    requires
        s.wf(),
        s.beneficiary_update_fits(beneficiary),
    ensures
        ({
            let before = s.score_or_fresh(beneficiary, now);
            let after = s.after_update_beneficiary(beneficiary, now);
            &&& after.trust_score(beneficiary) matches Some(t)
            &&& t.entity == beneficiary
            &&& t.campaigns_created == before.campaigns_created + 1
            &&& t.score == min_int(
                before.score + min_int(t.campaigns_created as int, 20),
                MAX_SCORE as int,
            )
            &&& before.score <= t.score <= MAX_SCORE
            &&& t.donation_count == before.donation_count
            &&& t.total_donated == before.total_donated
            &&& t.verification_level == before.verification_level
            &&& t.last_updated == now
            &&& other != beneficiary ==> after.trust_score(other) == s.trust_score(other)
        }),
{
    crate::state::lemma_rows_bounded(s, Seq::empty(), beneficiary);
    let counted = crate::trust::after_campaign(s.score_or_fresh(beneficiary, now), now);
    lemma_upsert(s.trust_scores, trust_key(), counted, other);
}

/// Counting a donation for a donor adds one to its donations and the amount
/// to its total, recomputes its score from the two, and sets the time of the
/// update. Its campaigns stay, and so does the trust score of every other
/// principal.
pub proof fn lemma_donor_counted(
    s: LedgerView,
    donor: Seq<char>,
    other: Seq<char>,
    amount: u64,
    now: u64,
)
    requires
        s.wf(),
        s.donor_update_fits(donor, amount),
    ensures
        ({
            let before = s.score_or_fresh(donor, now);
            let after = s.after_update_donor(donor, amount, now);
            &&& after.trust_score(donor) matches Some(t)
            &&& t.entity == donor
            &&& t.donation_count == before.donation_count + 1
            &&& t.total_donated == before.total_donated + amount
            &&& t.score == crate::trust::donor_score(t.donation_count, t.total_donated)
            &&& crate::trust::BASELINE_SCORE <= t.score <= MAX_SCORE
            &&& t.campaigns_created == before.campaigns_created
            &&& t.verification_level == before.verification_level
            &&& t.last_updated == now
            &&& other != donor ==> after.trust_score(other) == s.trust_score(other)
        }),
{
    crate::state::lemma_rows_bounded(s, Seq::empty(), donor);
    let counted = crate::trust::after_donation(s.score_or_fresh(donor, now), amount, now);
    lemma_upsert(s.trust_scores, trust_key(), counted, other);
}

/// No disbursement of the ledger is rejected.
pub open spec fn none_rejected(s: LedgerView) -> bool {
    forall|i: int|
        0 <= i < s.disbursements.len() ==> (#[trigger] s.disbursements[i]).status
            != DisbursementStatus::Rejected
}

/// No call rejects a disbursement.
pub proof fn lemma_apply_rejects_nothing(s: LedgerView, call: Call)
    requires
        none_rejected(s),
    ensures
        none_rejected(apply(s, call)),
{
    if refusal(s, call) is None {
        match call {
            Call::CreateDisbursement {
                id,
                campaign_id,
                recipient,
                amount,
                milestone,
                now,
                ..
            } => {
                lemma_upsert_rows(
                    s.disbursements,
                    disbursement_key(),
                    DisbursementView {
                        id,
                        campaign_id,
                        recipient,
                        amount,
                        milestone,
                        status: DisbursementStatus::Pending,
                        created_at: now,
                        executed_at: None,
                    },
                );
            },
            Call::ApproveDisbursement { id, .. } => {
                let d = s.disbursement(id).unwrap();
                lemma_upsert_rows(
                    s.disbursements,
                    disbursement_key(),
                    DisbursementView { status: DisbursementStatus::Approved, ..d },
                );
            },
            Call::ExecuteDisbursement { id, now, .. } => {
                let d = s.disbursement(id).unwrap();
                lemma_upsert_rows(
                    s.disbursements,
                    disbursement_key(),
                    DisbursementView {
                        status: DisbursementStatus::Executed,
                        executed_at: Some(now),
                        ..d
                    },
                );
            },
            _ => {},
        }
    }
}

/// On a contract that started new, no disbursement is ever rejected: the
/// status exists, and no operation leads to it.
pub proof fn lemma_never_rejected(calls: Seq<Call>, id: Seq<u8>)
    ensures
        none_rejected(run(LedgerView::empty(), calls)),
        status_of(run(LedgerView::empty(), calls), id) != Some(DisbursementStatus::Rejected),
    decreases calls.len(),
{
    if calls.len() > 0 {
        lemma_never_rejected(calls.drop_last(), id);
        lemma_apply_rejects_nothing(run(LedgerView::empty(), calls.drop_last()), calls.last());
    }
    lemma_lookup(run(LedgerView::empty(), calls).disbursements, disbursement_key(), id);
}

/// An approved disbursement can be executed by its recipient, and is then
/// executed at the time of the call.
pub proof fn lemma_approved_can_be_executed(s: LedgerView, id: Seq<u8>, now: u64)
    requires
        s.disbursement(id) matches Some(d) && d.status == DisbursementStatus::Approved,
    ensures
        ({
            let d = s.disbursement(id).unwrap();
            let call = Call::ExecuteDisbursement { caller: d.recipient, id, now };
            &&& refusal(s, call) is None
            &&& apply(s, call).disbursement(id) matches Some(after)
            &&& after.status == DisbursementStatus::Executed
            &&& after.executed_at == Some(now)
            &&& after.amount == d.amount
            &&& after.recipient == d.recipient
        }),
{
    let d = s.disbursement(id).unwrap();
    lemma_lookup(s.disbursements, disbursement_key(), id);
    lemma_upsert(
        s.disbursements,
        disbursement_key(),
        DisbursementView { status: DisbursementStatus::Executed, executed_at: Some(now), ..d },
        id,
    );
}

} // verus!
