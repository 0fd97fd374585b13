//! What a campaign holds is what was donated to it: the funds of every
//! campaign equal the sum of the donations that name it.

use vstd::prelude::*;
use crate::fees::{fee_of, lemma_fee_bounds};
use crate::history::{all_in_range, apply, in_range, refusal, run, Call};
use crate::records::{CampaignView, DonationView};
use crate::state::{
    campaign_key,
    closed,
    donation_key,
    new_campaign,
    verified_with,
    LedgerView,
};
use crate::table::{
    lemma_lookup,
    lemma_upsert,
    lookup,
    row_of,
    upsert,
};

verus! {

/// What donation `d` adds to the funds of `campaign`.
pub open spec fn contribution(d: DonationView, campaign: Seq<u8>) -> int {
    if d.campaign_id == campaign {
        d.amount as int
    } else {
        0
    }
}

/// The sum of the amounts of the donations that name `campaign`.
pub open spec fn donated_to(donations: Seq<DonationView>, campaign: Seq<u8>) -> int
    decreases donations.len(),
{
    if donations.len() == 0 {
        0
    } else {
        donated_to(donations.drop_last(), campaign) + contribution(donations.last(), campaign)
    }
}

/// Every campaign holds the sum of the donations that name it.
pub open spec fn funds_consistent(s: LedgerView) -> bool {
    forall|i: int|
        0 <= i < s.campaigns.len() ==> (#[trigger] s.campaigns[i]).current_amount == donated_to(
            s.donations,
            s.campaigns[i].id,
        )
}

/// Whether `call` leaves in place every record that counts towards the
/// funds: it creates no campaign over one that holds funds, and records no
/// donation over one with an amount. Where the identifier is derived by
/// hashing, a call fails this only where two hashes collide.
pub open spec fn overwrites_no_funds(s: LedgerView, call: Call) -> bool {
    match call {
        Call::CreateCampaign { id, .. } => s.campaign(id) matches Some(c) ==> c.current_amount
            == 0,
        Call::Donate { donation_id, .. } => s.donation(donation_id) matches Some(d) ==> d.amount
            == 0,
        _ => true,
    }
}

/// Whether each of `calls` overwrites no funds in the state in which it is
/// made.
pub open spec fn none_overwrites_funds(s: LedgerView, calls: Seq<Call>) -> bool
    decreases calls.len(),
{
    calls.len() > 0 ==> none_overwrites_funds(s, calls.drop_last()) && overwrites_no_funds(
        run(s, calls.drop_last()),
        calls.last(),
    )
}

/// One more donation adds its contribution.
pub proof fn lemma_donated_push(donations: Seq<DonationView>, d: DonationView, campaign: Seq<u8>)
    ensures
        donated_to(donations.push(d), campaign) == donated_to(donations, campaign) + contribution(
            d,
            campaign,
        ),
{
    assert(donations.push(d).drop_last() =~= donations);
}

/// Replacing a donation replaces its contribution.
pub proof fn lemma_donated_update(
    donations: Seq<DonationView>,
    i: int,
    d: DonationView,
    campaign: Seq<u8>,
)
    requires
        0 <= i < donations.len(),
    ensures
        donated_to(donations.update(i, d), campaign) == donated_to(donations, campaign)
            - contribution(donations[i], campaign) + contribution(d, campaign),
    decreases donations.len(),
{
    let updated = donations.update(i, d);
    if i == donations.len() - 1 {
        assert(updated.drop_last() =~= donations.drop_last());
    } else {
        lemma_donated_update(donations.drop_last(), i, d, campaign);
        assert(updated.drop_last() =~= donations.drop_last().update(i, d));
    }
}

/// A campaign that no donation names has been donated nothing.
pub proof fn lemma_donated_none(donations: Seq<DonationView>, campaign: Seq<u8>)
    requires
        forall|j: int| 0 <= j < donations.len() ==> (#[trigger] donations[j]).campaign_id != campaign,
    ensures
        donated_to(donations, campaign) == 0,
    decreases donations.len(),
{
    if donations.len() > 0 {
        assert forall|j: int| 0 <= j < donations.drop_last().len() implies (
        #[trigger] donations.drop_last()[j]).campaign_id != campaign by {
            assert(donations.drop_last()[j] == donations[j]);
        }
        lemma_donated_none(donations.drop_last(), campaign);
    }
}

/// Writing a donation over none, or over one without an amount, adds its
/// contribution.
pub proof fn lemma_donated_put(donations: Seq<DonationView>, d: DonationView, campaign: Seq<u8>)
    requires
        row_of(donations, donation_key(), d.id) matches Some(before) ==> before.amount == 0,
    ensures
        donated_to(upsert(donations, donation_key(), d), campaign) == donated_to(
            donations,
            campaign,
        ) + contribution(d, campaign),
{
    lemma_lookup(donations, donation_key(), d.id);
    match lookup(donations, donation_key(), d.id) {
        Some(i) => {
            lemma_donated_update(donations, i, d, campaign);
        },
        None => {
            lemma_donated_push(donations, d, campaign);
        },
    }
}

/// Writing a campaign under the identifier, and with the funds, of the
/// campaign that the ledger holds changes neither what any campaign holds
/// nor which campaigns there are.
pub proof fn lemma_rewrite_campaign_keeps_funds(s: LedgerView, c: CampaignView)
    requires
        s.wf(),
        funds_consistent(s),
        s.campaign(c.id) matches Some(before) && before.current_amount == c.current_amount,
    ensures
        funds_consistent(LedgerView { campaigns: upsert(s.campaigns, campaign_key(), c), ..s }),
{
    lemma_lookup(s.campaigns, campaign_key(), c.id);
}

/// A call that overwrites no funds keeps the funds consistent.
#[verifier::rlimit(40)]
pub proof fn lemma_apply_keeps_funds(s: LedgerView, call: Call)
    requires
        s.wf(),
        funds_consistent(s),
        in_range(s, call),
        overwrites_no_funds(s, call),
    ensures
        funds_consistent(apply(s, call)),
{
    if refusal(s, call) is None {
        match call {
            Call::CreateCampaign {
                id,
                beneficiary,
                title,
                description,
                goal_amount,
                duration_days,
                category,
                location,
                now,
                ..
            } => {
                let campaign = new_campaign(
                    id,
                    beneficiary,
                    title,
                    description,
                    goal_amount,
                    duration_days,
                    category,
                    location,
                    now,
                );
                let after = apply(s, call);
                assert(after.campaigns == upsert(s.campaigns, campaign_key(), campaign));
                assert(after.donations == s.donations);
                lemma_lookup(s.campaigns, campaign_key(), id);
                match lookup(s.campaigns, campaign_key(), id) {
                    Some(p) => {
                        lemma_rewrite_campaign_keeps_funds(s, campaign);
                    },
                    None => {
                        assert forall|j: int| 0 <= j < s.donations.len() implies (
                        #[trigger] s.donations[j]).campaign_id != id by {
                            assert(s.campaign(s.donations[j].campaign_id) is Some);
                        }
                        lemma_donated_none(s.donations, id);
                    },
                }
            },
            Call::VerifyCampaign { campaign_id, trust_score, .. } => {
                let c = s.campaign(campaign_id).unwrap();
                lemma_lookup(s.campaigns, campaign_key(), campaign_id);
                lemma_rewrite_campaign_keeps_funds(
                    s,
                    verified_with(c, trust_score),
                );
            },
            Call::CloseCampaign { campaign_id, .. } => {
                let c = s.campaign(campaign_id).unwrap();
                lemma_lookup(s.campaigns, campaign_key(), campaign_id);
                lemma_rewrite_campaign_keeps_funds(s, closed(c));
            },
            Call::Donate {
                donation_id,
                nft_id,
                campaign_id,
                donor,
                amount,
                anonymous,
                mint_nft,
                now,
                ..
            } => {
                lemma_donate_keeps_funds(
                    s,
                    donation_id,
                    nft_id,
                    campaign_id,
                    donor,
                    amount,
                    anonymous,
                    mint_nft,
                    now,
                );
            },
            _ => {},
        }
    }
}

/// A donation recorded over none, or over one without an amount, keeps the
/// funds consistent: the campaign is credited what the donation records.
#[verifier::rlimit(40)]
pub proof fn lemma_donate_keeps_funds(
    s: LedgerView,
    donation_id: Seq<u8>,
    nft_id: Seq<u8>,
    campaign_id: Seq<u8>,
    donor: Seq<char>,
    amount: u64,
    anonymous: bool,
    mint_nft: bool,
    now: u64,
)
    requires
        s.wf(),
        funds_consistent(s),
        s.campaign(campaign_id) is Some,
        s.donate_fits(campaign_id, donor, amount, mint_nft),
        s.donation(donation_id) matches Some(d) ==> d.amount == 0,
    ensures
        funds_consistent(
            s.after_donate(
                donation_id,
                nft_id,
                campaign_id,
                donor,
                amount,
                anonymous,
                mint_nft,
                now,
            ),
        ),
{
    let after = s.after_donate(
        donation_id,
        nft_id,
        campaign_id,
        donor,
        amount,
        anonymous,
        mint_nft,
        now,
    );
    let net = s.net_amount(amount);
    lemma_fee_bounds(amount, s.fee_rate());
    let campaign = s.campaign(campaign_id).unwrap();
    let credited = crate::campaign::credited(campaign, net);
    let donation = DonationView {
        id: donation_id,
        campaign_id,
        donor,
        amount: net,
        timestamp: now,
        nft_minted: mint_nft,
        anonymous,
    };
    assert(after.campaigns == upsert(s.campaigns, campaign_key(), credited));
    assert(after.donations == upsert(s.donations, donation_key(), donation));
    lemma_lookup(s.campaigns, campaign_key(), campaign_id);
    let p = lookup(s.campaigns, campaign_key(), campaign_id).unwrap();
    assert(after.campaigns == s.campaigns.update(p, credited));
    assert forall|i: int| 0 <= i < after.campaigns.len() implies (
    #[trigger] after.campaigns[i]).current_amount == donated_to(
        after.donations,
        after.campaigns[i].id,
    ) by {
        lemma_donated_put(s.donations, donation, after.campaigns[i].id);
        if i != p {
            assert(after.campaigns[i] == s.campaigns[i]);
            assert(campaign_key()(s.campaigns[i]) != campaign_key()(s.campaigns[p]));
        }
    }
}

/// The donation that a successful `donate` records holds the net amount:
/// together with the platform fee, rounded down, it makes up the gross
/// amount given.
pub proof fn lemma_recorded_amount_plus_fee(
    s: LedgerView,
    donation_id: Seq<u8>,
    nft_id: Seq<u8>,
    caller: Seq<char>,
    campaign_id: Seq<u8>,
    donor: Seq<char>,
    amount: u64,
    anonymous: bool,
    mint_nft: bool,
    now: u64,
)
    requires
        s.wf(),
        s.check_donate(caller, campaign_id, donor, amount, now) is None,
    ensures
        s.after_donate(
            donation_id,
            nft_id,
            campaign_id,
            donor,
            amount,
            anonymous,
            mint_nft,
            now,
        ).donation(donation_id) matches Some(d) && d.amount + fee_of(amount, s.fee_rate())
            == amount && d.amount > 0,
{
    let net = s.net_amount(amount);
    lemma_fee_bounds(amount, s.fee_rate());
    let donation = DonationView {
        id: donation_id,
        campaign_id,
        donor,
        amount: net,
        timestamp: now,
        nft_minted: mint_nft,
        anonymous,
    };
    lemma_upsert(s.donations, donation_key(), donation, donation_id);
}

/// A request for a disbursement succeeds only for an amount that the
/// campaign holds when the request is made.
pub proof fn lemma_disbursement_within_funds(
    s: LedgerView,
    caller: Seq<char>,
    campaign_id: Seq<u8>,
    amount: u64,
)
    requires
        s.check_create_disbursement(caller, campaign_id, amount) is None,
    ensures
        s.campaign(campaign_id) matches Some(c) && amount <= c.current_amount,
{
}

/// On a new contract the funds are consistent.
pub proof fn lemma_empty_funds_consistent()
    ensures
        funds_consistent(LedgerView::empty()),
{
}

/// After any sequence of calls of which each stays within the integer widths
/// and overwrites no funds, the funds are consistent if they were before.
pub proof fn lemma_run_keeps_funds(s: LedgerView, calls: Seq<Call>)
    requires
        s.wf(),
        funds_consistent(s),
        all_in_range(s, calls),
        none_overwrites_funds(s, calls),
    ensures
        funds_consistent(run(s, calls)),
    decreases calls.len(),
{
    if calls.len() > 0 {
        lemma_run_keeps_funds(s, calls.drop_last());
        crate::history::lemma_run_wf(s, calls.drop_last());
        lemma_apply_keeps_funds(run(s, calls.drop_last()), calls.last());
    }
}

/// On a contract that started new, after any sequence of calls of which
/// each stays within the integer widths and overwrites no funds, every
/// campaign holds the sum of the donations that name it.
pub proof fn lemma_funds_always_consistent(calls: Seq<Call>)
    requires
        all_in_range(LedgerView::empty(), calls),
        none_overwrites_funds(LedgerView::empty(), calls),
    ensures
        funds_consistent(run(LedgerView::empty(), calls)),
{
    lemma_empty_funds_consistent();
    lemma_run_keeps_funds(LedgerView::empty(), calls);
}

} // verus!
