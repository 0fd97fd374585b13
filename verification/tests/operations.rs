use savia::ident::{campaign_id, donation_id, nft_id};
use savia::{
    Address, DataKey, DisbursementStatus, Id, LedgerSnapshot, SaviaContract, SaviaError,
    StatsChange,
};

fn text(s: &str) -> String {
    String::from(s)
}

fn admin() -> Address {
    Address::from_str("GADMIN")
}

fn beneficiary() -> Address {
    Address::from_str("GBENEFICIARY")
}

fn donor() -> Address {
    Address::from_str("GDONOR")
}

fn recipient() -> Address {
    Address::from_str("GRECIPIENT")
}

fn stranger() -> Address {
    Address::from_str("GSTRANGER")
}

fn initialized(fee: u64) -> SaviaContract {
    let mut contract = SaviaContract::new();
    contract.initialize(&admin(), admin(), fee).unwrap();
    contract
}

fn open_campaign(contract: &mut SaviaContract, now: u64) -> Id {
    assert!(contract.can_create_campaign(
        &beneficiary(),
        &beneficiary(),
        "Test Campaign",
        "A test campaign for testing",
        10000,
        30,
        now
    ));
    contract
        .create_campaign(
            &beneficiary(),
            beneficiary(),
            text("Test Campaign"),
            text("A test campaign for testing"),
            10000,
            30,
            text("Health"),
            text("Test City"),
            now,
        )
        .unwrap()
}

fn give(contract: &mut SaviaContract, campaign: Id, amount: u64, mint: bool, now: u64) -> Id {
    assert!(contract.can_donate(&donor(), &campaign, &donor(), amount, mint, now));
    contract
        .donate(&donor(), campaign, donor(), amount, false, mint, now)
        .unwrap()
}

fn donated_to(contract: SaviaContract, campaign: &Id) -> (u64, SaviaContract) {
    let snapshot = contract.into_snapshot();
    let mut sum = 0u64;
    for d in snapshot.donations.iter() {
        if d.campaign_id == *campaign {
            sum += d.amount;
        }
    }
    (sum, SaviaContract::restore(snapshot).unwrap())
}

// ---- initialization ----

#[test]
fn new_contract_is_empty() {
    let contract = SaviaContract::new();
    let stats = contract.get_stats();
    assert_eq!(stats.total_campaigns, 0);
    assert_eq!(stats.total_donations, 0);
    assert_eq!(stats.total_raised, 0);
    assert_eq!(stats.total_nfts, 0);
    assert_eq!(stats.active_campaigns, 0);
    assert!(contract.get_admin().is_none());
    assert_eq!(contract.get_platform_fee(), 200);
    assert!(contract.get_campaign(&Id::from_array([0u8; 32])).is_none());
}

#[test]
fn initialize_sets_admin_and_fee() {
    let contract = initialized(350);
    assert_eq!(contract.get_admin(), Some(admin()));
    assert_eq!(contract.get_platform_fee(), 350);
    assert!(contract.is_admin(&admin()));
    assert!(!contract.is_admin(&stranger()));
}

#[test]
fn initialize_twice_fails_already_initialized() {
    let mut contract = initialized(200);
    assert_eq!(
        contract.initialize(&admin(), admin(), 200),
        Err(SaviaError::AlreadyInitialized)
    );
    assert_eq!(
        contract.initialize(&stranger(), stranger(), 5000),
        Err(SaviaError::AlreadyInitialized)
    );
    assert_eq!(contract.get_admin(), Some(admin()));
}

#[test]
fn initialize_rejects_fee_over_ten_percent() {
    let mut contract = SaviaContract::new();
    assert_eq!(
        contract.initialize(&admin(), admin(), 1001),
        Err(SaviaError::InvalidFee)
    );
    assert!(contract.get_admin().is_none());
    assert_eq!(contract.initialize(&admin(), admin(), 1000), Ok(()));
    assert_eq!(contract.get_platform_fee(), 1000);
}

#[test]
fn initialize_by_another_principal_is_unauthorized() {
    let mut contract = SaviaContract::new();
    assert_eq!(
        contract.initialize(&stranger(), admin(), 200),
        Err(SaviaError::Unauthorized)
    );
    assert!(contract.get_admin().is_none());
}

#[test]
fn initialize_resets_counters_and_statistics() {
    let mut contract = SaviaContract::new();
    let campaign = open_campaign(&mut contract, 0);
    give(&mut contract, campaign, 1000, true, 0);
    assert_eq!(contract.get_stats().total_campaigns, 1);
    contract.initialize(&admin(), admin(), 100).unwrap();
    let stats = contract.get_stats();
    assert_eq!(stats.total_campaigns, 0);
    assert_eq!(stats.total_donations, 0);
    assert_eq!(stats.total_raised, 0);
    assert_eq!(stats.total_nfts, 0);
    assert_eq!(stats.active_campaigns, 0);
    // the records stay
    assert_eq!(contract.get_campaign(&campaign).unwrap().current_amount, 980);
    // the campaign counter starts over: the next identifier uses counter 1
    let next = contract
        .create_campaign(
            &beneficiary(),
            beneficiary(),
            text("Second"),
            text("Another"),
            5,
            1,
            text("c"),
            text("l"),
            9,
        )
        .unwrap();
    assert_eq!(next, campaign_id(&beneficiary(), "Second", 5, 9, 1));
}

// ---- campaigns ----

#[test]
fn create_campaign_fills_every_field() {
    let mut contract = initialized(200);
    let id = open_campaign(&mut contract, 1_000);
    let c = contract.get_campaign(&id).unwrap();
    assert_eq!(c.id, id);
    assert_eq!(c.title, "Test Campaign");
    assert_eq!(c.description, "A test campaign for testing");
    assert_eq!(c.beneficiary, beneficiary());
    assert_eq!(c.goal_amount, 10000);
    assert_eq!(c.current_amount, 0);
    assert_eq!(c.start_time, 1_000);
    assert_eq!(c.end_time, 1_000 + 30 * 86400);
    assert!(!c.verified);
    assert_eq!(c.trust_score, 0);
    assert_eq!(c.category, "Health");
    assert_eq!(c.location, "Test City");
    assert!(c.active);
    let stats = contract.get_stats();
    assert_eq!(stats.total_campaigns, 1);
    assert_eq!(stats.active_campaigns, 1);
}

#[test]
fn create_campaign_derives_its_identifier() {
    let mut contract = initialized(200);
    let first = open_campaign(&mut contract, 77);
    assert_eq!(
        first,
        campaign_id(&beneficiary(), "Test Campaign", 10000, 77, 1)
    );
    let second = open_campaign(&mut contract, 77);
    assert_eq!(
        second,
        campaign_id(&beneficiary(), "Test Campaign", 10000, 77, 2)
    );
    assert_ne!(first, second);
    assert_eq!(contract.get_stats().total_campaigns, 2);
}

#[test]
fn create_campaign_with_goal_zero_fails_invalid_goal() {
    let mut contract = initialized(200);
    let r = contract.create_campaign(
        &beneficiary(),
        beneficiary(),
        text("t"),
        text("d"),
        0,
        30,
        text("c"),
        text("l"),
        0,
    );
    assert_eq!(r, Err(SaviaError::InvalidGoal));
    assert_eq!(contract.get_stats().total_campaigns, 0);
    assert!(contract.get_trust_score(&beneficiary()).is_none());
}

#[test]
fn create_campaign_with_bad_duration_fails_invalid_duration() {
    let mut contract = initialized(200);
    for days in [0u64, 366, u64::MAX] {
        let r = contract.create_campaign(
            &beneficiary(),
            beneficiary(),
            text("t"),
            text("d"),
            10,
            days,
            text("c"),
            text("l"),
            0,
        );
        assert_eq!(r, Err(SaviaError::InvalidDuration));
    }
    for days in [1u64, 365] {
        let r = contract.create_campaign(
            &beneficiary(),
            beneficiary(),
            text("t"),
            text("d"),
            10,
            days,
            text("c"),
            text("l"),
            5,
        );
        let c = contract.get_campaign(&r.unwrap()).unwrap();
        assert_eq!(c.end_time, 5 + days * 86400);
    }
}

#[test]
fn create_campaign_with_empty_text_fails_invalid_input() {
    let mut contract = initialized(200);
    let r = contract.create_campaign(
        &beneficiary(),
        beneficiary(),
        text(""),
        text("d"),
        10,
        30,
        text("c"),
        text("l"),
        0,
    );
    assert_eq!(r, Err(SaviaError::InvalidInput));
    let r = contract.create_campaign(
        &beneficiary(),
        beneficiary(),
        text("t"),
        text(""),
        10,
        30,
        text("c"),
        text("l"),
        0,
    );
    assert_eq!(r, Err(SaviaError::InvalidInput));
    // category and location may be empty
    let r = contract.create_campaign(
        &beneficiary(),
        beneficiary(),
        text("t"),
        text("d"),
        10,
        30,
        text(""),
        text(""),
        0,
    );
    assert!(r.is_ok());
}

#[test]
fn create_campaign_checks_in_order() {
    let mut contract = initialized(200);
    // authorization comes before the goal, the goal before the duration,
    // the duration before the texts
    let r = contract.create_campaign(
        &stranger(),
        beneficiary(),
        text(""),
        text(""),
        0,
        0,
        text("c"),
        text("l"),
        0,
    );
    assert_eq!(r, Err(SaviaError::Unauthorized));
    let r = contract.create_campaign(
        &beneficiary(),
        beneficiary(),
        text(""),
        text(""),
        0,
        0,
        text("c"),
        text("l"),
        0,
    );
    assert_eq!(r, Err(SaviaError::InvalidGoal));
    let r = contract.create_campaign(
        &beneficiary(),
        beneficiary(),
        text(""),
        text(""),
        1,
        0,
        text("c"),
        text("l"),
        0,
    );
    assert_eq!(r, Err(SaviaError::InvalidDuration));
}

#[test]
fn create_campaign_raises_the_beneficiarys_score() {
    let mut contract = initialized(200);
    open_campaign(&mut contract, 3);
    let t = contract.get_trust_score(&beneficiary()).unwrap();
    assert_eq!(t.campaigns_created, 1);
    assert_eq!(t.score, 51);
    assert_eq!(t.last_updated, 3);
    open_campaign(&mut contract, 4);
    let t = contract.get_trust_score(&beneficiary()).unwrap();
    assert_eq!(t.campaigns_created, 2);
    assert_eq!(t.score, 53);
    assert_eq!(t.last_updated, 4);
}

#[test]
fn verify_campaign_cuts_the_score_off_at_one_hundred() {
    let mut contract = initialized(200);
    let id = open_campaign(&mut contract, 0);
    contract.verify_campaign(&admin(), &id, 250).unwrap();
    let c = contract.get_campaign(&id).unwrap();
    assert!(c.verified);
    assert_eq!(c.trust_score, 100);
    contract.verify_campaign(&admin(), &id, 0).unwrap();
    assert_eq!(contract.get_campaign(&id).unwrap().trust_score, 0);
    contract.verify_campaign(&admin(), &id, 100).unwrap();
    assert_eq!(contract.get_campaign(&id).unwrap().trust_score, 100);
}

#[test]
fn verify_campaign_errors() {
    let mut contract = initialized(200);
    let id = open_campaign(&mut contract, 0);
    assert_eq!(
        contract.verify_campaign(&stranger(), &id, 85),
        Err(SaviaError::Unauthorized)
    );
    assert_eq!(
        contract.verify_campaign(&admin(), &Id::from_array([1u8; 32]), 85),
        Err(SaviaError::CampaignNotFound)
    );
    assert!(!contract.get_campaign(&id).unwrap().verified);
    let mut bare = SaviaContract::new();
    assert_eq!(
        bare.verify_campaign(&admin(), &id, 85),
        Err(SaviaError::Unauthorized)
    );
}

#[test]
fn close_campaign_errors_and_effect() {
    let mut contract = initialized(200);
    let id = open_campaign(&mut contract, 0);
    assert_eq!(
        contract.close_campaign(&beneficiary(), &Id::from_array([1u8; 32])),
        Err(SaviaError::CampaignNotFound)
    );
    assert_eq!(
        contract.close_campaign(&stranger(), &id),
        Err(SaviaError::Unauthorized)
    );
    assert_eq!(contract.get_stats().active_campaigns, 1);
    assert_eq!(contract.close_campaign(&beneficiary(), &id), Ok(()));
    assert!(!contract.get_campaign(&id).unwrap().active);
    assert_eq!(contract.get_stats().active_campaigns, 0);
    assert_eq!(contract.get_stats().total_campaigns, 1);
    assert_eq!(
        contract.close_campaign(&beneficiary(), &id),
        Err(SaviaError::CampaignInactive)
    );
}

#[test]
fn closing_never_takes_active_campaigns_below_zero() {
    let mut contract = SaviaContract::new();
    let id = open_campaign(&mut contract, 0);
    contract.initialize(&admin(), admin(), 200).unwrap();
    assert_eq!(contract.get_stats().active_campaigns, 0);
    contract.close_campaign(&beneficiary(), &id).unwrap();
    assert_eq!(contract.get_stats().active_campaigns, 0);
    contract.update_stats(StatsChange::CampaignClosed);
    assert_eq!(contract.get_stats().active_campaigns, 0);
}

// ---- donations ----

#[test]
fn donation_scenario_with_two_percent_fee_and_badge() {
    let mut contract = initialized(200);
    let campaign = open_campaign(&mut contract, 0);
    let before = contract.get_stats();
    let id = give(&mut contract, campaign, 1000, true, 10);

    let d = contract.get_donation(&id).unwrap();
    assert_eq!(d.id, id);
    assert_eq!(d.campaign_id, campaign);
    assert_eq!(d.donor, donor());
    assert_eq!(d.amount, 980);
    assert_eq!(d.timestamp, 10);
    assert!(d.nft_minted);
    assert!(!d.anonymous);

    assert_eq!(contract.get_campaign(&campaign).unwrap().current_amount, 980);

    let stats = contract.get_stats();
    assert_eq!(stats.total_raised, before.total_raised + 980);
    assert_eq!(stats.total_donations, before.total_donations + 1);
    assert_eq!(stats.total_nfts, before.total_nfts + 1);

    let badge_id = nft_id(&donor(), &campaign, &id, 980, 1);
    let badge = contract.get_nft(&badge_id).unwrap();
    assert_eq!(badge.id, badge_id);
    assert_eq!(badge.owner, donor());
    assert_eq!(badge.badge_type, "Bronze Supporter");
    assert_eq!(badge.campaign_id, Some(campaign));
    assert_eq!(badge.minted_at, 10);
    assert_eq!(badge.metadata_uri, "https://savia.org/nft/metadata");
}

#[test]
fn donation_identifier_is_derived_from_the_gross_amount() {
    let mut contract = initialized(200);
    let campaign = open_campaign(&mut contract, 0);
    let first = give(&mut contract, campaign, 1000, false, 10);
    assert_eq!(first, donation_id(&campaign, &donor(), 1000, 10, 1));
    let second = give(&mut contract, campaign, 1000, false, 10);
    assert_eq!(second, donation_id(&campaign, &donor(), 1000, 10, 2));
    assert_ne!(first, second);
    assert_eq!(contract.get_campaign(&campaign).unwrap().current_amount, 1960);
}

#[test]
fn donation_without_badge_mints_nothing() {
    let mut contract = initialized(200);
    let campaign = open_campaign(&mut contract, 0);
    let id = give(&mut contract, campaign, 3000, false, 0);
    assert_eq!(contract.get_stats().total_nfts, 0);
    assert!(!contract.get_donation(&id).unwrap().nft_minted);
    assert!(contract
        .get_nft(&nft_id(&donor(), &campaign, &id, 2940, 1))
        .is_none());
}

#[test]
fn donation_uses_default_fee_before_initialization() {
    let mut contract = SaviaContract::new();
    let campaign = open_campaign(&mut contract, 0);
    let id = give(&mut contract, campaign, 1000, false, 0);
    assert_eq!(contract.get_donation(&id).unwrap().amount, 980);
}

#[test]
fn donation_at_other_fee_rates() {
    for (fee, net) in [(0u64, 1000u64), (1, 1000), (10, 999), (1000, 900), (999, 901)] {
        let mut contract = initialized(fee);
        let campaign = open_campaign(&mut contract, 0);
        let id = give(&mut contract, campaign, 1000, false, 0);
        assert_eq!(contract.get_donation(&id).unwrap().amount, net);
        assert_eq!(contract.get_campaign(&campaign).unwrap().current_amount, net);
        assert_eq!(contract.get_stats().total_raised, net);
    }
}

#[test]
fn donation_badge_tier_follows_the_net_amount() {
    let mut contract = initialized(200);
    let campaign = open_campaign(&mut contract, 0);
    // 1020 gross leaves 1000 net: silver; 1000 gross leaves 980: bronze
    let id = give(&mut contract, campaign, 1020, true, 0);
    let badge = contract
        .get_nft(&nft_id(&donor(), &campaign, &id, 1000, 1))
        .unwrap();
    assert_eq!(badge.badge_type, "Silver Supporter");
    let id = give(&mut contract, campaign, 60000, true, 0);
    let badge = contract
        .get_nft(&nft_id(&donor(), &campaign, &id, 58800, 2))
        .unwrap();
    assert_eq!(badge.badge_type, "Diamond Supporter");
}

#[test]
fn donate_errors() {
    let mut contract = initialized(200);
    let campaign = open_campaign(&mut contract, 100);
    let end = 100 + 30 * 86400;
    assert_eq!(
        contract.donate(&stranger(), campaign, donor(), 1000, false, false, 100),
        Err(SaviaError::Unauthorized)
    );
    assert_eq!(
        contract.donate(
            &donor(),
            Id::from_array([1u8; 32]),
            donor(),
            1000,
            false,
            false,
            100
        ),
        Err(SaviaError::CampaignNotFound)
    );
    assert_eq!(
        contract.donate(&donor(), campaign, donor(), 1000, false, false, end + 1),
        Err(SaviaError::CampaignEnded)
    );
    assert_eq!(
        contract.donate(&donor(), campaign, donor(), 0, false, false, 100),
        Err(SaviaError::InvalidAmount)
    );
    // the end itself is still in time
    assert!(contract
        .donate(&donor(), campaign, donor(), 1000, false, false, end)
        .is_ok());
    contract.close_campaign(&beneficiary(), &campaign).unwrap();
    assert_eq!(
        contract.donate(&donor(), campaign, donor(), 1000, false, false, 100),
        Err(SaviaError::CampaignInactive)
    );
    // inactive is reported before ended, ended before the amount
    assert_eq!(
        contract.donate(&donor(), campaign, donor(), 0, false, false, end + 1),
        Err(SaviaError::CampaignInactive)
    );
}

#[test]
fn refused_donation_changes_nothing() {
    let mut contract = initialized(200);
    let campaign = open_campaign(&mut contract, 0);
    let stats = contract.get_stats();
    let r = contract.donate(&donor(), campaign, donor(), 0, false, true, 0);
    assert_eq!(r, Err(SaviaError::InvalidAmount));
    assert_eq!(contract.get_stats(), stats);
    assert_eq!(contract.get_campaign(&campaign).unwrap().current_amount, 0);
    assert!(contract.get_trust_score(&donor()).is_none());
}

#[test]
fn donation_updates_the_donors_score() {
    let mut contract = initialized(200);
    let campaign = open_campaign(&mut contract, 0);
    give(&mut contract, campaign, 1000, false, 5);
    let t = contract.get_trust_score(&donor()).unwrap();
    assert_eq!(t.donation_count, 1);
    assert_eq!(t.total_donated, 980);
    assert_eq!(t.score, 50);
    assert_eq!(t.last_updated, 5);
    give(&mut contract, campaign, 10000, false, 6);
    let t = contract.get_trust_score(&donor()).unwrap();
    assert_eq!(t.donation_count, 2);
    assert_eq!(t.total_donated, 10780);
    // 50 + floor(2*30/100) + floor(10*15/100) + 5
    assert_eq!(t.score, 56);
    assert_eq!(t.last_updated, 6);
}

#[test]
fn campaign_funds_equal_the_sum_of_its_donations() {
    let mut contract = initialized(250);
    let first = open_campaign(&mut contract, 0);
    let second = open_campaign(&mut contract, 0);
    for amount in [1u64, 39, 40, 1000, 123_456] {
        give(&mut contract, first, amount, amount % 2 == 0, 1);
    }
    give(&mut contract, second, 777, true, 2);
    contract.verify_campaign(&admin(), &first, 60).unwrap();
    contract.close_campaign(&beneficiary(), &second).unwrap();
    let (sum_first, contract) = donated_to(contract, &first);
    let (sum_second, contract) = donated_to(contract, &second);
    assert_eq!(
        contract.get_campaign(&first).unwrap().current_amount,
        sum_first
    );
    assert_eq!(
        contract.get_campaign(&second).unwrap().current_amount,
        sum_second
    );
    assert_eq!(sum_first, 1 + 39 + 39 + 975 + 120_370);
    assert_eq!(sum_second, 758);
    assert_eq!(contract.get_stats().total_raised, sum_first + sum_second);
}

#[test]
fn scores_stay_in_range_after_many_operations() {
    let mut contract = initialized(0);
    let mut campaign = open_campaign(&mut contract, 0);
    for i in 0..120u64 {
        campaign = open_campaign(&mut contract, i);
        give(&mut contract, campaign, 5000, false, i);
    }
    contract.verify_campaign(&admin(), &campaign, u32::MAX).unwrap();
    let t = contract.get_trust_score(&donor()).unwrap();
    assert_eq!(t.donation_count, 120);
    assert_eq!(t.score, 100);
    let b = contract.get_trust_score(&beneficiary()).unwrap();
    assert_eq!(b.campaigns_created, 121);
    assert_eq!(b.score, 100);
    assert_eq!(contract.get_campaign(&campaign).unwrap().trust_score, 100);
}

// ---- trust scores ----

#[test]
fn create_trust_score_twice_fails_score_exists() {
    let mut contract = SaviaContract::new();
    assert_eq!(contract.create_trust_score(donor(), 9), Ok(()));
    let t = contract.get_trust_score(&donor()).unwrap();
    assert_eq!(t.score, 50);
    assert_eq!(t.last_updated, 9);
    assert_eq!(
        contract.create_trust_score(donor(), 10),
        Err(SaviaError::ScoreExists)
    );
    assert_eq!(contract.get_trust_score(&donor()).unwrap().last_updated, 9);
}

#[test]
fn trust_updates_create_the_record_where_there_is_none() {
    let mut contract = SaviaContract::new();
    assert!(contract.can_update_donor(&donor(), 5000));
    assert_eq!(contract.update_donor_trust_score(donor(), 5000, 1), Ok(()));
    let t = contract.get_trust_score(&donor()).unwrap();
    assert_eq!(t.donation_count, 1);
    assert_eq!(t.total_donated, 5000);
    assert_eq!(t.score, 50);
    assert!(contract.can_update_beneficiary(&beneficiary()));
    assert_eq!(
        contract.update_beneficiary_trust_score(beneficiary(), 2),
        Ok(())
    );
    let t = contract.get_trust_score(&beneficiary()).unwrap();
    assert_eq!(t.campaigns_created, 1);
    assert_eq!(t.score, 51);
    assert_eq!(t.last_updated, 2);
}

// ---- badges ----

#[test]
fn mint_donation_nft_derives_identifier_and_counts() {
    let mut contract = SaviaContract::new();
    let campaign = Id::from_array([4u8; 32]);
    let donation = Id::from_array([5u8; 32]);
    assert!(contract.can_mint());
    let id = contract
        .mint_donation_nft(donor(), campaign, donation, 12_000, 8)
        .unwrap();
    assert_eq!(id, nft_id(&donor(), &campaign, &donation, 12_000, 1));
    let badge = contract.get_nft(&id).unwrap();
    assert_eq!(badge.badge_type, "Platinum Supporter");
    assert_eq!(badge.minted_at, 8);
    assert_eq!(contract.get_stats().total_nfts, 1);
    let again = contract
        .mint_donation_nft(donor(), campaign, donation, 12_000, 8)
        .unwrap();
    assert_eq!(again, nft_id(&donor(), &campaign, &donation, 12_000, 2));
    assert_ne!(id, again);
}

// ---- disbursements ----

#[test]
fn disbursement_is_created_pending() {
    let mut contract = initialized(200);
    let campaign = open_campaign(&mut contract, 0);
    give(&mut contract, campaign, 5000, false, 0);
    assert!(contract.can_create_disbursement(
        &beneficiary(),
        &campaign,
        &recipient(),
        2000,
        "Equipment purchase"
    ));
    let id = contract
        .create_disbursement(
            &beneficiary(),
            campaign,
            recipient(),
            2000,
            text("Equipment purchase"),
            44,
        )
        .unwrap();
    assert_eq!(
        id,
        savia::ident::disbursement_id(&campaign, &recipient(), 2000, "Equipment purchase", 1)
    );
    let d = contract.get_disbursement(&id).unwrap();
    assert_eq!(d.id, id);
    assert_eq!(d.campaign_id, campaign);
    assert_eq!(d.recipient, recipient());
    assert_eq!(d.amount, 2000);
    assert_eq!(d.milestone, "Equipment purchase");
    assert_eq!(d.status, DisbursementStatus::Pending);
    assert_eq!(d.created_at, 44);
    assert_eq!(d.executed_at, None);
    // the campaign's funds are not reduced
    assert_eq!(contract.get_campaign(&campaign).unwrap().current_amount, 4900);
}

#[test]
fn disbursement_over_the_funds_fails_insufficient_funds() {
    let mut contract = initialized(200);
    let campaign = open_campaign(&mut contract, 0);
    give(&mut contract, campaign, 5000, false, 0);
    assert_eq!(
        contract.create_disbursement(&beneficiary(), campaign, recipient(), 4901, text("m"), 0),
        Err(SaviaError::InsufficientFunds)
    );
    assert!(contract
        .create_disbursement(&beneficiary(), campaign, recipient(), 4900, text("m"), 0)
        .is_ok());
    assert!(contract
        .create_disbursement(&beneficiary(), campaign, recipient(), 0, text("m"), 0)
        .is_ok());
}

#[test]
fn create_disbursement_errors() {
    let mut contract = initialized(200);
    let campaign = open_campaign(&mut contract, 0);
    assert_eq!(
        contract.create_disbursement(
            &beneficiary(),
            Id::from_array([1u8; 32]),
            recipient(),
            1,
            text("m"),
            0
        ),
        Err(SaviaError::CampaignNotFound)
    );
    assert_eq!(
        contract.create_disbursement(&stranger(), campaign, recipient(), 0, text("m"), 0),
        Err(SaviaError::Unauthorized)
    );
    assert_eq!(
        contract.create_disbursement(&beneficiary(), campaign, recipient(), 1, text("m"), 0),
        Err(SaviaError::InsufficientFunds)
    );
}

#[test]
fn approve_by_non_admin_is_unauthorized_and_unknown_id_not_found() {
    let mut contract = initialized(200);
    let campaign = open_campaign(&mut contract, 0);
    give(&mut contract, campaign, 5000, false, 0);
    let id = contract
        .create_disbursement(&beneficiary(), campaign, recipient(), 2000, text("m"), 0)
        .unwrap();
    assert_eq!(
        contract.approve_disbursement(&beneficiary(), &id),
        Err(SaviaError::Unauthorized)
    );
    assert_eq!(
        contract.get_disbursement(&id).unwrap().status,
        DisbursementStatus::Pending
    );
    assert_eq!(
        contract.approve_disbursement(&admin(), &Id::from_array([1u8; 32])),
        Err(SaviaError::DisbursementNotFound)
    );
    assert_eq!(contract.approve_disbursement(&admin(), &id), Ok(()));
    assert_eq!(
        contract.get_disbursement(&id).unwrap().status,
        DisbursementStatus::Approved
    );
}

#[test]
fn execute_before_approve_fails_not_approved() {
    let mut contract = initialized(200);
    let campaign = open_campaign(&mut contract, 0);
    give(&mut contract, campaign, 5000, false, 0);
    let id = contract
        .create_disbursement(&beneficiary(), campaign, recipient(), 2000, text("m"), 0)
        .unwrap();
    assert_eq!(
        contract.execute_disbursement(&recipient(), &id, 9),
        Err(SaviaError::NotApproved)
    );
    let d = contract.get_disbursement(&id).unwrap();
    assert_eq!(d.status, DisbursementStatus::Pending);
    assert_eq!(d.executed_at, None);
    contract.approve_disbursement(&admin(), &id).unwrap();
    assert_eq!(contract.execute_disbursement(&recipient(), &id, 9), Ok(()));
    let d = contract.get_disbursement(&id).unwrap();
    assert_eq!(d.status, DisbursementStatus::Executed);
    assert_eq!(d.executed_at, Some(9));
    // an executed disbursement cannot be executed again
    assert_eq!(
        contract.execute_disbursement(&recipient(), &id, 10),
        Err(SaviaError::NotApproved)
    );
    assert_eq!(contract.get_disbursement(&id).unwrap().executed_at, Some(9));
}

#[test]
fn execute_disbursement_errors() {
    let mut contract = initialized(200);
    let campaign = open_campaign(&mut contract, 0);
    give(&mut contract, campaign, 5000, false, 0);
    let id = contract
        .create_disbursement(&beneficiary(), campaign, recipient(), 2000, text("m"), 0)
        .unwrap();
    contract.approve_disbursement(&admin(), &id).unwrap();
    assert_eq!(
        contract.execute_disbursement(&recipient(), &Id::from_array([1u8; 32]), 0),
        Err(SaviaError::DisbursementNotFound)
    );
    assert_eq!(
        contract.execute_disbursement(&admin(), &id, 0),
        Err(SaviaError::Unauthorized)
    );
    assert_eq!(
        contract.get_disbursement(&id).unwrap().status,
        DisbursementStatus::Approved
    );
}

// ---- operations under a given identifier ----

#[test]
fn record_campaign_uses_the_identifier_given() {
    let mut contract = SaviaContract::new();
    let id = Id::from_array([9u8; 32]);
    let r = contract.record_campaign(
        id,
        &beneficiary(),
        beneficiary(),
        text("t"),
        text("d"),
        10,
        1,
        text("c"),
        text("l"),
        0,
    );
    assert_eq!(r, Ok(id));
    assert_eq!(contract.get_campaign(&id).unwrap().goal_amount, 10);
    let r = contract.record_campaign(
        id,
        &beneficiary(),
        beneficiary(),
        text("t"),
        text("d"),
        0,
        1,
        text("c"),
        text("l"),
        0,
    );
    assert_eq!(r, Err(SaviaError::InvalidGoal));
}

#[test]
fn record_donation_and_disbursement_use_the_identifiers_given() {
    let mut contract = SaviaContract::new();
    let campaign = open_campaign(&mut contract, 0);
    let donation = Id::from_array([2u8; 32]);
    let badge = Id::from_array([3u8; 32]);
    let r = contract.record_donation(
        donation,
        badge,
        &donor(),
        campaign,
        donor(),
        10_000,
        true,
        true,
        1,
    );
    assert_eq!(r, Ok(donation));
    assert_eq!(contract.get_donation(&donation).unwrap().amount, 9800);
    assert!(contract.get_donation(&donation).unwrap().anonymous);
    assert_eq!(contract.get_nft(&badge).unwrap().badge_type, "Gold Supporter");
    let disbursement = Id::from_array([4u8; 32]);
    let r = contract.record_disbursement(
        disbursement,
        &beneficiary(),
        campaign,
        recipient(),
        9800,
        text("m"),
        2,
    );
    assert_eq!(r, Ok(disbursement));
    let extra = Id::from_array([5u8; 32]);
    assert_eq!(
        contract.record_badge(extra, donor(), campaign, 1, 3),
        Ok(extra)
    );
    assert_eq!(contract.get_stats().total_nfts, 2);
}

// ---- storage keys, snapshots ----

#[test]
fn has_tells_which_slots_hold_a_value() {
    let mut contract = SaviaContract::new();
    assert!(!contract.has(&DataKey::Admin));
    assert!(!contract.has(&DataKey::PlatformFee));
    assert!(contract.has(&DataKey::Stats));
    assert!(contract.has(&DataKey::CampaignCounter));
    assert!(contract.has(&DataKey::DonationCounter));
    assert!(contract.has(&DataKey::NFTCounter));
    assert!(contract.has(&DataKey::DisbursementCounter));
    contract.initialize(&admin(), admin(), 200).unwrap();
    assert!(contract.has(&DataKey::Admin));
    assert!(contract.has(&DataKey::PlatformFee));
    let campaign = open_campaign(&mut contract, 0);
    let donation = give(&mut contract, campaign, 1000, true, 0);
    assert!(contract.has(&DataKey::Campaign(campaign)));
    assert!(!contract.has(&DataKey::Campaign(donation)));
    assert!(contract.has(&DataKey::Donation(donation)));
    assert!(!contract.has(&DataKey::Disbursement(donation)));
    assert!(contract.has(&DataKey::TrustScore(donor())));
    assert!(contract.has(&DataKey::TrustScore(beneficiary())));
    assert!(!contract.has(&DataKey::TrustScore(stranger())));
    assert!(contract.has(&DataKey::NFTBadge(nft_id(
        &donor(),
        &campaign,
        &donation,
        980,
        1
    ))));
    assert!(!contract.has(&DataKey::CampaignsByBeneficiary(beneficiary())));
    assert!(!contract.has(&DataKey::DonationsByCampaign(campaign)));
}

#[test]
fn snapshot_and_restore_keep_the_ledger() {
    let mut contract = initialized(300);
    let campaign = open_campaign(&mut contract, 0);
    let donation = give(&mut contract, campaign, 1000, true, 0);
    let snapshot = contract.into_snapshot();
    assert_eq!(snapshot.admin, Some(admin()));
    assert_eq!(snapshot.platform_fee, Some(300));
    assert_eq!(snapshot.campaign_counter, 1);
    assert_eq!(snapshot.donation_counter, 1);
    assert_eq!(snapshot.nft_counter, 1);
    assert_eq!(snapshot.disbursement_counter, 0);
    assert_eq!(snapshot.campaigns.len(), 1);
    assert_eq!(snapshot.donations.len(), 1);
    assert_eq!(snapshot.trust_scores.len(), 2);
    assert_eq!(snapshot.nfts.len(), 1);
    let restored = SaviaContract::restore(snapshot).unwrap();
    assert_eq!(restored.get_donation(&donation).unwrap().amount, 970);
    assert_eq!(restored.get_campaign(&campaign).unwrap().current_amount, 970);
    assert_eq!(restored.get_platform_fee(), 300);
}

fn empty_snapshot() -> LedgerSnapshot {
    SaviaContract::new().into_snapshot()
}

#[test]
fn restore_refuses_what_is_not_well_formed() {
    let mut fee = empty_snapshot();
    fee.platform_fee = Some(1001);
    assert!(SaviaContract::restore(fee).is_none());

    let mut contract = SaviaContract::new();
    open_campaign(&mut contract, 0);
    let mut twice = contract.into_snapshot();
    let copy = twice.campaigns[0].clone();
    twice.campaigns.push(copy);
    assert!(SaviaContract::restore(twice).is_none());

    let mut contract = SaviaContract::new();
    open_campaign(&mut contract, 0);
    let mut high = contract.into_snapshot();
    high.campaigns[0].trust_score = 101;
    assert!(SaviaContract::restore(high).is_none());

    let mut contract = SaviaContract::new();
    contract.create_trust_score(donor(), 0).unwrap();
    let mut score = contract.into_snapshot();
    score.trust_scores[0].score = 101;
    assert!(SaviaContract::restore(score).is_none());

    let mut contract = SaviaContract::new();
    contract.create_trust_score(donor(), 0).unwrap();
    let mut same = contract.into_snapshot();
    let copy = same.trust_scores[0].clone();
    same.trust_scores.push(copy);
    assert!(SaviaContract::restore(same).is_none());

    let mut fine = empty_snapshot();
    fine.platform_fee = Some(1000);
    assert!(SaviaContract::restore(fine).is_some());
}

// ---- the limits of the integer widths ----

#[test]
fn predicates_tell_when_a_call_would_leave_the_integer_widths() {
    let mut contract = SaviaContract::new();
    // a campaign that would end after the last second
    assert!(!contract.can_create_campaign(
        &beneficiary(),
        &beneficiary(),
        "t",
        "d",
        1,
        1,
        u64::MAX - 86399
    ));
    assert!(contract.can_create_campaign(
        &beneficiary(),
        &beneficiary(),
        "t",
        "d",
        1,
        1,
        u64::MAX - 86400
    ));
    // a refused call is always in range
    assert!(contract.can_create_campaign(&beneficiary(), &beneficiary(), "t", "d", 0, 1, u64::MAX));
    let campaign = open_campaign(&mut contract, 0);
    give(&mut contract, campaign, u64::MAX, false, 0);
    let held = contract.get_campaign(&campaign).unwrap().current_amount;
    assert_eq!(held, u64::MAX - u64::MAX / 50);
    assert!(!contract.can_donate(&donor(), &campaign, &donor(), u64::MAX, false, 0));
    assert!(contract.can_donate(&donor(), &campaign, &donor(), 0, false, 0));
    assert!(contract.stats_change_fits(StatsChange::DonationMade(u64::MAX - held)));
    assert!(!contract.stats_change_fits(StatsChange::DonationMade(u64::MAX - held + 1)));
    assert!(contract.stats_change_fits(StatsChange::CampaignClosed));
}

// ---- records ----

#[test]
fn campaign_takes_credit_while_open() {
    let mut contract = SaviaContract::new();
    let id = open_campaign(&mut contract, 100);
    let mut campaign = contract.get_campaign(&id).unwrap();
    let end = campaign.end_time;
    assert!(campaign.is_open(100));
    assert!(campaign.is_open(end));
    assert!(!campaign.is_open(end + 1));
    assert_eq!(campaign.credit(980, end), Ok(()));
    assert_eq!(campaign.current_amount, 980);
    assert_eq!(campaign.credit(20, 100), Ok(()));
    assert_eq!(campaign.current_amount, 1000);
    assert_eq!(campaign.credit(1, end + 1), Err(SaviaError::CampaignEnded));
    assert_eq!(campaign.current_amount, 1000);
    campaign.active = false;
    assert!(!campaign.is_open(100));
    assert_eq!(campaign.credit(1, 100), Err(SaviaError::CampaignInactive));
    assert_eq!(campaign.credit(1, end + 1), Err(SaviaError::CampaignInactive));
    assert_eq!(campaign.current_amount, 1000);
}

#[test]
fn ensure_trust_score_creates_once_and_then_changes_nothing() {
    let mut contract = SaviaContract::new();
    contract.ensure_trust_score(donor(), 5);
    let t = contract.get_trust_score(&donor()).unwrap();
    assert_eq!(t.score, 50);
    assert_eq!(t.last_updated, 5);
    contract.update_donor_trust_score(donor(), 200_000, 6).unwrap();
    contract.update_donor_trust_score(donor(), 1, 7).unwrap();
    contract.ensure_trust_score(donor(), 8);
    let t = contract.get_trust_score(&donor()).unwrap();
    assert_eq!(t.donation_count, 2);
    assert_eq!(t.total_donated, 200_001);
    assert_eq!(t.score, 70);
    assert_eq!(t.last_updated, 7);
}

// ---- settled disbursements ----

fn approved_disbursement(contract: &mut SaviaContract) -> Id {
    let campaign = open_campaign(contract, 0);
    give(contract, campaign, 5000, false, 0);
    let id = contract
        .create_disbursement(&beneficiary(), campaign, recipient(), 2000, text("m"), 0)
        .unwrap();
    contract.approve_disbursement(&admin(), &id).unwrap();
    id
}

#[test]
fn approve_after_execute_is_refused_and_changes_nothing() {
    let mut contract = initialized(200);
    let id = approved_disbursement(&mut contract);
    contract.execute_disbursement(&recipient(), &id, 0).unwrap();
    assert_eq!(
        contract.approve_disbursement(&admin(), &id),
        Err(SaviaError::NotApproved)
    );
    let d = contract.get_disbursement(&id).unwrap();
    assert_eq!(d.status, DisbursementStatus::Executed);
    assert_eq!(d.executed_at, Some(0));
    // so it cannot be executed a second time
    assert_eq!(
        contract.execute_disbursement(&recipient(), &id, 7),
        Err(SaviaError::NotApproved)
    );
    let d = contract.get_disbursement(&id).unwrap();
    assert_eq!(d.status, DisbursementStatus::Executed);
    assert_eq!(d.executed_at, Some(0));
    assert_eq!(d.amount, 2000);
    // authorization is still checked first
    assert_eq!(
        contract.approve_disbursement(&stranger(), &id),
        Err(SaviaError::Unauthorized)
    );
}

#[test]
fn approve_of_a_rejected_disbursement_is_refused() {
    let mut contract = initialized(200);
    let id = approved_disbursement(&mut contract);
    let mut snapshot = contract.into_snapshot();
    snapshot.disbursements[0].status = DisbursementStatus::Rejected;
    let mut contract = SaviaContract::restore(snapshot).unwrap();
    assert_eq!(
        contract.approve_disbursement(&admin(), &id),
        Err(SaviaError::NotApproved)
    );
    assert_eq!(
        contract.execute_disbursement(&recipient(), &id, 1),
        Err(SaviaError::NotApproved)
    );
    let d = contract.get_disbursement(&id).unwrap();
    assert_eq!(d.status, DisbursementStatus::Rejected);
    assert_eq!(d.executed_at, None);
}

#[test]
fn approve_of_an_approved_disbursement_keeps_it_approved() {
    let mut contract = initialized(200);
    let id = approved_disbursement(&mut contract);
    assert_eq!(contract.approve_disbursement(&admin(), &id), Ok(()));
    let d = contract.get_disbursement(&id).unwrap();
    assert_eq!(d.status, DisbursementStatus::Approved);
    assert_eq!(d.executed_at, None);
    assert_eq!(contract.execute_disbursement(&recipient(), &id, 3), Ok(()));
    assert_eq!(
        contract.get_disbursement(&id).unwrap().executed_at,
        Some(3)
    );
}

// ---- calls for every input ----

#[test]
fn try_operations_return_none_outside_the_integer_widths() {
    let mut contract = SaviaContract::new();
    // a campaign that would end after the last second
    let r = contract.try_create_campaign(
        &beneficiary(),
        beneficiary(),
        text("t"),
        text("d"),
        1,
        1,
        text("c"),
        text("l"),
        u64::MAX - 86399,
    );
    assert_eq!(r, None);
    assert_eq!(contract.get_stats().total_campaigns, 0);
    // a refused call is answered with its error
    let r = contract.try_create_campaign(
        &beneficiary(),
        beneficiary(),
        text("t"),
        text("d"),
        0,
        1,
        text("c"),
        text("l"),
        u64::MAX,
    );
    assert_eq!(r, Some(Err(SaviaError::InvalidGoal)));
    let r = contract.try_create_campaign(
        &beneficiary(),
        beneficiary(),
        text("t"),
        text("d"),
        1,
        1,
        text("c"),
        text("l"),
        5,
    );
    let campaign = r.unwrap().unwrap();
    assert_eq!(campaign, campaign_id(&beneficiary(), "t", 1, 5, 1));

    let r = contract.try_donate(&donor(), campaign, donor(), u64::MAX, false, true, 5);
    let first = r.unwrap().unwrap();
    assert_eq!(first, donation_id(&campaign, &donor(), u64::MAX, 5, 1));
    let held = contract.get_campaign(&campaign).unwrap().current_amount;
    let r = contract.try_donate(&donor(), campaign, donor(), u64::MAX, false, true, 5);
    assert_eq!(r, None);
    assert_eq!(contract.get_campaign(&campaign).unwrap().current_amount, held);
    assert_eq!(contract.get_stats().total_donations, 1);
    assert_eq!(contract.get_stats().total_nfts, 1);
    let r = contract.try_donate(&donor(), campaign, donor(), 0, false, true, 5);
    assert_eq!(r, Some(Err(SaviaError::InvalidAmount)));

    let r = contract.try_create_disbursement(
        &beneficiary(),
        campaign,
        recipient(),
        held,
        text("m"),
        6,
    );
    let id = r.unwrap().unwrap();
    assert_eq!(
        contract.get_disbursement(&id).unwrap().status,
        DisbursementStatus::Pending
    );
    let r = contract.try_create_disbursement(
        &stranger(),
        campaign,
        recipient(),
        held,
        text("m"),
        6,
    );
    assert_eq!(r, Some(Err(SaviaError::Unauthorized)));
}

#[test]
fn restore_refuses_a_donation_that_names_no_campaign() {
    let mut contract = SaviaContract::new();
    let campaign = open_campaign(&mut contract, 0);
    give(&mut contract, campaign, 1000, false, 0);
    let mut snapshot = contract.into_snapshot();
    snapshot.campaigns.clear();
    assert!(SaviaContract::restore(snapshot).is_none());

    let mut contract = SaviaContract::new();
    let campaign = open_campaign(&mut contract, 0);
    give(&mut contract, campaign, 1000, false, 0);
    let mut snapshot = contract.into_snapshot();
    snapshot.donations[0].campaign_id = Id::from_array([8u8; 32]);
    assert!(SaviaContract::restore(snapshot).is_none());
}

#[test]
fn try_trust_updates_return_none_at_the_last_count() {
    let mut contract = SaviaContract::new();
    assert_eq!(
        contract.try_update_beneficiary_trust_score(beneficiary(), 1),
        Some(Ok(()))
    );
    assert_eq!(
        contract.try_update_donor_trust_score(donor(), u64::MAX, 1),
        Some(Ok(()))
    );
    assert_eq!(contract.try_update_donor_trust_score(donor(), 1, 2), None);
    assert_eq!(
        contract.try_update_donor_trust_score(donor(), 0, 2),
        Some(Ok(()))
    );
    let mut snapshot = contract.into_snapshot();
    for t in snapshot.trust_scores.iter_mut() {
        t.campaigns_created = u32::MAX;
        t.donation_count = u32::MAX;
    }
    let mut contract = SaviaContract::restore(snapshot).unwrap();
    assert!(!contract.can_update_beneficiary(&beneficiary()));
    assert_eq!(
        contract.try_update_beneficiary_trust_score(beneficiary(), 3),
        None
    );
    assert_eq!(contract.try_update_donor_trust_score(donor(), 0, 3), None);
    let t = contract.get_trust_score(&beneficiary()).unwrap();
    assert_eq!(t.campaigns_created, u32::MAX);
    assert_eq!(t.last_updated, 1);
    assert_eq!(t.score, 51);
    // a principal without a record is always in range
    assert_eq!(
        contract.try_update_beneficiary_trust_score(stranger(), 4),
        Some(Ok(()))
    );
}
