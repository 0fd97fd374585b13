use savia::badge::{badge_metadata_uri, get_badge_type};
use savia::errors::SaviaError;
use savia::fees::{split_fee, DEFAULT_FEE_BPS, MAX_FEE_BPS};
use savia::trust::{compute_beneficiary_score, compute_donor_score};
use savia::{Address, TrustScore};

#[test]
fn fee_of_two_percent_on_one_thousand() {
    assert_eq!(split_fee(1000, 200), (20, 980));
}

#[test]
fn fee_is_rounded_down() {
    assert_eq!(split_fee(49, 200), (0, 49));
    assert_eq!(split_fee(50, 200), (1, 49));
    assert_eq!(split_fee(99, 200), (1, 98));
    assert_eq!(split_fee(1, 1000), (0, 1));
    assert_eq!(split_fee(9, 1000), (0, 9));
    assert_eq!(split_fee(10, 1000), (1, 9));
}

#[test]
fn fee_at_rate_zero_is_zero() {
    assert_eq!(split_fee(12345, 0), (0, 12345));
    assert_eq!(split_fee(0, 200), (0, 0));
}

#[test]
fn fee_and_net_add_up_to_gross() {
    for gross in [1u64, 7, 49, 50, 999, 1000, 123_456_789, u64::MAX] {
        for rate in [0u64, 1, 199, DEFAULT_FEE_BPS, 999, MAX_FEE_BPS] {
            let (fee, net) = split_fee(gross, rate);
            assert_eq!(fee as u128, gross as u128 * rate as u128 / 10000);
            assert_eq!(fee + net, gross);
        }
    }
}

#[test]
fn fee_on_the_largest_amount_does_not_overflow() {
    let (fee, net) = split_fee(u64::MAX, 1000);
    assert_eq!(fee, 1_844_674_407_370_955_161);
    assert_eq!(net, u64::MAX - 1_844_674_407_370_955_161);
}

#[test]
fn badge_tiers_at_their_thresholds() {
    assert_eq!(get_badge_type(0), "Bronze Supporter");
    assert_eq!(get_badge_type(980), "Bronze Supporter");
    assert_eq!(get_badge_type(999), "Bronze Supporter");
    assert_eq!(get_badge_type(1000), "Silver Supporter");
    assert_eq!(get_badge_type(4999), "Silver Supporter");
    assert_eq!(get_badge_type(5000), "Gold Supporter");
    assert_eq!(get_badge_type(9999), "Gold Supporter");
    assert_eq!(get_badge_type(10000), "Platinum Supporter");
    assert_eq!(get_badge_type(49999), "Platinum Supporter");
    assert_eq!(get_badge_type(50000), "Diamond Supporter");
    assert_eq!(get_badge_type(u64::MAX), "Diamond Supporter");
}

#[test]
fn badge_metadata_address_is_fixed() {
    assert_eq!(badge_metadata_uri(), "https://savia.org/nft/metadata");
}

#[test]
fn donor_score_exact_values() {
    // one donation of 980: 50 + floor(1*30/100) + floor(0*15/100) + 0
    assert_eq!(compute_donor_score(1, 980), 50);
    // two donations: the consistency bonus applies
    assert_eq!(compute_donor_score(2, 1960), 55);
    // ten donations, 10000 donated: 50 + 3 + floor(10*15/100) + 5
    assert_eq!(compute_donor_score(10, 10000), 59);
    // fifty donations, 50000 donated: 50 + 15 + floor(50*15/100) + 5
    assert_eq!(compute_donor_score(50, 50000), 77);
    // both factors at their caps
    assert_eq!(compute_donor_score(100, 100_000), 100);
    assert_eq!(compute_donor_score(u32::MAX, u64::MAX), 100);
    // no history
    assert_eq!(compute_donor_score(0, 0), 50);
    // volume alone
    assert_eq!(compute_donor_score(1, 100_000), 65);
    // frequency alone
    assert_eq!(compute_donor_score(100, 0), 85);
}

#[test]
fn beneficiary_score_exact_values() {
    assert_eq!(compute_beneficiary_score(50, 1), 51);
    assert_eq!(compute_beneficiary_score(51, 2), 53);
    assert_eq!(compute_beneficiary_score(50, 20), 70);
    assert_eq!(compute_beneficiary_score(50, 21), 70);
    assert_eq!(compute_beneficiary_score(50, u32::MAX), 70);
    assert_eq!(compute_beneficiary_score(95, 10), 100);
    assert_eq!(compute_beneficiary_score(100, 1), 100);
    assert_eq!(compute_beneficiary_score(u32::MAX, 20), 100);
}

#[test]
fn scores_stay_in_range_over_many_histories() {
    for count in [0u32, 1, 2, 50, 99, 100, 101, 10_000, u32::MAX] {
        for total in [0u64, 999, 1000, 99_999, 100_000, u64::MAX] {
            let score = compute_donor_score(count, total);
            assert!((50..=100).contains(&score));
        }
    }
    for score in [0u32, 50, 99, 100] {
        for created in [0u32, 1, 19, 20, 21, u32::MAX] {
            assert!(compute_beneficiary_score(score, created) <= 100);
        }
    }
}

#[test]
fn trust_record_starts_at_the_baseline() {
    let t = TrustScore::baseline(Address::from_str("GENTITY"), 42);
    assert_eq!(t.entity, Address::from_str("GENTITY"));
    assert_eq!(t.score, 50);
    assert_eq!(t.verification_level, 0);
    assert_eq!(t.donation_count, 0);
    assert_eq!(t.total_donated, 0);
    assert_eq!(t.campaigns_created, 0);
    assert_eq!(t.last_updated, 42);
}

#[test]
fn trust_record_counts_donations_and_campaigns() {
    let mut t = TrustScore::baseline(Address::from_str("GENTITY"), 0);
    t.record_donation(980, 10);
    assert_eq!(t.donation_count, 1);
    assert_eq!(t.total_donated, 980);
    assert_eq!(t.last_updated, 10);
    assert_eq!(t.score, 50);
    t.record_donation(4900, 11);
    assert_eq!(t.donation_count, 2);
    assert_eq!(t.total_donated, 5880);
    assert_eq!(t.score, 55);
    t.record_campaign_created(12);
    assert_eq!(t.campaigns_created, 1);
    assert_eq!(t.last_updated, 12);
    assert_eq!(t.score, 56);
    t.record_campaign_created(13);
    assert_eq!(t.score, 58);
}

#[test]
fn error_codes_are_the_documented_numbers() {
    assert_eq!(SaviaError::InvalidFee.code(), 1);
    assert_eq!(SaviaError::InvalidGoal.code(), 2);
    assert_eq!(SaviaError::InvalidDuration.code(), 3);
    assert_eq!(SaviaError::CampaignNotFound.code(), 4);
    assert_eq!(SaviaError::CampaignEnded.code(), 5);
    assert_eq!(SaviaError::InvalidAmount.code(), 6);
    assert_eq!(SaviaError::ScoreExists.code(), 7);
    assert_eq!(SaviaError::InsufficientFunds.code(), 8);
    assert_eq!(SaviaError::DisbursementNotFound.code(), 9);
    assert_eq!(SaviaError::NotApproved.code(), 10);
    assert_eq!(SaviaError::Unauthorized.code(), 11);
    assert_eq!(SaviaError::CampaignInactive.code(), 12);
    assert_eq!(SaviaError::InvalidInput.code(), 13);
    assert_eq!(SaviaError::AlreadyInitialized.code(), 14);
}

#[test]
fn addresses_compare_by_their_text() {
    let a = Address::from_str("GAAA");
    let b = Address::from_string(String::from("GAAA"));
    let c = Address::from_str("GAAB");
    assert!(a.same(&b));
    assert!(!a.same(&c));
    assert_eq!(a.as_str(), "GAAA");
    assert_eq!(a.clone(), a);
}
