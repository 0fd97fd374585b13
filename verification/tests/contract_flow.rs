use savia::{Address, DisbursementStatus, SaviaContract};
use soroban_sdk::testutils::Address as _;
use soroban_sdk::Env;

fn generate(env: &Env) -> Address {
    Address::from_string(soroban_sdk::Address::generate(env).to_string().to_string())
}

fn text(s: &str) -> String {
    String::from(s)
}

fn create_test_campaign(
    contract: &mut SaviaContract,
    beneficiary: &Address,
    goal_amount: u64,
    duration_days: u64,
    now: u64,
) -> Result<savia::Id, savia::SaviaError> {
    contract.create_campaign(
        beneficiary,
        beneficiary.clone(),
        text("Test Campaign"),
        text("A test campaign for testing"),
        goal_amount,
        duration_days,
        text("Health"),
        text("Test City"),
        now,
    )
}

#[test]
fn test_initialize_contract() {
    let env = Env::default();
    let mut contract = SaviaContract::new();
    let admin = generate(&env);

    let result = contract.initialize(&admin, admin.clone(), 200);
    assert!(result.is_ok());
}

#[test]
fn test_create_campaign() {
    let env = Env::default();
    let mut contract = SaviaContract::new();
    let admin = generate(&env);
    let beneficiary = generate(&env);
    let now = env.ledger().timestamp();

    contract.initialize(&admin, admin.clone(), 200).unwrap();

    let result = create_test_campaign(&mut contract, &beneficiary, 10000, 30, now);

    assert!(result.is_ok());
    let campaign_id = result.unwrap();
    let campaign = contract.get_campaign(&campaign_id);
    assert!(campaign.is_some());
    assert_eq!(campaign.unwrap().goal_amount, 10000);
}

#[test]
fn test_donation_flow() {
    let env = Env::default();
    let mut contract = SaviaContract::new();
    let admin = generate(&env);
    let beneficiary = generate(&env);
    let donor = generate(&env);
    let now = env.ledger().timestamp();

    contract.initialize(&admin, admin.clone(), 200).unwrap();

    let campaign_id = create_test_campaign(&mut contract, &beneficiary, 10000, 30, now).unwrap();

    let donation_id = contract
        .donate(&donor, campaign_id, donor.clone(), 1000, false, true, now)
        .unwrap();

    let donation = contract.get_donation(&donation_id);
    assert!(donation.is_some());
    assert_eq!(donation.unwrap().amount, 980);

    let campaign = contract.get_campaign(&campaign_id).unwrap();
    assert_eq!(campaign.current_amount, 980);

    let stats = contract.get_stats();
    assert_eq!(stats.total_donations, 1);
    assert_eq!(stats.total_raised, 980);
}

#[test]
fn test_trust_score_updates() {
    let env = Env::default();
    let mut contract = SaviaContract::new();
    let admin = generate(&env);
    let beneficiary = generate(&env);
    let donor = generate(&env);
    let now = env.ledger().timestamp();

    contract.initialize(&admin, admin.clone(), 200).unwrap();

    let campaign_id = create_test_campaign(&mut contract, &beneficiary, 10000, 30, now).unwrap();

    contract
        .donate(&donor, campaign_id, donor.clone(), 1000, false, false, now)
        .unwrap();

    let donor_score = contract.get_trust_score(&donor);
    let beneficiary_score = contract.get_trust_score(&beneficiary);

    assert!(donor_score.is_some());
    assert!(beneficiary_score.is_some());

    assert_eq!(donor_score.unwrap().donation_count, 1);
    assert_eq!(beneficiary_score.unwrap().campaigns_created, 1);
}

#[test]
fn test_disbursement_flow() {
    let env = Env::default();
    let mut contract = SaviaContract::new();
    let admin = generate(&env);
    let beneficiary = generate(&env);
    let donor = generate(&env);
    let recipient = generate(&env);
    let now = env.ledger().timestamp();

    contract.initialize(&admin, admin.clone(), 200).unwrap();

    let campaign_id = create_test_campaign(&mut contract, &beneficiary, 10000, 30, now).unwrap();

    contract
        .donate(&donor, campaign_id, donor.clone(), 5000, false, false, now)
        .unwrap();

    let disbursement_id = contract
        .create_disbursement(
            &beneficiary,
            campaign_id,
            recipient.clone(),
            2000,
            text("Equipment purchase"),
            now,
        )
        .unwrap();

    contract.approve_disbursement(&admin, &disbursement_id).unwrap();

    contract
        .execute_disbursement(&recipient, &disbursement_id, now)
        .unwrap();

    let disbursement = contract.get_disbursement(&disbursement_id).unwrap();
    assert_eq!(disbursement.status, DisbursementStatus::Executed);
    assert!(disbursement.executed_at.is_some());
}

#[test]
fn test_nft_minting() {
    let env = Env::default();
    let mut contract = SaviaContract::new();
    let admin = generate(&env);
    let beneficiary = generate(&env);
    let donor = generate(&env);
    let now = env.ledger().timestamp();

    contract.initialize(&admin, admin.clone(), 200).unwrap();

    let campaign_id = create_test_campaign(&mut contract, &beneficiary, 10000, 30, now).unwrap();

    contract
        .donate(&donor, campaign_id, donor.clone(), 3000, false, true, now)
        .unwrap();

    let stats = contract.get_stats();
    assert_eq!(stats.total_nfts, 1);
}

#[test]
fn test_campaign_verification() {
    let env = Env::default();
    let mut contract = SaviaContract::new();
    let admin = generate(&env);
    let beneficiary = generate(&env);
    let now = env.ledger().timestamp();

    contract.initialize(&admin, admin.clone(), 200).unwrap();

    let campaign_id = create_test_campaign(&mut contract, &beneficiary, 10000, 30, now).unwrap();

    contract.verify_campaign(&admin, &campaign_id, 85).unwrap();

    let campaign = contract.get_campaign(&campaign_id).unwrap();
    assert!(campaign.verified);
    assert_eq!(campaign.trust_score, 85);
}

#[test]
fn test_campaign_closure() {
    let env = Env::default();
    let mut contract = SaviaContract::new();
    let admin = generate(&env);
    let beneficiary = generate(&env);
    let now = env.ledger().timestamp();

    contract.initialize(&admin, admin.clone(), 200).unwrap();

    let campaign_id = create_test_campaign(&mut contract, &beneficiary, 10000, 30, now).unwrap();

    contract.close_campaign(&beneficiary, &campaign_id).unwrap();

    let campaign = contract.get_campaign(&campaign_id).unwrap();
    assert!(!campaign.active);
}

#[test]
fn test_error_handling() {
    let env = Env::default();
    let mut contract = SaviaContract::new();
    let admin = generate(&env);
    let beneficiary = generate(&env);
    let now = env.ledger().timestamp();

    contract.initialize(&admin, admin.clone(), 200).unwrap();

    let result = create_test_campaign(&mut contract, &beneficiary, 0, 30, now);
    assert!(result.is_err());

    let result = create_test_campaign(&mut contract, &beneficiary, 10000, 0, now);
    assert!(result.is_err());
}
