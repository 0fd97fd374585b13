use savia::encoding::u64_to_be_bytes;
use savia::ident::{
    campaign_id, disbursement_id, donation_id, generate_id, nft_id, try_generate_id,
};
use savia::{Address, Id};

fn hex(id: &Id) -> String {
    let mut out = String::new();
    for b in id.to_array().iter() {
        out.push_str(&format!("{:02x}", b));
    }
    out
}

#[test]
fn digest_of_abc_is_the_known_sha256_value() {
    let input: [&[u8]; 1] = [b"abc"];
    let id = generate_id(&input);
    assert_eq!(
        hex(&id),
        "ba7816bf8f01cfea414140de5dae2223b00361a396177a9cb410ff61f20015ad"
    );
}

#[test]
fn digest_of_nothing_is_the_known_sha256_value() {
    let input: [&[u8]; 0] = [];
    let id = generate_id(&input);
    assert_eq!(
        hex(&id),
        "e3b0c44298fc1c149afbf4c8996fb92427ae41e4649b934ca495991b7852b855"
    );
}

#[test]
fn parts_are_hashed_as_their_concatenation() {
    let split: [&[u8]; 3] = [b"a", b"", b"bc"];
    let whole: [&[u8]; 1] = [b"abc"];
    assert_eq!(generate_id(&split), generate_id(&whole));
}

#[test]
fn order_of_parts_matters() {
    let one: [&[u8]; 2] = [b"ab", b"cd"];
    let other: [&[u8]; 2] = [b"cd", b"ab"];
    assert_ne!(generate_id(&one), generate_id(&other));
}

#[test]
fn big_endian_bytes_of_numbers() {
    assert_eq!(u64_to_be_bytes(0), [0u8; 8]);
    assert_eq!(u64_to_be_bytes(1), [0, 0, 0, 0, 0, 0, 0, 1]);
    assert_eq!(
        u64_to_be_bytes(0x0102_0304_0506_0708),
        [1, 2, 3, 4, 5, 6, 7, 8]
    );
    assert_eq!(u64_to_be_bytes(u64::MAX), [0xff; 8]);
    assert_eq!(u64_to_be_bytes(10000), 10000u64.to_be_bytes());
}

#[test]
fn campaign_identifier_hashes_fields_in_documented_order() {
    let beneficiary = Address::from_str("GBENEFICIARY");
    let id = campaign_id(&beneficiary, "Test Campaign", 10000, 7, 1);
    let goal = 10000u64.to_be_bytes();
    let now = 7u64.to_be_bytes();
    let counter = 1u64.to_be_bytes();
    let parts: [&[u8]; 5] = [b"GBENEFICIARY", b"Test Campaign", &goal, &now, &counter];
    assert_eq!(id, generate_id(&parts));
}

#[test]
fn donation_identifier_hashes_fields_in_documented_order() {
    let campaign = Id::from_array([7u8; 32]);
    let donor = Address::from_str("GDONOR");
    let id = donation_id(&campaign, &donor, 1000, 5, 3);
    let amount = 1000u64.to_be_bytes();
    let now = 5u64.to_be_bytes();
    let counter = 3u64.to_be_bytes();
    let parts: [&[u8]; 5] = [&[7u8; 32], b"GDONOR", &amount, &now, &counter];
    assert_eq!(id, generate_id(&parts));
}

#[test]
fn badge_identifier_hashes_fields_in_documented_order() {
    let campaign = Id::from_array([7u8; 32]);
    let donation = Id::from_array([9u8; 32]);
    let owner = Address::from_str("GDONOR");
    let id = nft_id(&owner, &campaign, &donation, 980, 2);
    let amount = 980u64.to_be_bytes();
    let counter = 2u64.to_be_bytes();
    let parts: [&[u8]; 5] = [b"GDONOR", &[7u8; 32], &[9u8; 32], &amount, &counter];
    assert_eq!(id, generate_id(&parts));
}

#[test]
fn disbursement_identifier_hashes_fields_in_documented_order() {
    let campaign = Id::from_array([7u8; 32]);
    let recipient = Address::from_str("GRECIPIENT");
    let id = disbursement_id(&campaign, &recipient, 2000, "Equipment purchase", 1);
    let amount = 2000u64.to_be_bytes();
    let counter = 1u64.to_be_bytes();
    let parts: [&[u8]; 5] = [
        &[7u8; 32],
        b"GRECIPIENT",
        &amount,
        b"Equipment purchase",
        &counter,
    ];
    assert_eq!(id, generate_id(&parts));
}

#[test]
fn same_inputs_give_the_same_identifier() {
    let donor = Address::from_str("GDONOR");
    let campaign = Id::from_array([1u8; 32]);
    let first = donation_id(&campaign, &donor, 1000, 5, 3);
    let second = donation_id(&campaign, &donor, 1000, 5, 3);
    assert_eq!(first, second);
}

#[test]
fn a_different_counter_gives_a_different_identifier() {
    let donor = Address::from_str("GDONOR");
    let campaign = Id::from_array([1u8; 32]);
    let first = donation_id(&campaign, &donor, 1000, 5, 3);
    let second = donation_id(&campaign, &donor, 1000, 5, 4);
    assert_ne!(first, second);
}

#[test]
fn identifiers_compare_by_their_bytes() {
    let a = Id::from_array([3u8; 32]);
    let b = Id::from_array([3u8; 32]);
    let mut other = [3u8; 32];
    other[31] = 4;
    let c = Id::from_array(other);
    assert!(a.same(&b));
    assert!(!a.same(&c));
    assert_eq!(a.to_array(), [3u8; 32]);
}

#[test]
fn try_generate_id_agrees_with_generate_id() {
    let parts: [&[u8]; 3] = [b"a", b"", b"bc"];
    assert_eq!(try_generate_id(&parts), Some(generate_id(&parts)));
    let none: [&[u8]; 0] = [];
    assert_eq!(try_generate_id(&none), Some(generate_id(&none)));
}
