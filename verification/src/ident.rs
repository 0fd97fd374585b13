//! Identifier derivation: a 32-byte id is the SHA-256 digest of the
//! concatenation of the caller's byte sequences, in the caller's order.

use vstd::prelude::*;
use crate::encoding::{
    append_bytes,
    be_bytes,
    concat,
    lemma_be_bytes_injective,
    lemma_be_bytes_roundtrip,
    lemma_concat_prefix_len,
    lemma_concat_push,
    u64_to_be_bytes,
};
use crate::records::{text_bytes, Address};

verus! {

/// A 32-byte identifier.
#[derive(Clone, Copy, Debug, PartialEq, Eq, Hash)]
pub struct Id {
    pub bytes: [u8; 32],
}

impl View for Id {
    type V = Seq<u8>;

    open spec fn view(&self) -> Seq<u8> {
        self.bytes@
    }
}

impl Id {
    /// Wraps thirty-two bytes as an identifier.
    pub fn from_array(bytes: [u8; 32]) -> (id: Id)
        ensures
            id.bytes == bytes,
            id@ == bytes@,
    {
        Id { bytes }
    }

    /// The identifier's bytes.
    pub fn to_array(&self) -> (bytes: [u8; 32])
        ensures
            bytes == self.bytes,
    {
        self.bytes
    }

    /// Whether two identifiers hold the same bytes.
    pub fn same(&self, other: &Id) -> (b: bool)
        ensures
            b == (self@ == other@),
            b == (*self == *other),
    {
        let mut i: usize = 0;
        while i < 32
            invariant
                i <= 32,
                forall|j: int| 0 <= j < i ==> self.bytes[j] == other.bytes[j],
            decreases 32 - i,
        {
            if self.bytes[i] != other.bytes[i] {
                assert(self@[i as int] != other@[i as int]);
                return false;
            }
            i = i + 1;
        }
        assert(self.bytes =~= other.bytes);
        true
    }
}

/// The SHA-256 digest of `data`.
pub uninterp spec fn sha256_digest(data: Seq<u8>) -> Seq<u8>;

/// Calls `soroban_sdk::crypto::Crypto::sha256`, on a host of its own whose
/// budget is set to unlimited, so that no input runs out of budget. Trusted:
/// the result is the SHA-256 digest of `data`, a function of `data` alone.
/// The host holds byte strings of at most `u32::MAX` bytes and fails on a
/// longer one, which the precondition leaves out.
#[verifier::external_body]
fn sha256(data: &Vec<u8>) -> (digest: [u8; 32])
    requires
        data@.len() <= u32::MAX,
    ensures
        digest@ == sha256_digest(data@),
{
    let env = soroban_sdk::Env::default();
    env.cost_estimate().budget().reset_unlimited();
    let input = soroban_sdk::Bytes::from_slice(&env, data.as_slice());
    env.crypto().sha256(&input).to_array()
}

/// The views of a list of byte slices.
pub open spec fn views(inputs: Seq<&[u8]>) -> Seq<Seq<u8>> {
    inputs.map_values(|s: &[u8]| s@)
}

/// Derives an identifier from `inputs`: the digest of their concatenation, in
/// the order given.
pub fn generate_id(inputs: &[&[u8]]) -> (id: Id)
    requires
        concat(views(inputs@)).len() <= u32::MAX,
    ensures
        id@ == sha256_digest(concat(views(inputs@))),
{
    let mut data: Vec<u8> = Vec::new();
    let n: usize = inputs.len();
    let mut i: usize = 0;
    while i < n
        invariant
            n == inputs@.len(),
            i <= n,
            data@ == concat(views(inputs@).subrange(0, i as int)),
        decreases n - i,
    {
        let part: &[u8] = inputs[i];
        append_bytes(&mut data, part);
        proof {
            let done = views(inputs@).subrange(0, i as int);
            lemma_concat_push(done, part@);
            assert(done.push(part@) =~= views(inputs@).subrange(0, i + 1));
        }
        i = i + 1;
    }
    assert(views(inputs@).subrange(0, n as int) =~= views(inputs@));
    Id { bytes: sha256(&data) }
}

/// Derives an identifier from `inputs`, whatever their length: the hash
/// takes at most `u32::MAX` bytes, and where `inputs` hold more together
/// there is no identifier.
pub fn try_generate_id(inputs: &[&[u8]]) -> (r: Option<Id>)
    ensures
        match r {
            Some(id) => concat(views(inputs@)).len() <= u32::MAX && id@ == sha256_digest(
                concat(views(inputs@)),
            ),
            None => concat(views(inputs@)).len() > u32::MAX,
        },
{
    let n: usize = inputs.len();
    let mut total: u64 = 0;
    let mut i: usize = 0;
    while i < n
        invariant
            n == inputs@.len(),
            i <= n,
            total == concat(views(inputs@).subrange(0, i as int)).len(),
            total <= u32::MAX,
        decreases n - i,
    {
        let part: &[u8] = inputs[i];
        proof {
            let done = views(inputs@).subrange(0, i as int);
            lemma_concat_push(done, part@);
            assert(done.push(part@) =~= views(inputs@).subrange(0, i + 1));
            lemma_concat_prefix_len(views(inputs@), i + 1);
        }
        if part.len() as u64 > 0xffff_ffff - total {
            return None;
        }
        total = total + part.len() as u64;
        i = i + 1;
    }
    assert(views(inputs@).subrange(0, n as int) =~= views(inputs@));
    Some(generate_id(inputs))
}

/// What is hashed into a campaign's identifier, in this order: the
/// beneficiary's address, the title, the goal, the time of creation and the
/// campaign counter; texts in UTF-8, numbers as eight big-endian bytes.
pub open spec fn campaign_preimage(
    beneficiary: Seq<char>,
    title: Seq<char>,
    goal_amount: u64,
    now: u64,
    counter: u64,
) -> Seq<u8> {
    text_bytes(beneficiary) + text_bytes(title) + be_bytes(goal_amount) + be_bytes(now)
        + be_bytes(counter)
}

/// What is hashed into a donation's identifier, in this order: the campaign's
/// identifier, the donor's address, the gross amount, the time of the donation
/// and the donation counter.
pub open spec fn donation_preimage(
    campaign_id: Seq<u8>,
    donor: Seq<char>,
    amount: u64,
    now: u64,
    counter: u64,
) -> Seq<u8> {
    campaign_id + text_bytes(donor) + be_bytes(amount) + be_bytes(now) + be_bytes(counter)
}

/// What is hashed into a badge's identifier, in this order: the owner's
/// address, the campaign's identifier, the donation's identifier, the net
/// amount and the badge counter.
pub open spec fn nft_preimage(
    owner: Seq<char>,
    campaign_id: Seq<u8>,
    donation_id: Seq<u8>,
    amount: u64,
    counter: u64,
) -> Seq<u8> {
    text_bytes(owner) + campaign_id + donation_id + be_bytes(amount) + be_bytes(counter)
}

/// What is hashed into a disbursement's identifier, in this order: the
/// campaign's identifier, the recipient's address, the amount, the milestone
/// and the disbursement counter.
pub open spec fn disbursement_preimage(
    campaign_id: Seq<u8>,
    recipient: Seq<char>,
    amount: u64,
    milestone: Seq<char>,
    counter: u64,
) -> Seq<u8> {
    campaign_id + text_bytes(recipient) + be_bytes(amount) + text_bytes(milestone) + be_bytes(
        counter,
    )
}

/// The identifier of the campaign with these fields.
pub open spec fn campaign_id_of(
    beneficiary: Seq<char>,
    title: Seq<char>,
    goal_amount: u64,
    now: u64,
    counter: u64,
) -> Seq<u8> {
    sha256_digest(campaign_preimage(beneficiary, title, goal_amount, now, counter))
}

/// The identifier of the donation with these fields.
pub open spec fn donation_id_of(
    campaign_id: Seq<u8>,
    donor: Seq<char>,
    amount: u64,
    now: u64,
    counter: u64,
) -> Seq<u8> {
    sha256_digest(donation_preimage(campaign_id, donor, amount, now, counter))
}

/// The identifier of the badge with these fields.
pub open spec fn nft_id_of(
    owner: Seq<char>,
    campaign_id: Seq<u8>,
    donation_id: Seq<u8>,
    amount: u64,
    counter: u64,
) -> Seq<u8> {
    sha256_digest(nft_preimage(owner, campaign_id, donation_id, amount, counter))
}

/// The identifier of the disbursement with these fields.
pub open spec fn disbursement_id_of(
    campaign_id: Seq<u8>,
    recipient: Seq<char>,
    amount: u64,
    milestone: Seq<char>,
    counter: u64,
) -> Seq<u8> {
    sha256_digest(disbursement_preimage(campaign_id, recipient, amount, milestone, counter))
}

/// Two byte strings that end in the encodings of different counters are
/// different.
pub proof fn lemma_counter_separates(front: Seq<u8>, other_front: Seq<u8>, counter: u64, other: u64)
    requires
        counter != other,
    ensures
        front + be_bytes(counter) != other_front + be_bytes(other),
{
    let a = front + be_bytes(counter);
    let b = other_front + be_bytes(other);
    lemma_be_bytes_roundtrip(counter);
    lemma_be_bytes_roundtrip(other);
    if a == b {
        assert(a.len() == b.len());
        assert(a.subrange(front.len() as int, a.len() as int) =~= be_bytes(counter));
        assert(b.subrange(other_front.len() as int, b.len() as int) =~= be_bytes(other));
        lemma_be_bytes_injective(counter, other);
    }
}

/// Derivation is a function of what is hashed: calls with the same fields
/// and the same counter give the same identifier. Calls whose counters
/// differ hash different byte strings, whatever their other fields, so
/// their identifiers differ unless SHA-256 collides on the two.
pub proof fn lemma_counter_separates_preimages(
    text: Seq<char>,
    other_text: Seq<char>,
    more_text: Seq<char>,
    other_more_text: Seq<char>,
    id: Seq<u8>,
    other_id: Seq<u8>,
    second_id: Seq<u8>,
    other_second_id: Seq<u8>,
    amount: u64,
    other_amount: u64,
    now: u64,
    other_now: u64,
    counter: u64,
    other: u64,
)
    ensures
        counter == other ==> campaign_id_of(text, more_text, amount, now, counter)
            == campaign_id_of(text, more_text, amount, now, other),
        counter == other ==> donation_id_of(id, text, amount, now, counter) == donation_id_of(
            id,
            text,
            amount,
            now,
            other,
        ),
        counter == other ==> nft_id_of(text, id, second_id, amount, counter) == nft_id_of(
            text,
            id,
            second_id,
            amount,
            other,
        ),
        counter == other ==> disbursement_id_of(id, text, amount, more_text, counter)
            == disbursement_id_of(id, text, amount, more_text, other),
        counter != other ==> campaign_preimage(text, more_text, amount, now, counter)
            != campaign_preimage(other_text, other_more_text, other_amount, other_now, other),
        counter != other ==> donation_preimage(id, text, amount, now, counter)
            != donation_preimage(other_id, other_text, other_amount, other_now, other),
        counter != other ==> nft_preimage(text, id, second_id, amount, counter) != nft_preimage(
            other_text,
            other_id,
            other_second_id,
            other_amount,
            other,
        ),
        counter != other ==> disbursement_preimage(id, text, amount, more_text, counter)
            != disbursement_preimage(other_id, other_text, other_amount, other_more_text, other),
{
    if counter != other {
        lemma_counter_separates(
            text_bytes(text) + text_bytes(more_text) + be_bytes(amount) + be_bytes(now),
            text_bytes(other_text) + text_bytes(other_more_text) + be_bytes(other_amount)
                + be_bytes(other_now),
            counter,
            other,
        );
        lemma_counter_separates(
            id + text_bytes(text) + be_bytes(amount) + be_bytes(now),
            other_id + text_bytes(other_text) + be_bytes(other_amount) + be_bytes(other_now),
            counter,
            other,
        );
        lemma_counter_separates(
            text_bytes(text) + id + second_id + be_bytes(amount),
            text_bytes(other_text) + other_id + other_second_id + be_bytes(other_amount),
            counter,
            other,
        );
        lemma_counter_separates(
            id + text_bytes(text) + be_bytes(amount) + text_bytes(more_text),
            other_id + text_bytes(other_text) + be_bytes(other_amount) + text_bytes(
                other_more_text,
            ),
            counter,
            other,
        );
    }
}

/// How long each hashed byte string is, for identifiers of thirty-two
/// bytes.
pub proof fn lemma_preimage_lengths(
    text: Seq<char>,
    more_text: Seq<char>,
    id: Seq<u8>,
    second_id: Seq<u8>,
    amount: u64,
    now: u64,
    counter: u64,
)
    requires
        id.len() == 32,
        second_id.len() == 32,
    ensures
        campaign_preimage(text, more_text, amount, now, counter).len() == text_bytes(text).len()
            + text_bytes(more_text).len() + 24,
        donation_preimage(id, text, amount, now, counter).len() == text_bytes(text).len() + 56,
        nft_preimage(text, id, second_id, amount, counter).len() == text_bytes(text).len() + 80,
        disbursement_preimage(id, text, amount, more_text, counter).len() == text_bytes(
            text,
        ).len() + text_bytes(more_text).len() + 48,
{
    lemma_be_bytes_roundtrip(amount);
    lemma_be_bytes_roundtrip(now);
    lemma_be_bytes_roundtrip(counter);
}

/// The concatenation of five parts is their sum.
proof fn lemma_concat_five(parts: Seq<&[u8]>)
    requires
        parts.len() == 5,
    ensures
        concat(views(parts)) == parts[0]@ + parts[1]@ + parts[2]@ + parts[3]@ + parts[4]@,
{
    let v = views(parts);
    let v4 = v.drop_last();
    let v3 = v4.drop_last();
    let v2 = v3.drop_last();
    let v1 = v2.drop_last();
    assert(concat(v1.drop_last()) =~= Seq::<u8>::empty());
    assert(concat(v1) =~= parts[0]@);
    assert(concat(v2) =~= parts[0]@ + parts[1]@);
    assert(concat(v3) =~= parts[0]@ + parts[1]@ + parts[2]@);
    assert(concat(v4) =~= parts[0]@ + parts[1]@ + parts[2]@ + parts[3]@);
}

/// Derives the identifier of a campaign.
pub fn campaign_id(
    beneficiary: &Address,
    title: &str,
    goal_amount: u64,
    now: u64,
    counter: u64,
) -> (id: Id)
    requires
        text_bytes(beneficiary@).len() + text_bytes(title@).len() + 24 <= u32::MAX,
    ensures
        id@ == campaign_id_of(beneficiary@, title@, goal_amount, now, counter),
{
    let goal: [u8; 8] = u64_to_be_bytes(goal_amount);
    let time: [u8; 8] = u64_to_be_bytes(now);
    let count: [u8; 8] = u64_to_be_bytes(counter);
    let inputs: [&[u8]; 5] = [
        beneficiary.as_str().as_bytes(),
        title.as_bytes(),
        goal.as_slice(),
        time.as_slice(),
        count.as_slice(),
    ];
    proof {
        lemma_concat_five(inputs@);
        lemma_preimage_lengths(beneficiary@, title@, Seq::new(32, |i: int| 0u8), Seq::new(32, |i: int| 0u8), goal_amount, now, counter);
    }
    generate_id(inputs.as_slice())
}

/// Derives the identifier of a donation.
pub fn donation_id(
    campaign_id: &Id,
    donor: &Address,
    amount: u64,
    now: u64,
    counter: u64,
) -> (id: Id)
    requires
        text_bytes(donor@).len() + 56 <= u32::MAX,
    ensures
        id@ == donation_id_of(campaign_id@, donor@, amount, now, counter),
{
    let gross: [u8; 8] = u64_to_be_bytes(amount);
    let time: [u8; 8] = u64_to_be_bytes(now);
    let count: [u8; 8] = u64_to_be_bytes(counter);
    let inputs: [&[u8]; 5] = [
        campaign_id.bytes.as_slice(),
        donor.as_str().as_bytes(),
        gross.as_slice(),
        time.as_slice(),
        count.as_slice(),
    ];
    proof {
        lemma_concat_five(inputs@);
        lemma_preimage_lengths(donor@, donor@, campaign_id@, campaign_id@, amount, now, counter);
    }
    generate_id(inputs.as_slice())
}

/// Derives the identifier of a badge.
pub fn nft_id(
    owner: &Address,
    campaign_id: &Id,
    donation_id: &Id,
    amount: u64,
    counter: u64,
) -> (id: Id)
    requires
        text_bytes(owner@).len() + 80 <= u32::MAX,
    ensures
        id@ == nft_id_of(owner@, campaign_id@, donation_id@, amount, counter),
{
    let net: [u8; 8] = u64_to_be_bytes(amount);
    let count: [u8; 8] = u64_to_be_bytes(counter);
    let inputs: [&[u8]; 5] = [
        owner.as_str().as_bytes(),
        campaign_id.bytes.as_slice(),
        donation_id.bytes.as_slice(),
        net.as_slice(),
        count.as_slice(),
    ];
    proof {
        lemma_concat_five(inputs@);
        lemma_preimage_lengths(owner@, owner@, campaign_id@, donation_id@, amount, 0, counter);
    }
    generate_id(inputs.as_slice())
}

/// Derives the identifier of a disbursement.
pub fn disbursement_id(
    campaign_id: &Id,
    recipient: &Address,
    amount: u64,
    milestone: &str,
    counter: u64,
) -> (id: Id)
    requires
        text_bytes(recipient@).len() + text_bytes(milestone@).len() + 48 <= u32::MAX,
    ensures
        id@ == disbursement_id_of(campaign_id@, recipient@, amount, milestone@, counter),
{
    let requested: [u8; 8] = u64_to_be_bytes(amount);
    let count: [u8; 8] = u64_to_be_bytes(counter);
    let inputs: [&[u8]; 5] = [
        campaign_id.bytes.as_slice(),
        recipient.as_str().as_bytes(),
        requested.as_slice(),
        milestone.as_bytes(),
        count.as_slice(),
    ];
    proof {
        lemma_concat_five(inputs@);
        lemma_preimage_lengths(recipient@, milestone@, campaign_id@, campaign_id@, amount, 0, counter);
    }
    generate_id(inputs.as_slice())
}

} // verus!
