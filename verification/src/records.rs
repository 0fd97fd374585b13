//! The ledger's records and the mathematical view of each.

use vstd::prelude::*;
use vstd::utf8::encode_utf8;
use crate::ident::Id;

verus! {

/// A principal: the text of its address.
#[derive(Debug, PartialEq, Eq, Hash)]
pub struct Address {
    pub text: String,
}

impl View for Address {
    type V = Seq<char>;

    open spec fn view(&self) -> Seq<char> {
        self.text@
    }
}

impl Clone for Address {
    fn clone(&self) -> (r: Self)
        ensures
            r@ == self@,
    {
        Address { text: self.text.clone() }
    }
}

/// The bytes of an address or of a text as they enter an identifier: its
/// UTF-8 encoding.
pub open spec fn text_bytes(text: Seq<char>) -> Seq<u8> {
    encode_utf8(text)
}

impl Address {
    /// The principal whose address is written `text`.
    pub fn from_str(text: &str) -> (a: Address)
        ensures
            a@ == text@,
    {
        Address { text: text.to_owned() }
    }

    /// The principal whose address is written `text`.
    pub fn from_string(text: String) -> (a: Address)
        ensures
            a@ == text@,
    {
        Address { text }
    }

    /// The address as text.
    pub fn as_str(&self) -> (s: &str)
        ensures
            s@ == self@,
    {
        self.text.as_str()
    }

    /// Whether two addresses name the same principal.
    pub fn same(&self, other: &Address) -> (b: bool)
        ensures
            b == (self@ == other@),
    {
        self.text == other.text
    }
}

/// Where a disbursement stands in its approval workflow.
#[derive(Clone, Copy, Debug, PartialEq, Eq, Structural)]
pub enum DisbursementStatus {
    Pending,
    Approved,
    Executed,
    Rejected,
}

/// A fundraising campaign.
#[derive(Debug)]
pub struct Campaign {
    pub id: Id,
    pub title: String,
    pub description: String,
    pub beneficiary: Address,
    pub goal_amount: u64,
    pub current_amount: u64,
    pub start_time: u64,
    pub end_time: u64,
    pub verified: bool,
    pub trust_score: u32,
    pub category: String,
    pub location: String,
    pub active: bool,
}

/// The view of a [`Campaign`].
pub struct CampaignView {
    pub id: Seq<u8>,
    pub title: Seq<char>,
    pub description: Seq<char>,
    pub beneficiary: Seq<char>,
    pub goal_amount: u64,
    pub current_amount: u64,
    pub start_time: u64,
    pub end_time: u64,
    pub verified: bool,
    pub trust_score: u32,
    pub category: Seq<char>,
    pub location: Seq<char>,
    pub active: bool,
}

impl View for Campaign {
    type V = CampaignView;

    open spec fn view(&self) -> CampaignView {
        CampaignView {
            id: self.id@,
            title: self.title@,
            description: self.description@,
            beneficiary: self.beneficiary@,
            goal_amount: self.goal_amount,
            current_amount: self.current_amount,
            start_time: self.start_time,
            end_time: self.end_time,
            verified: self.verified,
            trust_score: self.trust_score,
            category: self.category@,
            location: self.location@,
            active: self.active,
        }
    }
}

impl Clone for Campaign {
    fn clone(&self) -> (r: Self)
        ensures
            r@ == self@,
    {
        Campaign {
            id: self.id,
            title: self.title.clone(),
            description: self.description.clone(),
            beneficiary: self.beneficiary.clone(),
            goal_amount: self.goal_amount,
            current_amount: self.current_amount,
            start_time: self.start_time,
            end_time: self.end_time,
            verified: self.verified,
            trust_score: self.trust_score,
            category: self.category.clone(),
            location: self.location.clone(),
            active: self.active,
        }
    }
}

/// A donation, as recorded: `amount` is what is left of the gross amount
/// after the platform fee.
#[derive(Debug)]
pub struct Donation {
    pub id: Id,
    pub campaign_id: Id,
    pub donor: Address,
    pub amount: u64,
    pub timestamp: u64,
    pub nft_minted: bool,
    pub anonymous: bool,
}

/// The view of a [`Donation`].
pub struct DonationView {
    pub id: Seq<u8>,
    pub campaign_id: Seq<u8>,
    pub donor: Seq<char>,
    pub amount: u64,
    pub timestamp: u64,
    pub nft_minted: bool,
    pub anonymous: bool,
}

impl View for Donation {
    type V = DonationView;

    open spec fn view(&self) -> DonationView {
        DonationView {
            id: self.id@,
            campaign_id: self.campaign_id@,
            donor: self.donor@,
            amount: self.amount,
            timestamp: self.timestamp,
            nft_minted: self.nft_minted,
            anonymous: self.anonymous,
        }
    }
}

impl Clone for Donation {
    fn clone(&self) -> (r: Self)
        ensures
            r@ == self@,
    {
        Donation {
            id: self.id,
            campaign_id: self.campaign_id,
            donor: self.donor.clone(),
            amount: self.amount,
            timestamp: self.timestamp,
            nft_minted: self.nft_minted,
            anonymous: self.anonymous,
        }
    }
}

/// The reputation record of one principal.
#[derive(Debug)]
pub struct TrustScore {
    pub entity: Address,
    pub score: u32,
    pub verification_level: u32,
    pub donation_count: u32,
    pub total_donated: u64,
    pub campaigns_created: u32,
    pub last_updated: u64,
}

/// The view of a [`TrustScore`].
pub struct TrustScoreView {
    pub entity: Seq<char>,
    pub score: u32,
    pub verification_level: u32,
    pub donation_count: u32,
    pub total_donated: u64,
    pub campaigns_created: u32,
    pub last_updated: u64,
}

impl View for TrustScore {
    type V = TrustScoreView;

    open spec fn view(&self) -> TrustScoreView {
        TrustScoreView {
            entity: self.entity@,
            score: self.score,
            verification_level: self.verification_level,
            donation_count: self.donation_count,
            total_donated: self.total_donated,
            campaigns_created: self.campaigns_created,
            last_updated: self.last_updated,
        }
    }
}

impl Clone for TrustScore {
    fn clone(&self) -> (r: Self)
        ensures
            r@ == self@,
    {
        TrustScore {
            entity: self.entity.clone(),
            score: self.score,
            verification_level: self.verification_level,
            donation_count: self.donation_count,
            total_donated: self.total_donated,
            campaigns_created: self.campaigns_created,
            last_updated: self.last_updated,
        }
    }
}

/// A reward badge minted for a donation.
#[derive(Debug)]
pub struct NFTBadge {
    pub id: Id,
    pub owner: Address,
    pub badge_type: String,
    pub campaign_id: Option<Id>,
    pub minted_at: u64,
    pub metadata_uri: String,
}

/// The view of an [`NFTBadge`].
pub struct NFTBadgeView {
    pub id: Seq<u8>,
    pub owner: Seq<char>,
    pub badge_type: Seq<char>,
    pub campaign_id: Option<Seq<u8>>,
    pub minted_at: u64,
    pub metadata_uri: Seq<char>,
}

impl View for NFTBadge {
    type V = NFTBadgeView;

    open spec fn view(&self) -> NFTBadgeView {
        NFTBadgeView {
            id: self.id@,
            owner: self.owner@,
            badge_type: self.badge_type@,
            campaign_id: match self.campaign_id {
                Some(c) => Some(c@),
                None => None,
            },
            minted_at: self.minted_at,
            metadata_uri: self.metadata_uri@,
        }
    }
}

impl Clone for NFTBadge {
    fn clone(&self) -> (r: Self)
        ensures
            r@ == self@,
    {
        NFTBadge {
            id: self.id,
            owner: self.owner.clone(),
            badge_type: self.badge_type.clone(),
            campaign_id: self.campaign_id,
            minted_at: self.minted_at,
            metadata_uri: self.metadata_uri.clone(),
        }
    }
}

/// A request to release campaign funds for a milestone.
#[derive(Debug)]
pub struct Disbursement {
    pub id: Id,
    pub campaign_id: Id,
    pub recipient: Address,
    pub amount: u64,
    pub milestone: String,
    pub status: DisbursementStatus,
    pub created_at: u64,
    pub executed_at: Option<u64>,
}

/// The view of a [`Disbursement`].
pub struct DisbursementView {
    pub id: Seq<u8>,
    pub campaign_id: Seq<u8>,
    pub recipient: Seq<char>,
    pub amount: u64,
    pub milestone: Seq<char>,
    pub status: DisbursementStatus,
    pub created_at: u64,
    pub executed_at: Option<u64>,
}

impl View for Disbursement {
    type V = DisbursementView;

    open spec fn view(&self) -> DisbursementView {
        DisbursementView {
            id: self.id@,
            campaign_id: self.campaign_id@,
            recipient: self.recipient@,
            amount: self.amount,
            milestone: self.milestone@,
            status: self.status,
            created_at: self.created_at,
            executed_at: self.executed_at,
        }
    }
}

impl Clone for Disbursement {
    fn clone(&self) -> (r: Self)
        ensures
            r@ == self@,
    {
        Disbursement {
            id: self.id,
            campaign_id: self.campaign_id,
            recipient: self.recipient.clone(),
            amount: self.amount,
            milestone: self.milestone.clone(),
            status: self.status,
            created_at: self.created_at,
            executed_at: self.executed_at,
        }
    }
}

/// Running platform-wide totals.
#[derive(Clone, Copy, Debug, PartialEq, Eq, Structural)]
pub struct PlatformStats {
    pub total_campaigns: u64,
    pub total_donations: u64,
    pub total_raised: u64,
    pub total_nfts: u64,
    pub active_campaigns: u64,
}

/// The key of a slot of the ledger: one variant for each kind of record and
/// for each singleton value.
#[derive(Debug)]
pub enum DataKey {
    Campaign(Id),
    Donation(Id),
    TrustScore(Address),
    NFTBadge(Id),
    Disbursement(Id),
    PlatformFee,
    Admin,
    CampaignCounter,
    DonationCounter,
    NFTCounter,
    DisbursementCounter,
    Stats,
    CampaignsByBeneficiary(Address),
    DonationsByCampaign(Id),
}

/// The view of a [`DataKey`].
pub enum DataKeyView {
    Campaign(Seq<u8>),
    Donation(Seq<u8>),
    TrustScore(Seq<char>),
    NFTBadge(Seq<u8>),
    Disbursement(Seq<u8>),
    PlatformFee,
    Admin,
    CampaignCounter,
    DonationCounter,
    NFTCounter,
    DisbursementCounter,
    Stats,
    CampaignsByBeneficiary(Seq<char>),
    DonationsByCampaign(Seq<u8>),
}

impl View for DataKey {
    type V = DataKeyView;

    open spec fn view(&self) -> DataKeyView {
        match self {
            DataKey::Campaign(id) => DataKeyView::Campaign(id@),
            DataKey::Donation(id) => DataKeyView::Donation(id@),
            DataKey::TrustScore(entity) => DataKeyView::TrustScore(entity@),
            DataKey::NFTBadge(id) => DataKeyView::NFTBadge(id@),
            DataKey::Disbursement(id) => DataKeyView::Disbursement(id@),
            DataKey::PlatformFee => DataKeyView::PlatformFee,
            DataKey::Admin => DataKeyView::Admin,
            DataKey::CampaignCounter => DataKeyView::CampaignCounter,
            DataKey::DonationCounter => DataKeyView::DonationCounter,
            DataKey::NFTCounter => DataKeyView::NFTCounter,
            DataKey::DisbursementCounter => DataKeyView::DisbursementCounter,
            DataKey::Stats => DataKeyView::Stats,
            DataKey::CampaignsByBeneficiary(entity) => DataKeyView::CampaignsByBeneficiary(
                entity@,
            ),
            DataKey::DonationsByCampaign(id) => DataKeyView::DonationsByCampaign(id@),
        }
    }
}

} // verus!
