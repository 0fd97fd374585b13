//! Reward badges: the tier is a function of the net amount donated.

use vstd::prelude::*;

verus! {

/// The name of the badge earned by a donation of `amount`.
pub open spec fn badge_name(amount: u64) -> Seq<char> {
    if amount < 1000 {
        "Bronze Supporter"@
    } else if amount < 5000 {
        "Silver Supporter"@
    } else if amount < 10000 {
        "Gold Supporter"@
    } else if amount < 50000 {
        "Platinum Supporter"@
    } else {
        "Diamond Supporter"@
    }
}

/// Where the metadata of every badge is published.
pub open spec fn metadata_uri() -> Seq<char> {
    "https://savia.org/nft/metadata"@
}

/// The name of the badge earned by a donation of `amount`.
pub fn get_badge_type(amount: u64) -> (name: String)
    ensures
        name@ == badge_name(amount),
{
    if amount < 1000 {
        "Bronze Supporter".to_owned()
    } else if amount < 5000 {
        "Silver Supporter".to_owned()
    } else if amount < 10000 {
        "Gold Supporter".to_owned()
    } else if amount < 50000 {
        "Platinum Supporter".to_owned()
    } else {
        "Diamond Supporter".to_owned()
    }
}

/// The metadata address written into every badge.
pub fn badge_metadata_uri() -> (uri: String)
    ensures
        uri@ == metadata_uri(),
{
    "https://savia.org/nft/metadata".to_owned()
}

} // verus!
