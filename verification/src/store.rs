//! The ledger's tables: vectors of records, searched by key.

use vstd::prelude::*;
use crate::ident::Id;
use crate::records::{
    Address,
    Campaign,
    CampaignView,
    Disbursement,
    DisbursementView,
    Donation,
    DonationView,
    NFTBadge,
    NFTBadgeView,
    TrustScore,
    TrustScoreView,
};
use crate::table::{
    distinct_keys,
    lemma_found_in_place_distinct,
    lemma_lookup_at,
    lemma_lookup_distinct,
    lemma_lookup_none,
    lookup,
    upsert,
    views_of,
};

verus! {

/// A record that stands in a table under a key.
pub trait Row: View + Sized {
    /// What the record is found by.
    type Key: View;

    /// The key under which a record with view `v` stands.
    spec fn key_of(v: Self::V) -> <Self::Key as View>::V;

    /// The record's key.
    fn key(&self) -> (k: &Self::Key)
        ensures
            k@ == Self::key_of(self@),
    ;

    /// Whether the record stands under key `k`.
    fn has_key(&self, k: &Self::Key) -> (b: bool)
        ensures
            b == (Self::key_of(self@) == k@),
    ;
}

/// The function that gives each row of a table its key.
pub open spec fn row_key<R: Row>() -> spec_fn(R::V) -> <R::Key as View>::V {
    |v: R::V| R::key_of(v)
}

impl Row for Campaign {
    type Key = Id;

    open spec fn key_of(v: CampaignView) -> Seq<u8> {
        v.id
    }

    fn key(&self) -> (k: &Id) {
        &self.id
    }

    fn has_key(&self, k: &Id) -> (b: bool) {
        self.id.same(k)
    }
}

impl Row for Donation {
    type Key = Id;

    open spec fn key_of(v: DonationView) -> Seq<u8> {
        v.id
    }

    fn key(&self) -> (k: &Id) {
        &self.id
    }

    fn has_key(&self, k: &Id) -> (b: bool) {
        self.id.same(k)
    }
}

impl Row for NFTBadge {
    type Key = Id;

    open spec fn key_of(v: NFTBadgeView) -> Seq<u8> {
        v.id
    }

    fn key(&self) -> (k: &Id) {
        &self.id
    }

    fn has_key(&self, k: &Id) -> (b: bool) {
        self.id.same(k)
    }
}

impl Row for Disbursement {
    type Key = Id;

    open spec fn key_of(v: DisbursementView) -> Seq<u8> {
        v.id
    }

    fn key(&self) -> (k: &Id) {
        &self.id
    }

    fn has_key(&self, k: &Id) -> (b: bool) {
        self.id.same(k)
    }
}

impl Row for TrustScore {
    type Key = Address;

    open spec fn key_of(v: TrustScoreView) -> Seq<char> {
        v.entity
    }

    fn key(&self) -> (k: &Address) {
        &self.entity
    }

    fn has_key(&self, k: &Address) -> (b: bool) {
        self.entity.same(k)
    }
}

/// Finds the row that stands under key `k`.
pub fn find<R: Row>(rows: &Vec<R>, k: &R::Key) -> (found: Option<usize>)
    ensures
        match found {
            Some(i) => i < rows.len() && lookup(views_of(rows@), row_key::<R>(), k@) == Some(
                i as int,
            ),
            None => lookup(views_of(rows@), row_key::<R>(), k@) is None,
        },
{
    let ghost key = row_key::<R>();
    let mut i: usize = 0;
    while i < rows.len()
        invariant
            i <= rows.len(),
            key == row_key::<R>(),
            forall|j: int| 0 <= j < i ==> key(#[trigger] views_of(rows@)[j]) != k@,
        decreases rows.len() - i,
    {
        if rows[i].has_key(k) {
            proof {
                lemma_lookup_at(views_of(rows@), key, k@, i as int);
            }
            return Some(i);
        }
        i = i + 1;
    }
    proof {
        lemma_lookup_none(views_of(rows@), key, k@);
    }
    None
}

/// Writes `row` under its key: over the row that stands there, or at the
/// end.
pub fn put<R: Row>(rows: &mut Vec<R>, row: R)
    ensures
        views_of(final(rows)@) == upsert(views_of(old(rows)@), row_key::<R>(), row@),
{
    let ghost before = views_of(rows@);
    let ghost written = row@;
    match find(rows, row.key()) {
        Some(i) => {
            rows.set(i, row);
            assert(views_of(rows@) =~= before.update(i as int, written));
        },
        None => {
            rows.push(row);
            assert(views_of(rows@) =~= before.push(written));
        },
    }
}

/// Whether no two rows stand under one key.
pub fn distinct<R: Row>(rows: &Vec<R>) -> (ok: bool)
    ensures
        ok == distinct_keys(views_of(rows@), row_key::<R>()),
{
    let ghost key = row_key::<R>();
    let mut i: usize = 0;
    while i < rows.len()
        invariant
            i <= rows.len(),
            key == row_key::<R>(),
            forall|j: int|
                0 <= j < i ==> lookup(views_of(rows@), key, key(#[trigger] views_of(rows@)[j]))
                    == Some(j),
        decreases rows.len() - i,
    {
        let found = find(rows, rows[i].key());
        if found != Some(i) {
            proof {
                if distinct_keys(views_of(rows@), key) {
                    lemma_lookup_distinct(views_of(rows@), key, i as int);
                }
            }
            return false;
        }
        i = i + 1;
    }
    proof {
        lemma_found_in_place_distinct(views_of(rows@), key);
    }
    true
}

} // verus!
