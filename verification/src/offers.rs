//! The offer resolver: joins the offers of a fetched storefront section
//! with the catalog cache. An offer whose identifier has no catalog entry
//! is dropped from the outgoing notification and reported, never fatal.

use vstd::prelude::*;

use crate::catalog::SkinCatalog;
use crate::models::{skin_details_eqv, BonusStoreOffer, Offer, SkinData, SkinDetails};

verus! {

/// Content equivalence of two resolved offers: offer and discount agree
/// exactly, the catalog entries agree in content.
pub open spec fn skin_data_eqv(a: SkinData, b: SkinData) -> bool {
    &&& a.offer == b.offer
    &&& a.bonus_offer == b.bonus_offer
    &&& skin_details_eqv(a.detail, b.detail)
}

/// Resolution of a regular section against a catalog: the offers that have
/// a catalog entry, joined with it and in order, and the identifiers of
/// the offers that have none, in order.
pub open spec fn spec_resolve_regular(cat: Map<Seq<char>, SkinDetails>, s: Seq<Offer>) -> (Seq<
    SkinData,
>, Seq<String>)
    decreases s.len(),
{
    if s.len() == 0 {
        (Seq::empty(), Seq::empty())
    } else {
        let (resolved, missing) = spec_resolve_regular(cat, s.drop_last());
        let o = s.last();
        if cat.contains_key(o.offer_id@) {
            (
                resolved.push(SkinData { offer: o, detail: cat[o.offer_id@], bonus_offer: None }),
                missing,
            )
        } else {
            (resolved, missing.push(o.offer_id))
        }
    }
}

/// Resolution of a bonus section against a catalog, keeping each offer's
/// discount record.
pub open spec fn spec_resolve_bonus(cat: Map<Seq<char>, SkinDetails>, s: Seq<BonusStoreOffer>) -> (
    Seq<SkinData>,
    Seq<String>,
)
    decreases s.len(),
{
    if s.len() == 0 {
        (Seq::empty(), Seq::empty())
    } else {
        let (resolved, missing) = spec_resolve_bonus(cat, s.drop_last());
        let b = s.last();
        if cat.contains_key(b.offer.offer_id@) {
            (
                resolved.push(
                    SkinData { offer: b.offer, detail: cat[b.offer.offer_id@], bonus_offer: Some(b) },
                ),
                missing,
            )
        } else {
            (resolved, missing.push(b.offer.offer_id))
        }
    }
}

/// What both resolvers guarantee of their output, up to catalog-entry
/// content: the join of the section with the catalog, plus the dropped
/// identifiers.
pub open spec fn resolution_matches(
    r: (Vec<SkinData>, Vec<String>),
    s: (Seq<SkinData>, Seq<String>),
) -> bool {
    &&& r.0@.len() == s.0.len()
    &&& (forall|i: int| 0 <= i < s.0.len() ==> skin_data_eqv(r.0@[i], s.0[i]))
    &&& r.1@ == s.1
}

/// Joins the regular offers with the catalog. Offers without a catalog
/// entry are dropped and their identifiers returned alongside.
pub fn resolve_regular_offers(offers: &Vec<Offer>, catalog: &SkinCatalog) -> (r: (
    Vec<SkinData>,
    Vec<String>,
))
    requires
        catalog.wf(),
    ensures
        resolution_matches(r, spec_resolve_regular(catalog@, offers@)),
        forall|i: int| 0 <= i < r.0@.len() ==> r.0@[i].detail.levels@.len() > 0,
{
    let mut resolved: Vec<SkinData> = Vec::new();
    let mut missing: Vec<String> = Vec::new();
    let mut i: usize = 0;
    while i < offers.len()
        invariant
            catalog.wf(),
            i <= offers@.len(),
            resolution_matches((resolved, missing), spec_resolve_regular(catalog@, offers@.take(i as int))),
            forall|k: int| 0 <= k < resolved@.len() ==> resolved@[k].detail.levels@.len() > 0,
        decreases offers@.len() - i,
    {
        proof {
            assert(offers@.take(i + 1).drop_last() =~= offers@.take(i as int));
            assert(offers@.take(i + 1).last() == offers@[i as int]);
        }
        match catalog.get(&offers[i].offer_id) {
            Some(detail) => {
                resolved.push(
                    SkinData {
                        offer: offers[i].clone(),
                        detail: detail.clone(),
                        bonus_offer: None,
                    },
                );
            },
            None => {
                missing.push(offers[i].offer_id.clone());
            },
        }
        i = i + 1;
    }
    proof {
        assert(offers@.take(offers@.len() as int) =~= offers@);
    }
    (resolved, missing)
}

/// Joins the bonus offers with the catalog, keeping each offer's discount
/// record. Offers without a catalog entry are dropped and their
/// identifiers returned alongside.
pub fn resolve_bonus_offers(offers: &Vec<BonusStoreOffer>, catalog: &SkinCatalog) -> (r: (
    Vec<SkinData>,
    Vec<String>,
))
    requires
        catalog.wf(),
    ensures
        resolution_matches(r, spec_resolve_bonus(catalog@, offers@)),
        forall|i: int| 0 <= i < r.0@.len() ==> r.0@[i].detail.levels@.len() > 0,
{
    let mut resolved: Vec<SkinData> = Vec::new();
    let mut missing: Vec<String> = Vec::new();
    let mut i: usize = 0;
    while i < offers.len()
        invariant
            catalog.wf(),
            i <= offers@.len(),
            resolution_matches((resolved, missing), spec_resolve_bonus(catalog@, offers@.take(i as int))),
            forall|k: int| 0 <= k < resolved@.len() ==> resolved@[k].detail.levels@.len() > 0,
        decreases offers@.len() - i,
    {
        proof {
            assert(offers@.take(i + 1).drop_last() =~= offers@.take(i as int));
            assert(offers@.take(i + 1).last() == offers@[i as int]);
        }
        match catalog.get(&offers[i].offer.offer_id) {
            Some(detail) => {
                resolved.push(
                    SkinData {
                        offer: offers[i].offer.clone(),
                        detail: detail.clone(),
                        bonus_offer: Some(offers[i].clone()),
                    },
                );
            },
            None => {
                missing.push(offers[i].offer.offer_id.clone());
            },
        }
        i = i + 1;
    }
    proof {
        assert(offers@.take(offers@.len() as int) =~= offers@);
    }
    (resolved, missing)
}

} // verus!
