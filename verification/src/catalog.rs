//! The per-run catalog cache: a lookup table from a variant identifier to
//! the catalog entry it belongs to. Entries without variants are dropped at
//! build time; the key of an entry is its first variant's identifier, and a
//! later entry with the same key replaces an earlier one.

use vstd::prelude::*;

use crate::models::SkinDetails;

verus! {

/// The key an entry is filed under: the identifier of its first variant.
/// Offers refer to variants, not to parent skins, so lookups must use this
/// key.
pub open spec fn catalog_key(d: SkinDetails) -> Seq<char> {
    d.levels@[0].uuid@
}

/// The lookup table described by a sequence of entries: each entry under
/// its key, later entries overriding earlier ones.
pub open spec fn entries_map(s: Seq<SkinDetails>) -> Map<Seq<char>, SkinDetails>
    decreases s.len(),
{
    if s.len() == 0 {
        Map::empty()
    } else {
        entries_map(s.drop_last()).insert(catalog_key(s.last()), s.last())
    }
}

/// The catalog built from a raw catalog listing: entries with at least one
/// variant, each under its first variant's identifier, later entries
/// overriding earlier ones.
pub open spec fn catalog_of(s: Seq<SkinDetails>) -> Map<Seq<char>, SkinDetails>
    decreases s.len(),
{
    if s.len() == 0 {
        Map::empty()
    } else {
        let m = catalog_of(s.drop_last());
        if s.last().levels@.len() > 0 {
            m.insert(catalog_key(s.last()), s.last())
        } else {
            m
        }
    }
}

/// The per-run lookup table from variant identifier to catalog entry.
pub struct SkinCatalog {
    entries: Vec<SkinDetails>,
}

impl View for SkinCatalog {
    type V = Map<Seq<char>, SkinDetails>;

    closed spec fn view(&self) -> Map<Seq<char>, SkinDetails> {
        entries_map(self.entries@)
    }
}

impl SkinCatalog {
    /// Every stored entry has at least one variant, so every lookup result
    /// has one.
    pub closed spec fn wf(&self) -> bool {
        forall|i: int| 0 <= i < self.entries@.len() ==> self.entries@[i].levels@.len() > 0
    }

    /// Looks up the catalog entry filed under a variant identifier.
    pub fn get<'a>(&'a self, id: &String) -> (r: Option<&'a SkinDetails>)
        requires
            self.wf(),
        ensures
            match r {
                Some(e) => self@.contains_key(id@) && *e == self@[id@] && e.levels@.len() > 0
                    && catalog_key(*e) == id@,
                None => !self@.contains_key(id@),
            },
    {
        let mut i: usize = self.entries.len();
        while i > 0
            invariant
                self.wf(),
                i <= self.entries@.len(),
                forall|j: int| i <= j < self.entries@.len() ==> catalog_key(self.entries@[j])
                    != id@,
            decreases i,
        {
            i = i - 1;
            if self.entries[i].levels[0].uuid == *id {
                proof {
                    lemma_entries_map_skip(self.entries@, id@, i + 1);
                    assert(self.entries@.take(i + 1).drop_last() =~= self.entries@.take(i as int));
                    assert(self.entries@.take(i + 1).last() == self.entries@[i as int]);
                }
                return Some(&self.entries[i]);
            }
        }
        proof {
            lemma_entries_map_skip(self.entries@, id@, 0);
            assert(self.entries@.take(0) =~= Seq::<SkinDetails>::empty());
        }
        None
    }
}

/// Skipping entries whose key differs from `k` does not change what the
/// table holds under `k`.
proof fn lemma_entries_map_skip(s: Seq<SkinDetails>, k: Seq<char>, i: int)
    requires
        0 <= i <= s.len(),
        forall|j: int| i <= j < s.len() ==> catalog_key(s[j]) != k,
    ensures
        entries_map(s).contains_key(k) == entries_map(s.take(i)).contains_key(k),
        entries_map(s).contains_key(k) ==> entries_map(s)[k] == entries_map(s.take(i))[k],
    decreases s.len() - i,
{
    if i == s.len() {
        assert(s.take(i) =~= s);
    } else {
        assert(s.drop_last().take(i) =~= s.take(i));
        lemma_entries_map_skip(s.drop_last(), k, i);
    }
}

/// Builds the catalog cache from a raw catalog listing, keeping entries
/// that have at least one variant and filing each under its first
/// variant's identifier.
pub fn build_skin_catalog(details: Vec<SkinDetails>) -> (r: SkinCatalog)
    ensures
        r.wf(),
        r@ == catalog_of(details@),
{
    let ghost all = details@;
    let mut entries: Vec<SkinDetails> = Vec::new();
    for d in it: details.into_iter()
        invariant
            it.seq() == all,
            entries_map(entries@) == catalog_of(all.take(it.index() as int)),
            forall|j: int| 0 <= j < entries@.len() ==> entries@[j].levels@.len() > 0,
    {
        let ghost prefix = all.take(it.index() as int);
        let ghost next_prefix = all.take(it.index() as int + 1);
        proof {
            assert(next_prefix.drop_last() =~= prefix);
            assert(next_prefix.last() == d);
        }
        if d.levels.len() > 0 {
            let ghost before = entries@;
            entries.push(d);
            proof {
                assert(entries@.drop_last() =~= before);
                assert(entries@.last() == d);
            }
        }
    }
    proof {
        assert(all.take(all.len() as int) =~= all);
    }
    SkinCatalog { entries }
}

} // verus!
