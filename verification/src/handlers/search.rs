//! Semantic search: which of the candidates that the vector store gives
//! back are kept, by their item type and the metadata stored with them.

use vstd::prelude::*;

use crate::text::str_eq;

verus! {

broadcast use vstd::string::group_string_axioms;

/// The filters of a semantic search request.
pub struct SearchFilters {
    pub FilterItemTypes: Option<Vec<String>>,
    pub FilterTagsIncludeAny: Option<Vec<String>>,
    pub FilterTagsIncludeAll: Option<Vec<String>>,
    pub FilterCustomDataCategories: Option<Vec<String>>,
}

/// What the stored metadata of an item says: its tags (the strings of its
/// tag list, none where it has none) and its category (empty where it has
/// none).
pub struct ItemFacts {
    pub Tags: Vec<String>,
    pub Category: String,
}

/// A candidate of a search: its item type, and its stored metadata where
/// any was found.
pub struct SearchCandidate {
    pub ItemType: String,
    pub Metadata: Option<ItemFacts>,
}

/// The views of a list of strings.
pub open spec fn string_views(v: Seq<String>) -> Seq<Seq<char>> {
    v.map_values(|s: String| s@)
}

/// The item type passes the type filter: there is none, it is empty, or it
/// names the type.
pub open spec fn type_allowed(f: SearchFilters, t: Seq<char>) -> bool {
    match f.FilterItemTypes {
        Some(types) => types@.len() == 0 || string_views(types@).contains(t),
        None => true,
    }
}

/// The tags of an item: those of its stored metadata, none where it has no
/// metadata.
pub open spec fn item_tags(m: Option<ItemFacts>) -> Seq<Seq<char>> {
    match m {
        Some(facts) => string_views(facts.Tags@),
        None => Seq::empty(),
    }
}

/// The item passes the tag and category filters: it has one of the tags of
/// the any-filter and all the tags of the all-filter (an item without
/// metadata has no tags), and custom data with metadata is of one of the
/// categories of the category filter where that is not empty.
pub open spec fn metadata_allowed(f: SearchFilters, t: Seq<char>, m: Option<ItemFacts>) -> bool {
    &&& match f.FilterTagsIncludeAny {
        Some(any) => exists|i: int| 0 <= i < any@.len() && item_tags(m).contains(#[trigger] any@[i]@),
        None => true,
    }
    &&& match f.FilterTagsIncludeAll {
        Some(all) => forall|i: int| 0 <= i < all@.len() ==> item_tags(m).contains(#[trigger] all@[i]@),
        None => true,
    }
    &&& match m {
        Some(facts) => (t == "custom_data"@ ==> match f.FilterCustomDataCategories {
            Some(cats) => cats@.len() == 0 || string_views(cats@).contains(facts.Category@),
            None => true,
        }),
        None => true,
    }
}

/// Whether a candidate is kept.
pub open spec fn candidate_kept(f: SearchFilters, c: SearchCandidate) -> bool {
    type_allowed(f, c.ItemType@) && metadata_allowed(f, c.ItemType@, c.Metadata)
}

/// The indices of the kept candidates among the first `n`, in order, where
/// the selection stops once it holds `limit` of them (and after the first
/// one where `limit` is zero).
pub open spec fn selected(f: SearchFilters, cs: Seq<SearchCandidate>, n: int, limit: nat) -> Seq<int>
    decreases n,
{
    if n <= 0 {
        Seq::empty()
    } else {
        let prev = selected(f, cs, n - 1, limit);
        if prev.len() > 0 && prev.len() >= limit {
            prev
        } else if candidate_kept(f, cs[n - 1]) {
            prev.push(n - 1)
        } else {
            prev
        }
    }
}

fn list_holds(list: &Vec<String>, s: &str) -> (r: bool)
    ensures
        r == string_views(list@).contains(s@),
{
    let mut i: usize = 0;
    while i < list.len()
        invariant
            i <= list.len(),
            forall|j: int| 0 <= j < i ==> list@[j]@ != s@,
        decreases list.len() - i,
    {
        if str_eq(list[i].as_str(), s) {
            assert(string_views(list@)[i as int] == s@);
            return true;
        }
        i = i + 1;
    }
    assert forall|j: int| 0 <= j < string_views(list@).len() implies string_views(list@)[j] != s@ by {
        assert(string_views(list@)[j] == list@[j]@);
    }
    false
}

/// HandleSemanticSearch - Full-featured semantic search with filters
pub struct HandleSemanticSearch;

impl HandleSemanticSearch {
    /// Whether an item type passes the type filter.
    pub fn TypeAllowed(Filters: &SearchFilters, ItemType: &str) -> (r: bool)
        ensures
            r == type_allowed(*Filters, ItemType@),
    {
        match &Filters.FilterItemTypes {
            Some(types) => types.len() == 0 || list_holds(types, ItemType),
            None => true,
        }
    }

    /// Whether an item's metadata passes the tag and category filters.
    pub fn MetadataAllowed(Filters: &SearchFilters, ItemType: &str, Metadata: &Option<ItemFacts>) -> (r: bool)
        ensures
            r == metadata_allowed(*Filters, ItemType@, *Metadata),
    {
        let no_tags: Vec<String> = Vec::new();
        let tags: &Vec<String> = match Metadata {
            Some(f) => &f.Tags,
            None => &no_tags,
        };
        assert(string_views(tags@) == item_tags(*Metadata));
        let any_ok = match &Filters.FilterTagsIncludeAny {
            Some(any) => {
                let mut found = false;
                let mut i: usize = 0;
                while i < any.len()
                    invariant
                        i <= any.len(),
                        found == exists|k: int|
                            0 <= k < i && string_views(tags@).contains(#[trigger] any@[k]@),
                    decreases any.len() - i,
                {
                    if list_holds(tags, any[i].as_str()) {
                        found = true;
                    }
                    i = i + 1;
                }
                found
            },
            None => true,
        };
        let all_ok = match &Filters.FilterTagsIncludeAll {
            Some(all) => {
                let mut ok = true;
                let mut i: usize = 0;
                while i < all.len()
                    invariant
                        i <= all.len(),
                        ok == forall|k: int|
                            0 <= k < i ==> string_views(tags@).contains(#[trigger] all@[k]@),
                    decreases all.len() - i,
                {
                    if !list_holds(tags, all[i].as_str()) {
                        ok = false;
                    }
                    i = i + 1;
                }
                ok
            },
            None => true,
        };
        let category_ok = match Metadata {
            Some(facts) => if str_eq(ItemType, "custom_data") {
                match &Filters.FilterCustomDataCategories {
                    Some(cats) => cats.len() == 0 || list_holds(cats, facts.Category.as_str()),
                    None => true,
                }
            } else {
                true
            },
            None => true,
        };
        any_ok && all_ok && category_ok
    }

    /// The indices of the candidates that the search keeps, in order: those
    /// that pass the filters, up to `limit` of them.
    pub fn Select(Filters: &SearchFilters, Candidates: &Vec<SearchCandidate>, limit: usize) -> (r: Vec<usize>)
        ensures
            r@.map_values(|i: usize| i as int) == selected(*Filters, Candidates@, Candidates@.len() as int, limit as nat),
    {
        let mut r: Vec<usize> = Vec::new();
        let mut i: usize = 0;
        assert(r@.map_values(|i: usize| i as int) =~= Seq::<int>::empty());
        while i < Candidates.len()
            invariant
                i <= Candidates.len(),
                r@.map_values(|k: usize| k as int) == selected(*Filters, Candidates@, i as int, limit as nat),
            decreases Candidates.len() - i,
        {
            let ghost before = r@.map_values(|k: usize| k as int);
            if r.len() > 0 && r.len() >= limit {
                assert(selected(*Filters, Candidates@, i + 1, limit as nat) == before);
            } else {
                let c = &Candidates[i];
                if Self::TypeAllowed(Filters, c.ItemType.as_str()) && Self::MetadataAllowed(
                    Filters,
                    c.ItemType.as_str(),
                    &c.Metadata,
                ) {
                    r.push(i);
                    assert(r@.map_values(|k: usize| k as int) =~= before.push(i as int));
                }
            }
            i = i + 1;
        }
        r
    }
}

} // verus!
