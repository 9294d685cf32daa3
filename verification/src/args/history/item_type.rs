//! Context item types whose history is tracked

use vstd::prelude::*;

use crate::text::names_contain;

verus! {

pub const PRODUCT_CONTEXT: &'static str = "product_context";

pub const ACTIVE_CONTEXT: &'static str = "active_context";

/// The names of the tracked context items.
pub open spec fn names() -> Seq<Seq<char>> {
    seq![PRODUCT_CONTEXT@, ACTIVE_CONTEXT@]
}

pub fn all() -> (r: Vec<&'static str>)
    ensures
        r@.map_values(|s: &str| s@) == names(),
{
    let r = vec![PRODUCT_CONTEXT, ACTIVE_CONTEXT];
    assert(r@.map_values(|s: &str| s@) =~= names());
    r
}

pub fn is_valid(s: &str) -> (r: bool)
    ensures
        r == names().contains(s@),
{
    names_contain(&all(), s)
}

} // verus!
