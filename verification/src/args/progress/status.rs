//! Valid Status Values

use vstd::prelude::*;

use crate::text::names_contain;

verus! {

pub const TODO: &'static str = "TODO";

pub const IN_PROGRESS: &'static str = "IN_PROGRESS";

pub const DONE: &'static str = "DONE";

pub const BLOCKED: &'static str = "BLOCKED";

pub const CANCELLED: &'static str = "CANCELLED";

/// The valid status names.
pub open spec fn names() -> Seq<Seq<char>> {
    seq![TODO@, IN_PROGRESS@, DONE@, BLOCKED@, CANCELLED@]
}

pub fn all() -> (r: Vec<&'static str>)
    ensures
        r@.map_values(|s: &str| s@) == names(),
{
    let r = vec![TODO, IN_PROGRESS, DONE, BLOCKED, CANCELLED];
    assert(r@.map_values(|s: &str| s@) =~= names());
    r
}

pub fn is_valid(s: &str) -> (r: bool)
    ensures
        r == names().contains(s@),
{
    names_contain(&all(), s)
}

} // verus!
