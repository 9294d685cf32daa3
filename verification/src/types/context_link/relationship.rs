//! Common relationship types

use vstd::prelude::*;

verus! {

pub const RELATES_TO: &'static str = "relates_to";

pub const IMPLEMENTS: &'static str = "implements";

pub const BLOCKED_BY: &'static str = "blocked_by";

pub const DEPENDS_ON: &'static str = "depends_on";

pub const DERIVED_FROM: &'static str = "derived_from";

pub const RELATES_TO_PROGRESS: &'static str = "relates_to_progress";

pub const PARENT_OF: &'static str = "parent_of";

pub const CHILD_OF: &'static str = "child_of";

/// The common relationship names.
pub open spec fn names() -> Seq<Seq<char>> {
    seq![
        RELATES_TO@,
        IMPLEMENTS@,
        BLOCKED_BY@,
        DEPENDS_ON@,
        DERIVED_FROM@,
        RELATES_TO_PROGRESS@,
        PARENT_OF@,
        CHILD_OF@,
    ]
}

pub fn all() -> (r: Vec<&'static str>)
    ensures
        r@.map_values(|s: &str| s@) == names(),
{
    let r = vec![
        RELATES_TO,
        IMPLEMENTS,
        BLOCKED_BY,
        DEPENDS_ON,
        DERIVED_FROM,
        RELATES_TO_PROGRESS,
        PARENT_OF,
        CHILD_OF,
    ];
    assert(r@.map_values(|s: &str| s@) =~= names());
    r
}

} // verus!
