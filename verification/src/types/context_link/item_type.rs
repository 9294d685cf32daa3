//! Valid item types that can be linked

use vstd::prelude::*;

use crate::text::names_contain;

verus! {

pub const DECISION: &'static str = "decision";

pub const PROGRESS_ENTRY: &'static str = "progress_entry";

pub const SYSTEM_PATTERN: &'static str = "system_pattern";

pub const CUSTOM_DATA: &'static str = "custom_data";

pub const PRODUCT_CONTEXT: &'static str = "product_context";

pub const ACTIVE_CONTEXT: &'static str = "active_context";

/// The names of the item types that links connect.
pub open spec fn names() -> Seq<Seq<char>> {
    seq![DECISION@, PROGRESS_ENTRY@, SYSTEM_PATTERN@, CUSTOM_DATA@, PRODUCT_CONTEXT@, ACTIVE_CONTEXT@]
}

/// The item types that links connect are exactly `decision`,
/// `progress_entry`, `system_pattern`, `custom_data`, `product_context` and
/// `active_context`.
pub proof fn lemma_linkable_types(s: Seq<char>)
    ensures
        names().contains(s) <==> (s == "decision"@ || s == "progress_entry"@ || s == "system_pattern"@ || s
            == "custom_data"@ || s == "product_context"@ || s == "active_context"@),
{
    let n = names();
    if s == "decision"@ {
        assert(n[0] == s);
    } else if s == "progress_entry"@ {
        assert(n[1] == s);
    } else if s == "system_pattern"@ {
        assert(n[2] == s);
    } else if s == "custom_data"@ {
        assert(n[3] == s);
    } else if s == "product_context"@ {
        assert(n[4] == s);
    } else if s == "active_context"@ {
        assert(n[5] == s);
    }
    if n.contains(s) {
        let i = choose|i: int| 0 <= i < n.len() && n[i] == s;
        assert(i == 0 || i == 1 || i == 2 || i == 3 || i == 4 || i == 5);
    }
}

pub fn all() -> (r: Vec<&'static str>)
    ensures
        r@.map_values(|s: &str| s@) == names(),
{
    let r = vec![DECISION, PROGRESS_ENTRY, SYSTEM_PATTERN, CUSTOM_DATA, PRODUCT_CONTEXT, ACTIVE_CONTEXT];
    assert(r@.map_values(|s: &str| s@) =~= names());
    r
}

pub fn is_valid(s: &str) -> (r: bool)
    ensures
        r == names().contains(s@),
{
    names_contain(&all(), s)
}

} // verus!
