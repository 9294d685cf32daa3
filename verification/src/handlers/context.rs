//! The context endpoints: their arguments, the content an update gives, and
//! the table that holds a context.

use vstd::prelude::*;
use vstd::string::StringExecFns;

use crate::args::context::{jview, shallow_patch, shallow_patched, JsonValue};
use crate::error::status::Kind;
use crate::text::{decimal_int, push_decimal_i64};

verus! {

broadcast use vstd::string::group_string_axioms;

/// The query of the context endpoints: the workspace whose contexts are wanted.
pub struct ContextQueryArgs {
    pub workspace_id: String,
}

/// The request that updates the product or the active context: new content
/// that replaces the old, or a patch whose top-level members are set in it.
pub struct UpdateContextRequest {
    pub workspace_id: Option<String>,
    pub Content: Option<JsonValue>,
    pub PatchContent: Option<JsonValue>,
}

/// The content after an update: the current content patched where a patch
/// is given, else the new content where it is given, else the current one.
pub fn updated_content(current: JsonValue, payload: UpdateContextRequest) -> (r: JsonValue)
    ensures
        match payload.PatchContent {
            Some(p) => jview(r) == shallow_patched(jview(current), jview(p)),
            None => match payload.Content {
                Some(c) => r == c,
                None => r == current,
            },
        },
{
    match payload.PatchContent {
        Some(p) => shallow_patch(current, p),
        None => match payload.Content {
            Some(c) => c,
            None => current,
        },
    }
}

/// The table of a context by its id: the product context is 1, the active
/// context 2.
pub fn context_table(id: i64) -> (r: Option<&'static str>)
    ensures
        id == 1 ==> r == Some("ProductContext"),
        id == 2 ==> r == Some("ActiveContext"),
        id != 1 && id != 2 ==> r is None,
{
    if id == 1 {
        Some("ProductContext")
    } else if id == 2 {
        Some("ActiveContext")
    } else {
        None
    }
}

/// The error of a context id that names no context.
pub fn context_not_found(id: i64) -> (r: Kind)
    ensures
        r matches Kind::NotFound(m) && m@ == "Context "@ + decimal_int(id as int) + " not found"@,
{
    let mut m = String::from_str("Context ");
    push_decimal_i64(&mut m, id);
    m.append(" not found");
    Kind::NotFound(m)
}

} // verus!
