//! The messages of the status responses to updates and deletions.

use vstd::prelude::*;
use vstd::string::StringExecFns;

use crate::text::{decimal_int, push_decimal_i64};

verus! {

broadcast use vstd::string::group_string_axioms;

/// `prefix`, the number, then `suffix`.
pub open spec fn numbered(prefix: Seq<char>, n: i64, suffix: Seq<char>) -> Seq<char> {
    prefix + decimal_int(n as int) + suffix
}

/// The text `prefix`, the decimal number `n`, then `suffix`.
pub fn numbered_text(prefix: &str, n: i64, suffix: &str) -> (r: String)
    ensures
        r@ == numbered(prefix@, n, suffix@),
{
    let mut r = String::from_str(prefix);
    push_decimal_i64(&mut r, n);
    r.append(suffix);
    r
}

/// The message of an update of the entry `kind ID n`.
pub open spec fn update_message_text(kind: Seq<char>, id: i64, updated: bool) -> Seq<char> {
    if updated {
        numbered(kind + " ID "@, id, " updated successfully."@)
    } else {
        numbered(kind + " ID "@, id, " not found for update."@)
    }
}

/// The message of a deletion of the entry `kind ID n`.
pub open spec fn delete_message_text(kind: Seq<char>, id: i64, deleted: bool) -> Seq<char> {
    if deleted {
        numbered(kind + " ID "@, id, " deleted successfully."@)
    } else {
        numbered(kind + " ID "@, id, " not found in database."@)
    }
}

/// The message of an update: the entry was updated, or not found.
pub fn update_message(kind: &str, id: i64, updated: bool) -> (r: String)
    ensures
        r@ == update_message_text(kind@, id, updated),
{
    let mut head = String::from_str(kind);
    head.append(" ID ");
    if updated {
        numbered_text(head.as_str(), id, " updated successfully.")
    } else {
        numbered_text(head.as_str(), id, " not found for update.")
    }
}

/// The message of a deletion: the entry was deleted, or not found.
pub fn delete_message(kind: &str, id: i64, deleted: bool) -> (r: String)
    ensures
        r@ == delete_message_text(kind@, id, deleted),
{
    let mut head = String::from_str(kind);
    head.append(" ID ");
    if deleted {
        numbered_text(head.as_str(), id, " deleted successfully.")
    } else {
        numbered_text(head.as_str(), id, " not found in database.")
    }
}

/// The status that every response of an update or deletion carries.
pub fn success_status() -> (r: String)
    ensures
        r@ == "success"@,
{
    String::from_str("success")
}

} // verus!
