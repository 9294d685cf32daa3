//! History endpoints: validation of history requests, the defaults of the
//! recent activity request, and the responses, newest activity first.

use vstd::prelude::*;
use vstd::string::StringExecFns;

use crate::args::history::item_type::{all, is_valid, names};
use crate::args::history::HistoryResponse;
use crate::handlers::link::bad_request;
use crate::protocol::response::{Error, ErrorCode};
use crate::text::{lemma_text_lt_asymmetric, lemma_text_lt_transitive, text_less, text_lt};

verus! {

broadcast use vstd::string::group_string_axioms;

/// Request for getting item history
pub struct GetItemHistoryRequest {
    pub WorkspaceId: String,
    pub TypeField: String,
    pub Limit: Option<usize>,
    pub BeforeTimestamp: Option<String>,
    pub AfterTimestamp: Option<String>,
    pub Version: Option<i64>,
}

/// Response for getting item history
pub struct GetItemHistoryResponse {
    pub Items: Vec<HistoryResponse>,
    pub Total: usize,
    pub WorkspaceId: String,
}

/// Request for getting recent activity
pub struct GetRecentActivityRequest {
    pub WorkspaceId: String,
    pub HoursAgo: Option<i64>,
    pub LimitPerType: Option<usize>,
    pub ItemTypes: Option<Vec<String>>,
}

/// One item of recent activity
pub struct RecentActivityItem {
    pub ItemType: String,
    pub Id: String,
    pub Timestamp: String,
    pub Summary: String,
}

/// Response for getting recent activity
pub struct GetRecentActivityResponse {
    pub Items: Vec<RecentActivityItem>,
    pub Total: usize,
}

/// HandleGetItemHistory - Get history of a context item
pub struct HandleGetItemHistory;

impl HandleGetItemHistory {
    /// Checks the item type and gives the number of versions to read: the
    /// limit asked for, ten by default.
    pub fn Prepare(Payload: &GetItemHistoryRequest) -> (r: Result<usize, Error>)
        ensures
            !names().contains(Payload.TypeField@) ==> (r matches Err(e) && bad_request(
                e,
                "Invalid item type: "@ + Payload.TypeField@,
            )),
            names().contains(Payload.TypeField@) ==> r == Ok::<usize, Error>(
                match Payload.Limit {
                    Some(l) => l,
                    None => 10,
                },
            ),
    {
        if !is_valid(Payload.TypeField.as_str()) {
            let mut m = String::from_str("Invalid item type: ");
            m.append(Payload.TypeField.as_str());
            return Err(Error::WithMessage(ErrorCode::InvalidParams, m.as_str()));
        }
        match Payload.Limit {
            Some(l) => Ok(l),
            None => Ok(10),
        }
    }

    /// The response with the versions that were read.
    pub fn Respond(Payload: GetItemHistoryRequest, Items: Vec<HistoryResponse>) -> (r: GetItemHistoryResponse)
        ensures
            r.Items@ == Items@,
            r.Total == Items@.len(),
            r.WorkspaceId == Payload.WorkspaceId,
    {
        let Total = Items.len();
        GetItemHistoryResponse { Items, Total, WorkspaceId: Payload.WorkspaceId }
    }
}

/// What a recent activity request reads: how many hours back, how many items
/// of each type, and which types.
pub struct RecentActivityPlan {
    pub HoursAgo: i64,
    pub LimitPerType: usize,
    pub ItemTypes: Vec<String>,
}

/// Items ordered newest first: no item has an earlier time than one after it.
pub open spec fn newest_first(s: Seq<RecentActivityItem>) -> bool {
    forall|i: int, j: int|
        0 <= i < j < s.len() ==> !text_lt(#[trigger] s[i].Timestamp@, #[trigger] s[j].Timestamp@)
}

/// The history item types, as strings.
fn history_types() -> (r: Vec<String>)
    ensures
        r@.map_values(|s: String| s@) == names(),
{
    let names_list = all();
    let mut r: Vec<String> = Vec::new();
    let mut i: usize = 0;
    while i < names_list.len()
        invariant
            names_list@.map_values(|s: &str| s@) == names(),
            i <= names_list.len(),
            r@.map_values(|s: String| s@) == names_list@.map_values(|s: &str| s@).take(i as int),
        decreases names_list.len() - i,
    {
        let ghost before = r@.map_values(|s: String| s@);
        let name = String::from_str(names_list[i]);
        assert(name@ == names_list@.map_values(|s: &str| s@)[i as int]);
        r.push(name);
        assert(r@.map_values(|s: String| s@) =~= before.push(name@));
        assert(r@.map_values(|s: String| s@) =~= names_list@.map_values(|s: &str| s@).take(i + 1));
        i = i + 1;
    }
    assert(names_list@.map_values(|s: &str| s@).take(names_list.len() as int) =~= names());
    r
}

/// Whether an item has the time `t`.
pub open spec fn at(t: Seq<char>) -> spec_fn(RecentActivityItem) -> bool {
    |x: RecentActivityItem| x.Timestamp@ == t
}

/// The items of the time `t`, in their order.
pub open spec fn at_time(s: Seq<RecentActivityItem>, t: Seq<char>) -> Seq<RecentActivityItem> {
    s.filter(at(t))
}

proof fn lemma_at_time_single(x: RecentActivityItem, t: Seq<char>)
    ensures
        at_time(seq![x], t) == (if x.Timestamp@ == t {
            seq![x]
        } else {
            Seq::<RecentActivityItem>::empty()
        }),
{
    let e = Seq::<RecentActivityItem>::empty();
    assert(e.filter(at(t)) =~= e) by {
        reveal(Seq::filter);
    }
    e.lemma_filter_push(x, at(t));
    assert(e.push(x) =~= seq![x]);
}

/// Inserting an item before items all of other times adds it last among
/// the items of its time.
proof fn lemma_insert_at_time(s: Seq<RecentActivityItem>, p: int, x: RecentActivityItem, t: Seq<char>)
    requires
        0 <= p <= s.len(),
        forall|k: int| p <= k < s.len() ==> s[k].Timestamp@ != x.Timestamp@,
    ensures
        at_time(s.insert(p, x), t) == at_time(s, t) + at_time(seq![x], t),
{
    let a = s.take(p);
    let b = s.skip(p);
    let f = at(t);
    assert(s.insert(p, x) =~= a + seq![x] + b);
    assert(s =~= a + b);
    Seq::filter_distributes_over_add(a + seq![x], b, f);
    Seq::filter_distributes_over_add(a, seq![x], f);
    Seq::filter_distributes_over_add(a, b, f);
    lemma_at_time_single(x, t);
    if t == x.Timestamp@ {
        assert(b.all(|y: RecentActivityItem| !f(y))) by {
            assert forall|k: int| 0 <= k < b.len() implies !f(#[trigger] b[k]) by {
                assert(b[k] == s[p + k]);
            }
        }
        b.lemma_all_neg_filter_empty(f);
        assert(b.filter(f) =~= Seq::<RecentActivityItem>::empty());
    } else {
        assert(at_time(seq![x], t) =~= Seq::<RecentActivityItem>::empty());
    }
    assert(a.filter(f) + seq![x].filter(f) + b.filter(f) =~= a.filter(f) + b.filter(f) + seq![x].filter(f));
}

/// Sorts items newest first, keeping every item; items of the same time
/// keep the order they came in.
pub fn sort_newest_first(items: Vec<RecentActivityItem>) -> (r: Vec<RecentActivityItem>)
    ensures
        newest_first(r@),
        r@.to_multiset() == items@.to_multiset(),
        forall|t: Seq<char>| #[trigger] at_time(r@, t) == at_time(items@, t),
{
    broadcast use vstd::seq_lib::group_to_multiset_ensures;
    broadcast use vstd::multiset::group_multiset_axioms;

    let ghost orig = items@;
    let mut rest = items;
    let mut r: Vec<RecentActivityItem> = Vec::new();
    assert(r@.to_multiset() =~= vstd::multiset::Multiset::empty());
    assert(r@.to_multiset().add(rest@.to_multiset()) =~= orig.to_multiset());
    assert forall|t: Seq<char>| #[trigger] at_time(r@, t) + at_time(rest@, t) == at_time(orig, t) by {
        assert(at_time(r@, t) =~= Seq::<RecentActivityItem>::empty()) by {
            reveal(Seq::filter);
        }
        assert(at_time(r@, t) + at_time(rest@, t) =~= at_time(rest@, t));
    }
    while rest.len() > 0
        invariant
            newest_first(r@),
            r@.to_multiset().add(rest@.to_multiset()) == orig.to_multiset(),
            forall|t: Seq<char>| #[trigger] at_time(r@, t) + at_time(rest@, t) == at_time(orig, t),
        decreases rest.len(),
    {
        let ghost rest_before = rest@;
        let x = rest.remove(0);
        proof {
            vstd::seq_lib::to_multiset_remove(rest_before, 0);
            assert(rest_before[0] == x);
            assert(rest_before.contains(x));
            vstd::seq_lib::to_multiset_contains(rest_before, x);
            assert(rest_before.to_multiset().count(x) > 0);
            assert(rest@ == rest_before.remove(0));
        }
        let mut p: usize = 0;
        while p < r.len() && !text_less(r[p].Timestamp.as_str(), x.Timestamp.as_str())
            invariant
                p <= r.len(),
                forall|k: int| 0 <= k < p ==> !text_lt(#[trigger] r@[k].Timestamp@, x.Timestamp@),
            decreases r.len() - p,
        {
            p = p + 1;
        }
        let ghost old_r = r@;
        assert(p < old_r.len() ==> text_lt(old_r[p as int].Timestamp@, x.Timestamp@));
        assert forall|k: int| p <= k < old_r.len() implies old_r[k].Timestamp@ != x.Timestamp@ by {
            assert(text_lt(old_r[p as int].Timestamp@, x.Timestamp@));
            lemma_text_lt_asymmetric(old_r[p as int].Timestamp@, x.Timestamp@);
            if k > p {
                assert(!text_lt(old_r[p as int].Timestamp@, old_r[k].Timestamp@));
            }
        }
        proof {
            vstd::seq_lib::to_multiset_insert(old_r, p as int, x);
            assert forall|i: int, j: int| 0 <= i < j < old_r.len() + 1 implies !text_lt(
                #[trigger] old_r.insert(p as int, x)[i].Timestamp@,
                #[trigger] old_r.insert(p as int, x)[j].Timestamp@,
            ) by {
                let s = old_r.insert(p as int, x);
                if j < p {
                    assert(s[i] == old_r[i] && s[j] == old_r[j]);
                } else if j == p {
                    assert(s[i] == old_r[i] && s[j] == x);
                } else if i == p {
                    assert(s[i] == x && s[j] == old_r[j - 1]);
                    assert(p < old_r.len());
                    assert(text_lt(old_r[p as int].Timestamp@, x.Timestamp@));
                    if (p as int) < j - 1 {
                        assert(!text_lt(old_r[p as int].Timestamp@, old_r[j - 1].Timestamp@));
                    }
                    if text_lt(x.Timestamp@, old_r[j - 1].Timestamp@) {
                        lemma_text_lt_transitive(
                            old_r[p as int].Timestamp@,
                            x.Timestamp@,
                            old_r[j - 1].Timestamp@,
                        );
                        if (p as int) == j - 1 {
                            lemma_text_lt_asymmetric(x.Timestamp@, old_r[p as int].Timestamp@);
                        }
                    }
                } else if i < p {
                    assert(s[i] == old_r[i] && s[j] == old_r[j - 1]);
                } else {
                    assert(s[i] == old_r[i - 1] && s[j] == old_r[j - 1]);
                }
            }
        }
        r.insert(p, x);
        assert(r@ == old_r.insert(p as int, x));
        assert(r@.to_multiset().add(rest@.to_multiset()) =~= orig.to_multiset());
        proof {
            assert(rest_before =~= seq![x] + rest@);
            assert forall|t: Seq<char>| #[trigger] at_time(r@, t) + at_time(rest@, t) == at_time(orig, t) by {
                lemma_insert_at_time(old_r, p as int, x, t);
                Seq::filter_distributes_over_add(seq![x], rest@, at(t));
                assert(at_time(old_r, t) + at_time(rest_before, t) == at_time(orig, t));
                assert(at_time(r@, t) + at_time(rest@, t) =~= at_time(old_r, t) + (at_time(seq![x], t) + at_time(rest@, t)));
            }
        }
    }
    assert forall|t: Seq<char>| #[trigger] at_time(r@, t) == at_time(orig, t) by {
        assert(at_time(rest@, t) =~= Seq::<RecentActivityItem>::empty()) by {
            reveal(Seq::filter);
        }
        assert(at_time(r@, t) + at_time(rest@, t) =~= at_time(r@, t));
    }
    r
}

/// HandleGetRecentActivity - Get recent activity across all types
pub struct HandleGetRecentActivity;

impl HandleGetRecentActivity {
    /// What to read: 24 hours back, five items of each type and every
    /// history type, where the request does not say otherwise.
    pub fn Plan(Payload: GetRecentActivityRequest) -> (r: RecentActivityPlan)
        ensures
            r.HoursAgo == match Payload.HoursAgo {
                Some(h) => h,
                None => 24,
            },
            r.LimitPerType == match Payload.LimitPerType {
                Some(l) => l,
                None => 5usize,
            },
            match Payload.ItemTypes {
                Some(t) => r.ItemTypes@ == t@,
                None => r.ItemTypes@.map_values(|s: String| s@) == names(),
            },
    {
        let HoursAgo = match Payload.HoursAgo {
            Some(h) => h,
            None => 24,
        };
        let LimitPerType = match Payload.LimitPerType {
            Some(l) => l,
            None => 5,
        };
        let ItemTypes = match Payload.ItemTypes {
            Some(t) => t,
            None => history_types(),
        };
        RecentActivityPlan { HoursAgo, LimitPerType, ItemTypes }
    }

    /// The response with the items that were read, newest first.
    pub fn Respond(Items: Vec<RecentActivityItem>) -> (r: GetRecentActivityResponse)
        ensures
            newest_first(r.Items@),
            r.Items@.to_multiset() == Items@.to_multiset(),
            forall|t: Seq<char>| #[trigger] at_time(r.Items@, t) == at_time(Items@, t),
            r.Total == Items@.len(),
    {
        let ghost input = Items@;
        let sorted = sort_newest_first(Items);
        proof {
            vstd::seq_lib::to_multiset_len(sorted@);
            vstd::seq_lib::to_multiset_len(input);
        }
        let Total = sorted.len();
        GetRecentActivityResponse { Items: sorted, Total }
    }
}

} // verus!
