//! Contexts: how their content is updated, and the arguments that name one.

use vstd::prelude::*;

use crate::clock::{now_rfc3339, utc_rfc3339_text};

verus! {

/// How new content meets the content a context already has.
#[derive(Debug, Clone, Copy, PartialEq, Eq, Structural)]
pub enum UpdateMode {
    /// The new content replaces the old.
    FullUpdate,
    /// The new content is merged into the old.
    PatchUpdate,
}

impl Default for UpdateMode {
    fn default() -> (r: Self)
        ensures
            r == UpdateMode::FullUpdate,
    {
        UpdateMode::FullUpdate
    }
}

/// The arguments that name a context of a workspace, or all of them.
pub struct GetContextArgs {
    pub workspace_id: String,
    pub context_id: Option<String>,
}


// ---------------------------------------------------------------------------
// JSON content
// ---------------------------------------------------------------------------

/// A JSON value, its numbers kept as the text they are written in and its
/// objects as their members in order.
#[derive(Debug, PartialEq)]
pub enum JsonValue {
    Null,
    Bool(bool),
    Number(String),
    Text(String),
    Array(Vec<JsonValue>),
    Object(Vec<(String, JsonValue)>),
}

/// What a JSON value is, with texts for strings.
pub enum JsonView {
    Null,
    Bool(bool),
    Number(Seq<char>),
    Text(Seq<char>),
    Array(Seq<JsonView>),
    Object(Seq<(Seq<char>, JsonView)>),
}

/// The view of a JSON value.
pub open spec fn jview(j: JsonValue) -> JsonView
    decreases j, 0int,
{
    match j {
        JsonValue::Null => JsonView::Null,
        JsonValue::Bool(b) => JsonView::Bool(b),
        JsonValue::Number(n) => JsonView::Number(n@),
        JsonValue::Text(t) => JsonView::Text(t@),
        JsonValue::Array(xs) => {
            proof {
                vstd::std_specs::vec::axiom_vec_decreases_to_view(xs);
            }
            JsonView::Array(jview_items(xs@, xs@.len() as int))
        },
        JsonValue::Object(es) => {
            proof {
                vstd::std_specs::vec::axiom_vec_decreases_to_view(es);
            }
            JsonView::Object(jview_members(es@, es@.len() as int))
        },
    }
}

/// The views of the first `n` items of an array.
pub open spec fn jview_items(xs: Seq<JsonValue>, n: int) -> Seq<JsonView>
    decreases xs, n,
{
    if n <= 0 || n > xs.len() {
        Seq::empty()
    } else {
        jview_items(xs, n - 1).push(jview(xs[n - 1]))
    }
}

/// The views of the first `n` members of an object.
pub open spec fn jview_members(es: Seq<(String, JsonValue)>, n: int) -> Seq<(Seq<char>, JsonView)>
    decreases es, n,
{
    if n <= 0 || n > es.len() {
        Seq::empty()
    } else {
        jview_members(es, n - 1).push((es[n - 1].0@, jview(es[n - 1].1)))
    }
}

/// The members of an object, each by its view.
pub open spec fn members(es: Seq<(String, JsonValue)>) -> Seq<(Seq<char>, JsonView)> {
    jview_members(es, es.len() as int)
}

/// The view of each member of an object is that member's key and value by
/// their views.
pub proof fn lemma_members_index(es: Seq<(String, JsonValue)>, n: int)
    requires
        0 <= n <= es.len(),
    ensures
        jview_members(es, n).len() == n,
        forall|i: int| 0 <= i < n ==> #[trigger] jview_members(es, n)[i] == (es[i].0@, jview(es[i].1)),
    decreases n,
{
    if n > 0 {
        lemma_members_index(es, n - 1);
    }
}


/// The first index at or after `i` of a member with key `k`.
pub open spec fn find_from(es: Seq<(Seq<char>, JsonView)>, k: Seq<char>, i: int) -> Option<int>
    decreases es.len() - i,
{
    if i < 0 || i >= es.len() {
        None
    } else if es[i].0 == k {
        Some(i)
    } else {
        find_from(es, k, i + 1)
    }
}

/// The index of the first member with key `k`.
pub open spec fn find_key(es: Seq<(Seq<char>, JsonView)>, k: Seq<char>) -> Option<int> {
    find_from(es, k, 0)
}

/// The value of key `k`, if the object has one.
pub open spec fn lookup(es: Seq<(Seq<char>, JsonView)>, k: Seq<char>) -> Option<JsonView> {
    match find_key(es, k) {
        Some(i) => Some(es[i].1),
        None => None,
    }
}

/// The value of key `k`, null where there is none.
pub open spec fn value_or_null(es: Seq<(Seq<char>, JsonView)>, k: Seq<char>) -> JsonView {
    match lookup(es, k) {
        Some(v) => v,
        None => JsonView::Null,
    }
}

/// The object with key `k` set to `v`: in its place where the key is there,
/// else as a new last member.
pub open spec fn put(es: Seq<(Seq<char>, JsonView)>, k: Seq<char>, v: JsonView) -> Seq<(Seq<char>, JsonView)> {
    match find_key(es, k) {
        Some(i) => es.update(i, (k, v)),
        None => es.push((k, v)),
    }
}

/// The merge of a patch into a value: two objects merge member by member,
/// anything else is replaced by the patch.
pub open spec fn merged(base: JsonView, patch: JsonView) -> JsonView
    decreases patch, 0int,
{
    match patch {
        JsonView::Object(pe) => match base {
            JsonView::Object(be) => JsonView::Object(merged_members(be, pe, pe.len() as int)),
            _ => patch,
        },
        _ => patch,
    }
}

/// The members of `be` with the first `n` members of the patch `pe` merged
/// in, in order: each key set to the merge of its value (null where there
/// is none) with the patch's value.
pub open spec fn merged_members(be: Seq<(Seq<char>, JsonView)>, pe: Seq<(Seq<char>, JsonView)>, n: int) -> Seq<(Seq<char>, JsonView)>
    decreases pe, n,
{
    if n <= 0 || n > pe.len() {
        be
    } else {
        let acc = merged_members(be, pe, n - 1);
        put(acc, pe[n - 1].0, merged(value_or_null(acc, pe[n - 1].0), pe[n - 1].1))
    }
}


proof fn lemma_find_from_skip(es: Seq<(Seq<char>, JsonView)>, k: Seq<char>, i: int, j: int)
    requires
        0 <= i <= j <= es.len(),
        forall|m: int| i <= m < j ==> es[m].0 != k,
    ensures
        find_from(es, k, i) == find_from(es, k, j),
    decreases j - i,
{
    if i < j {
        lemma_find_from_skip(es, k, i + 1, j);
    }
}

/// The index of the first member of `es` with key `k`.
pub(crate) fn member_index(es: &Vec<(String, JsonValue)>, k: &str) -> (r: Option<usize>)
    ensures
        match r {
            Some(i) => find_key(members(es@), k@) == Some(i as int) && (i as int) < es@.len(),
            None => find_key(members(es@), k@) is None,
        },
{
    let ghost ms = members(es@);
    proof {
        lemma_members_index(es@, es@.len() as int);
    }
    let mut i: usize = 0;
    while i < es.len()
        invariant
            i <= es.len(),
            ms == members(es@),
            ms.len() == es@.len(),
            forall|j: int| 0 <= j < es@.len() ==> #[trigger] ms[j] == (es@[j].0@, jview(es@[j].1)),
            forall|m: int| 0 <= m < i ==> ms[m].0 != k@,
        decreases es.len() - i,
    {
        if crate::text::str_eq(es[i].0.as_str(), k) {
            proof {
                lemma_find_from_skip(ms, k@, 0, i as int);
                assert(ms[i as int].0 == k@);
            }
            return Some(i);
        }
        i = i + 1;
    }
    proof {
        lemma_find_from_skip(ms, k@, 0, es@.len() as int);
    }
    None
}

pub(crate) proof fn lemma_members_update(es: Seq<(String, JsonValue)>, i: int, k: String, v: JsonValue)
    requires
        0 <= i < es.len(),
    ensures
        members(es.update(i, (k, v))) == members(es).update(i, (k@, jview(v))),
{
    lemma_members_index(es, es.len() as int);
    lemma_members_index(es.update(i, (k, v)), es.len() as int);
    assert(members(es.update(i, (k, v))) =~= members(es).update(i, (k@, jview(v))));
}

pub(crate) proof fn lemma_members_push(es: Seq<(String, JsonValue)>, k: String, v: JsonValue)
    ensures
        members(es.push((k, v))) == members(es).push((k@, jview(v))),
{
    lemma_members_index(es, es.len() as int);
    lemma_members_index(es.push((k, v)), es.len() + 1int);
    assert(members(es.push((k, v))) =~= members(es).push((k@, jview(v))));
}

/// Merges a patch into a value: where both are objects, each member of the
/// patch is merged into the member of the same key (null where there is
/// none), in order; anything else is replaced by the patch.
pub fn merge_json(base: JsonValue, patch: JsonValue) -> (r: JsonValue)
    ensures
        jview(r) == merged(jview(base), jview(patch)),
    decreases patch,
{
    match patch {
        JsonValue::Object(pe) => match base {
            JsonValue::Object(be) => {
                let ghost pvec = pe;
                assert(pvec@.len() == pe.len());
                let ghost bv = members(be@);
                let ghost pv = members(pe@);
                proof {
                    lemma_members_index(pe@, pe@.len() as int);
                }
                let mut acc = be;
                let mut rest = pe;
                let mut done: usize = 0;
                while rest.len() > 0
                    invariant
                        patch == JsonValue::Object(pvec),
                        pv == members(pvec@),
                        pv.len() == pvec@.len(),
                        forall|j: int| 0 <= j < pvec@.len() ==> #[trigger] pv[j] == (pvec@[j].0@, jview(pvec@[j].1)),
                        done <= pvec@.len(),
                        pvec@.len() <= usize::MAX,
                        rest@ == pvec@.skip(done as int),
                        members(acc@) == merged_members(bv, pv, done as int),
                    decreases rest.len(),
                {
                    let ghost before = acc@;
                    let ghost d = done as int;
                    assert(rest@[0] == pvec@[d]);
                    assert(d < pvec@.len());
                    let (k, v) = rest.remove(0);
                    proof {
                        vstd::std_specs::vec::axiom_vec_decreases_to_view(pvec);
                        assert(patch->0 == pvec);
                        assert(decreases_to!(patch => patch->0));
                        assert(decreases_to!(pvec => pvec@));
                        assert(decreases_to!(pvec@ => pvec@[d]));
                        assert(decreases_to!(pvec@[d] => pvec@[d].1));
                        assert(pvec@[d].1 == v);
                        assert(pv[d] == (k@, jview(v)));
                        lemma_members_index(before, before.len() as int);
                    }
                    match member_index(&acc, k.as_str()) {
                        Some(i) => {
                            let (_old_key, old) = acc.remove(i);
                            assert(old == before[i as int].1);
                            let m = merge_json(old, v);
                            acc.insert(i, (k, m));
                            proof {
                                assert(acc@ =~= before.update(i as int, (k, m)));
                                lemma_members_update(before, i as int, k, m);
                            }
                        },
                        None => {
                            let m = merge_json(JsonValue::Null, v);
                            acc.push((k, m));
                            proof {
                                lemma_members_push(before, k, m);
                            }
                        },
                    }
                    done = done + 1;
                    assert(rest@ =~= pvec@.skip(done as int));
                }
                assert(done as int == pvec@.len());
                JsonValue::Object(acc)
            },
            _ => JsonValue::Object(pe),
        },
        _ => patch,
    }
}


// ---------------------------------------------------------------------------
// What a patch does to each key
// ---------------------------------------------------------------------------

/// No two members of the object have the same key.
pub open spec fn distinct_keys(es: Seq<(Seq<char>, JsonView)>) -> bool {
    forall|i: int, j: int| 0 <= i < j < es.len() ==> es[i].0 != es[j].0
}

proof fn lemma_find_from_props(s: Seq<(Seq<char>, JsonView)>, k: Seq<char>, i: int)
    requires
        0 <= i <= s.len(),
    ensures
        match find_from(s, k, i) {
            Some(j) => i <= j < s.len() && s[j].0 == k && forall|m: int| i <= m < j ==> s[m].0 != k,
            None => forall|m: int| i <= m < s.len() ==> s[m].0 != k,
        },
    decreases s.len() - i,
{
    if i < s.len() && s[i].0 != k {
        lemma_find_from_props(s, k, i + 1);
    }
}

proof fn lemma_find_push(s: Seq<(Seq<char>, JsonView)>, x: (Seq<char>, JsonView), k: Seq<char>, i: int)
    requires
        0 <= i <= s.len(),
    ensures
        find_from(s.push(x), k, i) == match find_from(s, k, i) {
            Some(j) => Some(j),
            None => if x.0 == k {
                Some(s.len() as int)
            } else {
                None
            },
        },
    decreases s.len() - i,
{
    if i < s.len() {
        assert(s.push(x)[i] == s[i]);
        if s[i].0 != k {
            lemma_find_push(s, x, k, i + 1);
        }
    } else {
        assert(s.push(x)[i] == x);
        assert(find_from(s.push(x), k, i + 1) is None);
    }
}

proof fn lemma_find_same_keys(s: Seq<(Seq<char>, JsonView)>, t: Seq<(Seq<char>, JsonView)>, k: Seq<char>, i: int)
    requires
        0 <= i <= s.len(),
        s.len() == t.len(),
        forall|m: int| 0 <= m < s.len() ==> s[m].0 == t[m].0,
    ensures
        find_from(s, k, i) == find_from(t, k, i),
    decreases s.len() - i,
{
    if i < s.len() {
        lemma_find_same_keys(s, t, k, i + 1);
    }
}

/// Setting a key gives that key its new value and leaves the others.
pub proof fn lemma_lookup_put(es: Seq<(Seq<char>, JsonView)>, k: Seq<char>, v: JsonView, k2: Seq<char>)
    ensures
        lookup(put(es, k, v), k2) == (if k2 == k {
            Some(v)
        } else {
            lookup(es, k2)
        }),
{
    lemma_find_from_props(es, k, 0);
    lemma_find_from_props(es, k2, 0);
    match find_key(es, k) {
        Some(i) => {
            let t = es.update(i, (k, v));
            lemma_find_same_keys(es, t, k2, 0);
            lemma_find_from_props(t, k2, 0);
        },
        None => {
            lemma_find_push(es, (k, v), k2, 0);
            lemma_find_from_props(es.push((k, v)), k2, 0);
        },
    }
}

proof fn lemma_merged_members_lookup(
    be: Seq<(Seq<char>, JsonView)>,
    pe: Seq<(Seq<char>, JsonView)>,
    n: int,
    k: Seq<char>,
)
    requires
        distinct_keys(pe),
        0 <= n <= pe.len(),
    ensures
        lookup(merged_members(be, pe, n), k) == match find_key(pe.take(n), k) {
            Some(j) => Some(merged(value_or_null(be, k), pe[j].1)),
            None => lookup(be, k),
        },
    decreases n,
{
    if n == 0 {
        assert(pe.take(0) =~= Seq::<(Seq<char>, JsonView)>::empty());
    } else {
        let acc = merged_members(be, pe, n - 1);
        let kn = pe[n - 1].0;
        lemma_merged_members_lookup(be, pe, n - 1, k);
        lemma_merged_members_lookup(be, pe, n - 1, kn);
        lemma_lookup_put(acc, kn, merged(value_or_null(acc, kn), pe[n - 1].1), k);
        assert(pe.take(n) =~= pe.take(n - 1).push(pe[n - 1]));
        lemma_find_push(pe.take(n - 1), pe[n - 1], k, 0);
        lemma_find_push(pe.take(n - 1), pe[n - 1], kn, 0);
        lemma_find_from_props(pe.take(n - 1), kn, 0);
        lemma_find_from_props(pe.take(n - 1), k, 0);
        if find_key(pe.take(n - 1), kn) is Some {
            let j = find_key(pe.take(n - 1), kn)->0;
            assert(pe.take(n - 1)[j] == pe[j]);
            assert(pe[j].0 != pe[n - 1].0);
        }
        match find_key(pe.take(n - 1), k) {
            Some(j) => {
                assert(pe.take(n - 1)[j] == pe[j]);
                assert(pe.take(n)[j] == pe[j]);
            },
            None => {},
        }
    }
}

/// A patch update: where the content and the patch are both objects, each
/// key of the patch gets the merge of its old value (null where it had
/// none) with the patch's value, and every other key keeps its value;
/// otherwise the patch replaces the content.
pub proof fn lemma_patch_update(base: JsonView, patch: JsonView, k: Seq<char>)
    requires
        patch is Object ==> distinct_keys(patch->Object_0),
    ensures
        !(base is Object && patch is Object) ==> merged(base, patch) == patch,
        (base is Object && patch is Object) ==> {
            let be = base->Object_0;
            let pe = patch->Object_0;
            &&& merged(base, patch) is Object
            &&& lookup(merged(base, patch)->Object_0, k) == match find_key(pe, k) {
                Some(j) => Some(merged(value_or_null(be, k), pe[j].1)),
                None => lookup(be, k),
            }
        },
{
    if base is Object && patch is Object {
        let pe = patch->Object_0;
        lemma_merged_members_lookup(base->Object_0, pe, pe.len() as int, k);
        assert(pe.take(pe.len() as int) =~= pe);
    }
}


// ---------------------------------------------------------------------------
// Top-level patches
// ---------------------------------------------------------------------------

/// The members of `ce` with the first `n` members of `pe` set in order, each
/// to the patch's value as it is.
pub open spec fn shallow_members(ce: Seq<(Seq<char>, JsonView)>, pe: Seq<(Seq<char>, JsonView)>, n: int) -> Seq<(Seq<char>, JsonView)>
    decreases n,
{
    if n <= 0 || n > pe.len() {
        ce
    } else {
        put(shallow_members(ce, pe, n - 1), pe[n - 1].0, pe[n - 1].1)
    }
}

/// An object with the top-level members of a patch object set in it;
/// anything else is left as it is.
pub open spec fn shallow_patched(current: JsonView, patch: JsonView) -> JsonView {
    match (current, patch) {
        (JsonView::Object(ce), JsonView::Object(pe)) => JsonView::Object(shallow_members(ce, pe, pe.len() as int)),
        _ => current,
    }
}

/// Sets each top-level member of a patch object in an object, replacing the
/// value of a key that is there and adding one that is not; where either is
/// not an object the content is left as it is.
pub fn shallow_patch(current: JsonValue, patch: JsonValue) -> (r: JsonValue)
    ensures
        jview(r) == shallow_patched(jview(current), jview(patch)),
{
    match current {
        JsonValue::Object(ce) => match patch {
            JsonValue::Object(pe) => {
                let ghost pvec = pe;
                let ghost cv = members(ce@);
                let ghost pv = members(pe@);
                proof {
                    lemma_members_index(pe@, pe@.len() as int);
                }
                assert(pvec@.len() == pe.len());
                let mut acc = ce;
                let mut rest = pe;
                let mut done: usize = 0;
                while rest.len() > 0
                    invariant
                        pv == members(pvec@),
                        pv.len() == pvec@.len(),
                        forall|j: int| 0 <= j < pvec@.len() ==> #[trigger] pv[j] == (pvec@[j].0@, jview(pvec@[j].1)),
                        done <= pvec@.len(),
                        pvec@.len() <= usize::MAX,
                        rest@ == pvec@.skip(done as int),
                        members(acc@) == shallow_members(cv, pv, done as int),
                    decreases rest.len(),
                {
                    let ghost before = acc@;
                    let ghost d = done as int;
                    assert(rest@[0] == pvec@[d]);
                    assert(d < pvec@.len());
                    let (k, v) = rest.remove(0);
                    proof {
                        assert(pv[d] == (k@, jview(v)));
                        lemma_members_index(before, before.len() as int);
                    }
                    match member_index(&acc, k.as_str()) {
                        Some(i) => {
                            let _old = acc.remove(i);
                            acc.insert(i, (k, v));
                            proof {
                                assert(acc@ =~= before.update(i as int, (k, v)));
                                lemma_members_update(before, i as int, k, v);
                            }
                        },
                        None => {
                            acc.push((k, v));
                            proof {
                                lemma_members_push(before, k, v);
                            }
                        },
                    }
                    done = done + 1;
                    assert(rest@ =~= pvec@.skip(done as int));
                }
                JsonValue::Object(acc)
            },
            _ => JsonValue::Object(ce),
        },
        _ => current,
    }
}

proof fn lemma_shallow_members_lookup(
    ce: Seq<(Seq<char>, JsonView)>,
    pe: Seq<(Seq<char>, JsonView)>,
    n: int,
    k: Seq<char>,
)
    requires
        distinct_keys(pe),
        0 <= n <= pe.len(),
    ensures
        lookup(shallow_members(ce, pe, n), k) == match find_key(pe.take(n), k) {
            Some(j) => Some(pe[j].1),
            None => lookup(ce, k),
        },
    decreases n,
{
    if n == 0 {
        assert(pe.take(0) =~= Seq::<(Seq<char>, JsonView)>::empty());
    } else {
        let acc = shallow_members(ce, pe, n - 1);
        let kn = pe[n - 1].0;
        lemma_shallow_members_lookup(ce, pe, n - 1, k);
        lemma_lookup_put(acc, kn, pe[n - 1].1, k);
        assert(pe.take(n) =~= pe.take(n - 1).push(pe[n - 1]));
        lemma_find_push(pe.take(n - 1), pe[n - 1], k, 0);
        lemma_find_from_props(pe.take(n - 1), k, 0);
        match find_key(pe.take(n - 1), k) {
            Some(j) => {
                assert(pe.take(n - 1)[j] == pe[j]);
                assert(pe[j].0 != kn);
            },
            None => {},
        }
    }
}

/// A top-level patch: where the content and the patch are both objects, each
/// key of the patch gets the patch's value and every other key keeps its
/// value; otherwise the content stays as it is.
pub proof fn lemma_shallow_patch(current: JsonView, patch: JsonView, k: Seq<char>)
    requires
        patch is Object ==> distinct_keys(patch->Object_0),
    ensures
        !(current is Object && patch is Object) ==> shallow_patched(current, patch) == current,
        (current is Object && patch is Object) ==> {
            let pe = patch->Object_0;
            &&& shallow_patched(current, patch) is Object
            &&& lookup(shallow_patched(current, patch)->Object_0, k) == match find_key(pe, k) {
                Some(j) => Some(pe[j].1),
                None => lookup(current->Object_0, k),
            }
        },
{
    if current is Object && patch is Object {
        let pe = patch->Object_0;
        lemma_shallow_members_lookup(current->Object_0, pe, pe.len() as int, k);
        assert(pe.take(pe.len() as int) =~= pe);
    }
}

// ---------------------------------------------------------------------------
// Contexts
// ---------------------------------------------------------------------------

/// A context: a named piece of JSON content of a workspace.
pub struct Context {
    pub Id: String,
    pub Name: String,
    pub Content: JsonValue,
    pub WorkspacePath: String,
    pub CreatedAt: String,
    pub UpdatedAt: String,
}

impl Context {
    /// A new context whose content is a text.
    pub fn new_string(Id: String, Name: String, Content: String, WorkspacePath: String) -> (r: Self)
        ensures
            r.Id == Id,
            r.Name == Name,
            r.Content == JsonValue::Text(Content),
            r.WorkspacePath == WorkspacePath,
            r.CreatedAt == r.UpdatedAt,
            utc_rfc3339_text(r.CreatedAt@),
    {
        Self::new(Id, Name, JsonValue::Text(Content), WorkspacePath)
    }

    /// A new context, created and updated now.
    pub fn new(Id: String, Name: String, Content: JsonValue, WorkspacePath: String) -> (r: Self)
        ensures
            r.Id == Id,
            r.Name == Name,
            r.Content == Content,
            r.WorkspacePath == WorkspacePath,
            r.CreatedAt == r.UpdatedAt,
            utc_rfc3339_text(r.CreatedAt@),
    {
        let timestamp = now_rfc3339();
        Context { Id, Name, Content, WorkspacePath, CreatedAt: timestamp.clone(), UpdatedAt: timestamp }
    }

    /// A new context from JSON content.
    pub fn from_json(Id: String, Name: String, Content: JsonValue, WorkspacePath: String) -> (r: Self)
        ensures
            r.Id == Id,
            r.Name == Name,
            r.Content == Content,
            r.WorkspacePath == WorkspacePath,
            r.CreatedAt == r.UpdatedAt,
            utc_rfc3339_text(r.CreatedAt@),
    {
        Self::new(Id, Name, Content, WorkspacePath)
    }

    /// The content as a text, where it is one.
    pub fn content_text(&self) -> (r: Option<String>)
        ensures
            match self.Content {
                JsonValue::Text(s) => r == Some(s),
                _ => r is None,
            },
    {
        match &self.Content {
            JsonValue::Text(s) => Some(s.clone()),
            _ => None,
        }
    }

    /// Updates the content: a full update replaces it, a patch update merges
    /// the new content into it. The update time is renewed.
    pub fn update_content(&mut self, new_content: JsonValue, mode: UpdateMode)
        ensures
            final(self).Id == old(self).Id,
            final(self).Name == old(self).Name,
            final(self).WorkspacePath == old(self).WorkspacePath,
            final(self).CreatedAt == old(self).CreatedAt,
            utc_rfc3339_text(final(self).UpdatedAt@),
            mode == UpdateMode::FullUpdate ==> final(self).Content == new_content,
            mode == UpdateMode::PatchUpdate ==> jview(final(self).Content) == merged(
                jview(old(self).Content),
                jview(new_content),
            ),
    {
        match mode {
            UpdateMode::FullUpdate => {
                self.Content = new_content;
            },
            UpdateMode::PatchUpdate => {
                let mut current = JsonValue::Null;
                core::mem::swap(&mut current, &mut self.Content);
                self.Content = merge_json(current, new_content);
            },
        }
        self.UpdatedAt = now_rfc3339();
    }
}

} // verus!
