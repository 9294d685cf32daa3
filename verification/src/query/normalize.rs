//! FTS query normalisation: escaping of FTS operator characters, column
//! prefix checks, whitespace collapsing, tag queries and search query parsing.

use vstd::prelude::*;
use vstd::string::StringExecFns;

use regex::Regex;

use crate::text::{
    append_chars, chars_of, is_ws, join, join_strings, push_char, replace_all, replace_chars,
    split_words, str_eq, string_of, trim, trim_end, trim_start, trimmed, views, words,
};

verus! {

// ---------------------------------------------------------------------------
// Escaping
// ---------------------------------------------------------------------------

/// The characters that have a meaning in FTS query syntax:
/// `"`, `(`, `)`, `*`, `:`, `^`, `-`, `+` and `~`.
pub open spec fn is_fts_special(c: char) -> bool {
    c == '"' || c == '(' || c == ')' || c == '*' || c == ':' || c == '^' || c == '-' || c == '+'
        || c == '~'
}

fn fts_special(c: char) -> (r: bool)
    ensures
        r == is_fts_special(c),
{
    c == '"' || c == '(' || c == ')' || c == '*' || c == ':' || c == '^' || c == '-' || c == '+'
        || c == '~'
}

/// `s` with a backslash put before every FTS special character; where
/// `keep_colons` holds, colons are left as they are.
pub open spec fn escape_fts(s: Seq<char>, keep_colons: bool) -> Seq<char>
    decreases s.len(),
{
    if s.len() == 0 {
        Seq::empty()
    } else {
        let c = s.last();
        escape_fts(s.drop_last(), keep_colons) + if is_fts_special(c) && !(keep_colons && c
            == ':') {
            seq!['\\', c]
        } else {
            seq![c]
        }
    }
}

fn escape_chars(s: &Vec<char>, keep_colons: bool) -> (out: Vec<char>)
    ensures
        out@ == escape_fts(s@, keep_colons),
{
    let mut out: Vec<char> = Vec::new();
    let mut i: usize = 0;
    while i < s.len()
        invariant
            i <= s.len(),
            out@ == escape_fts(s@.take(i as int), keep_colons),
        decreases s.len() - i,
    {
        let c = s[i];
        let ghost before = out@;
        assert(s@.take(i + 1).drop_last() =~= s@.take(i as int));
        if fts_special(c) && !(keep_colons && c == ':') {
            out.push('\\');
            out.push(c);
            assert(out@ =~= before + seq!['\\', c]);
        } else {
            out.push(c);
            assert(out@ =~= before + seq![c]);
        }
        i = i + 1;
    }
    assert(s@.take(s.len() as int) =~= s@);
    out
}

// ---------------------------------------------------------------------------
// Whitespace collapsing
// ---------------------------------------------------------------------------

/// `s` with every maximal run of whitespace replaced by a single space.
pub open spec fn collapse_ws(s: Seq<char>) -> Seq<char>
    decreases s.len(),
{
    if s.len() == 0 {
        Seq::empty()
    } else if is_ws(s.last()) {
        if s.len() >= 2 && is_ws(s[s.len() - 2]) {
            collapse_ws(s.drop_last())
        } else {
            collapse_ws(s.drop_last()).push(' ')
        }
    } else {
        collapse_ws(s.drop_last()).push(s.last())
    }
}

/// Calls `regex::Regex::replace_all` with the pattern `\s+` and the
/// replacement `" "`. The contract claims that this replaces every maximal run
/// of Unicode whitespace by one space, which is what the leftmost-first,
/// greedy matching of `\s+` over the `White_Space` class does.
#[verifier::external_body]
fn collapse_whitespace(s: &str) -> (r: String)
    ensures
        r@ == collapse_ws(s@),
{
    Regex::new(r"\s+").unwrap().replace_all(s, " ").to_string()
}

// ---------------------------------------------------------------------------
// Column prefixes
// ---------------------------------------------------------------------------

/// The matches of the pattern `(\w+):(\S+)` in `s`, from left to right, as
/// (whole match, column, rest) triples.
pub uninterp spec fn column_prefix_captures(s: Seq<char>) -> Seq<(Seq<char>, Seq<char>, Seq<char>)>;

/// Calls `regex::Regex::captures_iter` with the pattern `(\w+):(\S+)` and
/// hands out each match as (whole match, group 1, group 2). The contract only
/// names the result: the Unicode word class is not written out.
#[verifier::external_body]
fn find_column_prefixes(s: &str) -> (r: Vec<(String, String, String)>)
    ensures
        r@.map_values(|t: (String, String, String)| (t.0@, t.1@, t.2@))
            == column_prefix_captures(s@),
{
    Regex::new(r"(\w+):(\S+)").unwrap().captures_iter(s).map(
        |c| (c[0].to_string(), c[1].to_string(), c[2].to_string()),
    ).collect()
}

/// The result of dropping, one capture after the other, the column prefix of
/// every capture whose column is not allowed: every occurrence of the whole
/// match is replaced by the part after the colon.
pub open spec fn strip_prefixes(
    text: Seq<char>,
    caps: Seq<(Seq<char>, Seq<char>, Seq<char>)>,
    allowed: Seq<Seq<char>>,
) -> Seq<char>
    decreases caps.len(),
{
    if caps.len() == 0 {
        text
    } else {
        let c = caps[0];
        let next = if allowed.contains(c.1) {
            text
        } else {
            replace_all(text, c.0, c.2)
        };
        strip_prefixes(next, caps.drop_first(), allowed)
    }
}

/// Whether `list` holds `s`.
pub fn list_contains(list: &Vec<String>, s: &str) -> (r: bool)
    ensures
        r == views(list@).contains(s@),
{
    let mut i: usize = 0;
    while i < list.len()
        invariant
            i <= list.len(),
            forall|j: int| 0 <= j < i ==> list@[j]@ != s@,
        decreases list.len() - i,
    {
        if str_eq(list[i].as_str(), s) {
            assert(views(list@)[i as int] == s@);
            return true;
        }
        i = i + 1;
    }
    assert forall|j: int| 0 <= j < views(list@).len() implies views(list@)[j] != s@ by {
        assert(views(list@)[j] == list@[j]@);
    }
    false
}

// ---------------------------------------------------------------------------
// The normaliser
// ---------------------------------------------------------------------------

/// What normalising `query` gives. Without allowed columns every FTS special
/// character is escaped. With allowed columns, colons are left unescaped so
/// that column prefixes stay usable, and the prefix of every `column:term`
/// whose column is not allowed is removed. Then whitespace runs collapse to
/// one space and the result is trimmed.
pub open spec fn normalized(query: Seq<char>, allowed: Option<Seq<Seq<char>>>) -> Seq<char> {
    match allowed {
        None => trim(collapse_ws(escape_fts(query, false))),
        Some(cols) => {
            let e = escape_fts(query, true);
            trim(collapse_ws(strip_prefixes(e, column_prefix_captures(e), cols)))
        },
    }
}

/// Prepares FTS queries: escapes special characters and checks column prefixes
pub struct FtsQueryNormalizer {
    allowed_columns: Option<Vec<String>>,
}

impl FtsQueryNormalizer {
    /// The allowed columns, if any.
    pub closed spec fn allowed(&self) -> Option<Seq<Seq<char>>> {
        match self.allowed_columns {
            Some(v) => Some(views(v@)),
            None => None,
        }
    }

    /// Create a new normalizer with optional allowed columns
    pub fn new(allowed_columns: Option<Vec<String>>) -> (r: Self)
        ensures
            r.allowed() == match allowed_columns {
                Some(v) => Some(views(v@)),
                None => None,
            },
    {
        FtsQueryNormalizer { allowed_columns }
    }

    /// Prepare an FTS query string for safe use
    pub fn prepare_fts_query(&self, query: &str) -> (r: String)
        ensures
            r@ == normalized(query@, self.allowed()),
    {
        self.normalize_query(query)
    }

    fn normalize_query(&self, query: &str) -> (r: String)
        ensures
            r@ == normalized(query@, self.allowed()),
    {
        let q = chars_of(query);
        let keep_colons = self.allowed_columns.is_some();
        let escaped = escape_chars(&q, keep_colons);
        let escaped_str = string_of(&escaped);
        let checked = if keep_colons {
            self.validate_column_prefixes(escaped_str.as_str())
        } else {
            escaped_str
        };
        let collapsed = collapse_whitespace(checked.as_str());
        trimmed(collapsed.as_str())
    }

    /// Validate and sanitize column prefixes in the query
    fn validate_column_prefixes(&self, query: &str) -> (r: String)
        ensures
            r@ == match self.allowed() {
                Some(cols) => strip_prefixes(query@, column_prefix_captures(query@), cols),
                None => query@,
            },
    {
        let allowed = match &self.allowed_columns {
            Some(cols) => cols,
            None => {
                return query.to_string();
            },
        };
        let caps = find_column_prefixes(query);
        strip_column_prefixes(query, &caps, allowed)
    }
}

/// The query without the column prefixes that are not allowed: each match
/// `(whole, column, rest)` whose column is not among `allowed` has its text
/// replaced by `rest`.
pub fn strip_column_prefixes(query: &str, caps: &Vec<(String, String, String)>, allowed: &Vec<String>) -> (r:
    String)
    ensures
        r@ == strip_prefixes(
            query@,
            caps@.map_values(|t: (String, String, String)| (t.0@, t.1@, t.2@)),
            views(allowed@),
        ),
{
    let ghost capv = caps@.map_values(|t: (String, String, String)| (t.0@, t.1@, t.2@));
    let mut result = chars_of(query);
    let mut i: usize = 0;
    assert(capv.skip(0) =~= capv);
    while i < caps.len()
        invariant
            capv == caps@.map_values(|t: (String, String, String)| (t.0@, t.1@, t.2@)),
            i <= caps.len(),
            strip_prefixes(query@, capv, views(allowed@)) == strip_prefixes(
                result@,
                capv.skip(i as int),
                views(allowed@),
            ),
        decreases caps.len() - i,
    {
        let (whole, col, rest) = &caps[i];
        assert(capv.skip(i as int).drop_first() =~= capv.skip(i + 1));
        assert(capv.skip(i as int)[0] == (whole@, col@, rest@));
        if !list_contains(allowed, col.as_str()) {
            let w = chars_of(whole.as_str());
            let p = chars_of(rest.as_str());
            result = replace_chars(&result, &w, &p);
        }
        i = i + 1;
    }
    assert(capv.skip(i as int) =~= Seq::<(Seq<char>, Seq<char>, Seq<char>)>::empty());
    string_of(&result)
}

/// Prepare an FTS query string with default settings
pub fn PrepareFtsQuery(query: &str) -> (r: String)
    ensures
        r@ == normalized(query@, None),
{
    let normalizer = FtsQueryNormalizer::new(None);
    normalizer.prepare_fts_query(query)
}

/// Prepare an FTS query with column validation
pub fn PrepareFtsQueryWithColumns(query: &str, allowed_columns: Vec<String>) -> (r: String)
    ensures
        r@ == normalized(query@, Some(views(allowed_columns@))),
{
    let ghost cols = views(allowed_columns@);
    let normalizer = FtsQueryNormalizer::new(Some(allowed_columns));
    normalizer.prepare_fts_query(query)
}

// ---------------------------------------------------------------------------
// Laws of escaping
// ---------------------------------------------------------------------------

/// One character escapes to itself with a backslash before it where it is
/// one of `"`, `(`, `)`, `*`, `:`, `^`, `-`, `+`, `~` (a colon only where
/// column prefixes are not kept), and to itself otherwise.
pub proof fn lemma_escape_one(c: char, keep_colons: bool)
    ensures
        escape_fts(seq![c], keep_colons) == if (c == '"' || c == '(' || c == ')' || c == '*' || c == ':' || c
            == '^' || c == '-' || c == '+' || c == '~') && !(keep_colons && c == ':') {
            seq!['\\', c]
        } else {
            seq![c]
        },
{
    assert(seq![c].drop_last() =~= Seq::<char>::empty());
    assert(seq![c].last() == c);
    assert(escape_fts(Seq::<char>::empty(), keep_colons) == Seq::<char>::empty());
    assert(Seq::<char>::empty() + seq!['\\', c] =~= seq!['\\', c]);
    assert(Seq::<char>::empty() + seq![c] =~= seq![c]);
}

/// The escape of two texts one after the other is their escapes one after
/// the other: each character is escaped on its own.
pub proof fn lemma_escape_concat(a: Seq<char>, b: Seq<char>, keep_colons: bool)
    ensures
        escape_fts(a + b, keep_colons) == escape_fts(a, keep_colons) + escape_fts(b, keep_colons),
    decreases b.len(),
{
    if b.len() == 0 {
        assert(a + b =~= a);
        assert(escape_fts(a, keep_colons) + Seq::<char>::empty() =~= escape_fts(a, keep_colons));
    } else {
        assert((a + b).drop_last() =~= a + b.drop_last());
        assert((a + b).last() == b.last());
        lemma_escape_concat(a, b.drop_last(), keep_colons);
        let c = b.last();
        let e = if is_fts_special(c) && !(keep_colons && c == ':') {
            seq!['\\', c]
        } else {
            seq![c]
        };
        assert(escape_fts(a, keep_colons) + escape_fts(b.drop_last(), keep_colons) + e =~= escape_fts(
            a,
            keep_colons,
        ) + (escape_fts(b.drop_last(), keep_colons) + e));
    }
}

proof fn lemma_escape_keeps_ws_free(s: Seq<char>, keep_colons: bool)
    requires
        forall|i: int| 0 <= i < s.len() ==> !is_ws(#[trigger] s[i]),
    ensures
        forall|i: int| 0 <= i < escape_fts(s, keep_colons).len() ==> !is_ws(#[trigger] escape_fts(s, keep_colons)[i]),
    decreases s.len(),
{
    if s.len() > 0 {
        let init = s.drop_last();
        assert forall|i: int| 0 <= i < init.len() implies !is_ws(#[trigger] init[i]) by {
            assert(init[i] == s[i]);
        }
        lemma_escape_keeps_ws_free(init, keep_colons);
        let a = escape_fts(init, keep_colons);
        let c = s.last();
        assert(!is_ws(s[s.len() - 1]));
        let e = if is_fts_special(c) && !(keep_colons && c == ':') {
            seq!['\\', c]
        } else {
            seq![c]
        };
        assert forall|i: int| 0 <= i < (a + e).len() implies !is_ws(#[trigger] (a + e)[i]) by {
            if i >= a.len() {
                assert((a + e)[i] == e[i - a.len()]);
            } else {
                assert((a + e)[i] == a[i]);
            }
        }
    }
}

proof fn lemma_collapse_ws_free(s: Seq<char>)
    requires
        forall|i: int| 0 <= i < s.len() ==> !is_ws(#[trigger] s[i]),
    ensures
        collapse_ws(s) == s,
    decreases s.len(),
{
    if s.len() > 0 {
        let init = s.drop_last();
        assert forall|i: int| 0 <= i < init.len() implies !is_ws(#[trigger] init[i]) by {
            assert(init[i] == s[i]);
        }
        lemma_collapse_ws_free(init);
        assert(!is_ws(s[s.len() - 1]));
        assert(init.push(s.last()) =~= s);
    }
}

/// A query without whitespace is prepared by escaping alone: every character
/// stays, in order, and each FTS special one gets a backslash before it.
pub proof fn lemma_prepare_without_spaces(q: Seq<char>)
    requires
        forall|i: int| 0 <= i < q.len() ==> !is_ws(#[trigger] q[i]),
    ensures
        normalized(q, None) == escape_fts(q, false),
{
    let e = escape_fts(q, false);
    lemma_escape_keeps_ws_free(q, false);
    lemma_collapse_ws_free(e);
    if e.len() > 0 {
        assert(!is_ws(e[0]));
        assert(trim_start(e) == e);
        assert(!is_ws(e[e.len() - 1]));
        assert(trim_end(e) == e);
    } else {
        assert(trim_start(e) == e);
        assert(trim_end(e) == e);
    }
}

// ---------------------------------------------------------------------------
// Tag queries
// ---------------------------------------------------------------------------

/// `s` between double quotes.
pub open spec fn quoted(s: Seq<char>) -> Seq<char> {
    seq!['"'] + s + seq!['"']
}

/// Each tag escaped and quoted.
pub open spec fn quoted_tags(tags: Seq<Seq<char>>) -> Seq<Seq<char>> {
    tags.map_values(|t: Seq<char>| quoted(escape_fts(t, false)))
}

/// The FTS query that matches the tags: the quoted, escaped tags joined by
/// ` AND ` where all must match and by ` OR ` otherwise; empty for no tags.
pub open spec fn tags_query(tags: Seq<Seq<char>>, match_all: bool) -> Seq<char> {
    if tags.len() == 0 {
        Seq::empty()
    } else {
        join(quoted_tags(tags), if match_all {
            " AND "@
        } else {
            " OR "@
        })
    }
}

fn quote_chars(v: &Vec<char>) -> (s: String)
    ensures
        s@ == quoted(v@),
{
    let mut s = String::new();
    push_char(&mut s, '"');
    append_chars(&mut s, v);
    push_char(&mut s, '"');
    assert(s@ =~= quoted(v@));
    s
}

/// Escape a tag for use in FTS queries
fn escape_tag_for_fts(tag: &str) -> (r: String)
    ensures
        r@ == escape_fts(tag@, false),
{
    let v = chars_of(tag);
    let e = escape_chars(&v, false);
    string_of(&e)
}

/// Convert tags to FTS query format
pub fn tags_to_fts_query(tags: &[String], match_all: bool) -> (r: String)
    ensures
        r@ == tags_query(views(tags@), match_all),
{
    if tags.len() == 0 {
        return String::new();
    }
    let mut parts: Vec<String> = Vec::new();
    let mut i: usize = 0;
    while i < tags.len()
        invariant
            i <= tags.len(),
            views(parts@) == quoted_tags(views(tags@)).take(i as int),
        decreases tags.len() - i,
    {
        let escaped = escape_tag_for_fts(tags[i].as_str());
        let ev = chars_of(escaped.as_str());
        let q = quote_chars(&ev);
        let ghost before = views(parts@);
        parts.push(q);
        assert(views(parts@) =~= before.push(q@));
        assert(quoted_tags(views(tags@)).take(i + 1) =~= quoted_tags(views(tags@)).take(
            i as int,
        ).push(quoted(escape_fts(tags@[i as int]@, false))));
        i = i + 1;
    }
    assert(quoted_tags(views(tags@)).take(tags.len() as int) =~= quoted_tags(views(tags@)));
    if match_all {
        join_strings(&parts, " AND ")
    } else {
        join_strings(&parts, " OR ")
    }
}


// ---------------------------------------------------------------------------
// Search query parsing
// ---------------------------------------------------------------------------

/// The index of the first double quote in `s`, or -1.
pub open spec fn first_quote(s: Seq<char>) -> int
    decreases s.len(),
{
    if s.len() == 0 {
        -1
    } else if s[0] == '"' {
        0
    } else {
        let j = first_quote(s.drop_first());
        if j < 0 {
            -1
        } else {
            j + 1
        }
    }
}

/// Splits `s` into its quoted phrases and what is left once they are removed.
/// A phrase is a double quote, one or more characters that are not double
/// quotes, and a double quote; phrases are found from the left and never
/// overlap. This is what the pattern `"([^"]+)"` matches.
pub open spec fn phrase_split(s: Seq<char>) -> (Seq<Seq<char>>, Seq<char>)
    decreases s.len(),
{
    if s.len() == 0 {
        (Seq::empty(), Seq::empty())
    } else if s[0] == '"' {
        let rest = s.drop_first();
        let j = first_quote(rest);
        if j > 0 && j < rest.len() {
            let inner = phrase_split(rest.subrange(j + 1, rest.len() as int));
            (seq![rest.subrange(0, j)] + inner.0, inner.1)
        } else {
            let inner = phrase_split(rest);
            (inner.0, seq!['"'] + inner.1)
        }
    } else {
        let inner = phrase_split(s.drop_first());
        (inner.0, seq![s[0]] + inner.1)
    }
}

/// Calls `regex::Regex::captures_iter` with the pattern `"([^"]+)"` and hands
/// out group 1 of each match. The contract claims the phrases of
/// [`phrase_split`], the leftmost-first, non-overlapping matches.
#[verifier::external_body]
fn quoted_phrases(s: &str) -> (r: Vec<String>)
    ensures
        views(r@) == phrase_split(s@).0,
{
    Regex::new(r#""([^"]+)""#).unwrap().captures_iter(s).map(|c| c[1].to_string()).collect()
}

/// Calls `regex::Regex::replace_all` with the pattern `"([^"]+)"` and an empty
/// replacement. The contract claims the remainder of [`phrase_split`].
#[verifier::external_body]
fn remove_quoted_phrases(s: &str) -> (r: String)
    ensures
        r@ == phrase_split(s@).1,
{
    Regex::new(r#""([^"]+)""#).unwrap().replace_all(s, "").to_string()
}

/// Sorts words into plain terms and excluded terms: a word of two or more
/// characters that starts with `-` is excluded (without its dash), any other
/// non-empty word is a term.
pub open spec fn classify_words(ws: Seq<Seq<char>>) -> (Seq<Seq<char>>, Seq<Seq<char>>)
    decreases ws.len(),
{
    if ws.len() == 0 {
        (Seq::empty(), Seq::empty())
    } else {
        let prev = classify_words(ws.drop_last());
        let w = ws.last();
        if w.len() > 1 && w[0] == '-' {
            (prev.0, prev.1.push(w.subrange(1, w.len() as int)))
        } else if w.len() > 0 {
            (prev.0.push(w), prev.1)
        } else {
            prev
        }
    }
}

/// Parse a search query into terms and operators
#[derive(Debug, Clone)]
pub struct SearchQuery {
    pub terms: Vec<String>,
    pub exclude_terms: Vec<String>,
    pub phrase_searches: Vec<String>,
}

/// The search query that parsing `q` gives: its quoted phrases, and the terms
/// and excluded terms among the words of what is left.
pub open spec fn parsed_query(q: Seq<char>) -> (Seq<Seq<char>>, Seq<Seq<char>>, Seq<Seq<char>>) {
    let split = phrase_split(q);
    let classes = classify_words(words(split.1));
    (classes.0, classes.1, split.0)
}

/// The FTS query of a parsed search: quoted terms, quoted phrases and
/// `NOT`-prefixed quoted excluded terms, joined by spaces.
pub open spec fn fts_of(
    terms: Seq<Seq<char>>,
    excludes: Seq<Seq<char>>,
    phrases: Seq<Seq<char>>,
) -> Seq<char> {
    join(
        terms.map_values(|t: Seq<char>| quoted(t)) + phrases.map_values(|t: Seq<char>| quoted(t))
            + excludes.map_values(|t: Seq<char>| "NOT "@ + quoted(t)),
        " "@,
    )
}

fn string_of_tail(w: &Vec<char>) -> (s: String)
    requires
        w.len() >= 1,
    ensures
        s@ == w@.subrange(1, w@.len() as int),
{
    crate::text::string_of_range(w, 1, w.len())
}

impl SearchQuery {
    /// The terms, excluded terms and phrases as character sequences.
    pub open spec fn parts(&self) -> (Seq<Seq<char>>, Seq<Seq<char>>, Seq<Seq<char>>) {
        (views(self.terms@), views(self.exclude_terms@), views(self.phrase_searches@))
    }

    /// Parse a query string into structured components
    pub fn parse(query: &str) -> (r: Self)
        ensures
            r.parts() == parsed_query(query@),
    {
        let phrase_searches = quoted_phrases(query);
        let remaining = remove_quoted_phrases(query);
        let rv = chars_of(remaining.as_str());
        let ws = split_words(&rv);
        let ghost wv = ws@.map_values(|w: Vec<char>| w@);
        let mut terms: Vec<String> = Vec::new();
        let mut exclude_terms: Vec<String> = Vec::new();
        let mut i: usize = 0;
        while i < ws.len()
            invariant
                wv == ws@.map_values(|w: Vec<char>| w@),
                i <= ws.len(),
                (views(terms@), views(exclude_terms@)) == classify_words(wv.take(i as int)),
            decreases ws.len() - i,
        {
            let w = &ws[i];
            assert(wv.take(i + 1).drop_last() =~= wv.take(i as int));
            assert(wv.take(i + 1).last() == w@);
            let ghost t0 = views(terms@);
            let ghost e0 = views(exclude_terms@);
            if w.len() > 1 && w[0] == '-' {
                let t = string_of_tail(w);
                exclude_terms.push(t);
                assert(views(exclude_terms@) =~= e0.push(t@));
            } else if w.len() > 0 {
                let t = string_of(w);
                terms.push(t);
                assert(views(terms@) =~= t0.push(t@));
            }
            i = i + 1;
        }
        assert(wv.take(ws.len() as int) =~= wv);
        SearchQuery { terms, exclude_terms, phrase_searches }
    }

    /// Convert to FTS query format
    pub fn to_fts_query(&self) -> (r: String)
        ensures
            r@ == fts_of(self.parts().0, self.parts().1, self.parts().2),
    {
        let ghost t = views(self.terms@).map_values(|t: Seq<char>| quoted(t));
        let ghost p = views(self.phrase_searches@).map_values(|t: Seq<char>| quoted(t));
        let ghost e = views(self.exclude_terms@).map_values(|t: Seq<char>| "NOT "@ + quoted(t));
        let mut parts: Vec<String> = Vec::new();
        let mut i: usize = 0;
        while i < self.terms.len()
            invariant
                i <= self.terms.len(),
                t == views(self.terms@).map_values(|t: Seq<char>| quoted(t)),
                views(parts@) == t.take(i as int),
            decreases self.terms.len() - i,
        {
            let v = chars_of(self.terms[i].as_str());
            let q = quote_chars(&v);
            let ghost before = views(parts@);
            parts.push(q);
            assert(views(parts@) =~= before.push(q@));
            assert(t.take(i + 1) =~= t.take(i as int).push(quoted(self.terms@[i as int]@)));
            i = i + 1;
        }
        assert(t.take(self.terms.len() as int) =~= t);
        let mut i: usize = 0;
        while i < self.phrase_searches.len()
            invariant
                i <= self.phrase_searches.len(),
                p == views(self.phrase_searches@).map_values(|t: Seq<char>| quoted(t)),
                views(parts@) == t + p.take(i as int),
            decreases self.phrase_searches.len() - i,
        {
            let v = chars_of(self.phrase_searches[i].as_str());
            let q = quote_chars(&v);
            let ghost before = views(parts@);
            parts.push(q);
            assert(views(parts@) =~= before.push(q@));
            assert(p.take(i + 1) =~= p.take(i as int).push(quoted(self.phrase_searches@[i as int]@)));
            i = i + 1;
        }
        assert(p.take(self.phrase_searches.len() as int) =~= p);
        let mut i: usize = 0;
        while i < self.exclude_terms.len()
            invariant
                i <= self.exclude_terms.len(),
                e == views(self.exclude_terms@).map_values(|t: Seq<char>| "NOT "@ + quoted(t)),
                views(parts@) == t + p + e.take(i as int),
            decreases self.exclude_terms.len() - i,
        {
            let v = chars_of(self.exclude_terms[i].as_str());
            let q = quote_chars(&v);
            let mut item = String::from_str("NOT ");
            item.append(q.as_str());
            let ghost before = views(parts@);
            parts.push(item);
            assert(views(parts@) =~= before.push(item@));
            assert(e.take(i + 1) =~= e.take(i as int).push("NOT "@ + quoted(self.exclude_terms@[i as int]@)));
            i = i + 1;
        }
        assert(e.take(self.exclude_terms.len() as int) =~= e);
        join_strings(&parts, " ")
    }
}

/// The WHERE clause that matches a query in any of the columns: empty where the
/// query yields no FTS terms, else `(c1 MATCH ? OR c2 MATCH ? ...)`.
pub open spec fn fts_where_clause(query: Seq<char>, columns: Seq<Seq<char>>) -> Seq<char> {
    let parsed = parsed_query(normalized(query, None));
    if fts_of(parsed.0, parsed.1, parsed.2).len() == 0 {
        Seq::empty()
    } else {
        "("@ + join(columns.map_values(|c: Seq<char>| c + " MATCH ?"@), " OR "@) + ")"@
    }
}

/// Build FTS WHERE clause for a table
pub fn build_fts_where_clause(query: &str, columns: &[&str]) -> (r: String)
    ensures
        r@ == fts_where_clause(query@, columns@.map_values(|c: &str| c@)),
{
    let normalized_query = PrepareFtsQuery(query);
    let search_query = SearchQuery::parse(normalized_query.as_str());
    let fts_query = search_query.to_fts_query();
    if fts_query.as_str().is_empty() {
        return String::new();
    }
    let ghost cols = columns@.map_values(|c: &str| c@);
    let ghost clauses = cols.map_values(|c: Seq<char>| c + " MATCH ?"@);
    let mut parts: Vec<String> = Vec::new();
    let mut i: usize = 0;
    while i < columns.len()
        invariant
            cols == columns@.map_values(|c: &str| c@),
            clauses == cols.map_values(|c: Seq<char>| c + " MATCH ?"@),
            i <= columns.len(),
            views(parts@) == clauses.take(i as int),
        decreases columns.len() - i,
    {
        let mut item = columns[i].to_string();
        item.append(" MATCH ?");
        let ghost before = views(parts@);
        parts.push(item);
        assert(views(parts@) =~= before.push(item@));
        assert(clauses.take(i + 1) =~= clauses.take(i as int).push(columns@[i as int]@ + " MATCH ?"@));
        i = i + 1;
    }
    assert(clauses.take(columns.len() as int) =~= clauses);
    let joined = join_strings(&parts, " OR ");
    let mut out = String::from_str("(");
    out.append(joined.as_str());
    out.append(")");
    out
}

} // verus!
