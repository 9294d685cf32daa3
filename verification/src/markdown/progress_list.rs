//! A list of progress entries, exported to Markdown and read back, gives the
//! entries grouped by status, each group in the order of the list.

use vstd::prelude::*;

use crate::markdown::export::{
    progress_list_markdown, progress_markdown, progress_metadata, status_badge_text, status_count, status_name,
    status_section, ExportOptions, ProgressExport, ProgressStatus,
};
use crate::markdown::import::{
    line_progress, mark_status, progress_items, progress_list_items, progress_section, progress_section_items,
    progress_upto, status_at, status_from, ProgressView,
};
use crate::markdown::roundtrip::{
    description_text, lemma_decimal_markless, lemma_literal_no_hash_pair, lemma_markless_concat, lemma_markless_no_status,
    lemma_no_hash_pair_concat, lemma_progress_roundtrip, markless, no_hash_pair, progress_fields_markless,
};
use crate::markdown::scan::{
    concat_map, lacks, lemma_lines_concat, lemma_lines_lack, lemma_single_line, lines, lines_from, split_pat,
    split_pat_from, strip_cr, ws_run_end,
};
use crate::types::coerce::lemma_decimal_digits;
use crate::text::{is_digit, contains_seq, decimal, decimal_int, is_ws, occurs_at, starts_with_seq};

verus! {

// ---------------------------------------------------------------------------
// Statuses and descriptions
// ---------------------------------------------------------------------------

/// The status and description of each entry read.
pub open spec fn pairs(vs: Seq<ProgressView>) -> Seq<(Seq<char>, Seq<char>)> {
    vs.map_values(|v: ProgressView| (v.0, v.1))
}

/// The status and description that a line gives, where it is a status line.
pub open spec fn line_pairs(l: Seq<char>) -> Seq<(Seq<char>, Seq<char>)> {
    match status_from(l, 0) {
        Some(md) => seq![(mark_status(md.0), md.1)],
        None => Seq::empty(),
    }
}

/// The status and description of the entries of a list that have status
/// `st`, in the order of the list.
pub open spec fn status_pairs(items: Seq<ProgressExport>, st: ProgressStatus) -> Seq<(Seq<char>, Seq<char>)>
    decreases items.len(),
{
    if items.len() == 0 {
        Seq::empty()
    } else {
        status_pairs(items.drop_last(), st) + (if items.last().status == st {
            seq![(status_name(st), items.last().description@)]
        } else {
            Seq::empty()
        })
    }
}

proof fn lemma_concat_map_add<A>(a: Seq<Seq<char>>, b: Seq<Seq<char>>, f: spec_fn(Seq<char>) -> Seq<A>)
    ensures
        concat_map(a + b, f) == concat_map(a, f) + concat_map(b, f),
    decreases b.len(),
{
    if b.len() == 0 {
        assert(a + b =~= a);
        assert(concat_map(a, f) + concat_map(b, f) =~= concat_map(a, f));
    } else {
        assert((a + b).drop_last() =~= a + b.drop_last());
        assert((a + b).last() == b.last());
        lemma_concat_map_add(a, b.drop_last(), f);
        assert(concat_map(a, f) + concat_map(b.drop_last(), f) + f(b.last()) =~= concat_map(a, f) + (concat_map(
            b.drop_last(),
            f,
        ) + f(b.last())));
    }
}

proof fn lemma_pairs_add(a: Seq<ProgressView>, b: Seq<ProgressView>)
    ensures
        pairs(a + b) == pairs(a) + pairs(b),
{
    assert(pairs(a + b) =~= pairs(a) + pairs(b));
}

proof fn lemma_pairs_upto(ls: Seq<Seq<char>>, n: int)
    requires
        0 <= n <= ls.len(),
    ensures
        pairs(progress_upto(ls, n)) == concat_map(ls.take(n), |l: Seq<char>| line_pairs(l)),
    decreases n,
{
    let f = |l: Seq<char>| line_pairs(l);
    if n == 0 {
        assert(ls.take(0) =~= Seq::<Seq<char>>::empty());
        assert(pairs(progress_upto(ls, 0)) =~= Seq::<(Seq<char>, Seq<char>)>::empty());
    } else {
        lemma_pairs_upto(ls, n - 1);
        lemma_pairs_add(progress_upto(ls, n - 1), line_progress(ls, ls[n - 1]));
        assert(pairs(line_progress(ls, ls[n - 1])) =~= line_pairs(ls[n - 1]));
        assert(ls.take(n).drop_last() =~= ls.take(n - 1));
        assert(ls.take(n).last() == ls[n - 1]);
    }
}

/// The statuses and descriptions of a document's entries are those its
/// lines give, one after the other.
proof fn lemma_items_pairs(s: Seq<char>)
    ensures
        pairs(progress_items(s)) == concat_map(lines(s), |l: Seq<char>| line_pairs(l)),
{
    lemma_pairs_upto(lines(s), lines(s).len() as int);
    assert(lines(s).take(lines(s).len() as int) =~= lines(s));
}

/// Lines without a status line give nothing.
proof fn lemma_no_pairs(ls: Seq<Seq<char>>)
    requires
        forall|k: int| 0 <= k < ls.len() ==> (#[trigger] status_from(ls[k], 0)) is None,
    ensures
        concat_map(ls, |l: Seq<char>| line_pairs(l)) == Seq::<(Seq<char>, Seq<char>)>::empty(),
    decreases ls.len(),
{
    if ls.len() > 0 {
        assert(status_from(ls[ls.len() - 1], 0) is None);
        assert forall|k: int| 0 <= k < ls.drop_last().len() implies (#[trigger] status_from(ls.drop_last()[k], 0)) is None by {
            assert(ls.drop_last()[k] == ls[k]);
        }
        lemma_no_pairs(ls.drop_last());
        assert(line_pairs(ls.last()) =~= Seq::<(Seq<char>, Seq<char>)>::empty());
    }
}

/// A text without status marks gives nothing.
proof fn lemma_markless_pairs(s: Seq<char>)
    requires
        markless(s),
    ensures
        concat_map(lines(s), |l: Seq<char>| line_pairs(l)) == Seq::<(Seq<char>, Seq<char>)>::empty(),
{
    lemma_lines_lack(s, Seq::empty(), '\u{1F532}');
    lemma_lines_lack(s, Seq::empty(), '\u{1F504}');
    lemma_lines_lack(s, Seq::empty(), '\u{2705}');
    assert forall|k: int| 0 <= k < lines(s).len() implies (#[trigger] status_from(lines(s)[k], 0)) is None by {
        let l = lines(s)[k];
        assert(lacks(l, '\u{1F532}') && lacks(l, '\u{1F504}') && lacks(l, '\u{2705}'));
        lemma_markless_no_status(l, 0);
    }
    lemma_no_pairs(lines(s));
}

// ---------------------------------------------------------------------------
// Entries and status sections
// ---------------------------------------------------------------------------

/// The metadata of an entry is empty or ends a line.
proof fn lemma_metadata_end(p: ProgressExport, o: ExportOptions)
    ensures
        progress_metadata(p, o).len() == 0 || progress_metadata(p, o).last() == '\n',
{
    reveal_strlit("`\n");
    reveal_strlit("\n");
    if o.include_metadata {
        let a = "  - **ID**: `"@ + p.id@ + "`\n"@;
        let b = match p.parent_id {
            Some(parent) => "  - **Parent ID**: `"@ + decimal_int(parent as int) + "`\n"@,
            None => Seq::empty(),
        };
        let c = match (p.linked_item_type, p.linked_item_id) {
            (Some(t), Some(i)) => "  - **Linked**: "@ + t@ + " `"@ + i@ + "`\n"@,
            _ => Seq::empty(),
        };
        let d = if o.include_timestamps {
            crate::markdown::export::opt_line("  - **Date**: "@, p.timestamp, "\n"@)
        } else {
            Seq::empty()
        };
        assert(progress_metadata(p, o) == a + b + c + d);
        assert(a.last() == '\n');
        assert(b.len() == 0 || b.last() == '\n');
        assert(c.len() == 0 || c.last() == '\n');
        assert(d.len() == 0 || d.last() == '\n');
        assert((a + b).last() == '\n');
        assert((a + b + c).last() == '\n');
        assert((a + b + c + d).last() == '\n');
    }
}

/// An entry that its status line gives back as it was.
pub open spec fn entry_ok(p: ProgressExport) -> bool {
    description_text(p.description@) && progress_fields_markless(p)
}

/// An entry's Markdown gives its status and description, and ends a line.
proof fn lemma_entry_pairs(p: ProgressExport, o: ExportOptions)
    requires
        entry_ok(p),
    ensures
        concat_map(lines(progress_markdown(p, o)), |l: Seq<char>| line_pairs(l)) == seq![
            (status_name(p.status), p.description@),
        ],
        progress_markdown(p, o).len() > 0,
        progress_markdown(p, o).last() == '\n',
{
    reveal_strlit("\n");
    let m = progress_markdown(p, o);
    lemma_progress_roundtrip(p, o);
    lemma_items_pairs(m);
    assert(pairs(progress_items(m)) =~= seq![(status_name(p.status), p.description@)]);
    lemma_metadata_end(p, o);
    let head = "- "@ + status_badge_text(p.status) + " "@ + p.description@ + "\n"@;
    assert(m == head + progress_metadata(p, o));
    if progress_metadata(p, o).len() == 0 {
        assert(m =~= head);
    }
}

/// The Markdown of the entries of one status gives their statuses and
/// descriptions in order, and is empty or ends a line.
proof fn lemma_section_pairs(items: Seq<ProgressExport>, st: ProgressStatus, o: ExportOptions)
    requires
        forall|k: int| 0 <= k < items.len() ==> entry_ok(#[trigger] items[k]),
    ensures
        concat_map(lines(status_section(items, st, o)), |l: Seq<char>| line_pairs(l)) == status_pairs(items, st),
        status_section(items, st, o).len() == 0 || status_section(items, st, o).last() == '\n',
    decreases items.len(),
{
    let f = |l: Seq<char>| line_pairs(l);
    if items.len() == 0 {
        assert(lines(Seq::<char>::empty()) =~= Seq::<Seq<char>>::empty()) by {
            reveal_with_fuel(lines_from, 2);
        }
    } else {
        let init = items.drop_last();
        assert forall|k: int| 0 <= k < init.len() implies entry_ok(#[trigger] init[k]) by {
            assert(init[k] == items[k]);
        }
        lemma_section_pairs(init, st, o);
        let a = status_section(init, st, o);
        let p = items.last();
        assert(entry_ok(items[items.len() - 1]));
        if p.status == st {
            let m = progress_markdown(p, o);
            lemma_entry_pairs(p, o);
            assert(status_section(items, st, o) == a + m);
            if a.len() == 0 {
                assert(a + m =~= m);
                assert(status_pairs(init, st) =~= Seq::<(Seq<char>, Seq<char>)>::empty()) by {
                    assert(concat_map(lines(a), f) == status_pairs(init, st));
                    assert(lines(a) =~= Seq::<Seq<char>>::empty()) by {
                        reveal_with_fuel(lines_from, 2);
                    }
                }
                assert(status_pairs(items, st) =~= seq![(status_name(st), p.description@)]);
            } else {
                lemma_lines_concat(a, m, Seq::empty());
                lemma_concat_map_add(lines(a), lines(m), f);
            }
            assert((a + m).last() == m.last());
        } else {
            assert(status_section(items, st, o) =~= a);
            assert(status_pairs(items, st) =~= status_pairs(init, st));
        }
    }
}

// ---------------------------------------------------------------------------
// Splitting at section headings
// ---------------------------------------------------------------------------

proof fn lemma_concat_map_one<A>(x: Seq<char>, f: spec_fn(Seq<char>) -> Seq<A>)
    ensures
        concat_map(seq![x], f) == f(x),
{
    assert(seq![x].drop_last() =~= Seq::<Seq<char>>::empty());
    assert(concat_map(Seq::<Seq<char>>::empty(), f) == Seq::<A>::empty());
    assert(Seq::<A>::empty() + f(x) =~= f(x));
}

/// What `## ` matched at `i` reads.
proof fn lemma_rule_chars(s: Seq<char>, i: int)
    requires
        occurs_at(s, "## "@, i),
    ensures
        s[i] == '#',
        s[i + 1] == '#',
        s[i + 2] == ' ',
{
    reveal_strlit("## ");
    assert(s.subrange(i, i + 3)[0] == s[i]);
    assert(s.subrange(i, i + 3)[1] == s[i + 1]);
    assert(s.subrange(i, i + 3)[2] == s[i + 2]);
}

/// Text without two `#` side by side holds no `## `.
proof fn lemma_hash_pair_no_rule(s: Seq<char>)
    requires
        no_hash_pair(s),
    ensures
        !contains_seq(s, "## "@),
{
    reveal_strlit("## ");
    assert forall|i: int| !occurs_at(s, "## "@, i) by {
        if occurs_at(s, "## "@, i) {
            lemma_rule_chars(s, i);
            assert(s[i] == '#' && s[i + 1] == '#');
        }
    }
}

/// No `## ` starts inside text that holds none and ends a line, whatever
/// follows it.
proof fn lemma_no_rule_start(a: Seq<char>, rest: Seq<char>, i: int)
    requires
        !contains_seq(a, "## "@),
        a.len() > 0,
        a.last() == '\n',
        0 <= i < a.len(),
    ensures
        !occurs_at(a + rest, "## "@, i),
{
    reveal_strlit("## ");
    let t = a + rest;
    if occurs_at(t, "## "@, i) {
        if i + 3 <= a.len() {
            assert(t.subrange(i, i + 3) =~= a.subrange(i, i + 3));
            assert(occurs_at(a, "## "@, i));
        } else {
            lemma_rule_chars(t, i);
            assert(t[a.len() - 1] == a.last());
        }
    }
}

/// Joining two texts without `## `, the first ending a line, gives text
/// without `## `.
proof fn lemma_no_rule_concat(a: Seq<char>, b: Seq<char>)
    requires
        !contains_seq(a, "## "@),
        !contains_seq(b, "## "@),
        a.len() == 0 || a.last() == '\n',
    ensures
        !contains_seq(a + b, "## "@),
{
    reveal_strlit("## ");
    if a.len() == 0 {
        assert(a + b =~= b);
    } else {
        assert forall|i: int| !occurs_at(a + b, "## "@, i) by {
            if 0 <= i < a.len() {
                lemma_no_rule_start(a, b, i);
            } else if i >= a.len() && occurs_at(a + b, "## "@, i) {
                assert((a + b).subrange(i, i + 3) =~= b.subrange(i - a.len(), i - a.len() + 3));
                assert(occurs_at(b, "## "@, i - a.len()));
            }
        }
    }
}

/// Splitting passes over text without `## ` that ends a line.
proof fn lemma_split_prefix(a: Seq<char>, rest: Seq<char>, cur: Seq<char>)
    requires
        !contains_seq(a, "## "@),
        a.len() == 0 || a.last() == '\n',
    ensures
        split_pat_from(a + rest, "## "@, cur) == split_pat_from(rest, "## "@, cur + a),
    decreases a.len(),
{
    if a.len() == 0 {
        assert(a + rest =~= rest);
        assert(cur + a =~= cur);
    } else {
        lemma_no_rule_start(a, rest, 0);
        let a1 = a.drop_first();
        assert((a + rest).drop_first() =~= a1 + rest);
        assert((a + rest)[0] == a[0]);
        assert forall|i: int| !occurs_at(a1, "## "@, i) by {
            if occurs_at(a1, "## "@, i) {
                assert(a.subrange(i + 1, i + 1 + "## "@.len()) =~= a1.subrange(i, i + "## "@.len()));
                assert(occurs_at(a, "## "@, i + 1));
            }
        }
        if a1.len() > 0 {
            assert(a1.last() == a.last());
        }
        lemma_split_prefix(a1, rest, cur.push(a[0]));
        assert(cur.push(a[0]) + a1 =~= cur + a);
    }
}

/// A `## ` ends the piece read so far.
proof fn lemma_split_rule(b: Seq<char>, cur: Seq<char>)
    ensures
        split_pat_from("## "@ + b, "## "@, cur) == seq![cur] + split_pat_from(b, "## "@, Seq::empty()),
{
    reveal_strlit("## ");
    let s = "## "@ + b;
    assert(s.subrange(0, 3) =~= "## "@);
    assert(starts_with_seq(s, "## "@));
    assert(s.skip(3) =~= b);
}

/// Sections, each behind its `## `.
pub open spec fn rules_from(bs: Seq<Seq<char>>) -> Seq<char>
    decreases bs.len(),
{
    if bs.len() == 0 {
        Seq::empty()
    } else {
        "## "@ + bs[0] + rules_from(bs.drop_first())
    }
}

/// A section where it is there.
pub open spec fn opt_piece(present: bool, x: Seq<char>) -> Seq<Seq<char>> {
    if present {
        seq![x]
    } else {
        Seq::empty()
    }
}

proof fn lemma_rules_add(a: Seq<Seq<char>>, b: Seq<Seq<char>>)
    ensures
        rules_from(a + b) == rules_from(a) + rules_from(b),
    decreases a.len(),
{
    if a.len() == 0 {
        assert(a + b =~= b);
        assert(Seq::<char>::empty() + rules_from(b) =~= rules_from(b));
    } else {
        assert((a + b)[0] == a[0]);
        assert((a + b).drop_first() =~= a.drop_first() + b);
        lemma_rules_add(a.drop_first(), b);
        assert("## "@ + a[0] + (rules_from(a.drop_first()) + rules_from(b)) =~= "## "@ + a[0] + rules_from(
            a.drop_first(),
        ) + rules_from(b));
    }
}

proof fn lemma_rules_opt(present: bool, x: Seq<char>)
    ensures
        rules_from(opt_piece(present, x)) == if present {
            "## "@ + x
        } else {
            Seq::<char>::empty()
        },
{
    if present {
        assert(seq![x].drop_first() =~= Seq::<Seq<char>>::empty());
        assert(rules_from(Seq::<Seq<char>>::empty()) == Seq::<char>::empty());
        assert("## "@ + x + Seq::<char>::empty() =~= "## "@ + x);
    }
}

/// Sections without `## ` inside, each ending a line, split back apart.
proof fn lemma_split_rules(bs: Seq<Seq<char>>, cur: Seq<char>)
    requires
        forall|k: int|
            0 <= k < bs.len() ==> !contains_seq(#[trigger] bs[k], "## "@) && bs[k].len() > 0 && bs[k].last()
                == '\n',
    ensures
        split_pat_from(rules_from(bs), "## "@, cur) == seq![cur] + bs,
    decreases bs.len(),
{
    if bs.len() == 0 {
        assert(seq![cur] + bs =~= seq![cur]);
    } else {
        let b0 = bs[0];
        let tail = bs.drop_first();
        let r = rules_from(tail);
        assert("## "@ + b0 + r =~= "## "@ + (b0 + r));
        lemma_split_rule(b0 + r, cur);
        lemma_split_prefix(b0, r, Seq::empty());
        assert(Seq::<char>::empty() + b0 =~= b0);
        assert forall|k: int| 0 <= k < tail.len() implies !contains_seq(#[trigger] tail[k], "## "@) && tail[k].len()
            > 0 && tail[k].last() == '\n' by {
            assert(tail[k] == bs[k + 1]);
        }
        lemma_split_rules(tail, b0);
        assert(seq![cur] + (seq![b0] + tail) =~= seq![cur] + bs);
    }
}

// ---------------------------------------------------------------------------
// Headings and bodies of status sections
// ---------------------------------------------------------------------------

proof fn lemma_status_from_none(l: Seq<char>, p: int)
    requires
        0 <= p,
        forall|q: int| p <= q < l.len() ==> (#[trigger] status_at(l, q)) is None,
    ensures
        status_from(l, p) is None,
    decreases l.len() - p,
{
    if p < l.len() {
        assert(status_at(l, p) is None);
        lemma_status_from_none(l, p + 1);
    }
}

/// A heading `## MARK Word` is no status line.
proof fn lemma_heading_no_status(m: char, w: Seq<char>)
    requires
        w.len() > 0,
        w[0] != '*',
        !is_ws(w[0]),
        markless(w),
    ensures
        status_from("## "@ + seq![m] + " "@ + w, 0) is None,
{
    reveal_strlit("## ");
    reveal_strlit(" ");
    reveal_strlit("**");
    let l = "## "@ + seq![m] + " "@ + w;
    assert(l[0] == '#' && l[1] == '#' && l[2] == ' ' && l[3] == m && l[4] == ' ' && l[5] == w[0]);
    assert forall|q: int| 0 <= q < l.len() implies (#[trigger] status_at(l, q)) is None by {
        if q == 3 {
            assert(ws_run_end(l, 5) == 5);
            assert(ws_run_end(l, 4) == 5);
            if 7 <= l.len() {
                assert(l.subrange(5, 7)[0] == l[5]);
            }
            assert(!occurs_at(l, "**"@, 5));
        } else if q >= 5 {
            assert(l[q] == w[q - 5]);
        }
    }
    lemma_status_from_none(l, 0);
}

/// A heading line and a blank line give nothing; what follows gives what
/// it gives.
proof fn lemma_body_pairs(h: Seq<char>, x: Seq<char>)
    requires
        h.len() > 0,
        lacks(h, '\n'),
        h.last() != '\r',
        status_from(h, 0) is None,
    ensures
        concat_map(lines(h + "\n\n"@ + x), |l: Seq<char>| line_pairs(l)) == concat_map(
            lines(x),
            |l: Seq<char>| line_pairs(l),
        ),
{
    reveal_strlit("\n\n");
    let f = |l: Seq<char>| line_pairs(l);
    let e = Seq::<char>::empty();
    let a = h + seq!['\n'];
    let nl = seq!['\n'];
    assert(h + "\n\n"@ + x =~= a + (nl + x));
    lemma_lines_concat(a, nl + x, e);
    lemma_single_line(h, e);
    assert(e + h =~= h);
    assert(strip_cr(h) == h);
    lemma_lines_concat(nl, x, e);
    lemma_single_line(e, e);
    assert(e + nl =~= nl);
    assert(strip_cr(e) == e);
    assert(lines(nl) == seq![e]);
    assert(lines(a) == seq![h]);
    assert(line_pairs(h) =~= Seq::<(Seq<char>, Seq<char>)>::empty());
    assert(status_from(e, 0) is None);
    assert(line_pairs(e) =~= Seq::<(Seq<char>, Seq<char>)>::empty());
    lemma_concat_map_one(h, f);
    lemma_concat_map_one(e, f);
    lemma_concat_map_add(seq![e], lines(x), f);
    lemma_concat_map_add(seq![h], seq![e] + lines(x), f);
    assert(lines(h + "\n\n"@ + x) == seq![h] + (seq![e] + lines(x)));
    assert(Seq::<(Seq<char>, Seq<char>)>::empty() + (Seq::<(Seq<char>, Seq<char>)>::empty() + concat_map(
        lines(x),
        f,
    )) =~= concat_map(lines(x), f));
}

/// The body of a status section gives what its entries give.
proof fn lemma_section_text_pairs(h: Seq<char>, sec: Seq<char>, tail: Seq<char>)
    requires
        h.len() > 0,
        lacks(h, '\n'),
        h.last() != '\r',
        status_from(h, 0) is None,
        sec.len() == 0 || sec.last() == '\n',
        markless(tail),
    ensures
        concat_map(lines(h + "\n\n"@ + (sec + tail)), |l: Seq<char>| line_pairs(l)) == concat_map(
            lines(sec),
            |l: Seq<char>| line_pairs(l),
        ),
{
    let f = |l: Seq<char>| line_pairs(l);
    lemma_body_pairs(h, sec + tail);
    lemma_markless_pairs(tail);
    if sec.len() > 0 {
        lemma_lines_concat(sec, tail, Seq::empty());
        lemma_concat_map_add(lines(sec), lines(tail), f);
        assert(concat_map(lines(sec), f) + Seq::<(Seq<char>, Seq<char>)>::empty() =~= concat_map(lines(sec), f));
    } else {
        assert(sec + tail =~= tail);
        assert(lines(sec) =~= Seq::<Seq<char>>::empty()) by {
            reveal_with_fuel(lines_from, 2);
        }
    }
}

// ---------------------------------------------------------------------------
// Counts and sections
// ---------------------------------------------------------------------------

proof fn lemma_status_pairs_len(items: Seq<ProgressExport>, st: ProgressStatus)
    ensures
        status_pairs(items, st).len() == status_count(items, st),
    decreases items.len(),
{
    if items.len() > 0 {
        lemma_status_pairs_len(items.drop_last(), st);
    }
}

proof fn lemma_counts_sum(items: Seq<ProgressExport>)
    ensures
        status_count(items, ProgressStatus::Todo) + status_count(items, ProgressStatus::InProgress)
            + status_count(items, ProgressStatus::Done) == items.len(),
    decreases items.len(),
{
    if items.len() > 0 {
        lemma_counts_sum(items.drop_last());
    }
}

/// An entry's Markdown ends a line.
proof fn lemma_markdown_end(p: ProgressExport, o: ExportOptions)
    ensures
        progress_markdown(p, o).len() > 0,
        progress_markdown(p, o).last() == '\n',
{
    reveal_strlit("\n");
    lemma_metadata_end(p, o);
    let head = "- "@ + status_badge_text(p.status) + " "@ + p.description@ + "\n"@;
    assert(progress_markdown(p, o) == head + progress_metadata(p, o));
    if progress_metadata(p, o).len() == 0 {
        assert(head + progress_metadata(p, o) =~= head);
    }
}

/// The entries of one status, none holding `## `, hold none together, and
/// end a line.
proof fn lemma_section_no_rule(items: Seq<ProgressExport>, st: ProgressStatus, o: ExportOptions)
    requires
        forall|k: int| 0 <= k < items.len() ==> !contains_seq(progress_markdown(#[trigger] items[k], o), "## "@),
    ensures
        !contains_seq(status_section(items, st, o), "## "@),
        status_section(items, st, o).len() == 0 || status_section(items, st, o).last() == '\n',
    decreases items.len(),
{
    if items.len() == 0 {
        reveal_strlit("## ");
        assert forall|i: int| !occurs_at(Seq::<char>::empty(), "## "@, i) by {}
    } else {
        let init = items.drop_last();
        assert forall|k: int| 0 <= k < init.len() implies !contains_seq(
            progress_markdown(#[trigger] init[k], o),
            "## "@,
        ) by {
            assert(init[k] == items[k]);
        }
        lemma_section_no_rule(init, st, o);
        let a = status_section(init, st, o);
        let p = items.last();
        assert(!contains_seq(progress_markdown(items[items.len() - 1], o), "## "@));
        if p.status == st {
            let m = progress_markdown(p, o);
            lemma_markdown_end(p, o);
            lemma_no_rule_concat(a, m);
            assert(status_section(items, st, o) == a + m);
            assert((a + m).last() == m.last());
        } else {
            assert(status_section(items, st, o) =~= a);
        }
    }
}

/// Where there are done entries, their section names the status.
proof fn lemma_section_done(items: Seq<ProgressExport>, o: ExportOptions)
    requires
        status_count(items, ProgressStatus::Done) > 0,
    ensures
        contains_seq(status_section(items, ProgressStatus::Done, o), "DONE"@),
    decreases items.len(),
{
    reveal_strlit("DONE");
    let init = items.drop_last();
    let a = status_section(init, ProgressStatus::Done, o);
    let p = items.last();
    if p.status == ProgressStatus::Done {
        reveal_strlit("- ");
        reveal_strlit("\u{2705} **DONE**");
        let m = progress_markdown(p, o);
        assert(m.subrange(6, 10) =~= "DONE"@);
        assert(status_section(items, ProgressStatus::Done, o) == a + m);
        let i: int = a.len() as int + 6;
        assert((a + m).subrange(i, i + 4) =~= m.subrange(6, 10));
        assert(occurs_at(a + m, "DONE"@, i));
    } else {
        lemma_section_done(init, o);
        assert(status_section(items, ProgressStatus::Done, o) =~= a);
    }
}

// ---------------------------------------------------------------------------
// The whole list
// ---------------------------------------------------------------------------

/// The title and count that open an exported list.
pub open spec fn list_head(n: nat) -> Seq<char> {
    "# ConPort Progress Export\n\n"@ + "Exported "@ + decimal(n) + " progress entry(s)\n\n"@
}

/// A status section after its `## `: the mark and name, a blank line, the
/// entries and what closes the section.
pub open spec fn section_body(m: char, w: Seq<char>, sec: Seq<char>, tail: Seq<char>) -> Seq<char> {
    seq![m] + " "@ + w + "\n\n"@ + (sec + tail)
}

/// The status sections of an exported list that are there, in order.
pub open spec fn list_bodies(items: Seq<ProgressExport>, o: ExportOptions) -> Seq<Seq<char>> {
    opt_piece(
        status_count(items, ProgressStatus::Todo) > 0,
        section_body('\u{1F532}', "TODO"@, status_section(items, ProgressStatus::Todo, o), "\n"@),
    ) + opt_piece(
        status_count(items, ProgressStatus::InProgress) > 0,
        section_body('\u{1F504}', "In Progress"@, status_section(items, ProgressStatus::InProgress, o), "\n"@),
    ) + opt_piece(
        status_count(items, ProgressStatus::Done) > 0,
        section_body('\u{2705}', "Done"@, status_section(items, ProgressStatus::Done, o), Seq::empty()),
    )
}

proof fn lemma_doc_shape(items: Seq<ProgressExport>, o: ExportOptions)
    requires
        items.len() > 0,
    ensures
        progress_list_markdown(items, o) == list_head(items.len()) + rules_from(list_bodies(items, o)),
{
    reveal_strlit("## \u{1F532} TODO\n\n");
    reveal_strlit("## \u{1F504} In Progress\n\n");
    reveal_strlit("## \u{2705} Done\n\n");
    reveal_strlit("## ");
    reveal_strlit(" ");
    reveal_strlit("TODO");
    reveal_strlit("In Progress");
    reveal_strlit("Done");
    reveal_strlit("\n\n");
    reveal_strlit("\n");
    let ct = status_count(items, ProgressStatus::Todo) > 0;
    let ci = status_count(items, ProgressStatus::InProgress) > 0;
    let cd = status_count(items, ProgressStatus::Done) > 0;
    let st = status_section(items, ProgressStatus::Todo, o);
    let si = status_section(items, ProgressStatus::InProgress, o);
    let sd = status_section(items, ProgressStatus::Done, o);
    let tb = section_body('\u{1F532}', "TODO"@, st, "\n"@);
    let ib = section_body('\u{1F504}', "In Progress"@, si, "\n"@);
    let db = section_body('\u{2705}', "Done"@, sd, Seq::empty());
    let pt = opt_piece(ct, tb);
    let pi = opt_piece(ci, ib);
    let pd = opt_piece(cd, db);
    lemma_rules_opt(ct, tb);
    lemma_rules_opt(ci, ib);
    lemma_rules_opt(cd, db);
    lemma_rules_add(pt, pi);
    lemma_rules_add(pt + pi, pd);
    let t = if ct {
        "## \u{1F532} TODO\n\n"@ + st + "\n"@
    } else {
        Seq::<char>::empty()
    };
    let i = if ci {
        "## \u{1F504} In Progress\n\n"@ + si + "\n"@
    } else {
        Seq::<char>::empty()
    };
    let d = if cd {
        "## \u{2705} Done\n\n"@ + sd
    } else {
        Seq::<char>::empty()
    };
    if ct {
        assert(t =~= "## "@ + tb);
    }
    if ci {
        assert(i =~= "## "@ + ib);
    }
    if cd {
        assert(d =~= "## "@ + db);
    }
    assert(rules_from(list_bodies(items, o)) == t + i + d);
    assert(progress_list_markdown(items, o) == list_head(items.len()) + t + i + d);
    assert(list_head(items.len()) + t + i + d =~= list_head(items.len()) + (t + i + d));
}

/// The opening of a list holds no `## ` and no status mark, and ends a line.
proof fn lemma_list_head(n: nat)
    ensures
        !contains_seq(list_head(n), "## "@),
        markless(list_head(n)),
        list_head(n).len() > 0,
        list_head(n).last() == '\n',
{
    reveal_strlit("# ConPort Progress Export\n\n");
    reveal_strlit("Exported ");
    reveal_strlit(" progress entry(s)\n\n");
    let a = "# ConPort Progress Export\n\n"@;
    let b = "Exported "@;
    let d = decimal(n);
    let c = " progress entry(s)\n\n"@;
    lemma_decimal_digits(n);
    lemma_decimal_markless(n);
    assert(lacks(a.skip(1), '#')) by {
        assert forall|i: int| 0 <= i < a.skip(1).len() implies a.skip(1)[i] != '#' by {
            assert(a.skip(1)[i] == a[i + 1]);
        }
    }
    lemma_literal_no_hash_pair(a);
    assert(lacks(d, '#')) by {
        assert forall|i: int| 0 <= i < d.len() implies d[i] != '#' by {
            assert(is_digit(d[i]));
        }
    }
    assert(no_hash_pair(b));
    assert(no_hash_pair(d));
    assert(no_hash_pair(c));
    lemma_no_hash_pair_concat(a, b);
    lemma_no_hash_pair_concat(a + b, d);
    lemma_no_hash_pair_concat(a + b + d, c);
    lemma_hash_pair_no_rule(a + b + d + c);
    lemma_markless_concat(a, b);
    lemma_markless_concat(a + b, d);
    lemma_markless_concat(a + b + d, c);
}

/// A status section holds no `## ` where its entries hold none, and ends a
/// line.
proof fn lemma_body_split_ok(m: char, w: Seq<char>, sec: Seq<char>, tail: Seq<char>)
    requires
        m != '#',
        lacks(w, '#'),
        !contains_seq(sec, "## "@),
        sec.len() == 0 || sec.last() == '\n',
        tail == "\n"@ || tail.len() == 0,
    ensures
        !contains_seq(section_body(m, w, sec, tail), "## "@),
        section_body(m, w, sec, tail).len() > 0,
        section_body(m, w, sec, tail).last() == '\n',
{
    reveal_strlit(" ");
    reveal_strlit("\n\n");
    reveal_strlit("\n");
    let lit = seq![m] + " "@ + w + "\n\n"@;
    assert(lacks(lit, '#')) by {
        assert forall|i: int| 0 <= i < lit.len() implies lit[i] != '#' by {
            if 2 <= i < 2 + w.len() {
                assert(lit[i] == w[i - 2]);
            }
        }
    }
    assert(no_hash_pair(lit));
    lemma_hash_pair_no_rule(lit);
    let rest = sec + tail;
    if tail.len() == 0 {
        assert(rest =~= sec);
    } else {
        assert(no_hash_pair(tail));
        lemma_hash_pair_no_rule(tail);
        lemma_no_rule_concat(sec, tail);
    }
    lemma_no_rule_concat(lit, rest);
    assert(section_body(m, w, sec, tail) =~= lit + rest);
    if rest.len() == 0 {
        assert(lit + rest =~= lit);
    } else {
        assert((lit + rest).last() == rest.last());
        if tail.len() > 0 {
            assert(rest.last() == tail.last());
        }
    }
}

/// A status section gives the statuses and descriptions of its entries.
proof fn lemma_piece_pairs(
    items: Seq<ProgressExport>,
    st: ProgressStatus,
    o: ExportOptions,
    m: char,
    w: Seq<char>,
    tail: Seq<char>,
)
    requires
        forall|k: int| 0 <= k < items.len() ==> entry_ok(#[trigger] items[k]),
        m != '\n',
        w.len() > 0,
        w[0] != '*',
        !is_ws(w[0]),
        markless(w),
        lacks(w, '\n'),
        w.last() != '\r',
        markless(tail),
        progress_section(section_body(m, w, status_section(items, st, o), tail)),
    ensures
        pairs(progress_section_items(section_body(m, w, status_section(items, st, o), tail))) == status_pairs(
            items,
            st,
        ),
{
    reveal_strlit("## ");
    reveal_strlit(" ");
    let sec = status_section(items, st, o);
    let body = section_body(m, w, sec, tail);
    let h = "## "@ + seq![m] + " "@ + w;
    assert("## "@ + body =~= h + "\n\n"@ + (sec + tail));
    assert(lacks(h, '\n')) by {
        assert forall|i: int| 0 <= i < h.len() implies h[i] != '\n' by {
            if i >= 5 {
                assert(h[i] == w[i - 5]);
            }
        }
    }
    assert(h.last() == w.last());
    lemma_heading_no_status(m, w);
    lemma_section_pairs(items, st, o);
    lemma_section_text_pairs(h, sec, tail);
    lemma_items_pairs("## "@ + body);
}

proof fn lemma_pairs_concat_map(
    xs: Seq<Seq<char>>,
    g: spec_fn(Seq<char>) -> Seq<ProgressView>,
    f: spec_fn(Seq<char>) -> Seq<(Seq<char>, Seq<char>)>,
)
    requires
        forall|x: Seq<char>| #[trigger] f(x) == pairs(g(x)),
    ensures
        pairs(concat_map(xs, g)) == concat_map(xs, f),
    decreases xs.len(),
{
    if xs.len() == 0 {
        assert(pairs(Seq::<ProgressView>::empty()) =~= Seq::<(Seq<char>, Seq<char>)>::empty());
    } else {
        lemma_pairs_concat_map(xs.drop_last(), g, f);
        lemma_pairs_add(concat_map(xs.drop_last(), g), g(xs.last()));
        assert(f(xs.last()) == pairs(g(xs.last())));
    }
}

proof fn lemma_opt_pairs<A>(c: bool, x: Seq<char>, f: spec_fn(Seq<char>) -> Seq<A>)
    ensures
        concat_map(opt_piece(c, x), f) == if c {
            f(x)
        } else {
            Seq::<A>::empty()
        },
{
    if c {
        lemma_concat_map_one(x, f);
    }
}

/// The sections of a list, split at their headings and read back, give
/// the entries of each status in turn.
proof fn lemma_list_pieces(items: Seq<ProgressExport>, o: ExportOptions)
    requires
        items.len() > 0,
        forall|k: int| 0 <= k < items.len() ==> entry_ok(#[trigger] items[k]),
        forall|k: int| 0 <= k < items.len() ==> !contains_seq(progress_markdown(#[trigger] items[k], o), "## "@),
    ensures
        split_pat(progress_list_markdown(items, o), "## "@) == seq![list_head(items.len())] + list_bodies(items, o),
{
    reveal_strlit("TODO");
    reveal_strlit("In Progress");
    reveal_strlit("Done");
    reveal_strlit("\n");
    let n = items.len();
    let h0 = list_head(n);
    let bs = list_bodies(items, o);
    lemma_doc_shape(items, o);
    lemma_list_head(n);
    let st = status_section(items, ProgressStatus::Todo, o);
    let si = status_section(items, ProgressStatus::InProgress, o);
    let sd = status_section(items, ProgressStatus::Done, o);
    lemma_section_no_rule(items, ProgressStatus::Todo, o);
    lemma_section_no_rule(items, ProgressStatus::InProgress, o);
    lemma_section_no_rule(items, ProgressStatus::Done, o);
    lemma_body_split_ok('\u{1F532}', "TODO"@, st, "\n"@);
    lemma_body_split_ok('\u{1F504}', "In Progress"@, si, "\n"@);
    lemma_body_split_ok('\u{2705}', "Done"@, sd, Seq::empty());
    let tb = section_body('\u{1F532}', "TODO"@, st, "\n"@);
    let ib = section_body('\u{1F504}', "In Progress"@, si, "\n"@);
    let db = section_body('\u{2705}', "Done"@, sd, Seq::empty());
    let pt = opt_piece(status_count(items, ProgressStatus::Todo) > 0, tb);
    let pi = opt_piece(status_count(items, ProgressStatus::InProgress) > 0, ib);
    let pd = opt_piece(status_count(items, ProgressStatus::Done) > 0, db);
    assert(bs == pt + pi + pd);
    assert forall|k: int| 0 <= k < bs.len() implies !contains_seq(#[trigger] bs[k], "## "@) && bs[k].len() > 0
        && bs[k].last() == '\n' by {
        if k < pt.len() {
            assert(bs[k] == tb);
        } else if k < pt.len() + pi.len() {
            assert(bs[k] == ib);
        } else {
            assert(bs[k] == db);
        }
    }
    lemma_split_prefix(h0, rules_from(bs), Seq::empty());
    assert(Seq::<char>::empty() + h0 =~= h0);
    lemma_split_rules(bs, h0);
}

/// A status section that is there gives the statuses and descriptions of
/// its entries; one that is not there stands for a status without entries.
proof fn lemma_opt_section_pairs(
    items: Seq<ProgressExport>,
    st: ProgressStatus,
    o: ExportOptions,
    m: char,
    w: Seq<char>,
    tail: Seq<char>,
    f: spec_fn(Seq<char>) -> Seq<(Seq<char>, Seq<char>)>,
)
    requires
        forall|k: int| 0 <= k < items.len() ==> entry_ok(#[trigger] items[k]),
        forall|x: Seq<char>| #[trigger] f(x) == pairs(progress_section_items(x)),
        m != '\n',
        w.len() > 0,
        w[0] != '*',
        !is_ws(w[0]),
        markless(w),
        lacks(w, '\n'),
        w.last() != '\r',
        markless(tail),
        status_count(items, st) > 0 ==> progress_section(section_body(m, w, status_section(items, st, o), tail)),
    ensures
        concat_map(
            opt_piece(status_count(items, st) > 0, section_body(m, w, status_section(items, st, o), tail)),
            f,
        ) == status_pairs(items, st),
{
    let body = section_body(m, w, status_section(items, st, o), tail);
    lemma_opt_pairs(status_count(items, st) > 0, body, f);
    lemma_status_pairs_len(items, st);
    if status_count(items, st) > 0 {
        lemma_piece_pairs(items, st, o, m, w, tail);
        assert(f(body) == pairs(progress_section_items(body)));
    } else {
        assert(status_pairs(items, st) =~= Seq::<(Seq<char>, Seq<char>)>::empty());
    }
}

/// Exporting a list of progress entries and reading it back gives the
/// status and description of each entry, those to do first, then those in
/// progress, then those done, each group in the order of the list. This
/// holds where each description is text on one line that does not begin
/// with whitespace, no field the export writes holds a status mark, and no
/// entry's Markdown holds `## `, which the reader takes for a new section.
pub proof fn lemma_progress_list_roundtrip(items: Seq<ProgressExport>, o: ExportOptions)
    requires
        items.len() > 0,
        forall|k: int| 0 <= k < items.len() ==> entry_ok(#[trigger] items[k]),
        forall|k: int| 0 <= k < items.len() ==> !contains_seq(progress_markdown(#[trigger] items[k], o), "## "@),
    ensures
        pairs(progress_list_items(progress_list_markdown(items, o))) == status_pairs(items, ProgressStatus::Todo)
            + status_pairs(items, ProgressStatus::InProgress) + status_pairs(items, ProgressStatus::Done),
{
    reveal_strlit("## ");
    reveal_strlit(" ");
    reveal_strlit("TODO");
    reveal_strlit("In Progress");
    reveal_strlit("Done");
    reveal_strlit("DONE");
    reveal_strlit("\n\n");
    reveal_strlit("\n");
    let doc = progress_list_markdown(items, o);
    let n = items.len();
    let h0 = list_head(n);
    let bs = list_bodies(items, o);
    lemma_list_pieces(items, o);
    lemma_list_head(n);
    let st = status_section(items, ProgressStatus::Todo, o);
    let si = status_section(items, ProgressStatus::InProgress, o);
    let sd = status_section(items, ProgressStatus::Done, o);
    let tb = section_body('\u{1F532}', "TODO"@, st, "\n"@);
    let ib = section_body('\u{1F504}', "In Progress"@, si, "\n"@);
    let db = section_body('\u{2705}', "Done"@, sd, Seq::empty());
    let pt = opt_piece(status_count(items, ProgressStatus::Todo) > 0, tb);
    let pi = opt_piece(status_count(items, ProgressStatus::InProgress) > 0, ib);
    let pd = opt_piece(status_count(items, ProgressStatus::Done) > 0, db);
    let g = |x: Seq<char>| progress_section_items(x);
    let f = |x: Seq<char>| pairs(progress_section_items(x));
    let all = concat_map(split_pat(doc, "## "@), g);
    lemma_pairs_concat_map(seq![h0] + bs, g, f);
    lemma_concat_map_add(seq![h0], bs, f);
    lemma_concat_map_one(h0, f);
    assert(bs == pt + pi + pd);
    lemma_concat_map_add(pt + pi, pd, f);
    lemma_concat_map_add(pt, pi, f);
    // The opening gives nothing.
    lemma_markless_concat("## "@, h0);
    lemma_items_pairs("## "@ + h0);
    lemma_markless_pairs("## "@ + h0);
    assert(f(h0) =~= Seq::<(Seq<char>, Seq<char>)>::empty());
    // Each status section gives its entries.
    if status_count(items, ProgressStatus::Todo) > 0 {
        assert(tb.subrange(2, 6) =~= "TODO"@);
        assert(occurs_at(tb, "TODO"@, 2));
    }
    lemma_opt_section_pairs(items, ProgressStatus::Todo, o, '\u{1F532}', "TODO"@, "\n"@, f);
    if status_count(items, ProgressStatus::InProgress) > 0 {
        assert(ib.subrange(2, 13) =~= "In Progress"@);
        assert(occurs_at(ib, "In Progress"@, 2));
    }
    lemma_opt_section_pairs(items, ProgressStatus::InProgress, o, '\u{1F504}', "In Progress"@, "\n"@, f);
    if status_count(items, ProgressStatus::Done) > 0 {
        lemma_section_done(items, o);
        let i = choose|i: int| occurs_at(sd, "DONE"@, i);
        let j: int = i + 8;
        assert(db.subrange(j, j + 4) =~= sd.subrange(i, i + 4));
        assert(occurs_at(db, "DONE"@, j));
    }
    lemma_opt_section_pairs(items, ProgressStatus::Done, o, '\u{2705}', "Done"@, Seq::empty(), f);
    let total = status_pairs(items, ProgressStatus::Todo) + status_pairs(items, ProgressStatus::InProgress)
        + status_pairs(items, ProgressStatus::Done);
    assert(pairs(all) =~= total);
    lemma_counts_sum(items);
    lemma_status_pairs_len(items, ProgressStatus::Todo);
    lemma_status_pairs_len(items, ProgressStatus::InProgress);
    lemma_status_pairs_len(items, ProgressStatus::Done);
    assert(all.len() > 0);
}

} // verus!
