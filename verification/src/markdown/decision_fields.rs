//! The date and the tags of a decision, read back from the Markdown that the
//! exporter writes.

use vstd::prelude::*;

use crate::markdown::export::{decision_markdown, decision_metadata, opt_line, DecisionExport, ExportOptions};
use crate::markdown::import::{decision_items, field_at, field_from, last_field, tags_of};
use crate::markdown::roundtrip::{
    decision_fields_inline, lemma_decision_roundtrip, lemma_no_field_from, lemma_piece_lines,
    lemma_ws_run_end_ge, lemma_ws_run_end_le, opt_lines, section_opt, title_text,
};
use crate::markdown::scan::{
    lacks, lemma_lines_concat, lemma_lines_lack, lemma_single_line, lines, lines_from, nonempty_trimmed,
    split_char, split_pat_from, strip_cr, ws_run_end,
};
use crate::text::{is_ws, join, occurs_at, starts_with_seq, trim, trim_end, trim_start, views};

verus! {

// ---------------------------------------------------------------------------
// Texts without `*`
// ---------------------------------------------------------------------------

/// Two texts without `c` make a text without it.
pub(crate) proof fn lemma_lacks_concat(a: Seq<char>, b: Seq<char>, c: char)
    requires
        lacks(a, c),
        lacks(b, c),
    ensures
        lacks(a + b, c),
{
    assert forall|i: int| 0 <= i < (a + b).len() implies (a + b)[i] != c by {
        if i >= a.len() {
            assert((a + b)[i] == b[i - a.len()]);
        }
    }
}

/// A line without `*` holds no metadata field.
proof fn lemma_starless_no_field(l: Seq<char>, key: Seq<char>)
    requires
        lacks(l, '*'),
        key.len() > 0,
        key[0] == '*',
    ensures
        field_from(l, key, 0) is None,
{
    assert forall|q: int| 0 <= q < l.len() && l[q] == '-' implies !occurs_at(
        l,
        key,
        #[trigger] ws_run_end(l, q + 1),
    ) by {
        let j = ws_run_end(l, q + 1);
        if occurs_at(l, key, j) {
            assert(l.subrange(j, j + key.len())[0] == l[j]);
        }
    }
    lemma_no_field_from(l, key, 0);
}

proof fn lemma_last_field_none(ls: Seq<Seq<char>>, key: Seq<char>)
    requires
        forall|k: int| 0 <= k < ls.len() ==> (#[trigger] field_from(ls[k], key, 0)) is None,
    ensures
        last_field(ls, key) is None,
    decreases ls.len(),
{
    if ls.len() > 0 {
        assert(field_from(ls[ls.len() - 1], key, 0) is None);
        assert forall|k: int| 0 <= k < ls.drop_last().len() implies (#[trigger] field_from(
            ls.drop_last()[k],
            key,
            0,
        )) is None by {
            assert(ls.drop_last()[k] == ls[k]);
        }
        lemma_last_field_none(ls.drop_last(), key);
    }
}

/// The lines of a text without `*` hold no metadata field.
proof fn lemma_starless_lines(s: Seq<char>, key: Seq<char>)
    requires
        lacks(s, '*'),
        key.len() > 0,
        key[0] == '*',
    ensures
        last_field(lines(s), key) is None,
{
    lemma_lines_lack(s, Seq::empty(), '*');
    assert forall|k: int| 0 <= k < lines(s).len() implies (#[trigger] field_from(lines(s)[k], key, 0)) is None by {
        lemma_starless_no_field(lines(s)[k], key);
    }
    lemma_last_field_none(lines(s), key);
}

/// The last field of lines that follow others is theirs where they have
/// one, else that of the lines before.
proof fn lemma_last_field_concat(a: Seq<Seq<char>>, b: Seq<Seq<char>>, key: Seq<char>)
    ensures
        last_field(a + b, key) == match last_field(b, key) {
            Some(v) => Some(v),
            None => last_field(a, key),
        },
    decreases b.len(),
{
    if b.len() == 0 {
        assert(a + b =~= a);
    } else {
        assert((a + b).last() == b.last());
        assert((a + b).drop_last() =~= a + b.drop_last());
        lemma_last_field_concat(a, b.drop_last(), key);
    }
}

// ---------------------------------------------------------------------------
// Metadata lines `- **label**: rest`
// ---------------------------------------------------------------------------

/// A metadata line of a decision.
pub open spec fn dash_line(label: Seq<char>, rest: Seq<char>) -> Seq<char> {
    "- **"@ + label + "**: "@ + rest
}

/// A metadata line holds no field whose label begins otherwise than its own.
proof fn lemma_dash_line_misses(label: Seq<char>, rest: Seq<char>, key: Seq<char>)
    requires
        label.len() > 0,
        lacks(label, '*'),
        lacks(label, '-'),
        lacks(rest, '*'),
        key.len() >= 3,
        key[0] == '*',
        key[1] == '*',
        key[2] != label[0],
    ensures
        field_from(dash_line(label, rest), key, 0) is None,
{
    reveal_strlit("- **");
    reveal_strlit("**: ");
    let l = dash_line(label, rest);
    let r0: int = 8 + label.len() as int;
    assert forall|p: int| 0 <= p < l.len() && l[p] == '-' implies !occurs_at(l, key, #[trigger] ws_run_end(l, p + 1)) by {
        if p < 4 {
            assert(l[1] == ' ' && l[2] == '*' && l[3] == '*');
            assert(p == 0);
            assert(ws_run_end(l, 2) == 2);
            assert(ws_run_end(l, 1) == 2);
            if occurs_at(l, key, 2) {
                assert(l.subrange(2, 2 + key.len() as int)[2] == l[4]);
                assert(l[4] == label[0]);
            }
        } else if p < 4 + label.len() {
            assert(l[p] == label[p - 4]);
        } else if p < r0 {
            assert(l[p] == "**: "@[p - 4 - label.len()]);
        } else {
            let j = ws_run_end(l, p + 1);
            lemma_ws_run_end_ge(l, p + 1);
            lemma_ws_run_end_le(l, p + 1);
            if occurs_at(l, key, j) {
                assert(l.subrange(j, j + key.len())[0] == l[j]);
                assert(l[j] == rest[j - r0]);
            }
        }
    }
    lemma_no_field_from(l, key, 0);
}

/// A metadata line gives its own field: the text after the label.
proof fn lemma_dash_line_field(label: Seq<char>, v: Seq<char>)
    requires
        v.len() > 0,
        !is_ws(v[0]),
    ensures
        field_from(dash_line(label, v), "**"@ + label + "**:"@, 0) == Some(v),
{
    reveal_strlit("- **");
    reveal_strlit("**: ");
    reveal_strlit("**");
    reveal_strlit("**:");
    let l = dash_line(label, v);
    let key = "**"@ + label + "**:"@;
    let n = label.len() as int;
    assert(l[0] == '-' && l[1] == ' ' && l[2] == '*');
    assert(ws_run_end(l, 2) == 2);
    assert(ws_run_end(l, 1) == 2);
    assert(l.subrange(2, 2 + key.len() as int) =~= key);
    assert(l[7 + n] == ' ');
    assert(l[8 + n] == v[0]);
    assert(ws_run_end(l, 8 + n) == 8 + n);
    assert(ws_run_end(l, 7 + n) == 8 + n);
    assert(field_at(l, 0, key) == Some(8 + n));
    assert(l.skip(8 + n) =~= v);
}

// ---------------------------------------------------------------------------
// Tags joined and split again
// ---------------------------------------------------------------------------

/// A tag that the reader gives back as it was: not empty, without
/// whitespace at either end, on one line, without `,` or `*`.
pub open spec fn plain_tag(t: Seq<char>) -> bool {
    &&& t.len() > 0
    &&& !is_ws(t[0])
    &&& !is_ws(t.last())
    &&& lacks(t, ',')
    &&& lacks(t, '*')
    &&& lacks(t, '\n')
}

/// Splitting at a comma splits the text before it and the text after it.
proof fn lemma_split_at_comma(a: Seq<char>, b: Seq<char>, cur: Seq<char>)
    ensures
        split_pat_from(a + seq![','] + b, seq![','], cur) == split_pat_from(a, seq![','], cur)
            + split_pat_from(b, seq![','], Seq::empty()),
    decreases a.len(),
{
    let p = seq![','];
    let s = a + p + b;
    if a.len() == 0 {
        assert(s =~= p + b);
        assert(s.subrange(0, 1) =~= p);
        assert(s.skip(1) =~= b);
    } else {
        assert(s[0] == a[0]);
        if a[0] == ',' {
            assert(s.subrange(0, 1) =~= p);
            assert(a.subrange(0, 1) =~= p);
            assert(s.skip(1) =~= a.skip(1) + p + b);
            lemma_split_at_comma(a.skip(1), b, Seq::empty());
            assert(seq![cur] + (split_pat_from(a.skip(1), p, Seq::empty()) + split_pat_from(
                b,
                p,
                Seq::empty(),
            )) =~= (seq![cur] + split_pat_from(a.skip(1), p, Seq::empty())) + split_pat_from(
                b,
                p,
                Seq::empty(),
            ));
        } else {
            assert(s.subrange(0, 1)[0] == s[0]);
            assert(a.subrange(0, 1)[0] == a[0]);
            assert(!starts_with_seq(s, p));
            assert(!starts_with_seq(a, p));
            assert(s.drop_first() =~= a.drop_first() + p + b);
            lemma_split_at_comma(a.drop_first(), b, cur.push(a[0]));
        }
    }
}

/// A text without a comma is one piece.
proof fn lemma_split_no_comma(b: Seq<char>, cur: Seq<char>)
    requires
        lacks(b, ','),
    ensures
        split_pat_from(b, seq![','], cur) == seq![cur + b],
    decreases b.len(),
{
    if b.len() == 0 {
        assert(cur + b =~= cur);
    } else {
        assert(b.subrange(0, 1)[0] == b[0]);
        assert(!starts_with_seq(b, seq![',']));
        assert(lacks(b.drop_first(), ',')) by {
            assert forall|i: int| 0 <= i < b.drop_first().len() implies b.drop_first()[i] != ',' by {
                assert(b.drop_first()[i] == b[i + 1]);
            }
        }
        lemma_split_no_comma(b.drop_first(), cur.push(b[0]));
        assert(cur.push(b[0]) + b.drop_first() =~= cur + b);
    }
}

proof fn lemma_plain_trimmed(t: Seq<char>)
    requires
        plain_tag(t),
    ensures
        trim(t) == t,
        trim(" "@ + t) == t,
{
    reveal_strlit(" ");
    assert(trim_start(t) == t);
    assert(trim_end(t) == t);
    let x = " "@ + t;
    assert(x[0] == ' ');
    assert(x.drop_first() =~= t);
    assert(trim_start(x) == trim_start(t));
}

/// Tags joined with `, ` are read back as the same tags.
proof fn lemma_tags_of_join(ts: Seq<Seq<char>>)
    requires
        ts.len() > 0,
        forall|i: int| 0 <= i < ts.len() ==> plain_tag(#[trigger] ts[i]),
    ensures
        tags_of(join(ts, ", "@)) == ts,
    decreases ts.len(),
{
    reveal_strlit(", ");
    reveal_strlit(" ");
    if ts.len() == 1 {
        assert(plain_tag(ts[0]));
        assert(join(ts, ", "@) == ts[0]);
        lemma_split_no_comma(ts[0], Seq::empty());
        assert(Seq::<char>::empty() + ts[0] =~= ts[0]);
        let ps = split_char(ts[0], ',');
        assert(ps == seq![ts[0]]);
        lemma_plain_trimmed(ts[0]);
        assert(ps.drop_last() =~= Seq::<Seq<char>>::empty());
        assert(ps.last() == ts[0]);
        assert(nonempty_trimmed(ps.drop_last()) == Seq::<Seq<char>>::empty());
        assert(trim(ps.last()).len() > 0);
        assert(nonempty_trimmed(ps) == Seq::<Seq<char>>::empty() + seq![trim(ps.last())]);
        assert(nonempty_trimmed(ps) =~= seq![ts[0]]);
        assert(ts =~= seq![ts[0]]);
    } else {
        let init = ts.drop_last();
        let last = ts.last();
        assert(plain_tag(ts[ts.len() - 1]));
        assert forall|i: int| 0 <= i < init.len() implies plain_tag(#[trigger] init[i]) by {
            assert(init[i] == ts[i]);
        }
        lemma_tags_of_join(init);
        let j0 = join(init, ", "@);
        let x = " "@ + last;
        assert(join(ts, ", "@) == j0 + ", "@ + last);
        assert(j0 + ", "@ + last =~= j0 + seq![','] + x);
        lemma_split_at_comma(j0, x, Seq::empty());
        assert(lacks(x, ',')) by {
            assert forall|i: int| 0 <= i < x.len() implies x[i] != ',' by {
                if i > 0 {
                    assert(x[i] == last[i - 1]);
                }
            }
        }
        lemma_split_no_comma(x, Seq::empty());
        assert(Seq::<char>::empty() + x =~= x);
        let ps = split_char(j0, ',');
        assert(split_char(join(ts, ", "@), ',') == ps + seq![x]);
        lemma_plain_trimmed(last);
        assert((ps + seq![x]).drop_last() =~= ps);
        assert((ps + seq![x]).last() == x);
        assert(init + seq![last] =~= ts);
    }
}

/// The join of plain tags begins with the first tag's first character,
/// ends with the last tag's last one, and holds no `*` and no line break.
proof fn lemma_join_plain(ts: Seq<Seq<char>>)
    requires
        ts.len() > 0,
        forall|i: int| 0 <= i < ts.len() ==> plain_tag(#[trigger] ts[i]),
    ensures
        join(ts, ", "@).len() > 0,
        join(ts, ", "@)[0] == ts[0][0],
        join(ts, ", "@).last() == ts.last().last(),
        lacks(join(ts, ", "@), '*'),
        lacks(join(ts, ", "@), '\n'),
    decreases ts.len(),
{
    reveal_strlit(", ");
    assert(plain_tag(ts[0]));
    assert(plain_tag(ts[ts.len() - 1]));
    if ts.len() > 1 {
        let init = ts.drop_last();
        assert forall|i: int| 0 <= i < init.len() implies plain_tag(#[trigger] init[i]) by {
            assert(init[i] == ts[i]);
        }
        lemma_join_plain(init);
        let j0 = join(init, ", "@);
        let j = j0 + ", "@ + ts.last();
        assert(join(ts, ", "@) == j);
        assert(j[0] == j0[0]);
        assert(init[0] == ts[0]);
        assert(lacks(", "@, '*') && lacks(", "@, '\n'));
        lemma_lacks_concat(j0, ", "@, '*');
        lemma_lacks_concat(j0 + ", "@, ts.last(), '*');
        lemma_lacks_concat(j0, ", "@, '\n');
        lemma_lacks_concat(j0 + ", "@, ts.last(), '\n');
    }
}

// ---------------------------------------------------------------------------
// The law
// ---------------------------------------------------------------------------

/// An optional text without `*`.
pub open spec fn starless_opt(x: Option<String>) -> bool {
    match x {
        Some(t) => lacks(t@, '*'),
        None => true,
    }
}

/// What a decision must be for its date and tags to come back: no `*` in
/// its texts, a date that begins with other than whitespace and does not
/// end in a carriage return, and plain tags.
pub open spec fn decision_meta_ok(d: DecisionExport) -> bool {
    &&& lacks(d.summary@, '*')
    &&& lacks(d.id@, '*')
    &&& starless_opt(d.rationale)
    &&& starless_opt(d.implementation_details)
    &&& match d.timestamp {
        Some(ts) => ts@.len() > 0 && !is_ws(ts@[0]) && ts@.last() != '\r' && lacks(ts@, '*'),
        None => true,
    }
    &&& forall|i: int| 0 <= i < d.tags@.len() ==> plain_tag(#[trigger] d.tags@[i]@)
}

/// The date a decision is exported with: its own where timestamps are
/// included.
pub open spec fn exported_date(d: DecisionExport, o: ExportOptions) -> Option<Seq<char>> {
    if o.include_timestamps {
        match d.timestamp {
            Some(ts) => Some(ts@),
            None => None,
        }
    } else {
        None
    }
}

/// The tags a decision is exported with: its own where tags are included.
pub open spec fn exported_tags(d: DecisionExport, o: ExportOptions) -> Seq<Seq<char>> {
    if o.include_tags {
        views(d.tags@)
    } else {
        Seq::empty()
    }
}

/// The line of the date and that of the tags, where they are written.
proof fn lemma_field_lines(d: DecisionExport, o: ExportOptions)
    requires
        decision_fields_inline(d),
        decision_meta_ok(d),
    ensures
        ({
            let dt = o.include_timestamps && d.timestamp is Some;
            let tt = o.include_tags && d.tags@.len() > 0;
            let dl = dash_line("Date"@, d.timestamp->0@);
            let tl = dash_line("Tags"@, join(views(d.tags@), ", "@));
            &&& (if o.include_timestamps {
                opt_line("- **Date**: "@, d.timestamp, "\n"@)
            } else {
                Seq::empty()
            }) == (if dt {
                dl + "\n"@
            } else {
                Seq::empty()
            })
            &&& (if o.include_tags && d.tags@.len() > 0 {
                "- **Tags**: "@ + join(views(d.tags@), ", "@) + "\n"@
            } else {
                Seq::empty()
            }) == (if tt {
                tl + "\n"@
            } else {
                Seq::empty()
            })
            &&& dt ==> (dl.len() > 0 && lacks(dl, '\n') && dl.last() != '\r')
            &&& tt ==> (tl.len() > 0 && lacks(tl, '\n') && tl.last() != '\r')
            &&& dt ==> field_from(dl, "**Date**:"@, 0) == Some(d.timestamp->0@)
            &&& dt ==> field_from(dl, "**Tags**:"@, 0) is None
            &&& tt ==> field_from(tl, "**Tags**:"@, 0) == Some(join(views(d.tags@), ", "@))
            &&& tt ==> field_from(tl, "**Date**:"@, 0) is None
            &&& tt ==> tags_of(join(views(d.tags@), ", "@)) == views(d.tags@)
        }),
{
    reveal_strlit("- **");
    reveal_strlit("**: ");
    reveal_strlit("- **Date**: ");
    reveal_strlit("- **Tags**: ");
    reveal_strlit("Date");
    reveal_strlit("Tags");
    reveal_strlit("**Date**:");
    reveal_strlit("**Tags**:");
    reveal_strlit("**");
    reveal_strlit("**:");
    assert("**Date**:"@ =~= "**"@ + "Date"@ + "**:"@);
    assert("**Tags**:"@ =~= "**"@ + "Tags"@ + "**:"@);
    assert(lacks("Date"@, '*') && lacks("Date"@, '-'));
    assert(lacks("Tags"@, '*') && lacks("Tags"@, '-'));
    if o.include_timestamps && d.timestamp is Some {
        let ts = d.timestamp->0@;
        let dl = dash_line("Date"@, ts);
        assert("- **Date**: "@ + ts =~= dl);
        assert(lacks(ts, '\n'));
        assert(lacks(dl, '\n')) by {
            assert forall|i: int| 0 <= i < dl.len() implies dl[i] != '\n' by {
                if i >= 12 {
                    assert(dl[i] == ts[i - 12]);
                }
            }
        }
        assert(dl.last() == ts.last());
        lemma_dash_line_field("Date"@, ts);
        lemma_dash_line_misses("Date"@, ts, "**Tags**:"@);
    }
    if o.include_tags && d.tags@.len() > 0 {
        let vs = views(d.tags@);
        assert forall|i: int| 0 <= i < vs.len() implies plain_tag(#[trigger] vs[i]) by {
            assert(vs[i] == d.tags@[i]@);
        }
        lemma_join_plain(vs);
        lemma_tags_of_join(vs);
        let j = join(vs, ", "@);
        let tl = dash_line("Tags"@, j);
        assert("- **Tags**: "@ + j =~= tl);
        assert(lacks(tl, '\n')) by {
            assert forall|i: int| 0 <= i < tl.len() implies tl[i] != '\n' by {
                if i >= 12 {
                    assert(tl[i] == j[i - 12]);
                }
            }
        }
        assert(tl.last() == j.last());
        assert(vs.last() == d.tags@[d.tags@.len() - 1]@);
        assert(!is_ws(vs.last().last()));
        assert(vs[0] == d.tags@[0]@);
        lemma_dash_line_field("Tags"@, j);
        lemma_dash_line_misses("Tags"@, j, "**Date**:"@);
    }
}

/// The lines of the metadata and of the sections after it.
proof fn lemma_metadata_lines(d: DecisionExport, o: ExportOptions, r: Seq<char>)
    requires
        decision_fields_inline(d),
        decision_meta_ok(d),
        o.include_metadata || o.include_timestamps || o.include_tags,
    ensures
        lines_from(decision_metadata(d, o) + r, Seq::empty()) == lines("### Metadata\n\n"@) + (seq![
            dash_line("ID"@, "`"@ + d.id@ + "`"@),
        ] + (opt_lines(o.include_timestamps && d.timestamp is Some, dash_line("Date"@, d.timestamp->0@))
            + (opt_lines(
            o.include_tags && d.tags@.len() > 0,
            dash_line("Tags"@, join(views(d.tags@), ", "@)),
        ) + (lines("\n"@) + lines(r))))),
{
    reveal_strlit("\n");
    reveal_strlit("### Metadata\n\n");
    reveal_strlit("- **ID**: `");
    reveal_strlit("`\n");
    reveal_strlit("`");
    reveal_strlit("- **");
    reveal_strlit("**: ");
    reveal_strlit("ID");
    let md = decision_metadata(d, o);
    let p0 = "### Metadata\n\n"@;
    let idl = dash_line("ID"@, "`"@ + d.id@ + "`"@);
    let dt = o.include_timestamps && d.timestamp is Some;
    let tt = o.include_tags && d.tags@.len() > 0;
    let dl = dash_line("Date"@, d.timestamp->0@);
    let tl = dash_line("Tags"@, join(views(d.tags@), ", "@));
    lemma_field_lines(d, o);
    let dpart = if dt {
        dl + "\n"@
    } else {
        Seq::<char>::empty()
    };
    let tpart = if tt {
        tl + "\n"@
    } else {
        Seq::<char>::empty()
    };
    assert("- **ID**: `"@ + d.id@ + "`\n"@ =~= idl + "\n"@);
    assert(md =~= p0 + (idl + "\n"@) + dpart + tpart + "\n"@);
    let tail = "\n"@ + r;
    assert(md + r =~= p0 + ((idl + "\n"@) + (dpart + (tpart + tail))));
    lemma_lines_concat(p0, (idl + "\n"@) + (dpart + (tpart + tail)), Seq::empty());
    assert(lacks(idl, '\n')) by {
        assert forall|i: int| 0 <= i < idl.len() implies idl[i] != '\n' by {
            if 11 <= i < 11 + d.id@.len() {
                assert(idl[i] == d.id@[i - 11]);
            }
        }
    }
    assert(idl + "\n"@ =~= idl + seq!['\n']);
    lemma_lines_concat(idl + "\n"@, dpart + (tpart + tail), Seq::empty());
    lemma_single_line(idl, Seq::empty());
    assert(Seq::<char>::empty() + idl =~= idl);
    assert(idl.last() == '`');
    assert(strip_cr(idl) == idl);
    lemma_piece_lines(dt, dl, tpart + tail);
    lemma_piece_lines(tt, tl, tail);
    lemma_lines_concat("\n"@, r, Seq::empty());
}

/// The last date and tags fields among the metadata lines and the lines
/// around them.
proof fn lemma_metadata_fields(d: DecisionExport, o: ExportOptions, before: Seq<Seq<char>>, after: Seq<Seq<char>>)
    requires
        decision_fields_inline(d),
        decision_meta_ok(d),
        last_field(before, "**Date**:"@) is None,
        last_field(before, "**Tags**:"@) is None,
        last_field(after, "**Date**:"@) is None,
        last_field(after, "**Tags**:"@) is None,
    ensures
        ({
            let dt = o.include_timestamps && d.timestamp is Some;
            let tt = o.include_tags && d.tags@.len() > 0;
            let ls = before + (seq![dash_line("ID"@, "`"@ + d.id@ + "`"@)] + (opt_lines(
                dt,
                dash_line("Date"@, d.timestamp->0@),
            ) + (opt_lines(tt, dash_line("Tags"@, join(views(d.tags@), ", "@))) + after)));
            &&& last_field(ls, "**Date**:"@) == (if dt {
                Some(d.timestamp->0@)
            } else {
                None
            })
            &&& last_field(ls, "**Tags**:"@) == (if tt {
                Some(join(views(d.tags@), ", "@))
            } else {
                None
            })
        }),
{
    reveal_strlit("`");
    reveal_strlit("ID");
    reveal_strlit("**Date**:");
    reveal_strlit("**Tags**:");
    let dkey = "**Date**:"@;
    let tkey = "**Tags**:"@;
    let idl = dash_line("ID"@, "`"@ + d.id@ + "`"@);
    let dt = o.include_timestamps && d.timestamp is Some;
    let tt = o.include_tags && d.tags@.len() > 0;
    let od = opt_lines(dt, dash_line("Date"@, d.timestamp->0@));
    let ot = opt_lines(tt, dash_line("Tags"@, join(views(d.tags@), ", "@)));
    lemma_field_lines(d, o);
    assert(lacks("`"@ + d.id@ + "`"@, '*')) by {
        assert(lacks("`"@, '*'));
        lemma_lacks_concat("`"@, d.id@, '*');
        lemma_lacks_concat("`"@ + d.id@, "`"@, '*');
    }
    assert(lacks("ID"@, '*') && lacks("ID"@, '-'));
    lemma_dash_line_misses("ID"@, "`"@ + d.id@ + "`"@, dkey);
    lemma_dash_line_misses("ID"@, "`"@ + d.id@ + "`"@, tkey);
    let a = before + seq![idl];
    let ls = before + (seq![idl] + (od + (ot + after)));
    assert(ls =~= a + od + ot + after);
    assert(seq![idl].drop_last() =~= Seq::<Seq<char>>::empty());
    lemma_last_field_concat(before, seq![idl], dkey);
    lemma_last_field_concat(before, seq![idl], tkey);
    lemma_last_field_concat(a + od + ot, after, dkey);
    lemma_last_field_concat(a + od + ot, after, tkey);
    lemma_last_field_concat(a + od, ot, dkey);
    lemma_last_field_concat(a + od, ot, tkey);
    lemma_last_field_concat(a, od, dkey);
    lemma_last_field_concat(a, od, tkey);
    let e = Seq::<Seq<char>>::empty();
    assert(last_field(e, dkey) is None);
    assert(last_field(e, tkey) is None);
    assert(last_field(seq![idl], dkey) is None);
    assert(last_field(seq![idl], tkey) is None);
    if dt {
        assert(od.drop_last() =~= e);
        assert(od.last() == dash_line("Date"@, d.timestamp->0@));
        assert(last_field(od, dkey) == Some(d.timestamp->0@));
        assert(last_field(od, tkey) is None);
    } else {
        assert(od =~= e);
    }
    if tt {
        assert(ot.drop_last() =~= e);
        assert(ot.last() == dash_line("Tags"@, join(views(d.tags@), ", "@)));
        assert(last_field(ot, tkey) == Some(join(views(d.tags@), ", "@)));
        assert(last_field(ot, dkey) is None);
    } else {
        assert(ot =~= e);
    }
    assert(last_field(a, dkey) is None);
    assert(last_field(a, tkey) is None);
}

/// A decision exported to Markdown and read back comes back with its date
/// where timestamps are exported and with its tags where tags are, provided
/// it keeps to the form that the reader needs (see `decision_meta_ok`), as
/// well as that of the summary, rationale and implementation details.
pub proof fn lemma_decision_fields_roundtrip(d: DecisionExport, o: ExportOptions)
    requires
        title_text(d.summary@),
        decision_fields_inline(d),
        section_opt(d.rationale),
        section_opt(d.implementation_details),
        decision_meta_ok(d),
    ensures
        decision_items(decision_markdown(d, o)).len() == 1,
        decision_items(decision_markdown(d, o))[0].3 == exported_tags(d, o),
        decision_items(decision_markdown(d, o))[0].4 == exported_date(d, o),
{
    lemma_decision_roundtrip(d, o);
    reveal_strlit("## Decision: ");
    reveal_strlit("\n\n");
    reveal_strlit("\n");
    reveal_strlit("### Metadata\n\n");
    reveal_strlit("### Rationale\n\n");
    reveal_strlit("### Implementation\n\n");
    reveal_strlit("**Date**:");
    reveal_strlit("**Tags**:");
    let dkey = "**Date**:"@;
    let tkey = "**Tags**:"@;
    let m = decision_markdown(d, o);
    let h = "## Decision: "@ + d.summary@ + "\n\n"@;
    let md = decision_metadata(d, o);
    let r1 = opt_line("### Rationale\n\n"@, d.rationale, "\n\n"@);
    let r2 = opt_line("### Implementation\n\n"@, d.implementation_details, "\n"@);
    let r = r1 + r2;
    assert(m =~= h + (md + r));
    // The heading, the rationale and the implementation hold no `*`.
    assert(lacks("## Decision: "@, '*') && lacks("\n\n"@, '*'));
    lemma_lacks_concat("## Decision: "@, d.summary@, '*');
    lemma_lacks_concat("## Decision: "@ + d.summary@, "\n\n"@, '*');
    assert(lacks(r1, '*')) by {
        match d.rationale {
            Some(t) => {
                assert(lacks("### Rationale\n\n"@, '*'));
                lemma_lacks_concat("### Rationale\n\n"@, t@, '*');
                lemma_lacks_concat("### Rationale\n\n"@ + t@, "\n\n"@, '*');
            },
            None => {},
        }
    }
    assert(lacks(r2, '*')) by {
        match d.implementation_details {
            Some(t) => {
                assert(lacks("### Implementation\n\n"@, '*') && lacks("\n"@, '*'));
                lemma_lacks_concat("### Implementation\n\n"@, t@, '*');
                lemma_lacks_concat("### Implementation\n\n"@ + t@, "\n"@, '*');
            },
            None => {},
        }
    }
    lemma_lacks_concat(r1, r2, '*');
    lemma_starless_lines(h, dkey);
    lemma_starless_lines(h, tkey);
    lemma_starless_lines(r, dkey);
    lemma_starless_lines(r, tkey);
    lemma_lines_concat(h, md + r, Seq::empty());
    let ls = lines(m);
    assert(ls == lines(h) + lines_from(md + r, Seq::empty()));
    if o.include_metadata || o.include_timestamps || o.include_tags {
        let p0 = "### Metadata\n\n"@;
        lemma_metadata_lines(d, o, r);
        assert(lacks(p0, '*') && lacks("\n"@, '*'));
        lemma_starless_lines(p0, dkey);
        lemma_starless_lines(p0, tkey);
        lemma_starless_lines("\n"@, dkey);
        lemma_starless_lines("\n"@, tkey);
        lemma_last_field_concat(lines(h), lines(p0), dkey);
        lemma_last_field_concat(lines(h), lines(p0), tkey);
        lemma_last_field_concat(lines("\n"@), lines(r), dkey);
        lemma_last_field_concat(lines("\n"@), lines(r), tkey);
        let before = lines(h) + lines(p0);
        let after = lines("\n"@) + lines(r);
        lemma_metadata_fields(d, o, before, after);
        let dt = o.include_timestamps && d.timestamp is Some;
        let tt = o.include_tags && d.tags@.len() > 0;
        let rest = seq![dash_line("ID"@, "`"@ + d.id@ + "`"@)] + (opt_lines(
            dt,
            dash_line("Date"@, d.timestamp->0@),
        ) + (opt_lines(tt, dash_line("Tags"@, join(views(d.tags@), ", "@))) + after));
        assert(ls =~= before + rest);
        lemma_field_lines(d, o);
        if o.include_tags && !tt {
            assert(views(d.tags@) =~= Seq::<Seq<char>>::empty());
        }
    } else {
        assert(md =~= Seq::<char>::empty());
        assert(md + r =~= r);
        lemma_last_field_concat(lines(h), lines(r), dkey);
        lemma_last_field_concat(lines(h), lines(r), tkey);
    }
}

} // verus!
