//! What the importer reads back from the Markdown that the exporter writes.

use vstd::prelude::*;

use crate::markdown::export::{
    context_markdown, context_metadata, decision_markdown, decision_metadata, opt_line, progress_markdown,
    progress_metadata, status_badge_text, status_name, ContextExport, DecisionExport, ExportOptions,
    ProgressExport, ProgressStatus,
};
use crate::markdown::scan::{
    find_seq, lacks, lemma_find_seq_first, lemma_find_seq_none, lemma_lines_concat, lemma_lines_lack,
    lemma_single_line, lines,
    lines_from, strip_cr, ws_run_end,
};
use crate::markdown::import::{
    context_content, context_errors, context_items, decision_cap, decision_errors, decision_items, header_at,
    digit_run_end, field_at, field_from, header_from, is_status_mark, is_word_char, last_decision, last_title,
    line_progress, linked_at, linked_from, mark_status, meta_fold, meta_step, newline_within, parent_at,
    parent_from, first_containing, progress_meta,
    parent_number, progress_items, progress_upto, section_text, status_at, status_from, tick_free_end,
    title_cap, upper_run_end, word_run_end, ProgressMeta, ProgressView,
};
use crate::text::{
    contains_seq, decimal, decimal_int, digit_char, is_digit, is_ws, join, occurs_at, starts_with_seq, trim, trim_end, trim_start,
    views,
};

verus! {

// ---------------------------------------------------------------------------
// Trimming
// ---------------------------------------------------------------------------

/// Every character of `s` is whitespace.
pub open spec fn all_ws(s: Seq<char>) -> bool {
    forall|i: int| 0 <= i < s.len() ==> is_ws(#[trigger] s[i])
}

proof fn lemma_trim_start_all_ws(s: Seq<char>)
    requires
        all_ws(s),
    ensures
        trim_start(s).len() == 0,
    decreases s.len(),
{
    if s.len() > 0 {
        assert(is_ws(s[0]));
        assert forall|i: int| 0 <= i < s.drop_first().len() implies is_ws(#[trigger] s.drop_first()[i]) by {
            assert(s.drop_first()[i] == s[i + 1]);
        }
        lemma_trim_start_all_ws(s.drop_first());
    }
}

pub(crate) proof fn lemma_trim_start_concat(x: Seq<char>, y: Seq<char>)
    ensures
        trim_start(x + y) == (if trim_start(x).len() > 0 {
            trim_start(x) + y
        } else {
            trim_start(y)
        }),
    decreases x.len(),
{
    if x.len() == 0 {
        assert(x + y =~= y);
    } else {
        assert((x + y)[0] == x[0]);
        if is_ws(x[0]) {
            assert((x + y).drop_first() =~= x.drop_first() + y);
            lemma_trim_start_concat(x.drop_first(), y);
        }
    }
}

proof fn lemma_trim_end_ws_suffix(z: Seq<char>, w: Seq<char>)
    requires
        all_ws(w),
    ensures
        trim_end(z + w) == trim_end(z),
    decreases w.len(),
{
    if w.len() == 0 {
        assert(z + w =~= z);
    } else {
        assert((z + w).last() == w.last());
        assert(is_ws(w[w.len() - 1]));
        assert((z + w).drop_last() =~= z + w.drop_last());
        assert forall|i: int| 0 <= i < w.drop_last().len() implies is_ws(#[trigger] w.drop_last()[i]) by {
            assert(w.drop_last()[i] == w[i]);
        }
        lemma_trim_end_ws_suffix(z, w.drop_last());
    }
}

/// Whitespace around a text does not change what trimming it leaves.
pub proof fn lemma_trim_wrapped(a: Seq<char>, c: Seq<char>, b: Seq<char>)
    requires
        all_ws(a),
        all_ws(b),
    ensures
        trim(a + c + b) == trim(c),
{
    assert(a + c + b =~= a + (c + b));
    lemma_trim_start_all_ws(a);
    lemma_trim_start_concat(a, c + b);
    lemma_trim_start_concat(c, b);
    if trim_start(c).len() > 0 {
        lemma_trim_end_ws_suffix(trim_start(c), b);
    } else {
        lemma_trim_start_all_ws(b);
        assert(trim_start(b) =~= trim_start(c));
    }
}

// ---------------------------------------------------------------------------
// Title lines
// ---------------------------------------------------------------------------

/// Index `i` of `t` begins a line.
pub open spec fn line_start(t: Seq<char>, i: int) -> bool {
    i == 0 || t[i - 1] == '\n'
}

/// No line of `t` is a title line: a `#` that begins a line is followed by a
/// character other than whitespace, by a line break, or by nothing.
pub open spec fn no_title_text(t: Seq<char>) -> bool {
    forall|i: int|
        0 <= i < t.len() && #[trigger] t[i] == '#' && line_start(t, i) ==> (i + 1 == t.len() || t[i
            + 1] == '\n' || !is_ws(t[i + 1]))
}

/// Every line in `ls` is other than a title line.
pub open spec fn untitled(ls: Seq<Seq<char>>) -> bool {
    forall|k: int| 0 <= k < ls.len() ==> (#[trigger] title_cap(ls[k])) is None
}

proof fn lemma_line_untitled(l: Seq<char>)
    requires
        l.len() > 0 && l[0] == '#' ==> (l.len() == 1 || !is_ws(l[1])),
    ensures
        title_cap(l) is None,
{
    if l.len() > 0 && l[0] == '#' {
        if l.len() > 1 {
            assert(ws_run_end(l, 1) == 1);
        } else {
            assert(ws_run_end(l, 1) == 1);
        }
    }
}

/// The lines read from text without title lines are no title lines.
pub proof fn lemma_lines_untitled(s: Seq<char>, cur: Seq<char>)
    requires
        no_title_text(cur + s),
        lacks(cur, '\n'),
    ensures
        untitled(lines_from(s, cur)),
    decreases s.len(),
{
    let t = cur + s;
    if cur.len() > 0 && cur[0] == '#' {
        assert(t[0] == '#');
        assert(line_start(t, 0));
    }
    if s.len() == 0 {
        assert(t =~= cur);
        if cur.len() > 0 {
            lemma_line_untitled(cur);
            assert(lines_from(s, cur) == seq![cur]);
            assert(lines_from(s, cur)[0] == cur);
        }
    } else if s[0] == '\n' {
        let l = strip_cr(cur);
        assert(t[cur.len() as int] == '\n');
        if cur.len() > 1 {
            assert(t[1] == cur[1]);
        }
        if l.len() > 0 && l[0] == '#' {
            assert(l[0] == cur[0]);
            if l.len() > 1 {
                assert(l[1] == cur[1]);
            }
        }
        lemma_line_untitled(l);
        let rest = s.drop_first();
        assert forall|i: int|
            0 <= i < rest.len() && #[trigger] rest[i] == '#' && line_start(rest, i) implies (i + 1
                == rest.len() || rest[i + 1] == '\n' || !is_ws(rest[i + 1])) by {
            let j = cur.len() + 1 + i;
            assert(t[j] == rest[i]);
            if i > 0 {
                assert(t[j - 1] == rest[i - 1]);
            } else {
                assert(t[j - 1] == s[0]);
            }
            assert(line_start(t, j));
            if i + 1 < rest.len() {
                assert(t[j + 1] == rest[i + 1]);
            }
        }
        assert(Seq::<char>::empty() + rest =~= rest);
        lemma_lines_untitled(rest, Seq::empty());
        let tail = lines_from(rest, Seq::empty());
        assert(lines_from(s, cur) == seq![l] + tail);
        assert forall|k: int| 0 <= k < lines_from(s, cur).len() implies (#[trigger] title_cap(
            lines_from(s, cur)[k],
        )) is None by {
            if k == 0 {
                assert(lines_from(s, cur)[0] == l);
            } else {
                assert(lines_from(s, cur)[k] == tail[k - 1]);
            }
        }
    } else {
        assert(cur.push(s[0]) + s.drop_first() =~= t);
        assert forall|i: int| 0 <= i < cur.push(s[0]).len() implies cur.push(s[0])[i] != '\n' by {
            if i < cur.len() {
                assert(cur.push(s[0])[i] == cur[i]);
            }
        }
        lemma_lines_untitled(s.drop_first(), cur.push(s[0]));
    }
}

/// Lines without titles after others leave the last title as it was.
pub proof fn lemma_last_title_untitled_suffix(x: Seq<Seq<char>>, y: Seq<Seq<char>>)
    requires
        untitled(y),
    ensures
        last_title(x + y) == last_title(x),
    decreases y.len(),
{
    if y.len() == 0 {
        assert(x + y =~= x);
    } else {
        assert((x + y).last() == y.last());
        assert(title_cap(y[y.len() - 1]) is None);
        assert((x + y).drop_last() =~= x + y.drop_last());
        assert forall|k: int| 0 <= k < y.drop_last().len() implies (#[trigger] title_cap(
            y.drop_last()[k],
        )) is None by {
            assert(y.drop_last()[k] == y[k]);
        }
        lemma_last_title_untitled_suffix(x, y.drop_last());
    }
}


/// Text without `#` has no title lines.
pub proof fn lemma_hashless_untitled(t: Seq<char>)
    requires
        lacks(t, '#'),
    ensures
        no_title_text(t),
{
}

/// Two texts without title lines, joined where no title line can form at
/// the seam, make text without title lines.
pub proof fn lemma_no_title_concat(a: Seq<char>, b: Seq<char>)
    requires
        no_title_text(a),
        no_title_text(b) || (a.len() > 0 && a.last() != '\n' && lacks(b, '\n')),
        a.len() == 0 || a.last() != '#' || b.len() == 0 || b[0] == '\n' || !is_ws(b[0]),
    ensures
        no_title_text(a + b),
{
    let t = a + b;
    assert forall|i: int|
        0 <= i < t.len() && #[trigger] t[i] == '#' && line_start(t, i) implies (i + 1 == t.len() || t[i
            + 1] == '\n' || !is_ws(t[i + 1])) by {
        if i < a.len() {
            assert(t[i] == a[i]);
            if i > 0 {
                assert(t[i - 1] == a[i - 1]);
            }
            assert(line_start(a, i));
            if i + 1 < a.len() {
                assert(t[i + 1] == a[i + 1]);
            } else {
                assert(a.last() == '#');
                if b.len() > 0 {
                    assert(t[i + 1] == b[0]);
                }
            }
        } else {
            let j = i - a.len();
            assert(t[i] == b[j]);
            if j > 0 {
                assert(t[i - 1] == b[j - 1]);
            } else if i > 0 {
                assert(t[i - 1] == a.last());
            }
            if j + 1 < b.len() {
                assert(t[i + 1] == b[j + 1]);
            }
            assert(line_start(b, j));
        }
    }
}

// ---------------------------------------------------------------------------
// Section headers
// ---------------------------------------------------------------------------

/// No two `#` stand side by side in `t`.
pub open spec fn no_hash_pair(t: Seq<char>) -> bool {
    forall|i: int| 0 <= i && i + 1 < t.len() ==> !(#[trigger] t[i] == '#' && t[i + 1] == '#')
}

/// Joining two texts without a pair of `#` where the seam forms none.
pub proof fn lemma_no_hash_pair_concat(a: Seq<char>, b: Seq<char>)
    requires
        no_hash_pair(a),
        no_hash_pair(b),
        !(a.len() > 0 && b.len() > 0 && a.last() == '#' && b[0] == '#'),
    ensures
        no_hash_pair(a + b),
{
    let t = a + b;
    assert forall|i: int| 0 <= i && i + 1 < t.len() implies !(#[trigger] t[i] == '#' && t[i + 1] == '#') by {
        if i + 1 < a.len() {
            assert(t[i] == a[i] && t[i + 1] == a[i + 1]);
        } else if i + 1 == a.len() {
            assert(t[i] == a.last() && t[i + 1] == b[0]);
        } else {
            assert(t[i] == b[i - a.len()] && t[i + 1] == b[i + 1 - a.len()]);
        }
    }
}

/// The search for a section header passes over positions where none begins.
pub proof fn lemma_header_skip(s: Seq<char>, p: int, q: int, hashes: Seq<char>, word: Seq<char>)
    requires
        0 <= p <= q <= s.len(),
        forall|x: int| p <= x < q ==> (#[trigger] header_at(s, x, hashes, word)) is None,
    ensures
        header_from(s, p, hashes, word) == header_from(s, q, hashes, word),
    decreases q - p,
{
    if p < q {
        assert(header_at(s, p, hashes, word) is None);
        lemma_header_skip(s, p + 1, q, hashes, word);
    }
}

/// No section header begins where no pair of `#` stands.
pub proof fn lemma_no_header_between(s: Seq<char>, p: int, q: int, word: Seq<char>)
    requires
        0 <= p <= q < s.len(),
        no_hash_pair(s.subrange(p, q)),
        q > p ==> s[q - 1] != '#',
    ensures
        forall|x: int| p <= x < q ==> (#[trigger] header_at(s, x, "##"@, word)) is None,
{
    reveal_strlit("##");
    assert forall|x: int| p <= x < q implies (#[trigger] header_at(s, x, "##"@, word)) is None by {
        if occurs_at(s, "##"@, x) {
            assert(s.subrange(x, x + 2) == "##"@);
            assert(s.subrange(x, x + 2)[0] == s[x]);
            assert(s.subrange(x, x + 2)[1] == s[x + 1]);
            if x + 1 < q {
                assert(s.subrange(p, q)[x - p] == s[x]);
                assert(s.subrange(p, q)[x + 1 - p] == s[x + 1]);
            }
        }
    }
}


pub(crate) proof fn lemma_ws_run_end_ge(s: Seq<char>, i: int)
    requires
        0 <= i,
    ensures
        ws_run_end(s, i) >= i,
    decreases s.len() - i,
{
    if 0 <= i < s.len() && is_ws(s[i]) {
        lemma_ws_run_end_ge(s, i + 1);
    }
}

// ---------------------------------------------------------------------------
// A context read back
// ---------------------------------------------------------------------------

/// Text that stays within one line and holds no pair of `#`.
pub open spec fn inline_text(x: Seq<char>) -> bool {
    lacks(x, '\n') && no_hash_pair(x)
}

/// An optional text that is inline where it is given.
pub open spec fn inline_opt(x: Option<String>) -> bool {
    match x {
        Some(t) => inline_text(t@),
        None => true,
    }
}

/// The timestamp lines of a context's metadata.
pub open spec fn stamp_lines(c: ContextExport, o: ExportOptions) -> Seq<char> {
    if o.include_timestamps {
        opt_line("- **Created**: "@, c.created_at, "\n"@) + opt_line("- **Updated**: "@, c.updated_at, "\n"@)
    } else {
        Seq::empty()
    }
}

/// The metadata after its header line and the blank line that follows it.
pub open spec fn metadata_body(c: ContextExport, o: ExportOptions) -> Seq<char> {
    "- **Workspace**: `"@ + c.workspace_path@ + "`\n"@ + stamp_lines(c, o) + "\n"@
}

proof fn lemma_opt_line_inline(prefix: Seq<char>, v: Option<String>)
    requires
        inline_opt(v),
        lacks(prefix, '#'),
        lacks(prefix, '\n'),
        prefix.len() > 0,
        prefix.last() == ' ',
    ensures
        no_title_text(opt_line(prefix, v, "\n"@)),
        no_hash_pair(opt_line(prefix, v, "\n"@)),
        opt_line(prefix, v, "\n"@).len() == 0 || opt_line(prefix, v, "\n"@).last() == '\n',
{
    reveal_strlit("\n");
    match v {
        Some(t) => {
            lemma_hashless_untitled(prefix);
            lemma_no_title_concat(prefix, t@);
            lemma_hashless_untitled("\n"@);
            lemma_no_title_concat(prefix + t@, "\n"@);
            lemma_no_hash_pair_concat(prefix, t@);
            lemma_no_hash_pair_concat(prefix + t@, "\n"@);
        },
        None => {},
    }
}

proof fn lemma_metadata_body(c: ContextExport, o: ExportOptions)
    requires
        inline_text(c.workspace_path@),
        inline_opt(c.created_at),
        inline_opt(c.updated_at),
    ensures
        no_title_text(metadata_body(c, o)),
        no_hash_pair(metadata_body(c, o)),
        metadata_body(c, o).last() == '\n',
        metadata_body(c, o).len() > 0,
{
    reveal_strlit("- **Workspace**: `");
    reveal_strlit("`\n");
    reveal_strlit("\n");
    reveal_strlit("- **Created**: ");
    reveal_strlit("- **Updated**: ");
    let w = c.workspace_path@;
    let head = "- **Workspace**: `"@;
    lemma_opt_line_inline("- **Created**: "@, c.created_at);
    lemma_opt_line_inline("- **Updated**: "@, c.updated_at);
    let p1 = opt_line("- **Created**: "@, c.created_at, "\n"@);
    let p2 = opt_line("- **Updated**: "@, c.updated_at, "\n"@);
    lemma_no_title_concat(p1, p2);
    lemma_no_hash_pair_concat(p1, p2);
    let st = stamp_lines(c, o);
    assert(no_title_text(st) && no_hash_pair(st));
    lemma_hashless_untitled(head);
    lemma_no_title_concat(head, w);
    lemma_no_hash_pair_concat(head, w);
    lemma_hashless_untitled("`\n"@);
    lemma_no_title_concat(head + w, "`\n"@);
    lemma_no_hash_pair_concat(head + w, "`\n"@);
    let a = head + w + "`\n"@;
    assert(a.last() == '\n');
    lemma_no_title_concat(a, st);
    lemma_no_hash_pair_concat(a, st);
    lemma_hashless_untitled("\n"@);
    lemma_no_title_concat(a + st, "\n"@);
    lemma_no_hash_pair_concat(a + st, "\n"@);
}


/// What a context's name must be for the title line to give it back.
pub open spec fn title_text(n: Seq<char>) -> bool {
    &&& n.len() > 0
    &&& !is_ws(n[0])
    &&& n.last() != '\r'
    &&& inline_text(n)
}

/// The fields of a context that the exporter writes into its metadata.
pub open spec fn metadata_inline(c: ContextExport) -> bool {
    inline_text(c.workspace_path@) && inline_opt(c.created_at) && inline_opt(c.updated_at)
}

proof fn lemma_metadata_shape(c: ContextExport, o: ExportOptions)
    requires
        metadata_inline(c),
    ensures
        context_metadata(c, o).len() == 0 || (context_metadata(c, o) == "## Metadata\n\n"@ + metadata_body(c, o)),
        no_title_text(context_metadata(c, o)),
        context_metadata(c, o).len() == 0 || context_metadata(c, o).last() == '\n',
{
    reveal_strlit("## Metadata\n\n");
    lemma_metadata_body(c, o);
    if o.include_metadata {
        let b = metadata_body(c, o);
        assert(context_metadata(c, o) =~= "## Metadata\n\n"@ + b);
        let h = "## Metadata\n\n"@;
        assert(no_title_text(h)) by {
            assert forall|i: int|
                0 <= i < h.len() && #[trigger] h[i] == '#' && line_start(h, i) implies (i + 1 == h.len() || h[i
                    + 1] == '\n' || !is_ws(h[i + 1])) by {
                assert(i == 0 || i == 1);
            }
        }
        lemma_no_title_concat(h, b);
    } else {
        lemma_hashless_untitled(context_metadata(c, o));
    }
}

/// The lines of an exported context: its title line, then lines that are no
/// title lines.
proof fn lemma_context_title(c: ContextExport, o: ExportOptions)
    requires
        title_text(c.name@),
        metadata_inline(c),
        no_title_text(c.content@),
    ensures
        last_title(lines(context_markdown(c, o))) == c.name@,
{
    reveal_strlit("# ");
    reveal_strlit("\n\n");
    reveal_strlit("\n");
    reveal_strlit("## Content\n\n");
    let n = c.name@;
    let m = context_markdown(c, o);
    let md = context_metadata(c, o);
    let l = "# "@ + n;
    let a = l + "\n"@;
    let b = "\n"@ + md + "## Content\n\n"@ + c.content@ + "\n"@;
    assert(m =~= a + b);
    lemma_lines_concat(a, b, Seq::empty());
    assert(lacks(l, '\n')) by {
        assert forall|i: int| 0 <= i < l.len() implies l[i] != '\n' by {
            if i >= 2 {
                assert(l[i] == n[i - 2]);
            }
        }
    }
    assert(a =~= l + seq!['\n']);
    lemma_single_line(l, Seq::empty());
    assert(Seq::<char>::empty() + l =~= l);
    assert(l.last() == n.last());
    assert(strip_cr(l) == l);
    // The rest holds no title line.
    lemma_metadata_shape(c, o);
    let h = "## Content\n\n"@;
    assert(no_title_text(h)) by {
        assert forall|i: int|
            0 <= i < h.len() && #[trigger] h[i] == '#' && line_start(h, i) implies (i + 1 == h.len() || h[i
                + 1] == '\n' || !is_ws(h[i + 1])) by {
            assert(i == 0 || i == 1);
        }
    }
    lemma_hashless_untitled("\n"@);
    lemma_no_title_concat("\n"@, md);
    assert(("\n"@ + md).last() == '\n');
    lemma_no_title_concat("\n"@ + md, h);
    lemma_no_title_concat("\n"@ + md + h, c.content@);
    lemma_no_title_concat("\n"@ + md + h + c.content@, "\n"@);
    assert(Seq::<char>::empty() + b =~= b);
    lemma_lines_untitled(b, Seq::empty());
    lemma_last_title_untitled_suffix(seq![l], lines_from(b, Seq::empty()));
    assert(lines(m) == seq![l] + lines_from(b, Seq::empty()));
    // The title line itself.
    assert(l[0] == '#' && l[1] == ' ' && l[2] == n[0]);
    assert(ws_run_end(l, 2) == 2);
    assert(ws_run_end(l, 1) == 2);
    assert(title_cap(l) == Some(2int));
    assert(seq![l].drop_last() =~= Seq::<Seq<char>>::empty());
    assert(l.skip(2) =~= n);
}


pub(crate) proof fn lemma_literal_no_hash_pair(h: Seq<char>)
    requires
        h.len() >= 2,
        h[0] == '#',
        h[1] != '#',
        lacks(h.skip(1), '#'),
    ensures
        no_hash_pair(h),
{
    assert forall|i: int| 0 <= i && i + 1 < h.len() implies !(#[trigger] h[i] == '#' && h[i + 1] == '#') by {
        assert(h.skip(1)[i] == h[i + 1]);
        if i > 0 {
            assert(h.skip(1)[i - 1] == h[i]);
        }
    }
}

/// No header begins in a title line `# n` and the blank line after it.
proof fn lemma_skip_title(m: Seq<char>, n: Seq<char>)
    requires
        no_hash_pair(n),
        n.len() + 4 < m.len(),
        m.subrange(0, n.len() + 4 as int) == "# "@ + n + "\n\n"@,
    ensures
        header_from(m, 0, "##"@, "Content"@) == header_from(m, n.len() + 4 as int, "##"@, "Content"@),
{
    reveal_strlit("# ");
    reveal_strlit("\n\n");
    let hd = "# "@ + n + "\n\n"@;
    lemma_literal_no_hash_pair("# "@);
    lemma_no_hash_pair_concat("# "@, n);
    lemma_no_hash_pair_concat("# "@ + n, "\n\n"@);
    assert(m[hd.len() - 1] == hd[hd.len() - 1]);
    lemma_no_header_between(m, 0, hd.len() as int, "Content"@);
    lemma_header_skip(m, 0, hd.len() as int, "##"@, "Content"@);
}

/// No header with the word `Content` begins in a metadata section.
proof fn lemma_skip_metadata(m: Seq<char>, x: int, body: Seq<char>)
    requires
        0 <= x,
        no_hash_pair(body),
        body.len() > 0,
        body.last() == '\n',
        x + 13 + body.len() < m.len(),
        m.subrange(x, x + 13 + body.len()) == "## Metadata\n\n"@ + body,
    ensures
        header_from(m, x, "##"@, "Content"@) == header_from(m, x + 13 + body.len(), "##"@, "Content"@),
{
    reveal_strlit("## Metadata\n\n");
    reveal_strlit("# Metadata\n\n");
    reveal_strlit("##");
    reveal_strlit("Content");
    let md = "## Metadata\n\n"@ + body;
    let p0 = x + md.len();
    assert(m[x] == md[0] && m[x + 1] == md[1] && m[x + 2] == md[2] && m[x + 3] == md[3]);
    assert(m[x] == '#' && m[x + 1] == '#' && m[x + 2] == ' ' && m[x + 3] == 'M');
    assert(ws_run_end(m, x + 3) == x + 3);
    assert(ws_run_end(m, x + 2) == x + 3);
    assert(!occurs_at(m, "Content"@, x + 3)) by {
        if occurs_at(m, "Content"@, x + 3) {
            assert(m.subrange(x + 3, x + 10)[0] == m[x + 3]);
        }
    }
    assert(header_at(m, x, "##"@, "Content"@) is None);
    assert(m.subrange(x + 1, p0) =~= m.subrange(x, p0).skip(1));
    assert("## Metadata\n\n"@.skip(1) =~= "# Metadata\n\n"@);
    assert(md.skip(1) =~= "## Metadata\n\n"@.skip(1) + body);
    assert(m.subrange(x + 1, p0) =~= "# Metadata\n\n"@ + body);
    let h = "# Metadata\n\n"@;
    assert(lacks(h.skip(1), '#')) by {
        assert forall|i: int| 0 <= i < h.skip(1).len() implies h.skip(1)[i] != '#' by {
            assert(h.skip(1)[i] == h[i + 1]);
        }
    }
    lemma_literal_no_hash_pair(h);
    lemma_no_hash_pair_concat(h, body);
    assert(m[p0 - 1] == md[md.len() - 1]);
    lemma_no_header_between(m, x + 1, p0, "Content"@);
    lemma_header_skip(m, x + 1, p0, "##"@, "Content"@);
}

/// A content section header at `p0` is found there, and what follows its
/// word is the rest of the text.
proof fn lemma_content_header(m: Seq<char>, p0: int, rest: Seq<char>)
    requires
        0 <= p0 <= m.len(),
        m.skip(p0) == "## Content\n\n"@ + rest,
    ensures
        header_from(m, p0, "##"@, "Content"@) == Some(p0 + 10),
        m.skip(p0 + 10) == "\n\n"@ + rest,
{
    reveal_strlit("## Content\n\n");
    reveal_strlit("\n\n");
    reveal_strlit("##");
    reveal_strlit("Content");
    let q = "## Content\n\n"@ + rest;
    assert("## Content\n\n"@.len() == 12);
    assert(m.skip(p0).len() == m.len() - p0);
    assert(q.len() >= 12);
    assert forall|i: int| 0 <= i < 12 implies m[p0 + i] == #[trigger] q[i] by {
        assert(m.skip(p0)[i] == m[p0 + i]);
    }
    assert(q[0] == '#' && q[1] == '#' && q[2] == ' ' && q[3] == 'C' && q[4] == 'o' && q[5] == 'n');
    assert(q[6] == 't' && q[7] == 'e' && q[8] == 'n' && q[9] == 't' && q[10] == '\n');
    assert(m[p0] == '#' && m[p0 + 1] == '#' && m[p0 + 2] == ' ' && m[p0 + 3] == 'C');
    assert(m[p0 + 4] == 'o' && m[p0 + 5] == 'n' && m[p0 + 6] == 't' && m[p0 + 7] == 'e');
    assert(m[p0 + 8] == 'n' && m[p0 + 9] == 't' && m[p0 + 10] == '\n');
    assert(m.subrange(p0, p0 + 2) =~= "##"@);
    assert(ws_run_end(m, p0 + 3) == p0 + 3);
    assert(ws_run_end(m, p0 + 2) == p0 + 3);
    assert(m.subrange(p0 + 3, p0 + 10) =~= "Content"@);
    let k: int = p0 + 10;
    assert(m[k] == '\n');
    lemma_ws_run_end_ge(m, k + 1);
    assert(ws_run_end(m, k) == ws_run_end(m, k + 1));
    assert(newline_within(m, k, ws_run_end(m, k)));
    assert(header_at(m, p0, "##"@, "Content"@) == Some(k));
    assert(m.skip(k) =~= m.skip(p0).skip(10));
    assert(q.skip(10) =~= "\n\n"@ + rest);
}

/// The content section header of an exported context is the first one, and
/// what follows it is the content framed by line breaks.
proof fn lemma_context_body(c: ContextExport, o: ExportOptions)
    requires
        title_text(c.name@),
        metadata_inline(c),
    ensures
        context_content(context_markdown(c, o)) == trim(c.content@),
{
    reveal_strlit("\n\n");
    reveal_strlit("\n");
    reveal_strlit("## Content\n\n");
    reveal_strlit("## Metadata\n\n");
    reveal_strlit("# ");
    let n = c.name@;
    let m = context_markdown(c, o);
    let md = context_metadata(c, o);
    let hd = "# "@ + n + "\n\n"@;
    let rest = c.content@ + "\n"@;
    let q = "## Content\n\n"@ + rest;
    assert(m =~= hd + md + q);
    let x: int = hd.len() as int;
    let p0: int = (hd.len() + md.len()) as int;
    lemma_metadata_shape(c, o);
    lemma_metadata_body(c, o);
    assert(m.subrange(0, x) =~= hd);
    lemma_skip_title(m, n);
    if md.len() > 0 {
        let body = metadata_body(c, o);
        assert(m.subrange(x, x + 13 + body.len()) =~= md);
        lemma_skip_metadata(m, x, body);
    }
    assert(m.skip(p0) =~= q);
    lemma_content_header(m, p0, rest);
    assert("\n\n"@ + rest =~= "\n\n"@ + c.content@ + "\n"@);
    lemma_trim_wrapped("\n\n"@, c.content@, "\n"@);
}

/// A context exported to Markdown and read back gives one context with the
/// same name and the trimmed content, in the workspace that the reader names,
/// and no error; the name must stay on its title line, the metadata on their
/// lines, and no line of the content may itself be a title line.
pub proof fn lemma_context_roundtrip(c: ContextExport, o: ExportOptions, workspace: Seq<char>)
    requires
        title_text(c.name@),
        metadata_inline(c),
        no_title_text(c.content@),
    ensures
        context_items(context_markdown(c, o), workspace).len() == 1,
        context_items(context_markdown(c, o), workspace)[0].0 == c.name@,
        context_items(context_markdown(c, o), workspace)[0].1 == trim(c.content@),
        context_items(context_markdown(c, o), workspace)[0].2 == Some(workspace),
        context_errors(context_markdown(c, o)).len() == 0,
{
    lemma_context_title(c, o);
    lemma_context_body(c, o);
}


// ---------------------------------------------------------------------------
// A decision read back
// ---------------------------------------------------------------------------

/// No line of `t` is a decision line: `##` that begins a line is followed by
/// a character other than whitespace, by a line break, or by nothing.
pub open spec fn no_decision_text(t: Seq<char>) -> bool {
    forall|i: int|
        0 <= i && i + 1 < t.len() && #[trigger] t[i] == '#' && t[i + 1] == '#' && line_start(t, i) ==> (i + 2
            == t.len() || t[i + 2] == '\n' || !is_ws(t[i + 2]))
}

/// Every line in `ls` is other than a decision line.
pub open spec fn undecided(ls: Seq<Seq<char>>) -> bool {
    forall|k: int| 0 <= k < ls.len() ==> (#[trigger] decision_cap(ls[k])) is None
}

proof fn lemma_line_no_decision(l: Seq<char>)
    requires
        l.len() >= 2 && l[0] == '#' && l[1] == '#' ==> (l.len() == 2 || !is_ws(l[2])),
    ensures
        decision_cap(l) is None,
{
    reveal_strlit("##");
    if l.len() >= 2 && l[0] == '#' && l[1] == '#' {
        assert(ws_run_end(l, 2) == 2);
    } else {
        if starts_with_seq(l, "##"@) {
            assert(l.subrange(0, 2)[0] == l[0]);
            assert(l.subrange(0, 2)[1] == l[1]);
        }
    }
}

/// The lines read from text without decision lines are no decision lines.
pub proof fn lemma_lines_no_decision(s: Seq<char>, cur: Seq<char>)
    requires
        no_decision_text(cur + s),
        lacks(cur, '\n'),
    ensures
        undecided(lines_from(s, cur)),
    decreases s.len(),
{
    let t = cur + s;
    if cur.len() >= 2 && cur[0] == '#' && cur[1] == '#' {
        assert(t[0] == '#' && t[1] == '#');
        assert(line_start(t, 0));
        if cur.len() > 2 {
            assert(t[2] == cur[2]);
        }
    }
    if s.len() == 0 {
        assert(t =~= cur);
        if cur.len() > 0 {
            lemma_line_no_decision(cur);
            assert(lines_from(s, cur) == seq![cur]);
            assert(lines_from(s, cur)[0] == cur);
        }
    } else if s[0] == '\n' {
        let l = strip_cr(cur);
        assert(t[cur.len() as int] == '\n');
        if l.len() >= 2 && l[0] == '#' && l[1] == '#' {
            assert(l[0] == cur[0] && l[1] == cur[1]);
            if l.len() > 2 {
                assert(l[2] == cur[2]);
            }
        }
        lemma_line_no_decision(l);
        let rest = s.drop_first();
        assert forall|i: int|
            0 <= i && i + 1 < rest.len() && #[trigger] rest[i] == '#' && rest[i + 1] == '#' && line_start(
                rest,
                i,
            ) implies (i + 2 == rest.len() || rest[i + 2] == '\n' || !is_ws(rest[i + 2])) by {
            let j = cur.len() + 1 + i;
            assert(t[j] == rest[i]);
            assert(t[j + 1] == rest[i + 1]);
            if i > 0 {
                assert(t[j - 1] == rest[i - 1]);
            } else {
                assert(t[j - 1] == s[0]);
            }
            assert(line_start(t, j));
            if i + 2 < rest.len() {
                assert(t[j + 2] == rest[i + 2]);
            }
        }
        assert(Seq::<char>::empty() + rest =~= rest);
        lemma_lines_no_decision(rest, Seq::empty());
        let tail = lines_from(rest, Seq::empty());
        assert(lines_from(s, cur) == seq![l] + tail);
        assert forall|k: int| 0 <= k < lines_from(s, cur).len() implies (#[trigger] decision_cap(
            lines_from(s, cur)[k],
        )) is None by {
            if k == 0 {
                assert(lines_from(s, cur)[0] == l);
            } else {
                assert(lines_from(s, cur)[k] == tail[k - 1]);
            }
        }
    } else {
        assert(cur.push(s[0]) + s.drop_first() =~= t);
        assert forall|i: int| 0 <= i < cur.push(s[0]).len() implies cur.push(s[0])[i] != '\n' by {
            if i < cur.len() {
                assert(cur.push(s[0])[i] == cur[i]);
            }
        }
        lemma_lines_no_decision(s.drop_first(), cur.push(s[0]));
    }
}

/// Lines without decision lines after others leave the last summary as it was.
pub proof fn lemma_last_decision_suffix(x: Seq<Seq<char>>, y: Seq<Seq<char>>)
    requires
        undecided(y),
    ensures
        last_decision(x + y) == last_decision(x),
    decreases y.len(),
{
    if y.len() == 0 {
        assert(x + y =~= x);
    } else {
        assert((x + y).last() == y.last());
        assert(decision_cap(y[y.len() - 1]) is None);
        assert((x + y).drop_last() =~= x + y.drop_last());
        assert forall|k: int| 0 <= k < y.drop_last().len() implies (#[trigger] decision_cap(
            y.drop_last()[k],
        )) is None by {
            assert(y.drop_last()[k] == y[k]);
        }
        lemma_last_decision_suffix(x, y.drop_last());
    }
}

/// Text without a pair of `#` has no decision lines.
pub proof fn lemma_paired_free_undecided(t: Seq<char>)
    requires
        no_hash_pair(t),
    ensures
        no_decision_text(t),
{
}

/// Joining two texts without decision lines where none can form at the seam.
pub proof fn lemma_no_decision_concat(a: Seq<char>, b: Seq<char>)
    requires
        no_decision_text(a),
        no_decision_text(b),
        !(a.len() > 0 && b.len() > 0 && a.last() == '#' && b[0] == '#'),
        a.len() >= 2 && a[a.len() - 2] == '#' && a[a.len() - 1] == '#' ==> (b.len() == 0 || b[0] == '\n'
            || !is_ws(b[0])),
    ensures
        no_decision_text(a + b),
{
    let t = a + b;
    assert forall|i: int|
        0 <= i && i + 1 < t.len() && #[trigger] t[i] == '#' && t[i + 1] == '#' && line_start(t, i) implies (
        i + 2 == t.len() || t[i + 2] == '\n' || !is_ws(t[i + 2])) by {
        if i + 1 < a.len() {
            assert(t[i] == a[i] && t[i + 1] == a[i + 1]);
            if i > 0 {
                assert(t[i - 1] == a[i - 1]);
            }
            assert(line_start(a, i));
            if i + 2 < a.len() {
                assert(t[i + 2] == a[i + 2]);
            } else if b.len() > 0 {
                assert(t[i + 2] == b[0]);
            }
        } else if i + 1 == a.len() {
            assert(t[i] == a.last() && t[i + 1] == b[0]);
        } else {
            let j = i - a.len();
            assert(t[i] == b[j] && t[i + 1] == b[j + 1]);
            if j > 0 {
                assert(t[i - 1] == b[j - 1]);
            }
            assert(line_start(b, j));
            if j + 2 < b.len() {
                assert(t[i + 2] == b[j + 2]);
            }
        }
    }
}

/// A run of `#` begins nowhere in a stretch without a pair of `#`.
pub proof fn lemma_no_hashes_between(s: Seq<char>, p: int, q: int, hashes: Seq<char>)
    requires
        0 <= p <= q <= s.len(),
        hashes.len() >= 2,
        hashes[0] == '#',
        hashes[1] == '#',
        no_hash_pair(s.subrange(p, q)),
        q > p ==> s[q - 1] != '#',
    ensures
        forall|x: int| p <= x < q ==> !#[trigger] occurs_at(s, hashes, x),
{
    assert forall|x: int| p <= x < q implies !#[trigger] occurs_at(s, hashes, x) by {
        if occurs_at(s, hashes, x) {
            assert(s.subrange(x, x + hashes.len())[0] == s[x]);
            assert(s.subrange(x, x + hashes.len())[1] == s[x + 1]);
            if x + 1 < q {
                assert(s.subrange(p, q)[x - p] == s[x]);
                assert(s.subrange(p, q)[x + 1 - p] == s[x + 1]);
            }
        }
    }
}


/// A `### title` block, where `title` does not begin as `word` does, holds
/// no `### word` header.
proof fn lemma_skip_block(m: Seq<char>, x: int, title: Seq<char>, body: Seq<char>, word: Seq<char>)
    requires
        0 <= x,
        x + 6 + title.len() + body.len() <= m.len(),
        m.subrange(x, x + 6 + title.len() + body.len()) == "### "@ + title + "\n\n"@ + body,
        title.len() > 0,
        !is_ws(title[0]),
        word.len() > 0,
        title[0] != word[0],
        no_hash_pair(title),
        no_hash_pair(body),
        body.len() > 0 ==> body.last() != '#',
    ensures
        header_from(m, x, "###"@, word) == header_from(m, x + 6 + title.len() + body.len(), "###"@, word),
{
    reveal_strlit("### ");
    reveal_strlit("###");
    reveal_strlit("\n\n");
    let block = "### "@ + title + "\n\n"@ + body;
    let e: int = x + block.len();
    assert forall|i: int| 0 <= i < block.len() implies m[x + i] == #[trigger] block[i] by {
        assert(m.subrange(x, e)[i] == m[x + i]);
    }
    assert(block[0] == '#' && block[1] == '#' && block[2] == '#' && block[3] == ' ' && block[4] == title[0]);
    assert(m[x + 3] == ' ' && m[x + 4] == title[0]);
    assert(ws_run_end(m, x + 4) == x + 4);
    assert(ws_run_end(m, x + 3) == x + 4);
    assert(!occurs_at(m, word, x + 4)) by {
        if occurs_at(m, word, x + 4) {
            assert(m.subrange(x + 4, x + 4 + word.len())[0] == m[x + 4]);
        }
    }
    assert(header_at(m, x, "###"@, word) is None);
    assert(!occurs_at(m, "###"@, x + 1)) by {
        if occurs_at(m, "###"@, x + 1) {
            assert(m.subrange(x + 1, x + 4)[2] == m[x + 3]);
        }
    }
    assert(!occurs_at(m, "###"@, x + 2)) by {
        if occurs_at(m, "###"@, x + 2) {
            assert(m.subrange(x + 2, x + 5)[1] == m[x + 3]);
        }
    }
    let tail = " "@ + title + "\n\n"@ + body;
    reveal_strlit(" ");
    assert("### "@.skip(3) =~= " "@);
    assert(block.skip(3) =~= tail);
    assert forall|i: int| 0 <= i < e - (x + 3) implies m.subrange(x + 3, e)[i] == #[trigger] block.skip(3)[i] by {
        assert(m[x + 3 + i] == block[3 + i]);
    }
    assert(m.subrange(x + 3, e) =~= tail);
    lemma_literal_pair_free(" "@);
    lemma_no_hash_pair_concat(" "@, title);
    lemma_literal_pair_free("\n\n"@);
    lemma_no_hash_pair_concat(" "@ + title, "\n\n"@);
    lemma_no_hash_pair_concat(" "@ + title + "\n\n"@, body);
    assert(m[e - 1] == block[block.len() - 1]);
    lemma_no_hashes_between(m, x + 3, e, "###"@);
    assert forall|y: int| x <= y < e implies (#[trigger] header_at(m, y, "###"@, word)) is None by {
        if y == x + 1 || y == x + 2 {
        } else if y > x + 2 {
            assert(!occurs_at(m, "###"@, y));
        }
    }
    lemma_header_skip(m, x, e, "###"@, word);
}

/// Text without `#` holds no pair of `#`.
proof fn lemma_literal_pair_free(t: Seq<char>)
    requires
        lacks(t, '#'),
    ensures
        no_hash_pair(t),
{
}

/// A `### title` block at `p0` is found as the header of its title, and what
/// follows the title is the rest of the text.
proof fn lemma_block_header(m: Seq<char>, p0: int, title: Seq<char>, rest: Seq<char>)
    requires
        0 <= p0 <= m.len(),
        m.skip(p0) == "### "@ + title + "\n\n"@ + rest,
        title.len() > 0,
        !is_ws(title[0]),
    ensures
        header_from(m, p0, "###"@, title) == Some(p0 + 4 + title.len()),
        m.skip(p0 + 4 + title.len()) == "\n\n"@ + rest,
{
    reveal_strlit("### ");
    reveal_strlit("###");
    reveal_strlit("\n\n");
    let q = "### "@ + title + "\n\n"@ + rest;
    let k: int = p0 + 4 + title.len();
    let tl: int = 4 + title.len() as int;
    assert(m.skip(p0).len() == m.len() - p0);
    assert forall|i: int| 0 <= i < q.len() implies m[p0 + i] == #[trigger] q[i] by {
        assert(m.skip(p0)[i] == m[p0 + i]);
    }
    assert(q[0] == '#' && q[1] == '#' && q[2] == '#' && q[3] == ' ' && q[4] == title[0]);
    assert(m.subrange(p0, p0 + 3) =~= "###"@);
    assert(m[p0 + 3] == ' ' && m[p0 + 4] == title[0]);
    assert(ws_run_end(m, p0 + 4) == p0 + 4);
    assert(ws_run_end(m, p0 + 3) == p0 + 4);
    assert forall|i: int| 0 <= i < title.len() implies m.subrange(p0 + 4, k)[i] == title[i] by {
        assert(q[4 + i] == title[i]);
        assert(m[p0 + 4 + i] == q[4 + i]);
    }
    assert(m.subrange(p0 + 4, k) =~= title);
    assert(q[tl] == '\n');
    assert(m[k] == '\n');
    lemma_ws_run_end_ge(m, k + 1);
    assert(ws_run_end(m, k) == ws_run_end(m, k + 1));
    assert(newline_within(m, k, ws_run_end(m, k)));
    assert(header_at(m, p0, "###"@, title) == Some(k));
    assert(m.skip(k) =~= m.skip(p0).skip(tl));
    assert(q.skip(tl) =~= "\n\n"@ + rest);
}


/// Inline parts joined by `, ` make inline text.
proof fn lemma_join_inline(parts: Seq<Seq<char>>)
    requires
        forall|i: int| 0 <= i < parts.len() ==> inline_text(#[trigger] parts[i]),
    ensures
        inline_text(join(parts, ", "@)),
    decreases parts.len(),
{
    reveal_strlit(", ");
    if parts.len() == 0 {
    } else if parts.len() == 1 {
        assert(inline_text(parts[0]));
    } else {
        let init = parts.drop_last();
        assert forall|i: int| 0 <= i < init.len() implies inline_text(#[trigger] init[i]) by {
            assert(init[i] == parts[i]);
        }
        lemma_join_inline(init);
        let a = join(init, ", "@);
        let last = parts.last();
        assert(inline_text(parts[parts.len() - 1]));
        lemma_no_hash_pair_concat(a, ", "@);
        lemma_no_hash_pair_concat(a + ", "@, last);
        let j = a + ", "@ + last;
        assert forall|i: int| 0 <= i < j.len() implies j[i] != '\n' by {
            if i < a.len() {
                assert(j[i] == a[i]);
            } else if i >= a.len() + 2 {
                assert(j[i] == last[i - a.len() - 2]);
            }
        }
    }
}

/// Every tag of a decision is inline text.
pub open spec fn inline_tags(tags: Seq<String>) -> bool {
    forall|i: int| 0 <= i < tags.len() ==> inline_text(#[trigger] tags[i]@)
}

/// The fields of a decision that the exporter writes into its metadata.
pub open spec fn decision_fields_inline(d: DecisionExport) -> bool {
    inline_text(d.id@) && inline_opt(d.timestamp) && inline_tags(d.tags@)
}

/// The metadata of a decision after its header line and the blank line.
pub open spec fn decision_metadata_body(d: DecisionExport, o: ExportOptions) -> Seq<char> {
    "- **ID**: `"@ + d.id@ + "`\n"@ + (if o.include_timestamps {
        opt_line("- **Date**: "@, d.timestamp, "\n"@)
    } else {
        Seq::empty()
    }) + (if o.include_tags && d.tags@.len() > 0 {
        "- **Tags**: "@ + join(views(d.tags@), ", "@) + "\n"@
    } else {
        Seq::empty()
    }) + "\n"@
}

proof fn lemma_decision_metadata(d: DecisionExport, o: ExportOptions)
    requires
        decision_fields_inline(d),
    ensures
        decision_metadata(d, o).len() == 0 || decision_metadata(d, o) == "### Metadata\n\n"@
            + decision_metadata_body(d, o),
        no_hash_pair(decision_metadata_body(d, o)),
        decision_metadata_body(d, o).len() > 0,
        decision_metadata_body(d, o).last() == '\n',
        no_decision_text(decision_metadata(d, o)),
        decision_metadata(d, o).len() == 0 || decision_metadata(d, o).last() == '\n',
{
    reveal_strlit("- **ID**: `");
    reveal_strlit("`\n");
    reveal_strlit("\n");
    reveal_strlit("- **Date**: ");
    reveal_strlit("- **Tags**: ");
    reveal_strlit("### Metadata\n\n");
    let head = "- **ID**: `"@ + d.id@ + "`\n"@;
    lemma_no_hash_pair_concat("- **ID**: `"@, d.id@);
    lemma_no_hash_pair_concat("- **ID**: `"@ + d.id@, "`\n"@);
    let dt = if o.include_timestamps {
        opt_line("- **Date**: "@, d.timestamp, "\n"@)
    } else {
        Seq::empty()
    };
    lemma_opt_line_inline("- **Date**: "@, d.timestamp);
    assert(no_hash_pair(dt));
    let tt = if o.include_tags && d.tags@.len() > 0 {
        "- **Tags**: "@ + join(views(d.tags@), ", "@) + "\n"@
    } else {
        Seq::empty()
    };
    if o.include_tags && d.tags@.len() > 0 {
        let vs = views(d.tags@);
        assert forall|i: int| 0 <= i < vs.len() implies inline_text(#[trigger] vs[i]) by {
            assert(vs[i] == d.tags@[i]@);
        }
        lemma_join_inline(vs);
        lemma_no_hash_pair_concat("- **Tags**: "@, join(vs, ", "@));
        lemma_no_hash_pair_concat("- **Tags**: "@ + join(vs, ", "@), "\n"@);
    }
    assert(no_hash_pair(tt));
    assert(dt.len() == 0 || dt.last() == '\n');
    lemma_no_hash_pair_concat(head, dt);
    lemma_no_hash_pair_concat(head + dt, tt);
    lemma_no_hash_pair_concat(head + dt + tt, "\n"@);
    let body = decision_metadata_body(d, o);
    assert(body =~= head + dt + tt + "\n"@);
    if o.include_metadata || o.include_timestamps || o.include_tags {
        let h = "### Metadata\n\n"@;
        assert(decision_metadata(d, o) =~= h + body);
        assert(no_decision_text(h)) by {
            assert forall|i: int|
                0 <= i && i + 1 < h.len() && #[trigger] h[i] == '#' && h[i + 1] == '#' && line_start(h, i)
                    implies (i + 2 == h.len() || h[i + 2] == '\n' || !is_ws(h[i + 2])) by {
                assert(i == 0 || i == 1);
            }
        }
        lemma_no_decision_concat(h, body);
    } else {
        assert(decision_metadata(d, o) =~= Seq::<char>::empty());
    }
}


/// What a decision's rationale or implementation must be for its section to
/// give it back: no pair of `#` in it.
pub open spec fn section_opt(o: Option<String>) -> bool {
    match o {
        Some(t) => no_hash_pair(t@),
        None => true,
    }
}

/// The trimmed text of an optional text.
pub open spec fn trimmed_opt(o: Option<String>) -> Option<Seq<char>> {
    match o {
        Some(t) => Some(trim(t@)),
        None => None,
    }
}

/// A `### title` section of a decision, with its text and what ends it.
proof fn lemma_section_block(prefix: Seq<char>, v: Option<String>, suffix: Seq<char>)
    requires
        section_opt(v),
        no_decision_text(prefix),
        prefix.len() > 0,
        prefix.last() == '\n',
        suffix.len() > 0,
        suffix[0] == '\n',
        suffix.last() == '\n',
        lacks(suffix, '#'),
    ensures
        no_decision_text(opt_line(prefix, v, suffix)),
        opt_line(prefix, v, suffix).len() == 0 || opt_line(prefix, v, suffix).last() == '\n',
{
    match v {
        Some(t) => {
            lemma_no_decision_concat(prefix, t@);
            lemma_no_decision_concat(prefix + t@, suffix);
        },
        None => {},
    }
}

proof fn lemma_header_text_undecided(h: Seq<char>)
    requires
        h.len() >= 4,
        h[0] == '#' && h[1] == '#' && h[2] == '#',
        lacks(h.skip(3), '#'),
    ensures
        no_decision_text(h),
{
    assert forall|i: int|
        0 <= i && i + 1 < h.len() && #[trigger] h[i] == '#' && h[i + 1] == '#' && line_start(h, i) implies (i
            + 2 == h.len() || h[i + 2] == '\n' || !is_ws(h[i + 2])) by {
        if i >= 3 {
            assert(h.skip(3)[i - 3] == h[i]);
        }
        if i == 1 || i == 2 {
            assert(h[i - 1] == '#');
        }
    }
}

/// The summary line is the only decision line of an exported decision.
proof fn lemma_decision_summary(d: DecisionExport, o: ExportOptions)
    requires
        title_text(d.summary@),
        decision_fields_inline(d),
        section_opt(d.rationale),
        section_opt(d.implementation_details),
    ensures
        last_decision(lines(decision_markdown(d, o))) == d.summary@,
{
    reveal_strlit("## Decision: ");
    reveal_strlit("\n\n");
    reveal_strlit("\n");
    reveal_strlit("### Rationale\n\n");
    reveal_strlit("### Implementation\n\n");
    reveal_strlit("##");
    reveal_strlit("Decision:");
    let n = d.summary@;
    let m = decision_markdown(d, o);
    let dm = decision_metadata(d, o);
    let rt = opt_line("### Rationale\n\n"@, d.rationale, "\n\n"@);
    let it = opt_line("### Implementation\n\n"@, d.implementation_details, "\n"@);
    let l = "## Decision: "@ + n;
    let a = l + "\n"@;
    let b = "\n"@ + dm + rt + it;
    assert(m =~= a + b);
    lemma_lines_concat(a, b, Seq::empty());
    assert(lacks(l, '\n')) by {
        assert forall|i: int| 0 <= i < l.len() implies l[i] != '\n' by {
            if i >= 13 {
                assert(l[i] == n[i - 13]);
            }
        }
    }
    assert(a =~= l + seq!['\n']);
    lemma_single_line(l, Seq::empty());
    assert(Seq::<char>::empty() + l =~= l);
    assert(l.last() == n.last());
    assert(strip_cr(l) == l);
    // The rest holds no decision line.
    lemma_decision_metadata(d, o);
    let rh = "### Rationale\n\n"@;
    let ih = "### Implementation\n\n"@;
    assert(lacks(rh.skip(3), '#')) by {
        assert forall|i: int| 0 <= i < rh.skip(3).len() implies rh.skip(3)[i] != '#' by {
            assert(rh.skip(3)[i] == rh[i + 3]);
        }
    }
    assert(lacks(ih.skip(3), '#')) by {
        assert forall|i: int| 0 <= i < ih.skip(3).len() implies ih.skip(3)[i] != '#' by {
            assert(ih.skip(3)[i] == ih[i + 3]);
        }
    }
    lemma_header_text_undecided(rh);
    lemma_header_text_undecided(ih);
    lemma_section_block(rh, d.rationale, "\n\n"@);
    lemma_section_block(ih, d.implementation_details, "\n"@);
    lemma_paired_free_undecided("\n"@);
    lemma_no_decision_concat("\n"@, dm);
    assert(("\n"@ + dm).last() == '\n');
    lemma_no_decision_concat("\n"@ + dm, rt);
    assert(("\n"@ + dm + rt).last() == '\n');
    lemma_no_decision_concat("\n"@ + dm + rt, it);
    assert(Seq::<char>::empty() + b =~= b);
    lemma_lines_no_decision(b, Seq::empty());
    lemma_last_decision_suffix(seq![l], lines_from(b, Seq::empty()));
    assert(lines(m) == seq![l] + lines_from(b, Seq::empty()));
    // The summary line itself.
    assert(l[0] == '#' && l[1] == '#' && l[2] == ' ' && l[3] == 'D' && l[12] == ' ' && l[13] == n[0]);
    assert(l.subrange(0, 2) =~= "##"@);
    assert(ws_run_end(l, 3) == 3);
    assert(ws_run_end(l, 2) == 3);
    assert(l.subrange(3, 12) =~= "Decision:"@);
    assert(ws_run_end(l, 13) == 13);
    assert(ws_run_end(l, 12) == 13);
    assert(decision_cap(l) == Some(13int));
    assert(seq![l].drop_last() =~= Seq::<Seq<char>>::empty());
    assert(l.skip(13) =~= n);
}


/// No `###` header begins on a summary line `## Decision: n` or the blank
/// line after it.
proof fn lemma_skip_summary(m: Seq<char>, n: Seq<char>, word: Seq<char>)
    requires
        no_hash_pair(n),
        n.len() + 15 <= m.len(),
        m.subrange(0, n.len() + 15 as int) == "## Decision: "@ + n + "\n\n"@,
    ensures
        header_from(m, 0, "###"@, word) == header_from(m, n.len() + 15 as int, "###"@, word),
{
    reveal_strlit("## Decision: ");
    reveal_strlit("# Decision: ");
    reveal_strlit("\n\n");
    reveal_strlit("###");
    let hd = "## Decision: "@ + n + "\n\n"@;
    let e: int = hd.len() as int;
    assert(m[2] == hd[2]);
    assert(!occurs_at(m, "###"@, 0)) by {
        if occurs_at(m, "###"@, 0) {
            assert(m.subrange(0, 3)[2] == m[2]);
        }
    }
    let h1 = "# Decision: "@;
    assert(lacks(h1.skip(1), '#')) by {
        assert forall|i: int| 0 <= i < h1.skip(1).len() implies h1.skip(1)[i] != '#' by {
            assert(h1.skip(1)[i] == h1[i + 1]);
        }
    }
    lemma_literal_no_hash_pair(h1);
    lemma_no_hash_pair_concat(h1, n);
    lemma_no_hash_pair_concat(h1 + n, "\n\n"@);
    assert(m.subrange(1, e) =~= h1 + n + "\n\n"@) by {
        assert forall|i: int| 0 <= i < e - 1 implies m.subrange(1, e)[i] == (h1 + n + "\n\n"@)[i] by {
            assert(m.subrange(0, e)[i + 1] == m[i + 1]);
            assert(hd[i + 1] == (h1 + n + "\n\n"@)[i]);
        }
    }
    assert(m[e - 1] == hd[e - 1]);
    lemma_no_hashes_between(m, 1, e, "###"@);
    lemma_header_skip(m, 0, e, "###"@, word);
}

/// An exported decision's text, in its parts.
proof fn lemma_decision_parts(d: DecisionExport, o: ExportOptions)
    ensures
        decision_markdown(d, o) == "## Decision: "@ + d.summary@ + "\n\n"@ + decision_metadata(d, o) + opt_line(
            "### Rationale\n\n"@,
            d.rationale,
            "\n\n"@,
        ) + opt_line("### Implementation\n\n"@, d.implementation_details, "\n"@),
{
}

/// The section headers before the rationale's hold neither section.
proof fn lemma_decision_head(d: DecisionExport, o: ExportOptions, word: Seq<char>)
    requires
        title_text(d.summary@),
        decision_fields_inline(d),
        word.len() > 0,
        word[0] != 'M',
    ensures
        header_from(decision_markdown(d, o), 0, "###"@, word) == header_from(
            decision_markdown(d, o),
            (d.summary@.len() + 15 + decision_metadata(d, o).len()) as int,
            "###"@,
            word,
        ),
{
    reveal_strlit("## Decision: ");
    reveal_strlit("\n\n");
    reveal_strlit("### Metadata\n\n");
    reveal_strlit("### ");
    reveal_strlit("Metadata");
    let n = d.summary@;
    let m = decision_markdown(d, o);
    let dm = decision_metadata(d, o);
    let hd = "## Decision: "@ + n + "\n\n"@;
    let rest = m.skip(hd.len() as int);
    assert(m.subrange(0, hd.len() as int) =~= hd);
    lemma_skip_summary(m, n, word);
    lemma_decision_metadata(d, o);
    if dm.len() > 0 {
        let body = decision_metadata_body(d, o);
        assert("### Metadata\n\n"@ =~= "### "@ + "Metadata"@ + "\n\n"@);
        assert(m.subrange(hd.len() as int, (hd.len() + dm.len()) as int) =~= dm);
        assert(dm =~= "### "@ + "Metadata"@ + "\n\n"@ + body);
        assert("Metadata"@[0] == 'M');
        lemma_skip_block(m, hd.len() as int, "Metadata"@, body, word);
    }
}


proof fn lemma_no_hashes_after(m: Seq<char>, k: int)
    requires
        0 <= k <= m.len(),
        no_hash_pair(m.skip(k)),
        m.len() > k ==> m.last() != '#',
    ensures
        find_seq(m, "###"@, k) is None,
{
    reveal_strlit("###");
    assert(m.subrange(k, m.len() as int) =~= m.skip(k));
    if m.len() > k {
        assert(m[m.len() - 1] == m.last());
    }
    lemma_no_hashes_between(m, k, m.len() as int, "###"@);
    assert forall|x: int| k <= x implies !#[trigger] occurs_at(m, "###"@, x) by {
        if x < m.len() {
        }
    }
    lemma_find_seq_none(m, "###"@, k);
}

/// The rationale section of an exported decision gives back the trimmed
/// rationale.
proof fn lemma_decision_rationale(d: DecisionExport, o: ExportOptions)
    requires
        title_text(d.summary@),
        decision_fields_inline(d),
        section_opt(d.rationale),
        section_opt(d.implementation_details),
    ensures
        section_text(decision_markdown(d, o), "Rationale"@) == trimmed_opt(d.rationale),
{
    reveal_strlit("\n\n");
    reveal_strlit("\n");
    reveal_strlit("### Rationale\n\n");
    reveal_strlit("### Implementation\n\n");
    reveal_strlit("### ");
    reveal_strlit("Rationale");
    reveal_strlit("Implementation");
    reveal_strlit("###");
    reveal_strlit("## Decision: ");
    let m = decision_markdown(d, o);
    let dm = decision_metadata(d, o);
    let rt = opt_line("### Rationale\n\n"@, d.rationale, "\n\n"@);
    let it = opt_line("### Implementation\n\n"@, d.implementation_details, "\n"@);
    let hd = "## Decision: "@ + d.summary@ + "\n\n"@;
    lemma_decision_parts(d, o);
    assert(m =~= hd + dm + rt + it);
    let p0: int = (hd.len() + dm.len()) as int;
    assert("Rationale"@[0] == 'R');
    lemma_decision_head(d, o, "Rationale"@);
    assert(p0 == d.summary@.len() + 15 + dm.len());
    assert(m.skip(p0) =~= rt + it);
    match d.rationale {
        Some(r) => {
            assert(rt =~= "### "@ + "Rationale"@ + "\n\n"@ + (r@ + "\n\n"@));
            assert(m.skip(p0) =~= "### "@ + "Rationale"@ + "\n\n"@ + (r@ + "\n\n"@ + it));
            lemma_block_header(m, p0, "Rationale"@, r@ + "\n\n"@ + it);
            let k: int = p0 + 13;
            lemma_no_hash_pair_concat("\n\n"@, r@);
            lemma_no_hash_pair_concat("\n\n"@ + r@, "\n\n"@);
            match d.implementation_details {
                Some(i) => {
                    let q: int = p0 + rt.len();
                    assert(m.subrange(k, q) =~= "\n\n"@ + r@ + "\n\n"@);
                    assert(m[q - 1] == '\n');
                    lemma_no_hashes_between(m, k, q, "###"@);
                    assert(m.subrange(q, q + 3) =~= "###"@) by {
                        assert(m.skip(q) =~= it);
                        assert(it[0] == '#' && it[1] == '#' && it[2] == '#');
                        assert(m[q] == it[0] && m[q + 1] == it[1] && m[q + 2] == it[2]);
                    }
                    lemma_find_seq_first(m, "###"@, k, q);
                    lemma_trim_wrapped("\n\n"@, r@, "\n\n"@);
                },
                None => {
                    assert(m.skip(k) =~= "\n\n"@ + r@ + "\n\n"@);
                    lemma_no_hashes_after(m, k);
                    lemma_trim_wrapped("\n\n"@, r@, "\n\n"@);
                },
            }
        },
        None => {
            match d.implementation_details {
                Some(i) => {
                    lemma_no_hash_pair_concat(i@, "\n"@);
                    assert(it =~= "### "@ + "Implementation"@ + "\n\n"@ + (i@ + "\n"@));
                    assert(m.subrange(p0, m.len() as int) =~= it);
                    lemma_skip_block(m, p0, "Implementation"@, i@ + "\n"@, "Rationale"@);
                },
                None => {},
            }
        },
    }
}

/// The implementation section of an exported decision gives back the
/// trimmed implementation details.
proof fn lemma_decision_implementation(d: DecisionExport, o: ExportOptions)
    requires
        title_text(d.summary@),
        decision_fields_inline(d),
        section_opt(d.rationale),
        section_opt(d.implementation_details),
    ensures
        section_text(decision_markdown(d, o), "Implementation"@) == trimmed_opt(d.implementation_details),
{
    reveal_strlit("\n\n");
    reveal_strlit("\n");
    reveal_strlit("### Rationale\n\n");
    reveal_strlit("### Implementation\n\n");
    reveal_strlit("### ");
    reveal_strlit("Rationale");
    reveal_strlit("Implementation");
    reveal_strlit("## Decision: ");
    let m = decision_markdown(d, o);
    let dm = decision_metadata(d, o);
    let rt = opt_line("### Rationale\n\n"@, d.rationale, "\n\n"@);
    let it = opt_line("### Implementation\n\n"@, d.implementation_details, "\n"@);
    let hd = "## Decision: "@ + d.summary@ + "\n\n"@;
    lemma_decision_parts(d, o);
    assert(m =~= hd + dm + rt + it);
    let p0: int = (hd.len() + dm.len()) as int;
    let p1: int = p0 + rt.len();
    assert("Implementation"@[0] == 'I');
    lemma_decision_head(d, o, "Implementation"@);
    assert(p0 == d.summary@.len() + 15 + dm.len());
    match d.rationale {
        Some(r) => {
            lemma_no_hash_pair_concat(r@, "\n\n"@);
            assert(rt =~= "### "@ + "Rationale"@ + "\n\n"@ + (r@ + "\n\n"@));
            assert(m.subrange(p0, p1) =~= rt);
            lemma_skip_block(m, p0, "Rationale"@, r@ + "\n\n"@, "Implementation"@);
        },
        None => {},
    }
    match d.implementation_details {
        Some(i) => {
            assert(m.skip(p1) =~= "### "@ + "Implementation"@ + "\n\n"@ + (i@ + "\n"@));
            lemma_block_header(m, p1, "Implementation"@, i@ + "\n"@);
            let k: int = p1 + 18;
            assert(m.skip(k) =~= "\n\n"@ + i@ + "\n"@);
            lemma_no_hash_pair_concat("\n\n"@, i@);
            lemma_no_hash_pair_concat("\n\n"@ + i@, "\n"@);
            lemma_no_hashes_after(m, k);
            lemma_trim_wrapped("\n\n"@, i@, "\n"@);
        },
        None => {
            assert(p1 == m.len());
        },
    }
}

/// A decision exported to Markdown and read back gives one decision with
/// the same summary and the trimmed rationale and implementation details,
/// and no error; the summary must stay on its line, the metadata on theirs,
/// and no text may hold a pair of `#`.
pub proof fn lemma_decision_roundtrip(d: DecisionExport, o: ExportOptions)
    requires
        title_text(d.summary@),
        decision_fields_inline(d),
        section_opt(d.rationale),
        section_opt(d.implementation_details),
    ensures
        decision_items(decision_markdown(d, o)).len() == 1,
        decision_items(decision_markdown(d, o))[0].0 == d.summary@,
        decision_items(decision_markdown(d, o))[0].1 == trimmed_opt(d.rationale),
        decision_items(decision_markdown(d, o))[0].2 == trimmed_opt(d.implementation_details),
        decision_errors(decision_markdown(d, o)).len() == 0,
{
    lemma_decision_summary(d, o);
    lemma_decision_rationale(d, o);
    lemma_decision_implementation(d, o);
}


// ---------------------------------------------------------------------------
// A progress entry read back
// ---------------------------------------------------------------------------

/// `t` holds none of the three status marks.
pub open spec fn markless(t: Seq<char>) -> bool {
    lacks(t, '\u{1F532}') && lacks(t, '\u{1F504}') && lacks(t, '\u{2705}')
}

/// An optional text that holds no status mark where it is given.
pub open spec fn markless_opt(x: Option<String>) -> bool {
    match x {
        Some(t) => markless(t@),
        None => true,
    }
}

/// The fields of an entry that the exporter writes into its metadata hold
/// no status mark.
pub open spec fn progress_fields_markless(p: ProgressExport) -> bool {
    markless(p.id@) && markless_opt(p.linked_item_type) && markless_opt(p.linked_item_id) && markless_opt(
        p.timestamp,
    )
}

/// What an entry's description must be for its status line to give it back.
pub open spec fn description_text(d: Seq<char>) -> bool {
    &&& d.len() > 0
    &&& !is_ws(d[0])
    &&& lacks(d, '\n')
    &&& d.last() != '\r'
}

pub(crate) proof fn lemma_markless_concat(a: Seq<char>, b: Seq<char>)
    requires
        markless(a),
        markless(b),
    ensures
        markless(a + b),
{
    assert forall|i: int| 0 <= i < (a + b).len() implies (a + b)[i] != '\u{1F532}' && (a + b)[i] != '\u{1F504}'
        && (a + b)[i] != '\u{2705}' by {
        if i < a.len() {
            assert((a + b)[i] == a[i]);
        } else {
            assert((a + b)[i] == b[i - a.len()]);
        }
    }
}

pub(crate) proof fn lemma_decimal_markless(n: nat)
    ensures
        markless(decimal(n)),
    decreases n,
{
    if n >= 10 {
        lemma_decimal_markless(n / 10);
        lemma_markless_concat(decimal(n / 10), seq![digit_char(n % 10)]);
    }
}

proof fn lemma_opt_line_markless(prefix: Seq<char>, v: Option<String>, suffix: Seq<char>)
    requires
        markless(prefix),
        markless(suffix),
        markless_opt(v),
    ensures
        markless(opt_line(prefix, v, suffix)),
{
    match v {
        Some(t) => {
            lemma_markless_concat(prefix, t@);
            lemma_markless_concat(prefix + t@, suffix);
        },
        None => {},
    }
}

proof fn lemma_progress_metadata_markless(p: ProgressExport, o: ExportOptions)
    requires
        progress_fields_markless(p),
    ensures
        markless(progress_metadata(p, o)),
{
    reveal_strlit("  - **ID**: `");
    reveal_strlit("`\n");
    reveal_strlit("  - **Parent ID**: `");
    reveal_strlit("  - **Linked**: ");
    reveal_strlit(" `");
    reveal_strlit("  - **Date**: ");
    reveal_strlit("\n");
    if o.include_metadata {
        let head = "  - **ID**: `"@ + p.id@ + "`\n"@;
        lemma_markless_concat("  - **ID**: `"@, p.id@);
        lemma_markless_concat("  - **ID**: `"@ + p.id@, "`\n"@);
        let parent = match p.parent_id {
            Some(n) => "  - **Parent ID**: `"@ + decimal_int(n as int) + "`\n"@,
            None => Seq::empty(),
        };
        match p.parent_id {
            Some(n) => {
                let dn = decimal_int(n as int);
                if n < 0 {
                    lemma_decimal_markless((-n) as nat);
                    lemma_markless_concat(seq!['-'], decimal((-n) as nat));
                    assert(dn == seq!['-'] + decimal((-n) as nat));
                } else {
                    lemma_decimal_markless(n as nat);
                    assert(dn == decimal(n as nat));
                }
                lemma_markless_concat("  - **Parent ID**: `"@, dn);
                lemma_markless_concat("  - **Parent ID**: `"@ + dn, "`\n"@);
            },
            None => {},
        }
        let linked = match (p.linked_item_type, p.linked_item_id) {
            (Some(t), Some(i)) => "  - **Linked**: "@ + t@ + " `"@ + i@ + "`\n"@,
            _ => Seq::empty(),
        };
        match (p.linked_item_type, p.linked_item_id) {
            (Some(t), Some(i)) => {
                lemma_markless_concat("  - **Linked**: "@, t@);
                lemma_markless_concat("  - **Linked**: "@ + t@, " `"@);
                lemma_markless_concat("  - **Linked**: "@ + t@ + " `"@, i@);
                lemma_markless_concat("  - **Linked**: "@ + t@ + " `"@ + i@, "`\n"@);
            },
            _ => {},
        }
        let date = if o.include_timestamps {
            opt_line("  - **Date**: "@, p.timestamp, "\n"@)
        } else {
            Seq::empty()
        };
        lemma_opt_line_markless("  - **Date**: "@, p.timestamp, "\n"@);
        lemma_markless_concat(head, parent);
        lemma_markless_concat(head + parent, linked);
        lemma_markless_concat(head + parent + linked, date);
        assert(progress_metadata(p, o) == head + parent + linked + date);
    }
}

/// A line without status marks holds no status match.
pub(crate) proof fn lemma_markless_no_status(l: Seq<char>, p: int)
    requires
        markless(l),
        0 <= p,
    ensures
        status_from(l, p) is None,
    decreases l.len() - p,
{
    if p < l.len() {
        assert(!is_status_mark(l[p]));
        lemma_markless_no_status(l, p + 1);
    }
}

proof fn lemma_progress_upto_first(ls: Seq<Seq<char>>, n: int)
    requires
        1 <= n <= ls.len(),
        forall|i: int| 1 <= i < ls.len() ==> #[trigger] status_from(ls[i], 0) is None,
    ensures
        progress_upto(ls, n) == line_progress(ls, ls[0]),
    decreases n,
{
    if n == 1 {
        assert(progress_upto(ls, 0) =~= Seq::<ProgressView>::empty());
        assert(Seq::<ProgressView>::empty() + line_progress(ls, ls[0]) =~= line_progress(ls, ls[0]));
    } else {
        lemma_progress_upto_first(ls, n - 1);
        assert(status_from(ls[n - 1], 0) is None);
        assert(line_progress(ls, ls[n - 1]) =~= Seq::<ProgressView>::empty());
        assert(progress_upto(ls, n) =~= progress_upto(ls, n - 1));
    }
}


/// The badge of a status, in its parts: the mark, a space, and the name in bold.
proof fn lemma_badge_parts(st: ProgressStatus)
    ensures
        status_badge_text(st).len() == status_name(st).len() + 6,
        is_status_mark(status_badge_text(st)[0]),
        mark_status(status_badge_text(st)[0]) == status_name(st),
        status_badge_text(st).skip(1) == " **"@ + status_name(st) + "**"@,
        status_name(st).len() > 0,
        forall|i: int| 0 <= i < status_name(st).len() ==> #[trigger] is_upper_name_char(status_name(st)[i]),
{
    reveal_strlit(" **");
    reveal_strlit("**");
    reveal_strlit("TODO");
    reveal_strlit("IN_PROGRESS");
    reveal_strlit("DONE");
    reveal_strlit("\u{1F532} **TODO**");
    reveal_strlit("\u{1F504} **IN_PROGRESS**");
    reveal_strlit("\u{2705} **DONE**");
    let b = status_badge_text(st);
    assert(b.skip(1) =~= " **"@ + status_name(st) + "**"@);
}

/// An upper-case ASCII letter or `_`, as status names are written.
pub open spec fn is_upper_name_char(c: char) -> bool {
    ('A' <= c && c <= 'Z') || c == '_'
}

proof fn lemma_upper_run(l: Seq<char>, i: int, e: int)
    requires
        0 <= i <= e < l.len(),
        forall|m: int| i <= m < e ==> is_upper_name_char(#[trigger] l[m]),
        !is_upper_name_char(l[e]),
    ensures
        upper_run_end(l, i) == e,
    decreases e - i,
{
    if i < e {
        lemma_upper_run(l, i + 1, e);
    }
}

/// The status line of an exported entry gives back its mark and description.
proof fn lemma_status_line(st: ProgressStatus, d: Seq<char>)
    requires
        description_text(d),
    ensures
        status_from("- "@ + status_badge_text(st) + " "@ + d, 0) == Some(
            (status_badge_text(st)[0], d),
        ),
{
    reveal_strlit("- ");
    reveal_strlit(" ");
    reveal_strlit(" **");
    reveal_strlit("**");
    lemma_badge_parts(st);
    let b = status_badge_text(st);
    let name = status_name(st);
    let l = "- "@ + b + " "@ + d;
    let nl = name.len() as int;
    let k: int = 6 + nl;
    assert(l[0] == '-' && l[1] == ' ' && l[2] == b[0]);
    assert forall|i: int| 0 <= i < b.len() - 1 implies l[3 + i] == #[trigger] b.skip(1)[i] by {
        assert(b.skip(1)[i] == b[i + 1]);
        assert(l[3 + i] == b[1 + i]);
    }
    let t = " **"@ + name + "**"@;
    assert(t[0] == ' ' && t[1] == '*' && t[2] == '*');
    assert(l[3] == t[0] && l[4] == t[1] && l[5] == t[2]);
    assert forall|m: int| 6 <= m < k implies is_upper_name_char(#[trigger] l[m]) by {
        assert(t[m - 3] == name[m - 6]);
        assert(l[m] == t[m - 3]);
    }
    assert(t[nl + 3] == '*' && t[nl + 4] == '*');
    assert(l[k] == t[nl + 3] && l[k + 1] == t[nl + 4]);
    assert(l[k + 2] == ' ');
    assert(l[k + 3] == d[0]);
    lemma_upper_run(l, 6, k);
    assert(ws_run_end(l, 4) == 4);
    assert(ws_run_end(l, 3) == 4);
    assert(l.subrange(4, 6) =~= "**"@);
    assert(l.subrange(k, k + 2) =~= "**"@);
    assert(ws_run_end(l, k + 3) == k + 3);
    assert(ws_run_end(l, k + 2) == k + 3);
    assert(status_at(l, 2) == Some(k + 3));
    assert(!is_status_mark(l[0]) && !is_status_mark(l[1]));
    assert(status_at(l, 0) is None);
    assert(status_at(l, 1) is None);
    assert(l.skip(k + 3) =~= d);
    assert(status_from(l, 2) == Some((l[2], d)));
    assert(status_from(l, 1) == status_from(l, 2));
    assert(status_from(l, 0) == status_from(l, 1));
}

// ---------------------------------------------------------------------------
// The metadata lines of a progress entry
// ---------------------------------------------------------------------------

/// A metadata line `  - **label**: rest`.
pub open spec fn label_line(label: Seq<char>, rest: Seq<char>) -> Seq<char> {
    "  - **"@ + label + "**: "@ + rest
}

pub(crate) proof fn lemma_ws_run_end_le(s: Seq<char>, i: int)
    requires
        0 <= i <= s.len(),
    ensures
        ws_run_end(s, i) <= s.len(),
    decreases s.len() - i,
{
    if i < s.len() && is_ws(s[i]) {
        lemma_ws_run_end_le(s, i + 1);
    }
}

/// In a label line whose label begins otherwise than `key`'s word, no `-`
/// is followed by `key`.
proof fn lemma_label_line_misses(label: Seq<char>, rest: Seq<char>, key: Seq<char>)
    requires
        label.len() > 0,
        lacks(label, '*'),
        lacks(label, '-'),
        lacks(rest, '*'),
        key.len() >= 3,
        key[0] == '*',
        key[1] == '*',
        key[2] != label[0],
    ensures
        forall|p: int|
            0 <= p < label_line(label, rest).len() && label_line(label, rest)[p] == '-' ==> !occurs_at(
                label_line(label, rest),
                key,
                #[trigger] ws_run_end(label_line(label, rest), p + 1),
            ),
{
    reveal_strlit("  - **");
    reveal_strlit("**: ");
    let l = label_line(label, rest);
    let r0: int = 10 + label.len() as int;
    assert forall|p: int| 0 <= p < l.len() && l[p] == '-' implies !occurs_at(l, key, #[trigger] ws_run_end(l, p + 1)) by {
        if p < 6 {
            assert(p == 2);
            assert(ws_run_end(l, 4) == 4);
            assert(ws_run_end(l, 3) == 4);
            if occurs_at(l, key, 4) {
                assert(l.subrange(4, 4 + key.len() as int)[2] == l[6]);
                assert(l[6] == label[0]);
            }
        } else if p < 6 + label.len() {
            assert(l[p] == label[p - 6]);
        } else if p < r0 {
            assert(l[p] == "**: "@[p - 6 - label.len()]);
        } else {
            let j = ws_run_end(l, p + 1);
            lemma_ws_run_end_ge(l, p + 1);
            lemma_ws_run_end_le(l, p + 1);
            if occurs_at(l, key, j) {
                assert(l.subrange(j, j + key.len())[0] == l[j]);
                assert(l[j] == rest[j - r0]);
            }
        }
    }
}

pub(crate) proof fn lemma_no_field_from(l: Seq<char>, key: Seq<char>, p: int)
    requires
        0 <= p,
        forall|q: int| 0 <= q < l.len() && l[q] == '-' ==> !occurs_at(l, key, #[trigger] ws_run_end(l, q + 1)),
    ensures
        field_from(l, key, p) is None,
    decreases l.len() - p,
{
    if p < l.len() {
        if l[p] == '-' {
            assert(!occurs_at(l, key, ws_run_end(l, p + 1)));
        }
        lemma_no_field_from(l, key, p + 1);
    }
}

proof fn lemma_no_parent_from(l: Seq<char>, p: int)
    requires
        0 <= p,
        forall|q: int|
            0 <= q < l.len() && l[q] == '-' ==> !occurs_at(l, "**Parent ID**:"@, #[trigger] ws_run_end(l, q + 1)),
    ensures
        parent_from(l, p) is None,
    decreases l.len() - p,
{
    if p < l.len() {
        if l[p] == '-' {
            assert(!occurs_at(l, "**Parent ID**:"@, ws_run_end(l, p + 1)));
        }
        lemma_no_parent_from(l, p + 1);
    }
}

proof fn lemma_no_linked_from(l: Seq<char>, p: int)
    requires
        0 <= p,
        forall|q: int|
            0 <= q < l.len() && l[q] == '-' ==> !occurs_at(l, "**Linked**:"@, #[trigger] ws_run_end(l, q + 1)),
    ensures
        linked_from(l, p) is None,
    decreases l.len() - p,
{
    if p < l.len() {
        if l[p] == '-' {
            assert(!occurs_at(l, "**Linked**:"@, ws_run_end(l, p + 1)));
        }
        lemma_no_linked_from(l, p + 1);
    }
}

/// A label line leaves the metadata as it was where its label is none of
/// the three that it is read for.
proof fn lemma_label_line_step(st: ProgressMeta, label: Seq<char>, rest: Seq<char>)
    requires
        label.len() > 0,
        lacks(label, '*'),
        lacks(label, '-'),
        lacks(rest, '*'),
        label[0] != 'P' && label[0] != 'L' && label[0] != 'D',
    ensures
        meta_step(st, label_line(label, rest)) == st,
{
    reveal_strlit("**Parent ID**:");
    reveal_strlit("**Linked**:");
    reveal_strlit("**Date**:");
    let l = label_line(label, rest);
    lemma_label_line_misses(label, rest, "**Parent ID**:"@);
    lemma_label_line_misses(label, rest, "**Linked**:"@);
    lemma_label_line_misses(label, rest, "**Date**:"@);
    lemma_no_parent_from(l, 0);
    lemma_no_linked_from(l, 0);
    lemma_no_field_from(l, "**Date**:"@, 0);
}


proof fn lemma_digit_run(l: Seq<char>, i: int, e: int)
    requires
        0 <= i <= e < l.len(),
        forall|m: int| i <= m < e ==> is_digit(#[trigger] l[m]),
        !is_digit(l[e]),
    ensures
        digit_run_end(l, i) == e,
    decreases e - i,
{
    if i < e {
        lemma_digit_run(l, i + 1, e);
    }
}

proof fn lemma_word_run(l: Seq<char>, i: int, e: int)
    requires
        0 <= i <= e < l.len(),
        forall|m: int| i <= m < e ==> is_word_char(#[trigger] l[m]),
        !is_word_char(l[e]),
    ensures
        word_run_end(l, i) == e,
    decreases e - i,
{
    if i < e {
        lemma_word_run(l, i + 1, e);
    }
}

proof fn lemma_tick_free(l: Seq<char>, i: int, e: int)
    requires
        0 <= i <= e < l.len(),
        forall|m: int| i <= m < e ==> #[trigger] l[m] != '`',
        l[e] == '`',
    ensures
        tick_free_end(l, i) == e,
    decreases e - i,
{
    if i < e {
        lemma_tick_free(l, i + 1, e);
    }
}

/// The parent line gives the parent, and nothing else.
proof fn lemma_parent_line_step(st: ProgressMeta, n: nat)
    requires
        n <= i64::MAX,
    ensures
        meta_step(st, label_line("Parent ID"@, "`"@ + decimal(n) + "`"@)) == (Some(n as int), st.1, st.2, st.3),
{
    reveal_strlit("Parent ID");
    reveal_strlit("`");
    reveal_strlit("  - **");
    reveal_strlit("**: ");
    reveal_strlit("**Parent ID**:");
    reveal_strlit("**Linked**:");
    reveal_strlit("**Date**:");
    let dn = decimal(n);
    crate::types::coerce::lemma_decimal_digits(n);
    let rest = "`"@ + dn + "`"@;
    let l = label_line("Parent ID"@, rest);
    assert(lacks(rest, '*')) by {
        assert forall|i: int| 0 <= i < rest.len() implies rest[i] != '*' by {
            if 1 <= i < 1 + dn.len() {
                assert(rest[i] == dn[i - 1]);
                assert(is_digit(dn[i - 1]));
            }
        }
    }
    lemma_label_line_misses("Parent ID"@, rest, "**Linked**:"@);
    lemma_label_line_misses("Parent ID"@, rest, "**Date**:"@);
    lemma_no_linked_from(l, 0);
    lemma_no_field_from(l, "**Date**:"@, 0);
    // The parent field at the list dash.
    let e: int = 20 + dn.len() as int;
    assert(l[0] == ' ' && l[1] == ' ' && l[2] == '-' && l[3] == ' ' && l[18] == ' ' && l[19] == '`');
    assert forall|m: int| 20 <= m < e implies is_digit(#[trigger] l[m]) by {
        assert(l[m] == dn[m - 20]);
    }
    assert(l[e] == '`');
    lemma_digit_run(l, 20, e);
    assert(ws_run_end(l, 4) == 4);
    assert(ws_run_end(l, 3) == 4);
    assert(l.subrange(4, 18) =~= "**Parent ID**:"@);
    assert(ws_run_end(l, 19) == 19);
    assert(ws_run_end(l, 18) == 19);
    assert(parent_at(l, 2) == Some((20int, e)));
    assert(parent_at(l, 0) is None);
    assert(parent_at(l, 1) is None);
    assert(l.subrange(20, e) =~= dn);
    assert(parent_from(l, 2) == Some(dn));
    assert(parent_from(l, 1) == parent_from(l, 2));
    assert(parent_from(l, 0) == parent_from(l, 1));
    assert(parent_number(dn) == Some(n as int));
}

/// The linked item line gives the item's type and id, and nothing else.
proof fn lemma_linked_line_step(st: ProgressMeta, t: Seq<char>, i: Seq<char>)
    requires
        t.len() > 0,
        forall|m: int| 0 <= m < t.len() ==> is_word_char(#[trigger] t[m]),
        i.len() > 0,
        lacks(i, '`'),
        lacks(i, '*'),
    ensures
        meta_step(st, label_line("Linked"@, t + " `"@ + i + "`"@)) == (st.0, Some(t), Some(i), st.3),
{
    reveal_strlit("Linked");
    reveal_strlit(" `");
    reveal_strlit("`");
    reveal_strlit("  - **");
    reveal_strlit("**: ");
    reveal_strlit("**Parent ID**:");
    reveal_strlit("**Linked**:");
    reveal_strlit("**Date**:");
    let rest = t + " `"@ + i + "`"@;
    let l = label_line("Linked"@, rest);
    assert(lacks(rest, '*')) by {
        assert forall|m: int| 0 <= m < rest.len() implies rest[m] != '*' by {
            if m < t.len() {
                assert(rest[m] == t[m]);
                assert(is_word_char(t[m]));
            } else if t.len() + 2 <= m < t.len() + 2 + i.len() {
                assert(rest[m] == i[m - t.len() - 2]);
            }
        }
    }
    lemma_label_line_misses("Linked"@, rest, "**Parent ID**:"@);
    lemma_label_line_misses("Linked"@, rest, "**Date**:"@);
    lemma_no_parent_from(l, 0);
    lemma_no_field_from(l, "**Date**:"@, 0);
    // The linked field at the list dash.
    let w: int = 16 + t.len() as int;
    let e: int = w + 2 + i.len();
    assert(l[0] == ' ' && l[1] == ' ' && l[2] == '-' && l[3] == ' ' && l[15] == ' ');
    assert(l[16] == t[0]);
    assert(!is_ws(t[0]));
    assert forall|m: int| 16 <= m < w implies is_word_char(#[trigger] l[m]) by {
        assert(l[m] == t[m - 16]);
    }
    assert(l[w] == ' ' && l[w + 1] == '`');
    lemma_word_run(l, 16, w);
    assert forall|m: int| w + 2 <= m < e implies #[trigger] l[m] != '`' by {
        assert(l[m] == i[m - w - 2]);
    }
    assert(l[e] == '`');
    lemma_tick_free(l, w + 2, e);
    assert(ws_run_end(l, 4) == 4);
    assert(ws_run_end(l, 3) == 4);
    assert(l.subrange(4, 15) =~= "**Linked**:"@);
    assert(ws_run_end(l, 16) == 16);
    assert(ws_run_end(l, 15) == 16);
    assert(ws_run_end(l, w + 1) == w + 1);
    assert(ws_run_end(l, w) == w + 1);
    assert(linked_at(l, 2) == Some((16int, w, w + 2, e)));
    assert(linked_at(l, 0) is None);
    assert(linked_at(l, 1) is None);
    assert(l.subrange(16, w) =~= t);
    assert(l.subrange(w + 2, e) =~= i);
    assert(linked_from(l, 2) == Some((t, i)));
    assert(linked_from(l, 1) == linked_from(l, 2));
    assert(linked_from(l, 0) == linked_from(l, 1));
}

/// The date line gives the date, and nothing else.
proof fn lemma_date_line_step(st: ProgressMeta, ts: Seq<char>)
    requires
        ts.len() > 0,
        !is_ws(ts[0]),
        lacks(ts, '*'),
    ensures
        meta_step(st, label_line("Date"@, ts)) == (st.0, st.1, st.2, Some(ts)),
{
    reveal_strlit("Date");
    reveal_strlit("  - **");
    reveal_strlit("**: ");
    reveal_strlit("**Parent ID**:");
    reveal_strlit("**Linked**:");
    reveal_strlit("**Date**:");
    let l = label_line("Date"@, ts);
    lemma_label_line_misses("Date"@, ts, "**Parent ID**:"@);
    lemma_label_line_misses("Date"@, ts, "**Linked**:"@);
    lemma_no_parent_from(l, 0);
    lemma_no_linked_from(l, 0);
    assert(l[0] == ' ' && l[1] == ' ' && l[2] == '-' && l[3] == ' ' && l[13] == ' ' && l[14] == ts[0]);
    assert(ws_run_end(l, 4) == 4);
    assert(ws_run_end(l, 3) == 4);
    assert(l.subrange(4, 13) =~= "**Date**:"@);
    assert(ws_run_end(l, 14) == 14);
    assert(ws_run_end(l, 13) == 14);
    assert(field_at(l, 2, "**Date**:"@) == Some(14int));
    assert(field_at(l, 0, "**Date**:"@) is None);
    assert(field_at(l, 1, "**Date**:"@) is None);
    assert(l.skip(14) =~= ts);
    assert(field_from(l, "**Date**:"@, 2) == Some(ts));
    assert(field_from(l, "**Date**:"@, 1) == field_from(l, "**Date**:"@, 2));
    assert(field_from(l, "**Date**:"@, 0) == field_from(l, "**Date**:"@, 1));
}


/// The metadata after the lines `ms`, one after the other.
pub open spec fn fold_steps(st: ProgressMeta, ms: Seq<Seq<char>>) -> ProgressMeta
    decreases ms.len(),
{
    if ms.len() == 0 {
        st
    } else {
        fold_steps(meta_step(st, ms[0]), ms.drop_first())
    }
}

proof fn lemma_fold_steps_concat(st: ProgressMeta, a: Seq<Seq<char>>, b: Seq<Seq<char>>)
    ensures
        fold_steps(st, a + b) == fold_steps(fold_steps(st, a), b),
    decreases a.len(),
{
    if a.len() == 0 {
        assert(a + b =~= b);
    } else {
        assert((a + b)[0] == a[0]);
        assert((a + b).drop_first() =~= a.drop_first() + b);
        lemma_fold_steps_concat(meta_step(st, a[0]), a.drop_first(), b);
    }
}

proof fn lemma_fold_steps_one(st: ProgressMeta, l: Seq<char>)
    ensures
        fold_steps(st, seq![l]) == meta_step(st, l),
{
    assert(seq![l].drop_first() =~= Seq::<Seq<char>>::empty());
    assert(seq![l][0] == l);
    assert(fold_steps(meta_step(st, l), Seq::<Seq<char>>::empty()) == meta_step(st, l));
}

proof fn lemma_meta_fold_steps(ls: Seq<Seq<char>>, j: int, st: ProgressMeta)
    requires
        0 <= j <= ls.len(),
        forall|k: int| j <= k < ls.len() ==> starts_with_seq(#[trigger] ls[k], "  -"@),
    ensures
        meta_fold(ls, j, st) == fold_steps(st, ls.skip(j)),
    decreases ls.len() - j,
{
    if j == ls.len() {
        assert(ls.skip(j) =~= Seq::<Seq<char>>::empty());
    } else {
        assert(starts_with_seq(ls[j], "  -"@));
        lemma_meta_fold_steps(ls, j + 1, meta_step(st, ls[j]));
        assert(ls.skip(j)[0] == ls[j]);
        assert(ls.skip(j).drop_first() =~= ls.skip(j + 1));
    }
}

/// The lines of an optional piece `line\n`.
pub open spec fn opt_lines(b: bool, l: Seq<char>) -> Seq<Seq<char>> {
    if b {
        seq![l]
    } else {
        Seq::empty()
    }
}

pub(crate) proof fn lemma_piece_lines(b: bool, l: Seq<char>, rest: Seq<char>)
    requires
        b ==> (l.len() > 0 && lacks(l, '\n') && l.last() != '\r'),
    ensures
        lines_from((if b { l + "\n"@ } else { Seq::empty() }) + rest, Seq::empty()) == opt_lines(b, l)
            + lines_from(rest, Seq::empty()),
{
    reveal_strlit("\n");
    if b {
        let a = l + "\n"@;
        assert(a =~= l + seq!['\n']);
        lemma_lines_concat(a, rest, Seq::empty());
        lemma_single_line(l, Seq::empty());
        assert(Seq::<char>::empty() + l =~= l);
    } else {
        assert(Seq::<char>::empty() + rest =~= rest);
        assert(Seq::<Seq<char>>::empty() + lines_from(rest, Seq::empty()) =~= lines_from(rest, Seq::empty()));
    }
}

/// A label line that stays on one line.
proof fn lemma_label_line_inline(label: Seq<char>, rest: Seq<char>)
    requires
        lacks(label, '\n'),
        lacks(rest, '\n'),
        rest.len() > 0,
        rest.last() != '\r',
    ensures
        lacks(label_line(label, rest), '\n'),
        label_line(label, rest).len() > 0,
        label_line(label, rest).last() != '\r',
        starts_with_seq(label_line(label, rest), "  -"@),
{
    reveal_strlit("  - **");
    reveal_strlit("**: ");
    reveal_strlit("  -");
    let l = label_line(label, rest);
    assert forall|i: int| 0 <= i < l.len() implies l[i] != '\n' by {
        if 6 <= i < 6 + label.len() {
            assert(l[i] == label[i - 6]);
        } else if i >= 10 + label.len() {
            assert(l[i] == rest[i - 10 - label.len()]);
        }
    }
    assert(l.last() == rest.last());
    assert(l.subrange(0, 3) =~= "  -"@);
}

/// What the metadata of a progress entry must be for the reader to give it
/// back: single-line texts without `*`, a parent that is not negative, a
/// linked item type of word characters and an id without backticks, and a
/// date that begins with other than whitespace.
pub open spec fn progress_meta_ok(p: ProgressExport) -> bool {
    &&& lacks(p.id@, '*') && lacks(p.id@, '\n')
    &&& (p.parent_id matches Some(n) ==> n >= 0)
    &&& match (p.linked_item_type, p.linked_item_id) {
        (Some(t), Some(i)) => {
            &&& t@.len() > 0
            &&& forall|m: int| 0 <= m < t@.len() ==> is_word_char(#[trigger] t@[m])
            &&& i@.len() > 0 && lacks(i@, '`') && lacks(i@, '*') && lacks(i@, '\n')
        },
        _ => true,
    }
    &&& match p.timestamp {
        Some(ts) => ts@.len() > 0 && !is_ws(ts@[0]) && lacks(ts@, '*') && lacks(ts@, '\n') && ts@.last() != '\r',
        None => true,
    }
}

/// The metadata that an exported entry is read back with: its parent, its
/// linked item and its date, each where the metadata (and, for the date,
/// the timestamps) are written.
pub open spec fn exported_meta(p: ProgressExport, o: ExportOptions) -> ProgressMeta {
    if o.include_metadata {
        (
            match p.parent_id {
                Some(n) => Some(n as int),
                None => None,
            },
            match (p.linked_item_type, p.linked_item_id) {
                (Some(t), Some(_)) => Some(t@),
                _ => None,
            },
            match (p.linked_item_type, p.linked_item_id) {
                (Some(_), Some(i)) => Some(i@),
                _ => None,
            },
            if o.include_timestamps {
                match p.timestamp {
                    Some(ts) => Some(ts@),
                    None => None,
                }
            } else {
                None
            },
        )
    } else {
        (None, None, None, None)
    }
}


/// The metadata lines of an exported entry.
pub open spec fn meta_lines(p: ProgressExport, o: ExportOptions) -> Seq<Seq<char>> {
    if o.include_metadata {
        seq![label_line("ID"@, "`"@ + p.id@ + "`"@)] + opt_lines(
            p.parent_id is Some,
            label_line("Parent ID"@, "`"@ + decimal_int(p.parent_id->0 as int) + "`"@),
        ) + opt_lines(
            p.linked_item_type is Some && p.linked_item_id is Some,
            label_line("Linked"@, p.linked_item_type->0@ + " `"@ + p.linked_item_id->0@ + "`"@),
        ) + opt_lines(o.include_timestamps && p.timestamp is Some, label_line("Date"@, p.timestamp->0@))
    } else {
        Seq::empty()
    }
}

#[verifier::rlimit(40)]
#[verifier::spinoff_prover]
proof fn lemma_meta_lines(p: ProgressExport, o: ExportOptions)
    requires
        progress_meta_ok(p),
    ensures
        lines_from(progress_metadata(p, o), Seq::empty()) == meta_lines(p, o),
        forall|k: int| 0 <= k < meta_lines(p, o).len() ==> starts_with_seq(#[trigger] meta_lines(p, o)[k], "  -"@),
        fold_steps((None, None, None, None), meta_lines(p, o)) == exported_meta(p, o),
{
    reveal_strlit("  - **ID**: `");
    reveal_strlit("  - **Parent ID**: `");
    reveal_strlit("  - **Linked**: ");
    reveal_strlit("  - **Date**: ");
    reveal_strlit("  - **");
    reveal_strlit("**: ");
    reveal_strlit("ID");
    reveal_strlit("Parent ID");
    reveal_strlit("Linked");
    reveal_strlit("Date");
    reveal_strlit("`\n");
    reveal_strlit("`");
    reveal_strlit(" `");
    reveal_strlit("\n");
    let none: ProgressMeta = (None, None, None, None);
    if !o.include_metadata {
        assert(progress_metadata(p, o) =~= Seq::<char>::empty());
        assert(lines_from(Seq::<char>::empty(), Seq::<char>::empty()) =~= Seq::<Seq<char>>::empty());
    } else {
        // The identifier line.
        let idr = "`"@ + p.id@ + "`"@;
        let idl = label_line("ID"@, idr);
        assert(lacks(idr, '*') && lacks(idr, '\n')) by {
            assert forall|i: int| 0 <= i < idr.len() implies idr[i] != '*' && idr[i] != '\n' by {
                if 1 <= i < 1 + p.id@.len() {
                    assert(idr[i] == p.id@[i - 1]);
                }
            }
        }
        lemma_label_line_inline("ID"@, idr);
        let head = "  - **ID**: `"@ + p.id@ + "`\n"@;
        assert(head =~= idl + "\n"@);
        // The parent line.
        let pb = p.parent_id is Some;
        let n: i64 = if pb { p.parent_id->0 } else { 0 };
        let pr = "`"@ + decimal_int(n as int) + "`"@;
        let pl = label_line("Parent ID"@, pr);
        let parent = match p.parent_id {
            Some(x) => "  - **Parent ID**: `"@ + decimal_int(x as int) + "`\n"@,
            None => Seq::empty(),
        };
        crate::types::coerce::lemma_decimal_digits(n as nat);
        if pb {
            assert(n >= 0);
            assert(decimal_int(n as int) == decimal(n as nat));
            let dn = decimal(n as nat);
            assert(lacks(pr, '\n')) by {
                assert forall|i: int| 0 <= i < pr.len() implies pr[i] != '\n' by {
                    if 1 <= i < 1 + dn.len() {
                        assert(pr[i] == dn[i - 1]);
                        assert(is_digit(dn[i - 1]));
                    }
                }
            }
            lemma_label_line_inline("Parent ID"@, pr);
            assert(parent =~= pl + "\n"@);
        }
        // The linked item line.
        let lb = p.linked_item_type is Some && p.linked_item_id is Some;
        let lt = if lb { p.linked_item_type->0@ } else { Seq::empty() };
        let li = if lb { p.linked_item_id->0@ } else { Seq::empty() };
        let lr = lt + " `"@ + li + "`"@;
        let ll = label_line("Linked"@, lr);
        let linked = match (p.linked_item_type, p.linked_item_id) {
            (Some(t), Some(i)) => "  - **Linked**: "@ + t@ + " `"@ + i@ + "`\n"@,
            _ => Seq::empty(),
        };
        if lb {
            assert(lacks(lr, '\n')) by {
                assert forall|m: int| 0 <= m < lr.len() implies lr[m] != '\n' by {
                    if m < lt.len() {
                        assert(lr[m] == lt[m]);
                        assert(is_word_char(lt[m]));
                    } else if lt.len() + 2 <= m < lt.len() + 2 + li.len() {
                        assert(lr[m] == li[m - lt.len() - 2]);
                    }
                }
            }
            lemma_label_line_inline("Linked"@, lr);
            assert(linked =~= ll + "\n"@);
        }
        // The date line.
        let db = o.include_timestamps && p.timestamp is Some;
        let ts = if p.timestamp is Some { p.timestamp->0@ } else { Seq::empty() };
        let dl = label_line("Date"@, ts);
        let date = if o.include_timestamps {
            opt_line("  - **Date**: "@, p.timestamp, "\n"@)
        } else {
            Seq::empty()
        };
        if db {
            lemma_label_line_inline("Date"@, ts);
            assert(date =~= dl + "\n"@);
        } else {
            assert(date =~= Seq::<char>::empty());
        }
        // The lines, one piece after the other.
        assert(progress_metadata(p, o) =~= head + parent + linked + date);
        assert(head + parent + linked + date =~= (idl + "\n"@) + (parent + (linked + date)));
        lemma_piece_lines(true, idl, parent + (linked + date));
        assert(parent =~= (if pb { pl + "\n"@ } else { Seq::empty() }));
        lemma_piece_lines(pb, pl, linked + date);
        assert(linked =~= (if lb { ll + "\n"@ } else { Seq::empty() }));
        lemma_piece_lines(lb, ll, date);
        assert(date =~= (if db { dl + "\n"@ } else { Seq::empty() }) + Seq::<char>::empty());
        lemma_piece_lines(db, dl, Seq::empty());
        assert(lines_from(Seq::<char>::empty(), Seq::<char>::empty()) =~= Seq::<Seq<char>>::empty());
        let mls = seq![idl] + opt_lines(pb, pl) + opt_lines(lb, ll) + opt_lines(db, dl);
        assert(opt_lines(db, dl) + Seq::<Seq<char>>::empty() =~= opt_lines(db, dl));
        assert(seq![idl] + (opt_lines(pb, pl) + (opt_lines(lb, ll) + opt_lines(db, dl))) =~= mls);
        assert(meta_lines(p, o) == mls);
        assert forall|k: int| 0 <= k < mls.len() implies starts_with_seq(#[trigger] mls[k], "  -"@) by {
            if k == 0 {
                assert(mls[0] == idl);
            } else {
                let k1 = k - 1;
                let rest1 = opt_lines(pb, pl) + opt_lines(lb, ll) + opt_lines(db, dl);
                assert(mls[k] == rest1[k1]);
                if pb && k1 == 0 {
                    assert(rest1[0] == pl);
                } else {
                    let k2 = if pb { k1 - 1 } else { k1 };
                    let rest2 = opt_lines(lb, ll) + opt_lines(db, dl);
                    assert(rest1[k1] == rest2[k2]);
                    if lb && k2 == 0 {
                        assert(rest2[0] == ll);
                    } else {
                        let k3 = if lb { k2 - 1 } else { k2 };
                        assert(rest2[k2] == opt_lines(db, dl)[k3]);
                        assert(opt_lines(db, dl)[k3] == dl);
                    }
                }
            }
        }
        // Folding the lines.
        lemma_fold_steps_concat(none, seq![idl] + opt_lines(pb, pl) + opt_lines(lb, ll), opt_lines(db, dl));
        lemma_fold_steps_concat(none, seq![idl] + opt_lines(pb, pl), opt_lines(lb, ll));
        lemma_fold_steps_concat(none, seq![idl], opt_lines(pb, pl));
        lemma_fold_steps_one(none, idl);
        assert(lacks("ID"@, '*') && lacks("ID"@, '-'));
        lemma_label_line_step(none, "ID"@, idr);
        let s1 = none;
        let s2 = fold_steps(s1, opt_lines(pb, pl));
        if pb {
            lemma_fold_steps_one(s1, pl);
            lemma_parent_line_step(s1, n as nat);
            assert(s2 == (Some(n as int), s1.1, s1.2, s1.3));
        } else {
            assert(s2 == s1);
        }
        let s3 = fold_steps(s2, opt_lines(lb, ll));
        if lb {
            lemma_fold_steps_one(s2, ll);
            lemma_linked_line_step(s2, lt, li);
            assert(s3 == (s2.0, Some(lt), Some(li), s2.3));
        } else {
            assert(s3 == s2);
        }
        let s4 = fold_steps(s3, opt_lines(db, dl));
        if db {
            lemma_fold_steps_one(s3, dl);
            lemma_date_line_step(s3, ts);
            assert(s4 == (s3.0, s3.1, s3.2, Some(ts)));
        } else {
            assert(s4 == s3);
        }
        assert(fold_steps(none, mls) == s4);
    }
}

/// A progress entry exported to Markdown and read back gives one entry with
/// the same status and description; the description must stay on its line
/// and begin with other than whitespace, and the metadata must hold no
/// status mark. Where the metadata also keeps to its form (see
/// `progress_meta_ok`), the entry comes back with the parent, the linked
/// item and the date that were written.
pub proof fn lemma_progress_roundtrip(p: ProgressExport, o: ExportOptions)
    requires
        description_text(p.description@),
        progress_fields_markless(p),
    ensures
        progress_items(progress_markdown(p, o)).len() == 1,
        progress_items(progress_markdown(p, o))[0].0 == status_name(p.status),
        progress_items(progress_markdown(p, o))[0].1 == p.description@,
        progress_meta_ok(p) ==> {
            let item = progress_items(progress_markdown(p, o))[0];
            (item.2, item.3, item.4, item.5) == exported_meta(p, o)
        },
{
    reveal_strlit("- ");
    reveal_strlit(" ");
    reveal_strlit("\n");
    let d = p.description@;
    let b = status_badge_text(p.status);
    let l = "- "@ + b + " "@ + d;
    let meta = progress_metadata(p, o);
    let m = progress_markdown(p, o);
    let a = l + "\n"@;
    assert(m =~= a + meta);
    lemma_badge_parts(p.status);
    lemma_lines_concat(a, meta, Seq::empty());
    assert(lacks(l, '\n')) by {
        assert forall|i: int| 0 <= i < l.len() implies l[i] != '\n' by {
            if i >= 2 && i < 2 + b.len() {
                assert(l[i] == b[i - 2]);
                if i > 2 {
                    assert(b.skip(1)[i - 3] == b[i - 2]);
                    let t = " **"@ + status_name(p.status) + "**"@;
                    assert(t[i - 3] != '\n') by {
                        reveal_strlit(" **");
                        reveal_strlit("**");
                        if 3 <= i - 3 && i - 3 < 3 + status_name(p.status).len() {
                            assert(t[i - 3] == status_name(p.status)[i - 6]);
                            assert(is_upper_name_char(status_name(p.status)[i - 6]));
                        }
                    }
                }
            } else if i >= 3 + b.len() {
                assert(l[i] == d[i - 3 - b.len()]);
            }
        }
    }
    assert(a =~= l + seq!['\n']);
    lemma_single_line(l, Seq::empty());
    assert(Seq::<char>::empty() + l =~= l);
    assert(l.last() == d.last());
    assert(strip_cr(l) == l);
    let ls = lines(m);
    let rest = lines_from(meta, Seq::empty());
    assert(ls == seq![l] + rest);
    // The metadata lines hold no status match.
    lemma_progress_metadata_markless(p, o);
    lemma_lines_lack(meta, Seq::empty(), '\u{1F532}');
    lemma_lines_lack(meta, Seq::empty(), '\u{1F504}');
    lemma_lines_lack(meta, Seq::empty(), '\u{2705}');
    assert forall|i: int| 1 <= i < ls.len() implies #[trigger] status_from(ls[i], 0) is None by {
        assert(ls[i] == rest[i - 1]);
        assert(lacks(rest[i - 1], '\u{1F532}'));
        assert(lacks(rest[i - 1], '\u{1F504}'));
        assert(lacks(rest[i - 1], '\u{2705}'));
        lemma_markless_no_status(ls[i], 0);
    }
    assert(ls[0] == l);
    lemma_progress_upto_first(ls, ls.len() as int);
    lemma_status_line(p.status, d);
    // The metadata that the entry is read back with.
    if progress_meta_ok(p) {
        let k: int = 3 + b.len() as int;
        assert(l.subrange(k, k + d.len()) =~= d);
        assert(occurs_at(l, d, k));
        assert(contains_seq(ls[0], d));
        assert(first_containing(ls, d, 0) == Some(0int));
        lemma_meta_lines(p, o);
        assert(ls.skip(1) =~= rest);
        assert forall|j: int| 1 <= j < ls.len() implies starts_with_seq(#[trigger] ls[j], "  -"@) by {
            assert(ls[j] == meta_lines(p, o)[j - 1]);
        }
        lemma_meta_fold_steps(ls, 1, (None, None, None, None));
    }
}


} // verus!
