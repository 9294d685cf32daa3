//! The creation and update times of a context, read back from the Markdown
//! that the exporter writes.

use vstd::prelude::*;

use crate::markdown::decision_fields::lemma_lacks_concat;
use crate::markdown::export::{context_markdown, context_metadata, opt_line, ContextExport, ExportOptions};
use crate::markdown::import::{context_items, last_or_empty, last_stamp};
use crate::markdown::roundtrip::{
    lemma_context_roundtrip, lemma_piece_lines, metadata_inline, no_title_text, opt_lines, title_text,
};
use crate::markdown::scan::{lacks, lemma_lines_concat, lemma_lines_lack, lemma_single_line, lines, lines_from, strip_cr};
use crate::text::{is_ws, occurs_at, starts_with_seq, words, words_from};

verus! {

// ---------------------------------------------------------------------------
// Words
// ---------------------------------------------------------------------------

/// A space ends the word being read: the words of the text before it and
/// those of the text after it.
proof fn lemma_words_at_space(a: Seq<char>, b: Seq<char>, cur: Seq<char>)
    ensures
        words_from(a + seq![' '] + b, cur) == words_from(a, cur) + words_from(b, Seq::empty()),
    decreases a.len(),
{
    let s = a + seq![' '] + b;
    assert(is_ws(' '));
    if a.len() == 0 {
        assert(s =~= seq![' '] + b);
        assert(s.drop_first() =~= b);
        assert(Seq::<Seq<char>>::empty() + words_from(b, Seq::empty()) =~= words_from(b, Seq::empty()));
    } else {
        assert(s[0] == a[0]);
        assert(s.drop_first() =~= a.drop_first() + seq![' '] + b);
        if is_ws(a[0]) {
            lemma_words_at_space(a.drop_first(), b, Seq::empty());
            let f = if cur.len() > 0 {
                seq![cur]
            } else {
                Seq::<Seq<char>>::empty()
            };
            assert(f + (words_from(a.drop_first(), Seq::empty()) + words_from(b, Seq::empty())) =~= (f
                + words_from(a.drop_first(), Seq::empty())) + words_from(b, Seq::empty()));
        } else {
            lemma_words_at_space(a.drop_first(), b, cur.push(a[0]));
        }
    }
}

/// A text without whitespace is one word.
proof fn lemma_one_word(t: Seq<char>, cur: Seq<char>)
    requires
        cur.len() + t.len() > 0,
        forall|i: int| 0 <= i < t.len() ==> !is_ws(#[trigger] t[i]),
    ensures
        words_from(t, cur) == seq![cur + t],
    decreases t.len(),
{
    if t.len() == 0 {
        assert(cur + t =~= cur);
    } else {
        assert(!is_ws(t[0]));
        assert forall|i: int| 0 <= i < t.drop_first().len() implies !is_ws(#[trigger] t.drop_first()[i]) by {
            assert(t.drop_first()[i] == t[i + 1]);
        }
        lemma_one_word(t.drop_first(), cur.push(t[0]));
        assert(cur.push(t[0]) + t.drop_first() =~= cur + t);
    }
}

// ---------------------------------------------------------------------------
// Time lines
// ---------------------------------------------------------------------------

/// A time that the reader gives back as it was: one word without `*`.
pub open spec fn plain_stamp(t: Seq<char>) -> bool {
    &&& t.len() > 0
    &&& forall|i: int| 0 <= i < t.len() ==> !is_ws(#[trigger] t[i])
    &&& lacks(t, '*')
}

/// An optional time that is plain where it is given.
pub open spec fn plain_stamp_opt(x: Option<String>) -> bool {
    match x {
        Some(t) => plain_stamp(t@),
        None => true,
    }
}

/// A time line `- **label**: t`.
pub open spec fn stamp_line(label: Seq<char>, t: Seq<char>) -> Seq<char> {
    "- **"@ + label + "**: "@ + t
}

/// The last word of a time line is its time.
proof fn lemma_stamp_line_word(label: Seq<char>, t: Seq<char>)
    requires
        plain_stamp(t),
    ensures
        last_or_empty(words(stamp_line(label, t))) == t,
{
    reveal_strlit("**: ");
    let head = "- **"@ + label + "**:"@;
    reveal_strlit("**:");
    assert("**: "@ =~= "**:"@ + seq![' ']);
    assert(stamp_line(label, t) =~= head + seq![' '] + t);
    lemma_words_at_space(head, t, Seq::empty());
    lemma_one_word(t, Seq::empty());
    assert(Seq::<char>::empty() + t =~= t);
}

/// No line without `*` begins with a key that holds one.
proof fn lemma_starless_stamp(ls: Seq<Seq<char>>, key: Seq<char>)
    requires
        forall|k: int| 0 <= k < ls.len() ==> lacks(#[trigger] ls[k], '*'),
        key.len() > 3,
        key[3] == '*',
    ensures
        last_stamp(ls, key) is None,
    decreases ls.len(),
{
    if ls.len() > 0 {
        let l = ls[ls.len() - 1];
        assert(lacks(l, '*'));
        if starts_with_seq(l, key) {
            assert(l.subrange(0, key.len() as int)[3] == l[3]);
        }
        assert forall|k: int| 0 <= k < ls.drop_last().len() implies lacks(#[trigger] ls.drop_last()[k], '*') by {
            assert(ls.drop_last()[k] == ls[k]);
        }
        lemma_starless_stamp(ls.drop_last(), key);
    }
}

/// The lines of a text without `*` hold no time line.
proof fn lemma_starless_text_stamp(s: Seq<char>, key: Seq<char>)
    requires
        lacks(s, '*'),
        key.len() > 3,
        key[3] == '*',
    ensures
        last_stamp(lines(s), key) is None,
{
    lemma_lines_lack(s, Seq::empty(), '*');
    lemma_starless_stamp(lines(s), key);
}

proof fn lemma_last_stamp_concat(a: Seq<Seq<char>>, b: Seq<Seq<char>>, key: Seq<char>)
    ensures
        last_stamp(a + b, key) == match last_stamp(b, key) {
            Some(v) => Some(v),
            None => last_stamp(a, key),
        },
    decreases b.len(),
{
    if b.len() == 0 {
        assert(a + b =~= a);
    } else {
        assert((a + b).last() == b.last());
        assert((a + b).drop_last() =~= a + b.drop_last());
        lemma_last_stamp_concat(a, b.drop_last(), key);
    }
}

/// A line that begins otherwise than `key` at index `i` does not begin with it.
proof fn lemma_not_starting(l: Seq<char>, key: Seq<char>, i: int)
    requires
        0 <= i < key.len(),
        i < l.len(),
        l[i] != key[i],
    ensures
        !starts_with_seq(l, key),
{
    if starts_with_seq(l, key) {
        assert(l.subrange(0, key.len() as int)[i] == l[i]);
    }
}

// ---------------------------------------------------------------------------
// The law
// ---------------------------------------------------------------------------

/// The times a context is exported with: its own where the metadata and the
/// timestamps are included.
pub open spec fn exported_stamp(x: Option<String>, o: ExportOptions) -> Option<Seq<char>> {
    if o.include_metadata && o.include_timestamps {
        match x {
            Some(t) => Some(t@),
            None => None,
        }
    } else {
        None
    }
}

/// The lines of a context's Markdown: the title and metadata lines, the
/// time lines where they are written, and the rest.
proof fn lemma_context_lines(c: ContextExport, o: ExportOptions)
    requires
        metadata_inline(c),
        plain_stamp_opt(c.created_at),
        plain_stamp_opt(c.updated_at),
        o.include_metadata,
    ensures
        ({
            let head = "# "@ + c.name@ + "\n\n"@ + "## Metadata\n\n"@;
            let wl = "- **Workspace**: `"@ + c.workspace_path@ + "`"@;
            let cb = o.include_timestamps && c.created_at is Some;
            let ub = o.include_timestamps && c.updated_at is Some;
            let tail = "\n"@ + "## Content\n\n"@ + c.content@ + "\n"@;
            lines(context_markdown(c, o)) == lines(head) + (seq![wl] + (opt_lines(
                cb,
                stamp_line("Created"@, c.created_at->0@),
            ) + (opt_lines(ub, stamp_line("Updated"@, c.updated_at->0@)) + lines(tail))))
        }),
{
    reveal_strlit("# ");
    reveal_strlit("\n\n");
    reveal_strlit("\n");
    reveal_strlit("## Metadata\n\n");
    reveal_strlit("- **Workspace**: `");
    reveal_strlit("`\n");
    reveal_strlit("`");
    reveal_strlit("- **Created**: ");
    reveal_strlit("- **Updated**: ");
    reveal_strlit("- **");
    reveal_strlit("**: ");
    reveal_strlit("Created");
    reveal_strlit("Updated");
    reveal_strlit("## Content\n\n");
    let head = "# "@ + c.name@ + "\n\n"@ + "## Metadata\n\n"@;
    let wl = "- **Workspace**: `"@ + c.workspace_path@ + "`"@;
    let cb = o.include_timestamps && c.created_at is Some;
    let ub = o.include_timestamps && c.updated_at is Some;
    let cl = stamp_line("Created"@, c.created_at->0@);
    let ul = stamp_line("Updated"@, c.updated_at->0@);
    let tail = "\n"@ + "## Content\n\n"@ + c.content@ + "\n"@;
    let cpart = if cb {
        cl + "\n"@
    } else {
        Seq::<char>::empty()
    };
    let upart = if ub {
        ul + "\n"@
    } else {
        Seq::<char>::empty()
    };
    if cb {
        assert("- **Created**: "@ + c.created_at->0@ + "\n"@ =~= cl + "\n"@);
    }
    if ub {
        assert("- **Updated**: "@ + c.updated_at->0@ + "\n"@ =~= ul + "\n"@);
    }
    let m = context_markdown(c, o);
    assert(m =~= head + ((wl + "\n"@) + (cpart + (upart + tail))));
    lemma_lines_concat(head, (wl + "\n"@) + (cpart + (upart + tail)), Seq::empty());
    assert(lacks(wl, '\n')) by {
        assert forall|i: int| 0 <= i < wl.len() implies wl[i] != '\n' by {
            if 18 <= i < 18 + c.workspace_path@.len() {
                assert(wl[i] == c.workspace_path@[i - 18]);
            }
        }
    }
    assert(wl + "\n"@ =~= wl + seq!['\n']);
    lemma_lines_concat(wl + "\n"@, cpart + (upart + tail), Seq::empty());
    lemma_single_line(wl, Seq::empty());
    assert(Seq::<char>::empty() + wl =~= wl);
    assert(wl.last() == '`');
    assert(strip_cr(wl) == wl);
    if cb {
        let t = c.created_at->0@;
        assert(!is_ws(t[t.len() - 1]));
        assert(lacks(cl, '\n')) by {
            assert forall|i: int| 0 <= i < cl.len() implies cl[i] != '\n' by {
                if i >= 15 {
                    assert(cl[i] == t[i - 15]);
                    assert(!is_ws(t[i - 15]));
                }
            }
        }
        assert(cl.last() == t.last());
    }
    if ub {
        let t = c.updated_at->0@;
        assert(!is_ws(t[t.len() - 1]));
        assert(lacks(ul, '\n')) by {
            assert forall|i: int| 0 <= i < ul.len() implies ul[i] != '\n' by {
                if i >= 15 {
                    assert(ul[i] == t[i - 15]);
                    assert(!is_ws(t[i - 15]));
                }
            }
        }
        assert(ul.last() == t.last());
    }
    lemma_piece_lines(cb, cl, upart + tail);
    lemma_piece_lines(ub, ul, tail);
}

/// A context exported to Markdown with its metadata and read back comes back
/// with the creation and update times it was exported with, where each is
/// one word without `*` and its content holds no `*`, besides what
/// `lemma_context_roundtrip` states of it.
pub proof fn lemma_context_stamps_roundtrip(c: ContextExport, o: ExportOptions, workspace: Seq<char>)
    requires
        title_text(c.name@),
        metadata_inline(c),
        no_title_text(c.content@),
        lacks(c.name@, '*'),
        lacks(c.content@, '*'),
        plain_stamp_opt(c.created_at),
        plain_stamp_opt(c.updated_at),
    ensures
        context_items(context_markdown(c, o), workspace).len() == 1,
        context_items(context_markdown(c, o), workspace)[0].3 == exported_stamp(c.created_at, o),
        context_items(context_markdown(c, o), workspace)[0].4 == exported_stamp(c.updated_at, o),
{
    lemma_context_roundtrip(c, o, workspace);
    reveal_strlit("# ");
    reveal_strlit("\n\n");
    reveal_strlit("\n");
    reveal_strlit("## Metadata\n\n");
    reveal_strlit("## Content\n\n");
    reveal_strlit("- **Workspace**: `");
    reveal_strlit("`");
    reveal_strlit("- **Created**");
    reveal_strlit("- **Updated**");
    reveal_strlit("- **");
    reveal_strlit("**: ");
    reveal_strlit("Created");
    reveal_strlit("Updated");
    let ck = "- **Created**"@;
    let uk = "- **Updated**"@;
    let m = context_markdown(c, o);
    let ls = lines(m);
    if o.include_metadata {
        lemma_context_lines(c, o);
        let head = "# "@ + c.name@ + "\n\n"@ + "## Metadata\n\n"@;
        let wl = "- **Workspace**: `"@ + c.workspace_path@ + "`"@;
        let cb = o.include_timestamps && c.created_at is Some;
        let ub = o.include_timestamps && c.updated_at is Some;
        let cl = stamp_line("Created"@, c.created_at->0@);
        let ul = stamp_line("Updated"@, c.updated_at->0@);
        let tail = "\n"@ + "## Content\n\n"@ + c.content@ + "\n"@;
        // Neither the head nor the tail holds `*`.
        assert(lacks("# "@, '*') && lacks("\n\n"@, '*') && lacks("## Metadata\n\n"@, '*'));
        lemma_lacks_concat("# "@, c.name@, '*');
        lemma_lacks_concat("# "@ + c.name@, "\n\n"@, '*');
        lemma_lacks_concat("# "@ + c.name@ + "\n\n"@, "## Metadata\n\n"@, '*');
        assert(lacks("\n"@, '*') && lacks("## Content\n\n"@, '*'));
        lemma_lacks_concat("\n"@, "## Content\n\n"@, '*');
        lemma_lacks_concat("\n"@ + "## Content\n\n"@, c.content@, '*');
        lemma_lacks_concat("\n"@ + "## Content\n\n"@ + c.content@, "\n"@, '*');
        lemma_starless_text_stamp(head, ck);
        lemma_starless_text_stamp(head, uk);
        lemma_starless_text_stamp(tail, ck);
        lemma_starless_text_stamp(tail, uk);
        // The workspace line and the other time line begin otherwise.
        assert(wl[4] == 'W' && ck[4] == 'C' && uk[4] == 'U');
        lemma_not_starting(wl, ck, 4);
        lemma_not_starting(wl, uk, 4);
        let oc = opt_lines(cb, cl);
        let ou = opt_lines(ub, ul);
        let e = Seq::<Seq<char>>::empty();
        assert(last_stamp(seq![wl], ck) is None) by {
            assert(seq![wl].drop_last() =~= e);
        }
        assert(last_stamp(seq![wl], uk) is None) by {
            assert(seq![wl].drop_last() =~= e);
        }
        if cb {
            let t = c.created_at->0@;
            assert(cl.subrange(0, 13) =~= ck);
            assert(cl[4] == 'C');
            lemma_not_starting(cl, uk, 4);
            lemma_stamp_line_word("Created"@, t);
            assert(oc.drop_last() =~= e);
            assert(last_stamp(oc, ck) == Some(t));
            assert(last_stamp(oc, uk) is None);
        } else {
            assert(oc =~= e);
        }
        if ub {
            let t = c.updated_at->0@;
            assert(ul.subrange(0, 13) =~= uk);
            assert(ul[4] == 'U');
            lemma_not_starting(ul, ck, 4);
            lemma_stamp_line_word("Updated"@, t);
            assert(ou.drop_last() =~= e);
            assert(last_stamp(ou, uk) == Some(t));
            assert(last_stamp(ou, ck) is None);
        } else {
            assert(ou =~= e);
        }
        let a = lines(head) + seq![wl];
        assert(ls =~= a + oc + ou + lines(tail));
        lemma_last_stamp_concat(lines(head), seq![wl], ck);
        lemma_last_stamp_concat(lines(head), seq![wl], uk);
        lemma_last_stamp_concat(a + oc + ou, lines(tail), ck);
        lemma_last_stamp_concat(a + oc + ou, lines(tail), uk);
        lemma_last_stamp_concat(a + oc, ou, ck);
        lemma_last_stamp_concat(a + oc, ou, uk);
        lemma_last_stamp_concat(a, oc, ck);
        lemma_last_stamp_concat(a, oc, uk);
    } else {
        assert(context_metadata(c, o) =~= Seq::<char>::empty());
        let s = "# "@ + c.name@ + "\n\n"@ + "## Content\n\n"@ + c.content@ + "\n"@;
        assert(m =~= s);
        assert(lacks("# "@, '*') && lacks("\n\n"@, '*') && lacks("## Content\n\n"@, '*') && lacks(
            "\n"@,
            '*',
        ));
        lemma_lacks_concat("# "@, c.name@, '*');
        lemma_lacks_concat("# "@ + c.name@, "\n\n"@, '*');
        lemma_lacks_concat("# "@ + c.name@ + "\n\n"@, "## Content\n\n"@, '*');
        lemma_lacks_concat("# "@ + c.name@ + "\n\n"@ + "## Content\n\n"@, c.content@, '*');
        lemma_lacks_concat("# "@ + c.name@ + "\n\n"@ + "## Content\n\n"@ + c.content@, "\n"@, '*');
        lemma_starless_text_stamp(s, ck);
        lemma_starless_text_stamp(s, uk);
    }
}

} // verus!
