//! Scanning of Markdown text: lines, sections, whitespace runs and the small
//! field patterns that the importer recognises.

use vstd::prelude::*;

use crate::text::{is_ws, is_whitespace, join, occurs_at, occurs_at_exec, starts_with_seq, trim};

verus! {

// ---------------------------------------------------------------------------
// Whitespace runs and captures
// ---------------------------------------------------------------------------

/// The end of the run of whitespace that begins at `i`.
pub open spec fn ws_run_end(s: Seq<char>, i: int) -> int
    decreases s.len() - i,
{
    if 0 <= i < s.len() && is_ws(s[i]) {
        ws_run_end(s, i + 1)
    } else {
        i
    }
}

/// Where the capture of `\s+(.+)$` starts when that pattern is matched at `i`:
/// after the whole run of whitespace where text follows it, else on the last
/// whitespace character where the run is at least two long.
pub open spec fn cap_ws_plus(s: Seq<char>, i: int) -> Option<int> {
    let j = ws_run_end(s, i);
    if j == i {
        None
    } else if j < s.len() {
        Some(j)
    } else if j - i >= 2 {
        Some(s.len() - 1)
    } else {
        None
    }
}

/// Where the capture of `\s*(.+)$` starts when that pattern is matched at `i`.
pub open spec fn cap_ws_star(s: Seq<char>, i: int) -> Option<int> {
    let j = ws_run_end(s, i);
    if j < s.len() {
        Some(j)
    } else if j > i {
        Some(s.len() - 1)
    } else {
        None
    }
}

/// The end of the whitespace run that begins at `i`.
pub fn skip_ws(v: &Vec<char>, i: usize) -> (r: usize)
    requires
        i <= v.len(),
    ensures
        r as int == ws_run_end(v@, i as int),
        i <= r <= v.len(),
        forall|k: int| i <= k < r ==> is_ws(#[trigger] v@[k]),
        r < v.len() ==> !is_ws(v@[r as int]),
{
    let mut j = i;
    while j < v.len() && is_whitespace(v[j])
        invariant
            i <= j <= v.len(),
            ws_run_end(v@, j as int) == ws_run_end(v@, i as int),
            forall|k: int| i <= k < j ==> is_ws(#[trigger] v@[k]),
        decreases v.len() - j,
    {
        j = j + 1;
    }
    j
}

/// Start of the capture of `\s+(.+)$` matched at `i`.
pub fn capture_ws_plus(v: &Vec<char>, i: usize) -> (r: Option<usize>)
    requires
        i <= v.len(),
    ensures
        match r {
            Some(c) => cap_ws_plus(v@, i as int) == Some(c as int),
            None => cap_ws_plus(v@, i as int) is None,
        },
{
    let j = skip_ws(v, i);
    if j == i {
        None
    } else if j < v.len() {
        Some(j)
    } else if j - i >= 2 {
        Some(v.len() - 1)
    } else {
        None
    }
}

/// Start of the capture of `\s*(.+)$` matched at `i`.
pub fn capture_ws_star(v: &Vec<char>, i: usize) -> (r: Option<usize>)
    requires
        i <= v.len(),
    ensures
        match r {
            Some(c) => cap_ws_star(v@, i as int) == Some(c as int),
            None => cap_ws_star(v@, i as int) is None,
        },
{
    let j = skip_ws(v, i);
    if j < v.len() {
        Some(j)
    } else if j > i {
        Some(v.len() - 1)
    } else {
        None
    }
}

// ---------------------------------------------------------------------------
// Searching
// ---------------------------------------------------------------------------

/// The first index at or after `i` where `p` occurs in `s`.
pub open spec fn find_seq(s: Seq<char>, p: Seq<char>, i: int) -> Option<int>
    decreases s.len() + 1 - i,
{
    if i < 0 || i > s.len() {
        None
    } else if occurs_at(s, p, i) {
        Some(i)
    } else {
        find_seq(s, p, i + 1)
    }
}

/// `find_seq` gives the leftmost occurrence at or after `from`.
pub proof fn lemma_find_seq_first(s: Seq<char>, p: Seq<char>, from: int, i: int)
    requires
        0 <= from <= i,
        occurs_at(s, p, i),
        forall|k: int| from <= k < i ==> !#[trigger] occurs_at(s, p, k),
    ensures
        find_seq(s, p, from) == Some(i),
    decreases i - from,
{
    if from < i {
        lemma_find_seq_first(s, p, from + 1, i);
    }
}

/// `find_seq` finds nothing where `p` does not occur at or after `from`.
pub proof fn lemma_find_seq_none(s: Seq<char>, p: Seq<char>, from: int)
    requires
        0 <= from,
        forall|k: int| from <= k ==> !#[trigger] occurs_at(s, p, k),
    ensures
        find_seq(s, p, from) is None,
    decreases s.len() + 1 - from,
{
    if from <= s.len() {
        lemma_find_seq_none(s, p, from + 1);
    }
}

/// The first index at or after `from` where `p` occurs in `s`.
pub fn find_chars(s: &Vec<char>, p: &Vec<char>, from: usize) -> (r: Option<usize>)
    ensures
        match r {
            Some(i) => find_seq(s@, p@, from as int) == Some(i as int) && from <= i && occurs_at(
                s@,
                p@,
                i as int,
            ),
            None => find_seq(s@, p@, from as int) is None,
        },
{
    let r = crate::text::find_from(s, p, from);
    proof {
        match r {
            Some(i) => lemma_find_seq_first(s@, p@, from as int, i as int),
            None => lemma_find_seq_none(s@, p@, from as int),
        }
    }
    r
}

// ---------------------------------------------------------------------------
// Lines
// ---------------------------------------------------------------------------

/// A line without the carriage return that ended it.
pub open spec fn strip_cr(l: Seq<char>) -> Seq<char> {
    if l.len() > 0 && l.last() == '\r' {
        l.drop_last()
    } else {
        l
    }
}

/// The lines of `s`, where `cur` is the part of a line already read: a line
/// ends at `\n` (with a `\r` before it dropped), and a last line without a
/// line break counts where it is not empty.
pub open spec fn lines_from(s: Seq<char>, cur: Seq<char>) -> Seq<Seq<char>>
    decreases s.len(),
{
    if s.len() == 0 {
        if cur.len() > 0 {
            seq![cur]
        } else {
            Seq::empty()
        }
    } else if s[0] == '\n' {
        seq![strip_cr(cur)] + lines_from(s.drop_first(), Seq::empty())
    } else {
        lines_from(s.drop_first(), cur.push(s[0]))
    }
}

/// The lines of `s`, as `str::lines` gives them.
pub open spec fn lines(s: Seq<char>) -> Seq<Seq<char>> {
    lines_from(s, Seq::empty())
}

/// The views of a list of character vectors.
pub open spec fn vviews(v: Seq<Vec<char>>) -> Seq<Seq<char>> {
    v.map_values(|w: Vec<char>| w@)
}

proof fn lemma_skip_step(s: Seq<char>, i: int)
    requires
        0 <= i < s.len(),
    ensures
        s.skip(i).drop_first() == s.skip(i + 1),
        s.skip(i)[0] == s[i],
        s.skip(i).len() > 0,
{
    assert(s.skip(i).drop_first() =~= s.skip(i + 1));
}

fn strip_cr_vec(v: Vec<char>) -> (r: Vec<char>)
    ensures
        r@ == strip_cr(v@),
{
    let mut w = v;
    if w.len() > 0 && w[w.len() - 1] == '\r' {
        w.pop();
    }
    w
}

/// The lines of `v`.
pub fn split_lines(v: &Vec<char>) -> (out: Vec<Vec<char>>)
    ensures
        vviews(out@) == lines(v@),
{
    let mut out: Vec<Vec<char>> = Vec::new();
    let mut cur: Vec<char> = Vec::new();
    let mut i: usize = 0;
    assert(v@.skip(0) =~= v@);
    assert(cur@ =~= Seq::<char>::empty());
    assert(vviews(out@) + lines(v@) =~= lines(v@));
    while i < v.len()
        invariant
            i <= v.len(),
            lines(v@) == vviews(out@) + lines_from(v@.skip(i as int), cur@),
        decreases v.len() - i,
    {
        let ghost rest = v@.skip(i as int);
        proof {
            lemma_skip_step(v@, i as int);
        }
        let ghost before = vviews(out@);
        if v[i] == '\n' {
            let line = strip_cr_vec(cur);
            let ghost l = line@;
            out.push(line);
            assert(vviews(out@) =~= before.push(l));
            assert(before + (seq![l] + lines_from(rest.drop_first(), Seq::empty())) =~= before.push(l)
                + lines_from(rest.drop_first(), Seq::empty()));
            cur = Vec::new();
            assert(cur@ =~= Seq::<char>::empty());
        } else {
            cur.push(v[i]);
        }
        i = i + 1;
    }
    assert(v@.skip(i as int) =~= Seq::<char>::empty());
    let ghost before = vviews(out@);
    if cur.len() > 0 {
        let ghost c = cur@;
        out.push(cur);
        assert(vviews(out@) =~= before + seq![c]);
    } else {
        assert(before =~= before + Seq::<Seq<char>>::empty());
    }
    out
}

// ---------------------------------------------------------------------------
// Splitting
// ---------------------------------------------------------------------------

/// The pieces of `s` between the non-overlapping occurrences of `p`, found
/// from the left, where `cur` is the part of a piece already read.
pub open spec fn split_pat_from(s: Seq<char>, p: Seq<char>, cur: Seq<char>) -> Seq<Seq<char>>
    decreases s.len(),
{
    if s.len() == 0 {
        seq![cur]
    } else if p.len() > 0 && starts_with_seq(s, p) {
        seq![cur] + split_pat_from(s.skip(p.len() as int), p, Seq::empty())
    } else {
        split_pat_from(s.drop_first(), p, cur.push(s[0]))
    }
}

/// The pieces of `s` between the occurrences of `p`, as `str::split` gives them.
pub open spec fn split_pat(s: Seq<char>, p: Seq<char>) -> Seq<Seq<char>> {
    split_pat_from(s, p, Seq::empty())
}

/// The pieces of `s` between the occurrences of the non-empty `p`.
pub fn split_pattern(s: &Vec<char>, p: &Vec<char>) -> (out: Vec<Vec<char>>)
    requires
        p.len() > 0,
    ensures
        vviews(out@) == split_pat(s@, p@),
{
    let mut out: Vec<Vec<char>> = Vec::new();
    let mut cur: Vec<char> = Vec::new();
    let mut i: usize = 0;
    assert(s@.skip(0) =~= s@);
    assert(cur@ =~= Seq::<char>::empty());
    assert(vviews(out@) + split_pat(s@, p@) =~= split_pat(s@, p@));
    while i < s.len()
        invariant
            p.len() > 0,
            i <= s.len(),
            split_pat(s@, p@) == vviews(out@) + split_pat_from(s@.skip(i as int), p@, cur@),
        decreases s.len() - i,
    {
        let ghost rest = s@.skip(i as int);
        proof {
            lemma_skip_step(s@, i as int);
        }
        let ghost before = vviews(out@);
        if occurs_at_exec(s, p, i) {
            assert(rest.subrange(0, p@.len() as int) =~= s@.subrange(i as int, i + p@.len()));
            assert(rest.skip(p@.len() as int) =~= s@.skip(i + p@.len()));
            let ghost c = cur@;
            out.push(cur);
            assert(vviews(out@) =~= before.push(c));
            assert(before + (seq![c] + split_pat_from(s@.skip(i + p@.len()), p@, Seq::empty()))
                =~= before.push(c) + split_pat_from(s@.skip(i + p@.len()), p@, Seq::empty()));
            cur = Vec::new();
            assert(cur@ =~= Seq::<char>::empty());
            i = i + p.len();
        } else {
            assert(rest.len() >= p@.len() ==> rest.subrange(0, p@.len() as int) =~= s@.subrange(
                i as int,
                i + p@.len(),
            ));
            cur.push(s[i]);
            i = i + 1;
        }
    }
    assert(s@.skip(i as int) =~= Seq::<char>::empty());
    let ghost before = vviews(out@);
    let ghost c = cur@;
    out.push(cur);
    assert(vviews(out@) =~= before + seq![c]);
    out
}

/// The pieces of `s` between the occurrences of `sep`.
pub open spec fn split_char(s: Seq<char>, sep: char) -> Seq<Seq<char>> {
    split_pat(s, seq![sep])
}

/// The trimmed pieces that are not empty.
pub open spec fn nonempty_trimmed(parts: Seq<Seq<char>>) -> Seq<Seq<char>>
    decreases parts.len(),
{
    if parts.len() == 0 {
        Seq::empty()
    } else {
        nonempty_trimmed(parts.drop_last()) + (if trim(parts.last()).len() > 0 {
            seq![trim(parts.last())]
        } else {
            Seq::<Seq<char>>::empty()
        })
    }
}

/// Concatenates the results of `f` on each piece, in order.
pub open spec fn concat_map<A>(xs: Seq<Seq<char>>, f: spec_fn(Seq<char>) -> Seq<A>) -> Seq<A>
    decreases xs.len(),
{
    if xs.len() == 0 {
        Seq::empty()
    } else {
        concat_map(xs.drop_last(), f) + f(xs.last())
    }
}

/// Extends `concat_map` of a prefix by one piece.
pub proof fn lemma_concat_map_step<A>(xs: Seq<Seq<char>>, f: spec_fn(Seq<char>) -> Seq<A>, i: int)
    requires
        0 <= i < xs.len(),
    ensures
        concat_map(xs.take(i + 1), f) == concat_map(xs.take(i), f) + f(xs[i]),
{
    assert(xs.take(i + 1).drop_last() =~= xs.take(i));
}

// ---------------------------------------------------------------------------
// Slices and joins of character vectors
// ---------------------------------------------------------------------------

/// The characters `v[lo..hi]` as a new vector.
pub fn slice_vec(v: &Vec<char>, lo: usize, hi: usize) -> (r: Vec<char>)
    requires
        lo <= hi <= v.len(),
    ensures
        r@ == v@.subrange(lo as int, hi as int),
{
    let mut r: Vec<char> = Vec::new();
    let mut i = lo;
    while i < hi
        invariant
            lo <= i <= hi <= v.len(),
            r@ == v@.subrange(lo as int, i as int),
        decreases hi - i,
    {
        r.push(v[i]);
        assert(r@ =~= v@.subrange(lo as int, i + 1));
        i = i + 1;
    }
    r
}

/// The characters of `v` without leading and trailing whitespace.
pub fn trim_vec(v: &Vec<char>) -> (r: Vec<char>)
    ensures
        r@ == trim(v@),
{
    let (lo, hi) = crate::text::trim_bounds(v);
    slice_vec(v, lo, hi)
}

/// The parts joined with `sep` between neighbours.
pub fn join_vecs(parts: &Vec<Vec<char>>, sep: &Vec<char>) -> (r: Vec<char>)
    ensures
        r@ == join(vviews(parts@), sep@),
{
    let mut r: Vec<char> = Vec::new();
    let ghost ps = vviews(parts@);
    let mut i: usize = 0;
    while i < parts.len()
        invariant
            ps == vviews(parts@),
            ps.len() == parts.len(),
            i <= parts.len(),
            r@ == join(ps.take(i as int), sep@),
        decreases parts.len() - i,
    {
        assert(ps.take(i + 1).drop_last() =~= ps.take(i as int));
        assert(ps.take(i + 1).last() == parts@[i as int]@);
        let ghost before = r@;
        if i != 0 {
            let mut k: usize = 0;
            while k < sep.len()
                invariant
                    k <= sep.len(),
                    r@ == before + sep@.take(k as int),
                decreases sep.len() - k,
            {
                r.push(sep[k]);
                assert(sep@.take(k + 1) =~= sep@.take(k as int).push(sep@[k as int]));
                k = k + 1;
            }
            assert(sep@.take(sep.len() as int) =~= sep@);
        } else {
            assert(ps.take(1) =~= seq![parts@[0]@]);
        }
        let ghost mid = r@;
        let part = &parts[i];
        let mut k: usize = 0;
        while k < part.len()
            invariant
                k <= part.len(),
                r@ == mid + part@.take(k as int),
            decreases part.len() - k,
        {
            r.push(part[k]);
            assert(part@.take(k + 1) =~= part@.take(k as int).push(part@[k as int]));
            k = k + 1;
        }
        assert(part@.take(part.len() as int) =~= part@);
        assert(r@ =~= join(ps.take(i + 1), sep@));
        i = i + 1;
    }
    assert(ps.take(parts.len() as int) =~= ps);
    r
}

// ---------------------------------------------------------------------------
// Facts about lines
// ---------------------------------------------------------------------------

/// `c` does not occur in `s`.
pub open spec fn lacks(s: Seq<char>, c: char) -> bool {
    forall|i: int| 0 <= i < s.len() ==> s[i] != c
}

/// The lines of text that ends in a line break, followed by more text, are
/// the lines of the first part followed by those of the second.
pub proof fn lemma_lines_concat(a: Seq<char>, b: Seq<char>, cur: Seq<char>)
    requires
        a.len() > 0,
        a.last() == '\n',
    ensures
        lines_from(a + b, cur) == lines_from(a, cur) + lines_from(b, Seq::empty()),
    decreases a.len(),
{
    assert((a + b).drop_first() =~= a.drop_first() + b);
    assert((a + b)[0] == a[0]);
    if a.len() == 1 {
        assert(a.drop_first() =~= Seq::<char>::empty());
        assert(a.drop_first() + b =~= b);
        assert(lines_from(a.drop_first(), Seq::<char>::empty()) =~= Seq::<Seq<char>>::empty());
        assert(lines_from(a, cur) =~= seq![strip_cr(cur)]);
    } else if a[0] == '\n' {
        lemma_lines_concat(a.drop_first(), b, Seq::empty());
        assert(lines_from(a, cur) == seq![strip_cr(cur)] + lines_from(a.drop_first(), Seq::empty()));
        assert(seq![strip_cr(cur)] + (lines_from(a.drop_first(), Seq::empty()) + lines_from(b, Seq::empty()))
            =~= seq![strip_cr(cur)] + lines_from(a.drop_first(), Seq::empty()) + lines_from(b, Seq::empty()));
    } else {
        lemma_lines_concat(a.drop_first(), b, cur.push(a[0]));
    }
}

/// A piece without line breaks, ended by one, is a single line.
pub proof fn lemma_single_line(x: Seq<char>, cur: Seq<char>)
    requires
        lacks(x, '\n'),
    ensures
        lines_from(x + seq!['\n'], cur) == seq![strip_cr(cur + x)],
    decreases x.len(),
{
    if x.len() == 0 {
        assert(x + seq!['\n'] =~= seq!['\n']);
        assert(seq!['\n'].drop_first() =~= Seq::<char>::empty());
        assert(cur + x =~= cur);
        assert(lines_from(Seq::<char>::empty(), Seq::<char>::empty()) =~= Seq::<Seq<char>>::empty());
        assert(lines_from(seq!['\n'], cur) =~= seq![strip_cr(cur)]);
    } else {
        assert((x + seq!['\n']).drop_first() =~= x.drop_first() + seq!['\n']);
        assert((x + seq!['\n'])[0] == x[0]);
        assert(x[0] != '\n');
        lemma_single_line(x.drop_first(), cur.push(x[0]));
        assert(cur.push(x[0]) + x.drop_first() =~= cur + x);
    }
}

/// A character that does not occur in the text occurs in none of its lines.
pub proof fn lemma_lines_lack(s: Seq<char>, cur: Seq<char>, c: char)
    requires
        lacks(s, c),
        lacks(cur, c),
    ensures
        forall|k: int| 0 <= k < lines_from(s, cur).len() ==> lacks(#[trigger] lines_from(s, cur)[k], c),
    decreases s.len(),
{
    if s.len() == 0 {
        if cur.len() > 0 {
            assert(lines_from(s, cur) == seq![cur]);
            assert forall|k: int| 0 <= k < lines_from(s, cur).len() implies lacks(#[trigger] lines_from(s, cur)[k], c) by {
                assert(lines_from(s, cur)[k] == cur);
            }
        } else {
            assert(lines_from(s, cur) == Seq::<Seq<char>>::empty());
        }
    } else if s[0] == '\n' {
        lemma_lines_lack(s.drop_first(), Seq::empty(), c);
        let rest = lines_from(s.drop_first(), Seq::empty());
        assert(lacks(strip_cr(cur), c)) by {
            assert forall|i: int| 0 <= i < strip_cr(cur).len() implies strip_cr(cur)[i] != c by {
                assert(strip_cr(cur)[i] == cur[i]);
            }
        }
        assert(lines_from(s, cur) == seq![strip_cr(cur)] + rest);
        assert forall|k: int| 0 <= k < lines_from(s, cur).len() implies lacks(#[trigger] lines_from(s, cur)[k], c) by {
            if k == 0 {
                assert(lines_from(s, cur)[0] == strip_cr(cur));
            } else {
                assert(lines_from(s, cur)[k] == rest[k - 1]);
            }
        }
    } else {
        assert(lacks(cur.push(s[0]), c)) by {
            assert forall|i: int| 0 <= i < cur.push(s[0]).len() implies cur.push(s[0])[i] != c by {
                if i < cur.len() {
                    assert(cur.push(s[0])[i] == cur[i]);
                }
            }
        }
        assert(lacks(s.drop_first(), c)) by {
            assert forall|i: int| 0 <= i < s.drop_first().len() implies s.drop_first()[i] != c by {
                assert(s.drop_first()[i] == s[i + 1]);
            }
        }
        lemma_lines_lack(s.drop_first(), cur.push(s[0]), c);
        assert(lines_from(s, cur) == lines_from(s.drop_first(), cur.push(s[0])));
    }
}

} // verus!
