//! Import of contexts, decisions and progress entries from Markdown.
//!
//! The recognised layout is the one that the exporter writes. Lines are split
//! as `str::lines` splits them; whitespace is the Unicode `White_Space` class;
//! digits are ASCII digits and word characters are ASCII letters, digits and
//! `_`.

use vstd::prelude::*;
use vstd::string::StringExecFns;

use crate::markdown::scan::{
    cap_ws_plus, cap_ws_star, capture_ws_plus, capture_ws_star, concat_map, find_chars, find_seq,
    join_vecs, lemma_concat_map_step, lines, nonempty_trimmed, skip_ws, slice_vec, split_char,
    split_lines, split_pat, split_pattern, trim_vec, vviews, ws_run_end,
};
use crate::text::{
    chars_of, contains_chars, contains_seq, digits_value, is_digit, join, occurs_at, occurs_at_exec,
    split_words, starts_with_seq, string_of, trim, views, words,
};

verus! {

broadcast use vstd::string::group_string_axioms;

// ============================================================================
// Options and results
// ============================================================================

/// Merge strategy for importing data
#[derive(Debug, Clone, Copy, PartialEq, Eq, Structural)]
pub enum MergeStrategy {
    /// Merge with existing data (combine updates)
    Merge,
    /// Replace existing data with imported data
    Replace,
    /// Skip existing items, only add new ones
    SkipExisting,
}

impl Default for MergeStrategy {
    fn default() -> (r: Self)
        ensures
            r == MergeStrategy::Merge,
    {
        MergeStrategy::Merge
    }
}

/// Import options
#[derive(Debug, Clone)]
pub struct ImportOptions {
    pub merge_strategy: MergeStrategy,
    pub workspace_id: String,
    pub preserve_timestamps: bool,
    pub validate_schema: bool,
}

impl ImportOptions {
    /// Options for a workspace: merge, new timestamps, schema validation.
    pub fn new(workspace_id: String) -> (r: Self)
        ensures
            r.merge_strategy == MergeStrategy::Merge,
            r.workspace_id == workspace_id,
            !r.preserve_timestamps,
            r.validate_schema,
    {
        ImportOptions {
            merge_strategy: MergeStrategy::Merge,
            workspace_id,
            preserve_timestamps: false,
            validate_schema: true,
        }
    }

    pub fn with_strategy(self, strategy: MergeStrategy) -> (r: Self)
        ensures
            r.merge_strategy == strategy,
            r.workspace_id == self.workspace_id,
            r.preserve_timestamps == self.preserve_timestamps,
            r.validate_schema == self.validate_schema,
    {
        ImportOptions { merge_strategy: strategy, ..self }
    }

    pub fn with_timestamps(self, preserve: bool) -> (r: Self)
        ensures
            r.merge_strategy == self.merge_strategy,
            r.workspace_id == self.workspace_id,
            r.preserve_timestamps == preserve,
            r.validate_schema == self.validate_schema,
    {
        ImportOptions { preserve_timestamps: preserve, ..self }
    }

    pub fn with_validation(self, validate: bool) -> (r: Self)
        ensures
            r.merge_strategy == self.merge_strategy,
            r.workspace_id == self.workspace_id,
            r.preserve_timestamps == self.preserve_timestamps,
            r.validate_schema == validate,
    {
        ImportOptions { validate_schema: validate, ..self }
    }
}

/// Parse result for imported items
pub struct ParseResult<T> {
    pub items: Vec<T>,
    pub errors: Vec<String>,
    pub warnings: Vec<String>,
}

impl<T> ParseResult<T> {
    /// An empty result.
    pub fn new() -> (r: Self)
        ensures
            r.items@ == Seq::<T>::empty(),
            r.errors@ == Seq::<String>::empty(),
            r.warnings@ == Seq::<String>::empty(),
    {
        ParseResult { items: Vec::new(), errors: Vec::new(), warnings: Vec::new() }
    }

    /// A result holding `items` and no errors or warnings.
    pub fn with_items(items: Vec<T>) -> (r: Self)
        ensures
            r.items@ == items@,
            r.errors@ == Seq::<String>::empty(),
            r.warnings@ == Seq::<String>::empty(),
    {
        ParseResult { items, errors: Vec::new(), warnings: Vec::new() }
    }

    /// A result is valid when it holds no error.
    pub fn is_valid(&self) -> (r: bool)
        ensures
            r == (self.errors@.len() == 0),
    {
        self.errors.len() == 0
    }

    pub fn add_error(&mut self, error: String)
        ensures
            final(self).errors@ == old(self).errors@.push(error),
            final(self).items@ == old(self).items@,
            final(self).warnings@ == old(self).warnings@,
    {
        self.errors.push(error);
    }

    pub fn add_warning(&mut self, warning: String)
        ensures
            final(self).warnings@ == old(self).warnings@.push(warning),
            final(self).items@ == old(self).items@,
            final(self).errors@ == old(self).errors@,
    {
        self.warnings.push(warning);
    }

    /// Moves the items, errors and warnings of `other` to the end of this
    /// result's.
    fn absorb(&mut self, other: ParseResult<T>)
        ensures
            final(self).items@ == old(self).items@ + other.items@,
            final(self).errors@ == old(self).errors@ + other.errors@,
            final(self).warnings@ == old(self).warnings@ + other.warnings@,
    {
        let mut o = other;
        self.items.append(&mut o.items);
        self.errors.append(&mut o.errors);
        self.warnings.append(&mut o.warnings);
    }
}

/// The view of an optional string.
pub open spec fn opt_view(o: Option<String>) -> Option<Seq<char>> {
    match o {
        Some(s) => Some(s@),
        None => None,
    }
}

/// The view of an optional character vector.
pub open spec fn opt_vview(o: Option<Vec<char>>) -> Option<Seq<char>> {
    match o {
        Some(s) => Some(s@),
        None => None,
    }
}

fn opt_string(o: Option<Vec<char>>) -> (r: Option<String>)
    ensures
        opt_view(r) == opt_vview(o),
{
    match o {
        Some(v) => Some(string_of(&v)),
        None => None,
    }
}

fn message(text: &str) -> (r: String)
    ensures
        r@ == text@,
{
    String::from_str(text)
}

// ============================================================================
// Context Parsing
// ============================================================================

/// Parsed context from markdown
#[derive(Debug, Clone)]
pub struct ParsedContext {
    pub name: String,
    pub content: String,
    pub workspace_path: Option<String>,
    pub created_at: Option<String>,
    pub updated_at: Option<String>,
}

/// Name, content, workspace path, creation and update time.
pub type ContextView = (Seq<char>, Seq<char>, Option<Seq<char>>, Option<Seq<char>>, Option<Seq<char>>);

impl View for ParsedContext {
    type V = ContextView;

    open spec fn view(&self) -> ContextView {
        (
            self.name@,
            self.content@,
            opt_view(self.workspace_path),
            opt_view(self.created_at),
            opt_view(self.updated_at),
        )
    }
}

/// Where the title of a `# Title` line starts (`^#\s+(.+)$`).
pub open spec fn title_cap(l: Seq<char>) -> Option<int> {
    if l.len() > 0 && l[0] == '#' {
        cap_ws_plus(l, 1)
    } else {
        None
    }
}

/// The title of the last title line.
pub open spec fn last_title(ls: Seq<Seq<char>>) -> Seq<char>
    decreases ls.len(),
{
    if ls.len() == 0 {
        Seq::empty()
    } else {
        match title_cap(ls.last()) {
            Some(c) => ls.last().skip(c),
            None => last_title(ls.drop_last()),
        }
    }
}

/// The last element of a list of words, empty where there is none.
pub open spec fn last_or_empty(ws: Seq<Seq<char>>) -> Seq<char> {
    if ws.len() > 0 {
        ws.last()
    } else {
        Seq::empty()
    }
}

/// The last word of the last line that begins with `key`.
pub open spec fn last_stamp(ls: Seq<Seq<char>>, key: Seq<char>) -> Option<Seq<char>>
    decreases ls.len(),
{
    if ls.len() == 0 {
        None
    } else if starts_with_seq(ls.last(), key) {
        Some(last_or_empty(words(ls.last())))
    } else {
        last_stamp(ls.drop_last(), key)
    }
}

/// The break of the whitespace run `s[a..b]` holds a line break.
pub open spec fn newline_within(s: Seq<char>, a: int, b: int) -> bool {
    exists|m: int| a <= m < b && s[m] == '\n'
}

/// A section header `hashes`, whitespace, `word`, then whitespace that holds
/// a line break, beginning at `p`: the index just after `word`.
pub open spec fn header_at(s: Seq<char>, p: int, hashes: Seq<char>, word: Seq<char>) -> Option<int> {
    let j = ws_run_end(s, p + hashes.len());
    let k = j + word.len();
    if occurs_at(s, hashes, p) && j > p + hashes.len() && occurs_at(s, word, j) && newline_within(
        s,
        k,
        ws_run_end(s, k),
    ) {
        Some(k)
    } else {
        None
    }
}

/// The leftmost section header at or after `p`.
pub open spec fn header_from(s: Seq<char>, p: int, hashes: Seq<char>, word: Seq<char>) -> Option<int>
    decreases s.len() - p,
{
    if p < 0 || p >= s.len() {
        None
    } else {
        match header_at(s, p, hashes, word) {
            Some(k) => Some(k),
            None => header_from(s, p + 1, hashes, word),
        }
    }
}

/// The lines that do not begin a second-level section.
pub open spec fn kept_lines(ls: Seq<Seq<char>>) -> Seq<Seq<char>>
    decreases ls.len(),
{
    if ls.len() == 0 {
        Seq::empty()
    } else {
        kept_lines(ls.drop_last()) + (if starts_with_seq(ls.last(), "## "@) {
            Seq::<Seq<char>>::empty()
        } else {
            seq![ls.last()]
        })
    }
}

/// The lines after the first two.
pub open spec fn drop_two(ls: Seq<Seq<char>>) -> Seq<Seq<char>> {
    if ls.len() >= 2 {
        ls.skip(2)
    } else {
        Seq::empty()
    }
}

/// The content of a context without a content section: what follows the
/// title line, where a metadata section is left out with its first line after
/// the header and every second-level header line.
pub open spec fn fallback_content(s: Seq<char>) -> Seq<char> {
    match find_seq(s, "\n"@, 0) {
        None => Seq::empty(),
        Some(n) => {
            let after = s.skip(n + 1);
            match find_seq(after, "## Metadata"@, 0) {
                Some(idx) => join(kept_lines(drop_two(lines(after.skip(idx)))), "\n"@),
                None => trim(after),
            }
        },
    }
}

/// The content of a context: the trimmed text after its content section
/// header, or else the fallback.
pub open spec fn context_content(s: Seq<char>) -> Seq<char> {
    match header_from(s, 0, "##"@, "Content"@) {
        Some(k) => trim(s.skip(k)),
        None => fallback_content(s),
    }
}

/// The contexts parsed from one section: one where it has a title.
pub open spec fn context_items(s: Seq<char>, workspace: Seq<char>) -> Seq<ContextView> {
    let ls = lines(s);
    let name = last_title(ls);
    if name.len() > 0 {
        seq![
            (
                name,
                context_content(s),
                Some(workspace),
                last_stamp(ls, "- **Created**"@),
                last_stamp(ls, "- **Updated**"@),
            ),
        ]
    } else {
        Seq::empty()
    }
}

/// The error of a section without a title.
pub open spec fn context_errors(s: Seq<char>) -> Seq<Seq<char>> {
    if last_title(lines(s)).len() == 0 {
        seq!["Context name is required"@]
    } else {
        Seq::empty()
    }
}

/// The warning of a section without content.
pub open spec fn context_warnings(s: Seq<char>) -> Seq<Seq<char>> {
    if context_content(s).len() == 0 {
        seq!["Context content is empty"@]
    } else {
        Seq::empty()
    }
}

/// The views of a list of parsed contexts.
pub open spec fn context_views(v: Seq<ParsedContext>) -> Seq<ContextView> {
    v.map_values(|c: ParsedContext| c@)
}

fn title_start(l: &Vec<char>) -> (r: Option<usize>)
    ensures
        match r {
            Some(c) => title_cap(l@) == Some(c as int) && c <= l.len(),
            None => title_cap(l@) is None,
        },
{
    if l.len() > 0 && l[0] == '#' {
        let r = capture_ws_plus(l, 1);
        proof {
            if let Some(c) = r {
                if c as int == l@.len() - 1 {
                } else {
                    assert(c as int == ws_run_end(l@, 1));
                }
            }
        }
        r
    } else {
        None
    }
}

fn last_word(l: &Vec<char>) -> (r: Vec<char>)
    ensures
        r@ == last_or_empty(words(l@)),
{
    let mut ws = split_words(l);
    let ghost wv = ws@.map_values(|w: Vec<char>| w@);
    match ws.pop() {
        Some(w) => {
            assert(wv.last() == w@);
            w
        },
        None => Vec::new(),
    }
}

fn newline_in(s: &Vec<char>, a: usize, b: usize) -> (r: bool)
    requires
        a <= b <= s.len(),
    ensures
        r == newline_within(s@, a as int, b as int),
{
    let mut m = a;
    while m < b
        invariant
            a <= m <= b <= s.len(),
            forall|x: int| a <= x < m ==> s@[x] != '\n',
        decreases b - m,
    {
        if s[m] == '\n' {
            return true;
        }
        m = m + 1;
    }
    false
}

fn header_match(s: &Vec<char>, p: usize, hashes: &Vec<char>, word: &Vec<char>) -> (r: Option<usize>)
    requires
        p < s.len(),
    ensures
        match r {
            Some(k) => header_at(s@, p as int, hashes@, word@) == Some(k as int) && k <= s.len(),
            None => header_at(s@, p as int, hashes@, word@) is None,
        },
{
    if !occurs_at_exec(s, hashes, p) {
        return None;
    }
    let j = skip_ws(s, p + hashes.len());
    if j <= p + hashes.len() {
        return None;
    }
    if !occurs_at_exec(s, word, j) {
        return None;
    }
    let k = j + word.len();
    let e = skip_ws(s, k);
    if newline_in(s, k, e) {
        Some(k)
    } else {
        None
    }
}

fn header_search(s: &Vec<char>, hashes: &Vec<char>, word: &Vec<char>) -> (r: Option<usize>)
    ensures
        match r {
            Some(k) => header_from(s@, 0, hashes@, word@) == Some(k as int) && k <= s.len(),
            None => header_from(s@, 0, hashes@, word@) is None,
        },
{
    let mut p: usize = 0;
    while p < s.len()
        invariant
            p <= s.len(),
            header_from(s@, 0, hashes@, word@) == header_from(s@, p as int, hashes@, word@),
        decreases s.len() - p,
    {
        match header_match(s, p, hashes, word) {
            Some(k) => {
                return Some(k);
            },
            None => {},
        }
        p = p + 1;
    }
    None
}

fn kept_lines_exec(ls: &Vec<Vec<char>>) -> (r: Vec<Vec<char>>)
    ensures
        vviews(r@) == kept_lines(vviews(ls@)),
{
    let ghost lv = vviews(ls@);
    let prefix = chars_of("## ");
    let mut r: Vec<Vec<char>> = Vec::new();
    let mut i: usize = 0;
    while i < ls.len()
        invariant
            lv == vviews(ls@),
            lv.len() == ls.len(),
            prefix@ == "## "@,
            i <= ls.len(),
            vviews(r@) == kept_lines(lv.take(i as int)),
        decreases ls.len() - i,
    {
        assert(lv.take(i + 1).drop_last() =~= lv.take(i as int));
        assert(lv.take(i + 1).last() == ls@[i as int]@);
        let ghost before = vviews(r@);
        if !occurs_at_exec(&ls[i], &prefix, 0) {
            let line = slice_vec(&ls[i], 0, ls[i].len());
            assert(line@ =~= ls@[i as int]@);
            r.push(line);
            assert(vviews(r@) =~= before + seq![ls@[i as int]@]);
        } else {
            assert(vviews(r@) =~= before + Seq::<Seq<char>>::empty());
        }
        i = i + 1;
    }
    assert(lv.take(ls.len() as int) =~= lv);
    r
}

fn fallback_content_exec(s: &Vec<char>) -> (r: Vec<char>)
    ensures
        r@ == fallback_content(s@),
{
    let nl = chars_of("\n");
    match find_chars(s, &nl, 0) {
        None => Vec::new(),
        Some(n) => {
            proof {
                reveal_strlit("\n");
                assert(occurs_at(s@, nl@, n as int));
                assert(nl@.len() == 1);
            }
            let total = s.len();
            assert(n < total);
            let after = slice_vec(s, n + 1, total);
            assert(after@ =~= s@.skip(n + 1));
            let meta = chars_of("## Metadata");
            match find_chars(&after, &meta, 0) {
                Some(idx) => {
                    proof {
                        assert(occurs_at(after@, meta@, idx as int));
                    }
                    let tail = slice_vec(&after, idx, after.len());
                    assert(tail@ =~= after@.skip(idx as int));
                    let ls = split_lines(&tail);
                    let rest: Vec<Vec<char>> = if ls.len() >= 2 {
                        let mut rest: Vec<Vec<char>> = Vec::new();
                        let mut i: usize = 2;
                        while i < ls.len()
                            invariant
                                2 <= i <= ls.len(),
                                vviews(rest@) == vviews(ls@).subrange(2, i as int),
                            decreases ls.len() - i,
                        {
                            let line = slice_vec(&ls[i], 0, ls[i].len());
                            assert(line@ =~= ls@[i as int]@);
                            let ghost before = vviews(rest@);
                            rest.push(line);
                            assert(vviews(rest@) =~= before.push(ls@[i as int]@));
                            assert(vviews(ls@)[i as int] == ls@[i as int]@);
                            assert(vviews(rest@) =~= vviews(ls@).subrange(2, i + 1));
                            i = i + 1;
                        }
                        assert(vviews(rest@) =~= drop_two(vviews(ls@)));
                        rest
                    } else {
                        assert(Seq::<Seq<char>>::empty() =~= drop_two(vviews(ls@)));
                        let rest: Vec<Vec<char>> = Vec::new();
                        assert(vviews(rest@) =~= Seq::<Seq<char>>::empty());
                        rest
                    };
                    let kept = kept_lines_exec(&rest);
                    join_vecs(&kept, &nl)
                },
                None => trim_vec(&after),
            }
        },
    }
}

fn context_content_exec(s: &Vec<char>) -> (r: Vec<char>)
    ensures
        r@ == context_content(s@),
{
    let hashes = chars_of("##");
    let word = chars_of("Content");
    match header_search(s, &hashes, &word) {
        Some(k) => {
            let rest = slice_vec(s, k, s.len());
            assert(rest@ =~= s@.skip(k as int));
            trim_vec(&rest)
        },
        None => fallback_content_exec(s),
    }
}

fn parse_context_chars(s: &Vec<char>, workspace: &String) -> (r: ParseResult<ParsedContext>)
    ensures
        context_views(r.items@) == context_items(s@, workspace@),
        views(r.errors@) == context_errors(s@),
        views(r.warnings@) == context_warnings(s@),
{
    let ls = split_lines(s);
    let ghost lv = vviews(ls@);
    let created_key = chars_of("- **Created**");
    let updated_key = chars_of("- **Updated**");
    let mut name: Vec<char> = Vec::new();
    let mut created: Option<Vec<char>> = None;
    let mut updated: Option<Vec<char>> = None;
    let mut i: usize = 0;
    assert(lv.take(0) =~= Seq::<Seq<char>>::empty());
    while i < ls.len()
        invariant
            lv == vviews(ls@),
            lv.len() == ls.len(),
            created_key@ == "- **Created**"@,
            updated_key@ == "- **Updated**"@,
            i <= ls.len(),
            name@ == last_title(lv.take(i as int)),
            opt_vview(created) == last_stamp(lv.take(i as int), created_key@),
            opt_vview(updated) == last_stamp(lv.take(i as int), updated_key@),
        decreases ls.len() - i,
    {
        assert(lv.take(i + 1).drop_last() =~= lv.take(i as int));
        assert(lv.take(i + 1).last() == ls@[i as int]@);
        let line = &ls[i];
        match title_start(line) {
            Some(c) => {
                name = slice_vec(line, c, line.len());
                assert(name@ =~= line@.skip(c as int));
            },
            None => {},
        }
        if occurs_at_exec(line, &created_key, 0) {
            created = Some(last_word(line));
        }
        if occurs_at_exec(line, &updated_key, 0) {
            updated = Some(last_word(line));
        }
        i = i + 1;
    }
    assert(lv.take(ls.len() as int) =~= lv);
    let content = context_content_exec(s);
    let mut result: ParseResult<ParsedContext> = ParseResult::new();
    if name.len() == 0 {
        result.add_error(message("Context name is required"));
    }
    if content.len() == 0 {
        result.add_warning(message("Context content is empty"));
    }
    if result.is_valid() {
        let item = ParsedContext {
            name: string_of(&name),
            content: string_of(&content),
            workspace_path: Some(workspace.clone()),
            created_at: opt_string(created),
            updated_at: opt_string(updated),
        };
        result.items.push(item);
        assert(context_views(result.items@) =~= seq![item@]);
    } else {
        assert(context_views(result.items@) =~= Seq::<ContextView>::empty());
    }
    assert(views(result.errors@) =~= context_errors(s@));
    assert(views(result.warnings@) =~= context_warnings(s@));
    result
}

/// Parse context from markdown content
pub fn ParseContext(markdown: &str, options: &ImportOptions) -> (r: ParseResult<ParsedContext>)
    ensures
        context_views(r.items@) == context_items(markdown@, options.workspace_id@),
        views(r.errors@) == context_errors(markdown@),
        views(r.warnings@) == context_warnings(markdown@),
{
    let v = chars_of(markdown);
    parse_context_chars(&v, &options.workspace_id)
}

/// The sections of a document: the parts between its horizontal rules.
pub open spec fn rule_sections(s: Seq<char>) -> Seq<Seq<char>> {
    split_pat(s, "\n---\n"@)
}

/// The contexts of every section, in order; where there are none and the
/// document is not blank, those of the whole document.
pub open spec fn contexts_items(s: Seq<char>, workspace: Seq<char>) -> Seq<ContextView> {
    let all = concat_map(rule_sections(s), |x: Seq<char>| context_items(x, workspace));
    if all.len() == 0 && trim(s).len() > 0 {
        context_items(s, workspace)
    } else {
        all
    }
}

/// The errors that go with `contexts_items`.
pub open spec fn contexts_errors(s: Seq<char>, workspace: Seq<char>) -> Seq<Seq<char>> {
    let all = concat_map(rule_sections(s), |x: Seq<char>| context_items(x, workspace));
    if all.len() == 0 && trim(s).len() > 0 {
        context_errors(s)
    } else {
        concat_map(rule_sections(s), |x: Seq<char>| context_errors(x))
    }
}

/// The warnings that go with `contexts_items`.
pub open spec fn contexts_warnings(s: Seq<char>, workspace: Seq<char>) -> Seq<Seq<char>> {
    let all = concat_map(rule_sections(s), |x: Seq<char>| context_items(x, workspace));
    if all.len() == 0 && trim(s).len() > 0 {
        context_warnings(s)
    } else {
        concat_map(rule_sections(s), |x: Seq<char>| context_warnings(x))
    }
}

proof fn lemma_views_concat(a: Seq<String>, b: Seq<String>)
    ensures
        views(a + b) == views(a) + views(b),
{
    assert(views(a + b) =~= views(a) + views(b));
}

proof fn lemma_context_views_concat(a: Seq<ParsedContext>, b: Seq<ParsedContext>)
    ensures
        context_views(a + b) == context_views(a) + context_views(b),
{
    assert(context_views(a + b) =~= context_views(a) + context_views(b));
}

/// Parse multiple contexts from a single markdown document
pub fn ParseContexts(markdown: &str, options: &ImportOptions) -> (r: ParseResult<ParsedContext>)
    ensures
        context_views(r.items@) == contexts_items(markdown@, options.workspace_id@),
        views(r.errors@) == contexts_errors(markdown@, options.workspace_id@),
        views(r.warnings@) == contexts_warnings(markdown@, options.workspace_id@),
{
    let v = chars_of(markdown);
    let rule = chars_of("\n---\n");
    proof {
        reveal_strlit("\n---\n");
    }
    let secs = split_pattern(&v, &rule);
    let ghost sv = vviews(secs@);
    let ghost w = options.workspace_id@;
    let ghost fi = |x: Seq<char>| context_items(x, w);
    let ghost fe = |x: Seq<char>| context_errors(x);
    let ghost fw = |x: Seq<char>| context_warnings(x);
    let mut result: ParseResult<ParsedContext> = ParseResult::new();
    let mut i: usize = 0;
    assert(sv.take(0) =~= Seq::<Seq<char>>::empty());
    assert(context_views(result.items@) =~= Seq::<ContextView>::empty());
    assert(views(result.errors@) =~= Seq::<Seq<char>>::empty());
    assert(views(result.warnings@) =~= Seq::<Seq<char>>::empty());
    while i < secs.len()
        invariant
            sv == vviews(secs@),
            sv.len() == secs.len(),
            w == options.workspace_id@,
            fi == (|x: Seq<char>| context_items(x, w)),
            fe == (|x: Seq<char>| context_errors(x)),
            fw == (|x: Seq<char>| context_warnings(x)),
            i <= secs.len(),
            context_views(result.items@) == concat_map(sv.take(i as int), fi),
            views(result.errors@) == concat_map(sv.take(i as int), fe),
            views(result.warnings@) == concat_map(sv.take(i as int), fw),
        decreases secs.len() - i,
    {
        proof {
            lemma_concat_map_step(sv, fi, i as int);
            lemma_concat_map_step(sv, fe, i as int);
            lemma_concat_map_step(sv, fw, i as int);
            assert(sv[i as int] == secs@[i as int]@);
        }
        let part = parse_context_chars(&secs[i], &options.workspace_id);
        let ghost before = result;
        result.absorb(part);
        proof {
            lemma_context_views_concat(before.items@, part.items@);
            lemma_views_concat(before.errors@, part.errors@);
            lemma_views_concat(before.warnings@, part.warnings@);
            assert(fi(sv[i as int]) == context_items(secs@[i as int]@, w));
            assert(fe(sv[i as int]) == context_errors(secs@[i as int]@));
            assert(fw(sv[i as int]) == context_warnings(secs@[i as int]@));
        }
        i = i + 1;
    }
    assert(sv.take(secs.len() as int) =~= sv);
    assert(sv == rule_sections(markdown@));
    if result.items.len() == 0 {
        let t = trim_vec(&v);
        if t.len() > 0 {
            return parse_context_chars(&v, &options.workspace_id);
        }
    }
    result
}

// ============================================================================
// Decision Parsing
// ============================================================================

/// Parsed decision from markdown
#[derive(Debug, Clone)]
pub struct ParsedDecision {
    pub summary: String,
    pub rationale: Option<String>,
    pub implementation_details: Option<String>,
    pub tags: Vec<String>,
    pub timestamp: Option<String>,
}

/// Summary, rationale, implementation details, tags and time.
pub type DecisionView = (Seq<char>, Option<Seq<char>>, Option<Seq<char>>, Seq<Seq<char>>, Option<Seq<char>>);

impl View for ParsedDecision {
    type V = DecisionView;

    open spec fn view(&self) -> DecisionView {
        (
            self.summary@,
            opt_view(self.rationale),
            opt_view(self.implementation_details),
            views(self.tags@),
            opt_view(self.timestamp),
        )
    }
}

/// Where the summary of a `## Decision: Summary` line starts
/// (`^##\s+Decision:\s+(.+)$`).
pub open spec fn decision_cap(l: Seq<char>) -> Option<int> {
    let j = ws_run_end(l, "##"@.len() as int);
    if starts_with_seq(l, "##"@) && j > "##"@.len() && occurs_at(l, "Decision:"@, j) {
        cap_ws_plus(l, j + "Decision:"@.len())
    } else {
        None
    }
}

/// The summary of the last decision line.
pub open spec fn last_decision(ls: Seq<Seq<char>>) -> Seq<char>
    decreases ls.len(),
{
    if ls.len() == 0 {
        Seq::empty()
    } else {
        match decision_cap(ls.last()) {
            Some(c) => ls.last().skip(c),
            None => last_decision(ls.drop_last()),
        }
    }
}

/// Where the value of a metadata field `-\s*KEY\s*(.+)` starts when the
/// pattern is matched at `p`.
pub open spec fn field_at(l: Seq<char>, p: int, key: Seq<char>) -> Option<int> {
    let j = ws_run_end(l, p + 1);
    if 0 <= p < l.len() && l[p] == '-' && occurs_at(l, key, j) {
        cap_ws_star(l, j + key.len())
    } else {
        None
    }
}

/// The value of the leftmost metadata field `key` at or after `p`.
pub open spec fn field_from(l: Seq<char>, key: Seq<char>, p: int) -> Option<Seq<char>>
    decreases l.len() - p,
{
    if p < 0 || p >= l.len() {
        None
    } else {
        match field_at(l, p, key) {
            Some(c) => Some(l.skip(c)),
            None => field_from(l, key, p + 1),
        }
    }
}

/// The value of the last line's metadata field `key` among the lines that have one.
pub open spec fn last_field(ls: Seq<Seq<char>>, key: Seq<char>) -> Option<Seq<char>>
    decreases ls.len(),
{
    if ls.len() == 0 {
        None
    } else {
        match field_from(ls.last(), key, 0) {
            Some(v) => Some(v),
            None => last_field(ls.drop_last(), key),
        }
    }
}

/// The trimmed text of the third-level section `word`, up to the next
/// third-level header or the end.
pub open spec fn section_text(s: Seq<char>, word: Seq<char>) -> Option<Seq<char>> {
    match header_from(s, 0, "###"@, word) {
        Some(k) => Some(
            trim(
                match find_seq(s, "###"@, k) {
                    Some(q) => s.subrange(k, q),
                    None => s.skip(k),
                },
            ),
        ),
        None => None,
    }
}

/// The tags of a tag list: its comma-separated parts, trimmed, without the
/// empty ones.
pub open spec fn tags_of(v: Seq<char>) -> Seq<Seq<char>> {
    nonempty_trimmed(split_char(v, ','))
}

/// The decisions parsed from one section: one where it has a summary.
pub open spec fn decision_items(s: Seq<char>) -> Seq<DecisionView> {
    let ls = lines(s);
    let summary = last_decision(ls);
    if summary.len() > 0 {
        seq![
            (
                summary,
                section_text(s, "Rationale"@),
                section_text(s, "Implementation"@),
                match last_field(ls, "**Tags**:"@) {
                    Some(v) => tags_of(v),
                    None => Seq::empty(),
                },
                last_field(ls, "**Date**:"@),
            ),
        ]
    } else {
        Seq::empty()
    }
}

/// The error of a section without a summary.
pub open spec fn decision_errors(s: Seq<char>) -> Seq<Seq<char>> {
    if last_decision(lines(s)).len() == 0 {
        seq!["Decision summary is required"@]
    } else {
        Seq::empty()
    }
}

/// The views of a list of parsed decisions.
pub open spec fn decision_views(v: Seq<ParsedDecision>) -> Seq<DecisionView> {
    v.map_values(|d: ParsedDecision| d@)
}

fn decision_start(l: &Vec<char>, hashes: &Vec<char>, word: &Vec<char>) -> (r: Option<usize>)
    requires
        hashes@ == "##"@,
        word@ == "Decision:"@,
    ensures
        match r {
            Some(c) => decision_cap(l@) == Some(c as int) && c <= l.len(),
            None => decision_cap(l@) is None,
        },
{
    if !occurs_at_exec(l, hashes, 0) {
        return None;
    }
    let j = skip_ws(l, hashes.len());
    if j <= hashes.len() || !occurs_at_exec(l, word, j) {
        return None;
    }
    let r = capture_ws_plus(l, j + word.len());
    proof {
        if let Some(c) = r {
            if c as int != l@.len() - 1 {
                assert(c as int == ws_run_end(l@, j + word@.len()));
            }
        }
    }
    r
}

fn field_match(l: &Vec<char>, p: usize, key: &Vec<char>) -> (r: Option<usize>)
    requires
        p < l.len(),
    ensures
        match r {
            Some(c) => field_at(l@, p as int, key@) == Some(c as int) && c <= l.len(),
            None => field_at(l@, p as int, key@) is None,
        },
{
    if l[p] != '-' {
        return None;
    }
    let j = skip_ws(l, p + 1);
    if !occurs_at_exec(l, key, j) {
        return None;
    }
    let r = capture_ws_star(l, j + key.len());
    proof {
        if let Some(c) = r {
            if c as int != l@.len() - 1 {
                assert(c as int == ws_run_end(l@, j + key@.len()));
            }
        }
    }
    r
}

fn field_value(l: &Vec<char>, key: &Vec<char>) -> (r: Option<Vec<char>>)
    ensures
        opt_vview(r) == field_from(l@, key@, 0),
{
    let mut p: usize = 0;
    while p < l.len()
        invariant
            p <= l.len(),
            field_from(l@, key@, 0) == field_from(l@, key@, p as int),
        decreases l.len() - p,
    {
        match field_match(l, p, key) {
            Some(c) => {
                let v = slice_vec(l, c, l.len());
                assert(v@ =~= l@.skip(c as int));
                return Some(v);
            },
            None => {},
        }
        p = p + 1;
    }
    None
}

fn section_text_exec(s: &Vec<char>, word: &Vec<char>) -> (r: Option<String>)
    ensures
        opt_view(r) == section_text(s@, word@),
{
    let hashes = chars_of("###");
    match header_search(s, &hashes, word) {
        Some(k) => {
            let body = match find_chars(s, &hashes, k) {
                Some(q) => {
                    proof {
                        reveal_strlit("###");
                    }
                    slice_vec(s, k, q)
                },
                None => {
                    let b = slice_vec(s, k, s.len());
                    assert(b@ =~= s@.skip(k as int));
                    b
                },
            };
            let t = trim_vec(&body);
            Some(string_of(&t))
        },
        None => None,
    }
}

fn clean_tags(parts: &Vec<Vec<char>>) -> (r: Vec<String>)
    ensures
        views(r@) == nonempty_trimmed(vviews(parts@)),
{
    let ghost pv = vviews(parts@);
    let mut r: Vec<String> = Vec::new();
    let mut i: usize = 0;
    while i < parts.len()
        invariant
            pv == vviews(parts@),
            pv.len() == parts.len(),
            i <= parts.len(),
            views(r@) == nonempty_trimmed(pv.take(i as int)),
        decreases parts.len() - i,
    {
        assert(pv.take(i + 1).drop_last() =~= pv.take(i as int));
        assert(pv.take(i + 1).last() == parts@[i as int]@);
        let ghost before = views(r@);
        let t = trim_vec(&parts[i]);
        if t.len() > 0 {
            let tag = string_of(&t);
            r.push(tag);
            assert(views(r@) =~= before + seq![tag@]);
        } else {
            assert(views(r@) =~= before + Seq::<Seq<char>>::empty());
        }
        i = i + 1;
    }
    assert(pv.take(parts.len() as int) =~= pv);
    r
}

fn parse_decision_chars(s: &Vec<char>) -> (r: ParseResult<ParsedDecision>)
    ensures
        decision_views(r.items@) == decision_items(s@),
        views(r.errors@) == decision_errors(s@),
        r.warnings@.len() == 0,
{
    let ls = split_lines(s);
    let ghost lv = vviews(ls@);
    let hashes = chars_of("##");
    let word = chars_of("Decision:");
    let tags_key = chars_of("**Tags**:");
    let date_key = chars_of("**Date**:");
    let mut summary: Vec<char> = Vec::new();
    let mut tags_line: Option<Vec<char>> = None;
    let mut date: Option<Vec<char>> = None;
    let mut i: usize = 0;
    assert(lv.take(0) =~= Seq::<Seq<char>>::empty());
    while i < ls.len()
        invariant
            lv == vviews(ls@),
            lv.len() == ls.len(),
            hashes@ == "##"@,
            word@ == "Decision:"@,
            tags_key@ == "**Tags**:"@,
            date_key@ == "**Date**:"@,
            i <= ls.len(),
            summary@ == last_decision(lv.take(i as int)),
            opt_vview(tags_line) == last_field(lv.take(i as int), tags_key@),
            opt_vview(date) == last_field(lv.take(i as int), date_key@),
        decreases ls.len() - i,
    {
        assert(lv.take(i + 1).drop_last() =~= lv.take(i as int));
        assert(lv.take(i + 1).last() == ls@[i as int]@);
        let line = &ls[i];
        match decision_start(line, &hashes, &word) {
            Some(c) => {
                summary = slice_vec(line, c, line.len());
                assert(summary@ =~= line@.skip(c as int));
            },
            None => {},
        }
        match field_value(line, &tags_key) {
            Some(v) => {
                tags_line = Some(v);
            },
            None => {},
        }
        match field_value(line, &date_key) {
            Some(v) => {
                date = Some(v);
            },
            None => {},
        }
        i = i + 1;
    }
    assert(lv.take(ls.len() as int) =~= lv);
    let comma = chars_of(",");
    proof {
        reveal_strlit(",");
        assert(comma@ =~= seq![',']);
    }
    let tags: Vec<String> = match tags_line {
        Some(t) => {
            let parts = split_pattern(&t, &comma);
            clean_tags(&parts)
        },
        None => {
            let e: Vec<String> = Vec::new();
            assert(views(e@) =~= Seq::<Seq<char>>::empty());
            e
        },
    };
    let rationale = section_text_exec(s, &chars_of("Rationale"));
    let implementation = section_text_exec(s, &chars_of("Implementation"));
    let mut result: ParseResult<ParsedDecision> = ParseResult::new();
    if summary.len() == 0 {
        result.add_error(message("Decision summary is required"));
    }
    if result.is_valid() {
        let item = ParsedDecision {
            summary: string_of(&summary),
            rationale,
            implementation_details: implementation,
            tags,
            timestamp: opt_string(date),
        };
        result.items.push(item);
        assert(decision_views(result.items@) =~= seq![item@]);
    } else {
        assert(decision_views(result.items@) =~= Seq::<DecisionView>::empty());
    }
    assert(views(result.errors@) =~= decision_errors(s@));
    result
}

/// Parse decision from markdown content
pub fn ParseDecision(markdown: &str, options: &ImportOptions) -> (r: ParseResult<ParsedDecision>)
    ensures
        decision_views(r.items@) == decision_items(markdown@),
        views(r.errors@) == decision_errors(markdown@),
        r.warnings@.len() == 0,
{
    let v = chars_of(markdown);
    parse_decision_chars(&v)
}

/// The decisions of a section that holds a decision heading.
pub open spec fn decision_section_items(x: Seq<char>) -> Seq<DecisionView> {
    if contains_seq(x, "## Decision:"@) {
        decision_items(x)
    } else {
        Seq::empty()
    }
}

/// The errors of a section that holds a decision heading.
pub open spec fn decision_section_errors(x: Seq<char>) -> Seq<Seq<char>> {
    if contains_seq(x, "## Decision:"@) {
        decision_errors(x)
    } else {
        Seq::empty()
    }
}

/// The decisions of every section that holds a decision heading; where there
/// are none and the document holds one, those of the whole document.
pub open spec fn decisions_items(s: Seq<char>) -> Seq<DecisionView> {
    let all = concat_map(rule_sections(s), |x: Seq<char>| decision_section_items(x));
    if all.len() == 0 && contains_seq(s, "## Decision:"@) {
        decision_items(s)
    } else {
        all
    }
}

/// The errors that go with `decisions_items`.
pub open spec fn decisions_errors(s: Seq<char>) -> Seq<Seq<char>> {
    let all = concat_map(rule_sections(s), |x: Seq<char>| decision_section_items(x));
    if all.len() == 0 && contains_seq(s, "## Decision:"@) {
        decision_errors(s)
    } else {
        concat_map(rule_sections(s), |x: Seq<char>| decision_section_errors(x))
    }
}

proof fn lemma_decision_views_concat(a: Seq<ParsedDecision>, b: Seq<ParsedDecision>)
    ensures
        decision_views(a + b) == decision_views(a) + decision_views(b),
{
    assert(decision_views(a + b) =~= decision_views(a) + decision_views(b));
}

/// Parse multiple decisions from markdown
pub fn ParseDecisions(markdown: &str, options: &ImportOptions) -> (r: ParseResult<ParsedDecision>)
    ensures
        decision_views(r.items@) == decisions_items(markdown@),
        views(r.errors@) == decisions_errors(markdown@),
        r.warnings@.len() == 0,
{
    let v = chars_of(markdown);
    let rule = chars_of("\n---\n");
    let heading = chars_of("## Decision:");
    proof {
        reveal_strlit("\n---\n");
    }
    let secs = split_pattern(&v, &rule);
    let ghost sv = vviews(secs@);
    let ghost fi = |x: Seq<char>| decision_section_items(x);
    let ghost fe = |x: Seq<char>| decision_section_errors(x);
    let mut result: ParseResult<ParsedDecision> = ParseResult::new();
    let mut i: usize = 0;
    assert(sv.take(0) =~= Seq::<Seq<char>>::empty());
    assert(decision_views(result.items@) =~= Seq::<DecisionView>::empty());
    assert(views(result.errors@) =~= Seq::<Seq<char>>::empty());
    while i < secs.len()
        invariant
            sv == vviews(secs@),
            sv.len() == secs.len(),
            heading@ == "## Decision:"@,
            fi == (|x: Seq<char>| decision_section_items(x)),
            fe == (|x: Seq<char>| decision_section_errors(x)),
            i <= secs.len(),
            decision_views(result.items@) == concat_map(sv.take(i as int), fi),
            views(result.errors@) == concat_map(sv.take(i as int), fe),
            result.warnings@.len() == 0,
        decreases secs.len() - i,
    {
        proof {
            lemma_concat_map_step(sv, fi, i as int);
            lemma_concat_map_step(sv, fe, i as int);
            assert(sv[i as int] == secs@[i as int]@);
        }
        if contains_chars(&secs[i], &heading) {
            let part = parse_decision_chars(&secs[i]);
            let ghost before = result;
            result.absorb(part);
            proof {
                lemma_decision_views_concat(before.items@, part.items@);
                lemma_views_concat(before.errors@, part.errors@);
                assert(fi(sv[i as int]) == decision_items(secs@[i as int]@));
                assert(fe(sv[i as int]) == decision_errors(secs@[i as int]@));
            }
        } else {
            assert(fi(sv[i as int]) == Seq::<DecisionView>::empty());
            assert(fe(sv[i as int]) == Seq::<Seq<char>>::empty());
            assert(decision_views(result.items@) =~= decision_views(result.items@) + Seq::<DecisionView>::empty());
            assert(views(result.errors@) =~= views(result.errors@) + Seq::<Seq<char>>::empty());
        }
        i = i + 1;
    }
    assert(sv.take(secs.len() as int) =~= sv);
    assert(sv == rule_sections(markdown@));
    if result.items.len() == 0 && contains_chars(&v, &heading) {
        return parse_decision_chars(&v);
    }
    result
}

// ============================================================================
// Progress Parsing
// ============================================================================

/// Parsed progress item from markdown
#[derive(Debug, Clone)]
pub struct ParsedProgress {
    pub status: String,
    pub description: String,
    pub parent_id: Option<i64>,
    pub linked_item_type: Option<String>,
    pub linked_item_id: Option<String>,
    pub timestamp: Option<String>,
}

/// Status, description, parent, linked item type and id, and time.
pub type ProgressView = (
    Seq<char>,
    Seq<char>,
    Option<int>,
    Option<Seq<char>>,
    Option<Seq<char>>,
    Option<Seq<char>>,
);

/// The view of an optional number.
pub open spec fn opt_int(o: Option<i64>) -> Option<int> {
    match o {
        Some(v) => Some(v as int),
        None => None,
    }
}

impl View for ParsedProgress {
    type V = ProgressView;

    open spec fn view(&self) -> ProgressView {
        (
            self.status@,
            self.description@,
            opt_int(self.parent_id),
            opt_view(self.linked_item_type),
            opt_view(self.linked_item_id),
            opt_view(self.timestamp),
        )
    }
}

/// The three status marks: to do, in progress, done.
pub open spec fn is_status_mark(c: char) -> bool {
    c == '\u{1F532}' || c == '\u{1F504}' || c == '\u{2705}'
}

/// The status that a mark stands for.
pub open spec fn mark_status(c: char) -> Seq<char> {
    if c == '\u{1F532}' {
        "TODO"@
    } else if c == '\u{1F504}' {
        "IN_PROGRESS"@
    } else {
        "DONE"@
    }
}

/// An upper-case ASCII letter or `_`.
pub open spec fn is_upper_word(c: char) -> bool {
    ('A' <= c && c <= 'Z') || c == '_'
}

/// An ASCII letter, digit or `_`.
pub open spec fn is_word_char(c: char) -> bool {
    ('a' <= c && c <= 'z') || ('A' <= c && c <= 'Z') || ('0' <= c && c <= '9') || c == '_'
}

/// The end of the run of upper-case letters and `_` that begins at `i`.
pub open spec fn upper_run_end(l: Seq<char>, i: int) -> int
    decreases l.len() - i,
{
    if 0 <= i < l.len() && is_upper_word(l[i]) {
        upper_run_end(l, i + 1)
    } else {
        i
    }
}

/// The end of the run of digits that begins at `i`.
pub open spec fn digit_run_end(l: Seq<char>, i: int) -> int
    decreases l.len() - i,
{
    if 0 <= i < l.len() && is_digit(l[i]) {
        digit_run_end(l, i + 1)
    } else {
        i
    }
}

/// The end of the run of word characters that begins at `i`.
pub open spec fn word_run_end(l: Seq<char>, i: int) -> int
    decreases l.len() - i,
{
    if 0 <= i < l.len() && is_word_char(l[i]) {
        word_run_end(l, i + 1)
    } else {
        i
    }
}

/// The end of the run of characters other than a backtick that begins at `i`.
pub open spec fn tick_free_end(l: Seq<char>, i: int) -> int
    decreases l.len() - i,
{
    if 0 <= i < l.len() && l[i] != '`' {
        tick_free_end(l, i + 1)
    } else {
        i
    }
}

/// A status line `MARK **STATUS** description` matched at `p`: where the
/// description starts.
pub open spec fn status_at(l: Seq<char>, p: int) -> Option<int> {
    let j = ws_run_end(l, p + 1);
    let k = upper_run_end(l, j + "**"@.len());
    if 0 <= p < l.len() && is_status_mark(l[p]) && j > p + 1 && occurs_at(l, "**"@, j) && k > j
        + "**"@.len() && occurs_at(l, "**"@, k) {
        cap_ws_plus(l, k + "**"@.len())
    } else {
        None
    }
}

/// The mark and description of the leftmost status match at or after `p`.
pub open spec fn status_from(l: Seq<char>, p: int) -> Option<(char, Seq<char>)>
    decreases l.len() - p,
{
    if p < 0 || p >= l.len() {
        None
    } else {
        match status_at(l, p) {
            Some(c) => Some((l[p], l.skip(c))),
            None => status_from(l, p + 1),
        }
    }
}

/// A field ``- **Parent ID**: `digits` `` matched at `p`: the bounds of the digits.
pub open spec fn parent_at(l: Seq<char>, p: int) -> Option<(int, int)> {
    let key = "**Parent ID**:"@;
    let j = ws_run_end(l, p + 1);
    let k = ws_run_end(l, j + key.len());
    let d = digit_run_end(l, k + 1);
    if 0 <= p < l.len() && l[p] == '-' && occurs_at(l, key, j) && k < l.len() && l[k] == '`' && d
        > k + 1 && d < l.len() && l[d] == '`' {
        Some((k + 1, d))
    } else {
        None
    }
}

/// The digits of the leftmost parent field at or after `p`.
pub open spec fn parent_from(l: Seq<char>, p: int) -> Option<Seq<char>>
    decreases l.len() - p,
{
    if p < 0 || p >= l.len() {
        None
    } else {
        match parent_at(l, p) {
            Some((a, b)) => Some(l.subrange(a, b)),
            None => parent_from(l, p + 1),
        }
    }
}

/// The number that digits spell, where it fits in an `i64`.
pub open spec fn parent_number(d: Seq<char>) -> Option<int> {
    if digits_value(d) <= i64::MAX {
        Some(digits_value(d) as int)
    } else {
        None
    }
}

/// A field ``- **Linked**: type `id` `` matched at `p`: the bounds of the
/// type and of the id.
pub open spec fn linked_at(l: Seq<char>, p: int) -> Option<(int, int, int, int)> {
    let key = "**Linked**:"@;
    let j = ws_run_end(l, p + 1);
    let k = ws_run_end(l, j + key.len());
    let w = word_run_end(l, k);
    let m = ws_run_end(l, w);
    let e = tick_free_end(l, m + 1);
    if 0 <= p < l.len() && l[p] == '-' && occurs_at(l, key, j) && w > k && m > w && m < l.len()
        && l[m] == '`' && e > m + 1 && e < l.len() && l[e] == '`' {
        Some((k, w, m + 1, e))
    } else {
        None
    }
}

/// The type and id of the leftmost linked field at or after `p`.
pub open spec fn linked_from(l: Seq<char>, p: int) -> Option<(Seq<char>, Seq<char>)>
    decreases l.len() - p,
{
    if p < 0 || p >= l.len() {
        None
    } else {
        match linked_at(l, p) {
            Some((a, b, c, d)) => Some((l.subrange(a, b), l.subrange(c, d))),
            None => linked_from(l, p + 1),
        }
    }
}

/// Parent, linked item type and id, and time of a progress entry.
pub type ProgressMeta = (Option<int>, Option<Seq<char>>, Option<Seq<char>>, Option<Seq<char>>);

/// The metadata after one more metadata line.
pub open spec fn meta_step(st: ProgressMeta, l: Seq<char>) -> ProgressMeta {
    (
        match parent_from(l, 0) {
            Some(d) => parent_number(d),
            None => st.0,
        },
        match linked_from(l, 0) {
            Some(tl) => Some(tl.0),
            None => st.1,
        },
        match linked_from(l, 0) {
            Some(tl) => Some(tl.1),
            None => st.2,
        },
        match field_from(l, "**Date**:"@, 0) {
            Some(v) => Some(v),
            None => st.3,
        },
    )
}

/// The metadata of the indented list lines `ls[j..]` that follow an entry.
pub open spec fn meta_fold(ls: Seq<Seq<char>>, j: int, st: ProgressMeta) -> ProgressMeta
    decreases ls.len() - j,
{
    if j < 0 || j >= ls.len() || !starts_with_seq(ls[j], "  -"@) {
        st
    } else {
        meta_fold(ls, j + 1, meta_step(st, ls[j]))
    }
}

/// The first line at or after `i` that holds `d`.
pub open spec fn first_containing(ls: Seq<Seq<char>>, d: Seq<char>, i: int) -> Option<int>
    decreases ls.len() - i,
{
    if i < 0 || i >= ls.len() {
        None
    } else if contains_seq(ls[i], d) {
        Some(i)
    } else {
        first_containing(ls, d, i + 1)
    }
}

/// The metadata of the entry described by `d`: that of the lines after the
/// first line that holds `d`.
pub open spec fn progress_meta(ls: Seq<Seq<char>>, d: Seq<char>) -> ProgressMeta {
    match first_containing(ls, d, 0) {
        Some(x) => meta_fold(ls, x + 1, (None, None, None, None)),
        None => (None, None, None, None),
    }
}

/// The entry of a status line, none for another line.
pub open spec fn line_progress(ls: Seq<Seq<char>>, l: Seq<char>) -> Seq<ProgressView> {
    match status_from(l, 0) {
        Some(md) => {
            let m = progress_meta(ls, md.1);
            seq![(mark_status(md.0), md.1, m.0, m.1, m.2, m.3)]
        },
        None => Seq::empty(),
    }
}

/// The entries of the first `n` lines.
pub open spec fn progress_upto(ls: Seq<Seq<char>>, n: int) -> Seq<ProgressView>
    decreases n,
{
    if n <= 0 || n > ls.len() {
        Seq::empty()
    } else {
        progress_upto(ls, n - 1) + line_progress(ls, ls[n - 1])
    }
}

/// The progress entries of a document, one for each status line.
pub open spec fn progress_items(s: Seq<char>) -> Seq<ProgressView> {
    let ls = lines(s);
    progress_upto(ls, ls.len() as int)
}

/// The warning of a document without progress entries.
pub open spec fn progress_warnings(s: Seq<char>) -> Seq<Seq<char>> {
    if progress_items(s).len() == 0 {
        seq!["No progress items found in markdown"@]
    } else {
        Seq::empty()
    }
}

/// The views of a list of parsed progress entries.
pub open spec fn progress_views(v: Seq<ParsedProgress>) -> Seq<ProgressView> {
    v.map_values(|p: ParsedProgress| p@)
}

fn run_end(l: &Vec<char>, i: usize, kind: u8) -> (r: usize)
    requires
        i <= l.len(),
        kind < 4,
    ensures
        i <= r <= l.len(),
        kind == 0 ==> r == upper_run_end(l@, i as int),
        kind == 1 ==> r == digit_run_end(l@, i as int),
        kind == 2 ==> r == word_run_end(l@, i as int),
        kind == 3 ==> r == tick_free_end(l@, i as int),
        kind == 1 ==> forall|x: int| i <= x < r ==> is_digit(#[trigger] l@[x]),
{
    let mut j = i;
    while j < l.len()
        invariant
            i <= j <= l.len(),
            kind < 4,
            kind == 0 ==> upper_run_end(l@, j as int) == upper_run_end(l@, i as int),
            kind == 1 ==> digit_run_end(l@, j as int) == digit_run_end(l@, i as int),
            kind == 2 ==> word_run_end(l@, j as int) == word_run_end(l@, i as int),
            kind == 3 ==> tick_free_end(l@, j as int) == tick_free_end(l@, i as int),
            kind == 1 ==> forall|x: int| i <= x < j ==> is_digit(#[trigger] l@[x]),
        decreases l.len() - j,
    {
        let c = l[j];
        let inside = if kind == 0 {
            ('A' <= c && c <= 'Z') || c == '_'
        } else if kind == 1 {
            '0' <= c && c <= '9'
        } else if kind == 2 {
            ('a' <= c && c <= 'z') || ('A' <= c && c <= 'Z') || ('0' <= c && c <= '9') || c == '_'
        } else {
            c != '`'
        };
        if !inside {
            return j;
        }
        j = j + 1;
    }
    j
}

fn status_match(l: &Vec<char>, p: usize, stars: &Vec<char>) -> (r: Option<usize>)
    requires
        p < l.len(),
        stars@ == "**"@,
    ensures
        match r {
            Some(c) => status_at(l@, p as int) == Some(c as int) && c <= l.len(),
            None => status_at(l@, p as int) is None,
        },
{
    let m = l[p];
    if !(m == '\u{1F532}' || m == '\u{1F504}' || m == '\u{2705}') {
        return None;
    }
    let j = skip_ws(l, p + 1);
    if j <= p + 1 || !occurs_at_exec(l, stars, j) {
        return None;
    }
    let k = run_end(l, j + stars.len(), 0);
    if k <= j + stars.len() || !occurs_at_exec(l, stars, k) {
        return None;
    }
    let r = capture_ws_plus(l, k + stars.len());
    proof {
        if let Some(c) = r {
            if c as int != l@.len() - 1 {
                assert(c as int == ws_run_end(l@, k + stars@.len()));
            }
        }
    }
    r
}

fn mark_status_exec(c: char) -> (r: String)
    ensures
        r@ == mark_status(c),
{
    if c == '\u{1F532}' {
        message("TODO")
    } else if c == '\u{1F504}' {
        message("IN_PROGRESS")
    } else {
        message("DONE")
    }
}

fn status_value(l: &Vec<char>, stars: &Vec<char>) -> (r: Option<(char, Vec<char>)>)
    requires
        stars@ == "**"@,
    ensures
        match r {
            Some((m, d)) => status_from(l@, 0) == Some((m, d@)),
            None => status_from(l@, 0) is None,
        },
{
    let mut p: usize = 0;
    while p < l.len()
        invariant
            stars@ == "**"@,
            p <= l.len(),
            status_from(l@, 0) == status_from(l@, p as int),
        decreases l.len() - p,
    {
        match status_match(l, p, stars) {
            Some(c) => {
                let d = slice_vec(l, c, l.len());
                assert(d@ =~= l@.skip(c as int));
                return Some((l[p], d));
            },
            None => {},
        }
        p = p + 1;
    }
    None
}

fn parse_i64_digits(d: &Vec<char>) -> (r: Option<i64>)
    requires
        forall|x: int| 0 <= x < d.len() ==> is_digit(#[trigger] d@[x]),
    ensures
        opt_int(r) == parent_number(d@),
{
    let mut acc: u64 = 0;
    let mut over = false;
    let mut i: usize = 0;
    while i < d.len()
        invariant
            i <= d.len(),
            forall|x: int| 0 <= x < d.len() ==> is_digit(#[trigger] d@[x]),
            !over ==> acc == digits_value(d@.take(i as int)) && acc <= i64::MAX,
            over ==> digits_value(d@.take(i as int)) > i64::MAX,
        decreases d.len() - i,
    {
        assert(d@.take(i + 1).drop_last() =~= d@.take(i as int));
        assert(is_digit(d@[i as int]));
        let v: u64 = (d[i] as u32 - '0' as u32) as u64;
        let ghost prev = digits_value(d@.take(i as int));
        assert(digits_value(d@.take(i + 1)) == prev * 10 + v);
        if !over {
            if acc > (9223372036854775807u64 - v) / 10 {
                over = true;
                assert(acc * 10 + v > 9223372036854775807u64) by (nonlinear_arith)
                    requires
                        acc > (9223372036854775807u64 - v) / 10,
                        v <= 9,
                ;
            } else {
                assert(acc * 10 + v <= 9223372036854775807u64) by (nonlinear_arith)
                    requires
                        acc <= (9223372036854775807u64 - v) / 10,
                        v <= 9,
                ;
                acc = acc * 10 + v;
            }
        } else {
            assert(prev * 10 + v > i64::MAX) by (nonlinear_arith)
                requires
                    prev > i64::MAX,
                    v >= 0,
            ;
        }
        i = i + 1;
    }
    assert(d@.take(d.len() as int) =~= d@);
    if over {
        None
    } else {
        Some(acc as i64)
    }
}

fn parent_match(l: &Vec<char>, p: usize, key: &Vec<char>) -> (r: Option<(usize, usize)>)
    requires
        p < l.len(),
        key@ == "**Parent ID**:"@,
    ensures
        match r {
            Some((a, b)) => parent_at(l@, p as int) == Some((a as int, b as int)) && a <= b <= l.len()
                && forall|x: int| a <= x < b ==> is_digit(#[trigger] l@[x]),
            None => parent_at(l@, p as int) is None,
        },
{
    if l[p] != '-' {
        return None;
    }
    let j = skip_ws(l, p + 1);
    if !occurs_at_exec(l, key, j) {
        return None;
    }
    let k = skip_ws(l, j + key.len());
    if k >= l.len() || l[k] != '`' {
        return None;
    }
    let d = run_end(l, k + 1, 1);
    if d <= k + 1 || d >= l.len() || l[d] != '`' {
        return None;
    }
    Some((k + 1, d))
}

fn parent_value(l: &Vec<char>, key: &Vec<char>) -> (r: Option<Vec<char>>)
    requires
        key@ == "**Parent ID**:"@,
    ensures
        opt_vview(r) == parent_from(l@, 0),
        r matches Some(d) ==> forall|x: int| 0 <= x < d.len() ==> is_digit(#[trigger] d@[x]),
{
    let mut p: usize = 0;
    while p < l.len()
        invariant
            key@ == "**Parent ID**:"@,
            p <= l.len(),
            parent_from(l@, 0) == parent_from(l@, p as int),
        decreases l.len() - p,
    {
        match parent_match(l, p, key) {
            Some((a, b)) => {
                let d = slice_vec(l, a, b);
                assert forall|x: int| 0 <= x < d.len() implies is_digit(#[trigger] d@[x]) by {
                    assert(d@[x] == l@[a + x]);
                }
                return Some(d);
            },
            None => {},
        }
        p = p + 1;
    }
    None
}

fn linked_match(l: &Vec<char>, p: usize, key: &Vec<char>) -> (r: Option<(usize, usize, usize, usize)>)
    requires
        p < l.len(),
        key@ == "**Linked**:"@,
    ensures
        match r {
            Some((a, b, c, d)) => linked_at(l@, p as int) == Some((a as int, b as int, c as int, d as int))
                && a <= b <= l.len() && c <= d <= l.len(),
            None => linked_at(l@, p as int) is None,
        },
{
    if l[p] != '-' {
        return None;
    }
    let j = skip_ws(l, p + 1);
    if !occurs_at_exec(l, key, j) {
        return None;
    }
    let k = skip_ws(l, j + key.len());
    let w = run_end(l, k, 2);
    if w <= k {
        return None;
    }
    let m = skip_ws(l, w);
    if m <= w || m >= l.len() || l[m] != '`' {
        return None;
    }
    let e = run_end(l, m + 1, 3);
    if e <= m + 1 || e >= l.len() || l[e] != '`' {
        return None;
    }
    Some((k, w, m + 1, e))
}

fn linked_value(l: &Vec<char>, key: &Vec<char>) -> (r: Option<(Vec<char>, Vec<char>)>)
    requires
        key@ == "**Linked**:"@,
    ensures
        match r {
            Some((t, i)) => linked_from(l@, 0) == Some((t@, i@)),
            None => linked_from(l@, 0) is None,
        },
{
    let mut p: usize = 0;
    while p < l.len()
        invariant
            key@ == "**Linked**:"@,
            p <= l.len(),
            linked_from(l@, 0) == linked_from(l@, p as int),
        decreases l.len() - p,
    {
        match linked_match(l, p, key) {
            Some((a, b, c, d)) => {
                let t = slice_vec(l, a, b);
                let i = slice_vec(l, c, d);
                return Some((t, i));
            },
            None => {},
        }
        p = p + 1;
    }
    None
}

/// The metadata being gathered for a progress entry.
struct MetaState {
    parent: Option<i64>,
    linked_type: Option<Vec<char>>,
    linked_id: Option<Vec<char>>,
    date: Option<Vec<char>>,
}

impl View for MetaState {
    type V = ProgressMeta;

    closed spec fn view(&self) -> ProgressMeta {
        (opt_int(self.parent), opt_vview(self.linked_type), opt_vview(self.linked_id), opt_vview(self.date))
    }
}

/// The keys that the metadata lines are read with.
struct MetaKeys {
    parent: Vec<char>,
    linked: Vec<char>,
    date: Vec<char>,
    indent: Vec<char>,
}

impl MetaKeys {
    spec fn wf(&self) -> bool {
        &&& self.parent@ == "**Parent ID**:"@
        &&& self.linked@ == "**Linked**:"@
        &&& self.date@ == "**Date**:"@
        &&& self.indent@ == "  -"@
    }

    fn new() -> (r: Self)
        ensures
            r.wf(),
    {
        MetaKeys {
            parent: chars_of("**Parent ID**:"),
            linked: chars_of("**Linked**:"),
            date: chars_of("**Date**:"),
            indent: chars_of("  -"),
        }
    }
}

fn meta_step_exec(st: MetaState, l: &Vec<char>, keys: &MetaKeys) -> (r: MetaState)
    requires
        keys.wf(),
    ensures
        r@ == meta_step(st@, l@),
{
    let mut st = st;
    match parent_value(l, &keys.parent) {
        Some(d) => {
            st.parent = parse_i64_digits(&d);
        },
        None => {},
    }
    match linked_value(l, &keys.linked) {
        Some((t, i)) => {
            st.linked_type = Some(t);
            st.linked_id = Some(i);
        },
        None => {},
    }
    match field_value(l, &keys.date) {
        Some(v) => {
            st.date = Some(v);
        },
        None => {},
    }
    st
}

fn first_line_with(ls: &Vec<Vec<char>>, d: &Vec<char>) -> (r: Option<usize>)
    ensures
        match r {
            Some(x) => first_containing(vviews(ls@), d@, 0) == Some(x as int) && x < ls.len(),
            None => first_containing(vviews(ls@), d@, 0) is None,
        },
{
    let ghost lv = vviews(ls@);
    let mut x: usize = 0;
    while x < ls.len()
        invariant
            lv == vviews(ls@),
            lv.len() == ls.len(),
            x <= ls.len(),
            first_containing(lv, d@, 0) == first_containing(lv, d@, x as int),
        decreases ls.len() - x,
    {
        assert(lv[x as int] == ls@[x as int]@);
        if contains_chars(&ls[x], d) {
            return Some(x);
        }
        x = x + 1;
    }
    None
}

fn progress_meta_exec(ls: &Vec<Vec<char>>, d: &Vec<char>, keys: &MetaKeys) -> (r: MetaState)
    requires
        keys.wf(),
    ensures
        r@ == progress_meta(vviews(ls@), d@),
{
    let ghost lv = vviews(ls@);
    let mut st = MetaState { parent: None, linked_type: None, linked_id: None, date: None };
    let x = match first_line_with(ls, d) {
        Some(x) => x,
        None => {
            return st;
        },
    };
    let mut j = x + 1;
    while j < ls.len()
        invariant
            lv == vviews(ls@),
            lv.len() == ls.len(),
            keys.wf(),
            x < j <= ls.len(),
            first_containing(lv, d@, 0) == Some(x as int),
            meta_fold(lv, x + 1, (None, None, None, None)) == meta_fold(lv, j as int, st@),
        decreases ls.len() - j,
    {
        assert(lv[j as int] == ls@[j as int]@);
        if !occurs_at_exec(&ls[j], &keys.indent, 0) {
            return st;
        }
        st = meta_step_exec(st, &ls[j], keys);
        j = j + 1;
    }
    st
}

fn parse_progress_chars(s: &Vec<char>) -> (r: ParseResult<ParsedProgress>)
    ensures
        progress_views(r.items@) == progress_items(s@),
        r.errors@.len() == 0,
        views(r.warnings@) == progress_warnings(s@),
{
    let ls = split_lines(s);
    let ghost lv = vviews(ls@);
    let stars = chars_of("**");
    let keys = MetaKeys::new();
    let mut result: ParseResult<ParsedProgress> = ParseResult::new();
    let mut i: usize = 0;
    assert(progress_views(result.items@) =~= Seq::<ProgressView>::empty());
    while i < ls.len()
        invariant
            lv == vviews(ls@),
            lv.len() == ls.len(),
            stars@ == "**"@,
            keys.wf(),
            i <= ls.len(),
            progress_views(result.items@) == progress_upto(lv, i as int),
            result.errors@.len() == 0,
            result.warnings@.len() == 0,
        decreases ls.len() - i,
    {
        assert(lv[i as int] == ls@[i as int]@);
        let ghost before = progress_views(result.items@);
        match status_value(&ls[i], &stars) {
            Some((m, d)) => {
                let meta = progress_meta_exec(&ls, &d, &keys);
                let item = ParsedProgress {
                    status: mark_status_exec(m),
                    description: string_of(&d),
                    parent_id: meta.parent,
                    linked_item_type: opt_string(meta.linked_type),
                    linked_item_id: opt_string(meta.linked_id),
                    timestamp: opt_string(meta.date),
                };
                result.items.push(item);
                assert(progress_views(result.items@) =~= before + seq![item@]);
            },
            None => {
                assert(progress_views(result.items@) =~= before + Seq::<ProgressView>::empty());
            },
        }
        i = i + 1;
    }
    if result.items.len() == 0 {
        result.add_warning(message("No progress items found in markdown"));
    }
    assert(views(result.warnings@) =~= progress_warnings(s@));
    result
}

/// Parse progress item from markdown
pub fn ParseProgress(markdown: &str, options: &ImportOptions) -> (r: ParseResult<ParsedProgress>)
    ensures
        progress_views(r.items@) == progress_items(markdown@),
        r.errors@.len() == 0,
        views(r.warnings@) == progress_warnings(markdown@),
{
    let v = chars_of(markdown);
    parse_progress_chars(&v)
}

/// A section that names one of the statuses.
pub open spec fn progress_section(x: Seq<char>) -> bool {
    contains_seq(x, "TODO"@) || contains_seq(x, "In Progress"@) || contains_seq(x, "DONE"@)
}

/// The entries of a status section, read with its heading marker put back.
pub open spec fn progress_section_items(x: Seq<char>) -> Seq<ProgressView> {
    if progress_section(x) {
        progress_items("## "@ + x)
    } else {
        Seq::empty()
    }
}

/// The warnings of a status section.
pub open spec fn progress_section_warnings(x: Seq<char>) -> Seq<Seq<char>> {
    if progress_section(x) {
        progress_warnings("## "@ + x)
    } else {
        Seq::empty()
    }
}

/// The entries of every status section; where there are none, those of the
/// whole document.
pub open spec fn progress_list_items(s: Seq<char>) -> Seq<ProgressView> {
    let all = concat_map(split_pat(s, "## "@), |x: Seq<char>| progress_section_items(x));
    if all.len() == 0 {
        progress_items(s)
    } else {
        all
    }
}

/// The warnings that go with `progress_list_items`.
pub open spec fn progress_list_warnings(s: Seq<char>) -> Seq<Seq<char>> {
    let all = concat_map(split_pat(s, "## "@), |x: Seq<char>| progress_section_items(x));
    if all.len() == 0 {
        progress_warnings(s)
    } else {
        concat_map(split_pat(s, "## "@), |x: Seq<char>| progress_section_warnings(x))
    }
}

proof fn lemma_progress_views_concat(a: Seq<ParsedProgress>, b: Seq<ParsedProgress>)
    ensures
        progress_views(a + b) == progress_views(a) + progress_views(b),
{
    assert(progress_views(a + b) =~= progress_views(a) + progress_views(b));
}

/// Parse progress list from markdown
pub fn ParseProgressList(markdown: &str, options: &ImportOptions) -> (r: ParseResult<ParsedProgress>)
    ensures
        progress_views(r.items@) == progress_list_items(markdown@),
        r.errors@.len() == 0,
        views(r.warnings@) == progress_list_warnings(markdown@),
{
    let v = chars_of(markdown);
    let marker = chars_of("## ");
    let todo = chars_of("TODO");
    let in_progress = chars_of("In Progress");
    let done = chars_of("DONE");
    proof {
        reveal_strlit("## ");
    }
    let secs = split_pattern(&v, &marker);
    let ghost sv = vviews(secs@);
    let ghost fi = |x: Seq<char>| progress_section_items(x);
    let ghost fw = |x: Seq<char>| progress_section_warnings(x);
    let mut result: ParseResult<ParsedProgress> = ParseResult::new();
    let mut i: usize = 0;
    assert(sv.take(0) =~= Seq::<Seq<char>>::empty());
    assert(progress_views(result.items@) =~= Seq::<ProgressView>::empty());
    assert(views(result.warnings@) =~= Seq::<Seq<char>>::empty());
    while i < secs.len()
        invariant
            sv == vviews(secs@),
            sv.len() == secs.len(),
            marker@ == "## "@,
            todo@ == "TODO"@,
            in_progress@ == "In Progress"@,
            done@ == "DONE"@,
            fi == (|x: Seq<char>| progress_section_items(x)),
            fw == (|x: Seq<char>| progress_section_warnings(x)),
            i <= secs.len(),
            progress_views(result.items@) == concat_map(sv.take(i as int), fi),
            views(result.warnings@) == concat_map(sv.take(i as int), fw),
            result.errors@.len() == 0,
        decreases secs.len() - i,
    {
        proof {
            lemma_concat_map_step(sv, fi, i as int);
            lemma_concat_map_step(sv, fw, i as int);
            assert(sv[i as int] == secs@[i as int]@);
        }
        let sec = &secs[i];
        if contains_chars(sec, &todo) || contains_chars(sec, &in_progress) || contains_chars(sec, &done) {
            let mut text = slice_vec(&marker, 0, marker.len());
            let mut k: usize = 0;
            while k < sec.len()
                invariant
                    k <= sec.len(),
                    text@ == "## "@ + sec@.take(k as int),
                decreases sec.len() - k,
            {
                text.push(sec[k]);
                assert(sec@.take(k + 1) =~= sec@.take(k as int).push(sec@[k as int]));
                assert(text@ =~= "## "@ + sec@.take(k + 1));
                k = k + 1;
            }
            assert(sec@.take(sec.len() as int) =~= sec@);
            let part = parse_progress_chars(&text);
            let ghost before = result;
            result.absorb(part);
            proof {
                lemma_progress_views_concat(before.items@, part.items@);
                lemma_views_concat(before.warnings@, part.warnings@);
                assert(fi(sv[i as int]) == progress_items("## "@ + secs@[i as int]@));
                assert(fw(sv[i as int]) == progress_warnings("## "@ + secs@[i as int]@));
            }
        } else {
            assert(fi(sv[i as int]) == Seq::<ProgressView>::empty());
            assert(fw(sv[i as int]) == Seq::<Seq<char>>::empty());
            assert(progress_views(result.items@) =~= progress_views(result.items@) + Seq::<ProgressView>::empty());
            assert(views(result.warnings@) =~= views(result.warnings@) + Seq::<Seq<char>>::empty());
        }
        i = i + 1;
    }
    assert(sv.take(secs.len() as int) =~= sv);
    assert(sv == split_pat(markdown@, "## "@));
    if result.items.len() == 0 {
        return parse_progress_chars(&v);
    }
    result
}

// ============================================================================
// Generic Import
// ============================================================================

/// Import data type
#[derive(Debug, Clone, Copy, PartialEq, Eq, Structural)]
pub enum ImportDataType {
    Context,
    Decision,
    Progress,
    Auto,
}

/// The data type that a document's markers show.
pub open spec fn detected_type(s: Seq<char>) -> ImportDataType {
    if contains_seq(s, "# ConPort Contexts Export"@) || (contains_seq(s, "## Metadata"@)
        && contains_seq(s, "Workspace"@)) {
        ImportDataType::Context
    } else if contains_seq(s, "# ConPort Decisions Export"@) || contains_seq(s, "## Decision:"@) {
        ImportDataType::Decision
    } else if contains_seq(s, "# ConPort Progress Export"@) || contains_seq(s, "TODO"@) || contains_seq(
        s,
        "IN_PROGRESS"@,
    ) {
        ImportDataType::Progress
    } else {
        ImportDataType::Auto
    }
}

/// Auto-detect the data type from markdown content
pub fn detect_data_type(markdown: &str) -> (r: ImportDataType)
    ensures
        r == detected_type(markdown@),
{
    let v = chars_of(markdown);
    if contains_chars(&v, &chars_of("# ConPort Contexts Export")) || (contains_chars(
        &v,
        &chars_of("## Metadata"),
    ) && contains_chars(&v, &chars_of("Workspace"))) {
        ImportDataType::Context
    } else if contains_chars(&v, &chars_of("# ConPort Decisions Export")) || contains_chars(
        &v,
        &chars_of("## Decision:"),
    ) {
        ImportDataType::Decision
    } else if contains_chars(&v, &chars_of("# ConPort Progress Export")) || contains_chars(
        &v,
        &chars_of("TODO"),
    ) || contains_chars(&v, &chars_of("IN_PROGRESS")) {
        ImportDataType::Progress
    } else {
        ImportDataType::Auto
    }
}

/// The type that is parsed: the given one, or the detected one for `Auto`.
pub open spec fn chosen_type(s: Seq<char>, t: ImportDataType) -> ImportDataType {
    if t == ImportDataType::Auto {
        detected_type(s)
    } else {
        t
    }
}

/// The number of items, the errors and the warnings of a document parsed as
/// `t`; none for `Auto`.
pub open spec fn markdown_outcome(s: Seq<char>, t: ImportDataType, workspace: Seq<char>) -> Option<
    (nat, Seq<Seq<char>>, Seq<Seq<char>>),
> {
    match t {
        ImportDataType::Context => Some(
            (
                contexts_items(s, workspace).len(),
                contexts_errors(s, workspace),
                contexts_warnings(s, workspace),
            ),
        ),
        ImportDataType::Decision => Some(
            (decisions_items(s).len(), decisions_errors(s), Seq::empty()),
        ),
        ImportDataType::Progress => Some(
            (progress_list_items(s).len(), Seq::empty(), progress_list_warnings(s)),
        ),
        ImportDataType::Auto => None,
    }
}

fn units<T>(items: Vec<T>) -> (r: Vec<()>)
    ensures
        r@.len() == items@.len(),
{
    let mut r: Vec<()> = Vec::new();
    let mut i: usize = 0;
    while i < items.len()
        invariant
            i <= items.len(),
            r@.len() == i,
        decreases items.len() - i,
    {
        r.push(());
        i = i + 1;
    }
    r
}

/// Parse markdown based on detected or specified data type
pub fn ParseMarkdown(markdown: &str, data_type: ImportDataType, options: &ImportOptions) -> (r: Result<
    ParseResult<()>,
    String,
>)
    ensures
        match markdown_outcome(markdown@, chosen_type(markdown@, data_type), options.workspace_id@) {
            Some(o) => r matches Ok(p) && p.items@.len() == o.0 && views(p.errors@) == o.1 && views(
                p.warnings@,
            ) == o.2,
            None => r matches Err(e) && e@ == "Unable to auto-detect data type"@,
        },
{
    let detected = if data_type == ImportDataType::Auto {
        detect_data_type(markdown)
    } else {
        data_type
    };
    match detected {
        ImportDataType::Context => {
            let result = ParseContexts(markdown, options);
            Ok(ParseResult { items: units(result.items), errors: result.errors, warnings: result.warnings })
        },
        ImportDataType::Decision => {
            let result = ParseDecisions(markdown, options);
            assert(views(result.warnings@) =~= Seq::<Seq<char>>::empty());
            Ok(ParseResult { items: units(result.items), errors: result.errors, warnings: result.warnings })
        },
        ImportDataType::Progress => {
            let result = ParseProgressList(markdown, options);
            assert(views(result.errors@) =~= Seq::<Seq<char>>::empty());
            Ok(ParseResult { items: units(result.items), errors: result.errors, warnings: result.warnings })
        },
        ImportDataType::Auto => Err(message("Unable to auto-detect data type")),
    }
}

} // verus!
