//! Export of contexts, decisions and progress entries to Markdown.

use vstd::prelude::*;
use vstd::string::StringExecFns;

use crate::text::{decimal, decimal_int, join, join_strings, push_decimal, push_decimal_i64, views};

verus! {

/// Export format options
#[derive(Debug, Clone, Copy, PartialEq, Eq, Structural)]
pub enum ExportFormat {
    Markdown,
    Json,
    Yaml,
}

impl Default for ExportFormat {
    fn default() -> (r: Self)
        ensures
            r == ExportFormat::Markdown,
    {
        ExportFormat::Markdown
    }
}

/// Export options
#[derive(Debug, Clone, Copy)]
pub struct ExportOptions {
    pub include_metadata: bool,
    pub include_timestamps: bool,
    pub format: ExportFormat,
    pub include_tags: bool,
}

impl Default for ExportOptions {
    fn default() -> (r: Self)
        ensures
            r.include_metadata,
            r.include_timestamps,
            r.format == ExportFormat::Markdown,
            r.include_tags,
    {
        ExportOptions {
            include_metadata: true,
            include_timestamps: true,
            format: ExportFormat::Markdown,
            include_tags: true,
        }
    }
}

impl ExportOptions {
    pub fn new() -> (r: Self)
        ensures
            r.include_metadata,
            r.include_timestamps,
            r.format == ExportFormat::Markdown,
            r.include_tags,
    {
        Self::default()
    }

    pub fn with_format(self, format: ExportFormat) -> (r: Self)
        ensures
            r == (ExportOptions { format, ..self }),
    {
        ExportOptions { format, ..self }
    }

    pub fn with_metadata(self, enabled: bool) -> (r: Self)
        ensures
            r == (ExportOptions { include_metadata: enabled, ..self }),
    {
        ExportOptions { include_metadata: enabled, ..self }
    }

    pub fn with_timestamps(self, enabled: bool) -> (r: Self)
        ensures
            r == (ExportOptions { include_timestamps: enabled, ..self }),
    {
        ExportOptions { include_timestamps: enabled, ..self }
    }

    pub fn with_tags(self, enabled: bool) -> (r: Self)
        ensures
            r == (ExportOptions { include_tags: enabled, ..self }),
    {
        ExportOptions { include_tags: enabled, ..self }
    }
}

/// A line `prefix value suffix` where the value is given, nothing otherwise.
pub open spec fn opt_line(prefix: Seq<char>, v: Option<String>, suffix: Seq<char>) -> Seq<char> {
    match v {
        Some(s) => prefix + s@ + suffix,
        None => Seq::empty(),
    }
}

fn push_opt_line(out: &mut String, prefix: &str, v: &Option<String>, suffix: &str)
    ensures
        final(out)@ == old(out)@ + opt_line(prefix@, *v, suffix@),
{
    match v {
        Some(s) => {
            out.append(prefix);
            out.append(s.as_str());
            out.append(suffix);
            assert(final(out)@ =~= old(out)@ + (prefix@ + s@ + suffix@));
        },
        None => {
            assert(old(out)@ + Seq::<char>::empty() =~= old(out)@);
        },
    }
}

// ============================================================================
// Context Export
// ============================================================================

/// Context export format
pub struct ContextExport {
    pub name: String,
    pub content: String,
    pub workspace_path: String,
    pub created_at: Option<String>,
    pub updated_at: Option<String>,
}

impl ContextExport {
    pub fn new(name: String, content: String, workspace_path: String) -> (r: Self)
        ensures
            r.name == name,
            r.content == content,
            r.workspace_path == workspace_path,
            r.created_at is None,
            r.updated_at is None,
    {
        ContextExport { name, content, workspace_path, created_at: None, updated_at: None }
    }

    pub fn with_timestamps(self, created_at: String, updated_at: String) -> (r: Self)
        ensures
            r.name == self.name,
            r.content == self.content,
            r.workspace_path == self.workspace_path,
            r.created_at == Some(created_at),
            r.updated_at == Some(updated_at),
    {
        ContextExport { created_at: Some(created_at), updated_at: Some(updated_at), ..self }
    }
}

/// The metadata section of a context: its workspace and, where timestamps
/// are wanted, its creation and update times.
pub open spec fn context_metadata(c: ContextExport, o: ExportOptions) -> Seq<char> {
    if o.include_metadata {
        "## Metadata\n\n"@ + "- **Workspace**: `"@ + c.workspace_path@ + "`\n"@ + (if o.include_timestamps {
            opt_line("- **Created**: "@, c.created_at, "\n"@) + opt_line(
                "- **Updated**: "@,
                c.updated_at,
                "\n"@,
            )
        } else {
            Seq::empty()
        }) + "\n"@
    } else {
        Seq::empty()
    }
}

/// The Markdown of one context: a title, the metadata section where it is
/// wanted, and the content section.
pub open spec fn context_markdown(c: ContextExport, o: ExportOptions) -> Seq<char> {
    "# "@ + c.name@ + "\n\n"@ + context_metadata(c, o) + "## Content\n\n"@ + c.content@ + "\n"@
}

/// Export context to markdown format
pub fn ExportContext(context: &ContextExport, options: &ExportOptions) -> (r: String)
    ensures
        r@ == context_markdown(*context, *options),
{
    let mut output = String::from_str("# ");
    output.append(context.name.as_str());
    output.append("\n\n");
    let ghost head = output@;
    if options.include_metadata {
        output.append("## Metadata\n\n");
        output.append("- **Workspace**: `");
        output.append(context.workspace_path.as_str());
        output.append("`\n");
        let ghost before_ts = output@;
        if options.include_timestamps {
            push_opt_line(&mut output, "- **Created**: ", &context.created_at, "\n");
            push_opt_line(&mut output, "- **Updated**: ", &context.updated_at, "\n");
        }
        output.append("\n");
        assert(output@ =~= head + context_metadata(*context, *options));
    } else {
        assert(output@ =~= head + context_metadata(*context, *options));
    }
    output.append("## Content\n\n");
    output.append(context.content.as_str());
    output.append("\n");
    assert(output@ =~= context_markdown(*context, *options));
    output
}

/// The contexts one after the other, separated by horizontal rules.
pub open spec fn contexts_body(cs: Seq<ContextExport>, o: ExportOptions) -> Seq<char>
    decreases cs.len(),
{
    if cs.len() == 0 {
        Seq::empty()
    } else {
        contexts_body(cs.drop_last(), o) + (if cs.len() > 1 {
            "\n---\n\n"@
        } else {
            Seq::empty()
        }) + context_markdown(cs.last(), o)
    }
}

/// The Markdown of a list of contexts: a notice where there are none, else a
/// title, the number of contexts and the contexts.
pub open spec fn contexts_markdown(cs: Seq<ContextExport>, o: ExportOptions) -> Seq<char> {
    if cs.len() == 0 {
        "# No Contexts Found\n\nNo contexts were found to export.\n"@
    } else {
        "# ConPort Contexts Export\n\n"@ + "Exported "@ + decimal(cs.len()) + " context(s)\n\n"@
            + contexts_body(cs, o)
    }
}

/// The contexts of a list, exported one by one.
pub open spec fn context_parts(cs: Seq<ContextExport>, o: ExportOptions) -> Seq<Seq<char>> {
    cs.map_values(|c: ContextExport| context_markdown(c, o))
}

/// A list of contexts is exported as a notice where it is empty, else as its
/// title and count followed by the contexts exported one by one and joined
/// by a horizontal rule.
pub proof fn lemma_contexts_join(cs: Seq<ContextExport>, o: ExportOptions)
    ensures
        contexts_markdown(cs, o) == (if cs.len() == 0 {
            "# No Contexts Found\n\nNo contexts were found to export.\n"@
        } else {
            "# ConPort Contexts Export\n\n"@ + "Exported "@ + decimal(cs.len()) + " context(s)\n\n"@ + join(
                context_parts(cs, o),
                "\n---\n\n"@,
            )
        }),

{
    lemma_contexts_body_join(cs, o);
}

proof fn lemma_contexts_body_join(cs: Seq<ContextExport>, o: ExportOptions)
    ensures
        contexts_body(cs, o) == join(context_parts(cs, o), "\n---\n\n"@),
    decreases cs.len(),
{
    let ps = context_parts(cs, o);
    if cs.len() == 0 {
        assert(ps.len() == 0);
    } else if cs.len() == 1 {
        assert(cs.drop_last().len() == 0);
        assert(contexts_body(cs.drop_last(), o) == Seq::<char>::empty());
        assert(ps.len() == 1 && ps[0] == context_markdown(cs[0], o));
        assert(cs.last() == cs[0]);
        assert(Seq::<char>::empty() + Seq::<char>::empty() + context_markdown(cs.last(), o) =~= context_markdown(
            cs.last(),
            o,
        ));
    } else {
        lemma_contexts_body_join(cs.drop_last(), o);
        assert(context_parts(cs.drop_last(), o) =~= ps.drop_last());
        assert(ps.len() == cs.len());
        assert(ps.last() == context_markdown(cs.last(), o));
    }
}

/// Export multiple contexts to a single markdown document
pub fn ExportContexts(contexts: &[ContextExport], options: &ExportOptions) -> (r: String)
    ensures
        r@ == contexts_markdown(contexts@, *options),
{
    if contexts.len() == 0 {
        return String::from_str("# No Contexts Found\n\nNo contexts were found to export.\n");
    }
    let mut output = String::from_str("# ConPort Contexts Export\n\n");
    output.append("Exported ");
    push_decimal(&mut output, contexts.len() as u64);
    output.append(" context(s)\n\n");
    let ghost head = output@;
    let mut i: usize = 0;
    while i < contexts.len()
        invariant
            i <= contexts.len(),
            output@ == head + contexts_body(contexts@.take(i as int), *options),
        decreases contexts.len() - i,
    {
        assert(contexts@.take(i + 1).drop_last() =~= contexts@.take(i as int));
        assert(contexts@.take(i + 1).last() == contexts@[i as int]);
        let ghost before = output@;
        if i > 0 {
            output.append("\n---\n\n");
        }
        let part = ExportContext(&contexts[i], options);
        output.append(part.as_str());
        assert(output@ =~= head + contexts_body(contexts@.take(i + 1), *options));
        i = i + 1;
    }
    assert(contexts@.take(contexts.len() as int) =~= contexts@);
    output
}

// ============================================================================
// Decision Export
// ============================================================================

/// Decision export format
pub struct DecisionExport {
    pub id: String,
    pub summary: String,
    pub rationale: Option<String>,
    pub implementation_details: Option<String>,
    pub tags: Vec<String>,
    pub timestamp: Option<String>,
}

impl DecisionExport {
    pub fn new(id: String, summary: String) -> (r: Self)
        ensures
            r.id == id,
            r.summary == summary,
            r.rationale is None,
            r.implementation_details is None,
            r.tags@.len() == 0,
            r.timestamp is None,
    {
        DecisionExport {
            id,
            summary,
            rationale: None,
            implementation_details: None,
            tags: Vec::new(),
            timestamp: None,
        }
    }

    pub fn with_rationale(self, rationale: String) -> (r: Self)
        ensures
            r == (DecisionExport { rationale: Some(rationale), ..self }),
    {
        DecisionExport { rationale: Some(rationale), ..self }
    }

    pub fn with_implementation(self, details: String) -> (r: Self)
        ensures
            r == (DecisionExport { implementation_details: Some(details), ..self }),
    {
        DecisionExport { implementation_details: Some(details), ..self }
    }

    pub fn with_tags(self, tags: Vec<String>) -> (r: Self)
        ensures
            r == (DecisionExport { tags, ..self }),
    {
        DecisionExport { tags, ..self }
    }

    pub fn with_timestamp(self, timestamp: String) -> (r: Self)
        ensures
            r == (DecisionExport { timestamp: Some(timestamp), ..self }),
    {
        DecisionExport { timestamp: Some(timestamp), ..self }
    }
}

/// The metadata section of a decision, written where any of metadata,
/// timestamps or tags is wanted: its identifier, its date where timestamps
/// are wanted, its tags where tags are wanted and there are some.
pub open spec fn decision_metadata(d: DecisionExport, o: ExportOptions) -> Seq<char> {
    if o.include_metadata || o.include_timestamps || o.include_tags {
        "### Metadata\n\n"@ + "- **ID**: `"@ + d.id@ + "`\n"@ + (if o.include_timestamps {
            opt_line("- **Date**: "@, d.timestamp, "\n"@)
        } else {
            Seq::empty()
        }) + (if o.include_tags && d.tags@.len() > 0 {
            "- **Tags**: "@ + join(views(d.tags@), ", "@) + "\n"@
        } else {
            Seq::empty()
        }) + "\n"@
    } else {
        Seq::empty()
    }
}

/// The Markdown of one decision: a heading with its summary, the metadata
/// section, and the rationale and implementation sections where given.
pub open spec fn decision_markdown(d: DecisionExport, o: ExportOptions) -> Seq<char> {
    "## Decision: "@ + d.summary@ + "\n\n"@ + decision_metadata(d, o) + opt_line(
        "### Rationale\n\n"@,
        d.rationale,
        "\n\n"@,
    ) + opt_line("### Implementation\n\n"@, d.implementation_details, "\n"@)
}

fn push_decision_metadata(out: &mut String, decision: &DecisionExport, options: &ExportOptions)
    ensures
        final(out)@ == old(out)@ + decision_metadata(*decision, *options),
{
    if options.include_metadata || options.include_timestamps || options.include_tags {
        out.append("### Metadata\n\n");
        out.append("- **ID**: `");
        out.append(decision.id.as_str());
        out.append("`\n");
        let ghost a = out@;
        if options.include_timestamps {
            push_opt_line(out, "- **Date**: ", &decision.timestamp, "\n");
        }
        let ghost b = out@;
        if options.include_tags && decision.tags.len() > 0 {
            let tags_str = join_strings(&decision.tags, ", ");
            out.append("- **Tags**: ");
            out.append(tags_str.as_str());
            out.append("\n");
        }
        out.append("\n");
        assert(final(out)@ =~= old(out)@ + decision_metadata(*decision, *options));
    } else {
        assert(old(out)@ + Seq::<char>::empty() =~= old(out)@);
    }
}

/// Export decision to markdown format
pub fn ExportDecision(decision: &DecisionExport, options: &ExportOptions) -> (r: String)
    ensures
        r@ == decision_markdown(*decision, *options),
{
    let mut output = String::from_str("## Decision: ");
    output.append(decision.summary.as_str());
    output.append("\n\n");
    push_decision_metadata(&mut output, decision, options);
    push_opt_line(&mut output, "### Rationale\n\n", &decision.rationale, "\n\n");
    push_opt_line(&mut output, "### Implementation\n\n", &decision.implementation_details, "\n");
    assert(output@ =~= decision_markdown(*decision, *options));
    output
}

/// The decisions one after the other, each followed by a horizontal rule.
pub open spec fn decisions_body(ds: Seq<DecisionExport>, o: ExportOptions) -> Seq<char>
    decreases ds.len(),
{
    if ds.len() == 0 {
        Seq::empty()
    } else {
        decisions_body(ds.drop_last(), o) + decision_markdown(ds.last(), o) + "\n---\n\n"@
    }
}

/// The Markdown of a list of decisions: a notice where there are none, else a
/// title, the number of decisions and the decisions.
pub open spec fn decisions_markdown(ds: Seq<DecisionExport>, o: ExportOptions) -> Seq<char> {
    if ds.len() == 0 {
        "# No Decisions Found\n\nNo decisions were found to export.\n"@
    } else {
        "# ConPort Decisions Export\n\n"@ + "Exported "@ + decimal(ds.len()) + " decision(s)\n\n"@
            + decisions_body(ds, o)
    }
}

/// Export multiple decisions to markdown format
pub fn ExportDecisions(decisions: &[DecisionExport], options: &ExportOptions) -> (r: String)
    ensures
        r@ == decisions_markdown(decisions@, *options),
{
    if decisions.len() == 0 {
        return String::from_str("# No Decisions Found\n\nNo decisions were found to export.\n");
    }
    let mut output = String::from_str("# ConPort Decisions Export\n\n");
    output.append("Exported ");
    push_decimal(&mut output, decisions.len() as u64);
    output.append(" decision(s)\n\n");
    let ghost head = output@;
    let mut i: usize = 0;
    while i < decisions.len()
        invariant
            i <= decisions.len(),
            output@ == head + decisions_body(decisions@.take(i as int), *options),
        decreases decisions.len() - i,
    {
        assert(decisions@.take(i + 1).drop_last() =~= decisions@.take(i as int));
        assert(decisions@.take(i + 1).last() == decisions@[i as int]);
        let part = ExportDecision(&decisions[i], options);
        output.append(part.as_str());
        output.append("\n---\n\n");
        assert(output@ =~= head + decisions_body(decisions@.take(i + 1), *options));
        i = i + 1;
    }
    assert(decisions@.take(decisions.len() as int) =~= decisions@);
    output
}


// ============================================================================
// Progress Export
// ============================================================================

/// Progress status enum for export
#[derive(Debug, Clone, Copy, PartialEq, Eq, Structural)]
pub enum ProgressStatus {
    Todo,
    InProgress,
    Done,
}

/// The name of a status.
pub open spec fn status_name(s: ProgressStatus) -> Seq<char> {
    match s {
        ProgressStatus::Todo => "TODO"@,
        ProgressStatus::InProgress => "IN_PROGRESS"@,
        ProgressStatus::Done => "DONE"@,
    }
}

impl ProgressStatus {
    /// The name of the status, as its display form writes it.
    pub fn to_string(&self) -> (r: String)
        ensures
            r@ == status_name(*self),
    {
        match self {
            ProgressStatus::Todo => String::from_str("TODO"),
            ProgressStatus::InProgress => String::from_str("IN_PROGRESS"),
            ProgressStatus::Done => String::from_str("DONE"),
        }
    }
}

/// Progress export format
pub struct ProgressExport {
    pub id: String,
    pub status: ProgressStatus,
    pub description: String,
    pub parent_id: Option<i64>,
    pub linked_item_type: Option<String>,
    pub linked_item_id: Option<String>,
    pub timestamp: Option<String>,
}

impl ProgressExport {
    pub fn new(id: String, status: ProgressStatus, description: String) -> (r: Self)
        ensures
            r.id == id,
            r.status == status,
            r.description == description,
            r.parent_id is None,
            r.linked_item_type is None,
            r.linked_item_id is None,
            r.timestamp is None,
    {
        ProgressExport {
            id,
            status,
            description,
            parent_id: None,
            linked_item_type: None,
            linked_item_id: None,
            timestamp: None,
        }
    }

    pub fn with_parent(self, parent_id: i64) -> (r: Self)
        ensures
            r == (ProgressExport { parent_id: Some(parent_id), ..self }),
    {
        ProgressExport { parent_id: Some(parent_id), ..self }
    }

    pub fn with_link(self, item_type: String, item_id: String) -> (r: Self)
        ensures
            r == (ProgressExport {
                linked_item_type: Some(item_type),
                linked_item_id: Some(item_id),
                ..self
            }),
    {
        ProgressExport { linked_item_type: Some(item_type), linked_item_id: Some(item_id), ..self }
    }

    pub fn with_timestamp(self, timestamp: String) -> (r: Self)
        ensures
            r == (ProgressExport { timestamp: Some(timestamp), ..self }),
    {
        ProgressExport { timestamp: Some(timestamp), ..self }
    }
}

/// The badge of a status: its symbol and its name in bold.
pub open spec fn status_badge_text(s: ProgressStatus) -> Seq<char> {
    match s {
        ProgressStatus::Todo => "\u{1F532} **TODO**"@,
        ProgressStatus::InProgress => "\u{1F504} **IN_PROGRESS**"@,
        ProgressStatus::Done => "\u{2705} **DONE**"@,
    }
}

/// Status badge for progress items
fn status_badge(status: &ProgressStatus) -> (r: String)
    ensures
        r@ == status_badge_text(*status),
{
    match status {
        ProgressStatus::Todo => String::from_str("\u{1F532} **TODO**"),
        ProgressStatus::InProgress => String::from_str("\u{1F504} **IN_PROGRESS**"),
        ProgressStatus::Done => String::from_str("\u{2705} **DONE**"),
    }
}

/// The indented metadata lines of a progress entry, written where metadata is
/// wanted: its identifier, its parent, its linked item where both parts of the
/// link are given, and its date where timestamps are wanted.
pub open spec fn progress_metadata(p: ProgressExport, o: ExportOptions) -> Seq<char> {
    if o.include_metadata {
        "  - **ID**: `"@ + p.id@ + "`\n"@ + (match p.parent_id {
            Some(parent) => "  - **Parent ID**: `"@ + decimal_int(parent as int) + "`\n"@,
            None => Seq::empty(),
        }) + (match (p.linked_item_type, p.linked_item_id) {
            (Some(t), Some(i)) => "  - **Linked**: "@ + t@ + " `"@ + i@ + "`\n"@,
            _ => Seq::empty(),
        }) + (if o.include_timestamps {
            opt_line("  - **Date**: "@, p.timestamp, "\n"@)
        } else {
            Seq::empty()
        })
    } else {
        Seq::empty()
    }
}

/// The Markdown of one progress entry: a list item with its badge and
/// description, and its metadata lines.
pub open spec fn progress_markdown(p: ProgressExport, o: ExportOptions) -> Seq<char> {
    "- "@ + status_badge_text(p.status) + " "@ + p.description@ + "\n"@ + progress_metadata(p, o)
}

/// Export progress to markdown format
#[verifier::rlimit(40)]
#[verifier::spinoff_prover]
pub fn ExportProgress(progress: &ProgressExport, options: &ExportOptions) -> (r: String)
    ensures
        r@ == progress_markdown(*progress, *options),
{
    let mut output = String::from_str("- ");
    let badge = status_badge(&progress.status);
    output.append(badge.as_str());
    output.append(" ");
    output.append(progress.description.as_str());
    output.append("\n");
    let ghost head = output@;
    if options.include_metadata {
        output.append("  - **ID**: `");
        output.append(progress.id.as_str());
        output.append("`\n");
        let ghost a = output@;
        if let Some(parent) = progress.parent_id {
            output.append("  - **Parent ID**: `");
            push_decimal_i64(&mut output, parent);
            output.append("`\n");
        }
        let ghost b = output@;
        match (&progress.linked_item_type, &progress.linked_item_id) {
            (Some(item_type), Some(item_id)) => {
                output.append("  - **Linked**: ");
                output.append(item_type.as_str());
                output.append(" `");
                output.append(item_id.as_str());
                output.append("`\n");
            },
            _ => {},
        }
        let ghost c = output@;
        if options.include_timestamps {
            push_opt_line(&mut output, "  - **Date**: ", &progress.timestamp, "\n");
        }
        assert(output@ =~= head + progress_metadata(*progress, *options));
    } else {
        assert(output@ =~= head + progress_metadata(*progress, *options));
    }
    assert(output@ =~= progress_markdown(*progress, *options));
    output
}

/// The entries of the given status, one after the other, in their order.
pub open spec fn status_section(
    items: Seq<ProgressExport>,
    status: ProgressStatus,
    o: ExportOptions,
) -> Seq<char>
    decreases items.len(),
{
    if items.len() == 0 {
        Seq::empty()
    } else {
        status_section(items.drop_last(), status, o) + if items.last().status == status {
            progress_markdown(items.last(), o)
        } else {
            Seq::empty()
        }
    }
}

/// How many entries have the given status.
pub open spec fn status_count(items: Seq<ProgressExport>, status: ProgressStatus) -> nat
    decreases items.len(),
{
    if items.len() == 0 {
        0
    } else {
        status_count(items.drop_last(), status) + if items.last().status == status {
            1nat
        } else {
            0nat
        }
    }
}

/// The Markdown of a list of progress entries: a notice where there are none,
/// else a title, the number of entries and one section per status that has
/// entries, in the order TODO, in progress, done.
pub open spec fn progress_list_markdown(items: Seq<ProgressExport>, o: ExportOptions) -> Seq<char> {
    if items.len() == 0 {
        "# No Progress Found\n\nNo progress entries were found to export.\n"@
    } else {
        "# ConPort Progress Export\n\n"@ + "Exported "@ + decimal(items.len())
            + " progress entry(s)\n\n"@ + (if status_count(items, ProgressStatus::Todo) > 0 {
            "## \u{1F532} TODO\n\n"@ + status_section(items, ProgressStatus::Todo, o) + "\n"@
        } else {
            Seq::empty()
        }) + (if status_count(items, ProgressStatus::InProgress) > 0 {
            "## \u{1F504} In Progress\n\n"@ + status_section(items, ProgressStatus::InProgress, o)
                + "\n"@
        } else {
            Seq::empty()
        }) + (if status_count(items, ProgressStatus::Done) > 0 {
            "## \u{2705} Done\n\n"@ + status_section(items, ProgressStatus::Done, o)
        } else {
            Seq::empty()
        })
    }
}

/// Appends the entries of one status and says how many there were.
fn push_status_section(
    out: &mut String,
    items: &[ProgressExport],
    status: ProgressStatus,
    options: &ExportOptions,
) -> (n: usize)
    ensures
        final(out)@ == old(out)@ + status_section(items@, status, *options),
        n == status_count(items@, status),
{
    let mut n: usize = 0;
    let mut i: usize = 0;
    while i < items.len()
        invariant
            i <= items.len(),
            n <= i,
            out@ == old(out)@ + status_section(items@.take(i as int), status, *options),
            n == status_count(items@.take(i as int), status),
        decreases items.len() - i,
    {
        assert(items@.take(i + 1).drop_last() =~= items@.take(i as int));
        assert(items@.take(i + 1).last() == items@[i as int]);
        if items[i].status == status {
            let part = ExportProgress(&items[i], options);
            out.append(part.as_str());
            n = n + 1;
        }
        assert(out@ =~= old(out)@ + status_section(items@.take(i + 1), status, *options));
        i = i + 1;
    }
    assert(items@.take(items.len() as int) =~= items@);
    n
}

/// Export multiple progress items to markdown format, grouped by status
pub fn ExportProgressList(progress_items: &[ProgressExport], options: &ExportOptions) -> (r: String)
    ensures
        r@ == progress_list_markdown(progress_items@, *options),
{
    if progress_items.len() == 0 {
        return String::from_str(
            "# No Progress Found\n\nNo progress entries were found to export.\n",
        );
    }
    let mut output = String::from_str("# ConPort Progress Export\n\n");
    output.append("Exported ");
    push_decimal(&mut output, progress_items.len() as u64);
    output.append(" progress entry(s)\n\n");
    let ghost head = output@;
    let mut todo = String::new();
    let n_todo = push_status_section(&mut todo, progress_items, ProgressStatus::Todo, options);
    let mut in_progress = String::new();
    let n_in_progress = push_status_section(
        &mut in_progress,
        progress_items,
        ProgressStatus::InProgress,
        options,
    );
    let mut done = String::new();
    let n_done = push_status_section(&mut done, progress_items, ProgressStatus::Done, options);
    if n_todo > 0 {
        output.append("## \u{1F532} TODO\n\n");
        output.append(todo.as_str());
        output.append("\n");
    }
    let ghost a = output@;
    if n_in_progress > 0 {
        output.append("## \u{1F504} In Progress\n\n");
        output.append(in_progress.as_str());
        output.append("\n");
    }
    let ghost b = output@;
    if n_done > 0 {
        output.append("## \u{2705} Done\n\n");
        output.append(done.as_str());
    }
    assert(output@ =~= progress_list_markdown(progress_items@, *options));
    output
}

/// Each progress entry lands in exactly one status section: the three section
/// counts add up to the number of entries.
pub proof fn lemma_status_sections_partition(items: Seq<ProgressExport>)
    ensures
        status_count(items, ProgressStatus::Todo) + status_count(items, ProgressStatus::InProgress)
            + status_count(items, ProgressStatus::Done) == items.len(),
    decreases items.len(),
{
    if items.len() > 0 {
        lemma_status_sections_partition(items.drop_last());
    }
}

// ============================================================================
// Generic Export
// ============================================================================

/// Export result containing the formatted output
pub struct ExportResult {
    pub content: String,
    pub item_count: usize,
    pub export_type: String,
}

impl ExportResult {
    pub fn new(content: String, item_count: usize, export_type: &str) -> (r: Self)
        ensures
            r.content == content,
            r.item_count == item_count,
            r.export_type@ == export_type@,
    {
        ExportResult { content, item_count, export_type: to_string(export_type) }
    }
}

/// Convert string to owned string (helper for export type)
fn to_string(s: &str) -> (r: String)
    ensures
        r@ == s@,
{
    s.to_string()
}

} // verus!
