//! Import and export endpoints: defaults of their requests, the Markdown
//! file of exported entries, and the tallies of an import.

use vstd::prelude::*;
use vstd::string::StringExecFns;

use crate::handlers::link::bad_request;
use crate::protocol::response::{Error, ErrorCode};
use crate::text::{decimal, push_decimal};

verus! {

broadcast use vstd::string::group_string_axioms;

/// Request for exporting data to markdown
pub struct ExportMarkdownRequest {
    pub WorkspaceId: String,
    pub ItemTypes: Vec<String>,
    pub OutputPath: Option<String>,
    pub IncludeMetadata: Option<bool>,
}

/// Response for export operation
pub struct ExportMarkdownResponse {
    pub Success: bool,
    pub FilesCreated: Vec<String>,
    pub TotalItems: usize,
    pub OutputDirectory: String,
    pub Message: String,
}

/// Request for importing data from markdown
pub struct ImportMarkdownRequest {
    pub WorkspaceId: String,
    pub InputPath: String,
    pub MergeStrategy: Option<String>,
    pub ValidateOnly: Option<bool>,
}

/// Response for import operation
pub struct ImportMarkdownResponse {
    pub Success: bool,
    pub ItemsImported: usize,
    pub ItemsSkipped: usize,
    pub ItemsFailed: usize,
    pub Errors: Vec<String>,
    pub Message: String,
}

/// Markdown file entry for import/export
pub struct MarkdownEntry {
    pub ItemType: String,
    pub ItemId: String,
    pub Frontmatter: serde_json::Value,
    pub Content: String,
}

/// The YAML text that `serde_yaml::to_string` writes for a JSON value, none
/// where it fails.
pub uninterp spec fn yaml_of(v: serde_json::Value) -> Option<Seq<char>>;

/// The text of an optional string.
pub open spec fn opt_text(y: Option<String>) -> Option<Seq<char>> {
    match y {
        Some(t) => Some(t@),
        None => None,
    }
}

/// Calls `serde_yaml::to_string` on a JSON value and drops the error; the
/// contract names the text.
#[verifier::external_body]
fn yaml_text(v: &serde_json::Value) -> (r: Option<String>)
    ensures
        opt_text(r) == yaml_of(*v),
{
    serde_yaml::to_string(v).ok()
}

/// The Markdown of one entry: a front matter block with its type, its id and
/// the YAML of its front matter where there is one, then its content.
pub open spec fn entry_text(e: MarkdownEntry, yaml: Option<String>) -> Seq<char> {
    "---\n"@ + "item_type: "@ + e.ItemType@ + "\n"@ + "item_id: "@ + e.ItemId@ + "\n"@ + (match yaml {
        Some(y) => y@,
        None => Seq::empty(),
    }) + "---\n\n"@ + e.Content@ + "\n\n"@
}

/// The Markdown of entries, one after the other.
pub open spec fn entries_text(es: Seq<MarkdownEntry>, ys: Seq<Option<String>>) -> Seq<char>
    decreases es.len(),
{
    if es.len() == 0 {
        Seq::empty()
    } else {
        entries_text(es.drop_last(), ys.take(es.len() - 1)) + entry_text(es.last(), ys[es.len() - 1])
    }
}

/// HandleExportMarkdown - Export ConPort data as markdown files
pub struct HandleExportMarkdown;

impl HandleExportMarkdown {
    /// Metadata is exported unless the request says otherwise.
    pub fn IncludeMetadata(Payload: &ExportMarkdownRequest) -> (r: bool)
        ensures
            r == match Payload.IncludeMetadata {
                Some(b) => b,
                None => true,
            },
    {
        match Payload.IncludeMetadata {
            Some(b) => b,
            None => true,
        }
    }

    /// The directory to export to: the one asked for, else one named after
    /// the workspace.
    pub fn OutputPath(Payload: &ExportMarkdownRequest) -> (r: String)
        ensures
            r@ == match Payload.OutputPath {
                Some(p) => p@,
                None => "./conport_export_"@ + Payload.WorkspaceId@,
            },
    {
        match &Payload.OutputPath {
            Some(p) => p.clone(),
            None => {
                let mut r = String::from_str("./conport_export_");
                r.append(Payload.WorkspaceId.as_str());
                r
            },
        }
    }

    /// The file that entries of a type are exported to.
    pub fn FileName(ItemType: &str) -> (r: String)
        ensures
            r@ == ItemType@ + ".md"@,
    {
        let mut r = String::from_str(ItemType);
        r.append(".md");
        r
    }

    /// The Markdown of entries whose front matter is written as `yamls`.
    pub fn FormatEntries(Items: &[MarkdownEntry], yamls: &Vec<Option<String>>) -> (r: String)
        requires
            yamls@.len() == Items@.len(),
        ensures
            r@ == entries_text(Items@, yamls@),
    {
        let mut out = String::new();
        let mut i: usize = 0;
        while i < Items.len()
            invariant
                yamls@.len() == Items@.len(),
                i <= Items.len(),
                out@ == entries_text(Items@.take(i as int), yamls@.take(i as int)),
            decreases Items.len() - i,
        {
            assert(Items@.take(i + 1).drop_last() =~= Items@.take(i as int));
            assert(yamls@.take(i + 1).take(i as int) =~= yamls@.take(i as int));
            let item = &Items[i];
            out.append("---\n");
            out.append("item_type: ");
            out.append(item.ItemType.as_str());
            out.append("\n");
            out.append("item_id: ");
            out.append(item.ItemId.as_str());
            out.append("\n");
            match &yamls[i] {
                Some(y) => out.append(y.as_str()),
                None => {},
            }
            out.append("---\n\n");
            out.append(item.Content.as_str());
            out.append("\n\n");
            assert(out@ =~= entries_text(Items@.take(i + 1), yamls@.take(i + 1)));
            i = i + 1;
        }
        assert(Items@.take(Items.len() as int) =~= Items@);
        assert(yamls@.take(Items.len() as int) =~= yamls@);
        out
    }

    /// The Markdown of entries, with each front matter written as YAML where
    /// it can be.
    pub fn FormatMarkdown(Items: &[MarkdownEntry]) -> (r: String)
        ensures
            exists|ys: Seq<Option<String>>|
                {
                    &&& ys.len() == Items@.len()
                    &&& forall|k: int| 0 <= k < ys.len() ==> opt_text(#[trigger] ys[k]) == yaml_of(Items@[k].Frontmatter)
                    &&& r@ == entries_text(Items@, ys)
                },
    {
        let mut yamls: Vec<Option<String>> = Vec::new();
        let mut i: usize = 0;
        while i < Items.len()
            invariant
                i <= Items.len(),
                yamls@.len() == i,
                forall|k: int| 0 <= k < i ==> opt_text(#[trigger] yamls@[k]) == yaml_of(Items@[k].Frontmatter),
            decreases Items.len() - i,
        {
            yamls.push(yaml_text(&Items[i].Frontmatter));
            i = i + 1;
        }
        let r = Self::FormatEntries(Items, &yamls);
        assert(yamls@.len() == Items@.len() && r@ == entries_text(Items@, yamls@));
        r
    }

    /// The response to an export of `TotalItems` entries.
    pub fn Respond(FilesCreated: Vec<String>, TotalItems: usize, OutputDirectory: String) -> (r: ExportMarkdownResponse)
        ensures
            r.Success,
            r.FilesCreated@ == FilesCreated@,
            r.TotalItems == TotalItems,
            r.OutputDirectory == OutputDirectory,
            r.Message@ == "Successfully exported "@ + decimal(TotalItems as nat) + " items"@,
    {
        let mut m = String::from_str("Successfully exported ");
        push_decimal(&mut m, TotalItems as u64);
        m.append(" items");
        ExportMarkdownResponse { Success: true, FilesCreated, TotalItems, OutputDirectory, Message: m }
    }
}

/// The outcome of importing one file: the numbers of items imported,
/// skipped and failed, or the message of the failure.
pub struct ImportFileOutcome {
    pub File: String,
    pub Result: Result<(usize, usize, usize), String>,
}

/// The numbers of imported, skipped and failed items over the outcomes; a
/// failed file counts as one failed item.
pub open spec fn import_totals(os: Seq<ImportFileOutcome>) -> (nat, nat, nat)
    decreases os.len(),
{
    if os.len() == 0 {
        (0, 0, 0)
    } else {
        let t = import_totals(os.drop_last());
        match os.last().Result {
            Ok((a, b, c)) => ((t.0 + a) as nat, (t.1 + b) as nat, (t.2 + c) as nat),
            Err(_) => (t.0, t.1, (t.2 + 1) as nat),
        }
    }
}

/// The messages of the failed files, each after the file's name.
pub open spec fn import_errors(os: Seq<ImportFileOutcome>) -> Seq<Seq<char>>
    decreases os.len(),
{
    if os.len() == 0 {
        Seq::empty()
    } else {
        import_errors(os.drop_last()) + match os.last().Result {
            Ok(_) => Seq::<Seq<char>>::empty(),
            Err(e) => seq![os.last().File@ + ": "@ + e@],
        }
    }
}

proof fn lemma_totals_grow(os: Seq<ImportFileOutcome>, i: int)
    requires
        0 <= i <= os.len(),
    ensures
        import_totals(os.take(i)).0 <= import_totals(os).0,
        import_totals(os.take(i)).1 <= import_totals(os).1,
        import_totals(os.take(i)).2 <= import_totals(os).2,
    decreases os.len() - i,
{
    if i < os.len() {
        lemma_totals_grow(os, i + 1);
        assert(os.take(i + 1).drop_last() =~= os.take(i));
    } else {
        assert(os.take(i) =~= os);
    }
}

/// HandleImportMarkdown - Import ConPort data from markdown files
pub struct HandleImportMarkdown;

impl HandleImportMarkdown {
    /// The merge strategy asked for, `merge` by default.
    pub fn MergeStrategy(Payload: &ImportMarkdownRequest) -> (r: String)
        ensures
            r@ == match Payload.MergeStrategy {
                Some(m) => m@,
                None => "merge"@,
            },
    {
        match &Payload.MergeStrategy {
            Some(m) => m.clone(),
            None => String::from_str("merge"),
        }
    }

    /// Whether only validation is asked for; not by default.
    pub fn ValidateOnly(Payload: &ImportMarkdownRequest) -> (r: bool)
        ensures
            r == match Payload.ValidateOnly {
                Some(b) => b,
                None => false,
            },
    {
        match Payload.ValidateOnly {
            Some(b) => b,
            None => false,
        }
    }

    /// The error that refuses an input path that does not exist.
    pub fn MissingInput(Payload: &ImportMarkdownRequest) -> (r: Error)
        ensures
            bad_request(r, "Input path does not exist: "@ + Payload.InputPath@),
    {
        let mut m = String::from_str("Input path does not exist: ");
        m.append(Payload.InputPath.as_str());
        Error::WithMessage(ErrorCode::InvalidParams, m.as_str())
    }

    /// The response to an import, from the outcome of each file in order.
    pub fn Summarize(outcomes: Vec<ImportFileOutcome>) -> (r: ImportMarkdownResponse)
        requires
            import_totals(outcomes@).0 <= usize::MAX,
            import_totals(outcomes@).1 <= usize::MAX,
            import_totals(outcomes@).2 <= usize::MAX,
        ensures
            r.ItemsImported == import_totals(outcomes@).0,
            r.ItemsSkipped == import_totals(outcomes@).1,
            r.ItemsFailed == import_totals(outcomes@).2,
            r.Errors@.map_values(|e: String| e@) == import_errors(outcomes@),
            r.Success == (r.ItemsFailed == 0),
            r.Message@ == if r.ItemsFailed == 0 {
                "Successfully imported "@ + decimal(r.ItemsImported as nat) + " items"@
            } else {
                "Import completed with "@ + decimal(r.ItemsFailed as nat) + " errors"@
            },
    {
        let mut imported: usize = 0;
        let mut skipped: usize = 0;
        let mut failed: usize = 0;
        let mut errors: Vec<String> = Vec::new();
        let mut i: usize = 0;
        while i < outcomes.len()
            invariant
                i <= outcomes.len(),
                import_totals(outcomes@).0 <= usize::MAX,
                import_totals(outcomes@).1 <= usize::MAX,
                import_totals(outcomes@).2 <= usize::MAX,
                (imported as nat, skipped as nat, failed as nat) == import_totals(outcomes@.take(i as int)),
                errors@.map_values(|e: String| e@) == import_errors(outcomes@.take(i as int)),
            decreases outcomes.len() - i,
        {
            proof {
                lemma_totals_grow(outcomes@, i + 1);
            }
            assert(outcomes@.take(i + 1).drop_last() =~= outcomes@.take(i as int));
            let ghost before = errors@.map_values(|e: String| e@);
            match &outcomes[i].Result {
                Ok((a, b, c)) => {
                    imported = imported + *a;
                    skipped = skipped + *b;
                    failed = failed + *c;
                    assert(errors@.map_values(|e: String| e@) =~= before + Seq::<Seq<char>>::empty());
                },
                Err(e) => {
                    let mut m = outcomes[i].File.clone();
                    m.append(": ");
                    m.append(e.as_str());
                    errors.push(m);
                    failed = failed + 1;
                    assert(errors@.map_values(|e: String| e@) =~= before + seq![m@]);
                },
            }
            i = i + 1;
        }
        assert(outcomes@.take(outcomes.len() as int) =~= outcomes@);
        let message = if failed == 0 {
            let mut m = String::from_str("Successfully imported ");
            push_decimal(&mut m, imported as u64);
            m.append(" items");
            m
        } else {
            let mut m = String::from_str("Import completed with ");
            push_decimal(&mut m, failed as u64);
            m.append(" errors");
            m
        };
        ImportMarkdownResponse {
            Success: failed == 0,
            ItemsImported: imported,
            ItemsSkipped: skipped,
            ItemsFailed: failed,
            Errors: errors,
            Message: message,
        }
    }
}

} // verus!
