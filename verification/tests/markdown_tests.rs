use conport::markdown::export::{
    ContextExport, DecisionExport, ExportContext, ExportDecision, ExportFormat, ExportOptions, ExportProgress,
    ExportProgressList, ProgressExport, ProgressStatus,
};
use conport::markdown::import::{
    detect_data_type, ImportDataType, ImportOptions, MergeStrategy, ParseContext, ParseContexts, ParseDecision,
    ParseDecisions, ParseMarkdown, ParseProgress, ParseProgressList, ParseResult,
};

#[test]
fn test_export_options_default() {
    let options = ExportOptions::default();
    assert!(options.include_metadata);
    assert!(options.include_timestamps);
    assert!(options.include_tags);
    assert_eq!(options.format, ExportFormat::Markdown);
}

#[test]
fn test_context_export() {
    let context = ContextExport::new(
        "Test Context".to_string(),
        "This is the content".to_string(),
        "/test/workspace".to_string(),
    );

    let options = ExportOptions::default();
    let output = ExportContext(&context, &options);

    assert!(output.contains("Test Context"));
    assert!(output.contains("This is the content"));
    assert!(output.contains("/test/workspace"));
}

#[test]
fn test_decision_export() {
    let decision = DecisionExport::new("1".to_string(), "Use SQLite for storage".to_string())
        .with_rationale("SQLite is simple and file-based".to_string())
        .with_tags(vec!["database".to_string(), "storage".to_string()]);

    let options = ExportOptions::default();
    let output = ExportDecision(&decision, &options);

    assert!(output.contains("Use SQLite for storage"));
    assert!(output.contains("SQLite is simple"));
    assert!(output.contains("database"));
}

#[test]
fn test_progress_export() {
    let progress = ProgressExport::new("1".to_string(), ProgressStatus::Todo, "Implement FTS search".to_string())
        .with_timestamp("2024-01-01T00:00:00Z".to_string());

    let options = ExportOptions::default();
    let output = ExportProgress(&progress, &options);

    assert!(output.contains("Implement FTS search"));
    assert!(output.contains("🔲"));
}

#[test]
fn test_progress_grouping() {
    let items = vec![
        ProgressExport::new("1".to_string(), ProgressStatus::Todo, "Task 1".to_string()),
        ProgressExport::new("2".to_string(), ProgressStatus::Done, "Task 2".to_string()),
        ProgressExport::new("3".to_string(), ProgressStatus::Todo, "Task 3".to_string()),
    ];

    let options = ExportOptions::default();
    let output = ExportProgressList(&items, &options);

    assert!(output.contains("TODO"));
    assert!(output.contains("DONE"));
}

#[test]
fn test_import_options_default() {
    let options = ImportOptions::new("/test/workspace".to_string());
    assert_eq!(options.merge_strategy, MergeStrategy::Merge);
    assert!(!options.preserve_timestamps);
    assert!(options.validate_schema);
}

#[test]
fn test_parse_context() {
    let markdown = r#"# Test Context

## Metadata

- **Workspace**: `/test/workspace`
- **Created**: 2024-01-01T00:00:00Z

## Content

This is the test content.
"#;

    let options = ImportOptions::new("/test/workspace".to_string());
    let result = ParseContext(markdown, &options);

    assert!(result.is_valid());
    assert_eq!(result.items.len(), 1);
    assert_eq!(result.items[0].name, "Test Context");
    assert_eq!(result.items[0].content, "This is the test content.");
}

#[test]
fn test_parse_decision() {
    let markdown = r#"## Decision: Use SQLite

### Metadata

- **ID**: `1`
- **Date**: 2024-01-01T00:00:00Z
- **Tags**: database, storage

### Rationale

SQLite is simple and file-based.

### Implementation

Use rusqlite crate.
"#;

    let options = ImportOptions::new("/test/workspace".to_string());
    let result = ParseDecision(markdown, &options);

    assert!(result.is_valid());
    assert_eq!(result.items.len(), 1);
    assert_eq!(result.items[0].summary, "Use SQLite");
    assert!(result.items[0].rationale.is_some());
    assert!(result.items[0].tags.contains(&"database".to_string()));
}

#[test]
fn test_parse_progress() {
    let markdown = r#"- 🔲 **TODO** Implement FTS search
  - **ID**: `1`
  - **Date**: 2024-01-01T00:00:00Z
"#;

    let options = ImportOptions::new("/test/workspace".to_string());
    let result = ParseProgress(markdown, &options);

    assert!(!result.items.is_empty());
    assert_eq!(result.items[0].status, "TODO");
    assert_eq!(result.items[0].description, "Implement FTS search");
}

#[test]
fn test_detect_data_type() {
    assert_eq!(detect_data_type("# ConPort Contexts Export"), ImportDataType::Context);
    assert_eq!(detect_data_type("# ConPort Decisions Export"), ImportDataType::Decision);
    assert_eq!(detect_data_type("# ConPort Progress Export"), ImportDataType::Progress);
}

#[test]
fn parsed_context_reads_timestamps_and_workspace_option() {
    let markdown = "# Notes\n\n## Metadata\n\n- **Workspace**: `/w`\n- **Created**: 2024-01-01\n- **Updated**: at 2024-02-02\n\n## Content\n\n  Body text  \n";
    let options = ImportOptions::new("/opt".to_string());
    let result = ParseContext(markdown, &options);
    assert_eq!(result.items.len(), 1);
    let c = &result.items[0];
    assert_eq!(c.name, "Notes");
    assert_eq!(c.content, "Body text");
    assert_eq!(c.workspace_path, Some("/opt".to_string()));
    assert_eq!(c.created_at, Some("2024-01-01".to_string()));
    assert_eq!(c.updated_at, Some("2024-02-02".to_string()));
    assert!(result.warnings.is_empty());
}

#[test]
fn context_without_title_is_an_error() {
    let options = ImportOptions::new("/w".to_string());
    let result = ParseContext("no heading here\nmore text", &options);
    assert!(!result.is_valid());
    assert_eq!(result.errors, vec!["Context name is required".to_string()]);
    assert!(result.items.is_empty());
}

#[test]
fn context_without_content_section_falls_back() {
    let options = ImportOptions::new("/w".to_string());
    let plain = ParseContext("# Title\n\n  free text  \n", &options);
    assert_eq!(plain.items[0].content, "free text");
    let with_meta = ParseContext("# Title\n## Metadata\n- skipped\nkept line\n## Other\nlast", &options);
    assert_eq!(with_meta.items[0].content, "kept line\nlast");
    let empty = ParseContext("# Only", &options);
    assert_eq!(empty.items[0].content, "");
    assert_eq!(empty.warnings, vec!["Context content is empty".to_string()]);
}

#[test]
fn contexts_split_on_rules() {
    let options = ImportOptions::new("/w".to_string());
    let doc = "# One\n\n## Content\n\nfirst\n\n---\n\n# Two\n\n## Content\n\nsecond\n";
    let result = ParseContexts(doc, &options);
    assert_eq!(result.items.len(), 2);
    assert_eq!(result.items[0].content, "first");
    assert_eq!(result.items[1].name, "Two");
    assert_eq!(result.items[1].content, "second");
}

#[test]
fn decision_fields_are_read() {
    let options = ImportOptions::new("/w".to_string());
    let md = "## Decision: Pick A\n\n- **Tags**: x, , y \n- **Date**: 2024\n\n### Rationale\n\nBecause.\n\n### Implementation\n\nDo it.\n";
    let result = ParseDecision(md, &options);
    let d = &result.items[0];
    assert_eq!(d.summary, "Pick A");
    assert_eq!(d.tags, vec!["x".to_string(), "y".to_string()]);
    assert_eq!(d.timestamp, Some("2024".to_string()));
    assert_eq!(d.rationale, Some("Because.".to_string()));
    assert_eq!(d.implementation_details, Some("Do it.".to_string()));
    let missing = ParseDecision("### Rationale\n\nwhy\n", &options);
    assert_eq!(missing.errors, vec!["Decision summary is required".to_string()]);
}

#[test]
fn decisions_keep_only_sections_with_a_heading() {
    let options = ImportOptions::new("/w".to_string());
    let doc = "# ConPort Decisions Export\n\n## Decision: First\n\n---\n\n## Decision: Second\n";
    let result = ParseDecisions(doc, &options);
    assert_eq!(result.items.len(), 2);
    assert_eq!(result.items[0].summary, "First");
    assert_eq!(result.items[1].summary, "Second");
    assert!(ParseDecisions("nothing", &options).items.is_empty());
}

#[test]
fn progress_metadata_is_read() {
    let options = ImportOptions::new("/w".to_string());
    let md = "- 🔄 **IN_PROGRESS** Write docs\n  - **Parent ID**: `42`\n  - **Linked**: decision `dec-1`\n  - **Date**: 2024-03-03\n- ✅ **DONE** Ship\n";
    let result = ParseProgress(md, &options);
    assert_eq!(result.items.len(), 2);
    let p = &result.items[0];
    assert_eq!(p.status, "IN_PROGRESS");
    assert_eq!(p.description, "Write docs");
    assert_eq!(p.parent_id, Some(42));
    assert_eq!(p.linked_item_type, Some("decision".to_string()));
    assert_eq!(p.linked_item_id, Some("dec-1".to_string()));
    assert_eq!(p.timestamp, Some("2024-03-03".to_string()));
    assert_eq!(result.items[1].status, "DONE");
    assert_eq!(result.items[1].parent_id, None);
    let none = ParseProgress("plain", &options);
    assert_eq!(none.warnings, vec!["No progress items found in markdown".to_string()]);
}

#[test]
fn progress_list_reads_status_sections() {
    let options = ImportOptions::new("/w".to_string());
    let items = vec![
        ProgressExport::new("1".to_string(), ProgressStatus::Todo, "Task 1".to_string()),
        ProgressExport::new("2".to_string(), ProgressStatus::Done, "Task 2".to_string()),
    ];
    let doc = ExportProgressList(&items, &ExportOptions::default());
    let result = ParseProgressList(&doc, &options);
    let descriptions: Vec<String> = result.items.iter().map(|p| p.description.clone()).collect();
    assert!(descriptions.contains(&"Task 1".to_string()));
    assert!(descriptions.contains(&"Task 2".to_string()));
}

#[test]
fn progress_list_round_trip_groups_by_status() {
    let options = ImportOptions::new("/w".to_string());
    let items = vec![
        ProgressExport::new("1".to_string(), ProgressStatus::Done, "Ship it".to_string()),
        ProgressExport::new("2".to_string(), ProgressStatus::Todo, "Plan work".to_string())
            .with_parent(7)
            .with_link("decision".to_string(), "12".to_string())
            .with_timestamp("2024-01-01T00:00:00Z".to_string()),
        ProgressExport::new("3".to_string(), ProgressStatus::InProgress, "Build it".to_string()),
        ProgressExport::new("4".to_string(), ProgressStatus::Todo, "Review".to_string()),
    ];
    let doc = ExportProgressList(&items, &ExportOptions::default());
    let result = ParseProgressList(&doc, &options);
    let got: Vec<(String, String)> =
        result.items.iter().map(|p| (p.status.clone(), p.description.clone())).collect();
    let want: Vec<(String, String)> = vec![
        ("TODO".to_string(), "Plan work".to_string()),
        ("TODO".to_string(), "Review".to_string()),
        ("IN_PROGRESS".to_string(), "Build it".to_string()),
        ("DONE".to_string(), "Ship it".to_string()),
    ];
    assert_eq!(got, want);
}

#[test]
fn parse_markdown_counts_and_refuses_unknown() {
    let options = ImportOptions::new("/w".to_string());
    let r = ParseMarkdown("## Decision: A\n", ImportDataType::Auto, &options).unwrap();
    assert_eq!(r.items.len(), 1);
    let e = ParseMarkdown("plain words", ImportDataType::Auto, &options);
    assert_eq!(e.err(), Some("Unable to auto-detect data type".to_string()));
    let forced = ParseMarkdown("# T\n\n## Content\n\nx\n", ImportDataType::Context, &options).unwrap();
    assert_eq!(forced.items.len(), 1);
}

#[test]
fn exported_context_imports_back() {
    let context = ContextExport::new("Round".to_string(), "Trip body".to_string(), "/w".to_string());
    let md = ExportContext(&context, &ExportOptions::default());
    let result = ParseContext(&md, &ImportOptions::new("/w".to_string()));
    assert_eq!(result.items[0].name, "Round");
    assert_eq!(result.items[0].content, "Trip body");
}

#[test]
fn parse_result_builders() {
    let mut r: ParseResult<u8> = ParseResult::with_items(vec![1, 2]);
    assert!(r.is_valid());
    r.add_warning("w".to_string());
    r.add_error("e".to_string());
    assert!(!r.is_valid());
    assert_eq!(r.items, vec![1, 2]);
    let o = ImportOptions::new("x".to_string())
        .with_strategy(MergeStrategy::Replace)
        .with_timestamps(true)
        .with_validation(false);
    assert_eq!(o.merge_strategy, MergeStrategy::Replace);
    assert!(o.preserve_timestamps);
    assert!(!o.validate_schema);
    assert_eq!(MergeStrategy::default(), MergeStrategy::Merge);
    let e: ParseResult<u8> = ParseResult::new();
    assert!(e.items.is_empty());
}

#[test]
fn exported_context_with_metadata_reads_back() {
    let context = ContextExport::new("Plans".to_string(), "\n  Line one\nLine two  \n".to_string(), "/w/x".to_string())
        .with_timestamps("2024-01-01".to_string(), "2024-02-01".to_string());
    let md = ExportContext(&context, &ExportOptions::default());
    let result = ParseContext(&md, &ImportOptions::new("/elsewhere".to_string()));
    assert!(result.errors.is_empty());
    assert_eq!(result.items.len(), 1);
    assert_eq!(result.items[0].name, "Plans");
    assert_eq!(result.items[0].content, "Line one\nLine two");
    assert_eq!(result.items[0].workspace_path, Some("/elsewhere".to_string()));
    assert_eq!(result.items[0].created_at, Some("2024-01-01".to_string()));
    assert_eq!(result.items[0].updated_at, Some("2024-02-01".to_string()));
    let md = ExportContext(&context, &ExportOptions::default().with_timestamps(false));
    let result = ParseContext(&md, &ImportOptions::new("/elsewhere".to_string()));
    assert_eq!(result.items[0].created_at, None);
    assert_eq!(result.items[0].updated_at, None);
}

#[test]
fn exported_decision_reads_back() {
    let decision = DecisionExport::new("dec-9".to_string(), "Adopt Verus".to_string())
        .with_rationale("  Proofs catch bugs.\nEarly.  ".to_string())
        .with_implementation("Write contracts".to_string())
        .with_tags(vec!["verification".to_string(), "rust".to_string()])
        .with_timestamp("2024-05-05".to_string());
    let md = ExportDecision(&decision, &ExportOptions::default());
    let result = ParseDecision(&md, &ImportOptions::new("/w".to_string()));
    assert!(result.errors.is_empty());
    assert_eq!(result.items.len(), 1);
    assert_eq!(result.items[0].summary, "Adopt Verus");
    assert_eq!(result.items[0].rationale, Some("Proofs catch bugs.\nEarly.".to_string()));
    assert_eq!(result.items[0].implementation_details, Some("Write contracts".to_string()));
    assert_eq!(result.items[0].tags, vec!["verification".to_string(), "rust".to_string()]);
    assert_eq!(result.items[0].timestamp, Some("2024-05-05".to_string()));
    let quiet = ExportOptions::default().with_tags(false).with_timestamps(false);
    let md = ExportDecision(&decision, &quiet);
    let result = ParseDecision(&md, &ImportOptions::new("/w".to_string()));
    assert!(result.items[0].tags.is_empty());
    assert_eq!(result.items[0].timestamp, None);
    let bare = DecisionExport::new("d".to_string(), "Only a summary".to_string());
    let md = ExportDecision(&bare, &ExportOptions::default());
    let result = ParseDecision(&md, &ImportOptions::new("/w".to_string()));
    assert_eq!(result.items[0].summary, "Only a summary");
    assert_eq!(result.items[0].rationale, None);
    assert_eq!(result.items[0].implementation_details, None);
}

#[test]
fn exported_progress_reads_back() {
    let entry = ProgressExport::new("p-1".to_string(), ProgressStatus::InProgress, "Write the parser".to_string())
        .with_parent(12)
        .with_link("decision".to_string(), "dec-7".to_string())
        .with_timestamp("2024-03-03".to_string());
    let md = ExportProgress(&entry, &ExportOptions::default());
    let result = ParseProgress(&md, &ImportOptions::new("/w".to_string()));
    assert_eq!(result.items.len(), 1);
    assert_eq!(result.items[0].status, "IN_PROGRESS");
    assert_eq!(result.items[0].description, "Write the parser");
    assert_eq!(result.items[0].parent_id, Some(12));
    assert_eq!(result.items[0].linked_item_type, Some("decision".to_string()));
    assert_eq!(result.items[0].linked_item_id, Some("dec-7".to_string()));
    assert_eq!(result.items[0].timestamp, Some("2024-03-03".to_string()));
    let done = ProgressExport::new("p-2".to_string(), ProgressStatus::Done, "Ship it".to_string());
    let md = ExportProgress(&done, &ExportOptions::default().with_metadata(false));
    let result = ParseProgress(&md, &ImportOptions::new("/w".to_string()));
    assert_eq!(result.items.len(), 1);
    assert_eq!(result.items[0].status, "DONE");
    assert_eq!(result.items[0].description, "Ship it");
}
