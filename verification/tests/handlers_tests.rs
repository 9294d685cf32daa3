use conport::handlers::batch::{
    parse_kind, prepare_insert, BatchDeleteItem, BatchItem, BatchItemData, BatchItemKind, HandleBatchDelete,
    HandleBatchLogItems, HandleBatchLogItemsToDatabase,
};
use conport::handlers::custom_data::DeleteResponse as CustomDeleteResponse;
use conport::handlers::decision::{DeleteResponse as DecisionDeleteResponse, UpdateResponse as DecisionUpdateResponse};
use conport::handlers::history::{
    sort_newest_first, GetItemHistoryRequest, GetRecentActivityRequest, HandleGetItemHistory,
    HandleGetRecentActivity, RecentActivityItem,
};
use conport::handlers::import_export::{
    ExportMarkdownRequest, HandleExportMarkdown, HandleImportMarkdown, ImportFileOutcome, ImportMarkdownRequest,
    MarkdownEntry,
};
use conport::handlers::link::{
    GetLinkedItemsRequest, HandleGetLinkedItems, HandleLinkItems, HandleUnlinkItems, LinkItemsRequest,
};
use conport::handlers::outcome::{delete_message, numbered_text, update_message};
use conport::handlers::search::{HandleSemanticSearch, ItemFacts, SearchCandidate, SearchFilters};
use conport::query::filter::SqlParam;
use conport::handlers::custom_data::removal_response;

fn empty_data() -> BatchItemData {
    BatchItemData {
        id: None,
        summary: None,
        rationale: None,
        implementation_details: None,
        description: None,
        status: None,
        parent_id: None,
        name: None,
        key: None,
        category: None,
        tags_json: None,
        value_json: None,
    }
}

fn item(t: &str, data: BatchItemData) -> BatchItem {
    BatchItem { TypeField: t.to_string(), Data: data }
}

fn param_text(p: &SqlParam) -> Option<String> {
    match p {
        SqlParam::Text(s) => Some(s.clone()),
        _ => None,
    }
}

#[test]
fn batch_kinds_are_read_from_type_names() {
    assert_eq!(parse_kind("decision"), Some(BatchItemKind::Decision));
    assert_eq!(parse_kind("progress_entry"), Some(BatchItemKind::ProgressEntry));
    assert_eq!(parse_kind("system_pattern"), Some(BatchItemKind::SystemPattern));
    assert_eq!(parse_kind("custom_data"), Some(BatchItemKind::CustomData));
    assert_eq!(parse_kind("Decision"), None);
    match HandleBatchLogItems::ItemKind(&item("unknown", empty_data())) {
        Err(e) => assert_eq!(e, "Invalid item type: unknown"),
        Ok(_) => panic!("an unknown type must be refused"),
    }
}

#[test]
fn batch_decision_insert_binds_its_fields() {
    let mut d = empty_data();
    d.id = Some("dec-1".to_string());
    d.summary = Some("Use SQLite".to_string());
    d.tags_json = Some("[\"db\"]".to_string());
    let p = HandleBatchLogItemsToDatabase::PrepareItem("ws", "2024-01-01T00:00:00Z", &item("decision", d)).ok().unwrap();
    assert!(p.Sql.starts_with("INSERT OR REPLACE INTO Decisions"));
    assert_eq!(p.Id, "dec-1");
    let texts: Vec<Option<String>> = p.Params.iter().map(param_text).collect();
    assert_eq!(
        texts,
        vec![
            Some("dec-1".to_string()),
            Some("ws".to_string()),
            Some("Use SQLite".to_string()),
            Some(String::new()),
            Some(String::new()),
            Some("[\"db\"]".to_string()),
            Some("2024-01-01T00:00:00Z".to_string()),
        ]
    );
}

#[test]
fn batch_progress_insert_defaults_status_and_binds_null_parent() {
    let mut d = empty_data();
    d.description = Some("write tests".to_string());
    let p = prepare_insert(BatchItemKind::ProgressEntry, &d, "ws", "t0");
    assert!(p.Sql.starts_with("INSERT INTO ProgressEntries"));
    assert_eq!(p.Id.len(), 36);
    assert_eq!(param_text(&p.Params[2]), Some("TODO".to_string()));
    assert_eq!(param_text(&p.Params[3]), Some("write tests".to_string()));
    assert!(matches!(p.Params[4], SqlParam::Null));
    assert_eq!(p.Params.len(), 7);
}

#[test]
fn batch_custom_data_defaults_category() {
    let mut d = empty_data();
    d.key = Some("k".to_string());
    d.value_json = Some("42".to_string());
    let p = prepare_insert(BatchItemKind::CustomData, &d, "ws", "t0");
    assert_eq!(param_text(&p.Params[2]), Some("default".to_string()));
    assert_eq!(
        HandleBatchLogItems::EmbeddingText(BatchItemKind::CustomData, &d),
        "[default] k: 42"
    );
    let mut s = empty_data();
    s.name = Some("Repository".to_string());
    s.description = Some("data access".to_string());
    assert_eq!(
        HandleBatchLogItems::EmbeddingText(BatchItemKind::SystemPattern, &s),
        "Repository: data access"
    );
}

#[test]
fn batch_summary_counts_and_reports_failures() {
    let items = vec![item("decision", empty_data()), item("bogus", empty_data()), item("custom_data", empty_data())];
    let outcomes = vec![Ok(()), Err("Invalid item type: bogus".to_string()), Ok(())];
    let r = HandleBatchLogItems::Summarize(&items, outcomes);
    assert!(!r.Success);
    assert_eq!(r.ItemsProcessed, 3);
    assert_eq!(r.ItemsSucceeded, 2);
    assert_eq!(r.ItemsFailed, 1);
    assert_eq!(r.Errors.len(), 1);
    assert_eq!(r.Errors[0].Index, 1);
    assert_eq!(r.Errors[0].ItemType, "bogus");
    assert_eq!(r.Errors[0].Error, "Invalid item type: bogus");
}

#[test]
fn batch_database_summary_gives_every_item_a_result() {
    let items = vec![item("decision", empty_data()), item("bogus", empty_data())];
    let outcomes = vec![Ok("id-1".to_string()), Err("bad".to_string())];
    let r = HandleBatchLogItemsToDatabase::Summarize(&items, outcomes);
    assert_eq!(r.ItemsSucceeded + r.ItemsFailed, r.ItemsProcessed);
    assert_eq!(r.Results.len(), 2);
    assert!(r.Results[0].Stored);
    assert_eq!(r.Results[0].Id, "id-1");
    assert!(!r.Results[1].Stored);
    assert_eq!(r.Results[1].Id, "");
    assert_eq!(r.Errors[0].Index, 1);
}

#[test]
fn batch_delete_summary_all_succeeded() {
    let items = vec![
        BatchDeleteItem { TypeField: "decision".to_string(), Id: "1".to_string() },
        BatchDeleteItem { TypeField: "progress_entry".to_string(), Id: "2".to_string() },
    ];
    let r = HandleBatchDelete::Summarize(&items, vec![Ok(()), Ok(())]);
    assert!(r.Success);
    assert_eq!(r.ItemsDeleted, 2);
    assert_eq!(r.ItemsFailed, 0);
    assert!(r.Errors.is_empty());
}

fn activity(t: &str, ts: &str) -> RecentActivityItem {
    RecentActivityItem { ItemType: t.to_string(), Id: ts.to_string(), Timestamp: ts.to_string(), Summary: String::new() }
}

#[test]
fn recent_activity_is_sorted_newest_first() {
    let items = vec![
        activity("decision", "2024-01-02"),
        activity("progress", "2024-03-01"),
        activity("pattern", "2023-12-31"),
        activity("custom", "2024-03-01"),
    ];
    let r = HandleGetRecentActivity::Respond(items);
    assert_eq!(r.Total, 4);
    let stamps: Vec<&str> = r.Items.iter().map(|i| i.Timestamp.as_str()).collect();
    assert_eq!(stamps, vec!["2024-03-01", "2024-03-01", "2024-01-02", "2023-12-31"]);
    assert!(sort_newest_first(Vec::new()).is_empty());
}

#[test]
fn recent_activity_plan_defaults() {
    let plan = HandleGetRecentActivity::Plan(GetRecentActivityRequest {
        WorkspaceId: "ws".to_string(),
        HoursAgo: None,
        LimitPerType: None,
        ItemTypes: None,
    });
    assert_eq!(plan.HoursAgo, 24);
    assert_eq!(plan.LimitPerType, 5);
    assert!(plan.ItemTypes.contains(&"product_context".to_string()));
    let asked = HandleGetRecentActivity::Plan(GetRecentActivityRequest {
        WorkspaceId: "ws".to_string(),
        HoursAgo: Some(48),
        LimitPerType: Some(2),
        ItemTypes: Some(vec!["active_context".to_string()]),
    });
    assert_eq!(asked.HoursAgo, 48);
    assert_eq!(asked.LimitPerType, 2);
    assert_eq!(asked.ItemTypes, vec!["active_context".to_string()]);
}

#[test]
fn item_history_checks_type_and_limit() {
    let ok = GetItemHistoryRequest {
        WorkspaceId: "ws".to_string(),
        TypeField: "product_context".to_string(),
        Limit: None,
        BeforeTimestamp: None,
        AfterTimestamp: None,
        Version: None,
    };
    assert_eq!(HandleGetItemHistory::Prepare(&ok).ok(), Some(10));
    let bad = GetItemHistoryRequest { TypeField: "invalid".to_string(), ..ok };
    let e = HandleGetItemHistory::Prepare(&bad).err().unwrap();
    assert_eq!(e.code, -32602);
    assert_eq!(e.message, "Invalid item type: invalid");
}

fn link_request(st: &str, sid: &str, tt: &str, tid: &str) -> LinkItemsRequest {
    LinkItemsRequest {
        WorkspaceId: "test".to_string(),
        SourceItemType: st.to_string(),
        SourceItemId: sid.to_string(),
        TargetItemType: tt.to_string(),
        TargetItemId: tid.to_string(),
        RelationshipType: "relates_to".to_string(),
        Description: None,
    }
}

#[test]
fn link_refuses_self_links_and_unknown_types() {
    let e = HandleLinkItems::Execute(link_request("decision", "dec-1", "decision", "dec-1")).err().unwrap();
    assert_eq!(e.code, -32602);
    assert_eq!(e.message, "Cannot link an item to itself");
    let e = HandleLinkItems::Execute(link_request("widget", "a", "decision", "b")).err().unwrap();
    assert_eq!(e.message, "Invalid source item type: widget");
    let e = HandleLinkItems::Execute(link_request("decision", "a", "widget", "b")).err().unwrap();
    assert_eq!(e.message, "Invalid target item type: widget");
}

#[test]
fn link_is_made_between_two_items() {
    let r = HandleLinkItems::Execute(link_request("decision", "dec-1", "progress_entry", "prog-1")).ok().unwrap();
    assert_eq!(r.Message, "Link created successfully");
    assert_eq!(r.Link.id.len(), 36);
    assert_eq!(r.Link.source_item_id, "dec-1");
    assert_eq!(r.Link.target_item_type, "progress_entry");
    let get = GetLinkedItemsRequest {
        WorkspaceId: "test".to_string(),
        ItemType: "decision".to_string(),
        ItemId: "dec-1".to_string(),
        RelationshipTypeFilter: None,
        LinkedItemTypeFilter: None,
        Limit: Some(5),
    };
    assert_eq!(HandleGetLinkedItems::Prepare(&get).ok(), Some(5));
    assert!(!HandleUnlinkItems::Message().is_empty());
}

#[test]
fn update_and_delete_messages() {
    assert_eq!(numbered_text("Item ", -7, "!"), "Item -7!");
    assert_eq!(update_message("Decision", 3, true), "Decision ID 3 updated successfully.");
    assert_eq!(update_message("Decision", 3, false), "Decision ID 3 not found for update.");
    assert_eq!(delete_message("Progress", 12, true), "Progress ID 12 deleted successfully.");
    let d = DecisionUpdateResponse::for_entry(4, true);
    assert_eq!(d.status, "success");
    assert_eq!(d.message, "Decision ID 4 updated successfully.");
    let d = DecisionDeleteResponse::for_entry(4, false);
    assert_eq!(d.message, "Decision ID 4 not found in database.");
    let c = CustomDeleteResponse::for_entry("cfg", "theme", true);
    assert_eq!(c.message, "CustomData (cfg, theme) deleted successfully.");
}

fn facts(tags: &[&str], category: &str) -> Option<ItemFacts> {
    Some(ItemFacts { Tags: tags.iter().map(|t| t.to_string()).collect(), Category: category.to_string() })
}

#[test]
fn semantic_search_selects_by_filters_and_limit() {
    let filters = SearchFilters {
        FilterItemTypes: Some(vec!["decision".to_string(), "custom_data".to_string()]),
        FilterTagsIncludeAny: Some(vec!["db".to_string(), "api".to_string()]),
        FilterTagsIncludeAll: None,
        FilterCustomDataCategories: Some(vec!["config".to_string()]),
    };
    let candidates = vec![
        SearchCandidate { ItemType: "decision".to_string(), Metadata: facts(&["db"], "") },
        SearchCandidate { ItemType: "progress_entry".to_string(), Metadata: facts(&["db"], "") },
        SearchCandidate { ItemType: "decision".to_string(), Metadata: facts(&["ui"], "") },
        SearchCandidate { ItemType: "custom_data".to_string(), Metadata: facts(&["api"], "other") },
        SearchCandidate { ItemType: "custom_data".to_string(), Metadata: facts(&["api"], "config") },
        SearchCandidate { ItemType: "decision".to_string(), Metadata: None },
    ];
    assert_eq!(HandleSemanticSearch::Select(&filters, &candidates, 10), vec![0, 4]);
    assert_eq!(HandleSemanticSearch::Select(&filters, &candidates, 2), vec![0, 4]);
    assert!(HandleSemanticSearch::TypeAllowed(&filters, "decision"));
    assert!(!HandleSemanticSearch::TypeAllowed(&filters, "system_pattern"));
}

#[test]
fn semantic_search_requires_all_tags() {
    let filters = SearchFilters {
        FilterItemTypes: None,
        FilterTagsIncludeAny: None,
        FilterTagsIncludeAll: Some(vec!["a".to_string(), "b".to_string()]),
        FilterCustomDataCategories: None,
    };
    assert!(HandleSemanticSearch::MetadataAllowed(&filters, "decision", &facts(&["b", "a", "c"], "")));
    assert!(!HandleSemanticSearch::MetadataAllowed(&filters, "decision", &facts(&["a"], "")));
    assert!(!HandleSemanticSearch::MetadataAllowed(&filters, "decision", &None));
    let no_tag_filter = SearchFilters {
        FilterItemTypes: None,
        FilterTagsIncludeAny: None,
        FilterTagsIncludeAll: None,
        FilterCustomDataCategories: Some(vec!["config".to_string()]),
    };
    assert!(HandleSemanticSearch::MetadataAllowed(&no_tag_filter, "custom_data", &None));
}

#[test]
fn export_defaults_and_file_text() {
    let req = ExportMarkdownRequest {
        WorkspaceId: "ws1".to_string(),
        ItemTypes: vec![],
        OutputPath: None,
        IncludeMetadata: None,
    };
    assert!(HandleExportMarkdown::IncludeMetadata(&req));
    assert_eq!(HandleExportMarkdown::OutputPath(&req), "./conport_export_ws1");
    assert_eq!(HandleExportMarkdown::FileName("decision"), "decision.md");
    let entries = vec![MarkdownEntry {
        ItemType: "decision".to_string(),
        ItemId: "7".to_string(),
        Frontmatter: serde_json::Value::Null,
        Content: "Body".to_string(),
    }];
    let text = HandleExportMarkdown::FormatEntries(&entries, &vec![Some("tag: x\n".to_string())]);
    assert_eq!(text, "---\nitem_type: decision\nitem_id: 7\ntag: x\n---\n\nBody\n\n");
    let text = HandleExportMarkdown::FormatMarkdown(&entries);
    assert!(text.starts_with("---\nitem_type: decision\nitem_id: 7\n"));
    assert!(text.ends_with("---\n\nBody\n\n"));
    let r = HandleExportMarkdown::Respond(vec!["decision.md".to_string()], 3, "out".to_string());
    assert_eq!(r.Message, "Successfully exported 3 items");
}

#[test]
fn import_summary_totals_files() {
    let req = ImportMarkdownRequest {
        WorkspaceId: "ws".to_string(),
        InputPath: "/nowhere".to_string(),
        MergeStrategy: None,
        ValidateOnly: None,
    };
    assert_eq!(HandleImportMarkdown::MergeStrategy(&req), "merge");
    assert!(!HandleImportMarkdown::ValidateOnly(&req));
    assert_eq!(HandleImportMarkdown::MissingInput(&req).message, "Input path does not exist: /nowhere");
    let r = HandleImportMarkdown::Summarize(vec![
        ImportFileOutcome { File: "a.md".to_string(), Result: Ok((3, 1, 0)) },
        ImportFileOutcome { File: "b.md".to_string(), Result: Err("unreadable".to_string()) },
        ImportFileOutcome { File: "c.md".to_string(), Result: Ok((2, 0, 1)) },
    ]);
    assert_eq!(r.ItemsImported, 5);
    assert_eq!(r.ItemsSkipped, 1);
    assert_eq!(r.ItemsFailed, 2);
    assert!(!r.Success);
    assert_eq!(r.Errors, vec!["b.md: unreadable".to_string()]);
    assert_eq!(r.Message, "Import completed with 2 errors");
    let ok = HandleImportMarkdown::Summarize(vec![ImportFileOutcome { File: "a.md".to_string(), Result: Ok((4, 0, 0)) }]);
    assert!(ok.Success);
    assert_eq!(ok.Message, "Successfully imported 4 items");
}

#[test]
fn custom_data_removal_messages() {
    let r = removal_response("config", "theme", true);
    assert_eq!(r.status, "success");
    assert_eq!(r.message, "Custom data 'config/theme' deleted.");
    let r = removal_response("config", "theme", false);
    assert_eq!(r.message, "Custom data 'config/theme' not found for deletion.");
}
