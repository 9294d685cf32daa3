use conport::query::filter::{
    resolve_tag_filter, validate_mutual_exclusivity, BuildTagFilterSql, FilterSqlBuilder, TagFilterMode,
};
use conport::query::normalize::{tags_to_fts_query, FtsQueryNormalizer, PrepareFtsQuery, SearchQuery};

#[test]
fn test_build_tag_filter_include_all() {
    let tags = vec!["rust".to_string(), "database".to_string()];
    let result = BuildTagFilterSql(&tags, true, "Tags");

    assert!(result.is_ok());
    let sql = result.unwrap();
    assert!(sql.where_clause.contains("AND"));
    assert_eq!(sql.params.len(), 2);
}

#[test]
fn test_build_tag_filter_include_any() {
    let tags = vec!["rust".to_string(), "database".to_string()];
    let result = BuildTagFilterSql(&tags, false, "Tags");

    assert!(result.is_ok());
    let sql = result.unwrap();
    assert!(sql.where_clause.contains("OR"));
    assert_eq!(sql.params.len(), 2);
}

#[test]
fn test_empty_tags() {
    let tags: Vec<String> = vec![];
    let result = BuildTagFilterSql(&tags, true, "Tags");

    assert!(result.is_ok());
    let sql = result.unwrap();
    assert!(sql.is_empty());
}

#[test]
fn test_validate_mutual_exclusivity() {
    let include_all = Some(vec!["tag1".to_string()]);
    let include_any = Some(vec!["tag2".to_string()]);

    let result = validate_mutual_exclusivity(&include_all, &include_any);
    assert!(result.is_err());

    let only_all = Some(vec!["tag1".to_string()]);
    let none: Option<Vec<String>> = None;

    let result2 = validate_mutual_exclusivity(&only_all, &none);
    assert!(result2.is_ok());
}

#[test]
fn test_resolve_tag_filter() {
    let include_all = Some(vec!["tag1".to_string(), "tag2".to_string()]);
    let none: Option<Vec<String>> = None;

    let result = resolve_tag_filter(&include_all, &none);
    assert!(result.is_some());

    let filter = result.unwrap();
    assert_eq!(filter.mode, TagFilterMode::IncludeAll);
    assert_eq!(filter.tags.len(), 2);
}

#[test]
fn test_filter_sql_builder() {
    let builder = FilterSqlBuilder::new("SELECT * FROM Items").with_workspace("/test/workspace").with_status("active");

    let query = builder.build(Some("CreatedAt DESC"), Some(0), Some(10));

    assert!(query.contains("WHERE"));
    assert!(query.contains("WorkspaceId = ?"));
    assert!(query.contains("Status = ?"));
    assert!(query.contains("ORDER BY"));
    assert!(query.contains("LIMIT"));
}

#[test]
fn test_prepare_fts_query() {
    let query = "hello world";
    let result = PrepareFtsQuery(query);
    assert_eq!(result, "hello world");
}

#[test]
fn test_prepare_fts_query_with_special_chars() {
    let query = "test (query)";
    let result = PrepareFtsQuery(query);
    assert_eq!(result, "test \\(query\\)");
}

#[test]
fn test_tags_to_fts_query_or() {
    let tags = vec!["rust".to_string(), "database".to_string()];
    let result = tags_to_fts_query(&tags, false);
    assert!(result.contains("\"rust\""));
    assert!(result.contains("\"database\""));
    assert!(result.contains(" OR "));
}

#[test]
fn test_tags_to_fts_query_and() {
    let tags = vec!["rust".to_string(), "database".to_string()];
    let result = tags_to_fts_query(&tags, true);
    assert!(result.contains(" AND "));
}

#[test]
fn test_search_query_parse() {
    let query = "test -exclude \"phrase search\"";
    let parsed = SearchQuery::parse(query);

    assert!(parsed.terms.contains(&"test".to_string()));
    assert!(parsed.exclude_terms.contains(&"exclude".to_string()));
    assert!(parsed.phrase_searches.contains(&"phrase search".to_string()));
}

#[test]
fn test_search_query_to_fts() {
    let query = "test \"hello world\"";
    let parsed = SearchQuery::parse(query);
    let fts = parsed.to_fts_query();

    assert!(fts.contains("\"test\""));
    assert!(fts.contains("\"hello world\""));
}

#[test]
fn test_column_validation() {
    let normalizer = FtsQueryNormalizer::new(Some(vec!["summary".to_string(), "description".to_string()]));

    let query = "summary:test";
    let result = normalizer.prepare_fts_query(query);
    assert!(result.contains("summary:test"));

    let query2 = "invalid:hello";
    let result2 = normalizer.prepare_fts_query(query2);
    assert!(!result2.contains("invalid:"));
}

#[test]
fn prepare_fts_query_collapses_whitespace_and_escapes() {
    assert_eq!(PrepareFtsQuery("  a   b  "), "a b");
    assert_eq!(PrepareFtsQuery("x*y"), "x\\*y");
}

#[test]
fn tags_query_quotes_each_tag() {
    let tags = vec!["a".to_string(), "b".to_string()];
    assert_eq!(tags_to_fts_query(&tags, true), "\"a\" AND \"b\"");
    assert_eq!(tags_to_fts_query(&tags, false), "\"a\" OR \"b\"");
}
