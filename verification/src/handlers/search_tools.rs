//! The tools of the search endpoints, with their input schemas.

use vstd::prelude::*;
use vstd::string::StringExecFns;

use crate::args::context::{jview, jview_items, jview_members, JsonValue, JsonView};
use crate::handlers::batch_tools::{array, item_types, jtext, object, object1, object3, text, typed, Tool};

verus! {

/// The schema of a number of JSON type `t` between two bounds.
pub open spec fn bounded_view(t: Seq<char>, min: Seq<char>, max: Seq<char>) -> JsonView {
    JsonView::Object(
        seq![("type"@, jtext(t)), ("minimum"@, JsonView::Number(min)), ("maximum"@, JsonView::Number(max))],
    )
}

/// The schema of a filter given as an array, with what it does.
pub open spec fn filter_view(items: JsonView, description: Seq<char>) -> JsonView {
    JsonView::Object(seq![("type"@, jtext("array"@)), ("items"@, items), ("description"@, jtext(description))])
}

/// The input schema of the searches of one kind of item: a query, how many
/// results, how close they must be, and the workspace.
pub open spec fn item_search_schema_view() -> JsonView {
    JsonView::Object(
        seq![
            ("type"@, jtext("object"@)),
            (
                "properties"@,
                JsonView::Object(
                    seq![
                        ("query"@, typed("string"@)),
                        ("limit"@, bounded_view("integer"@, "1"@, "100"@)),
                        ("threshold"@, bounded_view("number"@, "0"@, "1"@)),
                        ("workspace_id"@, typed("string"@)),
                    ],
                ),
            ),
            ("required"@, JsonView::Array(seq![jtext("query"@)])),
        ],
    )
}

/// The input schema of the full semantic search, with its filters.
pub open spec fn semantic_search_schema_view() -> JsonView {
    let item_type = JsonView::Object(
        seq![
            ("type"@, jtext("string"@)),
            (
                "enum"@,
                JsonView::Array(
                    seq![
                        jtext("decision"@),
                        jtext("progress_entry"@),
                        jtext("system_pattern"@),
                        jtext("custom_data"@),
                    ],
                ),
            ),
        ],
    );
    JsonView::Object(
        seq![
            ("type"@, jtext("object"@)),
            (
                "properties"@,
                JsonView::Object(
                    seq![
                        ("query"@, typed("string"@)),
                        ("workspace_id"@, typed("string"@)),
                        ("limit"@, bounded_view("integer"@, "1"@, "100"@)),
                        ("threshold"@, bounded_view("number"@, "0"@, "1"@)),
                        ("filter_item_types"@, filter_view(item_type, "Filter results by item types"@)),
                        (
                            "filter_tags_include_any"@,
                            filter_view(typed("string"@), "Return items that have ANY of these tags"@),
                        ),
                        (
                            "filter_tags_include_all"@,
                            filter_view(typed("string"@), "Return items that have ALL of these tags"@),
                        ),
                        (
                            "filter_custom_data_categories"@,
                            filter_view(typed("string"@), "Filter custom data by categories"@),
                        ),
                    ],
                ),
            ),
            ("required"@, JsonView::Array(seq![jtext("query"@), jtext("workspace_id"@)])),
        ],
    )
}

proof fn lemma_members_all(es: Seq<(String, JsonValue)>, n: int)
    requires
        0 <= n <= es.len(),
    ensures
        jview_members(es, n) == Seq::new(n as nat, |i: int| (es[i].0@, jview(es[i].1))),
    decreases n,
{
    if n > 0 {
        lemma_members_all(es, n - 1);
    }
    assert(jview_members(es, n) =~= Seq::new(n as nat, |i: int| (es[i].0@, jview(es[i].1))));
}

proof fn lemma_items_all(xs: Seq<JsonValue>, n: int)
    requires
        0 <= n <= xs.len(),
    ensures
        jview_items(xs, n) == Seq::new(n as nat, |i: int| jview(xs[i])),
    decreases n,
{
    if n > 0 {
        lemma_items_all(xs, n - 1);
    }
    assert(jview_items(xs, n) =~= Seq::new(n as nat, |i: int| jview(xs[i])));
}

fn number(s: &str) -> (r: JsonValue)
    ensures
        jview(r) == JsonView::Number(s@),
{
    JsonValue::Number(String::from_str(s))
}

fn typed_value(t: &str) -> (r: JsonValue)
    ensures
        jview(r) == typed(t@),
{
    object1("type", text(t))
}

fn bounded(t: &str, min: &str, max: &str) -> (r: JsonValue)
    ensures
        jview(r) == bounded_view(t@, min@, max@),
{
    object3("type", text(t), "minimum", number(min), "maximum", number(max))
}

fn filter(items: JsonValue, description: &str) -> (r: JsonValue)
    ensures
        jview(r) == filter_view(jview(items), description@),
{
    object3("type", text("array"), "items", items, "description", text(description))
}

/// The input schema of the searches of one kind of item.
pub fn item_search_schema() -> (r: JsonValue)
    ensures
        jview(r) == item_search_schema_view(),
{
    let es = vec![
        (String::from_str("query"), typed_value("string")),
        (String::from_str("limit"), bounded("integer", "1", "100")),
        (String::from_str("threshold"), bounded("number", "0", "1")),
        (String::from_str("workspace_id"), typed_value("string")),
    ];
    proof {
        lemma_members_all(es@, 4);
        assert(Seq::new(4, |i: int| (es@[i].0@, jview(es@[i].1))) =~= seq![
            ("query"@, typed("string"@)),
            ("limit"@, bounded_view("integer"@, "1"@, "100"@)),
            ("threshold"@, bounded_view("number"@, "0"@, "1"@)),
            ("workspace_id"@, typed("string"@)),
        ]);
    }
    let properties = object(es);
    let xs = vec![text("query")];
    proof {
        lemma_items_all(xs@, 1);
        assert(Seq::new(1, |i: int| jview(xs@[i])) =~= seq![jtext("query"@)]);
    }
    let required = array(xs);
    object3("type", text("object"), "properties", properties, "required", required)
}

/// The input schema of the full semantic search.
pub fn semantic_search_schema() -> (r: JsonValue)
    ensures
        jview(r) == semantic_search_schema_view(),
{
    let item_type = {
        let ts = item_types();
        let es = vec![(String::from_str("type"), text("string")), (String::from_str("enum"), ts)];
        proof {
            lemma_members_all(es@, 2);
            assert(Seq::new(2, |i: int| (es@[i].0@, jview(es@[i].1))) =~= seq![
                ("type"@, jtext("string"@)),
                (
                    "enum"@,
                    JsonView::Array(
                        seq![
                            jtext("decision"@),
                            jtext("progress_entry"@),
                            jtext("system_pattern"@),
                            jtext("custom_data"@),
                        ],
                    ),
                ),
            ]);
        }
        object(es)
    };
    let ghost it = jview(item_type);
    let es = vec![
        (String::from_str("query"), typed_value("string")),
        (String::from_str("workspace_id"), typed_value("string")),
        (String::from_str("limit"), bounded("integer", "1", "100")),
        (String::from_str("threshold"), bounded("number", "0", "1")),
        (String::from_str("filter_item_types"), filter(item_type, "Filter results by item types")),
        (
            String::from_str("filter_tags_include_any"),
            filter(typed_value("string"), "Return items that have ANY of these tags"),
        ),
        (
            String::from_str("filter_tags_include_all"),
            filter(typed_value("string"), "Return items that have ALL of these tags"),
        ),
        (
            String::from_str("filter_custom_data_categories"),
            filter(typed_value("string"), "Filter custom data by categories"),
        ),
    ];
    proof {
        lemma_members_all(es@, 8);
        assert(Seq::new(8, |i: int| (es@[i].0@, jview(es@[i].1))) =~= seq![
            ("query"@, typed("string"@)),
            ("workspace_id"@, typed("string"@)),
            ("limit"@, bounded_view("integer"@, "1"@, "100"@)),
            ("threshold"@, bounded_view("number"@, "0"@, "1"@)),
            ("filter_item_types"@, filter_view(it, "Filter results by item types"@)),
            (
                "filter_tags_include_any"@,
                filter_view(typed("string"@), "Return items that have ANY of these tags"@),
            ),
            (
                "filter_tags_include_all"@,
                filter_view(typed("string"@), "Return items that have ALL of these tags"@),
            ),
            ("filter_custom_data_categories"@, filter_view(typed("string"@), "Filter custom data by categories"@)),
        ]);
    }
    let properties = object(es);
    let xs = vec![text("query"), text("workspace_id")];
    proof {
        lemma_items_all(xs@, 2);
        assert(Seq::new(2, |i: int| jview(xs@[i])) =~= seq![jtext("query"@), jtext("workspace_id"@)]);
    }
    let required = array(xs);
    object3("type", text("object"), "properties", properties, "required", required)
}

/// The tools of the search endpoints: the semantic searches of decisions and
/// of context items, and the full semantic search with filters.
pub fn search_tools() -> (r: Vec<Tool>)
    ensures
        r@.len() == 3,
        r@[0].Name@ == "search_decisions"@,
        r@[0].Description@ == "Semantic search for decisions"@,
        jview(r@[0].InputSchema) == item_search_schema_view(),
        r@[1].Name@ == "search_context"@,
        r@[1].Description@ == "Semantic search for context items"@,
        jview(r@[1].InputSchema) == item_search_schema_view(),
        r@[2].Name@ == "semantic_search"@,
        r@[2].Description@ == "Full-featured semantic search with filters"@,
        jview(r@[2].InputSchema) == semantic_search_schema_view(),
{
    vec![
        Tool {
            Name: String::from_str("search_decisions"),
            Description: String::from_str("Semantic search for decisions"),
            InputSchema: item_search_schema(),
        },
        Tool {
            Name: String::from_str("search_context"),
            Description: String::from_str("Semantic search for context items"),
            InputSchema: item_search_schema(),
        },
        Tool {
            Name: String::from_str("semantic_search"),
            Description: String::from_str("Full-featured semantic search with filters"),
            InputSchema: semantic_search_schema(),
        },
    ]
}

} // verus!
