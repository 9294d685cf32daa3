//! The tools of the batch endpoints, with their input schemas.

use vstd::prelude::*;
use vstd::string::StringExecFns;

use crate::args::context::{jview, jview_items, jview_members, JsonValue, JsonView};

verus! {

/// A tool: its name, what it does, and the JSON schema of its input.
pub struct Tool {
    pub Name: String,
    pub Description: String,
    pub InputSchema: JsonValue,
}

/// A JSON string.
pub open spec fn jtext(s: Seq<char>) -> JsonView {
    JsonView::Text(s)
}

/// The schema of a value of a JSON type.
pub open spec fn typed(t: Seq<char>) -> JsonView {
    JsonView::Object(seq![("type"@, jtext(t))])
}

/// The input schema of a batch tool whose items carry `field`, of JSON type
/// `field_type`, besides their item type.
pub open spec fn batch_schema_view(field: Seq<char>, field_type: Seq<char>) -> JsonView {
    let item_type = JsonView::Object(
        seq![
            ("type"@, jtext("string"@)),
            (
                "enum"@,
                JsonView::Array(
                    seq![
                        jtext("decision"@),
                        jtext("progress_entry"@),
                        jtext("system_pattern"@),
                        jtext("custom_data"@),
                    ],
                ),
            ),
        ],
    );
    let item = JsonView::Object(
        seq![
            ("type"@, jtext("object"@)),
            ("properties"@, JsonView::Object(seq![("type"@, item_type), (field, typed(field_type))])),
            ("required"@, JsonView::Array(seq![jtext("type"@), jtext(field)])),
        ],
    );
    JsonView::Object(
        seq![
            ("type"@, jtext("object"@)),
            (
                "properties"@,
                JsonView::Object(
                    seq![
                        ("workspace_id"@, typed("string"@)),
                        ("items"@, JsonView::Object(seq![("type"@, jtext("array"@)), ("items"@, item)])),
                    ],
                ),
            ),
            ("required"@, JsonView::Array(seq![jtext("workspace_id"@), jtext("items"@)])),
        ],
    )
}

pub(crate) fn text(s: &str) -> (r: JsonValue)
    ensures
        jview(r) == jtext(s@),
{
    JsonValue::Text(String::from_str(s))
}

pub(crate) fn object(es: Vec<(String, JsonValue)>) -> (r: JsonValue)
    ensures
        jview(r) == JsonView::Object(jview_members(es@, es@.len() as int)),
{
    JsonValue::Object(es)
}

pub(crate) fn array(xs: Vec<JsonValue>) -> (r: JsonValue)
    ensures
        jview(r) == JsonView::Array(jview_items(xs@, xs@.len() as int)),
{
    JsonValue::Array(xs)
}

pub(crate) fn object1(k: &str, v: JsonValue) -> (r: JsonValue)
    ensures
        jview(r) == JsonView::Object(seq![(k@, jview(v))]),
{
    let ghost jv = jview(v);
    let es = vec![(String::from_str(k), v)];
    let r = object(es);
    assert(jview_members(es@, 0) =~= Seq::<(Seq<char>, JsonView)>::empty());
    assert(jview_members(es@, 1) =~= seq![(k@, jv)]);
    r
}

pub(crate) fn object2(k1: &str, v1: JsonValue, k2: &str, v2: JsonValue) -> (r: JsonValue)
    ensures
        jview(r) == JsonView::Object(seq![(k1@, jview(v1)), (k2@, jview(v2))]),
{
    let ghost j1 = jview(v1);
    let ghost j2 = jview(v2);
    let es = vec![(String::from_str(k1), v1), (String::from_str(k2), v2)];
    let r = object(es);
    assert(jview_members(es@, 0) =~= Seq::<(Seq<char>, JsonView)>::empty());
    assert(jview_members(es@, 1) =~= seq![(k1@, j1)]);
    assert(jview_members(es@, 2) =~= seq![(k1@, j1), (k2@, j2)]);
    r
}

pub(crate) fn object3(k1: &str, v1: JsonValue, k2: &str, v2: JsonValue, k3: &str, v3: JsonValue) -> (r: JsonValue)
    ensures
        jview(r) == JsonView::Object(seq![(k1@, jview(v1)), (k2@, jview(v2)), (k3@, jview(v3))]),
{
    let ghost j1 = jview(v1);
    let ghost j2 = jview(v2);
    let ghost j3 = jview(v3);
    let es = vec![(String::from_str(k1), v1), (String::from_str(k2), v2), (String::from_str(k3), v3)];
    let r = object(es);
    assert(jview_members(es@, 0) =~= Seq::<(Seq<char>, JsonView)>::empty());
    assert(jview_members(es@, 1) =~= seq![(k1@, j1)]);
    assert(jview_members(es@, 2) =~= seq![(k1@, j1), (k2@, j2)]);
    assert(jview_members(es@, 3) =~= seq![(k1@, j1), (k2@, j2), (k3@, j3)]);
    r
}

fn texts2(a: &str, b: &str) -> (r: JsonValue)
    ensures
        jview(r) == JsonView::Array(seq![jtext(a@), jtext(b@)]),
{
    let xs = vec![text(a), text(b)];
    let r = array(xs);
    assert(jview_items(xs@, 0) =~= Seq::<JsonView>::empty());
    assert(jview_items(xs@, 1) =~= seq![jtext(a@)]);
    assert(jview_items(xs@, 2) =~= seq![jtext(a@), jtext(b@)]);
    r
}

pub(crate) fn item_types() -> (r: JsonValue)
    ensures
        jview(r) == JsonView::Array(
            seq![jtext("decision"@), jtext("progress_entry"@), jtext("system_pattern"@), jtext("custom_data"@)],
        ),
{
    let xs = vec![text("decision"), text("progress_entry"), text("system_pattern"), text("custom_data")];
    let r = array(xs);
    assert(jview_items(xs@, 0) =~= Seq::<JsonView>::empty());
    assert(jview_items(xs@, 1) =~= seq![jtext("decision"@)]);
    assert(jview_items(xs@, 2) =~= seq![jtext("decision"@), jtext("progress_entry"@)]);
    assert(jview_items(xs@, 3) =~= seq![jtext("decision"@), jtext("progress_entry"@), jtext("system_pattern"@)]);
    assert(jview_items(xs@, 4) =~= seq![
        jtext("decision"@),
        jtext("progress_entry"@),
        jtext("system_pattern"@),
        jtext("custom_data"@),
    ]);
    r
}

/// The input schema of a batch tool whose items carry `field`, of JSON type
/// `field_type`, besides their item type.
pub fn batch_schema(field: &str, field_type: &str) -> (r: JsonValue)
    ensures
        jview(r) == batch_schema_view(field@, field_type@),
{
    let item_type = object2("type", text("string"), "enum", item_types());
    let properties = object2("type", item_type, field, object1("type", text(field_type)));
    let item = object3("type", text("object"), "properties", properties, "required", texts2("type", field));
    let items = object2("type", text("array"), "items", item);
    let top_properties = object2("workspace_id", object1("type", text("string")), "items", items);
    object3("type", text("object"), "properties", top_properties, "required", texts2("workspace_id", "items"))
}

/// The tools of the batch endpoints: logging items with embeddings, logging
/// them to the database only, and deleting them.
pub fn batch_tools() -> (r: Vec<Tool>)
    ensures
        r@.len() == 3,
        r@[0].Name@ == "batch_log_items"@,
        r@[0].Description@ == "Log multiple ConPort items in a single request (with vector embedding)"@,
        jview(r@[0].InputSchema) == batch_schema_view("data"@, "object"@),
        r@[1].Name@ == "batch_log_items_to_database"@,
        r@[1].Description@ == "Log multiple ConPort items directly to database without vector embedding"@,
        jview(r@[1].InputSchema) == batch_schema_view("data"@, "object"@),
        r@[2].Name@ == "batch_delete"@,
        r@[2].Description@ == "Delete multiple ConPort items in a single request"@,
        jview(r@[2].InputSchema) == batch_schema_view("id"@, "string"@),
{
    vec![
        Tool {
            Name: String::from_str("batch_log_items"),
            Description: String::from_str("Log multiple ConPort items in a single request (with vector embedding)"),
            InputSchema: batch_schema("data", "object"),
        },
        Tool {
            Name: String::from_str("batch_log_items_to_database"),
            Description: String::from_str("Log multiple ConPort items directly to database without vector embedding"),
            InputSchema: batch_schema("data", "object"),
        },
        Tool {
            Name: String::from_str("batch_delete"),
            Description: String::from_str("Delete multiple ConPort items in a single request"),
            InputSchema: batch_schema("id", "string"),
        },
    ]
}

} // verus!
