//! Schema definitions for all ConPort types, and validation against them.

use vstd::prelude::*;
use vstd::string::StringExecFns;

use crate::args::context::{Context, JsonValue};

verus! {

/// Schema version
pub const SCHEMA_VERSION: &'static str = "1.0.0";

/// Schema field definition
pub struct SchemaField {
    pub Name: String,
    pub Type: String,
    pub Required: bool,
    pub Description: String,
}

/// A field as its name, type, whether it is required, and its description.
pub open spec fn field_view(f: SchemaField) -> (Seq<char>, Seq<char>, bool, Seq<char>) {
    (f.Name@, f.Type@, f.Required, f.Description@)
}

/// The views of a list of fields.
pub open spec fn fields_view(fs: Seq<SchemaField>) -> Seq<(Seq<char>, Seq<char>, bool, Seq<char>)> {
    fs.map_values(|f: SchemaField| field_view(f))
}

fn field(name: &str, ty: &str, required: bool, description: &str) -> (r: SchemaField)
    ensures
        field_view(r) == (name@, ty@, required, description@),
{
    SchemaField {
        Name: name.to_string(),
        Type: ty.to_string(),
        Required: required,
        Description: description.to_string(),
    }
}

/// The fields of the schema for context entities.
pub open spec fn context_schema_fields() -> Seq<(Seq<char>, Seq<char>, bool, Seq<char>)> {
    seq![
        ("Id"@, "string"@, true, "Unique identifier for the context"@),
        ("Name"@, "string"@, true, "Human-readable name of the context"@),
        ("Content"@, "json"@, true, "JSON content of the context"@),
        ("WorkspacePath"@, "string"@, true, "Path to the workspace"@),
        ("CreatedAt"@, "string"@, true, "ISO 8601 timestamp of creation"@),
        ("UpdatedAt"@, "string"@, true, "ISO 8601 timestamp of last update"@),
    ]
}

/// Schema for context entities
pub struct ContextSchema {
    pub Version: String,
    pub Fields: Vec<SchemaField>,
}

impl Default for ContextSchema {
    fn default() -> (r: Self)
        ensures
            r.Version@ == SCHEMA_VERSION@,
            fields_view(r.Fields@) == context_schema_fields(),
    {
        let mut fields: Vec<SchemaField> = Vec::new();
        fields.push(field("Id", "string", true, "Unique identifier for the context"));
        fields.push(field("Name", "string", true, "Human-readable name of the context"));
        fields.push(field("Content", "json", true, "JSON content of the context"));
        fields.push(field("WorkspacePath", "string", true, "Path to the workspace"));
        fields.push(field("CreatedAt", "string", true, "ISO 8601 timestamp of creation"));
        fields.push(field("UpdatedAt", "string", true, "ISO 8601 timestamp of last update"));
        assert(fields_view(fields@) =~= context_schema_fields());
        ContextSchema { Version: SCHEMA_VERSION.to_string(), Fields: fields }
    }
}

/// The fields of the schema for decision entities.
pub open spec fn decision_schema_fields() -> Seq<(Seq<char>, Seq<char>, bool, Seq<char>)> {
    seq![
        ("Id"@, "string"@, true, "Unique identifier for the decision"@),
        ("WorkspaceId"@, "string"@, true, "Workspace identifier"@),
        ("Summary"@, "string"@, true, "Brief summary of the decision"@),
        ("Rationale"@, "string"@, false, "Reasoning behind the decision"@),
        ("ImplementationDetails"@, "string"@, false, "Implementation details"@),
        ("Tags"@, "array"@, false, "Tags for categorization"@),
        ("CreatedAt"@, "string"@, true, "ISO 8601 timestamp of creation"@),
    ]
}

/// Schema for decision entities
pub struct DecisionSchema {
    pub Version: String,
    pub Fields: Vec<SchemaField>,
}

impl Default for DecisionSchema {
    fn default() -> (r: Self)
        ensures
            r.Version@ == SCHEMA_VERSION@,
            fields_view(r.Fields@) == decision_schema_fields(),
    {
        let mut fields: Vec<SchemaField> = Vec::new();
        fields.push(field("Id", "string", true, "Unique identifier for the decision"));
        fields.push(field("WorkspaceId", "string", true, "Workspace identifier"));
        fields.push(field("Summary", "string", true, "Brief summary of the decision"));
        fields.push(field("Rationale", "string", false, "Reasoning behind the decision"));
        fields.push(field("ImplementationDetails", "string", false, "Implementation details"));
        fields.push(field("Tags", "array", false, "Tags for categorization"));
        fields.push(field("CreatedAt", "string", true, "ISO 8601 timestamp of creation"));
        assert(fields_view(fields@) =~= decision_schema_fields());
        DecisionSchema { Version: SCHEMA_VERSION.to_string(), Fields: fields }
    }
}

/// The fields of the schema for progress entry entities.
pub open spec fn progress_schema_fields() -> Seq<(Seq<char>, Seq<char>, bool, Seq<char>)> {
    seq![
        ("Id"@, "string"@, true, "Unique identifier for the progress entry"@),
        ("WorkspaceId"@, "string"@, true, "Workspace identifier"@),
        ("Status"@, "string"@, true, "Status (TODO, IN_PROGRESS, DONE)"@),
        ("Description"@, "string"@, true, "Description of the progress"@),
        ("ParentId"@, "string"@, false, "Parent task ID for subtasks"@),
        ("Timestamp"@, "string"@, true, "ISO 8601 timestamp"@),
        ("CreatedAt"@, "string"@, true, "ISO 8601 timestamp of creation"@),
        ("UpdatedAt"@, "string"@, true, "ISO 8601 timestamp of last update"@),
    ]
}

/// Schema for progress entry entities
pub struct ProgressSchema {
    pub Version: String,
    pub Fields: Vec<SchemaField>,
}

impl Default for ProgressSchema {
    fn default() -> (r: Self)
        ensures
            r.Version@ == SCHEMA_VERSION@,
            fields_view(r.Fields@) == progress_schema_fields(),
    {
        let mut fields: Vec<SchemaField> = Vec::new();
        fields.push(field("Id", "string", true, "Unique identifier for the progress entry"));
        fields.push(field("WorkspaceId", "string", true, "Workspace identifier"));
        fields.push(field("Status", "string", true, "Status (TODO, IN_PROGRESS, DONE)"));
        fields.push(field("Description", "string", true, "Description of the progress"));
        fields.push(field("ParentId", "string", false, "Parent task ID for subtasks"));
        fields.push(field("Timestamp", "string", true, "ISO 8601 timestamp"));
        fields.push(field("CreatedAt", "string", true, "ISO 8601 timestamp of creation"));
        fields.push(field("UpdatedAt", "string", true, "ISO 8601 timestamp of last update"));
        assert(fields_view(fields@) =~= progress_schema_fields());
        ProgressSchema { Version: SCHEMA_VERSION.to_string(), Fields: fields }
    }
}

/// The fields of the schema for system pattern entities.
pub open spec fn system_pattern_schema_fields() -> Seq<(Seq<char>, Seq<char>, bool, Seq<char>)> {
    seq![
        ("Id"@, "string"@, true, "Unique identifier for the system pattern"@),
        ("WorkspaceId"@, "string"@, true, "Workspace identifier"@),
        ("Name"@, "string"@, true, "Name of the pattern"@),
        ("Description"@, "string"@, false, "Description of the pattern"@),
        ("Tags"@, "array"@, false, "Tags for categorization"@),
        ("Timestamp"@, "string"@, true, "ISO 8601 timestamp"@),
        ("CreatedAt"@, "string"@, true, "ISO 8601 timestamp of creation"@),
    ]
}

/// Schema for system pattern entities
pub struct SystemPatternSchema {
    pub Version: String,
    pub Fields: Vec<SchemaField>,
}

impl Default for SystemPatternSchema {
    fn default() -> (r: Self)
        ensures
            r.Version@ == SCHEMA_VERSION@,
            fields_view(r.Fields@) == system_pattern_schema_fields(),
    {
        let mut fields: Vec<SchemaField> = Vec::new();
        fields.push(field("Id", "string", true, "Unique identifier for the system pattern"));
        fields.push(field("WorkspaceId", "string", true, "Workspace identifier"));
        fields.push(field("Name", "string", true, "Name of the pattern"));
        fields.push(field("Description", "string", false, "Description of the pattern"));
        fields.push(field("Tags", "array", false, "Tags for categorization"));
        fields.push(field("Timestamp", "string", true, "ISO 8601 timestamp"));
        fields.push(field("CreatedAt", "string", true, "ISO 8601 timestamp of creation"));
        assert(fields_view(fields@) =~= system_pattern_schema_fields());
        SystemPatternSchema { Version: SCHEMA_VERSION.to_string(), Fields: fields }
    }
}

/// The fields of the schema for custom data entities.
pub open spec fn custom_data_schema_fields() -> Seq<(Seq<char>, Seq<char>, bool, Seq<char>)> {
    seq![
        ("Id"@, "string"@, true, "Unique identifier for the custom data"@),
        ("WorkspaceId"@, "string"@, true, "Workspace identifier"@),
        ("Category"@, "string"@, true, "Category for the custom data"@),
        ("Key"@, "string"@, true, "Key for the custom data"@),
        ("Value"@, "json"@, true, "Value (any JSON type)"@),
        ("CreatedAt"@, "string"@, true, "ISO 8601 timestamp of creation"@),
        ("UpdatedAt"@, "string"@, true, "ISO 8601 timestamp of last update"@),
    ]
}

/// Schema for custom data entities
pub struct CustomDataSchema {
    pub Version: String,
    pub Fields: Vec<SchemaField>,
}

impl Default for CustomDataSchema {
    fn default() -> (r: Self)
        ensures
            r.Version@ == SCHEMA_VERSION@,
            fields_view(r.Fields@) == custom_data_schema_fields(),
    {
        let mut fields: Vec<SchemaField> = Vec::new();
        fields.push(field("Id", "string", true, "Unique identifier for the custom data"));
        fields.push(field("WorkspaceId", "string", true, "Workspace identifier"));
        fields.push(field("Category", "string", true, "Category for the custom data"));
        fields.push(field("Key", "string", true, "Key for the custom data"));
        fields.push(field("Value", "json", true, "Value (any JSON type)"));
        fields.push(field("CreatedAt", "string", true, "ISO 8601 timestamp of creation"));
        fields.push(field("UpdatedAt", "string", true, "ISO 8601 timestamp of last update"));
        assert(fields_view(fields@) =~= custom_data_schema_fields());
        CustomDataSchema { Version: SCHEMA_VERSION.to_string(), Fields: fields }
    }
}

/// The fields of the schema for context links.
pub open spec fn context_link_schema_fields() -> Seq<(Seq<char>, Seq<char>, bool, Seq<char>)> {
    seq![
        ("Id"@, "string"@, true, "Unique identifier for the link"@),
        ("WorkspaceId"@, "string"@, true, "Workspace identifier"@),
        ("SourceItemType"@, "string"@, true, "Type of source item"@),
        ("SourceItemId"@, "string"@, true, "ID of source item"@),
        ("TargetItemType"@, "string"@, true, "Type of target item"@),
        ("TargetItemId"@, "string"@, true, "ID of target item"@),
        ("RelationshipType"@, "string"@, true, "Type of relationship"@),
        ("Description"@, "string"@, false, "Optional description"@),
        ("CreatedAt"@, "string"@, true, "ISO 8601 timestamp of creation"@),
    ]
}

/// Schema for context links
pub struct ContextLinkSchema {
    pub Version: String,
    pub Fields: Vec<SchemaField>,
}

impl Default for ContextLinkSchema {
    fn default() -> (r: Self)
        ensures
            r.Version@ == SCHEMA_VERSION@,
            fields_view(r.Fields@) == context_link_schema_fields(),
    {
        let mut fields: Vec<SchemaField> = Vec::new();
        fields.push(field("Id", "string", true, "Unique identifier for the link"));
        fields.push(field("WorkspaceId", "string", true, "Workspace identifier"));
        fields.push(field("SourceItemType", "string", true, "Type of source item"));
        fields.push(field("SourceItemId", "string", true, "ID of source item"));
        fields.push(field("TargetItemType", "string", true, "Type of target item"));
        fields.push(field("TargetItemId", "string", true, "ID of target item"));
        fields.push(field("RelationshipType", "string", true, "Type of relationship"));
        fields.push(field("Description", "string", false, "Optional description"));
        fields.push(field("CreatedAt", "string", true, "ISO 8601 timestamp of creation"));
        assert(fields_view(fields@) =~= context_link_schema_fields());
        ContextLinkSchema { Version: SCHEMA_VERSION.to_string(), Fields: fields }
    }
}

/// All schemas combined
pub struct AllSchemas {
    pub Version: String,
    pub Context: ContextSchema,
    pub Decision: DecisionSchema,
    pub Progress: ProgressSchema,
    pub SystemPattern: SystemPatternSchema,
    pub CustomData: CustomDataSchema,
    pub ContextLink: ContextLinkSchema,
}

impl Default for AllSchemas {
    fn default() -> (r: Self)
        ensures
            r.Version@ == SCHEMA_VERSION@,
            r.Context.Version@ == SCHEMA_VERSION@,
            fields_view(r.Context.Fields@) == context_schema_fields(),
            r.Decision.Version@ == SCHEMA_VERSION@,
            fields_view(r.Decision.Fields@) == decision_schema_fields(),
            r.Progress.Version@ == SCHEMA_VERSION@,
            fields_view(r.Progress.Fields@) == progress_schema_fields(),
            r.SystemPattern.Version@ == SCHEMA_VERSION@,
            fields_view(r.SystemPattern.Fields@) == system_pattern_schema_fields(),
            r.CustomData.Version@ == SCHEMA_VERSION@,
            fields_view(r.CustomData.Fields@) == custom_data_schema_fields(),
            r.ContextLink.Version@ == SCHEMA_VERSION@,
            fields_view(r.ContextLink.Fields@) == context_link_schema_fields(),
    {
        AllSchemas {
            Version: SCHEMA_VERSION.to_string(),
            Context: ContextSchema::default(),
            Decision: DecisionSchema::default(),
            Progress: ProgressSchema::default(),
            SystemPattern: SystemPatternSchema::default(),
            CustomData: CustomDataSchema::default(),
            ContextLink: ContextLinkSchema::default(),
        }
    }
}

// ============================================================================
// Validation functions
// ============================================================================

/// Validation error
pub struct ValidationError {
    pub Field: String,
    pub Message: String,
}

/// The field and message of a validation error.
pub open spec fn error_view(e: ValidationError) -> (Seq<char>, Seq<char>) {
    (e.Field@, e.Message@)
}

/// The errors of a context: one for each of the identifier, the name and the
/// workspace path that is empty, in that order.
pub open spec fn context_errors(ctx: Context) -> Seq<(Seq<char>, Seq<char>)> {
    (if ctx.Id@.len() == 0 {
        seq![("Id"@, "Id cannot be empty"@)]
    } else {
        Seq::empty()
    }) + (if ctx.Name@.len() == 0 {
        seq![("Name"@, "Name cannot be empty"@)]
    } else {
        Seq::empty()
    }) + (if ctx.WorkspacePath@.len() == 0 {
        seq![("WorkspacePath"@, "WorkspacePath cannot be empty"@)]
    } else {
        Seq::empty()
    })
}

/// Validate a context against its schema
pub fn ValidateContext(ctx: &Context) -> (r: Result<(), Vec<ValidationError>>)
    ensures
        context_errors(*ctx).len() == 0 <==> r is Ok,
        r matches Err(es) ==> es@.map_values(|e: ValidationError| error_view(e)) == context_errors(
            *ctx,
        ),
{
    let mut errors: Vec<ValidationError> = Vec::new();
    if ctx.Id.as_str().is_empty() {
        errors.push(
            ValidationError {
                Field: String::from_str("Id"),
                Message: String::from_str("Id cannot be empty"),
            },
        );
    }
    let ghost a = errors@.map_values(|e: ValidationError| error_view(e));
    if ctx.Name.as_str().is_empty() {
        errors.push(
            ValidationError {
                Field: String::from_str("Name"),
                Message: String::from_str("Name cannot be empty"),
            },
        );
    }
    let ghost b = errors@.map_values(|e: ValidationError| error_view(e));
    if ctx.WorkspacePath.as_str().is_empty() {
        errors.push(
            ValidationError {
                Field: String::from_str("WorkspacePath"),
                Message: String::from_str("WorkspacePath cannot be empty"),
            },
        );
    }
    assert(errors@.map_values(|e: ValidationError| error_view(e)) =~= context_errors(*ctx));
    if errors.len() == 0 {
        Ok(())
    } else {
        Err(errors)
    }
}

/// Whether a JSON value is of the named field type: "json" admits every
/// value, an unknown type name none.
pub open spec fn type_matches(value: JsonValue, expected: Seq<char>) -> bool {
    if expected == "string"@ {
        value is Text
    } else if expected == "number"@ {
        value is Number
    } else if expected == "boolean"@ {
        value is Bool
    } else if expected == "array"@ {
        value is Array
    } else if expected == "object"@ {
        value is Object
    } else if expected == "json"@ {
        true
    } else if expected == "null"@ {
        value is Null
    } else {
        false
    }
}

/// Validate a JSON value against a field type
pub fn ValidateFieldType(value: &JsonValue, expected_type: &str) -> (r: bool)
    ensures
        r == type_matches(*value, expected_type@),
{
    if crate::text::str_eq(expected_type, "string") {
        matches!(value, JsonValue::Text(_))
    } else if crate::text::str_eq(expected_type, "number") {
        matches!(value, JsonValue::Number(_))
    } else if crate::text::str_eq(expected_type, "boolean") {
        matches!(value, JsonValue::Bool(_))
    } else if crate::text::str_eq(expected_type, "array") {
        matches!(value, JsonValue::Array(_))
    } else if crate::text::str_eq(expected_type, "object") {
        matches!(value, JsonValue::Object(_))
    } else if crate::text::str_eq(expected_type, "json") {
        true
    } else if crate::text::str_eq(expected_type, "null") {
        matches!(value, JsonValue::Null)
    } else {
        false
    }
}

/// The error of a value for a field, if there is one: a required field may not
/// be null, and a value that is not null must be of the field's type.
pub open spec fn field_error(value: JsonValue, field: SchemaField) -> Option<(Seq<char>, Seq<char>)> {
    if field.Required && value is Null {
        Some((field.Name@, "Field "@ + field.Name@ + " is required"@))
    } else if !(value is Null) && !type_matches(value, field.Type@) {
        Some(
            (
                field.Name@,
                "Field "@ + field.Name@ + " has invalid type. Expected "@ + field.Type@,
            ),
        )
    } else {
        None
    }
}

/// Check if a value is valid for a given field
pub fn ValidateField(value: &JsonValue, field: &SchemaField) -> (r: Result<(), ValidationError>)
    ensures
        match field_error(*value, *field) {
            None => r is Ok,
            Some(e) => r matches Err(v) && error_view(v) == e,
        },
{
    let is_null = matches!(value, JsonValue::Null);
    if field.Required && is_null {
        let mut m = String::from_str("Field ");
        m.append(field.Name.as_str());
        m.append(" is required");
        return Err(ValidationError { Field: field.Name.clone(), Message: m });
    }
    if !is_null && !ValidateFieldType(value, field.Type.as_str()) {
        let mut m = String::from_str("Field ");
        m.append(field.Name.as_str());
        m.append(" has invalid type. Expected ");
        m.append(field.Type.as_str());
        return Err(ValidationError { Field: field.Name.clone(), Message: m });
    }
    Ok(())
}

} // verus!
