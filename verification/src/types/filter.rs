//! Common filter types: tag filters, pagination, sorting and the filter
//! arguments of the search tools.

use vstd::prelude::*;
use vstd::string::StringExecFns;

use crate::query::filter::has_tags;
use crate::text::views;

verus! {

/// Tag filter for including ALL specified tags (AND logic)
/// Items must have ALL tags in the list
pub struct TagFilterIncludeAll {
    pub tags: Vec<String>,
}

impl TagFilterIncludeAll {
    pub fn new(tags: Vec<String>) -> (r: Self)
        ensures
            views(r.tags@) == views(tags@),
    {
        TagFilterIncludeAll { tags }
    }

    pub fn validate(&self) -> (r: Result<(), String>)
        ensures
            r is Err <==> self.tags@.len() == 0,
            r matches Err(e) ==> e@ == "TagFilterIncludeAll requires at least one tag"@,
    {
        if self.tags.len() == 0 {
            return Err(String::from_str("TagFilterIncludeAll requires at least one tag"));
        }
        Ok(())
    }
}

/// Tag filter for including ANY specified tags (OR logic)
/// Items must have AT LEAST ONE tag in the list
pub struct TagFilterIncludeAny {
    pub tags: Vec<String>,
}

impl TagFilterIncludeAny {
    pub fn new(tags: Vec<String>) -> (r: Self)
        ensures
            views(r.tags@) == views(tags@),
    {
        TagFilterIncludeAny { tags }
    }

    pub fn validate(&self) -> (r: Result<(), String>)
        ensures
            r is Err <==> self.tags@.len() == 0,
            r matches Err(e) ==> e@ == "TagFilterIncludeAny requires at least one tag"@,
    {
        if self.tags.len() == 0 {
            return Err(String::from_str("TagFilterIncludeAny requires at least one tag"));
        }
        Ok(())
    }
}

/// Mutually exclusive tag filter
pub enum TagFilter {
    IncludeAll(TagFilterIncludeAll),
    IncludeAny(TagFilterIncludeAny),
}

impl TagFilter {
    /// The tags of the filter, whichever kind it is.
    pub open spec fn tag_list(&self) -> Seq<String> {
        match self {
            TagFilter::IncludeAll(f) => f.tags@,
            TagFilter::IncludeAny(f) => f.tags@,
        }
    }

    pub fn validate(&self) -> (r: Result<(), String>)
        ensures
            r is Err <==> self.tag_list().len() == 0,
            r matches Err(e) ==> e@ == match self {
                TagFilter::IncludeAll(_) => "TagFilterIncludeAll requires at least one tag"@,
                TagFilter::IncludeAny(_) => "TagFilterIncludeAny requires at least one tag"@,
            },
    {
        match self {
            TagFilter::IncludeAll(filter) => filter.validate(),
            TagFilter::IncludeAny(filter) => filter.validate(),
        }
    }

    pub fn tags(&self) -> (r: &[String])
        ensures
            r@ == self.tag_list(),
    {
        match self {
            TagFilter::IncludeAll(filter) => filter.tags.as_slice(),
            TagFilter::IncludeAny(filter) => filter.tags.as_slice(),
        }
    }
}

// ============================================================================
// Pagination
// ============================================================================

/// Pagination parameters for query results
#[derive(Debug, Clone, Copy)]
pub struct Pagination {
    pub offset: Option<usize>,
    pub limit: Option<usize>,
}

impl Default for Pagination {
    fn default() -> (r: Self)
        ensures
            r.offset == Some(0usize),
            r.limit == Some(50usize),
    {
        Pagination { offset: Some(0), limit: Some(50) }
    }
}

impl Pagination {
    pub fn new(offset: Option<usize>, limit: Option<usize>) -> (r: Self)
        ensures
            r.offset == offset,
            r.limit == limit,
    {
        Pagination { offset, limit }
    }

    pub fn with_limit(limit: usize) -> (r: Self)
        ensures
            r.offset == Some(0usize),
            r.limit == Some(limit),
    {
        Pagination { offset: Some(0), limit: Some(limit) }
    }

    pub fn offset(&self) -> (r: usize)
        ensures
            r == match self.offset {
                Some(o) => o,
                None => 0,
            },
    {
        match self.offset {
            Some(o) => o,
            None => 0,
        }
    }

    pub fn limit(&self) -> (r: usize)
        ensures
            r == match self.limit {
                Some(l) => l,
                None => 50,
            },
    {
        match self.limit {
            Some(l) => l,
            None => 50,
        }
    }
}

// ============================================================================
// Sorting
// ============================================================================

/// Sort direction for query results
#[derive(Debug, Clone, Copy, PartialEq, Eq, Structural)]
pub enum SortDirection {
    Asc,
    Desc,
}

impl Default for SortDirection {
    fn default() -> (r: Self)
        ensures
            r == SortDirection::Desc,
    {
        SortDirection::Desc
    }
}

/// Sort field for ordering results
#[derive(Debug, Clone, Copy, PartialEq, Eq, Structural)]
pub enum SortField {
    Timestamp,
    CreatedAt,
    UpdatedAt,
    Id,
    Name,
    Status,
}

impl Default for SortField {
    fn default() -> (r: Self)
        ensures
            r == SortField::Timestamp,
    {
        SortField::Timestamp
    }
}

/// The column name of a sort field.
pub open spec fn sort_field_column(f: SortField) -> Seq<char> {
    match f {
        SortField::Timestamp => "Timestamp"@,
        SortField::CreatedAt => "CreatedAt"@,
        SortField::UpdatedAt => "UpdatedAt"@,
        SortField::Id => "Id"@,
        SortField::Name => "Name"@,
        SortField::Status => "Status"@,
    }
}

/// The SQL keyword of a sort direction.
pub open spec fn sort_direction_keyword(d: SortDirection) -> Seq<char> {
    match d {
        SortDirection::Asc => "ASC"@,
        SortDirection::Desc => "DESC"@,
    }
}

/// Sorting parameters for query results
#[derive(Debug, Clone, Copy)]
pub struct Sorting {
    pub field: Option<SortField>,
    pub direction: Option<SortDirection>,
}

impl Default for Sorting {
    fn default() -> (r: Self)
        ensures
            r.field == Some(SortField::Timestamp),
            r.direction == Some(SortDirection::Desc),
    {
        Sorting { field: Some(SortField::default()), direction: Some(SortDirection::default()) }
    }
}

impl Sorting {
    /// The field to sort by, `Timestamp` where none is set.
    pub open spec fn field_or_default(&self) -> SortField {
        match self.field {
            Some(f) => f,
            None => SortField::Timestamp,
        }
    }

    /// The direction to sort in, descending where none is set.
    pub open spec fn direction_or_default(&self) -> SortDirection {
        match self.direction {
            Some(d) => d,
            None => SortDirection::Desc,
        }
    }

    pub fn new(field: Option<SortField>, direction: Option<SortDirection>) -> (r: Self)
        ensures
            r.field == field,
            r.direction == direction,
    {
        Sorting { field, direction }
    }

    pub fn field(&self) -> (r: SortField)
        ensures
            r == self.field_or_default(),
    {
        match self.field {
            Some(f) => f,
            None => SortField::default(),
        }
    }

    pub fn direction(&self) -> (r: SortDirection)
        ensures
            r == self.direction_or_default(),
    {
        match self.direction {
            Some(d) => d,
            None => SortDirection::default(),
        }
    }

    /// The ORDER BY term: the column, a space and the direction keyword.
    pub fn to_sql(&self) -> (r: String)
        ensures
            r@ == sort_field_column(self.field_or_default()) + " "@ + sort_direction_keyword(
                self.direction_or_default(),
            ),
    {
        let field_str = match self.field() {
            SortField::Timestamp => "Timestamp",
            SortField::CreatedAt => "CreatedAt",
            SortField::UpdatedAt => "UpdatedAt",
            SortField::Id => "Id",
            SortField::Name => "Name",
            SortField::Status => "Status",
        };
        let direction_str = match self.direction() {
            SortDirection::Asc => "ASC",
            SortDirection::Desc => "DESC",
        };
        let mut out = field_str.to_string();
        out.append(" ");
        out.append(direction_str);
        out
    }
}

// ============================================================================
// Combined Filter
// ============================================================================

/// Combined filter parameters for querying entities
pub struct EntityFilter {
    pub workspace_id: String,
    pub tag_filter: Option<TagFilter>,
    pub pagination: Option<Pagination>,
    pub sorting: Option<Sorting>,
    pub status_filter: Option<String>,
    pub parent_id_filter: Option<i64>,
}

impl EntityFilter {
    pub fn new(workspace_id: String) -> (r: Self)
        ensures
            r.workspace_id@ == workspace_id@,
            r.tag_filter is None,
            r.pagination is None,
            r.sorting is None,
            r.status_filter is None,
            r.parent_id_filter is None,
    {
        EntityFilter {
            workspace_id,
            tag_filter: None,
            pagination: None,
            sorting: None,
            status_filter: None,
            parent_id_filter: None,
        }
    }

    pub fn with_tags(self, tag_filter: TagFilter) -> (r: Self)
        ensures
            r.workspace_id == self.workspace_id,
            r.tag_filter == Some(tag_filter),
            r.pagination == self.pagination,
            r.sorting == self.sorting,
            r.status_filter == self.status_filter,
            r.parent_id_filter == self.parent_id_filter,
    {
        EntityFilter { tag_filter: Some(tag_filter), ..self }
    }

    pub fn with_pagination(self, pagination: Pagination) -> (r: Self)
        ensures
            r.workspace_id == self.workspace_id,
            r.tag_filter == self.tag_filter,
            r.pagination == Some(pagination),
            r.sorting == self.sorting,
            r.status_filter == self.status_filter,
            r.parent_id_filter == self.parent_id_filter,
    {
        EntityFilter { pagination: Some(pagination), ..self }
    }

    pub fn with_sorting(self, sorting: Sorting) -> (r: Self)
        ensures
            r.workspace_id == self.workspace_id,
            r.tag_filter == self.tag_filter,
            r.pagination == self.pagination,
            r.sorting == Some(sorting),
            r.status_filter == self.status_filter,
            r.parent_id_filter == self.parent_id_filter,
    {
        EntityFilter { sorting: Some(sorting), ..self }
    }

    pub fn with_status(self, status: String) -> (r: Self)
        ensures
            r.workspace_id == self.workspace_id,
            r.tag_filter == self.tag_filter,
            r.pagination == self.pagination,
            r.sorting == self.sorting,
            r.status_filter == Some(status),
            r.parent_id_filter == self.parent_id_filter,
    {
        EntityFilter { status_filter: Some(status), ..self }
    }

    pub fn with_parent_id(self, parent_id: i64) -> (r: Self)
        ensures
            r.workspace_id == self.workspace_id,
            r.tag_filter == self.tag_filter,
            r.pagination == self.pagination,
            r.sorting == self.sorting,
            r.status_filter == self.status_filter,
            r.parent_id_filter == Some(parent_id),
    {
        EntityFilter { parent_id_filter: Some(parent_id), ..self }
    }
}

// ============================================================================
// Search/Filter Arguments
// ============================================================================

/// The message for setting both tag filters of a search.
pub open spec fn both_tag_filters_message() -> Seq<char> {
    "Cannot use both tags_filter_include_all and tags_filter_include_any"@
}

/// Arguments for searching/decisions filtering
pub struct SearchDecisionsArgs {
    pub workspace_id: String,
    pub query: Option<String>,
    pub tags_filter_include_any: Option<Vec<String>>,
    pub tags_filter_include_all: Option<Vec<String>>,
    pub limit: Option<usize>,
    pub offset: Option<usize>,
}

/// Rejects the use of both tag filters with tags in them.
pub(crate) fn check_tag_filters(
    include_all: &Option<Vec<String>>,
    include_any: &Option<Vec<String>>,
) -> (r: Result<(), String>)
    ensures
        r is Err <==> has_tags(*include_all) && has_tags(*include_any),
        r matches Err(e) ==> e@ == both_tag_filters_message(),
{
    let has_include_all = match include_all {
        Some(v) => v.len() > 0,
        None => false,
    };
    let has_include_any = match include_any {
        Some(v) => v.len() > 0,
        None => false,
    };
    if has_include_all && has_include_any {
        return Err(
            String::from_str("Cannot use both tags_filter_include_all and tags_filter_include_any"),
        );
    }
    Ok(())
}

impl SearchDecisionsArgs {
    pub fn validate(&self) -> (r: Result<(), String>)
        ensures
            r is Err <==> has_tags(self.tags_filter_include_all) && has_tags(
                self.tags_filter_include_any,
            ),
            r matches Err(e) ==> e@ == both_tag_filters_message(),
    {
        check_tag_filters(&self.tags_filter_include_all, &self.tags_filter_include_any)
    }
}

/// Arguments for filtering system patterns
pub struct FilterSystemPatternsArgs {
    pub workspace_id: String,
    pub tags_filter_include_any: Option<Vec<String>>,
    pub tags_filter_include_all: Option<Vec<String>>,
    pub limit: Option<usize>,
    pub offset: Option<usize>,
    pub name_filter: Option<String>,
}

impl FilterSystemPatternsArgs {
    pub fn validate(&self) -> (r: Result<(), String>)
        ensures
            r is Err <==> has_tags(self.tags_filter_include_all) && has_tags(
                self.tags_filter_include_any,
            ),
            r matches Err(e) ==> e@ == both_tag_filters_message(),
    {
        check_tag_filters(&self.tags_filter_include_all, &self.tags_filter_include_any)
    }
}

/// Arguments for filtering custom data
pub struct FilterCustomDataArgs {
    pub workspace_id: String,
    pub category: Option<String>,
    pub key_filter: Option<String>,
    pub limit: Option<usize>,
    pub offset: Option<usize>,
}

/// Arguments for filtering progress entries
pub struct FilterProgressArgs {
    pub workspace_id: String,
    pub status_filter: Option<String>,
    pub parent_id_filter: Option<i64>,
    pub limit: Option<usize>,
    pub offset: Option<usize>,
}

impl FilterProgressArgs {
    pub fn new(workspace_id: String) -> (r: Self)
        ensures
            r.workspace_id@ == workspace_id@,
            r.status_filter is None,
            r.parent_id_filter is None,
            r.limit is None,
            r.offset is None,
    {
        FilterProgressArgs {
            workspace_id,
            status_filter: None,
            parent_id_filter: None,
            limit: None,
            offset: None,
        }
    }
}

} // verus!
