//! Tag filtering: SQL WHERE clauses for include-all and include-any tag
//! filters, and a builder for complete filtered queries.

use vstd::prelude::*;
use vstd::string::StringExecFns;

use crate::text::{decimal, join, join_strings, views};

verus! {

/// Tag filter mode
#[derive(Debug, Clone, Copy, PartialEq, Eq, Structural)]
pub enum TagFilterMode {
    /// Include items with ALL tags (AND logic)
    IncludeAll,
    /// Include items with ANY tag (OR logic)
    IncludeAny,
}

/// A value bound to a `?` placeholder of a SQL statement.
pub enum SqlParam {
    Text(String),
    Integer(i64),
    Null,
}

/// What a bound SQL value holds.
pub enum SqlValue {
    Text(Seq<char>),
    Integer(int),
    Null,
}

impl SqlParam {
    pub open spec fn value(&self) -> SqlValue {
        match self {
            SqlParam::Text(s) => SqlValue::Text(s@),
            SqlParam::Integer(i) => SqlValue::Integer(*i as int),
            SqlParam::Null => SqlValue::Null,
        }
    }
}

/// The values bound by a list of parameters.
pub open spec fn param_values(ps: Seq<SqlParam>) -> Seq<SqlValue> {
    ps.map_values(|p: SqlParam| p.value())
}

/// Result of building a tag filter SQL query
pub struct TagFilterSql {
    pub where_clause: String,
    pub params: Vec<SqlParam>,
}

impl TagFilterSql {
    pub fn new(where_clause: String, params: Vec<SqlParam>) -> (r: Self)
        ensures
            r.where_clause@ == where_clause@,
            param_values(r.params@) == param_values(params@),
    {
        TagFilterSql { where_clause, params }
    }

    pub fn is_empty(&self) -> (r: bool)
        ensures
            r == (self.where_clause@.len() == 0),
    {
        self.where_clause.as_str().is_empty()
    }
}

/// Tag filter input parameters
pub struct TagFilterInput {
    pub tags: Vec<String>,
    pub mode: TagFilterMode,
}

impl TagFilterInput {
    pub fn new_include_all(tags: Vec<String>) -> (r: Self)
        ensures
            views(r.tags@) == views(tags@),
            r.mode == TagFilterMode::IncludeAll,
    {
        TagFilterInput { tags, mode: TagFilterMode::IncludeAll }
    }

    pub fn new_include_any(tags: Vec<String>) -> (r: Self)
        ensures
            views(r.tags@) == views(tags@),
            r.mode == TagFilterMode::IncludeAny,
    {
        TagFilterInput { tags, mode: TagFilterMode::IncludeAny }
    }

    pub fn validate(&self) -> (r: Result<(), String>)
        ensures
            r is Err <==> self.tags@.len() == 0,
            r matches Err(e) ==> e@ == "Tag filter requires at least one tag"@,
    {
        if self.tags.len() == 0 {
            return Err(String::from_str("Tag filter requires at least one tag"));
        }
        Ok(())
    }
}

/// Whether some tag is the empty string.
pub open spec fn has_empty_tag(tags: Seq<Seq<char>>) -> bool {
    exists|i: int| 0 <= i < tags.len() && tags[i].len() == 0
}

fn find_empty_tag(tags: &[String]) -> (r: bool)
    ensures
        r == has_empty_tag(views(tags@)),
{
    let mut i: usize = 0;
    while i < tags.len()
        invariant
            i <= tags.len(),
            forall|j: int| 0 <= j < i ==> tags@[j]@.len() != 0,
        decreases tags.len() - i,
    {
        if tags[i].as_str().is_empty() {
            assert(views(tags@)[i as int].len() == 0);
            return true;
        }
        i = i + 1;
    }
    assert forall|j: int| 0 <= j < views(tags@).len() implies views(tags@)[j].len() != 0 by {
        assert(views(tags@)[j] == tags@[j]@);
    }
    false
}

/// `n` copies of `s`.
pub open spec fn repeated(s: Seq<char>, n: nat) -> Seq<Seq<char>> {
    Seq::new(n, |i: int| s)
}

/// The LIKE pattern that finds a tag in a JSON array column: `%"tag"%`.
pub open spec fn like_pattern(tag: Seq<char>) -> Seq<char> {
    "%\""@ + tag + "\"%"@
}

/// The LIKE filter binds one pattern per tag, in order: the tag between
/// double quotes, between `%` wildcards, so that it matches a whole JSON
/// string element of the column and not a part of a longer tag.
pub proof fn lemma_like_params(tags: Seq<Seq<char>>, include_all: bool, column: Seq<char>)
    ensures
        like_filter(tags, include_all, column).1.len() == tags.len(),
        forall|i: int|
            0 <= i < tags.len() ==> #[trigger] like_filter(tags, include_all, column).1[i] == SqlValue::Text(
                seq!['%', '"'] + tags[i] + seq!['"', '%'],
            ),
{
    reveal_strlit("%\"");
    reveal_strlit("\"%");
    assert("%\""@ =~= seq!['%', '"']);
    assert("\"%"@ =~= seq!['"', '%']);
}

/// The WHERE clause and bound values of the LIKE-based tag filter.
pub open spec fn like_filter(tags: Seq<Seq<char>>, include_all: bool, column: Seq<char>) -> (
    Seq<char>,
    Seq<SqlValue>,
) {
    if tags.len() == 0 {
        (Seq::empty(), Seq::empty())
    } else {
        (
            "("@ + join(
                repeated(column + " LIKE ?"@, tags.len()),
                if include_all {
                    " AND "@
                } else {
                    " OR "@
                },
            ) + ")"@,
            tags.map_values(|t: Seq<char>| SqlValue::Text(like_pattern(t))),
        )
    }
}

/// Build SQL WHERE clause for tag filtering
///
/// # Arguments
/// * `tags` - List of tags to filter by
/// * `include_all` - If true, items must have ALL tags (AND). If false, items must have ANY tag (OR)
/// * `tags_column` - The column name containing the JSON tags array
pub fn BuildTagFilterSql(tags: &[String], include_all: bool, tags_column: &str) -> (r: Result<
    TagFilterSql,
    String,
>)
    ensures
        tags@.len() > 0 && has_empty_tag(views(tags@)) <==> r is Err,
        r matches Err(e) ==> e@ == "Tag cannot be empty"@,
        r matches Ok(sql) ==> (sql.where_clause@, param_values(sql.params@)) == like_filter(
            views(tags@),
            include_all,
            tags_column@,
        ),
{
    if tags.len() == 0 {
        return Ok(TagFilterSql::new(String::new(), Vec::new()));
    }
    if find_empty_tag(tags) {
        return Err(String::from_str("Tag cannot be empty"));
    }
    let mut params: Vec<SqlParam> = Vec::new();
    let mut clauses: Vec<String> = Vec::new();
    let ghost clause = tags_column@ + " LIKE ?"@;
    let ghost vals = views(tags@).map_values(|t: Seq<char>| SqlValue::Text(like_pattern(t)));
    let mut i: usize = 0;
    while i < tags.len()
        invariant
            i <= tags.len(),
            clause == tags_column@ + " LIKE ?"@,
            vals == views(tags@).map_values(|t: Seq<char>| SqlValue::Text(like_pattern(t))),
            views(clauses@) == repeated(clause, i as nat),
            param_values(params@) == vals.take(i as int),
        decreases tags.len() - i,
    {
        let mut p = String::from_str("%\"");
        p.append(tags[i].as_str());
        p.append("\"%");
        let ghost pv = param_values(params@);
        params.push(SqlParam::Text(p));
        assert(param_values(params@) =~= pv.push(SqlValue::Text(like_pattern(tags@[i as int]@))));
        assert(vals.take(i + 1) =~= vals.take(i as int).push(SqlValue::Text(like_pattern(tags@[i as int]@))));
        let mut c = tags_column.to_string();
        c.append(" LIKE ?");
        let ghost cv = views(clauses@);
        clauses.push(c);
        assert(views(clauses@) =~= cv.push(c@));
        assert(views(clauses@) =~= repeated(clause, (i + 1) as nat));
        i = i + 1;
    }
    assert(vals.take(tags.len() as int) =~= vals);
    let joined = if include_all {
        join_strings(&clauses, " AND ")
    } else {
        join_strings(&clauses, " OR ")
    };
    let mut where_clause = String::from_str("(");
    where_clause.append(joined.as_str());
    where_clause.append(")");
    Ok(TagFilterSql::new(where_clause, params))
}

/// The WHERE clause and bound values of the `json_each` tag filter.
pub open spec fn json_each_filter(tags: Seq<Seq<char>>, include_all: bool, column: Seq<char>) -> (
    Seq<char>,
    Seq<SqlValue>,
) {
    if tags.len() == 0 {
        (Seq::empty(), Seq::empty())
    } else {
        (
            if include_all {
                "EXISTS (SELECT 1 FROM json_each("@ + column + ") AS je WHERE "@ + "value IN ("@ + join(
                    repeated("?"@, tags.len()),
                    ", "@,
                ) + ") HAVING COUNT(DISTINCT value) = "@ + decimal(tags.len()) + ")"@
            } else {
                "EXISTS (SELECT 1 FROM json_each("@ + column + ") AS je WHERE "@ + join(
                    repeated("value = ?"@, tags.len()),
                    " OR "@,
                ) + " LIMIT 1)"@
            },
            tags.map_values(|t: Seq<char>| SqlValue::Text(t)),
        )
    }
}

/// Build tag filter for JSON array column using json_each
/// This is more precise for SQLite JSON columns: with `include_all` an item
/// is kept when every tag is among its array's values (the values that are
/// one of the tags, counted once each, number as many as the tags), else when
/// one of them is.
pub fn BuildTagFilterSqlJsonEach(tags: &[String], include_all: bool, tags_column: &str) -> (r:
    Result<TagFilterSql, String>)
    ensures
        tags@.len() > 0 && has_empty_tag(views(tags@)) <==> r is Err,
        r matches Err(e) ==> e@ == "Tag cannot be empty"@,
        r matches Ok(sql) ==> (sql.where_clause@, param_values(sql.params@)) == json_each_filter(
            views(tags@),
            include_all,
            tags_column@,
        ),
{
    if tags.len() == 0 {
        return Ok(TagFilterSql::new(String::new(), Vec::new()));
    }
    if find_empty_tag(tags) {
        return Err(String::from_str("Tag cannot be empty"));
    }
    let mut params: Vec<SqlParam> = Vec::new();
    let mut conds: Vec<String> = Vec::new();
    let mut marks: Vec<String> = Vec::new();
    let ghost vals = views(tags@).map_values(|t: Seq<char>| SqlValue::Text(t));
    let mut i: usize = 0;
    while i < tags.len()
        invariant
            i <= tags.len(),
            vals == views(tags@).map_values(|t: Seq<char>| SqlValue::Text(t)),
            views(conds@) == repeated("value = ?"@, i as nat),
            views(marks@) == repeated("?"@, i as nat),
            param_values(params@) == vals.take(i as int),
        decreases tags.len() - i,
    {
        let ghost pv = param_values(params@);
        params.push(SqlParam::Text(tags[i].clone()));
        assert(param_values(params@) =~= pv.push(SqlValue::Text(tags@[i as int]@)));
        assert(vals.take(i + 1) =~= vals.take(i as int).push(SqlValue::Text(tags@[i as int]@)));
        let ghost cv = views(conds@);
        let item = String::from_str("value = ?");
        conds.push(item);
        assert(views(conds@) =~= cv.push(item@));
        assert(views(conds@) =~= repeated("value = ?"@, (i + 1) as nat));
        let ghost mv = views(marks@);
        let mark = String::from_str("?");
        marks.push(mark);
        assert(views(marks@) =~= mv.push(mark@));
        assert(views(marks@) =~= repeated("?"@, (i + 1) as nat));
        i = i + 1;
    }
    assert(vals.take(tags.len() as int) =~= vals);
    let mut out = String::from_str("EXISTS (SELECT 1 FROM json_each(");
    out.append(tags_column);
    out.append(") AS je WHERE ");
    if include_all {
        out.append("value IN (");
        let joined = join_strings(&marks, ", ");
        out.append(joined.as_str());
        out.append(") HAVING COUNT(DISTINCT value) = ");
        let n = crate::text::u64_to_string(tags.len() as u64);
        out.append(n.as_str());
        out.append(")");
    } else {
        let joined = join_strings(&conds, " OR ");
        out.append(joined.as_str());
        out.append(" LIMIT 1)");
    }
    Ok(TagFilterSql::new(out, params))
}

/// Whether an optional tag list holds at least one tag.
pub open spec fn has_tags(tags: Option<Vec<String>>) -> bool {
    match tags {
        Some(v) => v@.len() > 0,
        None => false,
    }
}

/// The message for using both tag filters at once.
pub open spec fn both_filters_message() -> Seq<char> {
    "Cannot use both tags_filter_include_all and tags_filter_include_any simultaneously. Use one or the other, not both."@
}

/// Validate mutual exclusivity of include_all and include_any
pub fn validate_mutual_exclusivity(
    include_all: &Option<Vec<String>>,
    include_any: &Option<Vec<String>>,
) -> (r: Result<(), String>)
    ensures
        r is Err <==> has_tags(*include_all) && has_tags(*include_any),
        r matches Err(e) ==> e@ == both_filters_message(),
{
    let has_include_all = match include_all {
        Some(v) => v.len() > 0,
        None => false,
    };
    let has_include_any = match include_any {
        Some(v) => v.len() > 0,
        None => false,
    };
    if has_include_all && has_include_any {
        return Err(
            String::from_str(
                "Cannot use both tags_filter_include_all and tags_filter_include_any simultaneously. Use one or the other, not both.",
            ),
        );
    }
    Ok(())
}

/// Determine tag filter mode and get tags from input: none where both filters
/// hold tags or neither does; else the filter that holds tags.
pub fn resolve_tag_filter(
    include_all: &Option<Vec<String>>,
    include_any: &Option<Vec<String>>,
) -> (r: Option<TagFilterInput>)
    ensures
        has_tags(*include_all) && has_tags(*include_any) ==> r is None,
        !has_tags(*include_all) && !has_tags(*include_any) ==> r is None,
        has_tags(*include_all) && !has_tags(*include_any) ==> (r matches Some(f) && f.mode
            == TagFilterMode::IncludeAll && views(f.tags@) == views(include_all->0@)),
        !has_tags(*include_all) && has_tags(*include_any) ==> (r matches Some(f) && f.mode
            == TagFilterMode::IncludeAny && views(f.tags@) == views(include_any->0@)),
{
    if validate_mutual_exclusivity(include_all, include_any).is_err() {
        return None;
    }
    if let Some(tags) = include_all {
        if tags.len() > 0 {
            return Some(TagFilterInput::new_include_all(tags.clone()));
        }
    }
    if let Some(tags) = include_any {
        if tags.len() > 0 {
            return Some(TagFilterInput::new_include_any(tags.clone()));
        }
    }
    None
}


// ============================================================================
// Combined Filter Building
// ============================================================================

/// Build complete filter SQL with tags, pagination, and sorting
pub struct FilterSqlBuilder {
    base_query: String,
    conditions: Vec<String>,
    params: Vec<SqlParam>,
}

/// The query that a builder gives: the base query, the conditions joined by
/// ` AND ` after ` WHERE ` where there are any, then ` ORDER BY`, ` LIMIT` and
/// ` OFFSET` parts where they are given.
pub open spec fn built_query(
    base: Seq<char>,
    conditions: Seq<Seq<char>>,
    order_by: Option<Seq<char>>,
    offset: Option<nat>,
    limit: Option<nat>,
) -> Seq<char> {
    base + (if conditions.len() > 0 {
        " WHERE "@ + join(conditions, " AND "@)
    } else {
        Seq::empty()
    }) + (match order_by {
        Some(o) => " ORDER BY "@ + o,
        None => Seq::empty(),
    }) + (match limit {
        Some(l) => " LIMIT "@ + decimal(l),
        None => Seq::empty(),
    }) + (match offset {
        Some(o) => " OFFSET "@ + decimal(o),
        None => Seq::empty(),
    })
}

impl FilterSqlBuilder {
    /// The base query.
    pub closed spec fn base(&self) -> Seq<char> {
        self.base_query@
    }

    /// The conditions added so far, in order.
    pub closed spec fn conditions(&self) -> Seq<Seq<char>> {
        views(self.conditions@)
    }

    /// The values bound so far, in order.
    pub closed spec fn bound(&self) -> Seq<SqlValue> {
        param_values(self.params@)
    }

    pub fn new(base_query: &str) -> (r: Self)
        ensures
            r.base() == base_query@,
            r.conditions() == Seq::<Seq<char>>::empty(),
            r.bound() == Seq::<SqlValue>::empty(),
    {
        let r = FilterSqlBuilder {
            base_query: base_query.to_string(),
            conditions: Vec::new(),
            params: Vec::new(),
        };
        assert(views(r.conditions@) =~= Seq::<Seq<char>>::empty());
        assert(param_values(r.params@) =~= Seq::<SqlValue>::empty());
        r
    }

    fn add(self, condition: String, param: SqlParam) -> (r: Self)
        ensures
            r.base() == self.base(),
            r.conditions() == self.conditions().push(condition@),
            r.bound() == self.bound().push(param.value()),
    {
        let ghost c0 = self.conditions();
        let ghost b0 = self.bound();
        let ghost cv = condition@;
        let ghost pv = param.value();
        let mut b = self;
        b.conditions.push(condition);
        b.params.push(param);
        assert(views(b.conditions@) =~= c0.push(cv));
        assert(param_values(b.params@) =~= b0.push(pv));
        b
    }

    /// Add workspace filter
    pub fn with_workspace(self, workspace_id: &str) -> (r: Self)
        ensures
            r.base() == self.base(),
            r.conditions() == self.conditions().push("WorkspaceId = ?"@),
            r.bound() == self.bound().push(SqlValue::Text(workspace_id@)),
    {
        self.add(String::from_str("WorkspaceId = ?"), SqlParam::Text(workspace_id.to_string()))
    }

    /// Add status filter
    pub fn with_status(self, status: &str) -> (r: Self)
        ensures
            r.base() == self.base(),
            r.conditions() == self.conditions().push("Status = ?"@),
            r.bound() == self.bound().push(SqlValue::Text(status@)),
    {
        self.add(String::from_str("Status = ?"), SqlParam::Text(status.to_string()))
    }

    /// Add parent ID filter
    pub fn with_parent_id(self, parent_id: i64) -> (r: Self)
        ensures
            r.base() == self.base(),
            r.conditions() == self.conditions().push("ParentId = ?"@),
            r.bound() == self.bound().push(SqlValue::Integer(parent_id as int)),
    {
        self.add(String::from_str("ParentId = ?"), SqlParam::Integer(parent_id))
    }

    /// Add tag filter: the `json_each` filter of the tags as one more condition
    /// with its values, or nothing where there are no tags.
    pub fn with_tag_filter(self, tag_filter: &TagFilterInput, tags_column: &str) -> (r: Result<
        Self,
        String,
    >)
        ensures
            tag_filter.tags@.len() > 0 && has_empty_tag(views(tag_filter.tags@)) <==> r is Err,
            r matches Err(e) ==> e@ == "Tag cannot be empty"@,
            r matches Ok(b) ==> {
                let f = json_each_filter(
                    views(tag_filter.tags@),
                    tag_filter.mode == TagFilterMode::IncludeAll,
                    tags_column@,
                );
                &&& b.base() == self.base()
                &&& b.conditions() == if f.0.len() == 0 {
                    self.conditions()
                } else {
                    self.conditions().push(f.0)
                }
                &&& b.bound() == if f.0.len() == 0 {
                    self.bound()
                } else {
                    self.bound() + f.1
                }
            },
    {
        let mut b = self;
        let sql = BuildTagFilterSqlJsonEach(
            tag_filter.tags.as_slice(),
            tag_filter.mode == TagFilterMode::IncludeAll,
            tags_column,
        )?;
        if !sql.is_empty() {
            let ghost c0 = b.conditions();
            let ghost b0 = b.bound();
            let ghost wv = sql.where_clause@;
            let ghost base0 = b.base_query@;
            let TagFilterSql { where_clause, params } = sql;
            b.conditions.push(where_clause);
            assert(views(b.conditions@) =~= c0.push(wv));
            let mut i: usize = 0;
            while i < params.len()
                invariant
                    i <= params.len(),
                    views(b.conditions@) == c0.push(wv),
                    b.base_query@ == base0,
                    param_values(b.params@) == b0 + param_values(params@).take(i as int),
                decreases params.len() - i,
            {
                let ghost before = param_values(b.params@);
                let p = match &params[i] {
                    SqlParam::Text(t) => SqlParam::Text(t.clone()),
                    SqlParam::Integer(n) => SqlParam::Integer(*n),
                    SqlParam::Null => SqlParam::Null,
                };
                b.params.push(p);
                assert(param_values(b.params@) =~= before.push(params@[i as int].value()));
                assert(param_values(params@).take(i + 1) =~= param_values(params@).take(i as int).push(
                    params@[i as int].value(),
                ));
                i = i + 1;
            }
            assert(param_values(params@).take(params.len() as int) =~= param_values(params@));
        }
        Ok(b)
    }

    /// Add sorting: sorting is written by [`FilterSqlBuilder::build`], so this
    /// changes nothing.
    pub fn with_sorting(self, field: &str, direction: &str) -> (r: Self)
        ensures
            r == self,
    {
        self
    }

    /// Add pagination: pagination is written by [`FilterSqlBuilder::build`],
    /// so this changes nothing.
    pub fn with_pagination(self, offset: Option<usize>, limit: Option<usize>) -> (r: Self)
        ensures
            r == self,
    {
        self
    }

    /// Build the final SQL query
    pub fn build(self, order_by: Option<&str>, offset: Option<usize>, limit: Option<usize>) -> (r:
        String)
        ensures
            r@ == built_query(
                self.base(),
                self.conditions(),
                match order_by {
                    Some(o) => Some(o@),
                    None => None,
                },
                match offset {
                    Some(o) => Some(o as nat),
                    None => None,
                },
                match limit {
                    Some(l) => Some(l as nat),
                    None => None,
                },
            ),
    {
        let mut query = self.base_query.clone();
        let ghost q0 = query@;
        if self.conditions.len() > 0 {
            query.append(" WHERE ");
            let joined = join_strings(&self.conditions, " AND ");
            query.append(joined.as_str());
        }
        let ghost q1 = query@;
        assert(q1 == q0 + (if views(self.conditions@).len() > 0 {
            " WHERE "@ + join(views(self.conditions@), " AND "@)
        } else {
            Seq::empty()
        }));
        if let Some(order) = order_by {
            query.append(" ORDER BY ");
            query.append(order);
        }
        let ghost q2 = query@;
        if let Some(lim) = limit {
            query.append(" LIMIT ");
            let n = crate::text::u64_to_string(lim as u64);
            query.append(n.as_str());
        }
        let ghost q3 = query@;
        if let Some(off) = offset {
            query.append(" OFFSET ");
            let n = crate::text::u64_to_string(off as u64);
            query.append(n.as_str());
        }
        query
    }

    /// Get the params for the query
    pub fn params(self) -> (r: Vec<SqlParam>)
        ensures
            param_values(r@) == self.bound(),
    {
        self.params
    }
}

} // verus!
