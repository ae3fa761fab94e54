//! What a query may read: no CTEs, no set operations, no subqueries, only the tables the
//! caller's role may read, only an allowlist of functions; and at most a bounded number
//! of rows.

use vstd::prelude::*;
use crate::models::user::UserRole;
use crate::query::error::{QueryError, QueryErrorView};
use crate::query::lower::{lowers_query, query_view};
use crate::query::sql::{
    SqlExpr, SqlFunction, SqlFunctionArg, SqlFunctionArgs, SqlLiteral, SqlValue, SqlSelect,
    SqlSelectItem, SqlTableFactor, SqlJoin, SqlTableWithJoins, SqlNumberArg, SqlLimit, SqlQuery,
};
use crate::text::{lowercase, to_lowercase, str_eq, parse_i64, parse_i64_exec, chars_of, glue3};

verus! {

/// A query that passed validation, with its row limit in place.
pub struct ValidatedQuery {
    pub query: SqlQuery,
}

/// Tables no query may read.
pub open spec fn denied_tables() -> Seq<Seq<char>> {
    seq![
        "sessions"@, "accounts"@, "users"@, "workspace_settings"@, "document_revisions"@,
        "api_tokens"@,
    ]
}

/// Tables a role may read (besides the content types).
pub open spec fn allowed_tables(role: UserRole) -> Seq<Seq<char>> {
    match role {
        UserRole::Admin => seq!["documents"@, "media"@],
        UserRole::Editor => seq!["documents"@, "media"@],
        UserRole::Viewer => seq!["documents"@],
    }
}

/// Functions a query may call.
pub open spec fn allowed_functions() -> Seq<Seq<char>> {
    seq![
        "lower"@, "upper"@, "length"@, "coalesce"@, "count"@, "now"@, "json_extract_path_text"@,
        "min"@, "max"@, "sum"@, "avg"@,
    ]
}

/// The most rows a query may ask for.
pub const MAX_LIMIT: i64 = 200;

/// The rows a query without a limit gets.
pub const DEFAULT_LIMIT: i64 = 50;

/// A name's last identifier in lowercase, or the empty text when it has none.
pub open spec fn lowered_last(o: Option<String>) -> Seq<char> {
    match o {
        Some(s) => lowercase(s@),
        None => seq![],
    }
}

/// The first error of two checks.
pub open spec fn first_error(a: Result<(), QueryErrorView>, b: Result<(), QueryErrorView>) -> Result<(), QueryErrorView> {
    match a {
        Err(e) => Err(e),
        Ok(_) => b,
    }
}

/// Whether a table reference may be read by `role`, with `type_names` the content types.
pub open spec fn check_table_factor(f: SqlTableFactor, role: UserRole, type_names: Seq<Seq<char>>) -> Result<(), QueryErrorView> {
    match f {
        SqlTableFactor::Table { name, last_ident, alias } => {
            let table = lowered_last(last_ident);
            if denied_tables().contains(table) {
                Err(QueryErrorView::Forbidden("table '"@ + table + "' is not accessible"@))
            } else if allowed_tables(role).contains(table) || type_names.contains(table) {
                Ok(())
            } else {
                Err(QueryErrorView::Forbidden("table '"@ + table + "' is not accessible with your role"@))
            }
        },
        SqlTableFactor::Derived => Err(QueryErrorView::Forbidden("subqueries in FROM are not allowed"@)),
        SqlTableFactor::Other => Err(QueryErrorView::Invalid("unsupported FROM clause"@)),
    }
}

/// The first refused table among the joins from position `i` on.
pub open spec fn check_joins(joins: Seq<SqlJoin>, i: int, role: UserRole, type_names: Seq<Seq<char>>) -> Result<(), QueryErrorView>
    decreases joins.len() - i,
{
    if i < 0 || i >= joins.len() {
        Ok(())
    } else {
        first_error(check_table_factor(joins[i].relation, role, type_names), check_joins(joins, i + 1, role, type_names))
    }
}

/// The first refused table of the `FROM` list from position `i` on, each table before its joins.
pub open spec fn check_from(from: Seq<SqlTableWithJoins>, i: int, role: UserRole, type_names: Seq<Seq<char>>) -> Result<(), QueryErrorView>
    decreases from.len() - i,
{
    if i < 0 || i >= from.len() {
        Ok(())
    } else {
        first_error(
            first_error(check_table_factor(from[i].relation, role, type_names), check_joins(from[i].joins@, 0, role, type_names)),
            check_from(from, i + 1, role, type_names),
        )
    }
}

/// The first refused part of an expression: a subquery, or a function off the allowlist.
pub open spec fn check_expr(e: SqlExpr) -> Result<(), QueryErrorView>
    decreases e, 0int,
{
    match e {
        SqlExpr::Function(f) => {
            let name = lowered_last(f.last_ident);
            if !allowed_functions().contains(name) {
                Err(QueryErrorView::Forbidden("function '"@ + name + "' is not allowed"@))
            } else {
                match f.args {
                    SqlFunctionArgs::List(args) => check_args(args@, 0),
                    _ => Ok(()),
                }
            }
        },
        SqlExpr::BinaryOp { left, op, right } => first_error(check_expr(*left), check_expr(*right)),
        SqlExpr::UnaryOp { op, expr } => check_expr(*expr),
        SqlExpr::IsNull(x) => check_expr(*x),
        SqlExpr::IsNotNull(x) => check_expr(*x),
        SqlExpr::Like { negated, expr, pattern } => first_error(check_expr(*expr), check_expr(*pattern)),
        SqlExpr::ILike { negated, expr, pattern } => first_error(check_expr(*expr), check_expr(*pattern)),
        SqlExpr::Between { expr, negated, low, high } => first_error(
            check_expr(*expr),
            first_error(check_expr(*low), check_expr(*high)),
        ),
        SqlExpr::InList { expr, list, negated } => first_error(check_expr(*expr), check_exprs(list@, 0)),
        SqlExpr::Nested(x) => check_expr(*x),
        SqlExpr::Cast { expr, data_type } => check_expr(*expr),
        SqlExpr::Subquery(_) => Err(QueryErrorView::Forbidden("subqueries are not allowed"@)),
        _ => Ok(()),
    }
}

/// The first refused part among the expressions of `list` from position `i` on.
pub open spec fn check_exprs(list: Seq<SqlExpr>, i: int) -> Result<(), QueryErrorView>
    decreases list, list.len() - i,
{
    if i < 0 || i >= list.len() {
        Ok(())
    } else {
        first_error(check_expr(list[i]), check_exprs(list, i + 1))
    }
}

/// The first refused part among function arguments from position `i` on.
pub open spec fn check_args(args: Seq<SqlFunctionArg>, i: int) -> Result<(), QueryErrorView>
    decreases args, args.len() - i,
{
    if i < 0 || i >= args.len() {
        Ok(())
    } else {
        first_error(
            match args[i] {
                SqlFunctionArg::Expr(e) => check_expr(e),
                SqlFunctionArg::Named { name, expr } => check_expr(expr),
                _ => Ok(()),
            },
            check_args(args, i + 1),
        )
    }
}

/// The expression of a select item, if it has one.
pub open spec fn item_expr(item: SqlSelectItem) -> Option<SqlExpr> {
    match item {
        SqlSelectItem::Unnamed(e) => Some(e),
        SqlSelectItem::WithAlias { expr, alias } => Some(expr),
        SqlSelectItem::WithAliases { expr, aliases } => Some(expr),
        _ => None,
    }
}

/// The first refused part among the select items from position `i` on.
pub open spec fn check_items(items: Seq<SqlSelectItem>, i: int) -> Result<(), QueryErrorView>
    decreases items.len() - i,
{
    if i < 0 || i >= items.len() {
        Ok(())
    } else {
        first_error(
            match item_expr(items[i]) {
                Some(e) => check_expr(e),
                None => Ok(()),
            },
            check_items(items, i + 1),
        )
    }
}

/// Whether and why a query is refused for `role`: CTEs, then set operations, then the
/// tables, then the select list, then the `WHERE` clause.
pub open spec fn validation(q: SqlQuery, role: UserRole, type_names: Seq<Seq<char>>) -> Result<(), QueryErrorView> {
    if q.has_with {
        Err(QueryErrorView::Forbidden("CTEs are not allowed"@))
    } else {
        match q.body {
            None => Err(QueryErrorView::Forbidden("UNION, INTERSECT, and EXCEPT are not allowed"@)),
            Some(s) => first_error(
                check_from(s.from@, 0, role, type_names),
                first_error(
                    check_items(s.projection@, 0),
                    match s.selection {
                        Some(e) => check_expr(e),
                        None => Ok(()),
                    },
                ),
            ),
        }
    }
}

/// Whether `a` is the numeric literal `t`, as the limit the validator writes.
pub open spec fn is_number_arg(a: SqlNumberArg, t: Seq<char>) -> bool {
    &&& a.text@ == t
    &&& a.expr matches SqlExpr::Value(lit)
    &&& lit.text@ == t
    &&& lit.value matches SqlValue::Number(s)
    &&& s@ == t
}

/// Whether a `LIMIT` argument asks for more than the maximum: a numeric literal whose value
/// exceeds it, or that does not read as an `i64`.
pub open spec fn over_max(a: SqlNumberArg) -> bool {
    match a.expr {
        SqlExpr::Value(lit) => match lit.value {
            SqlValue::Number(t) => match parse_i64(t@) {
                Some(v) => v > MAX_LIMIT,
                None => true,
            },
            _ => false,
        },
        _ => false,
    }
}

/// The limit after validation: the default when the query has none; the maximum in
/// place of a numeric limit above it (the offset kept); otherwise unchanged.
pub open spec fn limit_enforced(before: Option<SqlLimit>, after: Option<SqlLimit>) -> bool {
    match before {
        None => after matches Some(SqlLimit::LimitOffset { limit: Some(a), offset: None }) && is_number_arg(a, "50"@),
        Some(SqlLimit::LimitOffset { limit: Some(arg), offset }) => if over_max(arg) {
            after matches Some(SqlLimit::LimitOffset { limit: Some(a), offset: o }) && is_number_arg(a, "200"@) && o == offset
        } else {
            after == before
        },
        _ => after == before,
    }
}

/// The characters of each type name.
pub open spec fn name_views(names: Seq<&str>) -> Seq<Seq<char>> {
    names.map_values(|s: &str| s@)
}

/// What validating `q` for `role` gives: the error, or the query with its limit enforced.
pub open spec fn validated(r: Result<ValidatedQuery, QueryError>, q: SqlQuery, role: UserRole, type_names: Seq<Seq<char>>) -> bool {
    match validation(q, role, type_names) {
        Err(e) => r matches Err(x) && x@ == e,
        Ok(_) => r matches Ok(v) && {
            &&& v.query.has_with == q.has_with
            &&& v.query.body == q.body
            &&& v.query.order_by == q.order_by
            &&& limit_enforced(q.limit, v.query.limit)
        },
    }
}

// ---------------------------------------------------------------------------
// Checking
// ---------------------------------------------------------------------------

/// Whether `s` is one of `words`, computed against literal word lists.
fn lowered_last_exec(o: &Option<String>) -> (r: String)
    ensures
        r@ == lowered_last(*o),
{
    match o {
        Some(s) => to_lowercase(s.as_str()),
        None => String::new(),
    }
}

/// Whether a table is one no query may read.
fn is_denied(t: &str) -> (r: bool)
    ensures
        r == denied_tables().contains(t@),
{
    let r = str_eq(t, "sessions") || str_eq(t, "accounts") || str_eq(t, "users")
        || str_eq(t, "workspace_settings") || str_eq(t, "document_revisions") || str_eq(t, "api_tokens");
    proof {
        let w = denied_tables();
        if w.contains(t@) {
            let k = choose|k: int| 0 <= k < w.len() && w[k] == t@;
            assert(0 <= k < 6);
        }
        assert(w[0] == "sessions"@ && w[1] == "accounts"@ && w[2] == "users"@);
        assert(w[3] == "workspace_settings"@ && w[4] == "document_revisions"@ && w[5] == "api_tokens"@);
    }
    r
}

/// Whether `role` may read a table.
fn is_allowed(t: &str, role: &UserRole) -> (r: bool)
    ensures
        r == allowed_tables(*role).contains(t@),
{
    let documents = str_eq(t, "documents");
    let media = str_eq(t, "media");
    proof {
        let w = allowed_tables(*role);
        if w.contains(t@) {
            let k = choose|k: int| 0 <= k < w.len() && w[k] == t@;
        }
        assert(w[0] == "documents"@);
        if *role != UserRole::Viewer {
            assert(w[1] == "media"@);
        }
    }
    match role {
        UserRole::Viewer => documents,
        _ => documents || media,
    }
}

/// Whether a function may be called.
fn is_allowed_function(f: &str) -> (r: bool)
    ensures
        r == allowed_functions().contains(f@),
{
    let r = str_eq(f, "lower") || str_eq(f, "upper") || str_eq(f, "length") || str_eq(f, "coalesce")
        || str_eq(f, "count") || str_eq(f, "now") || str_eq(f, "json_extract_path_text")
        || str_eq(f, "min") || str_eq(f, "max") || str_eq(f, "sum") || str_eq(f, "avg");
    proof {
        let w = allowed_functions();
        if w.contains(f@) {
            let k = choose|k: int| 0 <= k < w.len() && w[k] == f@;
            assert(0 <= k < 11);
        }
        assert(w[0] == "lower"@ && w[1] == "upper"@ && w[2] == "length"@ && w[3] == "coalesce"@);
        assert(w[4] == "count"@ && w[5] == "now"@ && w[6] == "json_extract_path_text"@);
        assert(w[7] == "min"@ && w[8] == "max"@ && w[9] == "sum"@ && w[10] == "avg"@);
    }
    r
}

/// Whether `names` holds `t`.
fn contains_name(names: &[&str], t: &str) -> (r: bool)
    ensures
        r == name_views(names@).contains(t@),
{
    let mut i: usize = 0;
    while i < names.len()
        invariant
            i <= names@.len(),
            forall|j: int| 0 <= j < i ==> names@[j]@ != t@,
        decreases names@.len() - i,
    {
        if str_eq(names[i], t) {
            assert(name_views(names@)[i as int] == t@);
            return true;
        }
        i = i + 1;
    }
    proof {
        if name_views(names@).contains(t@) {
            let k = choose|k: int| 0 <= k < name_views(names@).len() && name_views(names@)[k] == t@;
            assert(names@[k]@ == t@);
        }
    }
    false
}

/// Checks one table reference.
fn validate_table_factor(f: &SqlTableFactor, role: &UserRole, type_names: &[&str]) -> (r: Result<(), QueryError>)
    ensures
        match check_table_factor(*f, *role, name_views(type_names@)) {
            Ok(_) => r is Ok,
            Err(e) => r matches Err(x) && x@ == e,
        },
{
    match f {
        SqlTableFactor::Table { last_ident, .. } => {
            let table = lowered_last_exec(last_ident);
            if is_denied(table.as_str()) {
                return Err(QueryError::Forbidden(glue3("table '", table.as_str(), "' is not accessible")));
            }
            if is_allowed(table.as_str(), role) || contains_name(type_names, table.as_str()) {
                return Ok(());
            }
            Err(QueryError::Forbidden(glue3("table '", table.as_str(), "' is not accessible with your role")))
        },
        SqlTableFactor::Derived => Err(QueryError::Forbidden("subqueries in FROM are not allowed".to_string())),
        SqlTableFactor::Other => Err(QueryError::Invalid("unsupported FROM clause".to_string())),
    }
}

/// Checks the joins from position `i` on.
fn validate_joins(joins: &Vec<SqlJoin>, i: usize, role: &UserRole, type_names: &[&str]) -> (r: Result<(), QueryError>)
    ensures
        match check_joins(joins@, i as int, *role, name_views(type_names@)) {
            Ok(_) => r is Ok,
            Err(e) => r matches Err(x) && x@ == e,
        },
    decreases joins@.len() - i,
{
    if i >= joins.len() {
        return Ok(());
    }
    validate_table_factor(&joins[i].relation, role, type_names)?;
    validate_joins(joins, i + 1, role, type_names)
}

/// Checks the `FROM` list from position `i` on.
fn validate_from(from: &Vec<SqlTableWithJoins>, i: usize, role: &UserRole, type_names: &[&str]) -> (r: Result<(), QueryError>)
    ensures
        match check_from(from@, i as int, *role, name_views(type_names@)) {
            Ok(_) => r is Ok,
            Err(e) => r matches Err(x) && x@ == e,
        },
    decreases from@.len() - i,
{
    if i >= from.len() {
        return Ok(());
    }
    validate_table_factor(&from[i].relation, role, type_names)?;
    validate_joins(&from[i].joins, 0, role, type_names)?;
    validate_from(from, i + 1, role, type_names)
}

/// Checks an expression.
pub fn validate_expr(e: &SqlExpr) -> (r: Result<(), QueryError>)
    ensures
        match check_expr(*e) {
            Ok(_) => r is Ok,
            Err(x) => r matches Err(y) && y@ == x,
        },
    decreases e, 0int,
{
    match e {
        SqlExpr::Function(f) => {
            let name = lowered_last_exec(&f.last_ident);
            if !is_allowed_function(name.as_str()) {
                return Err(QueryError::Forbidden(glue3("function '", name.as_str(), "' is not allowed")));
            }
            match &f.args {
                SqlFunctionArgs::List(args) => validate_args(args, 0),
                _ => Ok(()),
            }
        },
        SqlExpr::BinaryOp { left, right, .. } => {
            validate_expr(left)?;
            validate_expr(right)
        },
        SqlExpr::UnaryOp { expr, .. } => validate_expr(expr),
        SqlExpr::IsNull(x) => validate_expr(x),
        SqlExpr::IsNotNull(x) => validate_expr(x),
        SqlExpr::Like { expr, pattern, .. } => {
            validate_expr(expr)?;
            validate_expr(pattern)
        },
        SqlExpr::ILike { expr, pattern, .. } => {
            validate_expr(expr)?;
            validate_expr(pattern)
        },
        SqlExpr::Between { expr, low, high, .. } => {
            validate_expr(expr)?;
            validate_expr(low)?;
            validate_expr(high)
        },
        SqlExpr::InList { expr, list, .. } => {
            validate_expr(expr)?;
            validate_exprs(list, 0)
        },
        SqlExpr::Nested(x) => validate_expr(x),
        SqlExpr::Cast { expr, .. } => validate_expr(expr),
        SqlExpr::Subquery(_) => Err(QueryError::Forbidden("subqueries are not allowed".to_string())),
        _ => Ok(()),
    }
}

/// Checks the expressions of `list` from position `i` on.
fn validate_exprs(list: &Vec<SqlExpr>, i: usize) -> (r: Result<(), QueryError>)
    ensures
        match check_exprs(list@, i as int) {
            Ok(_) => r is Ok,
            Err(x) => r matches Err(y) && y@ == x,
        },
    decreases list@, list@.len() - i,
{
    if i >= list.len() {
        return Ok(());
    }
    validate_expr(&list[i])?;
    validate_exprs(list, i + 1)
}

/// Checks function arguments from position `i` on.
fn validate_args(args: &Vec<SqlFunctionArg>, i: usize) -> (r: Result<(), QueryError>)
    ensures
        match check_args(args@, i as int) {
            Ok(_) => r is Ok,
            Err(x) => r matches Err(y) && y@ == x,
        },
    decreases args@, args@.len() - i,
{
    if i >= args.len() {
        return Ok(());
    }
    match &args[i] {
        SqlFunctionArg::Expr(e) => validate_expr(e)?,
        SqlFunctionArg::Named { expr, .. } => validate_expr(expr)?,
        _ => {},
    }
    validate_args(args, i + 1)
}

/// Checks the select items from position `i` on.
fn validate_select_items(items: &Vec<SqlSelectItem>, i: usize) -> (r: Result<(), QueryError>)
    ensures
        match check_items(items@, i as int) {
            Ok(_) => r is Ok,
            Err(x) => r matches Err(y) && y@ == x,
        },
    decreases items@.len() - i,
{
    if i >= items.len() {
        return Ok(());
    }
    match &items[i] {
        SqlSelectItem::Unnamed(e) => validate_expr(e)?,
        SqlSelectItem::WithAlias { expr, .. } => validate_expr(expr)?,
        SqlSelectItem::WithAliases { expr, .. } => validate_expr(expr)?,
        _ => {},
    }
    validate_select_items(items, i + 1)
}

/// A numeric literal `n` as a `LIMIT` argument.
fn make_limit_expr(n: i64) -> (r: SqlNumberArg)
    requires
        n == MAX_LIMIT || n == DEFAULT_LIMIT,
    ensures
        n == MAX_LIMIT ==> is_number_arg(r, "200"@),
        n == DEFAULT_LIMIT ==> is_number_arg(r, "50"@),
{
    let t = if n == MAX_LIMIT { "200" } else { "50" };
    SqlNumberArg {
        expr: SqlExpr::Value(SqlLiteral { value: SqlValue::Number(t.to_string()), text: t.to_string() }),
        text: t.to_string(),
    }
}

/// Puts the row limit in place: the default when there is none, the maximum in place of a
/// numeric limit above it.
fn enforce_limit(limit: Option<SqlLimit>) -> (r: Option<SqlLimit>)
    ensures
        limit_enforced(limit, r),
{
    match limit {
        None => Some(SqlLimit::LimitOffset { limit: Some(make_limit_expr(DEFAULT_LIMIT)), offset: None }),
        Some(SqlLimit::LimitOffset { limit: Some(arg), offset }) => {
            let over = match &arg.expr {
                SqlExpr::Value(lit) => match &lit.value {
                    SqlValue::Number(t) => {
                        let cs = chars_of(t.as_str());
                        let parsed: i64 = match parse_i64_exec(cs.as_slice()) {
                            Some(v) => v,
                            None => MAX_LIMIT + 1,
                        };
                        parsed > MAX_LIMIT
                    },
                    _ => false,
                },
                _ => false,
            };
            if over {
                Some(SqlLimit::LimitOffset { limit: Some(make_limit_expr(MAX_LIMIT)), offset })
            } else {
                Some(SqlLimit::LimitOffset { limit: Some(arg), offset })
            }
        },
        other => other,
    }
}

/// Checks a query against what `role` may read, with `type_names` the content types, and
/// puts its row limit in place.
pub fn validate_query(query: SqlQuery, role: &UserRole, type_names: &[&str]) -> (r: Result<ValidatedQuery, QueryError>)
    ensures
        validated(r, query, *role, name_views(type_names@)),
{
    if query.has_with {
        return Err(QueryError::Forbidden("CTEs are not allowed".to_string()));
    }
    let select = match &query.body {
        Some(s) => s,
        None => return Err(QueryError::Forbidden("UNION, INTERSECT, and EXCEPT are not allowed".to_string())),
    };
    validate_from(&select.from, 0, role, type_names)?;
    validate_select_items(&select.projection, 0)?;
    if let Some(e) = &select.selection {
        validate_expr(e)?;
    }
    let SqlQuery { has_with, body, order_by, limit } = query;
    Ok(ValidatedQuery { query: SqlQuery { has_with, body, order_by, limit: enforce_limit(limit) } })
}

/// Checks a parsed query against what `role` may read, with `type_names` the content
/// types, and puts its row limit in place: [`validate_query`] on the library's model of it.
pub fn validate(query: Box<sqlparser::ast::Query>, role: &UserRole, type_names: &[&str]) -> (r: Result<ValidatedQuery, QueryError>)
    ensures
        exists|m: SqlQuery|
            #[trigger] lowers_query(m, query_view(*query)) && validated(r, m, *role, name_views(type_names@)),
{
    let model = crate::query::lower::lower_query(&query);
    let ghost m = model;
    let r = validate_query(model, role, type_names);
    assert(lowers_query(m, query_view(*query)) && validated(r, m, *role, name_views(type_names@)));
    r
}

} // verus!
