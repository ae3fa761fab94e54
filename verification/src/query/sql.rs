//! The library's model of a parsed SQL query: what the validator and the translator
//! read of it. Text that is only ever printed back is kept as it prints.

use vstd::prelude::*;

verus! {

/// A literal value.
pub enum SqlValue {
    SingleQuoted(String),
    DoubleQuoted(String),
    /// A numeric literal, as written.
    Number(String),
    Boolean(bool),
    Null,
    /// A `$N` placeholder, as written.
    Placeholder(String),
    /// Any other kind of literal.
    Other,
}

/// A literal and its SQL text.
pub struct SqlLiteral {
    pub value: SqlValue,
    pub text: String,
}

/// An expression.
pub enum SqlExpr {
    Identifier(String),
    CompoundIdentifier(Vec<String>),
    Value(SqlLiteral),
    BinaryOp { left: Box<SqlExpr>, op: String, right: Box<SqlExpr> },
    UnaryOp { op: String, expr: Box<SqlExpr> },
    IsNull(Box<SqlExpr>),
    IsNotNull(Box<SqlExpr>),
    Like { negated: bool, expr: Box<SqlExpr>, pattern: Box<SqlExpr> },
    ILike { negated: bool, expr: Box<SqlExpr>, pattern: Box<SqlExpr> },
    Between { expr: Box<SqlExpr>, negated: bool, low: Box<SqlExpr>, high: Box<SqlExpr> },
    InList { expr: Box<SqlExpr>, list: Vec<SqlExpr>, negated: bool },
    Nested(Box<SqlExpr>),
    /// A cast, with the target type as it prints.
    Cast { expr: Box<SqlExpr>, data_type: String },
    Function(SqlFunction),
    Wildcard,
    /// A scalar subquery, with its SQL text.
    Subquery(String),
    /// Any other expression, with its SQL text.
    Other(String),
}

/// A function call: its name as it prints, the last part of that name when it is a
/// plain identifier, and its arguments.
pub struct SqlFunction {
    pub name: String,
    pub last_ident: Option<String>,
    pub args: SqlFunctionArgs,
}

pub enum SqlFunctionArgs {
    NoArgs,
    List(Vec<SqlFunctionArg>),
    Subquery,
}

pub enum SqlFunctionArg {
    Expr(SqlExpr),
    Wildcard,
    /// `name => expr`, with the name as it prints.
    Named { name: String, expr: SqlExpr },
    Other,
}

/// One item of the select list; names and aliases as they print.
pub enum SqlSelectItem {
    Wildcard,
    QualifiedWildcard(String),
    Unnamed(SqlExpr),
    WithAlias { expr: SqlExpr, alias: String },
    WithAliases { expr: SqlExpr, aliases: Vec<String> },
}

/// A table reference: a named table (its name as it prints, the last part of the name
/// when it is a plain identifier, and its alias as it prints), a subquery, or anything else.
pub enum SqlTableFactor {
    Table { name: String, last_ident: Option<String>, alias: Option<String> },
    Derived,
    Other,
}

/// How a join is constrained; `USING` keeps the last plain identifier of each column.
pub enum SqlJoinConstraint {
    On(SqlExpr),
    Using(Vec<Option<String>>),
    Other,
}

pub enum SqlJoinKind {
    Inner(SqlJoinConstraint),
    Left(SqlJoinConstraint),
    LeftOuter(SqlJoinConstraint),
    Other,
}

pub struct SqlJoin {
    pub relation: SqlTableFactor,
    pub kind: SqlJoinKind,
}

pub struct SqlTableWithJoins {
    pub relation: SqlTableFactor,
    pub joins: Vec<SqlJoin>,
}

/// A `SELECT` block. `group_by` is empty when there is no `GROUP BY` list.
pub struct SqlSelect {
    pub projection: Vec<SqlSelectItem>,
    pub from: Vec<SqlTableWithJoins>,
    pub selection: Option<SqlExpr>,
    pub group_by: Vec<SqlExpr>,
    pub having: Option<SqlExpr>,
}

pub struct SqlOrderItem {
    pub expr: SqlExpr,
    pub descending: bool,
}

/// A `LIMIT` or `OFFSET` argument and its SQL text.
pub struct SqlNumberArg {
    pub expr: SqlExpr,
    pub text: String,
}

pub enum SqlLimit {
    LimitOffset { limit: Option<SqlNumberArg>, offset: Option<SqlNumberArg> },
    /// The `LIMIT offset, limit` form.
    OffsetCommaLimit,
}

/// A query. `body` is the `SELECT` block, absent when the body is anything else (a set
/// operation, `VALUES`, ...); `order_by` is the list of ordering expressions, when there is one.
pub struct SqlQuery {
    pub has_with: bool,
    pub body: Option<SqlSelect>,
    pub order_by: Option<Vec<SqlOrderItem>>,
    pub limit: Option<SqlLimit>,
}

} // verus!
