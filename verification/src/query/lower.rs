//! Reading a query parsed by `sqlparser` into the library's model of it
//! ([`crate::query::sql`]). The parser's syntax tree is opaque to the proofs: each kind
//! of node is given a name for what it holds (a plain value), the small trusted
//! accessors below each tell one node's variants apart and hand out its parts, stated
//! over those names, and the verified code builds the model from them, stated as a
//! function of what the tree holds.

use vstd::prelude::*;
use sqlparser::ast::{
    BinaryOperator, DataType, Expr, Function, FunctionArg, FunctionArgExpr, FunctionArguments,
    GroupByExpr, Ident, Join, JoinConstraint, JoinOperator, LimitClause, ObjectName, OrderByExpr,
    OrderByKind, OrderBySort, Query, Select, SelectItem, SelectItemQualifiedWildcardKind, SetExpr,
    TableFactor, TableWithJoins, UnaryOperator, Value, ValueWithSpan,
};
use crate::query::sql::{
    SqlExpr, SqlFunction, SqlFunctionArg, SqlFunctionArgs, SqlLiteral, SqlValue, SqlSelect,
    SqlSelectItem, SqlTableFactor, SqlJoin, SqlJoinKind, SqlJoinConstraint, SqlTableWithJoins,
    SqlOrderItem, SqlNumberArg, SqlLimit, SqlQuery,
};

verus! {

#[verifier::external_type_specification]
#[verifier::external_body]
pub struct ExQuery(Query);

#[verifier::external_type_specification]
#[verifier::external_body]
pub struct ExSelect(Select);

#[verifier::external_type_specification]
#[verifier::external_body]
pub struct ExExpr(Expr);

#[verifier::external_type_specification]
#[verifier::external_body]
pub struct ExSelectItem(SelectItem);

#[verifier::external_type_specification]
#[verifier::external_body]
pub struct ExSelectItemQualifiedWildcardKind(SelectItemQualifiedWildcardKind);

#[verifier::external_type_specification]
#[verifier::external_body]
pub struct ExTableWithJoins(TableWithJoins);

#[verifier::external_type_specification]
#[verifier::external_body]
pub struct ExTableFactor(TableFactor);

#[verifier::external_type_specification]
#[verifier::external_body]
pub struct ExJoin(Join);

#[verifier::external_type_specification]
#[verifier::external_body]
pub struct ExJoinConstraint(JoinConstraint);

#[verifier::external_type_specification]
#[verifier::external_body]
pub struct ExObjectName(ObjectName);

#[verifier::external_type_specification]
#[verifier::external_body]
pub struct ExIdent(Ident);

#[verifier::external_type_specification]
#[verifier::external_body]
pub struct ExFunction(Function);

#[verifier::external_type_specification]
#[verifier::external_body]
pub struct ExFunctionArg(FunctionArg);

#[verifier::external_type_specification]
#[verifier::external_body]
pub struct ExValueWithSpan(ValueWithSpan);

#[verifier::external_type_specification]
#[verifier::external_body]
pub struct ExOrderByExpr(OrderByExpr);

#[verifier::external_type_specification]
#[verifier::external_body]
pub struct ExBinaryOperator(BinaryOperator);

#[verifier::external_type_specification]
#[verifier::external_body]
pub struct ExUnaryOperator(UnaryOperator);

#[verifier::external_type_specification]
#[verifier::external_body]
pub struct ExDataType(DataType);

// ---------------------------------------------------------------------------
// The parts of each node, as the accessors hand them out
// ---------------------------------------------------------------------------

/// The parts of an expression that the model keeps.
pub enum ExprNode<'a> {
    Identifier(&'a Ident),
    Compound(&'a Vec<Ident>),
    Value(&'a ValueWithSpan),
    BinaryOp(&'a Expr, &'a BinaryOperator, &'a Expr),
    UnaryOp(&'a UnaryOperator, &'a Expr),
    IsNull(&'a Expr),
    IsNotNull(&'a Expr),
    Like(bool, &'a Expr, &'a Expr),
    ILike(bool, &'a Expr, &'a Expr),
    Between(&'a Expr, bool, &'a Expr, &'a Expr),
    InList(&'a Expr, &'a Vec<Expr>, bool),
    Nested(&'a Expr),
    Cast(&'a Expr, &'a DataType),
    Function(&'a Function),
    Wildcard,
    Subquery,
}

/// A literal's kind and text.
pub enum ValueNode {
    SingleQuoted(String),
    DoubleQuoted(String),
    Number(String),
    Boolean(bool),
    Null,
    Placeholder(String),
    Other,
}

pub enum ArgsNode<'a> {
    NoArgs,
    List(&'a Vec<FunctionArg>),
    Subquery,
}

pub enum ArgNode<'a> {
    Expr(&'a Expr),
    Wildcard,
    Named(&'a Ident, &'a Expr),
    Other,
}

pub enum ItemNode<'a> {
    Wildcard,
    Qualified(&'a SelectItemQualifiedWildcardKind),
    Unnamed(&'a Expr),
    WithAlias(&'a Expr, &'a Ident),
    WithAliases(&'a Expr, &'a Vec<Ident>),
}

pub enum TableNode<'a> {
    Table(&'a ObjectName, Option<&'a Ident>),
    Derived,
    Other,
}

pub enum JoinNode<'a> {
    Inner(&'a JoinConstraint),
    Left(&'a JoinConstraint),
    LeftOuter(&'a JoinConstraint),
    Other,
}

pub enum ConstraintNode<'a> {
    On(&'a Expr),
    Using(&'a Vec<ObjectName>),
    Other,
}

pub enum LimitNode<'a> {
    NoLimit,
    LimitOffset(Option<&'a Expr>, Option<&'a Expr>),
    OffsetCommaLimit,
}

/// The parts of a `SELECT` block: items, tables, `WHERE`, `GROUP BY` list, `HAVING`.
pub struct SelectParts<'a> {
    pub projection: &'a Vec<SelectItem>,
    pub from: &'a Vec<TableWithJoins>,
    pub selection: Option<&'a Expr>,
    pub group_by: Option<&'a Vec<Expr>>,
    pub having: Option<&'a Expr>,
}


// ---------------------------------------------------------------------------
// What each node of the syntax tree holds
// ---------------------------------------------------------------------------
//
// A node of `sqlparser`'s tree is opaque to the proofs. Each kind of node the library
// reads is given a name for what it holds, as far as the library reads it: a plain
// value of the types below. The accessors further down state their results over these
// names, so that the model built from a tree is stated as a function of them.

/// An identifier: its value (without quotes) and its text as it prints.
pub struct IdentView {
    pub value: Seq<char>,
    pub text: Seq<char>,
}

/// An object name: its text as it prints, and its last part when that part is a plain
/// identifier.
pub struct NameView {
    pub text: Seq<char>,
    pub last: Option<IdentView>,
}

/// The kind of a literal, with its content.
pub enum LiteralKind {
    SingleQuoted(Seq<char>),
    DoubleQuoted(Seq<char>),
    Number(Seq<char>),
    Boolean(bool),
    Null,
    Placeholder(Seq<char>),
    Other,
}

/// A literal: its kind and its text as it prints.
pub struct ValueView {
    pub kind: LiteralKind,
    pub text: Seq<char>,
}

/// An expression: its text as it prints, and its kind with its parts.
pub struct ExprView {
    pub text: Seq<char>,
    pub kind: ExprKind,
}

/// The kinds of expression the library tells apart, with their parts (operators and
/// types as their text prints); every other kind is `Other`.
pub enum ExprKind {
    Identifier(IdentView),
    Compound(Seq<IdentView>),
    Value(ValueView),
    BinaryOp(Box<ExprView>, Seq<char>, Box<ExprView>),
    UnaryOp(Seq<char>, Box<ExprView>),
    IsNull(Box<ExprView>),
    IsNotNull(Box<ExprView>),
    Like(bool, Box<ExprView>, Box<ExprView>),
    ILike(bool, Box<ExprView>, Box<ExprView>),
    Between(Box<ExprView>, bool, Box<ExprView>, Box<ExprView>),
    InList(Box<ExprView>, Seq<ExprView>, bool),
    Nested(Box<ExprView>),
    Cast(Box<ExprView>, Seq<char>),
    Function(FunctionView),
    Wildcard,
    Subquery,
    Other,
}

/// A function call: its name and its arguments.
pub struct FunctionView {
    pub name: NameView,
    pub args: ArgsView,
}

pub enum ArgsView {
    NoArgs,
    List(Seq<ArgView>),
    Subquery,
}

/// A function argument: an unnamed expression, an unnamed `*`, a named expression, or
/// another kind.
pub enum ArgView {
    Expr(ExprView),
    Wildcard,
    Named(IdentView, ExprView),
    Other,
}

/// A select item; a qualified wildcard as its text prints.
pub enum ItemView {
    Wildcard,
    Qualified(Seq<char>),
    Unnamed(ExprView),
    WithAlias(ExprView, IdentView),
    WithAliases(ExprView, Seq<IdentView>),
}

/// A table factor: a named table with its alias's name, a derived table, or another kind.
pub enum FactorView {
    Table(NameView, Option<IdentView>),
    Derived,
    Other,
}

pub enum ConstraintView {
    On(ExprView),
    Using(Seq<NameView>),
    Other,
}

pub enum JoinKindView {
    Inner(ConstraintView),
    Left(ConstraintView),
    LeftOuter(ConstraintView),
    Other,
}

pub struct JoinView {
    pub relation: FactorView,
    pub kind: JoinKindView,
}

pub struct TableView {
    pub relation: FactorView,
    pub joins: Seq<JoinView>,
}

/// A `SELECT` block; `group_by` is the `GROUP BY` expression list, absent for `GROUP BY
/// ALL`.
pub struct SelectView {
    pub projection: Seq<ItemView>,
    pub from: Seq<TableView>,
    pub selection: Option<ExprView>,
    pub group_by: Option<Seq<ExprView>>,
    pub having: Option<ExprView>,
}

pub struct OrderView {
    pub expr: ExprView,
    pub descending: bool,
}

pub enum LimitView {
    NoLimit,
    LimitOffset(Option<ExprView>, Option<ExprView>),
    OffsetCommaLimit,
}

/// A query: whether it has a `WITH` clause, its body when that is a `SELECT` block, its
/// ordering expressions when it has a list of them, and its limit clause.
pub struct QueryView {
    pub has_with: bool,
    pub select: Option<SelectView>,
    pub order_by: Option<Seq<OrderView>>,
    pub limit: LimitView,
}

/// What an `Ident` holds.
pub uninterp spec fn ident_view(i: Ident) -> IdentView;

/// What an `ObjectName` holds.
pub uninterp spec fn name_view(n: ObjectName) -> NameView;

/// What a `ValueWithSpan` holds.
pub uninterp spec fn value_view(v: ValueWithSpan) -> ValueView;

/// What an `Expr` holds.
pub uninterp spec fn expr_view(e: Expr) -> ExprView;

/// What a `Function` holds.
pub uninterp spec fn function_view(f: Function) -> FunctionView;

/// What a `FunctionArg` holds.
pub uninterp spec fn arg_view(a: FunctionArg) -> ArgView;

/// What a `SelectItem` holds.
pub uninterp spec fn item_view(i: SelectItem) -> ItemView;

/// What a `TableFactor` holds.
pub uninterp spec fn factor_view(f: TableFactor) -> FactorView;

/// What a `JoinConstraint` holds.
pub uninterp spec fn constraint_view(c: JoinConstraint) -> ConstraintView;

/// What a `Join` holds.
pub uninterp spec fn join_view(j: Join) -> JoinView;

/// What a `TableWithJoins` holds.
pub uninterp spec fn table_view(t: TableWithJoins) -> TableView;

/// What a `Select` holds.
pub uninterp spec fn select_view(s: Select) -> SelectView;

/// What an `OrderByExpr` holds.
pub uninterp spec fn order_view(o: OrderByExpr) -> OrderView;

/// What a `Query` holds.
pub uninterp spec fn query_view(q: Query) -> QueryView;

/// The text a `BinaryOperator` prints.
pub uninterp spec fn binary_operator_text(op: BinaryOperator) -> Seq<char>;

/// The text a `UnaryOperator` prints.
pub uninterp spec fn unary_operator_text(op: UnaryOperator) -> Seq<char>;

/// The text a `DataType` prints.
pub uninterp spec fn data_type_text(t: DataType) -> Seq<char>;

/// The text a `SelectItemQualifiedWildcardKind` prints.
pub uninterp spec fn wildcard_kind_text(k: SelectItemQualifiedWildcardKind) -> Seq<char>;

/// What an optional expression holds.
pub open spec fn opt_expr_view(e: Option<&Expr>) -> Option<ExprView> {
    match e {
        Some(x) => Some(expr_view(*x)),
        None => None,
    }
}

/// What each identifier of a list holds.
pub open spec fn ident_views(v: Seq<Ident>) -> Seq<IdentView> {
    v.map_values(|i: Ident| ident_view(i))
}

/// What each expression of a list holds.
pub open spec fn expr_views(v: Seq<Expr>) -> Seq<ExprView> {
    v.map_values(|e: Expr| expr_view(e))
}

/// What each object name of a list holds.
pub open spec fn object_name_views(v: Seq<ObjectName>) -> Seq<NameView> {
    v.map_values(|n: ObjectName| name_view(n))
}

/// What each function argument of a list holds.
pub open spec fn arg_views(v: Seq<FunctionArg>) -> Seq<ArgView> {
    v.map_values(|a: FunctionArg| arg_view(a))
}

// ---------------------------------------------------------------------------
// Accessors of `sqlparser`'s syntax tree
// ---------------------------------------------------------------------------

/// `Query::with`: whether the query has a `WITH` clause.
#[verifier::external_body]
fn query_has_with(q: &Query) -> (r: bool)
    ensures
        r == query_view(*q).has_with,
{
    q.with.is_some()
}

/// `Query::body`: the select block, when the body is `SetExpr::Select`.
#[verifier::external_body]
fn query_select(q: &Query) -> (r: Option<&Select>)
    ensures
        match query_view(*q).select {
            Some(sv) => r matches Some(s) && select_view(*s) == sv,
            None => r is None,
        },
{
    match &*q.body {
        SetExpr::Select(s) => Some(s),
        _ => None,
    }
}

/// `Query::order_by`: the ordering expressions, when it is `OrderByKind::Expressions`.
#[verifier::external_body]
fn query_order_by(q: &Query) -> (r: Option<&Vec<OrderByExpr>>)
    ensures
        match query_view(*q).order_by {
            Some(os) => r matches Some(v) && v@.map_values(|o: OrderByExpr| order_view(o)) == os,
            None => r is None,
        },
{
    match &q.order_by {
        Some(o) => match &o.kind {
            OrderByKind::Expressions(v) => Some(v),
            OrderByKind::All(_) => None,
        },
        None => None,
    }
}

/// `Query::limit_clause`: its form and, for `LIMIT … OFFSET …`, both arguments.
#[verifier::external_body]
fn query_limit(q: &Query) -> (r: LimitNode<'_>)
    ensures
        match query_view(*q).limit {
            LimitView::NoLimit => r is NoLimit,
            LimitView::LimitOffset(l, o) => r matches LimitNode::LimitOffset(rl, ro) && opt_expr_view(rl) == l
                && opt_expr_view(ro) == o,
            LimitView::OffsetCommaLimit => r is OffsetCommaLimit,
        },
{
    match &q.limit_clause {
        None => LimitNode::NoLimit,
        Some(LimitClause::LimitOffset { limit, offset, .. }) => {
            LimitNode::LimitOffset(limit.as_ref(), offset.as_ref().map(|o| &o.value))
        },
        Some(LimitClause::OffsetCommaLimit { .. }) => LimitNode::OffsetCommaLimit,
    }
}

/// `OrderByExpr`: the expression, and whether its sort is `DESC`.
#[verifier::external_body]
fn order_parts(o: &OrderByExpr) -> (r: (&Expr, bool))
    ensures
        expr_view(*r.0) == order_view(*o).expr,
        r.1 == order_view(*o).descending,
{
    (&o.expr, matches!(o.options.sort, Some(OrderBySort::Desc)))
}

/// `Select`: the fields the model keeps (`GROUP BY` only as an expression list).
#[verifier::external_body]
fn select_parts(s: &Select) -> (r: SelectParts<'_>)
    ensures
        r.projection@.map_values(|i: SelectItem| item_view(i)) == select_view(*s).projection,
        r.from@.map_values(|t: TableWithJoins| table_view(t)) == select_view(*s).from,
        opt_expr_view(r.selection) == select_view(*s).selection,
        match select_view(*s).group_by {
            Some(g) => r.group_by matches Some(v) && expr_views(v@) == g,
            None => r.group_by is None,
        },
        opt_expr_view(r.having) == select_view(*s).having,
{
    let group_by = match &s.group_by {
        GroupByExpr::Expressions(v, _) => Some(v),
        GroupByExpr::All(_) => None,
    };
    SelectParts { projection: &s.projection, from: &s.from, selection: s.selection.as_ref(), group_by, having: s.having.as_ref() }
}

/// `SelectItem`: its kind and parts.
#[verifier::external_body]
fn item_node(i: &SelectItem) -> (r: ItemNode<'_>)
    ensures
        match item_view(*i) {
            ItemView::Wildcard => r is Wildcard,
            ItemView::Qualified(t) => r matches ItemNode::Qualified(k) && wildcard_kind_text(*k) == t,
            ItemView::Unnamed(ev) => r matches ItemNode::Unnamed(e) && expr_view(*e) == ev,
            ItemView::WithAlias(ev, av) => r matches ItemNode::WithAlias(e, a) && expr_view(*e) == ev
                && ident_view(*a) == av,
            ItemView::WithAliases(ev, avs) => r matches ItemNode::WithAliases(e, v) && expr_view(*e) == ev
                && ident_views(v@) == avs,
        },
{
    match i {
        SelectItem::Wildcard(_) => ItemNode::Wildcard,
        SelectItem::QualifiedWildcard(k, _) => ItemNode::Qualified(k),
        SelectItem::UnnamedExpr(e) => ItemNode::Unnamed(e),
        SelectItem::ExprWithAlias { expr, alias } => ItemNode::WithAlias(expr, alias),
        SelectItem::ExprWithAliases { expr, aliases } => ItemNode::WithAliases(expr, aliases),
    }
}

/// `TableWithJoins`: the table and its joins.
#[verifier::external_body]
fn table_with_joins(t: &TableWithJoins) -> (r: (&TableFactor, &Vec<Join>))
    ensures
        factor_view(*r.0) == table_view(*t).relation,
        r.1@.map_values(|j: Join| join_view(j)) == table_view(*t).joins,
{
    (&t.relation, &t.joins)
}

/// `TableFactor`: a named table with its alias's name, a derived table, or another kind.
#[verifier::external_body]
fn table_node(f: &TableFactor) -> (r: TableNode<'_>)
    ensures
        match factor_view(*f) {
            FactorView::Table(nv, av) => r matches TableNode::Table(n, a) && name_view(*n) == nv && match av {
                Some(x) => a matches Some(i) && ident_view(*i) == x,
                None => a is None,
            },
            FactorView::Derived => r is Derived,
            FactorView::Other => r is Other,
        },
{
    match f {
        TableFactor::Table { name, alias, .. } => TableNode::Table(name, alias.as_ref().map(|a| &a.name)),
        TableFactor::Derived { .. } => TableNode::Derived,
        _ => TableNode::Other,
    }
}

/// `ObjectName`: its last part, when that part is a plain identifier.
#[verifier::external_body]
fn last_ident(n: &ObjectName) -> (r: Option<&Ident>)
    ensures
        match name_view(*n).last {
            Some(iv) => r matches Some(i) && ident_view(*i) == iv,
            None => r is None,
        },
{
    n.0.last().and_then(|p| p.as_ident())
}

/// `Ident::value`: the identifier without its quotes.
#[verifier::external_body]
fn ident_value(i: &Ident) -> (r: String)
    ensures
        r@ == ident_view(*i).value,
{
    i.value.clone()
}

/// `Join`: the joined table and the kind of join with its constraint.
#[verifier::external_body]
fn join_parts(j: &Join) -> (r: (&TableFactor, JoinNode<'_>))
    ensures
        factor_view(*r.0) == join_view(*j).relation,
        match join_view(*j).kind {
            JoinKindView::Inner(cv) => r.1 matches JoinNode::Inner(c) && constraint_view(*c) == cv,
            JoinKindView::Left(cv) => r.1 matches JoinNode::Left(c) && constraint_view(*c) == cv,
            JoinKindView::LeftOuter(cv) => r.1 matches JoinNode::LeftOuter(c) && constraint_view(*c) == cv,
            JoinKindView::Other => r.1 is Other,
        },
{
    let kind = match &j.join_operator {
        JoinOperator::Inner(c) => JoinNode::Inner(c),
        JoinOperator::Left(c) => JoinNode::Left(c),
        JoinOperator::LeftOuter(c) => JoinNode::LeftOuter(c),
        _ => JoinNode::Other,
    };
    (&j.relation, kind)
}

/// `JoinConstraint`: `ON`, `USING`, or another kind.
#[verifier::external_body]
fn constraint_node(c: &JoinConstraint) -> (r: ConstraintNode<'_>)
    ensures
        match constraint_view(*c) {
            ConstraintView::On(ev) => r matches ConstraintNode::On(e) && expr_view(*e) == ev,
            ConstraintView::Using(nvs) => r matches ConstraintNode::Using(v) && object_name_views(v@) == nvs,
            ConstraintView::Other => r is Other,
        },
{
    match c {
        JoinConstraint::On(e) => ConstraintNode::On(e),
        JoinConstraint::Using(v) => ConstraintNode::Using(v),
        _ => ConstraintNode::Other,
    }
}

/// Whether `n` is the node an accessor hands out for an expression holding `v`, when
/// `v` is of the kinds that accessor tells apart.
pub open spec fn node_of(n: ExprNode, v: ExprView) -> bool {
    match v.kind {
        ExprKind::Identifier(iv) => n matches ExprNode::Identifier(i) && ident_view(*i) == iv,
        ExprKind::Compound(ivs) => n matches ExprNode::Compound(c) && ident_views(c@) == ivs,
        ExprKind::Value(vv) => n matches ExprNode::Value(x) && value_view(*x) == vv,
        ExprKind::BinaryOp(l, op, r) => n matches ExprNode::BinaryOp(a, o, b) && expr_view(*a) == *l
            && binary_operator_text(*o) == op && expr_view(*b) == *r,
        ExprKind::UnaryOp(op, x) => n matches ExprNode::UnaryOp(o, a) && unary_operator_text(*o) == op
            && expr_view(*a) == *x,
        ExprKind::IsNull(x) => n matches ExprNode::IsNull(a) && expr_view(*a) == *x,
        ExprKind::IsNotNull(x) => n matches ExprNode::IsNotNull(a) && expr_view(*a) == *x,
        ExprKind::Like(neg, x, p) => n matches ExprNode::Like(g, a, b) && g == neg && expr_view(*a) == *x
            && expr_view(*b) == *p,
        ExprKind::ILike(neg, x, p) => n matches ExprNode::ILike(g, a, b) && g == neg && expr_view(*a) == *x
            && expr_view(*b) == *p,
        ExprKind::Between(x, neg, lo, hi) => n matches ExprNode::Between(a, g, b, c) && g == neg
            && expr_view(*a) == *x && expr_view(*b) == *lo && expr_view(*c) == *hi,
        ExprKind::InList(x, list, neg) => n matches ExprNode::InList(a, l, g) && g == neg && expr_view(*a) == *x
            && expr_views(l@) == list,
        ExprKind::Nested(x) => n matches ExprNode::Nested(a) && expr_view(*a) == *x,
        ExprKind::Cast(x, t) => n matches ExprNode::Cast(a, d) && expr_view(*a) == *x && data_type_text(*d) == t,
        ExprKind::Function(fv) => n matches ExprNode::Function(f) && function_view(*f) == fv,
        ExprKind::Wildcard => n is Wildcard,
        ExprKind::Subquery => n is Subquery,
        ExprKind::Other => false,
    }
}

/// The kinds the first expression accessor tells apart.
pub open spec fn operator_kind(k: ExprKind) -> bool {
    ||| k is Identifier
    ||| k is Compound
    ||| k is Value
    ||| k is BinaryOp
    ||| k is UnaryOp
    ||| k is IsNull
    ||| k is IsNotNull
}

/// The kinds the second expression accessor tells apart.
pub open spec fn predicate_kind(k: ExprKind) -> bool {
    ||| k is Like
    ||| k is ILike
    ||| k is Between
    ||| k is InList
}

/// The kinds the third expression accessor tells apart.
pub open spec fn other_kind(k: ExprKind) -> bool {
    ||| k is Nested
    ||| k is Cast
    ||| k is Function
    ||| k is Wildcard
    ||| k is Subquery
}

/// `Expr`, first group: names, literals and operators.
#[verifier::external_body]
fn expr_node_operators(e: &Expr) -> (r: Option<ExprNode<'_>>)
    ensures
        r is Some <==> operator_kind(expr_view(*e).kind),
        r matches Some(n) ==> node_of(n, expr_view(*e)),
{
    match e {
        Expr::Identifier(i) => Some(ExprNode::Identifier(i)),
        Expr::CompoundIdentifier(v) => Some(ExprNode::Compound(v)),
        Expr::Value(v) => Some(ExprNode::Value(v)),
        Expr::BinaryOp { left, op, right } => Some(ExprNode::BinaryOp(left, op, right)),
        Expr::UnaryOp { op, expr } => Some(ExprNode::UnaryOp(op, expr)),
        Expr::IsNull(x) => Some(ExprNode::IsNull(x)),
        Expr::IsNotNull(x) => Some(ExprNode::IsNotNull(x)),
        _ => None,
    }
}

/// `Expr`, second group: pattern, range and list tests.
#[verifier::external_body]
fn expr_node_predicates(e: &Expr) -> (r: Option<ExprNode<'_>>)
    ensures
        r is Some <==> predicate_kind(expr_view(*e).kind),
        r matches Some(n) ==> node_of(n, expr_view(*e)),
{
    match e {
        Expr::Like { negated, expr, pattern, .. } => Some(ExprNode::Like(*negated, expr, pattern)),
        Expr::ILike { negated, expr, pattern, .. } => Some(ExprNode::ILike(*negated, expr, pattern)),
        Expr::Between { expr, negated, low, high } => Some(ExprNode::Between(expr, *negated, low, high)),
        Expr::InList { expr, list, negated } => Some(ExprNode::InList(expr, list, *negated)),
        _ => None,
    }
}

/// `Expr`, third group: nesting, casts, calls, `*` and subqueries.
#[verifier::external_body]
fn expr_node_others(e: &Expr) -> (r: Option<ExprNode<'_>>)
    ensures
        r is Some <==> other_kind(expr_view(*e).kind),
        r matches Some(n) ==> node_of(n, expr_view(*e)),
{
    match e {
        Expr::Nested(x) => Some(ExprNode::Nested(x)),
        Expr::Cast { expr, data_type, .. } => Some(ExprNode::Cast(expr, data_type)),
        Expr::Function(f) => Some(ExprNode::Function(f)),
        Expr::Wildcard(_) => Some(ExprNode::Wildcard),
        Expr::Subquery(_) => Some(ExprNode::Subquery),
        _ => None,
    }
}

/// `ValueWithSpan::value`: the literal's kind and text.
#[verifier::external_body]
fn value_node(v: &ValueWithSpan) -> (r: ValueNode)
    ensures
        match value_view(*v).kind {
            LiteralKind::SingleQuoted(s) => r matches ValueNode::SingleQuoted(x) && x@ == s,
            LiteralKind::DoubleQuoted(s) => r matches ValueNode::DoubleQuoted(x) && x@ == s,
            LiteralKind::Number(s) => r matches ValueNode::Number(x) && x@ == s,
            LiteralKind::Boolean(b) => r matches ValueNode::Boolean(x) && x == b,
            LiteralKind::Null => r is Null,
            LiteralKind::Placeholder(s) => r matches ValueNode::Placeholder(x) && x@ == s,
            LiteralKind::Other => r is Other,
        },
{
    match &v.value {
        Value::SingleQuotedString(s) => ValueNode::SingleQuoted(s.clone()),
        Value::DoubleQuotedString(s) => ValueNode::DoubleQuoted(s.clone()),
        Value::Number(n, _) => ValueNode::Number(n.clone()),
        Value::Boolean(b) => ValueNode::Boolean(*b),
        Value::Null => ValueNode::Null,
        Value::Placeholder(p) => ValueNode::Placeholder(p.clone()),
        _ => ValueNode::Other,
    }
}

/// `Function`: its name and its arguments.
#[verifier::external_body]
fn function_parts(f: &Function) -> (r: (&ObjectName, ArgsNode<'_>))
    ensures
        name_view(*r.0) == function_view(*f).name,
        match function_view(*f).args {
            ArgsView::NoArgs => r.1 is NoArgs,
            ArgsView::List(avs) => r.1 matches ArgsNode::List(l) && arg_views(l@) == avs,
            ArgsView::Subquery => r.1 is Subquery,
        },
{
    let args = match &f.args {
        FunctionArguments::None => ArgsNode::NoArgs,
        FunctionArguments::List(l) => ArgsNode::List(&l.args),
        FunctionArguments::Subquery(_) => ArgsNode::Subquery,
    };
    (&f.name, args)
}

/// `FunctionArg`: an unnamed expression, an unnamed `*`, a named expression, or another kind.
#[verifier::external_body]
fn arg_node(a: &FunctionArg) -> (r: ArgNode<'_>)
    ensures
        match arg_view(*a) {
            ArgView::Expr(ev) => r matches ArgNode::Expr(e) && expr_view(*e) == ev,
            ArgView::Wildcard => r is Wildcard,
            ArgView::Named(iv, ev) => r matches ArgNode::Named(n, e) && ident_view(*n) == iv && expr_view(*e) == ev,
            ArgView::Other => r is Other,
        },
{
    match a {
        FunctionArg::Unnamed(FunctionArgExpr::Expr(e)) => ArgNode::Expr(e),
        FunctionArg::Unnamed(FunctionArgExpr::Wildcard) => ArgNode::Wildcard,
        FunctionArg::Named { name, arg: FunctionArgExpr::Expr(e), .. } => ArgNode::Named(name, e),
        _ => ArgNode::Other,
    }
}

// ---------------------------------------------------------------------------
// The text nodes print as
// ---------------------------------------------------------------------------

/// An expression as it prints (`Display`).
#[verifier::external_body]
fn expr_text(e: &Expr) -> (r: String)
    ensures
        r@ == expr_view(*e).text,
{
    e.to_string()
}

/// A literal as it prints (`Display`).
#[verifier::external_body]
fn value_text(v: &ValueWithSpan) -> (r: String)
    ensures
        r@ == value_view(*v).text,
{
    v.to_string()
}

/// An object name as it prints (`Display`).
#[verifier::external_body]
fn name_text(n: &ObjectName) -> (r: String)
    ensures
        r@ == name_view(*n).text,
{
    n.to_string()
}

/// An identifier as it prints (`Display`), quotes included.
#[verifier::external_body]
fn ident_text(i: &Ident) -> (r: String)
    ensures
        r@ == ident_view(*i).text,
{
    i.to_string()
}

/// A binary operator as it prints (`Display`).
#[verifier::external_body]
fn binary_operator_string(op: &BinaryOperator) -> (r: String)
    ensures
        r@ == binary_operator_text(*op),
{
    op.to_string()
}

/// A unary operator as it prints (`Display`).
#[verifier::external_body]
fn unary_operator_string(op: &UnaryOperator) -> (r: String)
    ensures
        r@ == unary_operator_text(*op),
{
    op.to_string()
}

/// A data type as it prints (`Display`).
#[verifier::external_body]
fn data_type_string(t: &DataType) -> (r: String)
    ensures
        r@ == data_type_text(*t),
{
    t.to_string()
}

/// A qualified wildcard's qualifier as it prints (`Display`).
#[verifier::external_body]
fn wildcard_kind_string(k: &SelectItemQualifiedWildcardKind) -> (r: String)
    ensures
        r@ == wildcard_kind_text(*k),
{
    k.to_string()
}

// ---------------------------------------------------------------------------
// The model of a tree
// ---------------------------------------------------------------------------

/// An optional string's text.
pub open spec fn opt_string(s: Option<String>) -> Option<Seq<char>> {
    match s {
        Some(x) => Some(x@),
        None => None,
    }
}

/// The value of a name's last part, when that part is a plain identifier.
pub open spec fn last_value(n: NameView) -> Option<Seq<char>> {
    match n.last {
        Some(i) => Some(i.value),
        None => None,
    }
}

/// Whether `m` is the model of a literal holding `v`: its kind and content, and its text.
pub open spec fn lowers_value(m: SqlLiteral, v: ValueView) -> bool {
    &&& m.text@ == v.text
    &&& match v.kind {
        LiteralKind::SingleQuoted(s) => m.value matches SqlValue::SingleQuoted(x) && x@ == s,
        LiteralKind::DoubleQuoted(s) => m.value matches SqlValue::DoubleQuoted(x) && x@ == s,
        LiteralKind::Number(s) => m.value matches SqlValue::Number(x) && x@ == s,
        LiteralKind::Boolean(b) => m.value matches SqlValue::Boolean(x) && x == b,
        LiteralKind::Null => m.value is Null,
        LiteralKind::Placeholder(s) => m.value matches SqlValue::Placeholder(x) && x@ == s,
        LiteralKind::Other => m.value is Other,
    }
}

/// Whether `m` is the model of an expression holding `v`, when nesting is followed
/// `depth` levels deep: an expression reached with no levels left is kept as its text;
/// otherwise each kind the model tells apart becomes its model, with its parts one level
/// deeper (a function call's arguments too), and any other kind is kept as its text.
pub open spec fn lowers_expr(m: SqlExpr, v: ExprView, depth: nat) -> bool
    decreases v,
{
    if depth == 0 {
        m matches SqlExpr::Other(t) && t@ == v.text
    } else {
        let d = (depth - 1) as nat;
        match v.kind {
            ExprKind::Identifier(i) => m matches SqlExpr::Identifier(s) && s@ == i.value,
            ExprKind::Compound(ids) => m matches SqlExpr::CompoundIdentifier(ss) && ss@.len() == ids.len()
                && forall|k: int| 0 <= k < ids.len() ==> (#[trigger] ss@[k])@ == ids[k].value,
            ExprKind::Value(val) => m matches SqlExpr::Value(lit) && lowers_value(lit, val),
            ExprKind::BinaryOp(l, op, r) => m matches SqlExpr::BinaryOp { left, op: o, right }
                && lowers_expr(*left, *l, d) && o@ == op && lowers_expr(*right, *r, d),
            ExprKind::UnaryOp(op, x) => m matches SqlExpr::UnaryOp { op: o, expr } && o@ == op
                && lowers_expr(*expr, *x, d),
            ExprKind::IsNull(x) => m matches SqlExpr::IsNull(a) && lowers_expr(*a, *x, d),
            ExprKind::IsNotNull(x) => m matches SqlExpr::IsNotNull(a) && lowers_expr(*a, *x, d),
            ExprKind::Like(neg, x, p) => m matches SqlExpr::Like { negated, expr, pattern } && negated == neg
                && lowers_expr(*expr, *x, d) && lowers_expr(*pattern, *p, d),
            ExprKind::ILike(neg, x, p) => m matches SqlExpr::ILike { negated, expr, pattern } && negated == neg
                && lowers_expr(*expr, *x, d) && lowers_expr(*pattern, *p, d),
            ExprKind::Between(x, neg, lo, hi) => m matches SqlExpr::Between { expr, negated, low, high }
                && negated == neg && lowers_expr(*expr, *x, d) && lowers_expr(*low, *lo, d)
                && lowers_expr(*high, *hi, d),
            ExprKind::InList(x, list, neg) => m matches SqlExpr::InList { expr, list: items, negated }
                && negated == neg && lowers_expr(*expr, *x, d) && items@.len() == list.len()
                && forall|k: int| 0 <= k < list.len() ==> lowers_expr(#[trigger] items@[k], list[k], d),
            ExprKind::Nested(x) => m matches SqlExpr::Nested(a) && lowers_expr(*a, *x, d),
            ExprKind::Cast(x, t) => m matches SqlExpr::Cast { expr, data_type } && lowers_expr(*expr, *x, d)
                && data_type@ == t,
            ExprKind::Function(f) => m matches SqlExpr::Function(mf) && lowers_function(mf, f, depth),
            ExprKind::Wildcard => m is Wildcard,
            ExprKind::Subquery => m matches SqlExpr::Subquery(t) && t@ == v.text,
            ExprKind::Other => m matches SqlExpr::Other(t) && t@ == v.text,
        }
    }
}

/// Whether `m` is the model of a function call holding `f`, its arguments followed
/// `depth - 1` levels deep: its name as it prints, the value of the name's last plain
/// identifier, and its arguments.
pub open spec fn lowers_function(m: SqlFunction, f: FunctionView, depth: nat) -> bool
    decreases f,
{
    &&& m.name@ == f.name.text
    &&& opt_string(m.last_ident) == last_value(f.name)
    &&& match f.args {
        ArgsView::NoArgs => m.args is NoArgs,
        ArgsView::Subquery => m.args is Subquery,
        ArgsView::List(avs) => m.args matches SqlFunctionArgs::List(ms) && ms@.len() == avs.len()
            && forall|k: int| 0 <= k < avs.len() ==> lowers_arg(#[trigger] ms@[k], avs[k], (depth - 1) as nat),
    }
}

/// Whether `m` is the model of a function argument holding `a`, its expression followed
/// `depth` levels deep; a named argument keeps its name as it prints.
pub open spec fn lowers_arg(m: SqlFunctionArg, a: ArgView, depth: nat) -> bool
    decreases a,
{
    match a {
        ArgView::Expr(e) => m matches SqlFunctionArg::Expr(x) && lowers_expr(x, e, depth),
        ArgView::Wildcard => m is Wildcard,
        ArgView::Named(n, e) => m matches SqlFunctionArg::Named { name, expr } && name@ == n.text
            && lowers_expr(expr, e, depth),
        ArgView::Other => m is Other,
    }
}

/// How deep the model follows the nesting of an expression.
pub open spec fn max_depth() -> nat {
    18446744073709551615
}

/// Whether `m` is the model of a table factor holding `v`: a named table keeps its name
/// as it prints, the value of its last plain identifier, and its alias as it prints.
pub open spec fn lowers_factor(m: SqlTableFactor, v: FactorView) -> bool {
    match v {
        FactorView::Table(n, alias) => m matches SqlTableFactor::Table { name, last_ident, alias: a } && name@
            == n.text && opt_string(last_ident) == last_value(n) && opt_string(a) == match alias {
            Some(i) => Some(i.text),
            None => None::<Seq<char>>,
        },
        FactorView::Derived => m is Derived,
        FactorView::Other => m is Other,
    }
}

/// Whether `m` is the model of a join constraint holding `v`: `USING` keeps the value of
/// each column's last plain identifier.
pub open spec fn lowers_constraint(m: SqlJoinConstraint, v: ConstraintView) -> bool {
    match v {
        ConstraintView::On(e) => m matches SqlJoinConstraint::On(x) && lowers_expr(x, e, max_depth()),
        ConstraintView::Using(ns) => m matches SqlJoinConstraint::Using(cols) && cols@.len() == ns.len()
            && forall|k: int| 0 <= k < ns.len() ==> opt_string(#[trigger] cols@[k]) == last_value(ns[k]),
        ConstraintView::Other => m is Other,
    }
}

/// Whether `m` is the model of a join holding `v`.
pub open spec fn lowers_join(m: SqlJoin, v: JoinView) -> bool {
    &&& lowers_factor(m.relation, v.relation)
    &&& match v.kind {
        JoinKindView::Inner(c) => m.kind matches SqlJoinKind::Inner(x) && lowers_constraint(x, c),
        JoinKindView::Left(c) => m.kind matches SqlJoinKind::Left(x) && lowers_constraint(x, c),
        JoinKindView::LeftOuter(c) => m.kind matches SqlJoinKind::LeftOuter(x) && lowers_constraint(x, c),
        JoinKindView::Other => m.kind is Other,
    }
}

/// Whether `m` is the model of a table with its joins holding `v`.
pub open spec fn lowers_table(m: SqlTableWithJoins, v: TableView) -> bool {
    &&& lowers_factor(m.relation, v.relation)
    &&& m.joins@.len() == v.joins.len()
    &&& forall|k: int| 0 <= k < v.joins.len() ==> lowers_join(#[trigger] m.joins@[k], v.joins[k])
}

/// Whether `m` is the model of a select item holding `v`: aliases and qualifiers as
/// they print.
pub open spec fn lowers_item(m: SqlSelectItem, v: ItemView) -> bool {
    match v {
        ItemView::Wildcard => m is Wildcard,
        ItemView::Qualified(t) => m matches SqlSelectItem::QualifiedWildcard(s) && s@ == t,
        ItemView::Unnamed(e) => m matches SqlSelectItem::Unnamed(x) && lowers_expr(x, e, max_depth()),
        ItemView::WithAlias(e, a) => m matches SqlSelectItem::WithAlias { expr, alias } && lowers_expr(
            expr,
            e,
            max_depth(),
        ) && alias@ == a.text,
        ItemView::WithAliases(e, ids) => m matches SqlSelectItem::WithAliases { expr, aliases } && lowers_expr(
            expr,
            e,
            max_depth(),
        ) && aliases@.len() == ids.len() && forall|k: int|
            0 <= k < ids.len() ==> (#[trigger] aliases@[k])@ == ids[k].text,
    }
}

/// Whether `m` is the model of an optional expression holding `v`.
pub open spec fn lowers_opt(m: Option<SqlExpr>, v: Option<ExprView>) -> bool {
    match v {
        Some(e) => m matches Some(x) && lowers_expr(x, e, max_depth()),
        None => m is None,
    }
}

/// Whether `m` is the model of an optional `LIMIT` or `OFFSET` argument holding `v`: its
/// expression and its text.
pub open spec fn lowers_number_arg(m: Option<SqlNumberArg>, v: Option<ExprView>) -> bool {
    match v {
        Some(e) => m matches Some(a) && lowers_expr(a.expr, e, max_depth()) && a.text@ == e.text,
        None => m is None,
    }
}

/// Whether `m` is the model of a select block holding `v`; without a `GROUP BY`
/// expression list, its `group_by` is empty.
pub open spec fn lowers_select(m: SqlSelect, v: SelectView) -> bool {
    &&& m.projection@.len() == v.projection.len()
    &&& forall|k: int| 0 <= k < v.projection.len() ==> lowers_item(#[trigger] m.projection@[k], v.projection[k])
    &&& m.from@.len() == v.from.len()
    &&& forall|k: int| 0 <= k < v.from.len() ==> lowers_table(#[trigger] m.from@[k], v.from[k])
    &&& lowers_opt(m.selection, v.selection)
    &&& match v.group_by {
        Some(g) => m.group_by@.len() == g.len() && forall|k: int|
            0 <= k < g.len() ==> lowers_expr(#[trigger] m.group_by@[k], g[k], max_depth()),
        None => m.group_by@.len() == 0,
    }
    &&& lowers_opt(m.having, v.having)
}

/// Whether `m` is the model of a query holding `v`.
pub open spec fn lowers_query(m: SqlQuery, v: QueryView) -> bool {
    &&& m.has_with == v.has_with
    &&& match v.select {
        Some(s) => m.body matches Some(b) && lowers_select(b, s),
        None => m.body is None,
    }
    &&& match v.order_by {
        Some(os) => m.order_by matches Some(items) && items@.len() == os.len() && forall|k: int|
            0 <= k < os.len() ==> lowers_expr((#[trigger] items@[k]).expr, os[k].expr, max_depth())
                && items@[k].descending == os[k].descending,
        None => m.order_by is None,
    }
    &&& match v.limit {
        LimitView::NoLimit => m.limit is None,
        LimitView::LimitOffset(l, o) => m.limit matches Some(SqlLimit::LimitOffset { limit, offset })
            && lowers_number_arg(limit, l) && lowers_number_arg(offset, o),
        LimitView::OffsetCommaLimit => m.limit matches Some(SqlLimit::OffsetCommaLimit),
    }
}

// ---------------------------------------------------------------------------
// Building the model
// ---------------------------------------------------------------------------

/// The values of identifiers.
fn ident_values(v: &Vec<Ident>) -> (r: Vec<String>)
    ensures
        r@.len() == v@.len(),
        forall|k: int| 0 <= k < v@.len() ==> (#[trigger] r@[k])@ == ident_view(v@[k]).value,
{
    let mut r: Vec<String> = Vec::new();
    let mut i: usize = 0;
    while i < v.len()
        invariant
            i <= v@.len(),
            r@.len() == i,
            forall|k: int| 0 <= k < i ==> (#[trigger] r@[k])@ == ident_view(v@[k]).value,
        decreases v@.len() - i,
    {
        r.push(ident_value(&v[i]));
        i = i + 1;
    }
    r
}

/// Identifiers as they print.
fn ident_texts(v: &Vec<Ident>) -> (r: Vec<String>)
    ensures
        r@.len() == v@.len(),
        forall|k: int| 0 <= k < v@.len() ==> (#[trigger] r@[k])@ == ident_view(v@[k]).text,
{
    let mut r: Vec<String> = Vec::new();
    let mut i: usize = 0;
    while i < v.len()
        invariant
            i <= v@.len(),
            r@.len() == i,
            forall|k: int| 0 <= k < i ==> (#[trigger] r@[k])@ == ident_view(v@[k]).text,
        decreases v@.len() - i,
    {
        r.push(ident_text(&v[i]));
        i = i + 1;
    }
    r
}

/// The last plain identifier of a name, as its value.
fn last_ident_value(n: &ObjectName) -> (r: Option<String>)
    ensures
        opt_string(r) == last_value(name_view(*n)),
{
    match last_ident(n) {
        Some(i) => Some(ident_value(i)),
        None => None,
    }
}

/// A literal in the model.
fn lower_value(v: &ValueWithSpan) -> (r: SqlLiteral)
    ensures
        lowers_value(r, value_view(*v)),
{
    let value = match value_node(v) {
        ValueNode::SingleQuoted(s) => SqlValue::SingleQuoted(s),
        ValueNode::DoubleQuoted(s) => SqlValue::DoubleQuoted(s),
        ValueNode::Number(s) => SqlValue::Number(s),
        ValueNode::Boolean(b) => SqlValue::Boolean(b),
        ValueNode::Null => SqlValue::Null,
        ValueNode::Placeholder(p) => SqlValue::Placeholder(p),
        ValueNode::Other => SqlValue::Other,
    };
    SqlLiteral { value, text: value_text(v) }
}

/// An expression in the model. `depth` bounds the nesting it follows; the syntax tree
/// cannot be nested as deep as the bound given at the top (each level is a separate
/// heap node), so no expression reaches it.
fn lower_expr(e: &Expr, depth: u64) -> (r: SqlExpr)
    ensures
        lowers_expr(r, expr_view(*e), depth as nat),
    decreases depth, 1int,
{
    if depth == 0 {
        return SqlExpr::Other(expr_text(e));
    }
    let d = depth - 1;
    let ghost v = expr_view(*e);
    let node = match expr_node_operators(e) {
        Some(n) => Some(n),
        None => match expr_node_predicates(e) {
            Some(n) => Some(n),
            None => expr_node_others(e),
        },
    };
    assert(v.kind is Other <==> node is None);
    assert(node matches Some(n) ==> node_of(n, v));
    match node {
        None => SqlExpr::Other(expr_text(e)),
        Some(ExprNode::Identifier(i)) => SqlExpr::Identifier(ident_value(i)),
        Some(ExprNode::Compound(c)) => SqlExpr::CompoundIdentifier(ident_values(c)),
        Some(ExprNode::Value(x)) => SqlExpr::Value(lower_value(x)),
        Some(ExprNode::BinaryOp(l, op, r)) => SqlExpr::BinaryOp {
            left: Box::new(lower_expr(l, d)),
            op: binary_operator_string(op),
            right: Box::new(lower_expr(r, d)),
        },
        Some(ExprNode::UnaryOp(op, x)) => SqlExpr::UnaryOp {
            op: unary_operator_string(op),
            expr: Box::new(lower_expr(x, d)),
        },
        Some(ExprNode::IsNull(x)) => SqlExpr::IsNull(Box::new(lower_expr(x, d))),
        Some(ExprNode::IsNotNull(x)) => SqlExpr::IsNotNull(Box::new(lower_expr(x, d))),
        Some(ExprNode::Like(negated, x, p)) => SqlExpr::Like {
            negated,
            expr: Box::new(lower_expr(x, d)),
            pattern: Box::new(lower_expr(p, d)),
        },
        Some(ExprNode::ILike(negated, x, p)) => SqlExpr::ILike {
            negated,
            expr: Box::new(lower_expr(x, d)),
            pattern: Box::new(lower_expr(p, d)),
        },
        Some(ExprNode::Between(x, negated, lo, hi)) => SqlExpr::Between {
            expr: Box::new(lower_expr(x, d)),
            negated,
            low: Box::new(lower_expr(lo, d)),
            high: Box::new(lower_expr(hi, d)),
        },
        Some(ExprNode::InList(x, list, negated)) => {
            let ghost views = expr_views(list@);
            let mut items: Vec<SqlExpr> = Vec::new();
            let mut i: usize = 0;
            while i < list.len()
                invariant
                    d < depth,
                    i <= list@.len(),
                    items@.len() == i,
                    views == expr_views(list@),
                    forall|k: int| 0 <= k < i ==> lowers_expr(#[trigger] items@[k], views[k], d as nat),
                decreases list@.len() - i,
            {
                items.push(lower_expr(&list[i], d));
                i = i + 1;
            }
            SqlExpr::InList { expr: Box::new(lower_expr(x, d)), list: items, negated }
        },
        Some(ExprNode::Nested(x)) => SqlExpr::Nested(Box::new(lower_expr(x, d))),
        Some(ExprNode::Cast(x, t)) => SqlExpr::Cast { expr: Box::new(lower_expr(x, d)), data_type: data_type_string(t) },
        Some(ExprNode::Function(f)) => SqlExpr::Function(lower_function(f, depth)),
        Some(ExprNode::Wildcard) => SqlExpr::Wildcard,
        Some(ExprNode::Subquery) => SqlExpr::Subquery(expr_text(e)),
    }
}

/// A function call in the model.
fn lower_function(f: &Function, depth: u64) -> (r: SqlFunction)
    requires
        depth > 0,
    ensures
        lowers_function(r, function_view(*f), depth as nat),
    decreases depth, 0int,
{
    let d = depth - 1;
    let (name, args) = function_parts(f);
    let args = match args {
        ArgsNode::NoArgs => SqlFunctionArgs::NoArgs,
        ArgsNode::Subquery => SqlFunctionArgs::Subquery,
        ArgsNode::List(list) => {
            let ghost views = arg_views(list@);
            let mut out: Vec<SqlFunctionArg> = Vec::new();
            let mut i: usize = 0;
            while i < list.len()
                invariant
                    d < depth,
                    i <= list@.len(),
                    out@.len() == i,
                    views == arg_views(list@),
                    forall|k: int| 0 <= k < i ==> lowers_arg(#[trigger] out@[k], views[k], d as nat),
                decreases list@.len() - i,
            {
                let a = match arg_node(&list[i]) {
                    ArgNode::Expr(e) => SqlFunctionArg::Expr(lower_expr(e, d)),
                    ArgNode::Wildcard => SqlFunctionArg::Wildcard,
                    ArgNode::Named(n, e) => SqlFunctionArg::Named { name: ident_text(n), expr: lower_expr(e, d) },
                    ArgNode::Other => SqlFunctionArg::Other,
                };
                out.push(a);
                i = i + 1;
            }
            SqlFunctionArgs::List(out)
        },
    };
    SqlFunction { name: name_text(name), last_ident: last_ident_value(name), args }
}

/// The deepest nesting followed.
const MAX_DEPTH: u64 = 18446744073709551615;

/// A table reference in the model.
fn lower_table_factor(f: &TableFactor) -> (r: SqlTableFactor)
    ensures
        lowers_factor(r, factor_view(*f)),
{
    match table_node(f) {
        TableNode::Table(name, alias) => SqlTableFactor::Table {
            name: name_text(name),
            last_ident: last_ident_value(name),
            alias: match alias {
                Some(a) => Some(ident_text(a)),
                None => None,
            },
        },
        TableNode::Derived => SqlTableFactor::Derived,
        TableNode::Other => SqlTableFactor::Other,
    }
}

/// A join constraint in the model.
fn lower_constraint(c: &JoinConstraint) -> (r: SqlJoinConstraint)
    ensures
        lowers_constraint(r, constraint_view(*c)),
{
    match constraint_node(c) {
        ConstraintNode::On(e) => SqlJoinConstraint::On(lower_expr(e, MAX_DEPTH)),
        ConstraintNode::Using(cols) => {
            let ghost views = object_name_views(cols@);
            let mut names: Vec<Option<String>> = Vec::new();
            let mut i: usize = 0;
            while i < cols.len()
                invariant
                    i <= cols@.len(),
                    names@.len() == i,
                    views == object_name_views(cols@),
                    forall|k: int| 0 <= k < i ==> opt_string(#[trigger] names@[k]) == last_value(views[k]),
                decreases cols@.len() - i,
            {
                names.push(last_ident_value(&cols[i]));
                i = i + 1;
            }
            SqlJoinConstraint::Using(names)
        },
        ConstraintNode::Other => SqlJoinConstraint::Other,
    }
}

/// A table with its joins, in the model.
fn lower_table(t: &TableWithJoins) -> (r: SqlTableWithJoins)
    ensures
        lowers_table(r, table_view(*t)),
{
    let (relation, joins) = table_with_joins(t);
    let ghost views = table_view(*t).joins;
    let mut out: Vec<SqlJoin> = Vec::new();
    let mut i: usize = 0;
    while i < joins.len()
        invariant
            i <= joins@.len(),
            out@.len() == i,
            views == joins@.map_values(|j: Join| join_view(j)),
            forall|k: int| 0 <= k < i ==> lowers_join(#[trigger] out@[k], views[k]),
        decreases joins@.len() - i,
    {
        let (jr, kind) = join_parts(&joins[i]);
        let kind = match kind {
            JoinNode::Inner(c) => SqlJoinKind::Inner(lower_constraint(c)),
            JoinNode::Left(c) => SqlJoinKind::Left(lower_constraint(c)),
            JoinNode::LeftOuter(c) => SqlJoinKind::LeftOuter(lower_constraint(c)),
            JoinNode::Other => SqlJoinKind::Other,
        };
        out.push(SqlJoin { relation: lower_table_factor(jr), kind });
        i = i + 1;
    }
    SqlTableWithJoins { relation: lower_table_factor(relation), joins: out }
}

/// A select item in the model.
fn lower_item(item: &SelectItem) -> (r: SqlSelectItem)
    ensures
        lowers_item(r, item_view(*item)),
{
    match item_node(item) {
        ItemNode::Wildcard => SqlSelectItem::Wildcard,
        ItemNode::Qualified(k) => SqlSelectItem::QualifiedWildcard(wildcard_kind_string(k)),
        ItemNode::Unnamed(e) => SqlSelectItem::Unnamed(lower_expr(e, MAX_DEPTH)),
        ItemNode::WithAlias(e, a) => SqlSelectItem::WithAlias { expr: lower_expr(e, MAX_DEPTH), alias: ident_text(a) },
        ItemNode::WithAliases(e, v) => SqlSelectItem::WithAliases { expr: lower_expr(e, MAX_DEPTH), aliases: ident_texts(v) },
    }
}

/// An optional expression in the model.
fn lower_opt(e: Option<&Expr>) -> (r: Option<SqlExpr>)
    ensures
        lowers_opt(r, opt_expr_view(e)),
{
    match e {
        Some(x) => Some(lower_expr(x, MAX_DEPTH)),
        None => None,
    }
}

/// A `LIMIT` or `OFFSET` argument in the model.
fn lower_number_arg(e: Option<&Expr>) -> (r: Option<SqlNumberArg>)
    ensures
        lowers_number_arg(r, opt_expr_view(e)),
{
    match e {
        Some(x) => Some(SqlNumberArg { expr: lower_expr(x, MAX_DEPTH), text: expr_text(x) }),
        None => None,
    }
}

/// A select block in the model.
fn lower_select(s: &Select) -> (r: SqlSelect)
    ensures
        lowers_select(r, select_view(*s)),
{
    let parts = select_parts(s);
    let ghost sv = select_view(*s);
    let mut projection: Vec<SqlSelectItem> = Vec::new();
    let mut i: usize = 0;
    while i < parts.projection.len()
        invariant
            i <= parts.projection@.len(),
            projection@.len() == i,
            parts.projection@.map_values(|x: SelectItem| item_view(x)) == sv.projection,
            forall|k: int| 0 <= k < i ==> lowers_item(#[trigger] projection@[k], sv.projection[k]),
        decreases parts.projection@.len() - i,
    {
        projection.push(lower_item(&parts.projection[i]));
        i = i + 1;
    }
    let mut from: Vec<SqlTableWithJoins> = Vec::new();
    let mut i: usize = 0;
    while i < parts.from.len()
        invariant
            i <= parts.from@.len(),
            from@.len() == i,
            parts.from@.map_values(|x: TableWithJoins| table_view(x)) == sv.from,
            forall|k: int| 0 <= k < i ==> lowers_table(#[trigger] from@[k], sv.from[k]),
        decreases parts.from@.len() - i,
    {
        from.push(lower_table(&parts.from[i]));
        i = i + 1;
    }
    let mut group_by: Vec<SqlExpr> = Vec::new();
    if let Some(g) = parts.group_by {
        let ghost gv = expr_views(g@);
        let mut i: usize = 0;
        while i < g.len()
            invariant
                i <= g@.len(),
                group_by@.len() == i,
                gv == expr_views(g@),
                forall|k: int| 0 <= k < i ==> lowers_expr(#[trigger] group_by@[k], gv[k], max_depth()),
            decreases g@.len() - i,
        {
            group_by.push(lower_expr(&g[i], MAX_DEPTH));
            i = i + 1;
        }
    }
    SqlSelect {
        projection,
        from,
        selection: lower_opt(parts.selection),
        group_by,
        having: lower_opt(parts.having),
    }
}

/// A query in the model.
pub(crate) fn lower_query(q: &Query) -> (r: SqlQuery)
    ensures
        lowers_query(r, query_view(*q)),
{
    let body = match query_select(q) {
        Some(s) => Some(lower_select(s)),
        None => None,
    };
    let order_by = match query_order_by(q) {
        Some(v) => {
            let ghost os = v@.map_values(|o: OrderByExpr| order_view(o));
            let mut items: Vec<SqlOrderItem> = Vec::new();
            let mut i: usize = 0;
            while i < v.len()
                invariant
                    i <= v@.len(),
                    items@.len() == i,
                    os == v@.map_values(|o: OrderByExpr| order_view(o)),
                    forall|k: int| 0 <= k < i ==> lowers_expr((#[trigger] items@[k]).expr, os[k].expr, max_depth())
                        && items@[k].descending == os[k].descending,
                decreases v@.len() - i,
            {
                let (e, descending) = order_parts(&v[i]);
                items.push(SqlOrderItem { expr: lower_expr(e, MAX_DEPTH), descending });
                i = i + 1;
            }
            Some(items)
        },
        None => None,
    };
    let limit = match query_limit(q) {
        LimitNode::NoLimit => None,
        LimitNode::LimitOffset(l, o) => Some(SqlLimit::LimitOffset { limit: lower_number_arg(l), offset: lower_number_arg(o) }),
        LimitNode::OffsetCommaLimit => Some(SqlLimit::OffsetCommaLimit),
    };
    SqlQuery { has_with: query_has_with(q), body, order_by, limit }
}

} // verus!
