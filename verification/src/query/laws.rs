//! What every query that passes validation satisfies.

use vstd::prelude::*;
use crate::models::user::UserRole;
use crate::query::sql::{SqlExpr, SqlJoin, SqlLimit, SqlTableFactor, SqlTableWithJoins, SqlValue};
use crate::query::validator::{
    allowed_tables, check_from, check_joins, check_table_factor, denied_tables, first_error, is_number_arg,
    limit_enforced, lowered_last, over_max, validation, MAX_LIMIT,
};
use crate::query::preprocessor::ParamView;
use crate::query::sql::{SqlFunctionArg, SqlFunctionArgs, SqlLiteral};
use crate::query::translator::{placeholder, tr_arg, tr_args, tr_expr, tr_exprs, tr_literal};
use crate::text::parse_i64;
use vstd::multiset::Multiset;
use crate::json::JsonValue;
use crate::query::error::QueryErrorView;
use crate::query::preprocessor::{expansion, positional_max};
use crate::query::sql::{SqlFunction, SqlOrderItem};
use crate::query::translator::{document_column_list, field_columns, find_type, tr_order, tr_table_factor};
use crate::query::validator::{allowed_functions, check_args, check_expr};
use crate::schema::field::TypeDef;
use crate::text::{join, lowercase};

verus! {

/// Whether a table reference names a table `role` may read: a plain table that is not
/// one of the denied tables, and is one of the role's tables or a content type.
pub open spec fn readable(f: SqlTableFactor, role: UserRole, type_names: Seq<Seq<char>>) -> bool {
    match f {
        SqlTableFactor::Table { last_ident, .. } => {
            let t = lowered_last(last_ident);
            &&& !denied_tables().contains(t)
            &&& allowed_tables(role).contains(t) || type_names.contains(t)
        },
        _ => false,
    }
}

/// A table reference that passes the check is readable.
proof fn lemma_factor_readable(f: SqlTableFactor, role: UserRole, type_names: Seq<Seq<char>>)
    requires
        check_table_factor(f, role, type_names) is Ok,
    ensures
        readable(f, role, type_names),
{
}

/// The joins from `i` on that pass the check are all readable.
proof fn lemma_joins_readable(joins: Seq<SqlJoin>, i: int, role: UserRole, type_names: Seq<Seq<char>>)
    requires
        0 <= i,
        check_joins(joins, i, role, type_names) is Ok,
    ensures
        forall|j: int| i <= j < joins.len() ==> readable(#[trigger] joins[j].relation, role, type_names),
    decreases joins.len() - i,
{
    if i < joins.len() {
        lemma_factor_readable(joins[i].relation, role, type_names);
        lemma_joins_readable(joins, i + 1, role, type_names);
    }
}

/// The `FROM` entries from `i` on that pass the check are all readable, joins included.
proof fn lemma_from_readable(from: Seq<SqlTableWithJoins>, i: int, role: UserRole, type_names: Seq<Seq<char>>)
    requires
        0 <= i,
        check_from(from, i, role, type_names) is Ok,
    ensures
        forall|k: int| i <= k < from.len() ==> readable(#[trigger] from[k].relation, role, type_names),
        forall|k: int, j: int|
            i <= k < from.len() && 0 <= j < from[k].joins@.len() ==> readable(
                #[trigger] from[k].joins@[j].relation,
                role,
                type_names,
            ),
    decreases from.len() - i,
{
    if i < from.len() {
        lemma_factor_readable(from[i].relation, role, type_names);
        lemma_joins_readable(from[i].joins@, 0, role, type_names);
        lemma_from_readable(from, i + 1, role, type_names);
    }
}

/// Law: a query that passes validation reads only tables its role may read. Every table
/// in its `FROM` list and in every join is a plain table (no subquery), none of the
/// denied tables (sessions, accounts, users, workspace settings, revisions, API tokens),
/// and one of the role's tables or a content type.
pub proof fn law_only_readable_tables(q: crate::query::sql::SqlQuery, role: UserRole, type_names: Seq<Seq<char>>)
    requires
        validation(q, role, type_names) is Ok,
    ensures
        q.body is Some,
        forall|k: int| 0 <= k < q.body->0.from@.len() ==> readable(#[trigger] q.body->0.from@[k].relation, role, type_names),
        forall|k: int, j: int|
            0 <= k < q.body->0.from@.len() && 0 <= j < q.body->0.from@[k].joins@.len() ==> readable(
                #[trigger] q.body->0.from@[k].joins@[j].relation,
                role,
                type_names,
            ),
{
    let s = q.body->0;
    lemma_from_readable(s.from@, 0, role, type_names);
}

/// A table reference a viewer may read, an editor may read too.
proof fn lemma_factor_viewer_editor(f: SqlTableFactor, type_names: Seq<Seq<char>>)
    ensures
        check_table_factor(f, UserRole::Viewer, type_names) is Ok ==> check_table_factor(f, UserRole::Editor, type_names) is Ok,
        check_table_factor(f, UserRole::Editor, type_names) == check_table_factor(f, UserRole::Admin, type_names),
{
    match f {
        SqlTableFactor::Table { last_ident, .. } => {
            let t = lowered_last(last_ident);
            if allowed_tables(UserRole::Viewer).contains(t) {
                let k = choose|k: int| 0 <= k < allowed_tables(UserRole::Viewer).len() && allowed_tables(UserRole::Viewer)[k] == t;
                assert(allowed_tables(UserRole::Editor)[k] == t);
            }
            assert(allowed_tables(UserRole::Editor) =~= allowed_tables(UserRole::Admin));
        },
        _ => {},
    }
}

/// What an editor may read among joins, a viewer's refusal aside.
proof fn lemma_joins_viewer_editor(joins: Seq<SqlJoin>, i: int, type_names: Seq<Seq<char>>)
    ensures
        check_joins(joins, i, UserRole::Viewer, type_names) is Ok ==> check_joins(joins, i, UserRole::Editor, type_names) is Ok,
        check_joins(joins, i, UserRole::Editor, type_names) == check_joins(joins, i, UserRole::Admin, type_names),
    decreases joins.len() - i,
{
    if 0 <= i < joins.len() {
        lemma_factor_viewer_editor(joins[i].relation, type_names);
        lemma_joins_viewer_editor(joins, i + 1, type_names);
    }
}

/// The same for the whole `FROM` list.
proof fn lemma_from_viewer_editor(from: Seq<SqlTableWithJoins>, i: int, type_names: Seq<Seq<char>>)
    ensures
        check_from(from, i, UserRole::Viewer, type_names) is Ok ==> check_from(from, i, UserRole::Editor, type_names) is Ok,
        check_from(from, i, UserRole::Editor, type_names) == check_from(from, i, UserRole::Admin, type_names),
    decreases from.len() - i,
{
    if 0 <= i < from.len() {
        lemma_factor_viewer_editor(from[i].relation, type_names);
        lemma_joins_viewer_editor(from[i].joins@, 0, type_names);
        lemma_from_viewer_editor(from, i + 1, type_names);
    }
}

/// Law: roles only widen what may be read. A query a viewer may run, an editor may run;
/// editors and administrators are refused exactly the same queries, with the same errors.
pub proof fn law_roles_widen_access(q: crate::query::sql::SqlQuery, type_names: Seq<Seq<char>>)
    ensures
        validation(q, UserRole::Viewer, type_names) is Ok ==> validation(q, UserRole::Editor, type_names) is Ok,
        validation(q, UserRole::Editor, type_names) == validation(q, UserRole::Admin, type_names),
{
    match q.body {
        Some(s) => {
            lemma_from_viewer_editor(s.from@, 0, type_names);
        },
        None => {},
    }
}

/// The row limit a query ends with, when it is a number the database reads.
pub open spec fn literal_limit(l: Option<SqlLimit>) -> Option<i64> {
    match l {
        Some(SqlLimit::LimitOffset { limit: Some(a), .. }) => match a.expr {
            SqlExpr::Value(lit) => match lit.value {
                SqlValue::Number(t) => parse_i64(t@),
                _ => None,
            },
            _ => None,
        },
        _ => None,
    }
}

/// Law: a validated query never asks for more than 200 rows by a number. A query without
/// a limit gets a limit of 50; a numeric limit above 200 (or too large to read) becomes
/// 200; whatever numeric limit the query ends with is at most 200. (A limit that is not a
/// literal number, such as a parameter, is left to the database.)
pub proof fn law_limit_capped(before: Option<SqlLimit>, after: Option<SqlLimit>)
    requires
        limit_enforced(before, after),
    ensures
        before is None ==> (after matches Some(SqlLimit::LimitOffset { limit: Some(a), offset: None })
            && is_number_arg(a, "50"@)),
        literal_limit(after) matches Some(v) ==> v <= MAX_LIMIT,
{
    reveal_strlit("50");
    reveal_strlit("200");
    match before {
        None => {
            lemma_parse_small("50"@, 50);
        },
        Some(SqlLimit::LimitOffset { limit: Some(arg), offset }) => {
            if over_max(arg) {
                lemma_parse_small("200"@, 200);
            }
        },
        _ => {},
    }
}

/// The short numerals the validator writes read as their values.
proof fn lemma_parse_small(t: Seq<char>, v: i64)
    requires
        (t == "50"@ && v == 50) || (t == "200"@ && v == 200),
    ensures
        parse_i64(t) == Some(v),
{
    reveal_strlit("50");
    reveal_strlit("200");
    let e = Seq::<char>::empty();
    assert(crate::text::digits_value(e) == 0);
    assert(crate::text::digit_value('5') == 5);
    assert(crate::text::digit_value('2') == 2);
    assert(crate::text::digit_value('0') == 0);
    if v == 50 {
        assert(t =~= seq!['5', '0']);
        assert(seq!['5'].drop_last() =~= e);
        assert(seq!['5'].last() == '5');
        assert(crate::text::digits_value(seq!['5']) == 5);
        assert(t.drop_last() =~= seq!['5']);
        assert(crate::text::digits_value(t) == 50);
    } else {
        assert(t =~= seq!['2', '0', '0']);
        assert(seq!['2'].drop_last() =~= e);
        assert(seq!['2'].last() == '2');
        assert(crate::text::digits_value(seq!['2']) == 2);
        assert(seq!['2', '0'].drop_last() =~= seq!['2']);
        assert(crate::text::digits_value(seq!['2', '0']) == 20);
        assert(t.drop_last() =~= seq!['2', '0']);
        assert(crate::text::digits_value(t) == 200);
    }
    assert(crate::text::all_digits(t));
}

// ---------------------------------------------------------------------------
// Literals are bound, never written into the SQL
// ---------------------------------------------------------------------------

/// Law: a literal never reaches the SQL text. Translating a literal either fails, or
/// writes the next placeholder `$n+1` and binds exactly one parameter, or, for a `$N`
/// placeholder written in the query, keeps that placeholder and binds nothing.
pub proof fn law_literal_becomes_placeholder(lit: SqlLiteral, n: nat)
    ensures
        tr_literal(lit, n).0 matches Ok(t) ==> ({
            ||| lit.value matches SqlValue::Placeholder(p) && t == p@ && tr_literal(lit, n).1.len() == 0
            ||| !(lit.value is Placeholder) && t == placeholder(n) && tr_literal(lit, n).1.len() == 1
        }),
{
}

/// What a literal binds when it is translated: nothing for a `$N` placeholder, otherwise
/// its value.
pub open spec fn literal_binding(lit: SqlLiteral) -> Seq<ParamView> {
    tr_literal(lit, 0).1
}

/// The parameters the literals of an expression bind, counted with their multiplicity.
pub open spec fn bound_by(e: SqlExpr) -> Multiset<ParamView>
    decreases e, 0int,
{
    match e {
        SqlExpr::Value(lit) => literal_binding(lit).to_multiset(),
        SqlExpr::BinaryOp { left, right, .. } => bound_by(*left).add(bound_by(*right)),
        SqlExpr::UnaryOp { expr, .. } => bound_by(*expr),
        SqlExpr::IsNull(x) => bound_by(*x),
        SqlExpr::IsNotNull(x) => bound_by(*x),
        SqlExpr::Like { expr, pattern, .. } => bound_by(*expr).add(bound_by(*pattern)),
        SqlExpr::ILike { expr, pattern, .. } => bound_by(*expr).add(bound_by(*pattern)),
        SqlExpr::Between { expr, low, high, .. } => bound_by(*expr).add(bound_by(*low)).add(bound_by(*high)),
        SqlExpr::InList { expr, list, .. } => bound_by_list(list@, 0).add(bound_by(*expr)),
        SqlExpr::Nested(x) => bound_by(*x),
        SqlExpr::Cast { expr, .. } => bound_by(*expr),
        SqlExpr::Function(f) => match f.args {
            SqlFunctionArgs::List(args) => bound_by_args(args@, 0),
            _ => Multiset::empty(),
        },
        _ => Multiset::empty(),
    }
}

/// The parameters the literals of the expressions of `list` from `i` on bind.
pub open spec fn bound_by_list(list: Seq<SqlExpr>, i: int) -> Multiset<ParamView>
    decreases list, list.len() - i,
{
    if i < 0 || i >= list.len() {
        Multiset::empty()
    } else {
        bound_by(list[i]).add(bound_by_list(list, i + 1))
    }
}

/// The parameters the literals of a function argument bind.
pub open spec fn bound_by_arg(a: SqlFunctionArg) -> Multiset<ParamView>
    decreases a, 0int,
{
    match a {
        SqlFunctionArg::Expr(e) => bound_by(e),
        SqlFunctionArg::Named { expr, .. } => bound_by(expr),
        _ => Multiset::empty(),
    }
}

/// The parameters the literals of the arguments of `args` from `i` on bind.
pub open spec fn bound_by_args(args: Seq<SqlFunctionArg>, i: int) -> Multiset<ParamView>
    decreases args, args.len() - i,
{
    if i < 0 || i >= args.len() {
        Multiset::empty()
    } else {
        bound_by_arg(args[i]).add(bound_by_args(args, i + 1))
    }
}

/// Law: the parameters a translated expression binds are exactly the values of its
/// literals (other than `$N` placeholders), each once, whatever was bound before.
pub proof fn law_expr_binds_its_literals(e: SqlExpr, n: nat)
    ensures
        tr_expr(e, n).0 is Ok ==> tr_expr(e, n).1.to_multiset() =~= bound_by(e),
    decreases e, 0int,
{
    broadcast use vstd::seq_lib::lemma_multiset_commutative, vstd::seq_lib::group_to_multiset_ensures;

    match e {
        SqlExpr::Value(lit) => {},
        SqlExpr::BinaryOp { left, right, .. } => {
            law_expr_binds_its_literals(*left, n);
            law_expr_binds_its_literals(*right, n + tr_expr(*left, n).1.len());
        },
        SqlExpr::UnaryOp { expr, .. } => law_expr_binds_its_literals(*expr, n),
        SqlExpr::IsNull(x) => law_expr_binds_its_literals(*x, n),
        SqlExpr::IsNotNull(x) => law_expr_binds_its_literals(*x, n),
        SqlExpr::Like { expr, pattern, .. } => {
            law_expr_binds_its_literals(*expr, n);
            law_expr_binds_its_literals(*pattern, n + tr_expr(*expr, n).1.len());
        },
        SqlExpr::ILike { expr, pattern, .. } => {
            law_expr_binds_its_literals(*expr, n);
            law_expr_binds_its_literals(*pattern, n + tr_expr(*expr, n).1.len());
        },
        SqlExpr::Between { expr, low, high, .. } => {
            let a = tr_expr(*expr, n);
            let l = tr_expr(*low, n + a.1.len());
            law_expr_binds_its_literals(*expr, n);
            law_expr_binds_its_literals(*low, n + a.1.len());
            law_expr_binds_its_literals(*high, n + a.1.len() + l.1.len());
        },
        SqlExpr::InList { expr, list, .. } => {
            lemma_list_binds(list@, 0, n);
            law_expr_binds_its_literals(*expr, n + tr_exprs(list@, 0, n).1.len());
        },
        SqlExpr::Nested(x) => law_expr_binds_its_literals(*x, n),
        SqlExpr::Cast { expr, .. } => law_expr_binds_its_literals(*expr, n),
        SqlExpr::Function(f) => match f.args {
            SqlFunctionArgs::List(args) => lemma_args_bind(args@, 0, n),
            _ => {},
        },
        _ => {},
    }
}

/// The parameters the expressions of `list` from `i` on bind, translated in order.
proof fn lemma_list_binds(list: Seq<SqlExpr>, i: int, n: nat)
    ensures
        tr_exprs(list, i, n).0 is Ok ==> tr_exprs(list, i, n).1.to_multiset() =~= bound_by_list(list, i),
    decreases list, list.len() - i,
{
    broadcast use vstd::seq_lib::lemma_multiset_commutative, vstd::seq_lib::group_to_multiset_ensures;

    if 0 <= i < list.len() {
        law_expr_binds_its_literals(list[i], n);
        lemma_list_binds(list, i + 1, n + tr_expr(list[i], n).1.len());
    }
}

/// The parameters a function argument binds.
proof fn lemma_arg_binds(a: SqlFunctionArg, n: nat)
    ensures
        tr_arg(a, n).0 is Ok ==> tr_arg(a, n).1.to_multiset() =~= bound_by_arg(a),
    decreases a, 0int,
{
    broadcast use vstd::seq_lib::group_to_multiset_ensures;

    match a {
        SqlFunctionArg::Expr(e) => law_expr_binds_its_literals(e, n),
        SqlFunctionArg::Named { expr, .. } => law_expr_binds_its_literals(expr, n),
        _ => {},
    }
}

/// The parameters the arguments of `args` from `i` on bind, translated in order.
proof fn lemma_args_bind(args: Seq<SqlFunctionArg>, i: int, n: nat)
    ensures
        tr_args(args, i, n).0 is Ok ==> tr_args(args, i, n).1.to_multiset() =~= bound_by_args(args, i),
    decreases args, args.len() - i,
{
    broadcast use vstd::seq_lib::lemma_multiset_commutative, vstd::seq_lib::group_to_multiset_ensures;

    if 0 <= i < args.len() {
        lemma_arg_binds(args[i], n);
        lemma_args_bind(args, i + 1, n + tr_arg(args[i], n).1.len());
    }
}

// ---------------------------------------------------------------------------
// What the steps of the pipeline keep
// ---------------------------------------------------------------------------

/// Law: the sort direction of each ordering item is kept. An item written `DESC`
/// translates to SQL ending in ` DESC`; one written `ASC` or without a direction, to
/// SQL ending in ` ASC`.
pub proof fn law_order_direction_kept(o: SqlOrderItem, n: nat)
    ensures
        tr_order(o, n).0 matches Ok(s) ==> {
            &&& o.descending ==> exists|t: Seq<char>| s == t + " DESC"@
            &&& !o.descending ==> exists|t: Seq<char>| s == t + " ASC"@
        },
{
    if tr_order(o, n).0 is Ok {
        let t = tr_expr(o.expr, n).0->Ok_0;
        let s = tr_order(o, n).0->Ok_0;
        if o.descending {
            assert(s =~= t + " DESC"@);
        } else {
            assert(s =~= t + " ASC"@);
        }
    }
}

/// Law: a content type reads as a view over its own documents only. A table that names a
/// content type (its name compared in lowercase) translates to a subquery over the
/// documents that keeps those whose `"type"` is the content type's name in lowercase.
pub proof fn law_content_type_view_filters(f: SqlTableFactor, types: Seq<TypeDef>)
    requires
        f matches SqlTableFactor::Table { name, .. } && find_type(types, lowercase(name@)) is Some,
    ensures
        f matches SqlTableFactor::Table { name, .. } && {
            let t = find_type(types, lowercase(name@))->Some_0;
            &&& types.contains(t)
            &&& tr_table_factor(f, types) matches Ok(text) && exists|a: Seq<char>, b: Seq<char>|
                text == a + "FROM documents WHERE \"type\" = '"@ + lowercase(t.name@) + "'"@ + b
        },
{
    let name = f->Table_name;
    let lower = lowercase(name@);
    lemma_find_type(types, lower);
    let t = find_type(types, lower)->Some_0;
    let alias_name = match f->Table_alias {
        Some(x) => x@,
        None => name@,
    };
    let cols = join(document_column_list() + field_columns(t.fields@), ", "@);
    let text = tr_table_factor(f, types)->Ok_0;
    reveal_strlit(" FROM documents WHERE \"type\" = '");
    reveal_strlit("FROM documents WHERE \"type\" = '");
    reveal_strlit(" ");
    reveal_strlit("') AS ");
    reveal_strlit("'");
    reveal_strlit(") AS ");
    let a = "(SELECT "@ + cols + " "@;
    let b = ") AS "@ + alias_name;
    assert(" FROM documents WHERE \"type\" = '"@ =~= " "@ + "FROM documents WHERE \"type\" = '"@);
    assert("') AS "@ =~= "'"@ + ") AS "@);
    assert(text =~= a + "FROM documents WHERE \"type\" = '"@ + lowercase(t.name@) + "'"@ + b);
}

/// The content type found for a lowercase name is one of the types, and its name in
/// lowercase is that name.
proof fn lemma_find_type(types: Seq<TypeDef>, lower: Seq<char>)
    ensures
        find_type(types, lower) matches Some(t) ==> types.contains(t) && lowercase(t.name@) == lower,
    decreases types.len(),
{
    if types.len() > 0 && lowercase(types[0].name@) != lower {
        lemma_find_type(types.drop_first(), lower);
        if find_type(types, lower) is Some {
            let t = find_type(types, lower)->Some_0;
            let k = choose|k: int| 0 <= k < types.drop_first().len() && types.drop_first()[k] == t;
            assert(types[k + 1] == t);
        }
    } else if types.len() > 0 {
        assert(types[0] == types[0]);
    }
}

/// Law: the values supplied as an array are bound as they are, in order. Expanding with
/// an array binds one parameter per value: a boolean as that boolean, a string as its
/// text, `null` as null, an integer within `i64` as that integer.
pub proof fn law_supplied_values_bound_unchanged(sql: Seq<char>, params: JsonValue)
    requires
        params is Array,
        params->Array_0@.len() == positional_max(sql, 0),
    ensures
        expansion(sql, Some(&params)) matches Ok((out, ps)) && out == sql && ps.len() == params->Array_0@.len()
            && forall|i: int| 0 <= i < ps.len() ==> {
                &&& (params->Array_0@[i] matches JsonValue::Bool(b) ==> #[trigger] ps[i] == ParamView::Bool(b))
                &&& (params->Array_0@[i] matches JsonValue::String(x) ==> ps[i] == ParamView::Text(x.text@))
                &&& (params->Array_0@[i] is Null ==> ps[i] == ParamView::Null)
                &&& (params->Array_0@[i].spec_as_i64() matches Some(v) ==> ps[i] == ParamView::Int(v))
            },
{
}

/// Law: a function is allowed by the lowercase form of the last part of its name alone.
/// A call whose name, in lowercase, is not on the allowlist is refused, naming it in
/// lowercase; one whose name is on it is checked by its arguments only. So two calls whose
/// names differ only in letter case get the same answer.
pub proof fn law_function_allowlist(f: SqlFunction, g: SqlFunction)
    ensures
        !allowed_functions().contains(lowered_last(f.last_ident)) ==> check_expr(SqlExpr::Function(f))
            == Err::<(), QueryErrorView>(QueryErrorView::Forbidden(
            "function '"@ + lowered_last(f.last_ident) + "' is not allowed"@,
        )),
        allowed_functions().contains(lowered_last(f.last_ident)) ==> check_expr(SqlExpr::Function(f)) == match f.args {
            SqlFunctionArgs::List(args) => check_args(args@, 0),
            _ => Ok(()),
        },
        lowered_last(f.last_ident) == lowered_last(g.last_ident) && f.args == g.args ==> check_expr(
            SqlExpr::Function(f),
        ) == check_expr(SqlExpr::Function(g)),
{
}

} // verus!
