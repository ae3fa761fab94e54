//! Translation of a validated query into the SQL that runs: every literal becomes a
//! bound `$N` parameter, `data.a.b` paths read the document's JSONB data, and a content
//! type named in `FROM` reads the documents of that type.

use vstd::prelude::*;
use crate::query::error::{QueryError, QueryErrorView};
use crate::query::preprocessor::{Param, ParamView, params_view, lemma_params_view_push};
use crate::query::sql::{
    SqlExpr, SqlFunctionArg, SqlFunctionArgs, SqlLiteral, SqlValue, SqlSelect, SqlSelectItem,
    SqlTableFactor, SqlJoin, SqlJoinKind, SqlJoinConstraint, SqlTableWithJoins, SqlOrderItem,
    SqlNumberArg, SqlLimit, SqlQuery,
};
use crate::schema::field::{FieldDef, TypeDef};
use crate::query::validator::ValidatedQuery;
use crate::text::{
    decimal, join, lowercase, views, parse_i64, float_syntax, push_str, push_char,
    push_decimal, chars_of, to_lowercase, str_eq, join_strings, parse_i64_exec, is_float_syntax, glue3,
};

verus! {

/// What translating one piece gives: its SQL text or an error, and the parameters it
/// bound (also those bound before an error stopped it).
pub type Translation = (Result<Seq<char>, QueryErrorView>, Seq<ParamView>);

/// What translating a list gives: the SQL text of each item or an error, and the
/// parameters bound.
pub type Translations = (Result<Seq<Seq<char>>, QueryErrorView>, Seq<ParamView>);

/// The words an identifier is quoted for, compared in lowercase.
pub open spec fn reserved_words() -> Seq<Seq<char>> {
    seq![
        "type"@, "select"@, "where"@, "from"@, "order"@, "group"@, "limit"@, "offset"@,
        "join"@,
    ]
}

/// An identifier as it is written into the SQL: in double quotes when it is a reserved word.
pub open spec fn quoted_ident(s: Seq<char>) -> Seq<char> {
    if reserved_words().contains(lowercase(s)) {
        seq!['"'] + s + seq!['"']
    } else {
        s
    }
}

/// The JSONB read of `data.a` (`data->>'a' `) or of a deeper path `data.a.b`
/// (`data#>>'{a,b}'`).
pub open spec fn jsonb_path(parts: Seq<Seq<char>>) -> Seq<char> {
    let path = parts.drop_first();
    if path.len() == 1 {
        "data->>'"@ + path[0] + "' "@
    } else {
        "data#>>'{"@ + join(path, ","@) + "}'"@
    }
}

/// The placeholder of the next parameter when `n` are bound.
pub open spec fn placeholder(n: nat) -> Seq<char> {
    seq!['$'] + decimal(n + 1)
}

/// A literal value: bound as a parameter, except a `$N` placeholder, kept as written.
pub open spec fn tr_literal(lit: SqlLiteral, n: nat) -> Translation {
    match lit.value {
        SqlValue::SingleQuoted(s) => (Ok(placeholder(n)), seq![ParamView::Text(s@)]),
        SqlValue::DoubleQuoted(s) => (Ok(placeholder(n)), seq![ParamView::Text(s@)]),
        SqlValue::Number(t) => match parse_i64(t@) {
            Some(i) => (Ok(placeholder(n)), seq![ParamView::Int(i)]),
            None => if float_syntax(t@) {
                (Ok(placeholder(n)), seq![ParamView::Float(t@)])
            } else {
                (Err(QueryErrorView::Invalid("invalid number: "@ + t@)), seq![])
            },
        },
        SqlValue::Boolean(b) => (Ok(placeholder(n)), seq![ParamView::Bool(b)]),
        SqlValue::Null => (Ok(placeholder(n)), seq![ParamView::Null]),
        SqlValue::Placeholder(p) => (Ok(p@), seq![]),
        SqlValue::Other => (
            Err(QueryErrorView::Invalid("unsupported literal value: "@ + lit.text@)),
            seq![],
        ),
    }
}

/// `pre + t + post` when `t` succeeded.
pub open spec fn wrap(pre: Seq<char>, t: Translation, post: Seq<char>) -> Translation {
    (
        match t.0 {
            Ok(s) => Ok(pre + s + post),
            Err(e) => Err(e),
        },
        t.1,
    )
}

/// `l + mid + r` where `r` is translated after `l` (and not at all when `l` failed).
pub open spec fn then(l: Translation, mid: Seq<char>, r: Translation) -> Translation {
    match l.0 {
        Err(e) => l,
        Ok(ls) => (
            match r.0 {
                Ok(rs) => Ok(ls + mid + rs),
                Err(e) => Err(e),
            },
            l.1 + r.1,
        ),
    }
}

/// `"NOT "` when negated.
pub open spec fn negation(negated: bool) -> Seq<char> {
    if negated {
        "NOT "@
    } else {
        seq![]
    }
}

/// The translation of an expression when `n` parameters are bound.
pub open spec fn tr_expr(e: SqlExpr, n: nat) -> Translation
    decreases e, 0int,
{
    match e {
        SqlExpr::CompoundIdentifier(parts) => if parts@.len() > 0 && parts@[0]@ == "data"@ {
            (Ok(jsonb_path(views(parts@))), seq![])
        } else {
            (Ok(join(views(parts@).map_values(|p: Seq<char>| quoted_ident(p)), "."@)), seq![])
        },
        SqlExpr::Identifier(id) => (Ok(quoted_ident(id@)), seq![]),
        SqlExpr::Value(lit) => tr_literal(lit, n),
        SqlExpr::BinaryOp { left, op, right } => {
            let l = tr_expr(*left, n);
            then(l, " "@ + op@ + " "@, tr_expr(*right, n + l.1.len()))
        },
        SqlExpr::UnaryOp { op, expr } => wrap(op@ + " "@, tr_expr(*expr, n), seq![]),
        SqlExpr::IsNull(x) => wrap(seq![], tr_expr(*x, n), " IS NULL"@),
        SqlExpr::IsNotNull(x) => wrap(seq![], tr_expr(*x, n), " IS NOT NULL"@),
        SqlExpr::Like { negated, expr, pattern } => {
            let l = tr_expr(*expr, n);
            then(l, " "@ + negation(negated) + "LIKE "@, tr_expr(*pattern, n + l.1.len()))
        },
        SqlExpr::ILike { negated, expr, pattern } => {
            let l = tr_expr(*expr, n);
            then(l, " "@ + negation(negated) + "ILIKE "@, tr_expr(*pattern, n + l.1.len()))
        },
        SqlExpr::Between { expr, negated, low, high } => {
            let a = tr_expr(*expr, n);
            let b = then(a, " "@ + negation(negated) + "BETWEEN "@, tr_expr(*low, n + a.1.len()));
            then(b, " AND "@, tr_expr(*high, n + b.1.len()))
        },
        SqlExpr::InList { expr, list, negated } => {
            // The list is translated before the expression in front of it; an error of
            // that expression takes precedence over one of the list.
            let items = tr_exprs(list@, 0, n);
            let head = tr_expr(*expr, n + items.1.len());
            (
                match head.0 {
                    Err(e) => Err(e),
                    Ok(h) => match items.0 {
                        Err(e) => Err(e),
                        Ok(its) => Ok(h + " "@ + negation(negated) + "IN ("@ + join(its, ", "@) + ")"@),
                    },
                },
                items.1 + head.1,
            )
        },
        SqlExpr::Nested(x) => wrap("("@, tr_expr(*x, n), ")"@),
        SqlExpr::Cast { expr, data_type } => wrap("CAST("@, tr_expr(*expr, n), " AS "@ + data_type@ + ")"@),
        SqlExpr::Function(f) => match f.args {
            SqlFunctionArgs::NoArgs => (Ok(lowercase(f.name@) + "()"@), seq![]),
            SqlFunctionArgs::List(args) => {
                let a = tr_args(args@, 0, n);
                (
                    match a.0 {
                        Ok(ts) => Ok(lowercase(f.name@) + "("@ + join(ts, ", "@) + ")"@),
                        Err(e) => Err(e),
                    },
                    a.1,
                )
            },
            SqlFunctionArgs::Subquery => (
                Err(QueryErrorView::Forbidden("subquery function arguments are not allowed"@)),
                seq![],
            ),
        },
        SqlExpr::Wildcard => (Ok("*"@), seq![]),
        SqlExpr::Subquery(text) => (Err(QueryErrorView::Invalid("unsupported expression: "@ + text@)), seq![]),
        SqlExpr::Other(text) => (Err(QueryErrorView::Invalid("unsupported expression: "@ + text@)), seq![]),
    }
}

/// The translation of the expressions of `list` from position `i` on, in order.
pub open spec fn tr_exprs(list: Seq<SqlExpr>, i: int, n: nat) -> Translations
    decreases list, list.len() - i,
{
    if i < 0 || i >= list.len() {
        (Ok(seq![]), seq![])
    } else {
        let h = tr_expr(list[i], n);
        match h.0 {
            Err(e) => (Err(e), h.1),
            Ok(ht) => {
                let t = tr_exprs(list, i + 1, n + h.1.len());
                (
                    match t.0 {
                        Ok(ts) => Ok(seq![ht] + ts),
                        Err(e) => Err(e),
                    },
                    h.1 + t.1,
                )
            },
        }
    }
}

/// The translation of a function argument.
pub open spec fn tr_arg(a: SqlFunctionArg, n: nat) -> Translation
    decreases a, 0int,
{
    match a {
        SqlFunctionArg::Expr(e) => tr_expr(e, n),
        SqlFunctionArg::Wildcard => (Ok("*"@), seq![]),
        SqlFunctionArg::Named { name, expr } => wrap(name@ + " => "@, tr_expr(expr, n), seq![]),
        SqlFunctionArg::Other => (Ok("*"@), seq![]),
    }
}

/// The translation of the arguments of `args` from position `i` on, in order.
pub open spec fn tr_args(args: Seq<SqlFunctionArg>, i: int, n: nat) -> Translations
    decreases args, args.len() - i,
{
    if i < 0 || i >= args.len() {
        (Ok(seq![]), seq![])
    } else {
        let h = tr_arg(args[i], n);
        match h.0 {
            Err(e) => (Err(e), h.1),
            Ok(ht) => {
                let t = tr_args(args, i + 1, n + h.1.len());
                (
                    match t.0 {
                        Ok(ts) => Ok(seq![ht] + ts),
                        Err(e) => Err(e),
                    },
                    h.1 + t.1,
                )
            },
        }
    }
}

/// That `r` and the parameters after the call are what translation `t` gives, starting
/// from the parameters `before`.
pub open spec fn produced(
    r: Result<String, QueryError>,
    t: Translation,
    before: Seq<Param>,
    after: Seq<Param>,
) -> bool {
    &&& params_view(after) == params_view(before) + t.1
    &&& match t.0 {
        Ok(s) => r matches Ok(x) && x@ == s,
        Err(e) => r matches Err(x) && x@ == e,
    }
}

/// As [`produced`], for a list.
pub open spec fn produced_all(
    r: Result<Vec<String>, QueryError>,
    t: Translations,
    before: Seq<Param>,
    after: Seq<Param>,
) -> bool {
    &&& params_view(after) == params_view(before) + t.1
    &&& match t.0 {
        Ok(s) => r matches Ok(x) && views(x@) == s,
        Err(e) => r matches Err(x) && x@ == e,
    }
}

// ---------------------------------------------------------------------------
// Computing the translations
// ---------------------------------------------------------------------------

/// Writes an identifier, in double quotes when it is a reserved word.
pub fn quote_ident(s: &str) -> (r: String)
    ensures
        r@ == quoted_ident(s@),
{
    let lower = to_lowercase(s);
    let l = lower.as_str();
    let reserved = str_eq(l, "type") || str_eq(l, "select") || str_eq(l, "where")
        || str_eq(l, "from") || str_eq(l, "order") || str_eq(l, "group") || str_eq(l, "limit")
        || str_eq(l, "offset") || str_eq(l, "join");
    assert(reserved == reserved_words().contains(lowercase(s@))) by {
        let w = reserved_words();
        assert(w[0] == "type"@ && w[1] == "select"@ && w[2] == "where"@ && w[3] == "from"@);
        assert(w[4] == "order"@ && w[5] == "group"@ && w[6] == "limit"@ && w[7] == "offset"@);
        assert(w[8] == "join"@);
        if w.contains(lowercase(s@)) {
            let k = choose|k: int| 0 <= k < w.len() && w[k] == lowercase(s@);
            assert(0 <= k < 9);
        }
    }
    if reserved {
        let mut r = String::new();
        push_char(&mut r, '"');
        push_str(&mut r, s);
        push_char(&mut r, '"');
        assert(r@ =~= seq!['"'] + s@ + seq!['"']);
        r
    } else {
        s.to_string()
    }
}

/// Writes the JSONB read of a `data.…` path.
fn rewrite_jsonb_path(parts: &Vec<String>) -> (r: String)
    requires
        parts@.len() > 0,
    ensures
        r@ == jsonb_path(views(parts@)),
{
    let mut path: Vec<String> = Vec::new();
    let mut i: usize = 1;
    while i < parts.len()
        invariant
            1 <= i <= parts@.len(),
            path@.len() == i - 1,
            forall|j: int| 0 <= j < path@.len() ==> #[trigger] path@[j]@ == parts@[j + 1]@,
        decreases parts@.len() - i,
    {
        path.push(parts[i].clone());
        i = i + 1;
    }
    assert(views(path@) =~= views(parts@).drop_first());
    let mut r = String::new();
    if path.len() == 1 {
        push_str(&mut r, "data->>'");
        push_str(&mut r, path[0].as_str());
        push_str(&mut r, "' ");
    } else {
        push_str(&mut r, "data#>>'{");
        let joined = join_strings(&path, ",");
        push_str(&mut r, joined.as_str());
        push_str(&mut r, "}'");
    }
    r
}

/// Binds a literal as the next parameter and writes its placeholder.
fn parameterize_value(lit: &SqlLiteral, params: &mut Vec<Param>) -> (r: Result<String, QueryError>)
    ensures
        produced(r, tr_literal(*lit, old(params)@.len()), old(params)@, final(params)@),
{
    let param = match &lit.value {
        SqlValue::SingleQuoted(s) => Param::Text(s.clone()),
        SqlValue::DoubleQuoted(s) => Param::Text(s.clone()),
        SqlValue::Number(t) => {
            let cs = chars_of(t.as_str());
            match parse_i64_exec(cs.as_slice()) {
                Some(i) => Param::Int(i),
                None => if is_float_syntax(cs.as_slice()) {
                    Param::Float(t.clone())
                } else {
                    let mut m = String::new();
                    push_str(&mut m, "invalid number: ");
                    push_str(&mut m, t.as_str());
                    assert(params_view(params@) =~= params_view(params@) + seq![]);
                    return Err(QueryError::Invalid(m));
                },
            }
        },
        SqlValue::Boolean(b) => Param::Bool(*b),
        SqlValue::Null => Param::Null,
        SqlValue::Placeholder(p) => {
            assert(params_view(params@) =~= params_view(params@) + seq![]);
            return Ok(p.clone());
        },
        SqlValue::Other => {
            let mut m = String::new();
            push_str(&mut m, "unsupported literal value: ");
            push_str(&mut m, lit.text.as_str());
            assert(params_view(params@) =~= params_view(params@) + seq![]);
            return Err(QueryError::Invalid(m));
        },
    };
    let ghost before = params@;
    let ghost pv = param@;
    params.push(param);
    proof {
        lemma_params_view_push(before, params@.last());
        assert(params_view(params@) =~= params_view(before) + seq![pv]);
    }
    let pos = params.len();
    let mut r = String::new();
    push_char(&mut r, '$');
    push_decimal(&mut r, pos as u64);
    assert(r@ =~= placeholder(before.len()));
    Ok(r)
}

/// `a` followed by `b`.
pub fn glue(a: &str, b: &str) -> (r: String)
    ensures
        r@ == a@ + b@,
{
    let mut r = String::new();
    push_str(&mut r, a);
    push_str(&mut r, b);
    assert(r@ =~= a@ + b@);
    r
}

/// `"NOT "` when negated, computed.
fn negation_text(negated: bool) -> (r: &'static str)
    ensures
        r@ == negation(negated),
{
    proof {
        reveal_strlit("");
    }
    if negated {
        "NOT "
    } else {
        ""
    }
}

/// Parameters bound in three steps are bound in sequence.
proof fn lemma_bound_in_sequence(a: Seq<ParamView>, b: Seq<ParamView>, c: Seq<ParamView>)
    ensures
        a + b + c == a + (b + c),
{
    assert(a + b + c =~= a + (b + c));
}

/// Translates an expression, binding its literals after the parameters already bound.
pub fn translate_expr(expr: &SqlExpr, params: &mut Vec<Param>) -> (r: Result<String, QueryError>)
    ensures
        produced(r, tr_expr(*expr, old(params)@.len()), old(params)@, final(params)@),
    decreases expr, 1int,
{
    proof {
        assert(params_view(params@) =~= params_view(params@) + seq![]);
    }
    match expr {
        SqlExpr::CompoundIdentifier(parts) => {
            if parts.len() > 0 && str_eq(parts[0].as_str(), "data") {
                return Ok(rewrite_jsonb_path(parts));
            }
            let mut qs: Vec<String> = Vec::new();
            let mut i: usize = 0;
            while i < parts.len()
                invariant
                    i <= parts@.len(),
                    qs@.len() == i,
                    forall|j: int| 0 <= j < i ==> #[trigger] qs@[j]@ == quoted_ident(parts@[j]@),
                decreases parts@.len() - i,
            {
                qs.push(quote_ident(parts[i].as_str()));
                i = i + 1;
            }
            assert(views(qs@) =~= views(parts@).map_values(|p: Seq<char>| quoted_ident(p)));
            Ok(join_strings(&qs, "."))
        },
        SqlExpr::Identifier(id) => Ok(quote_ident(id.as_str())),
        SqlExpr::Value(lit) => parameterize_value(lit, params),
        SqlExpr::BinaryOp { .. } => translate_pair(expr, params),
        SqlExpr::Like { .. } => translate_pair(expr, params),
        SqlExpr::ILike { .. } => translate_pair(expr, params),
        SqlExpr::UnaryOp { .. } => translate_wrapped(expr, params),
        SqlExpr::IsNull(_) => translate_wrapped(expr, params),
        SqlExpr::IsNotNull(_) => translate_wrapped(expr, params),
        SqlExpr::Nested(_) => translate_wrapped(expr, params),
        SqlExpr::Cast { .. } => translate_wrapped(expr, params),
        SqlExpr::Between { .. } => translate_between(expr, params),
        SqlExpr::InList { .. } => translate_in_list(expr, params),
        SqlExpr::Function(f) => {
            let name = to_lowercase(f.name.as_str());
            match &f.args {
                SqlFunctionArgs::NoArgs => Ok(glue(name.as_str(), "()")),
                SqlFunctionArgs::List(args) => {
                    let ts = translate_args_from(args, 0, params)?;
                    let mut out = glue(name.as_str(), "(");
                    let joined = join_strings(&ts, ", ");
                    push_str(&mut out, joined.as_str());
                    push_str(&mut out, ")");
                    assert(out@ =~= name@ + "("@ + joined@ + ")"@);
                    Ok(out)
                },
                SqlFunctionArgs::Subquery => Err(
                    QueryError::Forbidden("subquery function arguments are not allowed".to_string()),
                ),
            }
        },
        SqlExpr::Wildcard => Ok("*".to_string()),
        SqlExpr::Subquery(text) => Err(QueryError::Invalid(glue("unsupported expression: ", text.as_str()))),
        SqlExpr::Other(text) => Err(QueryError::Invalid(glue("unsupported expression: ", text.as_str()))),
    }
}

/// The two operands of a binary operator or a `LIKE`, and what stands between them.
pub open spec fn pair_parts(e: SqlExpr) -> (SqlExpr, Seq<char>, SqlExpr) {
    match e {
        SqlExpr::BinaryOp { left, op, right } => (*left, " "@ + op@ + " "@, *right),
        SqlExpr::Like { negated, expr, pattern } => (*expr, " "@ + negation(negated) + "LIKE "@, *pattern),
        SqlExpr::ILike { negated, expr, pattern } => (*expr, " "@ + negation(negated) + "ILIKE "@, *pattern),
        _ => (e, seq![], e),
    }
}

/// Translates a binary operator, a `LIKE` or an `ILIKE`.
fn translate_pair(expr: &SqlExpr, params: &mut Vec<Param>) -> (r: Result<String, QueryError>)
    requires
        expr is BinaryOp || expr is Like || expr is ILike,
    ensures
        produced(r, tr_expr(*expr, old(params)@.len()), old(params)@, final(params)@),
    decreases expr, 0int,
{
    let ghost before = params@;
    let (left, right, mid) = match expr {
        SqlExpr::BinaryOp { left, op, right } => (left, right, glue(" ", op.as_str())),
        SqlExpr::Like { negated, expr: x, pattern } => (x, pattern, glue(" ", negation_text(*negated))),
        SqlExpr::ILike { negated, expr: x, pattern } => (x, pattern, glue(" ", negation_text(*negated))),
        _ => {
            proof { assert(false); }
            return Err(QueryError::Invalid(String::new()));
        },
    };
    let mut mid = mid;
    match expr {
        SqlExpr::BinaryOp { .. } => push_str(&mut mid, " "),
        SqlExpr::Like { .. } => push_str(&mut mid, "LIKE "),
        _ => push_str(&mut mid, "ILIKE "),
    }
    assert(mid@ == pair_parts(*expr).1);
    let l = translate_expr(left, params);
    let l = match l {
        Err(e) => return Err(e),
        Ok(l) => l,
    };
    let ghost middle = params@;
    let r = translate_expr(right, params);
    proof {
        lemma_bound_in_sequence(
            params_view(before),
            tr_expr(**left, before.len()).1,
            tr_expr(**right, middle.len()).1,
        );
    }
    let r = match r {
        Err(e) => return Err(e),
        Ok(r) => r,
    };
    let mut out = l;
    push_str(&mut out, mid.as_str());
    push_str(&mut out, r.as_str());
    Ok(out)
}

/// What goes before and after the one operand of a unary form.
pub open spec fn wrapped_parts(e: SqlExpr) -> (Seq<char>, SqlExpr, Seq<char>) {
    match e {
        SqlExpr::UnaryOp { op, expr } => (op@ + " "@, *expr, seq![]),
        SqlExpr::IsNull(x) => (seq![], *x, " IS NULL"@),
        SqlExpr::IsNotNull(x) => (seq![], *x, " IS NOT NULL"@),
        SqlExpr::Nested(x) => ("("@, *x, ")"@),
        SqlExpr::Cast { expr, data_type } => ("CAST("@, *expr, " AS "@ + data_type@ + ")"@),
        _ => (seq![], e, seq![]),
    }
}

/// Translates a unary operator, `IS [NOT] NULL`, a parenthesised expression or a cast.
fn translate_wrapped(expr: &SqlExpr, params: &mut Vec<Param>) -> (r: Result<String, QueryError>)
    requires
        expr is UnaryOp || expr is IsNull || expr is IsNotNull || expr is Nested || expr is Cast,
    ensures
        produced(r, tr_expr(*expr, old(params)@.len()), old(params)@, final(params)@),
    decreases expr, 0int,
{
    let (inner, pre, post) = match expr {
        SqlExpr::UnaryOp { op, expr: x } => (x, glue(op.as_str(), " "), String::new()),
        SqlExpr::IsNull(x) => (x, String::new(), " IS NULL".to_string()),
        SqlExpr::IsNotNull(x) => (x, String::new(), " IS NOT NULL".to_string()),
        SqlExpr::Nested(x) => (x, "(".to_string(), ")".to_string()),
        SqlExpr::Cast { expr: x, data_type } => {
            let mut post = glue(" AS ", data_type.as_str());
            push_str(&mut post, ")");
            (x, "CAST(".to_string(), post)
        },
        _ => {
            proof { assert(false); }
            return Err(QueryError::Invalid(String::new()));
        },
    };
    assert(pre@ == wrapped_parts(*expr).0 && post@ == wrapped_parts(*expr).2);
    let t = translate_expr(inner, params)?;
    let mut out = pre;
    push_str(&mut out, t.as_str());
    push_str(&mut out, post.as_str());
    Ok(out)
}

/// Translates `x [NOT] BETWEEN low AND high`.
fn translate_between(expr: &SqlExpr, params: &mut Vec<Param>) -> (r: Result<String, QueryError>)
    requires
        expr is Between,
    ensures
        produced(r, tr_expr(*expr, old(params)@.len()), old(params)@, final(params)@),
    decreases expr, 0int,
{
    let ghost before = params@;
    match expr {
        SqlExpr::Between { expr: x, negated, low, high } => {
            let a = match translate_expr(x, params) {
                Err(e) => return Err(e),
                Ok(a) => a,
            };
            let ghost p1 = params@;
            let b = translate_expr(low, params);
            proof {
                lemma_bound_in_sequence(params_view(before), tr_expr(**x, before.len()).1, tr_expr(**low, p1.len()).1);
            }
            let b = match b {
                Err(e) => return Err(e),
                Ok(b) => b,
            };
            let ghost p2 = params@;
            let c = translate_expr(high, params);
            proof {
                let ab = then(tr_expr(**x, before.len()), " "@ + negation(*negated) + "BETWEEN "@, tr_expr(**low, p1.len()));
                lemma_bound_in_sequence(params_view(before), ab.1, tr_expr(**high, p2.len()).1);
            }
            let c = match c {
                Err(e) => return Err(e),
                Ok(c) => c,
            };
            let mut out = glue(a.as_str(), " ");
            push_str(&mut out, negation_text(*negated));
            push_str(&mut out, "BETWEEN ");
            push_str(&mut out, b.as_str());
            push_str(&mut out, " AND ");
            push_str(&mut out, c.as_str());
            assert(out@ =~= (a@ + (" "@ + negation(*negated) + "BETWEEN "@) + b@) + " AND "@ + c@);
            Ok(out)
        },
        _ => {
            proof { assert(false); }
            Err(QueryError::Invalid(String::new()))
        },
    }
}

/// Translates `x [NOT] IN (list)`: the list first, then `x`.
fn translate_in_list(expr: &SqlExpr, params: &mut Vec<Param>) -> (r: Result<String, QueryError>)
    requires
        expr is InList,
    ensures
        produced(r, tr_expr(*expr, old(params)@.len()), old(params)@, final(params)@),
    decreases expr, 0int,
{
    let ghost before = params@;
    match expr {
        SqlExpr::InList { expr: x, list, negated } => {
            let items = translate_exprs_from(list, 0, params);
            let ghost p1 = params@;
            let h = translate_expr(x, params);
            proof {
                lemma_bound_in_sequence(params_view(before), tr_exprs(list@, 0, before.len()).1, tr_expr(**x, p1.len()).1);
            }
            let h = match h {
                Err(e) => return Err(e),
                Ok(h) => h,
            };
            let its = match items {
                Err(e) => return Err(e),
                Ok(its) => its,
            };
            let mut out = glue(h.as_str(), " ");
            push_str(&mut out, negation_text(*negated));
            push_str(&mut out, "IN (");
            let joined = join_strings(&its, ", ");
            push_str(&mut out, joined.as_str());
            push_str(&mut out, ")");
            assert(out@ =~= h@ + " "@ + negation(*negated) + "IN ("@ + joined@ + ")"@);
            Ok(out)
        },
        _ => {
            proof { assert(false); }
            Err(QueryError::Invalid(String::new()))
        },
    }
}

/// Translates the expressions of `list` from position `i` on, in order.
pub fn translate_exprs_from(list: &Vec<SqlExpr>, i: usize, params: &mut Vec<Param>) -> (r: Result<Vec<String>, QueryError>)
    ensures
        produced_all(r, tr_exprs(list@, i as int, old(params)@.len()), old(params)@, final(params)@),
    decreases list@, list@.len() - i,
{
    let ghost before = params@;
    if i >= list.len() {
        let v: Vec<String> = Vec::new();
        assert(params_view(params@) =~= params_view(params@) + seq![]);
        assert(views(v@) =~= seq![]);
        return Ok(v);
    }
    let h = match translate_expr(&list[i], params) {
        Err(e) => return Err(e),
        Ok(h) => h,
    };
    let ghost p1 = params@;
    let t = translate_exprs_from(list, i + 1, params);
    proof {
        lemma_bound_in_sequence(params_view(before), tr_expr(list@[i as int], before.len()).1, tr_exprs(list@, i + 1, p1.len()).1);
    }
    let mut t = match t {
        Err(e) => return Err(e),
        Ok(t) => t,
    };
    let ghost old_t = t@;
    let ghost hv = h@;
    t.insert(0, h);
    assert(t@ =~= seq![t@[0]] + old_t);
    assert(views(t@) =~= seq![hv] + views(old_t));
    Ok(t)
}

/// Translates one function argument.
pub fn translate_arg(a: &SqlFunctionArg, params: &mut Vec<Param>) -> (r: Result<String, QueryError>)
    ensures
        produced(r, tr_arg(*a, old(params)@.len()), old(params)@, final(params)@),
    decreases a, 0int,
{
    proof {
        assert(params_view(params@) =~= params_view(params@) + seq![]);
    }
    match a {
        SqlFunctionArg::Expr(e) => translate_expr(e, params),
        SqlFunctionArg::Wildcard => Ok("*".to_string()),
        SqlFunctionArg::Named { name, expr } => {
            let t = translate_expr(expr, params)?;
            let mut out = glue(name.as_str(), " => ");
            push_str(&mut out, t.as_str());
            assert(out@ =~= (name@ + " => "@) + t@ + seq![]);
            Ok(out)
        },
        SqlFunctionArg::Other => Ok("*".to_string()),
    }
}

/// Translates the arguments of `args` from position `i` on, in order.
pub fn translate_args_from(args: &Vec<SqlFunctionArg>, i: usize, params: &mut Vec<Param>) -> (r: Result<Vec<String>, QueryError>)
    ensures
        produced_all(r, tr_args(args@, i as int, old(params)@.len()), old(params)@, final(params)@),
    decreases args@, args@.len() - i,
{
    let ghost before = params@;
    if i >= args.len() {
        let v: Vec<String> = Vec::new();
        assert(params_view(params@) =~= params_view(params@) + seq![]);
        assert(views(v@) =~= seq![]);
        return Ok(v);
    }
    let h = match translate_arg(&args[i], params) {
        Err(e) => return Err(e),
        Ok(h) => h,
    };
    let ghost p1 = params@;
    let t = translate_args_from(args, i + 1, params);
    proof {
        lemma_bound_in_sequence(params_view(before), tr_arg(args@[i as int], before.len()).1, tr_args(args@, i + 1, p1.len()).1);
    }
    let mut t = match t {
        Err(e) => return Err(e),
        Ok(t) => t,
    };
    let ghost old_t = t@;
    let ghost hv = h@;
    t.insert(0, h);
    assert(t@ =~= seq![t@[0]] + old_t);
    assert(views(t@) =~= seq![hv] + views(old_t));
    Ok(t)
}

// ---------------------------------------------------------------------------
// Tables, joins, the select block and the query
// ---------------------------------------------------------------------------

/// The columns of the documents table.
pub open spec fn document_columns() -> Seq<Seq<char>> {
    seq!["id"@, "type"@, "status"@, "data"@, "created_at"@, "updated_at"@, "published_at"@]
}

/// The documents table's columns as a content type's view selects them.
pub open spec fn document_column_list() -> Seq<Seq<char>> {
    seq!["id"@, "\"type\""@, "status"@, "data"@, "created_at"@, "updated_at"@, "published_at"@]
}

/// The extra columns a content type's view reads from the JSONB data: one per field whose
/// name is not a document column.
pub open spec fn field_columns(fields: Seq<FieldDef>) -> Seq<Seq<char>>
    decreases fields.len(),
{
    if fields.len() == 0 {
        seq![]
    } else {
        let rest = field_columns(fields.drop_last());
        let name = fields.last().spec_base().name@;
        if document_columns().contains(lowercase(name)) {
            rest
        } else {
            rest.push("data->>'"@ + name + "' AS \""@ + name + "\""@)
        }
    }
}

/// The first content type whose name in lowercase is `lower`.
pub open spec fn find_type(types: Seq<TypeDef>, lower: Seq<char>) -> Option<TypeDef>
    decreases types.len(),
{
    if types.len() == 0 {
        None
    } else if lowercase(types[0].name@) == lower {
        Some(types[0])
    } else {
        find_type(types.drop_first(), lower)
    }
}

/// A table reference: a content type becomes a view over the documents of that type.
pub open spec fn tr_table_factor(f: SqlTableFactor, types: Seq<TypeDef>) -> Result<Seq<char>, QueryErrorView> {
    match f {
        SqlTableFactor::Table { name, last_ident, alias } => {
            let lower = lowercase(name@);
            match find_type(types, lower) {
                Some(t) => {
                    let alias_name = match alias {
                        Some(a) => a@,
                        None => name@,
                    };
                    Ok("(SELECT "@ + join(document_column_list() + field_columns(t.fields@), ", "@)
                        + " FROM documents WHERE \"type\" = '"@ + lower + "') AS "@ + alias_name)
                },
                None => match alias {
                    Some(a) => Ok(name@ + " AS "@ + a@),
                    None => Ok(name@),
                },
            }
        },
        _ => Err(QueryErrorView::Invalid("unsupported table reference"@)),
    }
}

/// A `USING` column's name (empty when it is not a plain identifier).
pub open spec fn using_name(o: Option<String>) -> Seq<char> {
    match o {
        Some(s) => s@,
        None => seq![],
    }
}

/// A join constraint.
pub open spec fn tr_constraint(c: SqlJoinConstraint, n: nat) -> Translation {
    match c {
        SqlJoinConstraint::On(e) => wrap(" ON "@, tr_expr(e, n), seq![]),
        SqlJoinConstraint::Using(cols) => (
            Ok(" USING ("@ + join(cols@.map_values(|o: Option<String>| using_name(o)), ", "@) + ")"@),
            seq![],
        ),
        SqlJoinConstraint::Other => (Err(QueryErrorView::Invalid("unsupported JOIN constraint"@)), seq![]),
    }
}

/// A join: only inner and left joins are translated.
pub open spec fn tr_join(j: SqlJoin, types: Seq<TypeDef>, n: nat) -> Translation {
    match tr_table_factor(j.relation, types) {
        Err(e) => (Err(e), seq![]),
        Ok(jt) => match j.kind {
            SqlJoinKind::Inner(c) => wrap("JOIN "@ + jt, tr_constraint(c, n), seq![]),
            SqlJoinKind::Left(c) => wrap("LEFT JOIN "@ + jt, tr_constraint(c, n), seq![]),
            SqlJoinKind::LeftOuter(c) => wrap("LEFT JOIN "@ + jt, tr_constraint(c, n), seq![]),
            SqlJoinKind::Other => (
                Err(QueryErrorView::Forbidden("only INNER and LEFT joins are supported"@)),
                seq![],
            ),
        },
    }
}

/// The joins from position `i` on, in order.
pub open spec fn tr_joins(joins: Seq<SqlJoin>, i: int, types: Seq<TypeDef>, n: nat) -> Translations
    decreases joins.len() - i,
{
    if i < 0 || i >= joins.len() {
        (Ok(seq![]), seq![])
    } else {
        let h = tr_join(joins[i], types, n);
        match h.0 {
            Err(e) => (Err(e), h.1),
            Ok(ht) => {
                let t = tr_joins(joins, i + 1, types, n + h.1.len());
                (match t.0 { Ok(ts) => Ok(seq![ht] + ts), Err(e) => Err(e) }, h.1 + t.1)
            },
        }
    }
}

/// A table with its joins.
pub open spec fn tr_table(t: SqlTableWithJoins, types: Seq<TypeDef>, n: nat) -> Translation {
    match tr_table_factor(t.relation, types) {
        Err(e) => (Err(e), seq![]),
        Ok(tt) => {
            let js = tr_joins(t.joins@, 0, types, n);
            (
                match js.0 {
                    Ok(v) => Ok(if v.len() > 0 { tt + " "@ + join(v, " "@) } else { tt }),
                    Err(e) => Err(e),
                },
                js.1,
            )
        },
    }
}

/// The tables of the `FROM` list from position `i` on, in order.
pub open spec fn tr_tables(from: Seq<SqlTableWithJoins>, i: int, types: Seq<TypeDef>, n: nat) -> Translations
    decreases from.len() - i,
{
    if i < 0 || i >= from.len() {
        (Ok(seq![]), seq![])
    } else {
        let h = tr_table(from[i], types, n);
        match h.0 {
            Err(e) => (Err(e), h.1),
            Ok(ht) => {
                let t = tr_tables(from, i + 1, types, n + h.1.len());
                (match t.0 { Ok(ts) => Ok(seq![ht] + ts), Err(e) => Err(e) }, h.1 + t.1)
            },
        }
    }
}

/// A select item.
pub open spec fn tr_item(item: SqlSelectItem, n: nat) -> Translation {
    match item {
        SqlSelectItem::Wildcard => (Ok("*"@), seq![]),
        SqlSelectItem::QualifiedWildcard(name) => (Ok(name@ + ".*"@), seq![]),
        SqlSelectItem::Unnamed(e) => tr_expr(e, n),
        SqlSelectItem::WithAlias { expr, alias } => wrap(seq![], tr_expr(expr, n), " AS "@ + alias@),
        SqlSelectItem::WithAliases { expr, aliases } => wrap(
            seq![],
            tr_expr(expr, n),
            " AS "@ + join(views(aliases@), ", "@),
        ),
    }
}

/// The select items from position `i` on, in order.
pub open spec fn tr_items(items: Seq<SqlSelectItem>, i: int, n: nat) -> Translations
    decreases items.len() - i,
{
    if i < 0 || i >= items.len() {
        (Ok(seq![]), seq![])
    } else {
        let h = tr_item(items[i], n);
        match h.0 {
            Err(e) => (Err(e), h.1),
            Ok(ht) => {
                let t = tr_items(items, i + 1, n + h.1.len());
                (match t.0 { Ok(ts) => Ok(seq![ht] + ts), Err(e) => Err(e) }, h.1 + t.1)
            },
        }
    }
}

/// A list joined with `sep` after `pre`, when it translated.
pub open spec fn joined(pre: Seq<char>, t: Translations, sep: Seq<char>) -> Translation {
    (match t.0 { Ok(v) => Ok(pre + join(v, sep)), Err(e) => Err(e) }, t.1)
}

/// Nothing, translated.
pub open spec fn nothing() -> Translation {
    (Ok(seq![]), seq![])
}

/// The select block: `SELECT … FROM …` with its `WHERE`, `GROUP BY` and `HAVING` clauses.
pub open spec fn tr_select(s: SqlSelect, types: Seq<TypeDef>, n: nat) -> Translation {
    let head = joined("SELECT "@, tr_items(s.projection@, 0, n), ", "@);
    let a = then(head, " FROM "@, joined(seq![], tr_tables(s.from@, 0, types, n + head.1.len()), ", "@));
    let b = then(a, seq![], match s.selection {
        Some(e) => wrap(" WHERE "@, tr_expr(e, n + a.1.len()), seq![]),
        None => nothing(),
    });
    let c = then(b, seq![], if s.group_by@.len() > 0 {
        joined(" GROUP BY "@, tr_exprs(s.group_by@, 0, n + b.1.len()), ", "@)
    } else {
        nothing()
    });
    then(c, seq![], match s.having {
        Some(e) => wrap(" HAVING "@, tr_expr(e, n + c.1.len()), seq![]),
        None => nothing(),
    })
}

/// An ordering expression.
pub open spec fn tr_order(o: SqlOrderItem, n: nat) -> Translation {
    wrap(seq![], tr_expr(o.expr, n), if o.descending { " DESC"@ } else { " ASC"@ })
}

/// The ordering expressions from position `i` on, in order.
pub open spec fn tr_orders(items: Seq<SqlOrderItem>, i: int, n: nat) -> Translations
    decreases items.len() - i,
{
    if i < 0 || i >= items.len() {
        (Ok(seq![]), seq![])
    } else {
        let h = tr_order(items[i], n);
        match h.0 {
            Err(e) => (Err(e), h.1),
            Ok(ht) => {
                let t = tr_orders(items, i + 1, n + h.1.len());
                (match t.0 { Ok(ts) => Ok(seq![ht] + ts), Err(e) => Err(e) }, h.1 + t.1)
            },
        }
    }
}

/// A `LIMIT` or `OFFSET` argument, written inline: it must be a numeric literal.
pub open spec fn tr_number_arg(a: SqlNumberArg) -> Result<Seq<char>, QueryErrorView> {
    match a.expr {
        SqlExpr::Value(lit) => match lit.value {
            SqlValue::Number(t) => Ok(t@),
            _ => Err(QueryErrorView::Invalid("LIMIT/OFFSET must be a number, got: "@ + lit.text@)),
        },
        _ => Err(QueryErrorView::Invalid("LIMIT/OFFSET must be a literal number, got: "@ + a.text@)),
    }
}

/// The `LIMIT` and `OFFSET` clauses.
pub open spec fn tr_limit(l: Option<SqlLimit>) -> Result<Seq<char>, QueryErrorView> {
    match l {
        Some(SqlLimit::LimitOffset { limit, offset }) => {
            let a = match limit {
                Some(x) => match tr_number_arg(x) {
                    Ok(t) => Ok(" LIMIT "@ + t),
                    Err(e) => Err(e),
                },
                None => Ok(seq![]),
            };
            match a {
                Err(e) => Err(e),
                Ok(at) => match offset {
                    Some(y) => match tr_number_arg(y) {
                        Ok(t) => Ok(at + " OFFSET "@ + t),
                        Err(e) => Err(e),
                    },
                    None => Ok(at),
                },
            }
        },
        _ => Ok(seq![]),
    }
}

/// A query whose body is a select block, with `n` parameters bound before it.
pub open spec fn tr_query(q: SqlQuery, types: Seq<TypeDef>, n: nat) -> Translation {
    let s = tr_select(q.body->0, types, n);
    let o = then(s, seq![], match q.order_by {
        Some(items) => joined(" ORDER BY "@, tr_orders(items@, 0, n + s.1.len()), ", "@),
        None => nothing(),
    });
    then(o, seq![], (tr_limit(q.limit), seq![]))
}

/// The translated query and all its parameters.
pub struct Translated {
    pub sql: String,
    pub params: Vec<Param>,
}

/// Whether a name in lowercase is a documents column.
fn is_document_column(s: &str) -> (r: bool)
    ensures
        r == document_columns().contains(s@),
{
    let r = str_eq(s, "id") || str_eq(s, "type") || str_eq(s, "status") || str_eq(s, "data")
        || str_eq(s, "created_at") || str_eq(s, "updated_at") || str_eq(s, "published_at");
    proof {
        let w = document_columns();
        if w.contains(s@) {
            let k = choose|k: int| 0 <= k < w.len() && w[k] == s@;
            assert(0 <= k < 7);
        }
        assert(w[0] == "id"@ && w[1] == "type"@ && w[2] == "status"@ && w[3] == "data"@);
        assert(w[4] == "created_at"@ && w[5] == "updated_at"@ && w[6] == "published_at"@);
    }
    r
}

/// The columns of a content type's view.
fn type_columns(fields: &Vec<FieldDef>) -> (r: Vec<String>)
    ensures
        views(r@) == document_column_list() + field_columns(fields@),
{
    let mut cols: Vec<String> = Vec::new();
    cols.push("id".to_string());
    cols.push("\"type\"".to_string());
    cols.push("status".to_string());
    cols.push("data".to_string());
    cols.push("created_at".to_string());
    cols.push("updated_at".to_string());
    cols.push("published_at".to_string());
    assert(views(cols@) =~= document_column_list() + field_columns(fields@.take(0)));
    let mut i: usize = 0;
    while i < fields.len()
        invariant
            i <= fields@.len(),
            views(cols@) == document_column_list() + field_columns(fields@.take(i as int)),
        decreases fields@.len() - i,
    {
        let name = &fields[i].base().name;
        let lower = to_lowercase(name.as_str());
        assert(fields@.take(i + 1).drop_last() =~= fields@.take(i as int));
        assert(fields@.take(i + 1).last() == fields@[i as int]);
        if !is_document_column(lower.as_str()) {
            let mut c = String::new();
            push_str(&mut c, "data->>'");
            push_str(&mut c, name.as_str());
            push_str(&mut c, "' AS \"");
            push_str(&mut c, name.as_str());
            push_str(&mut c, "\"");
            let ghost before = cols@;
            cols.push(c);
            assert(views(cols@) =~= views(before).push(c@));
        }
        i = i + 1;
    }
    assert(fields@.take(fields@.len() as int) =~= fields@);
    cols
}

/// Finds the first content type whose name in lowercase is `lower`.
fn find_type_exec<'a>(types: &'a [TypeDef], lower: &str) -> (r: Option<&'a TypeDef>)
    ensures
        r matches Some(t) ==> find_type(types@, lower@) == Some(*t),
        r is None ==> find_type(types@, lower@) is None,
{
    let mut i: usize = 0;
    assert(types@.skip(0) =~= types@);
    while i < types.len()
        invariant
            i <= types@.len(),
            find_type(types@, lower@) == find_type(types@.skip(i as int), lower@),
        decreases types@.len() - i,
    {
        assert(types@.skip(i as int).drop_first() =~= types@.skip(i + 1));
        let name = to_lowercase(types[i].name.as_str());
        if str_eq(name.as_str(), lower) {
            return Some(&types[i]);
        }
        i = i + 1;
    }
    None
}

/// Translates a table reference.
fn translate_table_factor(f: &SqlTableFactor, types: &[TypeDef]) -> (r: Result<String, QueryError>)
    ensures
        match tr_table_factor(*f, types@) {
            Ok(t) => r matches Ok(x) && x@ == t,
            Err(e) => r matches Err(x) && x@ == e,
        },
{
    match f {
        SqlTableFactor::Table { name, alias, .. } => {
            let lower = to_lowercase(name.as_str());
            match find_type_exec(types, lower.as_str()) {
                Some(t) => {
                    let cols = type_columns(&t.fields);
                    let mut out = String::new();
                    push_str(&mut out, "(SELECT ");
                    let joined = join_strings(&cols, ", ");
                    push_str(&mut out, joined.as_str());
                    push_str(&mut out, " FROM documents WHERE \"type\" = '");
                    push_str(&mut out, lower.as_str());
                    push_str(&mut out, "') AS ");
                    match alias {
                        Some(a) => push_str(&mut out, a.as_str()),
                        None => push_str(&mut out, name.as_str()),
                    }
                    Ok(out)
                },
                None => match alias {
                    Some(a) => Ok(glue3(name.as_str(), " AS ", a.as_str())),
                    None => Ok(name.clone()),
                },
            }
        },
        _ => Err(QueryError::Invalid("unsupported table reference".to_string())),
    }
}

/// Translates a join constraint.
fn format_join_constraint(c: &SqlJoinConstraint, params: &mut Vec<Param>) -> (r: Result<String, QueryError>)
    ensures
        produced(r, tr_constraint(*c, old(params)@.len()), old(params)@, final(params)@),
{
    proof {
        assert(params_view(params@) =~= params_view(params@) + seq![]);
    }
    match c {
        SqlJoinConstraint::On(e) => {
            let t = translate_expr(e, params)?;
            let out = glue(" ON ", t.as_str());
            assert(out@ =~= " ON "@ + t@ + seq![]);
            Ok(out)
        },
        SqlJoinConstraint::Using(cols) => {
            let mut names: Vec<String> = Vec::new();
            let mut i: usize = 0;
            while i < cols.len()
                invariant
                    i <= cols@.len(),
                    names@.len() == i,
                    forall|j: int| 0 <= j < i ==> #[trigger] names@[j]@ == using_name(cols@[j]),
                decreases cols@.len() - i,
            {
                match &cols[i] {
                    Some(s) => names.push(s.clone()),
                    None => names.push(String::new()),
                }
                i = i + 1;
            }
            assert(views(names@) =~= cols@.map_values(|o: Option<String>| using_name(o)));
            let joined = join_strings(&names, ", ");
            Ok(glue3(" USING (", joined.as_str(), ")"))
        },
        SqlJoinConstraint::Other => Err(QueryError::Invalid("unsupported JOIN constraint".to_string())),
    }
}

/// Translates a join.
fn translate_join(j: &SqlJoin, types: &[TypeDef], params: &mut Vec<Param>) -> (r: Result<String, QueryError>)
    ensures
        produced(r, tr_join(*j, types@, old(params)@.len()), old(params)@, final(params)@),
{
    proof {
        assert(params_view(params@) =~= params_view(params@) + seq![]);
    }
    let jt = translate_table_factor(&j.relation, types)?;
    let (head, c) = match &j.kind {
        SqlJoinKind::Inner(c) => (glue("JOIN ", jt.as_str()), c),
        SqlJoinKind::Left(c) => (glue("LEFT JOIN ", jt.as_str()), c),
        SqlJoinKind::LeftOuter(c) => (glue("LEFT JOIN ", jt.as_str()), c),
        SqlJoinKind::Other => return Err(QueryError::Forbidden("only INNER and LEFT joins are supported".to_string())),
    };
    let t = format_join_constraint(c, params)?;
    let mut out = head;
    push_str(&mut out, t.as_str());
    assert(out@ =~= head@ + t@ + seq![]);
    Ok(out)
}

/// Translates the joins from position `i` on.
fn translate_joins_from(joins: &Vec<SqlJoin>, i: usize, types: &[TypeDef], params: &mut Vec<Param>) -> (r: Result<Vec<String>, QueryError>)
    ensures
        produced_all(r, tr_joins(joins@, i as int, types@, old(params)@.len()), old(params)@, final(params)@),
    decreases joins@.len() - i,
{
    let ghost before = params@;
    if i >= joins.len() {
        let v: Vec<String> = Vec::new();
        assert(params_view(params@) =~= params_view(params@) + seq![]);
        assert(views(v@) =~= seq![]);
        return Ok(v);
    }
    let h = match translate_join(&joins[i], types, params) {
        Err(e) => return Err(e),
        Ok(h) => h,
    };
    let ghost p1 = params@;
    let t = translate_joins_from(joins, i + 1, types, params);
    proof {
        lemma_bound_in_sequence(params_view(before), tr_join(joins@[i as int], types@, before.len()).1, tr_joins(joins@, i + 1, types@, p1.len()).1);
    }
    let mut t = match t {
        Err(e) => return Err(e),
        Ok(t) => t,
    };
    let ghost old_t = t@;
    let ghost hv = h@;
    t.insert(0, h);
    assert(t@ =~= seq![t@[0]] + old_t);
    assert(views(t@) =~= seq![hv] + views(old_t));
    Ok(t)
}

/// Translates a table with its joins.
fn translate_table(t: &SqlTableWithJoins, types: &[TypeDef], params: &mut Vec<Param>) -> (r: Result<String, QueryError>)
    ensures
        produced(r, tr_table(*t, types@, old(params)@.len()), old(params)@, final(params)@),
{
    proof {
        assert(params_view(params@) =~= params_view(params@) + seq![]);
    }
    let tt = translate_table_factor(&t.relation, types)?;
    let js = translate_joins_from(&t.joins, 0, types, params)?;
    if js.len() > 0 {
        let joined = join_strings(&js, " ");
        Ok(glue3(tt.as_str(), " ", joined.as_str()))
    } else {
        Ok(tt)
    }
}

/// Translates the tables from position `i` on.
fn translate_tables_from(from: &Vec<SqlTableWithJoins>, i: usize, types: &[TypeDef], params: &mut Vec<Param>) -> (r: Result<Vec<String>, QueryError>)
    ensures
        produced_all(r, tr_tables(from@, i as int, types@, old(params)@.len()), old(params)@, final(params)@),
    decreases from@.len() - i,
{
    let ghost before = params@;
    if i >= from.len() {
        let v: Vec<String> = Vec::new();
        assert(params_view(params@) =~= params_view(params@) + seq![]);
        assert(views(v@) =~= seq![]);
        return Ok(v);
    }
    let h = match translate_table(&from[i], types, params) {
        Err(e) => return Err(e),
        Ok(h) => h,
    };
    let ghost p1 = params@;
    let t = translate_tables_from(from, i + 1, types, params);
    proof {
        lemma_bound_in_sequence(params_view(before), tr_table(from@[i as int], types@, before.len()).1, tr_tables(from@, i + 1, types@, p1.len()).1);
    }
    let mut t = match t {
        Err(e) => return Err(e),
        Ok(t) => t,
    };
    let ghost old_t = t@;
    let ghost hv = h@;
    t.insert(0, h);
    assert(t@ =~= seq![t@[0]] + old_t);
    assert(views(t@) =~= seq![hv] + views(old_t));
    Ok(t)
}

/// Translates a select item.
fn translate_item(item: &SqlSelectItem, params: &mut Vec<Param>) -> (r: Result<String, QueryError>)
    ensures
        produced(r, tr_item(*item, old(params)@.len()), old(params)@, final(params)@),
{
    proof {
        assert(params_view(params@) =~= params_view(params@) + seq![]);
    }
    match item {
        SqlSelectItem::Wildcard => Ok("*".to_string()),
        SqlSelectItem::QualifiedWildcard(name) => Ok(glue(name.as_str(), ".*")),
        SqlSelectItem::Unnamed(e) => translate_expr(e, params),
        SqlSelectItem::WithAlias { expr, alias } => {
            let t = translate_expr(expr, params)?;
            let out = glue3(t.as_str(), " AS ", alias.as_str());
            assert(out@ =~= seq![] + t@ + (" AS "@ + alias@));
            Ok(out)
        },
        SqlSelectItem::WithAliases { expr, aliases } => {
            let t = translate_expr(expr, params)?;
            let joined = join_strings(aliases, ", ");
            let out = glue3(t.as_str(), " AS ", joined.as_str());
            assert(out@ =~= seq![] + t@ + (" AS "@ + joined@));
            Ok(out)
        },
    }
}

/// Translates the select items from position `i` on.
fn translate_items_from(items: &Vec<SqlSelectItem>, i: usize, params: &mut Vec<Param>) -> (r: Result<Vec<String>, QueryError>)
    ensures
        produced_all(r, tr_items(items@, i as int, old(params)@.len()), old(params)@, final(params)@),
    decreases items@.len() - i,
{
    let ghost before = params@;
    if i >= items.len() {
        let v: Vec<String> = Vec::new();
        assert(params_view(params@) =~= params_view(params@) + seq![]);
        assert(views(v@) =~= seq![]);
        return Ok(v);
    }
    let h = match translate_item(&items[i], params) {
        Err(e) => return Err(e),
        Ok(h) => h,
    };
    let ghost p1 = params@;
    let t = translate_items_from(items, i + 1, params);
    proof {
        lemma_bound_in_sequence(params_view(before), tr_item(items@[i as int], before.len()).1, tr_items(items@, i + 1, p1.len()).1);
    }
    let mut t = match t {
        Err(e) => return Err(e),
        Ok(t) => t,
    };
    let ghost old_t = t@;
    let ghost hv = h@;
    t.insert(0, h);
    assert(t@ =~= seq![t@[0]] + old_t);
    assert(views(t@) =~= seq![hv] + views(old_t));
    Ok(t)
}

/// Translates an ordering expression.
fn translate_order(o: &SqlOrderItem, params: &mut Vec<Param>) -> (r: Result<String, QueryError>)
    ensures
        produced(r, tr_order(*o, old(params)@.len()), old(params)@, final(params)@),
{
    let t = translate_expr(&o.expr, params)?;
    let out = if o.descending { glue(t.as_str(), " DESC") } else { glue(t.as_str(), " ASC") };
    assert(out@ =~= seq![] + t@ + (if o.descending { " DESC"@ } else { " ASC"@ }));
    Ok(out)
}

/// Translates the ordering expressions from position `i` on.
fn translate_orders_from(items: &Vec<SqlOrderItem>, i: usize, params: &mut Vec<Param>) -> (r: Result<Vec<String>, QueryError>)
    ensures
        produced_all(r, tr_orders(items@, i as int, old(params)@.len()), old(params)@, final(params)@),
    decreases items@.len() - i,
{
    let ghost before = params@;
    if i >= items.len() {
        let v: Vec<String> = Vec::new();
        assert(params_view(params@) =~= params_view(params@) + seq![]);
        assert(views(v@) =~= seq![]);
        return Ok(v);
    }
    let h = match translate_order(&items[i], params) {
        Err(e) => return Err(e),
        Ok(h) => h,
    };
    let ghost p1 = params@;
    let t = translate_orders_from(items, i + 1, params);
    proof {
        lemma_bound_in_sequence(params_view(before), tr_order(items@[i as int], before.len()).1, tr_orders(items@, i + 1, p1.len()).1);
    }
    let mut t = match t {
        Err(e) => return Err(e),
        Ok(t) => t,
    };
    let ghost old_t = t@;
    let ghost hv = h@;
    t.insert(0, h);
    assert(t@ =~= seq![t@[0]] + old_t);
    assert(views(t@) =~= seq![hv] + views(old_t));
    Ok(t)
}

/// Appends the text of a translation that followed `a`.
proof fn lemma_then_params(a: Translation, mid: Seq<char>, b: Translation, before: Seq<ParamView>)
    requires
        a.0 is Ok,
    ensures
        before + a.1 + b.1 == before + then(a, mid, b).1,
{
    lemma_bound_in_sequence(before, a.1, b.1);
}

/// Translates the select block.
fn translate_select(select: &SqlSelect, types: &[TypeDef], params: &mut Vec<Param>) -> (r: Result<String, QueryError>)
    ensures
        produced(r, tr_select(*select, types@, old(params)@.len()), old(params)@, final(params)@),
{
    let ghost before = params@;
    let ghost n = before.len();
    let ghost pv0 = params_view(before);
    let projection = translate_items_from(&select.projection, 0, params)?;
    let ghost head = joined("SELECT "@, tr_items(select.projection@, 0, n), ", "@);
    let ghost p1 = params@;
    let from = translate_tables_from(&select.from, 0, types, params);
    let ghost fr = joined(seq![], tr_tables(select.from@, 0, types@, n + head.1.len()), ", "@);
    proof {
        lemma_then_params(head, " FROM "@, fr, pv0);
    }
    let from = from?;
    let mut sql = String::new();
    push_str(&mut sql, "SELECT ");
    let pj = join_strings(&projection, ", ");
    push_str(&mut sql, pj.as_str());
    push_str(&mut sql, " FROM ");
    let fj = join_strings(&from, ", ");
    push_str(&mut sql, fj.as_str());
    let ghost a = then(head, " FROM "@, fr);
    assert(sql@ =~= a.0->Ok_0);
    let ghost w = if select.selection is Some {
        wrap(" WHERE "@, tr_expr(select.selection->0, n + a.1.len()), seq![])
    } else {
        nothing()
    };
    if let Some(e) = &select.selection {
        let t = translate_expr(e, params);
        proof {
            lemma_then_params(a, seq![], w, pv0);
        }
        let t = t?;
        push_str(&mut sql, " WHERE ");
        push_str(&mut sql, t.as_str());
    } else {
        assert(params_view(params@) =~= pv0 + then(a, seq![], w).1);
    }
    let ghost b = then(a, seq![], w);
    assert(sql@ =~= b.0->Ok_0);
    let ghost g = if select.group_by@.len() > 0 {
        joined(" GROUP BY "@, tr_exprs(select.group_by@, 0, n + b.1.len()), ", "@)
    } else {
        nothing()
    };
    if select.group_by.len() > 0 {
        let gb = translate_exprs_from(&select.group_by, 0, params);
        proof {
            lemma_then_params(b, seq![], g, pv0);
        }
        let gb = gb?;
        push_str(&mut sql, " GROUP BY ");
        let gj = join_strings(&gb, ", ");
        push_str(&mut sql, gj.as_str());
    } else {
        assert(params_view(params@) =~= pv0 + then(b, seq![], g).1);
    }
    let ghost c = then(b, seq![], g);
    assert(sql@ =~= c.0->Ok_0);
    let ghost h = if select.having is Some {
        wrap(" HAVING "@, tr_expr(select.having->0, n + c.1.len()), seq![])
    } else {
        nothing()
    };
    if let Some(e) = &select.having {
        let t = translate_expr(e, params);
        proof {
            lemma_then_params(c, seq![], h, pv0);
        }
        let t = t?;
        push_str(&mut sql, " HAVING ");
        push_str(&mut sql, t.as_str());
    } else {
        assert(params_view(params@) =~= pv0 + then(c, seq![], h).1);
    }
    assert(sql@ =~= then(c, seq![], h).0->Ok_0);
    Ok(sql)
}

/// Writes a `LIMIT` or `OFFSET` argument inline.
fn emit_numeric_expr(a: &SqlNumberArg) -> (r: Result<String, QueryError>)
    ensures
        match tr_number_arg(*a) {
            Ok(t) => r matches Ok(x) && x@ == t,
            Err(e) => r matches Err(x) && x@ == e,
        },
{
    match &a.expr {
        SqlExpr::Value(lit) => match &lit.value {
            SqlValue::Number(t) => Ok(t.clone()),
            _ => Err(QueryError::Invalid(glue("LIMIT/OFFSET must be a number, got: ", lit.text.as_str()))),
        },
        _ => Err(QueryError::Invalid(glue("LIMIT/OFFSET must be a literal number, got: ", a.text.as_str()))),
    }
}

/// Writes the `LIMIT` and `OFFSET` clauses.
fn translate_limit(l: &Option<SqlLimit>) -> (r: Result<String, QueryError>)
    ensures
        match tr_limit(*l) {
            Ok(t) => r matches Ok(x) && x@ == t,
            Err(e) => r matches Err(x) && x@ == e,
        },
{
    let mut out = String::new();
    if let Some(SqlLimit::LimitOffset { limit, offset }) = l {
        if let Some(x) = limit {
            let t = emit_numeric_expr(x)?;
            push_str(&mut out, " LIMIT ");
            push_str(&mut out, t.as_str());
        }
        if let Some(y) = offset {
            let t = emit_numeric_expr(y)?;
            push_str(&mut out, " OFFSET ");
            push_str(&mut out, t.as_str());
        }
    }
    proof {
        if l is None || l->0 is OffsetCommaLimit {
            assert(out@ =~= seq![]);
        }
    }
    Ok(out)
}

/// Translates a query whose body is a select block.
fn translate_query(query: &SqlQuery, types: &[TypeDef], params: &mut Vec<Param>) -> (r: Result<String, QueryError>)
    requires
        query.body is Some,
    ensures
        produced(r, tr_query(*query, types@, old(params)@.len()), old(params)@, final(params)@),
{
    let ghost before = params@;
    let ghost n = before.len();
    let ghost pv0 = params_view(before);
    let select = match &query.body {
        Some(s) => s,
        None => {
            proof { assert(false); }
            return Err(QueryError::Invalid(String::new()));
        },
    };
    let mut sql = translate_select(select, types, params)?;
    let ghost s = tr_select(*select, types@, n);
    let ghost o = if query.order_by is Some {
        joined(" ORDER BY "@, tr_orders(query.order_by->0@, 0, n + s.1.len()), ", "@)
    } else {
        nothing()
    };
    if let Some(items) = &query.order_by {
        let t = translate_orders_from(items, 0, params);
        proof {
            lemma_then_params(s, seq![], o, pv0);
        }
        let t = t?;
        push_str(&mut sql, " ORDER BY ");
        let j = join_strings(&t, ", ");
        push_str(&mut sql, j.as_str());
    } else {
        assert(params_view(params@) =~= pv0 + then(s, seq![], o).1);
    }
    let ghost so = then(s, seq![], o);
    assert(sql@ =~= so.0->Ok_0);
    let lim = translate_limit(&query.limit);
    proof {
        lemma_then_params(so, seq![], (tr_limit(query.limit), seq![]), pv0);
        assert(params_view(params@) =~= pv0 + so.1 + seq![]);
    }
    let lim = lim?;
    push_str(&mut sql, lim.as_str());
    Ok(sql)
}

/// Translates a validated query into the SQL that runs, binding its literals after the
/// parameters already supplied; `types` are the content types, which read as views over
/// the documents of each type.
pub fn translate(validated: ValidatedQuery, params: Vec<Param>, types: &[TypeDef]) -> (r: Result<Translated, QueryError>)
    requires
        validated.query.body is Some,
    ensures
        ({
            let t = tr_query(validated.query, types@, params@.len());
            match t.0 {
                Ok(sql) => r matches Ok(x) && x.sql@ == sql && params_view(x.params@) == params_view(params@) + t.1,
                Err(e) => r matches Err(x) && x@ == e,
            }
        }),
{
    let mut params = params;
    let query = validated.query;
    let sql = translate_query(&query, types, &mut params)?;
    Ok(Translated { sql, params })
}

} // verus!
