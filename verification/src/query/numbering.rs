//! Where the parameters a translation binds stand in the SQL text: each newly bound
//! parameter `$k` appears in the translated expression exactly once.

use vstd::prelude::*;
use crate::query::sql::{SqlExpr, SqlFunctionArg, SqlFunctionArgs, SqlValue};
use crate::query::translator::{negation, placeholder, quoted_ident, tr_arg, tr_args, tr_expr, tr_exprs, tr_literal};
use crate::text::{decimal, digit_char, digit_value, digits_value, is_digit, join, lowercase};

verus! {

// ---------------------------------------------------------------------------
// Placeholders in a text
// ---------------------------------------------------------------------------

/// Whether `s` holds no `$`.
pub open spec fn dollar_free(s: Seq<char>) -> bool {
    forall|j: int| 0 <= j < s.len() ==> #[trigger] s[j] != '$'
}

/// Whether the placeholder `$k` stands in `s` at position `i`: a `$`, the decimal digits
/// of `k`, and no further digit after them.
pub open spec fn placeholder_at(s: Seq<char>, i: int, k: nat) -> bool {
    let d = decimal(k);
    &&& 0 <= i
    &&& i + 1 + d.len() <= s.len()
    &&& s[i] == '$'
    &&& s.subrange(i + 1, i + 1 + d.len()) == d
    &&& (i + 1 + d.len() == s.len() || !is_digit(s[i + 1 + d.len()]))
}

/// The number of positions from `i` on where `$k` stands in `s`.
pub open spec fn count_from(s: Seq<char>, k: nat, i: int) -> nat
    decreases s.len() - i,
{
    if i < 0 || i >= s.len() {
        0
    } else {
        (if placeholder_at(s, i, k) { 1nat } else { 0nat }) + count_from(s, k, i + 1)
    }
}

/// The number of times the placeholder `$k` stands in `s`.
pub open spec fn placeholder_count(s: Seq<char>, k: nat) -> nat {
    count_from(s, k, 0)
}

/// Whether `a + b` joins no placeholder across the seam: `b` does not start with a digit,
/// or `a` ends with a character that is neither a digit nor `$`.
pub open spec fn seam_ok(a: Seq<char>, b: Seq<char>) -> bool {
    ||| a.len() == 0
    ||| b.len() == 0
    ||| !is_digit(b[0])
    ||| (!is_digit(a.last()) && a.last() != '$')
}

/// A separator: not empty, without `$`, not starting or ending with a digit.
pub open spec fn good_sep(s: Seq<char>) -> bool {
    &&& s.len() > 0
    &&& dollar_free(s)
    &&& !is_digit(s[0])
    &&& !is_digit(s.last())
}

/// The decimal digits of a number are digits, and there is at least one.
proof fn lemma_decimal_digits(n: nat)
    ensures
        decimal(n).len() >= 1,
        forall|j: int| 0 <= j < decimal(n).len() ==> is_digit(#[trigger] decimal(n)[j]),
        digits_value(decimal(n)) == n,
    decreases n,
{
    let c = digit_char(n % 10);
    assert((c as int) == n % 10 + 48);
    assert(is_digit(c));
    assert(digit_value(c) == n % 10);
    if n >= 10 {
        lemma_decimal_digits(n / 10);
        let d = decimal(n);
        assert(d.drop_last() =~= decimal(n / 10));
        assert(d.last() == c);
        assert(n == (n / 10) * 10 + n % 10);
        assert(digits_value(d) == digits_value(d.drop_last()) * 10 + digit_value(d.last()));
        assert(digits_value(decimal(n / 10)) == n / 10);
        assert forall|j: int| 0 <= j < d.len() implies is_digit(#[trigger] d[j]) by {
            if j < d.len() - 1 {
                assert(d[j] == decimal(n / 10)[j]);
            }
        }
    } else {
        assert(n % 10 == n);
        let d = decimal(n);
        assert(d.drop_last() =~= Seq::<char>::empty());
        assert(digits_value(d) == digits_value(d.drop_last()) * 10 + digit_value(d.last()));
        assert(digits_value(Seq::<char>::empty()) == 0);
    }
}

/// From position `i` on, a text without `$` holds no placeholder.
proof fn lemma_no_dollar_from(s: Seq<char>, k: nat, i: int)
    requires
        0 <= i,
        forall|j: int| i <= j < s.len() ==> #[trigger] s[j] != '$',
    ensures
        count_from(s, k, i) == 0,
    decreases s.len() - i,
{
    if i < s.len() {
        lemma_no_dollar_from(s, k, i + 1);
    }
}

/// A text without `$` holds no placeholder.
proof fn lemma_dollar_free(s: Seq<char>, k: nat)
    requires
        dollar_free(s),
    ensures
        placeholder_count(s, k) == 0,
{
    lemma_no_dollar_from(s, k, 0);
}

/// Past the end of `a`, `a + b` holds the placeholders `b` holds.
proof fn lemma_count_shift(a: Seq<char>, b: Seq<char>, k: nat, j: int)
    requires
        0 <= j,
    ensures
        count_from(a + b, k, a.len() + j) == count_from(b, k, j),
    decreases b.len() - j,
{
    let s = a + b;
    if j < b.len() {
        lemma_count_shift(a, b, k, j + 1);
        let d = decimal(k);
        let i = a.len() + j;
        if i + 1 + d.len() <= s.len() {
            assert(s.subrange(i + 1, i + 1 + d.len()) =~= b.subrange(j + 1, j + 1 + d.len()));
        }
        assert(placeholder_at(s, i, k) == placeholder_at(b, j, k));
    }
}

/// Within `a`, where the seam joins nothing, `a + b` holds the placeholders `a` holds.
proof fn lemma_placeholder_prefix(a: Seq<char>, b: Seq<char>, k: nat, i: int)
    requires
        seam_ok(a, b),
        0 <= i < a.len(),
    ensures
        placeholder_at(a + b, i, k) == placeholder_at(a, i, k),
{
    let s = a + b;
    let d = decimal(k);
    lemma_decimal_digits(k);
    let e = i + 1 + d.len();
    if e < a.len() {
        assert(s.subrange(i + 1, e) =~= a.subrange(i + 1, e));
    } else if e == a.len() {
        assert(s.subrange(i + 1, e) =~= a.subrange(i + 1, e));
        if placeholder_at(a, i, k) {
            assert(a[e - 1] == d[d.len() - 1]);
        }
        if placeholder_at(s, i, k) {
            assert(s.subrange(i + 1, e)[d.len() - 1] == d[d.len() - 1]);
            assert(a[e - 1] == d[d.len() - 1]);
        }
    } else {
        if placeholder_at(s, i, k) {
            let p = a.len() - (i + 1);
            assert(s.subrange(i + 1, e)[p] == d[p]);
            assert(b[0] == s[a.len() as int]);
            if a.len() - 1 > i {
                assert(s.subrange(i + 1, e)[p - 1] == d[p - 1]);
                assert(a.last() == s[a.len() - 1]);
            }
        }
    }
}

/// Where the seam joins nothing, the placeholders of `a + b` are those of `a` and of `b`.
proof fn lemma_count_concat(a: Seq<char>, b: Seq<char>, k: nat)
    requires
        seam_ok(a, b),
    ensures
        placeholder_count(a + b, k) == placeholder_count(a, k) + placeholder_count(b, k),
{
    lemma_count_concat_from(a, b, k, 0);
}

proof fn lemma_count_concat_from(a: Seq<char>, b: Seq<char>, k: nat, i: int)
    requires
        seam_ok(a, b),
        0 <= i <= a.len(),
    ensures
        count_from(a + b, k, i) == count_from(a, k, i) + count_from(b, k, 0),
    decreases a.len() - i,
{
    if i == a.len() {
        lemma_count_shift(a, b, k, 0);
    } else {
        lemma_count_concat_from(a, b, k, i + 1);
        lemma_placeholder_prefix(a, b, k, i);
    }
}

/// A separator between two texts adds no placeholder and joins none across its seams.
proof fn lemma_sep(a: Seq<char>, sep: Seq<char>, b: Seq<char>, k: nat)
    requires
        good_sep(sep),
        sep.last() != '$',
    ensures
        placeholder_count(a + sep + b, k) == placeholder_count(a, k) + placeholder_count(b, k),
{
    lemma_count_concat(a, sep, k);
    lemma_count_concat(a + sep, b, k);
    lemma_dollar_free(sep, k);
}

/// Text without `$` around a text adds no placeholder and joins none across its seams.
proof fn lemma_wrap(pre: Seq<char>, x: Seq<char>, post: Seq<char>, k: nat)
    requires
        dollar_free(pre),
        pre.len() == 0 || !is_digit(pre.last()),
        dollar_free(post),
        post.len() == 0 || !is_digit(post[0]),
    ensures
        placeholder_count(pre + x + post, k) == placeholder_count(x, k),
{
    lemma_count_concat(pre, x, k);
    lemma_count_concat(pre + x, post, k);
    lemma_dollar_free(pre, k);
    lemma_dollar_free(post, k);
}

/// The placeholder of the next parameter when `n` are bound, `$n+1`, holds `$k` only
/// for `k == n + 1`, once.
proof fn lemma_placeholder_text(n: nat, k: nat)
    ensures
        placeholder_count(placeholder(n), k) == (if k == n + 1 { 1nat } else { 0nat }),
{
    let s = placeholder(n);
    let dn = decimal(n + 1);
    let d = decimal(k);
    lemma_decimal_digits(n + 1);
    lemma_decimal_digits(k);
    assert forall|j: int| 1 <= j < s.len() implies #[trigger] s[j] != '$' by {
        assert(s[j] == dn[j - 1]);
    }
    lemma_no_dollar_from(s, k, 1);
    assert(s.subrange(1, s.len() as int) =~= dn);
    if k == n + 1 {
        assert(placeholder_at(s, 0, k));
    } else if placeholder_at(s, 0, k) {
        if d.len() == dn.len() {
            assert(d =~= dn);
        } else {
            assert(d.len() < dn.len());
            assert(s[1 + d.len() as int] == dn[d.len() as int]);
        }
    }
}

// ---------------------------------------------------------------------------
// The texts a translation writes around its parts
// ---------------------------------------------------------------------------

/// Two texts without `$` make one.
proof fn lemma_df_concat(a: Seq<char>, b: Seq<char>)
    requires
        dollar_free(a),
        dollar_free(b),
    ensures
        dollar_free(a + b),
{
    assert forall|j: int| 0 <= j < (a + b).len() implies #[trigger] (a + b)[j] != '$' by {
        if j < a.len() {
            assert((a + b)[j] == a[j]);
        } else {
            assert((a + b)[j] == b[j - a.len()]);
        }
    }
}

/// The fixed texts a translation writes hold no `$`, and none starts or ends with a digit.
proof fn lemma_fixed_texts()
    ensures
        good_sep(" "@),
        good_sep("LIKE "@),
        good_sep("ILIKE "@),
        good_sep("BETWEEN "@),
        good_sep(" AND "@),
        good_sep("IN ("@),
        good_sep(", "@),
        good_sep(")"@),
        good_sep("("@),
        good_sep("CAST("@),
        good_sep(" AS "@),
        good_sep(" IS NULL"@),
        good_sep(" IS NOT NULL"@),
        good_sep(" => "@),
        good_sep("*"@),
        good_sep("NOT "@),
        dollar_free(negation(true)),
        dollar_free(negation(false)),
{
    reveal_strlit(" ");
    reveal_strlit("LIKE ");
    reveal_strlit("ILIKE ");
    reveal_strlit("BETWEEN ");
    reveal_strlit(" AND ");
    reveal_strlit("IN (");
    reveal_strlit(", ");
    reveal_strlit(")");
    reveal_strlit("(");
    reveal_strlit("CAST(");
    reveal_strlit(" AS ");
    reveal_strlit(" IS NULL");
    reveal_strlit(" IS NOT NULL");
    reveal_strlit(" => ");
    reveal_strlit("*");
    reveal_strlit("NOT ");
    reveal_strlit("");
}

/// `a + b + c` holds no `$` when none of them does.
proof fn lemma_df3(a: Seq<char>, b: Seq<char>, c: Seq<char>)
    requires
        dollar_free(a),
        dollar_free(b),
        dollar_free(c),
    ensures
        dollar_free(a + b + c),
{
    lemma_df_concat(a, b);
    lemma_df_concat(a + b, c);
}

/// A separator made of a fixed text, a text without `$`, and a fixed text.
proof fn lemma_sep3(a: Seq<char>, x: Seq<char>, c: Seq<char>)
    requires
        good_sep(a),
        dollar_free(x),
        good_sep(c),
    ensures
        good_sep(a + x + c),
        (a + x + c).last() == c.last(),
{
    lemma_df3(a, x, c);
    assert((a + x + c)[0] == a[0]);
}

// ---------------------------------------------------------------------------
// Each newly bound parameter stands once in the SQL
// ---------------------------------------------------------------------------

/// Whether an expression writes no `$` of its own beyond `$m`: the names, operators and
/// types it writes hold no `$`, and every `$N` placeholder written in it has `N <= m`.
pub open spec fn clean(e: SqlExpr, m: nat) -> bool
    decreases e, 0int,
{
    match e {
        SqlExpr::CompoundIdentifier(_) => tr_expr(e, 0).0 matches Ok(t) ==> dollar_free(t),
        SqlExpr::Identifier(id) => dollar_free(quoted_ident(id@)),
        SqlExpr::Value(lit) => lit.value matches SqlValue::Placeholder(p) ==> forall|k: nat|
            m < k ==> #[trigger] placeholder_count(p@, k) == 0,
        SqlExpr::BinaryOp { left, op, right } => dollar_free(op@) && clean(*left, m) && clean(*right, m),
        SqlExpr::UnaryOp { op, expr } => dollar_free(op@) && clean(*expr, m),
        SqlExpr::IsNull(x) => clean(*x, m),
        SqlExpr::IsNotNull(x) => clean(*x, m),
        SqlExpr::Like { expr, pattern, .. } => clean(*expr, m) && clean(*pattern, m),
        SqlExpr::ILike { expr, pattern, .. } => clean(*expr, m) && clean(*pattern, m),
        SqlExpr::Between { expr, low, high, .. } => clean(*expr, m) && clean(*low, m) && clean(*high, m),
        SqlExpr::InList { expr, list, .. } => clean(*expr, m) && forall|j: int|
            0 <= j < list@.len() ==> clean(#[trigger] list@[j], m),
        SqlExpr::Nested(x) => clean(*x, m),
        SqlExpr::Cast { expr, data_type } => clean(*expr, m) && dollar_free(data_type@),
        SqlExpr::Function(f) => dollar_free(lowercase(f.name@)) && match f.args {
            SqlFunctionArgs::List(args) => forall|j: int| 0 <= j < args@.len() ==> clean_arg(#[trigger] args@[j], m),
            _ => true,
        },
        _ => true,
    }
}

/// As [`clean`], for a function argument.
pub open spec fn clean_arg(a: SqlFunctionArg, m: nat) -> bool
    decreases a, 0int,
{
    match a {
        SqlFunctionArg::Expr(e) => clean(e, m),
        SqlFunctionArg::Named { name, expr } => dollar_free(name@) && clean(expr, m),
        _ => true,
    }
}

/// Whether `k` is one of the `len` parameters bound after the first `n`.
pub open spec fn newly_bound(k: nat, n: nat, len: nat) -> nat {
    if n < k <= n + len { 1 } else { 0 }
}

/// The placeholders `$k` in each text of a list, added up.
pub open spec fn count_all(ts: Seq<Seq<char>>, k: nat) -> nat
    decreases ts.len(),
{
    if ts.len() == 0 {
        0
    } else {
        placeholder_count(ts[0], k) + count_all(ts.drop_first(), k)
    }
}

/// Adding up from the back gives the same.
proof fn lemma_count_all_last(ts: Seq<Seq<char>>, k: nat)
    requires
        ts.len() > 0,
    ensures
        count_all(ts, k) == count_all(ts.drop_last(), k) + placeholder_count(ts.last(), k),
    decreases ts.len(),
{
    if ts.len() > 1 {
        let df = ts.drop_first();
        let dl = ts.drop_last();
        lemma_count_all_last(df, k);
        assert(df.drop_last() =~= dl.drop_first());
        assert(df.last() == ts.last());
        assert(dl[0] == ts[0]);
        assert(count_all(dl, k) == placeholder_count(dl[0], k) + count_all(dl.drop_first(), k));
    } else {
        assert(count_all(ts.drop_first(), k) == 0);
        assert(count_all(ts.drop_last(), k) == 0);
        assert(ts.last() == ts[0]);
    }
}

/// Texts joined by a separator hold the placeholders the texts hold.
proof fn lemma_join_count(ts: Seq<Seq<char>>, sep: Seq<char>, k: nat)
    requires
        good_sep(sep),
    ensures
        placeholder_count(join(ts, sep), k) == count_all(ts, k),
    decreases ts.len(),
{
    assert(sep[sep.len() - 1] != '$');
    if ts.len() == 0 {
        lemma_dollar_free(Seq::<char>::empty(), k);
    } else if ts.len() == 1 {
        assert(count_all(ts.drop_first(), k) == 0);
        assert(join(ts, sep) == ts[0]);
    } else {
        lemma_join_count(ts.drop_last(), sep, k);
        lemma_sep(join(ts.drop_last(), sep), sep, ts.last(), k);
        lemma_count_all_last(ts, k);
        assert(join(ts, sep) == join(ts.drop_last(), sep) + sep + ts.last());
    }
}

/// Law: each newly bound parameter stands in the SQL exactly once. When an expression
/// writes no `$` of its own beyond `$m` ([`clean`]) and `n >= m` parameters are bound
/// before it, its translation holds each placeholder `$k` of the parameters it binds,
/// `$n+1` to `$n+len`, exactly once, and no other `$k` beyond `$m`.
#[verifier::rlimit(100)]
#[verifier::spinoff_prover]
pub proof fn law_new_placeholders_once(e: SqlExpr, m: nat, n: nat, k: nat)
    requires
        m <= n,
        m < k,
        clean(e, m),
    ensures
        tr_expr(e, n).0 matches Ok(s) ==> placeholder_count(s, k) == newly_bound(k, n, tr_expr(e, n).1.len()),
    decreases e, 0int,
{
    lemma_fixed_texts();
    match e {
        SqlExpr::CompoundIdentifier(_) => {
            if tr_expr(e, n).0 is Ok {
                lemma_dollar_free(tr_expr(e, n).0->Ok_0, k);
            }
        },
        SqlExpr::Identifier(id) => lemma_dollar_free(quoted_ident(id@), k),
        SqlExpr::Value(lit) => {
            if lit.value is Placeholder {
                let p = lit.value->Placeholder_0;
                assert(placeholder_count(p@, k) == 0);
            } else if tr_literal(lit, n).0 is Ok {
                lemma_placeholder_text(n, k);
            }
        },
        SqlExpr::BinaryOp { left, op, right } => {
            let l = tr_expr(*left, n);
            law_new_placeholders_once(*left, m, n, k);
            law_new_placeholders_once(*right, m, n + l.1.len(), k);
            if l.0 is Ok && tr_expr(*right, n + l.1.len()).0 is Ok {
                lemma_sep3(" "@, op@, " "@);
                lemma_sep(l.0->Ok_0, " "@ + op@ + " "@, tr_expr(*right, n + l.1.len()).0->Ok_0, k);
            }
        },
        SqlExpr::UnaryOp { op, expr } => {
            law_new_placeholders_once(*expr, m, n, k);
            if tr_expr(*expr, n).0 is Ok {
                lemma_df_concat(op@, " "@);
                lemma_wrap(op@ + " "@, tr_expr(*expr, n).0->Ok_0, seq![], k);
            }
        },
        SqlExpr::IsNull(x) => {
            law_new_placeholders_once(*x, m, n, k);
            if tr_expr(*x, n).0 is Ok {
                lemma_wrap(seq![], tr_expr(*x, n).0->Ok_0, " IS NULL"@, k);
            }
        },
        SqlExpr::IsNotNull(x) => {
            law_new_placeholders_once(*x, m, n, k);
            if tr_expr(*x, n).0 is Ok {
                lemma_wrap(seq![], tr_expr(*x, n).0->Ok_0, " IS NOT NULL"@, k);
            }
        },
        SqlExpr::Like { negated, expr, pattern } => {
            let l = tr_expr(*expr, n);
            law_new_placeholders_once(*expr, m, n, k);
            law_new_placeholders_once(*pattern, m, n + l.1.len(), k);
            if l.0 is Ok && tr_expr(*pattern, n + l.1.len()).0 is Ok {
                lemma_sep3(" "@, negation(negated), "LIKE "@);
                lemma_sep(l.0->Ok_0, " "@ + negation(negated) + "LIKE "@, tr_expr(*pattern, n + l.1.len()).0->Ok_0, k);
            }
        },
        SqlExpr::ILike { negated, expr, pattern } => {
            let l = tr_expr(*expr, n);
            law_new_placeholders_once(*expr, m, n, k);
            law_new_placeholders_once(*pattern, m, n + l.1.len(), k);
            if l.0 is Ok && tr_expr(*pattern, n + l.1.len()).0 is Ok {
                lemma_sep3(" "@, negation(negated), "ILIKE "@);
                lemma_sep(l.0->Ok_0, " "@ + negation(negated) + "ILIKE "@, tr_expr(*pattern, n + l.1.len()).0->Ok_0, k);
            }
        },
        SqlExpr::Between { expr, negated, low, high } => {
            let a = tr_expr(*expr, n);
            let lo = tr_expr(*low, n + a.1.len());
            let hi = tr_expr(*high, n + a.1.len() + lo.1.len());
            law_new_placeholders_once(*expr, m, n, k);
            law_new_placeholders_once(*low, m, n + a.1.len(), k);
            law_new_placeholders_once(*high, m, n + a.1.len() + lo.1.len(), k);
            if a.0 is Ok && lo.0 is Ok && hi.0 is Ok {
                let mid = " "@ + negation(negated) + "BETWEEN "@;
                lemma_sep3(" "@, negation(negated), "BETWEEN "@);
                lemma_sep(a.0->Ok_0, mid, lo.0->Ok_0, k);
                lemma_sep(a.0->Ok_0 + mid + lo.0->Ok_0, " AND "@, hi.0->Ok_0, k);
            }
        },
        SqlExpr::InList { expr, list, negated } => {
            let items = tr_exprs(list@, 0, n);
            let head = tr_expr(*expr, n + items.1.len());
            lemma_list_once(list@, 0, m, n, k);
            law_new_placeholders_once(*expr, m, n + items.1.len(), k);
            if items.0 is Ok && head.0 is Ok {
                let h = head.0->Ok_0;
                let j = join(items.0->Ok_0, ", "@);
                let sep = " "@ + negation(negated) + "IN ("@;
                lemma_sep3(" "@, negation(negated), "IN ("@);
                lemma_join_count(items.0->Ok_0, ", "@, k);
                lemma_sep(h, sep, j, k);
                assert(h + " "@ + negation(negated) + "IN ("@ + j =~= h + sep + j);
                lemma_wrap(seq![], h + sep + j, ")"@, k);
                assert(seq![] + (h + sep + j) + ")"@ =~= h + " "@ + negation(negated) + "IN ("@ + j + ")"@);
            }
        },
        SqlExpr::Nested(x) => {
            law_new_placeholders_once(*x, m, n, k);
            if tr_expr(*x, n).0 is Ok {
                lemma_wrap("("@, tr_expr(*x, n).0->Ok_0, ")"@, k);
            }
        },
        SqlExpr::Cast { expr, data_type } => {
            law_new_placeholders_once(*expr, m, n, k);
            if tr_expr(*expr, n).0 is Ok {
                lemma_df3(" AS "@, data_type@, ")"@);
                assert((" AS "@ + data_type@ + ")"@)[0] == " AS "@[0]);
                lemma_wrap("CAST("@, tr_expr(*expr, n).0->Ok_0, " AS "@ + data_type@ + ")"@, k);
            }
        },
        SqlExpr::Function(f) => match f.args {
            SqlFunctionArgs::NoArgs => {
                reveal_strlit("()");
                lemma_df_concat(lowercase(f.name@), "()"@);
                lemma_dollar_free(lowercase(f.name@) + "()"@, k);
            },
            SqlFunctionArgs::List(args) => {
                let a = tr_args(args@, 0, n);
                lemma_args_once(args@, 0, m, n, k);
                if a.0 is Ok {
                    lemma_join_count(a.0->Ok_0, ", "@, k);
                    lemma_df_concat(lowercase(f.name@), "("@);
                    lemma_wrap(lowercase(f.name@) + "("@, join(a.0->Ok_0, ", "@), ")"@, k);
                }
            },
            SqlFunctionArgs::Subquery => {},
        },
        SqlExpr::Wildcard => lemma_dollar_free("*"@, k),
        _ => {},
    }
}

/// As [`law_new_placeholders_once`], for the expressions of a list from `i` on.
proof fn lemma_list_once(list: Seq<SqlExpr>, i: int, m: nat, n: nat, k: nat)
    requires
        m <= n,
        m < k,
        0 <= i,
        forall|j: int| i <= j < list.len() ==> clean(#[trigger] list[j], m),
    ensures
        tr_exprs(list, i, n).0 matches Ok(ts) ==> count_all(ts, k) == newly_bound(k, n, tr_exprs(list, i, n).1.len()),
    decreases list, list.len() - i,
{
    if i < list.len() {
        let h = tr_expr(list[i], n);
        law_new_placeholders_once(list[i], m, n, k);
        lemma_list_once(list, i + 1, m, n + h.1.len(), k);
        if h.0 is Ok && tr_exprs(list, i + 1, n + h.1.len()).0 is Ok {
            let ts = seq![h.0->Ok_0] + tr_exprs(list, i + 1, n + h.1.len()).0->Ok_0;
            assert(ts.drop_first() =~= tr_exprs(list, i + 1, n + h.1.len()).0->Ok_0);
        }
    }
}

/// As [`law_new_placeholders_once`], for a function argument.
proof fn lemma_arg_once(a: SqlFunctionArg, m: nat, n: nat, k: nat)
    requires
        m <= n,
        m < k,
        clean_arg(a, m),
    ensures
        tr_arg(a, n).0 matches Ok(s) ==> placeholder_count(s, k) == newly_bound(k, n, tr_arg(a, n).1.len()),
    decreases a, 0int,
{
    lemma_fixed_texts();
    match a {
        SqlFunctionArg::Expr(e) => law_new_placeholders_once(e, m, n, k),
        SqlFunctionArg::Named { name, expr } => {
            law_new_placeholders_once(expr, m, n, k);
            if tr_expr(expr, n).0 is Ok {
                lemma_df_concat(name@, " => "@);
                lemma_wrap(name@ + " => "@, tr_expr(expr, n).0->Ok_0, seq![], k);
            }
        },
        _ => lemma_dollar_free("*"@, k),
    }
}

/// As [`law_new_placeholders_once`], for the arguments of a call from `i` on.
proof fn lemma_args_once(args: Seq<SqlFunctionArg>, i: int, m: nat, n: nat, k: nat)
    requires
        m <= n,
        m < k,
        0 <= i,
        forall|j: int| i <= j < args.len() ==> clean_arg(#[trigger] args[j], m),
    ensures
        tr_args(args, i, n).0 matches Ok(ts) ==> count_all(ts, k) == newly_bound(k, n, tr_args(args, i, n).1.len()),
    decreases args, args.len() - i,
{
    if i < args.len() {
        let h = tr_arg(args[i], n);
        lemma_arg_once(args[i], m, n, k);
        lemma_args_once(args, i + 1, m, n + h.1.len(), k);
        if h.0 is Ok && tr_args(args, i + 1, n + h.1.len()).0 is Ok {
            let ts = seq![h.0->Ok_0] + tr_args(args, i + 1, n + h.1.len()).0->Ok_0;
            assert(ts.drop_first() =~= tr_args(args, i + 1, n + h.1.len()).0->Ok_0);
        }
    }
}

} // verus!
