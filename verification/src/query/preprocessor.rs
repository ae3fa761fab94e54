//! Expansion of the parameters supplied with a query.

use vstd::prelude::*;
use crate::json::{JsonMember, JsonValue, NumberKind, member_lookup, scalar_json, scalar_to_json, lookup_member};
use crate::query::error::{QueryError, QueryErrorView};
use crate::text::{
    all_digits, alphabetic, alphanumeric, chars_of, decimal, digit_run, digit_run_exec, digits_value,
    is_alphabetic, is_alphanumeric, parse_digits, push_char, push_decimal, push_str, str_eq, views,
};

verus! {

/// A parameter value bound to a `$N` placeholder.
///
/// A float is carried as its decimal text, which reads back as the same 64-bit float.
pub enum Param {
    Text(String),
    Int(i64),
    Float(String),
    Bool(bool),
    Null,
}

/// A [`Param`] with its text as characters.
pub enum ParamView {
    Text(Seq<char>),
    Int(i64),
    Float(Seq<char>),
    Bool(bool),
    Null,
}

impl View for Param {
    type V = ParamView;

    open spec fn view(&self) -> ParamView {
        match self {
            Param::Text(s) => ParamView::Text(s@),
            Param::Int(i) => ParamView::Int(*i),
            Param::Float(s) => ParamView::Float(s@),
            Param::Bool(b) => ParamView::Bool(*b),
            Param::Null => ParamView::Null,
        }
    }
}

/// The views of a list of parameters.
pub open spec fn params_view(ps: Seq<Param>) -> Seq<ParamView> {
    ps.map_values(|p: Param| p@)
}

/// Appending a parameter appends its view.
pub proof fn lemma_params_view_push(ps: Seq<Param>, p: Param)
    ensures
        params_view(ps.push(p)) == params_view(ps).push(p@),
{
    assert(params_view(ps.push(p)) =~= params_view(ps).push(p@));
}

/// The parameter a JSON value binds as: a string as text, an integer within `i64` as an
/// integer, any other number as a float, a boolean as a boolean, anything else as null.
pub open spec fn param_of(v: JsonValue) -> ParamView {
    match v {
        JsonValue::String(s) => ParamView::Text(s.text@),
        JsonValue::Number(n) => match v.spec_as_i64() {
            Some(i) => ParamView::Int(i),
            None => ParamView::Float(n.as_float.text@),
        },
        JsonValue::Bool(b) => ParamView::Bool(b),
        _ => ParamView::Null,
    }
}

impl Param {
    /// The parameter a JSON value binds as.
    pub fn from(v: &JsonValue) -> (r: Param)
        ensures
            r@ == param_of(*v),
    {
        match v {
            JsonValue::String(s) => Param::Text(s.text.clone()),
            JsonValue::Number(n) => match v.as_i64() {
                Some(i) => Param::Int(i),
                None => Param::Float(n.as_float.text.clone()),
            },
            JsonValue::Bool(b) => Param::Bool(*b),
            _ => Param::Null,
        }
    }
}

/// The SQL after expansion and the parameters in placeholder order.
pub struct Preprocessed {
    pub sql: String,
    pub params: Vec<Param>,
}

// ---------------------------------------------------------------------------
// Positional parameters
// ---------------------------------------------------------------------------

/// The highest `$N` in `s` from position `i` on: after each `$`, the run of digits that
/// follows is read as a number (one above `usize::MAX` counts as nothing); the scan goes
/// on after that run.
pub open spec fn positional_max(s: Seq<char>, i: int) -> nat
    decreases s.len() - i,
{
    if i < 0 || i >= s.len() {
        0
    } else if s[i] == '$' {
        proof {
            lemma_digit_run_all_digits(s, i + 1);
        }
        let end = i + 1 + digit_run(s, i + 1);
        let v = digits_value(s.subrange(i + 1, end));
        let here: nat = if end > i + 1 && v <= usize::MAX { v } else { 0 };
        let rest = positional_max(s, end);
        if here > rest { here } else { rest }
    } else {
        positional_max(s, i + 1)
    }
}

/// A run of digits is all digits.
pub proof fn lemma_digit_run_all_digits(s: Seq<char>, i: int)
    requires
        0 <= i <= s.len(),
    ensures
        i + digit_run(s, i) <= s.len(),
        all_digits(s.subrange(i, i + digit_run(s, i))),
    decreases s.len() - i,
{
    if i < s.len() && crate::text::is_digit(s[i]) {
        lemma_digit_run_all_digits(s, i + 1);
        assert forall|j: int| 0 <= j < digit_run(s, i) implies crate::text::is_digit(
            #[trigger] s.subrange(i, i + digit_run(s, i))[j],
        ) by {
            if j > 0 {
                assert(s.subrange(i, i + digit_run(s, i))[j] == s.subrange(i + 1, i + 1 + digit_run(s, i + 1))[j - 1]);
            }
        }
    }
}

/// The number of positional parameters a query uses: its highest `$N`.
pub fn count_positional(sql: &str) -> (r: usize)
    ensures
        r == positional_max(sql@, 0),
{
    let s = chars_of(sql);
    let mut max: usize = 0;
    let mut i: usize = 0;
    while i < s.len()
        invariant
            s@ == sql@,
            i <= s@.len(),
            positional_max(s@, 0) == if max > positional_max(s@, i as int) { max as nat } else { positional_max(s@, i as int) },
        decreases s@.len() - i,
    {
        if s[i] == '$' {
            let start = i + 1;
            let run = digit_run_exec(s.as_slice(), start);
            let end = start + run;
            proof {
                lemma_digit_run_all_digits(s@, start as int);
            }
            if end > start {
                let mut d: Vec<char> = Vec::new();
                let mut k: usize = start;
                while k < end
                    invariant
                        start <= k <= end <= s@.len(),
                        d@ == s@.subrange(start as int, k as int),
                    decreases end - k,
                {
                    d.push(s[k]);
                    k = k + 1;
                    assert(d@ =~= s@.subrange(start as int, k as int));
                }
                match parse_digits(d.as_slice(), usize::MAX as u64) {
                    Some(n) => {
                        if n as usize > max {
                            max = n as usize;
                        }
                    },
                    None => {},
                }
            }
            i = end;
        } else {
            i = i + 1;
        }
    }
    max
}

// ---------------------------------------------------------------------------
// Named parameters
// ---------------------------------------------------------------------------

/// The first position at or after `j` holding a single quote, or the end.
pub open spec fn next_quote(s: Seq<char>, j: int) -> int
    decreases s.len() - j,
{
    if j < 0 || j >= s.len() {
        s.len() as int
    } else if s[j] == '\'' {
        j
    } else {
        next_quote(s, j + 1)
    }
}

/// The next quote at or after `j` lies between `j` and the end.
pub proof fn lemma_next_quote_bounds(s: Seq<char>, j: int)
    requires
        0 <= j <= s.len(),
    ensures
        j <= next_quote(s, j) <= s.len(),
        next_quote(s, j) < s.len() ==> s[next_quote(s, j)] == '\'',
    decreases s.len() - j,
{
    if j < s.len() && s[j] != '\'' {
        lemma_next_quote_bounds(s, j + 1);
    }
}

/// A run of name characters stays within the text.
pub proof fn lemma_name_run_bound(s: Seq<char>, j: int)
    requires
        0 <= j <= s.len(),
    ensures
        j + name_run(s, j) <= s.len(),
    decreases s.len() - j,
{
    if j < s.len() && (alphanumeric(s[j]) || s[j] == '_') {
        lemma_name_run_bound(s, j + 1);
    }
}

/// The number of name characters (alphanumeric or `_`) from position `j` on.
pub open spec fn name_run(s: Seq<char>, j: int) -> nat
    decreases s.len() - j,
{
    if 0 <= j < s.len() && (alphanumeric(s[j]) || s[j] == '_') {
        1 + name_run(s, j + 1)
    } else {
        0
    }
}

/// The first position at or after `k` where `names` holds `name`, if there is one.
pub open spec fn position_from(names: Seq<Seq<char>>, name: Seq<char>, k: int) -> Option<int>
    decreases names.len() - k,
{
    if k < 0 || k >= names.len() {
        None
    } else if names[k] == name {
        Some(k)
    } else {
        position_from(names, name, k + 1)
    }
}

/// A position found is in range and holds the name.
pub proof fn lemma_position_from(names: Seq<Seq<char>>, name: Seq<char>, k: int)
    requires
        0 <= k,
    ensures
        position_from(names, name, k) matches Some(j) ==> k <= j < names.len() && names[j] == name,
    decreases names.len() - k,
{
    if k < names.len() && names[k] != name {
        lemma_position_from(names, name, k + 1);
    }
}

/// The first position of `name` in `names`, if it is there.
pub open spec fn position_of(names: Seq<Seq<char>>, name: Seq<char>) -> Option<int> {
    position_from(names, name, 0)
}

/// Rewriting `:name` parameters from position `i` on, with `out` written so far and
/// `names` the names met so far (the `$N` of a name is its place in that list). Text in
/// single quotes is copied as it is; a `:` followed by a letter starts a name, made of
/// letters, digits and `_`; each name must be a key of the supplied object.
pub open spec fn named_expansion(
    s: Seq<char>,
    i: int,
    members: Seq<JsonMember>,
    names: Seq<Seq<char>>,
    out: Seq<char>,
) -> Result<(Seq<char>, Seq<Seq<char>>), QueryErrorView>
    decreases s.len() - i,
{
    if i < 0 || i >= s.len() {
        Ok((out, names))
    } else if s[i] == '\'' {
        proof {
            lemma_next_quote_bounds(s, i + 1);
        }
        let close = next_quote(s, i + 1);
        let end = if close < s.len() { close + 1 } else { s.len() as int };
        named_expansion(s, end, members, names, out + s.subrange(i, end))
    } else if s[i] == ':' && i + 1 < s.len() && alphabetic(s[i + 1]) {
        proof {
            lemma_name_run_bound(s, i + 1);
        }
        let end = i + 1 + name_run(s, i + 1);
        let name = s.subrange(i + 1, end);
        match position_of(names, name) {
            Some(k) => named_expansion(s, end, members, names, out + seq!['$'] + decimal((k + 1) as nat)),
            None => match member_lookup(members, name) {
                None => Err(QueryErrorView::Invalid("parameter :"@ + name + " not found in params"@)),
                Some(_) => named_expansion(
                    s,
                    end,
                    members,
                    names.push(name),
                    out + seq!['$'] + decimal((names.len() + 1) as nat),
                ),
            },
        }
    } else {
        named_expansion(s, i + 1, members, names, out.push(s[i]))
    }
}

/// The parameters of the names, in order, each bound from the value under its key.
pub open spec fn named_params(members: Seq<JsonMember>, names: Seq<Seq<char>>) -> Seq<ParamView> {
    names.map_values(|n: Seq<char>| param_of(member_lookup(members, n)->0))
}

/// What expanding the parameters of `sql` gives.
pub open spec fn expansion(sql: Seq<char>, params: Option<&JsonValue>) -> Result<(Seq<char>, Seq<ParamView>), QueryErrorView> {
    match params {
        None => Ok((sql, seq![])),
        Some(JsonValue::Array(arr)) => {
            let expected = positional_max(sql, 0);
            if arr@.len() != expected {
                Err(QueryErrorView::Invalid(
                    "query has "@ + decimal(expected) + " positional parameter(s) but "@
                        + decimal(arr@.len()) + " value(s) were supplied"@,
                ))
            } else {
                Ok((sql, arr@.map_values(|v: JsonValue| param_of(v))))
            }
        },
        Some(JsonValue::Object(members)) => match named_expansion(sql, 0, members@, seq![], seq![]) {
            Ok((out, names)) => Ok((out, named_params(members@, names))),
            Err(e) => Err(e),
        },
        Some(other) => Err(QueryErrorView::Invalid("params must be an array or object, got "@ + scalar_json(*other))),
    }
}

/// Whether `r` is the outcome `e` describes.
pub open spec fn preprocessed_as(
    r: Result<Preprocessed, QueryError>,
    e: Result<(Seq<char>, Seq<ParamView>), QueryErrorView>,
) -> bool {
    match (r, e) {
        (Ok(p), Ok((sql, ps))) => p.sql@ == sql && params_view(p.params@) == ps,
        (Err(err), Err(ev)) => err@ == ev,
        _ => false,
    }
}

/// The position of `name` among `names`, searched from the start.
fn find_name(names: &Vec<String>, name: &str) -> (r: Option<usize>)
    ensures
        r matches Some(k) ==> k < names@.len() && position_of(views(names@), name@) == Some(k as int),
        r is None ==> position_of(views(names@), name@) is None,
{
    proof {
        lemma_position_from(views(names@), name@, 0);
    }
    let mut k: usize = 0;
    while k < names.len()
        invariant
            k <= names@.len(),
            position_of(views(names@), name@) == position_from(views(names@), name@, k as int),
        decreases names@.len() - k,
    {
        if str_eq(names[k].as_str(), name) {
            return Some(k);
        }
        k = k + 1;
    }
    None
}

/// The parameters an array binds, one per element.
fn array_params(arr: &Vec<JsonValue>) -> (r: Vec<Param>)
    ensures
        params_view(r@) == arr@.map_values(|v: JsonValue| param_of(v)),
{
    let mut r: Vec<Param> = Vec::new();
    let mut i: usize = 0;
    while i < arr.len()
        invariant
            i <= arr@.len(),
            params_view(r@) == arr@.take(i as int).map_values(|v: JsonValue| param_of(v)),
        decreases arr@.len() - i,
    {
        let p = Param::from(&arr[i]);
        proof {
            lemma_params_view_push(r@, p);
        }
        r.push(p);
        i = i + 1;
        assert(arr@.take(i as int).map_values(|v: JsonValue| param_of(v)) =~= arr@.take(i - 1).map_values(
            |v: JsonValue| param_of(v),
        ).push(param_of(arr@[i - 1])));
    }
    assert(arr@.take(arr@.len() as int) =~= arr@);
    r
}

/// Rewrites the `:name` parameters of `sql` against the members of the supplied object.
fn expand_named(sql: &str, members: &Vec<JsonMember>) -> (r: Result<Preprocessed, QueryError>)
    ensures
        preprocessed_as(
            r,
            match named_expansion(sql@, 0, members@, seq![], seq![]) {
                Ok((out, names)) => Ok((out, named_params(members@, names))),
                Err(e) => Err(e),
            },
        ),
{
    let s = chars_of(sql);
    let ghost m = members@;
    let mut out = String::new();
    let mut names: Vec<String> = Vec::new();
    let mut ps: Vec<Param> = Vec::new();
    let mut i: usize = 0;
    assert(views(names@) =~= Seq::<Seq<char>>::empty());
    while i < s.len()
        invariant
            s@ == sql@,
            m == members@,
            i <= s@.len(),
            names@.len() <= i,
            named_expansion(s@, 0, m, seq![], seq![]) == named_expansion(s@, i as int, m, views(names@), out@),
            params_view(ps@) == named_params(m, views(names@)),
        decreases s@.len() - i,
    {
        let ghost before_q = out@;
        if s[i] == '\'' {
            proof {
                lemma_next_quote_bounds(s@, i + 1);
            }
            let mut j: usize = i + 1;
            while j < s.len() && s[j] != '\''
                invariant
                    i < j <= s@.len(),
                    next_quote(s@, i + 1) == next_quote(s@, j as int),
                decreases s@.len() - j,
            {
                j = j + 1;
            }
            let end = if j < s.len() { j + 1 } else { s.len() };
            let piece = crate::text::substring(s.as_slice(), i, end);
            assert(next_quote(s@, i + 1) == j);
            push_str(&mut out, piece.as_str());
            assert(named_expansion(s@, i as int, m, views(names@), before_q) == named_expansion(s@, end as int, m, views(names@), out@));
            i = end;
        } else if s[i] == ':' && i + 1 < s.len() && is_alphabetic(s[i + 1]) {
            proof {
                lemma_name_run_bound(s@, i + 1);
            }
            let start = i + 1;
            let mut end: usize = start;
            while end < s.len() && (is_alphanumeric(s[end]) || s[end] == '_')
                invariant
                    start <= end <= s@.len(),
                    start + name_run(s@, start as int) == end + name_run(s@, end as int),
                decreases s@.len() - end,
            {
                end = end + 1;
            }
            assert(name_run(s@, end as int) == 0);
            assert(end == i + 1 + name_run(s@, i + 1));
            let name = crate::text::substring(s.as_slice(), start, end);
            let ghost vn = views(names@);
            match find_name(&names, name.as_str()) {
                Some(k) => {
                    assert(position_of(vn, s@.subrange(i + 1, end as int)) == Some(k as int));
                    let ghost before = out@;
                    push_char(&mut out, '$');
                    push_decimal(&mut out, (k + 1) as u64);
                    assert(out@ =~= before + seq!['$'] + decimal((k + 1) as nat));
                    assert(named_expansion(s@, i as int, m, views(names@), before_q) == named_expansion(s@, end as int, m, views(names@), out@));
                },
                None => match lookup_member(members, name.as_str()) {
                    None => {
                        let mut msg = String::new();
                        push_str(&mut msg, "parameter :");
                        push_str(&mut msg, name.as_str());
                        push_str(&mut msg, " not found in params");
                        return Err(QueryError::Invalid(msg));
                    },
                    Some(val) => {
                        let p = Param::from(val);
                        proof {
                            lemma_params_view_push(ps@, p);
                        }
                        ps.push(p);
                        let pos = names.len() + 1;
                        names.push(name);
                        assert(views(names@) =~= vn.push(s@.subrange(start as int, end as int)));
                        assert(named_params(m, views(names@)) =~= named_params(m, vn).push(
                            param_of(member_lookup(m, s@.subrange(start as int, end as int))->0),
                        ));
                        let ghost before = out@;
                        push_char(&mut out, '$');
                        push_decimal(&mut out, pos as u64);
                        assert(out@ =~= before + seq!['$'] + decimal((vn.len() + 1) as nat));
                        assert(named_expansion(s@, i as int, m, vn, before_q) == named_expansion(s@, end as int, m, views(names@), out@));
                    },
                },
            }
            i = end;
        } else {
            push_char(&mut out, s[i]);
            i = i + 1;
        }
    }
    Ok(Preprocessed { sql: out, params: ps })
}

/// Expands the parameters supplied with a query into positional form.
///
/// With no parameters the SQL is kept as it is. An array supplies the `$N` parameters the
/// SQL already uses, and must hold exactly as many values as the highest `$N`. An object
/// supplies named parameters: each `:name` outside single quotes becomes `$N`, numbered by
/// first appearance, and must be a key of the object. Anything else is refused.
pub fn expand(sql: &str, params: Option<&JsonValue>) -> (r: Result<Preprocessed, QueryError>)
    ensures
        preprocessed_as(r, expansion(sql@, params)),
{
    match params {
        None => {
            let ps: Vec<Param> = Vec::new();
            assert(params_view(ps@) =~= Seq::<ParamView>::empty());
            Ok(Preprocessed { sql: sql.to_string(), params: ps })
        },
        Some(JsonValue::Array(arr)) => {
            let expected = count_positional(sql);
            if arr.len() != expected {
                let mut msg = String::new();
                push_str(&mut msg, "query has ");
                push_decimal(&mut msg, expected as u64);
                push_str(&mut msg, " positional parameter(s) but ");
                push_decimal(&mut msg, arr.len() as u64);
                push_str(&mut msg, " value(s) were supplied");
                return Err(QueryError::Invalid(msg));
            }
            let ps = array_params(arr);
            Ok(Preprocessed { sql: sql.to_string(), params: ps })
        },
        Some(JsonValue::Object(members)) => expand_named(sql, members),
        Some(other) => {
            let mut msg = String::new();
            push_str(&mut msg, "params must be an array or object, got ");
            let shown = scalar_to_json(other);
            push_str(&mut msg, shown.as_str());
            Err(QueryError::Invalid(msg))
        },
    }
}

} // verus!
