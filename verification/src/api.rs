//! The decisions the HTTP handlers make around their database work: running a query
//! through the pipeline, checking document data, paging, and checking edits.

use vstd::prelude::*;
use crate::error::Error;
use crate::json::{JsonValue, json_get};
use crate::models::user::{UpdateUser, UserRole};
use crate::models::workspace::UpdateWorkspaceSettings;
use crate::query::error::{QueryError, QueryErrorView};
use crate::query::parser::{parse, sql_parse};
use crate::query::preprocessor::{expand, expansion, params_view, preprocessed_as, ParamView};
use crate::query::sql::SqlQuery;
use crate::query::translator::{tr_query, translate, Translated};
use crate::query::validator::{limit_enforced, name_views, validate, validated, validation};
use crate::query::lower::{lowers_query, query_view};
use crate::schema::field::{errors_view, fields_errors, FieldErrorView, TypeDef};
use crate::text::{chars_of, str_eq, string_of, trim, trim_chars};

verus! {

// ---------------------------------------------------------------------------
// The query endpoint
// ---------------------------------------------------------------------------

/// The names of the content types.
pub open spec fn type_names_of(types: Seq<TypeDef>) -> Seq<Seq<char>> {
    types.map_values(|t: TypeDef| t.name@)
}

/// Whether `t` is what running the validated query `v` gives: its translation, with the
/// expanded parameters `ps` bound first.
pub open spec fn runs_as(t: Translated, v: SqlQuery, types: Seq<TypeDef>, ps: Seq<ParamView>) -> bool {
    let tr = tr_query(v, types, ps.len());
    &&& tr.0 == Ok::<Seq<char>, QueryErrorView>(t.sql@)
    &&& params_view(t.params@) == ps + tr.1
}

/// Whether `v` is `m` as validation leaves it for `role`: accepted, with the same parts
/// and its row limit enforced.
pub open spec fn validated_form(m: SqlQuery, v: SqlQuery, role: UserRole, types: Seq<TypeDef>) -> bool {
    &&& validation(m, role, type_names_of(types)) is Ok
    &&& v.has_with == m.has_with
    &&& v.body == m.body
    &&& v.order_by == m.order_by
    &&& limit_enforced(m.limit, v.limit)
}

/// Whether `r` is what the pipeline answers for a query whose model is `m`, with the
/// expanded parameters `ps`: a query refused by validation is a bad request carrying the
/// refusal's message; an accepted one is translated in its validated form, and is that
/// translation with `ps` bound first, or a bad request carrying the translation's error.
pub open spec fn pipeline_answer(
    r: Result<Translated, Error>,
    m: SqlQuery,
    role: UserRole,
    types: Seq<TypeDef>,
    ps: Seq<ParamView>,
) -> bool {
    match validation(m, role, type_names_of(types)) {
        Err(e) => r matches Err(Error::BadRequest(x)) && x@ == e.message(),
        Ok(_) => exists|v: SqlQuery|
            #[trigger] validated_form(m, v, role, types) && match tr_query(v, types, ps.len()).0 {
                Err(e) => r matches Err(Error::BadRequest(x)) && x@ == e.message(),
                Ok(_) => r matches Ok(t) && runs_as(t, v, types, ps),
            },
    }
}

/// The names of the content types, as text slices.
fn type_name_list(types: &Vec<TypeDef>) -> (r: Vec<&str>)
    ensures
        name_views(r@) == type_names_of(types@),
{
    let mut r: Vec<&str> = Vec::new();
    let mut i: usize = 0;
    while i < types.len()
        invariant
            i <= types@.len(),
            name_views(r@) == type_names_of(types@.take(i as int)),
        decreases types@.len() - i,
    {
        let ghost before = r@;
        r.push(types[i].name.as_str());
        i = i + 1;
        assert(name_views(r@) =~= name_views(before).push(types@[i - 1].name@));
        assert(type_names_of(types@.take(i as int)) =~= type_names_of(types@.take(i - 1)).push(types@[i - 1].name@));
    }
    assert(types@.take(types@.len() as int) =~= types@);
    r
}

/// Runs a request's query text through the pipeline: its parameters are expanded, it is
/// parsed, checked against what `role` may read among `types` and the other tables, and
/// translated. Any refusal is a bad request carrying the query error's message; the
/// submitted query, read into the model, gets the answer the pipeline gives it, with the
/// supplied parameters bound first.
pub fn prepare_query(sql: &str, params: Option<&JsonValue>, role: UserRole, types: &Vec<TypeDef>) -> (r: Result<
    Translated,
    Error,
>)
    ensures
        match expansion(sql@, params) {
            Err(e) => r matches Err(Error::BadRequest(m)) && m@ == e.message(),
            Ok((expanded, ps)) => match sql_parse(expanded) {
                Err(pe) => r matches Err(Error::BadRequest(m)) && m@ == QueryErrorView::Parse(pe).message(),
                Ok(stmts) => if stmts.len() != 1 {
                    r matches Err(Error::BadRequest(m)) && m@ == "exactly one statement is required"@
                } else {
                    match stmts[0] {
                        None => r matches Err(Error::BadRequest(m)) && m@ == "only SELECT queries are allowed"@,
                        Some(qv) => exists|m: SqlQuery|
                            #[trigger] lowers_query(m, qv) && pipeline_answer(r, m, role, types@, ps),
                    }
                },
            },
        },
{
    let pre = match expand(sql, params) {
        Ok(p) => p,
        Err(e) => {
            return Err(Error::from_query(e));
        },
    };
    let ghost ps = params_view(pre.params@);
    let ast = match parse(pre.sql.as_str()) {
        Ok(a) => a,
        Err(e) => {
            return Err(Error::from_query(e));
        },
    };
    let ghost qv = query_view(*ast);
    let names = type_name_list(types);
    let vr = validate(ast, &role, names.as_slice());
    let ghost m = choose|m: SqlQuery| lowers_query(m, qv) && validated(vr, m, role, name_views(names@));
    assert(lowers_query(m, qv));
    let validated = match vr {
        Ok(v) => v,
        Err(e) => {
            let r = Err(Error::from_query(e));
            assert(pipeline_answer(r, m, role, types@, ps));
            return r;
        },
    };
    let ghost vq = validated.query;
    assert(validated_form(m, vq, role, types@));
    match translate(validated, pre.params, types.as_slice()) {
        Ok(t) => {
            assert(runs_as(t, vq, types@, ps));
            assert(pipeline_answer(Ok(t), m, role, types@, ps));
            return Ok(t);
        },
        Err(e) => {
            let r = Err(Error::from_query(e));
            assert(pipeline_answer(r, m, role, types@, ps));
            return r;
        },
    }
}

// ---------------------------------------------------------------------------
// Documents
// ---------------------------------------------------------------------------

/// The first content type with this name, from position `i` on.
pub open spec fn type_named_from(types: Seq<TypeDef>, name: Seq<char>, i: int) -> Option<TypeDef>
    decreases types.len() - i,
{
    if i < 0 || i >= types.len() {
        None
    } else if types[i].name@ == name {
        Some(types[i])
    } else {
        type_named_from(types, name, i + 1)
    }
}

/// What checking document data against its type gives: data of an unknown type passes;
/// otherwise the type's field errors, if there are any, refuse it.
pub open spec fn doc_check(types: Seq<TypeDef>, doc_type: Seq<char>, data: JsonValue) -> Result<(), Seq<FieldErrorView>> {
    match type_named_from(types, doc_type, 0) {
        None => Ok(()),
        Some(t) => {
            let errs = fields_errors(t.fields@, data, 0);
            if errs.len() == 0 {
                Ok(())
            } else {
                Err(errs)
            }
        },
    }
}

/// Checks document data against its content type.
pub fn validate_doc(types: &Vec<TypeDef>, doc_type: &str, data: &JsonValue) -> (r: Result<(), Error>)
    ensures
        match doc_check(types@, doc_type@, *data) {
            Ok(()) => r is Ok,
            Err(errs) => r matches Err(Error::Validation(es)) && errors_view(es@) == errs,
        },
{
    let mut i: usize = 0;
    while i < types.len()
        invariant
            i <= types@.len(),
            type_named_from(types@, doc_type@, 0) == type_named_from(types@, doc_type@, i as int),
        decreases types@.len() - i,
    {
        if str_eq(types[i].name.as_str(), doc_type) {
            let errors = types[i].validate(data);
            if errors.len() == 0 {
                return Ok(());
            } else {
                return Err(Error::Validation(errors));
            }
        }
        i = i + 1;
    }
    Ok(())
}

/// The status a new document gets when none is given.
pub fn document_status(status: Option<&str>) -> (r: &str)
    ensures
        r@ == match status {
            Some(s) => s@,
            None => "draft"@,
        },
{
    match status {
        Some(s) => s,
        None => "draft",
    }
}

/// The data a new document gets when none is given: an empty object.
pub fn document_data(data: Option<JsonValue>) -> (r: JsonValue)
    ensures
        match data {
            Some(d) => r == d,
            None => r matches JsonValue::Object(m) && m@.len() == 0,
        },
{
    match data {
        Some(d) => d,
        None => JsonValue::Object(Vec::new()),
    }
}

/// The filters and page of a document listing.
pub struct ListQuery {
    pub doc_type: Option<String>,
    pub status: Option<String>,
    pub limit: Option<i64>,
    pub offset: Option<i64>,
}

impl ListQuery {
    /// The page asked for: at most 200 documents (50 when no limit is given), from the
    /// offset given (0 when none is).
    pub fn window(&self) -> (r: (i64, i64))
        ensures
            r.0 == match self.limit {
                Some(l) => if l < 200 { l } else { 200 },
                None => 50,
            },
            r.1 == match self.offset {
                Some(o) => o,
                None => 0,
            },
    {
        let limit = match self.limit {
            Some(l) => if l < 200 {
                l
            } else {
                200
            },
            None => 50,
        };
        let offset = match self.offset {
            Some(o) => o,
            None => 0,
        };
        (limit, offset)
    }
}

/// A deletion that matched no row is answered as not found.
pub fn require_deleted(rows_affected: u64) -> (r: Result<(), Error>)
    ensures
        rows_affected == 0 <==> r is Err,
        r matches Err(e) ==> e is NotFound,
{
    if rows_affected == 0 {
        Err(Error::NotFound)
    } else {
        Ok(())
    }
}

// ---------------------------------------------------------------------------
// Users, tokens and settings
// ---------------------------------------------------------------------------

/// An edit of a user must change something.
pub fn check_user_update(u: &UpdateUser) -> (r: Result<(), Error>)
    ensures
        r is Err <==> u.name is None && u.status is None && u.role is None,
        r matches Err(e) ==> e matches Error::BadRequest(m) && m@ == "no fields to update"@,
{
    if u.name.is_none() && u.status.is_none() && u.role.is_none() {
        Err(Error::BadRequest("no fields to update".to_string()))
    } else {
        Ok(())
    }
}

/// The name of a new API token: the name given, trimmed, which must not be empty.
pub fn token_name(name: &str) -> (r: Result<String, Error>)
    ensures
        trim(name@).len() == 0 <==> r is Err,
        r matches Ok(n) ==> n@ == trim(name@),
        r matches Err(e) ==> e matches Error::BadRequest(m) && m@ == "name is required"@,
{
    let cs = chars_of(name);
    let t = trim_chars(cs.as_slice());
    if t.len() == 0 {
        return Err(Error::BadRequest("name is required".to_string()));
    }
    Ok(string_of(t.as_slice()))
}

/// Whether an edit of the workspace settings changes anything (when it does not, the
/// settings are only read back).
pub fn settings_change_requested(u: &UpdateWorkspaceSettings) -> (r: bool)
    ensures
        r == !(u.name is None && u.require_approval is None && u.default_role is None),
{
    !(u.name.is_none() && u.require_approval.is_none() && u.default_role.is_none())
}

/// Whether the workspace has been set up: it has at least one user (a count that could
/// not be read counts as none).
pub fn is_initialized(user_count: Option<i64>) -> (r: bool)
    ensures
        r == match user_count {
            Some(c) => c > 0,
            None => false,
        },
{
    match user_count {
        Some(c) => c > 0,
        None => false,
    }
}

// ---------------------------------------------------------------------------
// The admin interface's files
// ---------------------------------------------------------------------------

/// The number of `/` characters at the start of `s`.
pub open spec fn leading_slashes(s: Seq<char>) -> nat
    decreases s.len(),
{
    if s.len() > 0 && s[0] == '/' {
        1 + leading_slashes(s.drop_first())
    } else {
        0
    }
}

/// The file a request path asks for: the path without its leading slashes, or
/// `index.html` for the root.
pub open spec fn asset_file(path: Seq<char>) -> Seq<char> {
    let p = path.skip(leading_slashes(path) as int);
    if p.len() == 0 {
        "index.html"@
    } else {
        p
    }
}

/// The file a request path asks for (the admin interface falls back to `index.html` for
/// files it does not have).
pub fn asset_path(path: &str) -> (r: String)
    ensures
        r@ == asset_file(path@),
{
    let cs = chars_of(path);
    let mut i: usize = 0;
    assert(cs@.skip(0) =~= cs@);
    while i < cs.len() && cs[i] == '/'
        invariant
            cs@ == path@,
            i <= cs@.len(),
            leading_slashes(cs@) == i + leading_slashes(cs@.skip(i as int)),
        decreases cs@.len() - i,
    {
        assert(cs@.skip(i as int).drop_first() =~= cs@.skip(i + 1));
        i = i + 1;
    }
    let rest = crate::text::tail_of(cs.as_slice(), i);
    if rest.len() == 0 {
        "index.html".to_string()
    } else {
        string_of(rest.as_slice())
    }
}

} // verus!
