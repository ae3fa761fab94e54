//! Content type definitions and the validation of document data against them.

use vstd::prelude::*;
use crate::json::{Float64, JsonValue, float_less, float_lt, json_equal, json_equals, json_get, get};
use crate::text::{push_str, starts_with, str_eq};

verus! {

/// A content type: its name and its fields.
pub struct TypeDef {
    pub name: String,
    pub fields: Vec<FieldDef>,
}

/// One allowed value of a field with a fixed set of options.
pub struct FieldOption {
    pub label: String,
    pub value: JsonValue,
}

/// The settings every field has.
#[derive(Clone)]
pub struct BaseField {
    pub name: String,
    pub required: bool,
    pub title: Option<String>,
    pub description: Option<String>,
    pub hidden: bool,
    pub read_only: bool,
}

pub struct StringFieldDef {
    pub base: BaseField,
    pub placeholder: Option<String>,
    pub options: Option<Vec<FieldOption>>,
    pub pattern: Option<String>,
}

#[derive(Clone)]
pub struct TextFieldDef {
    pub base: BaseField,
    pub placeholder: Option<String>,
    pub rows: Option<u32>,
}

#[derive(Clone)]
pub struct RichtextFieldDef {
    pub base: BaseField,
    pub placeholder: Option<String>,
    pub rows: Option<u32>,
}

pub struct NumberFieldDef {
    pub base: BaseField,
    pub placeholder: Option<String>,
    pub options: Option<Vec<FieldOption>>,
    pub min: Option<Float64>,
    pub max: Option<Float64>,
}

#[derive(Clone)]
pub struct BooleanFieldDef {
    pub base: BaseField,
}

#[derive(Clone)]
pub struct DateFieldDef {
    pub base: BaseField,
    pub min: Option<Float64>,
    pub max: Option<Float64>,
}

#[derive(Clone)]
pub struct UrlFieldDef {
    pub base: BaseField,
    pub placeholder: Option<String>,
}

#[derive(Clone)]
pub struct SlugFieldDef {
    pub base: BaseField,
    pub source: Option<String>,
}

#[derive(Clone)]
pub struct ImageFieldDef {
    pub base: BaseField,
    pub placeholder: Option<String>,
    pub accept: Option<String>,
}

#[derive(Clone)]
pub struct ReferenceFieldDef {
    pub base: BaseField,
    pub to: Option<Vec<String>>,
}

#[derive(Clone)]
pub struct ArrayFieldDef {
    pub base: BaseField,
    pub of: Option<String>,
}

/// A field of a content type, by kind.
pub enum FieldDef {
    String(StringFieldDef),
    Text(TextFieldDef),
    Richtext(RichtextFieldDef),
    Number(NumberFieldDef),
    Boolean(BooleanFieldDef),
    Date(DateFieldDef),
    Url(UrlFieldDef),
    Slug(SlugFieldDef),
    Image(ImageFieldDef),
    Reference(ReferenceFieldDef),
    Array(ArrayFieldDef),
}

/// A validation failure on one field.
pub struct FieldError {
    pub field: String,
    pub message: String,
}

/// A [`FieldError`] with its texts as characters.
pub struct FieldErrorView {
    pub field: Seq<char>,
    pub message: Seq<char>,
}

impl View for FieldError {
    type V = FieldErrorView;

    open spec fn view(&self) -> FieldErrorView {
        FieldErrorView { field: self.field@, message: self.message@ }
    }
}

/// The views of a list of field errors.
pub open spec fn errors_view(es: Seq<FieldError>) -> Seq<FieldErrorView> {
    es.map_values(|e: FieldError| e@)
}

/// Whether `pattern` compiles as a regular expression and, if it does, whether it matches
/// somewhere in `text`.
pub uninterp spec fn regex_outcome(pattern: Seq<char>, text: Seq<char>) -> Option<bool>;

/// Compiles `pattern` with `regex::Regex::new` and, when that succeeds, tests `text` with
/// `Regex::is_match`: `None` when the pattern does not compile, else whether it matches.
/// The outcome is taken to depend on the two texts alone; what it is for given texts is
/// left to the regex crate.
#[verifier::external_body]
fn regex_test(pattern: &str, text: &str) -> (r: Option<bool>)
    ensures
        r == regex_outcome(pattern@, text@),
{
    match regex::Regex::new(pattern) {
        Ok(re) => Some(re.is_match(text)),
        Err(_) => None,
    }
}

/// The pattern a slug must match: runs of lowercase letters and digits joined by single
/// hyphens.
pub open spec fn slug_pattern() -> Seq<char> {
    "^[a-z0-9]+(?:-[a-z0-9]+)*$"@
}

/// The name a field is shown under: its title, or else its name.
pub open spec fn field_label(b: BaseField) -> Seq<char> {
    match b.title {
        Some(t) => t@,
        None => b.name@,
    }
}

/// The error on field `b` whose message is its label followed by `what`.
pub open spec fn field_error(b: BaseField, what: Seq<char>) -> FieldErrorView {
    FieldErrorView { field: b.name@, message: field_label(b) + what }
}

/// The one-error list `field_error(b, what)` when `cond` holds, else nothing.
pub open spec fn error_if(cond: bool, b: BaseField, what: Seq<char>) -> Seq<FieldErrorView> {
    if cond {
        seq![field_error(b, what)]
    } else {
        seq![]
    }
}

/// Whether a value counts as empty for a field: absent, null, `""` or `[]`.
pub open spec fn value_is_empty(value: Option<JsonValue>) -> bool {
    match value {
        None => true,
        Some(v) => v.spec_is_blank(),
    }
}

/// Whether one of the options holds a value equal to `v`.
pub open spec fn option_allowed(options: Seq<FieldOption>, v: JsonValue) -> bool {
    exists|k: int| 0 <= k < options.len() && json_equal(#[trigger] options[k].value, v)
}

/// The error for a value outside the field's options, if it has options.
pub open spec fn options_errors(options: Option<Vec<FieldOption>>, b: BaseField, v: JsonValue) -> Seq<FieldErrorView> {
    match options {
        Some(os) => error_if(!option_allowed(os@, v), b, " must be one of the allowed values"@),
        None => seq![],
    }
}

/// A value read as a date: a number, or a string that reads as a float.
pub open spec fn date_bits(v: JsonValue) -> Option<u64> {
    match v {
        JsonValue::Number(n) => Some(n.as_float.bits),
        JsonValue::String(s) => match s.float {
            Some(f) => Some(f.bits),
            None => None,
        },
        _ => None,
    }
}

/// The errors of a non-empty value for each kind of field.
pub open spec fn kind_errors(f: FieldDef, v: JsonValue) -> Seq<FieldErrorView> {
    let b = f.spec_base();
    match f {
        FieldDef::String(sf) => match v.spec_as_str() {
            None => seq![field_error(b, " must be a string"@)],
            Some(s) => {
                let pattern_errors = match sf.pattern {
                    Some(p) => error_if(
                        regex_outcome(p@, s) == Some(false),
                        b,
                        " does not match the required pattern"@,
                    ),
                    None => seq![],
                };
                pattern_errors + options_errors(sf.options, b, v)
            },
        },
        FieldDef::Number(nf) => match v.spec_as_float() {
            None => seq![field_error(b, " must be a number"@)],
            Some(n) => {
                let min_errors = match nf.min {
                    Some(m) => error_if(float_lt(n, m.bits), b, " must be at least "@ + m.text@),
                    None => seq![],
                };
                let max_errors = match nf.max {
                    Some(m) => error_if(float_lt(m.bits, n), b, " must be at most "@ + m.text@),
                    None => seq![],
                };
                min_errors + max_errors + options_errors(nf.options, b, v)
            },
        },
        FieldDef::Boolean(_) => error_if(!(v is Bool), b, " must be a boolean"@),
        FieldDef::Date(df) => match date_bits(v) {
            Some(n) => {
                let min_errors = match df.min {
                    Some(m) => error_if(float_lt(n, m.bits), b, " is before the minimum allowed date"@),
                    None => seq![],
                };
                let max_errors = match df.max {
                    Some(m) => error_if(float_lt(m.bits, n), b, " is after the maximum allowed date"@),
                    None => seq![],
                };
                min_errors + max_errors
            },
            None => error_if(!(v is String), b, " must be a date"@),
        },
        FieldDef::Url(_) => match v.spec_as_str() {
            None => seq![field_error(b, " must be a string"@)],
            Some(s) => error_if(
                !starts_with(s, "http://"@) && !starts_with(s, "https://"@),
                b,
                " must be a valid URL"@,
            ),
        },
        FieldDef::Slug(_) => match v.spec_as_str() {
            None => seq![field_error(b, " must be a string"@)],
            Some(s) => error_if(
                regex_outcome(slug_pattern(), s) == Some(false),
                b,
                " must contain only lowercase letters, numbers, and hyphens"@,
            ),
        },
        _ => seq![],
    }
}

/// The errors of a field's value: a required field left empty has the one error that it
/// is required; any other empty value is fine; a value that is there is checked by kind.
pub open spec fn value_errors(f: FieldDef, value: Option<JsonValue>) -> Seq<FieldErrorView> {
    if value_is_empty(value) {
        error_if(f.spec_base().required, f.spec_base(), " is required"@)
    } else {
        kind_errors(f, value->0)
    }
}

/// An optional reference as an optional value.
pub open spec fn deref_value(value: Option<&JsonValue>) -> Option<JsonValue> {
    match value {
        Some(v) => Some(*v),
        None => None,
    }
}

/// Whether a field is checked at all: it is neither hidden nor read-only.
pub open spec fn is_checked(f: FieldDef) -> bool {
    !f.spec_base().hidden && !f.spec_base().read_only
}

/// The errors of the fields from position `i` on, in field order, against `data`.
pub open spec fn fields_errors(fields: Seq<FieldDef>, data: JsonValue, i: int) -> Seq<FieldErrorView>
    decreases fields.len() - i,
{
    if i < 0 || i >= fields.len() {
        seq![]
    } else {
        let f = fields[i];
        let here = if is_checked(f) {
            value_errors(f, json_get(data, f.spec_base().name@))
        } else {
            seq![]
        };
        here + fields_errors(fields, data, i + 1)
    }
}

impl FieldDef {
    /// The settings common to every kind of field.
    pub open spec fn spec_base(self) -> BaseField {
        match self {
            FieldDef::String(f) => f.base,
            FieldDef::Text(f) => f.base,
            FieldDef::Richtext(f) => f.base,
            FieldDef::Number(f) => f.base,
            FieldDef::Boolean(f) => f.base,
            FieldDef::Date(f) => f.base,
            FieldDef::Url(f) => f.base,
            FieldDef::Slug(f) => f.base,
            FieldDef::Image(f) => f.base,
            FieldDef::Reference(f) => f.base,
            FieldDef::Array(f) => f.base,
        }
    }

    /// The kind's name, as the configuration writes it.
    pub open spec fn spec_field_type(self) -> Seq<char> {
        match self {
            FieldDef::String(_) => "string"@,
            FieldDef::Text(_) => "text"@,
            FieldDef::Richtext(_) => "richtext"@,
            FieldDef::Number(_) => "number"@,
            FieldDef::Boolean(_) => "boolean"@,
            FieldDef::Date(_) => "date"@,
            FieldDef::Url(_) => "url"@,
            FieldDef::Slug(_) => "slug"@,
            FieldDef::Image(_) => "image"@,
            FieldDef::Reference(_) => "reference"@,
            FieldDef::Array(_) => "array"@,
        }
    }

    /// The settings common to every kind of field.
    pub fn base(&self) -> (r: &BaseField)
        ensures
            *r == self.spec_base(),
    {
        match self {
            FieldDef::String(f) => &f.base,
            FieldDef::Text(f) => &f.base,
            FieldDef::Richtext(f) => &f.base,
            FieldDef::Number(f) => &f.base,
            FieldDef::Boolean(f) => &f.base,
            FieldDef::Date(f) => &f.base,
            FieldDef::Url(f) => &f.base,
            FieldDef::Slug(f) => &f.base,
            FieldDef::Image(f) => &f.base,
            FieldDef::Reference(f) => &f.base,
            FieldDef::Array(f) => &f.base,
        }
    }

    /// The kind's name, as the configuration writes it.
    pub fn field_type(&self) -> (r: &'static str)
        ensures
            r@ == self.spec_field_type(),
    {
        proof {
            reveal_strlit("string");
            reveal_strlit("text");
            reveal_strlit("richtext");
            reveal_strlit("number");
            reveal_strlit("boolean");
            reveal_strlit("date");
            reveal_strlit("url");
            reveal_strlit("slug");
            reveal_strlit("image");
            reveal_strlit("reference");
            reveal_strlit("array");
        }
        match self {
            FieldDef::String(_) => "string",
            FieldDef::Text(_) => "text",
            FieldDef::Richtext(_) => "richtext",
            FieldDef::Number(_) => "number",
            FieldDef::Boolean(_) => "boolean",
            FieldDef::Date(_) => "date",
            FieldDef::Url(_) => "url",
            FieldDef::Slug(_) => "slug",
            FieldDef::Image(_) => "image",
            FieldDef::Reference(_) => "reference",
            FieldDef::Array(_) => "array",
        }
    }

    /// Checks one field's value and lists what is wrong with it.
    pub fn validate_value(&self, value: Option<&JsonValue>) -> (r: Vec<FieldError>)
        ensures
            errors_view(r@) == value_errors(*self, deref_value(value)),
    {
        let base = self.base();
        let empty = match value {
            None => true,
            Some(v) => v.is_blank(),
        };
        if empty {
            let mut errors: Vec<FieldError> = Vec::new();
            if base.required {
                errors.push(make_error(base, " is required"));
            }
            proof {
                reveal_strlit(" is required");
            }
            assert(errors_view(errors@) =~= value_errors(*self, deref_value(value)));
            return errors;
        }
        let val = match value {
            Some(v) => v,
            None => {
                return Vec::new();
            },
        };
        let errors = self.kind_check(val);
        errors
    }

    /// The errors of a value that is there, by the field's kind.
    fn kind_check(&self, val: &JsonValue) -> (r: Vec<FieldError>)
        ensures
            errors_view(r@) == kind_errors(*self, *val),
    {
        let base = self.base();
        let mut errors: Vec<FieldError> = Vec::new();
        match self {
            FieldDef::String(f) => {
                let s = match val {
                    JsonValue::String(js) => &js.text,
                    _ => {
                        errors.push(make_error(base, " must be a string"));
                        proof { reveal_strlit(" must be a string"); }
                        assert(errors_view(errors@) =~= kind_errors(*self, *val));
                        return errors;
                    },
                };
                match &f.pattern {
                    Some(p) => {
                        if regex_test(p.as_str(), s.as_str()) == Some(false) {
                            errors.push(make_error(base, " does not match the required pattern"));
                        }
                    },
                    None => {},
                }
                proof { reveal_strlit(" does not match the required pattern"); }
                check_options(&mut errors, &f.options, base, val);
                assert(errors_view(errors@) =~= kind_errors(*self, *val));
            },
            FieldDef::Number(f) => {
                let n = match val {
                    JsonValue::Number(jn) => &jn.as_float,
                    _ => {
                        errors.push(make_error(base, " must be a number"));
                        proof { reveal_strlit(" must be a number"); }
                        assert(errors_view(errors@) =~= kind_errors(*self, *val));
                        return errors;
                    },
                };
                match &f.min {
                    Some(m) => {
                        if float_less(n, m) {
                            let what = glue(" must be at least ", m.text.as_str());
                            errors.push(make_error(base, what.as_str()));
                        }
                    },
                    None => {},
                }
                match &f.max {
                    Some(m) => {
                        if float_less(m, n) {
                            let what = glue(" must be at most ", m.text.as_str());
                            errors.push(make_error(base, what.as_str()));
                        }
                    },
                    None => {},
                }
                check_options(&mut errors, &f.options, base, val);
                assert(errors_view(errors@) =~= kind_errors(*self, *val));
            },
            FieldDef::Boolean(_) => {
                match val {
                    JsonValue::Bool(_) => {},
                    _ => {
                        errors.push(make_error(base, " must be a boolean"));
                    },
                }
                proof { reveal_strlit(" must be a boolean"); }
                assert(errors_view(errors@) =~= kind_errors(*self, *val));
            },
            FieldDef::Date(f) => {
                let n: Option<&Float64> = match val {
                    JsonValue::Number(jn) => Some(&jn.as_float),
                    JsonValue::String(js) => match &js.float {
                        Some(x) => Some(x),
                        None => None,
                    },
                    _ => None,
                };
                match n {
                    Some(n) => {
                        match &f.min {
                            Some(m) => {
                                if float_less(n, m) {
                                    errors.push(make_error(base, " is before the minimum allowed date"));
                                }
                            },
                            None => {},
                        }
                        match &f.max {
                            Some(m) => {
                                if float_less(m, n) {
                                    errors.push(make_error(base, " is after the maximum allowed date"));
                                }
                            },
                            None => {},
                        }
                    },
                    None => {
                        match val {
                            JsonValue::String(_) => {},
                            _ => {
                                errors.push(make_error(base, " must be a date"));
                            },
                        }
                    },
                }
                proof {
                    reveal_strlit(" is before the minimum allowed date");
                    reveal_strlit(" is after the maximum allowed date");
                    reveal_strlit(" must be a date");
                }
                assert(errors_view(errors@) =~= kind_errors(*self, *val));
            },
            FieldDef::Url(_) => {
                match val {
                    JsonValue::String(js) => {
                        let cs = crate::text::chars_of(js.text.as_str());
                        let http = crate::text::chars_of("http://");
                        let https = crate::text::chars_of("https://");
                        if !crate::text::occurs_at_exec(cs.as_slice(), http.as_slice(), 0)
                            && !crate::text::occurs_at_exec(cs.as_slice(), https.as_slice(), 0) {
                            errors.push(make_error(base, " must be a valid URL"));
                        }
                    },
                    _ => {
                        errors.push(make_error(base, " must be a string"));
                    },
                }
                proof {
                    reveal_strlit(" must be a valid URL");
                    reveal_strlit(" must be a string");
                }
                assert(errors_view(errors@) =~= kind_errors(*self, *val));
            },
            FieldDef::Slug(_) => {
                match val {
                    JsonValue::String(js) => {
                        if regex_test("^[a-z0-9]+(?:-[a-z0-9]+)*$", js.text.as_str()) == Some(false) {
                            errors.push(make_error(base, " must contain only lowercase letters, numbers, and hyphens"));
                        }
                    },
                    _ => {
                        errors.push(make_error(base, " must be a string"));
                    },
                }
                proof {
                    reveal_strlit(" must contain only lowercase letters, numbers, and hyphens");
                    reveal_strlit(" must be a string");
                }
                assert(errors_view(errors@) =~= kind_errors(*self, *val));
            },
            _ => {
                assert(errors_view(errors@) =~= kind_errors(*self, *val));
            },
        }
        errors
    }
}

/// Two texts one after the other.
fn glue(a: &str, b: &str) -> (r: String)
    ensures
        r@ == a@ + b@,
{
    let mut r = String::new();
    push_str(&mut r, a);
    push_str(&mut r, b);
    r
}

/// The error on field `b` whose message is its label followed by `what`.
fn make_error(b: &BaseField, what: &str) -> (r: FieldError)
    ensures
        r@ == field_error(*b, what@),
{
    let mut message = String::new();
    match &b.title {
        Some(t) => push_str(&mut message, t.as_str()),
        None => push_str(&mut message, b.name.as_str()),
    }
    push_str(&mut message, what);
    FieldError { field: b.name.clone(), message }
}

/// Whether one of the options holds a value equal to `v`, computed.
fn any_option_equal(options: &Vec<FieldOption>, v: &JsonValue) -> (r: bool)
    ensures
        r == option_allowed(options@, *v),
{
    let mut k: usize = 0;
    while k < options.len()
        invariant
            k <= options@.len(),
            forall|j: int| 0 <= j < k ==> !json_equal(#[trigger] options@[j].value, *v),
        decreases options@.len() - k,
    {
        if json_equals(&options[k].value, v) {
            return true;
        }
        k = k + 1;
    }
    false
}

/// Appends the error for a value outside the field's options, if it has options.
fn check_options(errors: &mut Vec<FieldError>, options: &Option<Vec<FieldOption>>, b: &BaseField, v: &JsonValue)
    ensures
        errors_view(final(errors)@) == errors_view(old(errors)@) + options_errors(*options, *b, *v),
{
    let ghost before = errors_view(errors@);
    match options {
        Some(os) => {
            if !any_option_equal(os, v) {
                errors.push(make_error(b, " must be one of the allowed values"));
            }
        },
        None => {},
    }
    proof {
        reveal_strlit(" must be one of the allowed values");
    }
    assert(errors_view(errors@) =~= before + options_errors(*options, *b, *v));
}

impl TypeDef {
    /// Checks a document's data against the type: every field that is neither hidden nor
    /// read-only is checked against the value under its name, and the errors are listed in
    /// field order.
    pub fn validate(&self, data: &JsonValue) -> (r: Vec<FieldError>)
        ensures
            errors_view(r@) == fields_errors(self.fields@, *data, 0),
    {
        let mut errors: Vec<FieldError> = Vec::new();
        let mut i: usize = 0;
        while i < self.fields.len()
            invariant
                i <= self.fields@.len(),
                fields_errors(self.fields@, *data, 0) == errors_view(errors@) + fields_errors(self.fields@, *data, i as int),
            decreases self.fields@.len() - i,
        {
            let f = &self.fields[i];
            let base = f.base();
            let ghost before = errors_view(errors@);
            if !base.hidden && !base.read_only {
                let value = get(data, base.name.as_str());
                let mut found = f.validate_value(value);
                let ghost fv = errors_view(found@);
                errors.append(&mut found);
                assert(errors_view(errors@) =~= before + fv);
            }
            i = i + 1;
            assert(fields_errors(self.fields@, *data, i - 1) == (if is_checked(self.fields@[i - 1]) {
                value_errors(self.fields@[i - 1], json_get(*data, self.fields@[i - 1].spec_base().name@))
            } else {
                seq![]
            }) + fields_errors(self.fields@, *data, i as int));
        }
        errors
    }
}

/// Whether every error of a list is about the field `name`.
pub open spec fn all_about(errs: Seq<FieldErrorView>, name: Seq<char>) -> bool {
    forall|k: int| 0 <= k < errs.len() ==> (#[trigger] errs[k]).field == name
}

/// A list of one optional error is about its field.
proof fn lemma_error_if_about(cond: bool, b: BaseField, what: Seq<char>)
    ensures
        all_about(error_if(cond, b, what), b.name@),
{
}

/// Two lists about a field together are about it.
proof fn lemma_concat_about(a: Seq<FieldErrorView>, c: Seq<FieldErrorView>, name: Seq<char>)
    requires
        all_about(a, name),
        all_about(c, name),
    ensures
        all_about(a + c, name),
{
    assert forall|k: int| 0 <= k < (a + c).len() implies (#[trigger] (a + c)[k]).field == name by {
        if k >= a.len() {
            assert((a + c)[k] == c[k - a.len()]);
        }
    }
}

/// The errors of one value are about its field.
pub proof fn lemma_value_errors_about(f: FieldDef, value: Option<JsonValue>)
    ensures
        all_about(value_errors(f, value), f.spec_base().name@),
{
    let b = f.spec_base();
    let name = b.name@;
    if value_is_empty(value) {
        lemma_error_if_about(b.required, b, " is required"@);
    } else {
        let v = value->0;
        match f {
            FieldDef::String(sf) => {
                match v.spec_as_str() {
                    None => {},
                    Some(st) => {
                        let pe = match sf.pattern {
                            Some(p) => error_if(regex_outcome(p@, st) == Some(false), b, " does not match the required pattern"@),
                            None => seq![],
                        };
                        let oe = options_errors(sf.options, b, v);
                        assert(all_about(pe, name));
                        assert(all_about(oe, name));
                        lemma_concat_about(pe, oe, name);
                    },
                }
            },
            FieldDef::Number(nf) => {
                match v.spec_as_float() {
                    None => {},
                    Some(n) => {
                        let a = match nf.min {
                            Some(m) => error_if(float_lt(n, m.bits), b, " must be at least "@ + m.text@),
                            None => seq![],
                        };
                        let c = match nf.max {
                            Some(m) => error_if(float_lt(m.bits, n), b, " must be at most "@ + m.text@),
                            None => seq![],
                        };
                        let oe = options_errors(nf.options, b, v);
                        assert(all_about(a, name));
                        assert(all_about(c, name));
                        assert(all_about(oe, name));
                        lemma_concat_about(a, c, name);
                        lemma_concat_about(a + c, oe, name);
                    },
                }
            },
            FieldDef::Date(df) => {
                match date_bits(v) {
                    Some(n) => {
                        let a = match df.min {
                            Some(m) => error_if(float_lt(n, m.bits), b, " is before the minimum allowed date"@),
                            None => seq![],
                        };
                        let c = match df.max {
                            Some(m) => error_if(float_lt(m.bits, n), b, " is after the maximum allowed date"@),
                            None => seq![],
                        };
                        assert(all_about(a, name));
                        assert(all_about(c, name));
                        lemma_concat_about(a, c, name);
                    },
                    None => {},
                }
            },
            _ => {},
        }
    }
}

/// Whether `name` is the name of a field that is checked, among `fields` from `i` on.
pub open spec fn names_checked_field(fields: Seq<FieldDef>, name: Seq<char>, i: int) -> bool {
    exists|j: int| i <= j < fields.len() && is_checked(#[trigger] fields[j]) && fields[j].spec_base().name@ == name
}

/// Law: hidden and read-only fields are never checked. Every error of a document's data
/// is about a field of its type that is neither hidden nor read-only.
pub proof fn law_errors_only_for_checked_fields(fields: Seq<FieldDef>, data: JsonValue, i: int)
    requires
        0 <= i,
    ensures
        forall|k: int|
            0 <= k < fields_errors(fields, data, i).len() ==> names_checked_field(
                fields,
                (#[trigger] fields_errors(fields, data, i)[k]).field,
                i,
            ),
    decreases fields.len() - i,
{
    if i < fields.len() {
        law_errors_only_for_checked_fields(fields, data, i + 1);
        let f = fields[i];
        let here = if is_checked(f) {
            value_errors(f, json_get(data, f.spec_base().name@))
        } else {
            seq![]
        };
        let rest = fields_errors(fields, data, i + 1);
        if is_checked(f) {
            lemma_value_errors_about(f, json_get(data, f.spec_base().name@));
        }
        assert forall|k: int| 0 <= k < fields_errors(fields, data, i).len() implies names_checked_field(
            fields,
            (#[trigger] fields_errors(fields, data, i)[k]).field,
            i,
        ) by {
            assert(fields_errors(fields, data, i) == here + rest);
            if k < here.len() {
                assert((here + rest)[k] == here[k]);
                assert(here[k].field == f.spec_base().name@);
                assert(is_checked(fields[i]));
            } else {
                assert((here + rest)[k] == rest[k - here.len()]);
                let name = rest[k - here.len()].field;
                assert(names_checked_field(fields, name, i + 1));
                let j = choose|j: int| i + 1 <= j < fields.len() && is_checked(#[trigger] fields[j])
                    && fields[j].spec_base().name@ == name;
                assert(i <= j < fields.len() && is_checked(fields[j]) && fields[j].spec_base().name@ == name);
            }
        }
    }
}

/// Law: an empty value (absent, null, `""` or `[]`) is fine for a field that is not
/// required, and is exactly one error, that the field is required, for one that is.
pub proof fn law_empty_values(f: FieldDef, value: Option<JsonValue>)
    requires
        value_is_empty(value),
    ensures
        !f.spec_base().required ==> value_errors(f, value).len() == 0,
        f.spec_base().required ==> value_errors(f, value) == seq![field_error(f.spec_base(), " is required"@)],
{
}

/// The refusal of a bound differs from the refusal of a value outside the options.
proof fn lemma_bound_error_differs(b: BaseField, t: Seq<char>)
    ensures
        field_error(b, " must be at least "@ + t) != field_error(b, " must be one of the allowed values"@),
        field_error(b, " must be at most "@ + t) != field_error(b, " must be one of the allowed values"@),
{
    reveal_strlit(" must be at least ");
    reveal_strlit(" must be at most ");
    reveal_strlit(" must be one of the allowed values");
    let l = field_label(b);
    let k: int = l.len() as int + 9;
    assert((l + (" must be at least "@ + t))[k] == 'a');
    assert((l + (" must be at most "@ + t))[k] == 'a');
    assert((l + " must be one of the allowed values"@)[k] == 'o');
}

/// Law: a number field with options accepts a number only when it equals one of the
/// options. A number equal to none of them gets the error that it must be one of the
/// allowed values, and one equal to some option does not; without bounds, such a number
/// is accepted exactly when it equals an option.
pub proof fn law_number_options(f: FieldDef, v: JsonValue)
    requires
        f matches FieldDef::Number(nf) && nf.options is Some,
        v is Number,
    ensures
        f matches FieldDef::Number(nf) && {
            let os = nf.options->Some_0@;
            let allowed = exists|k: int| 0 <= k < os.len() && json_equal(#[trigger] os[k].value, v);
            let err = field_error(f.spec_base(), " must be one of the allowed values"@);
            &&& value_errors(f, Some(v)).contains(err) <==> !allowed
            &&& (nf.min is None && nf.max is None) ==> (value_errors(f, Some(v)).len() == 0 <==> allowed)
        },
{
    let nf = f->Number_0;
    let b = f.spec_base();
    let err = field_error(b, " must be one of the allowed values"@);
    let errs = value_errors(f, Some(v));
    let n = v.spec_as_float()->Some_0;
    let min_errors = match nf.min {
        Some(m) => error_if(float_lt(n, m.bits), b, " must be at least "@ + m.text@),
        None => seq![],
    };
    let max_errors = match nf.max {
        Some(m) => error_if(float_lt(m.bits, n), b, " must be at most "@ + m.text@),
        None => seq![],
    };
    let opt = options_errors(nf.options, b, v);
    assert(errs == min_errors + max_errors + opt);
    match nf.min {
        Some(m) => lemma_bound_error_differs(b, m.text@),
        None => {},
    }
    match nf.max {
        Some(m) => lemma_bound_error_differs(b, m.text@),
        None => {},
    }
    assert(!min_errors.contains(err));
    assert(!max_errors.contains(err));
    if opt.len() > 0 {
        assert(errs[errs.len() - 1] == err);
    }
    if errs.contains(err) {
        let k = choose|k: int| 0 <= k < errs.len() && errs[k] == err;
        if k < min_errors.len() {
            assert(min_errors[k] == err);
        } else if k < min_errors.len() + max_errors.len() {
            assert(max_errors[k - min_errors.len()] == err);
        } else {
            assert(opt[k - min_errors.len() - max_errors.len()] == err);
        }
    }
}

} // verus!
