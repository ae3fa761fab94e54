//! The library's own model of a JSON value, as the request bodies, documents and
//! query parameters carry it.
//!
//! A 64-bit float never appears here as such: it is carried by [`Float64`], its IEEE-754
//! bit pattern (by which floats are compared) together with its decimal rendering (by
//! which it is printed). Whoever builds a value from a parsed document fills both.

use vstd::prelude::*;

verus! {

/// A 64-bit float: its IEEE-754 bits and its shortest decimal rendering.
#[derive(Clone)]
pub struct Float64 {
    pub bits: u64,
    pub text: String,
}

/// How a JSON number is held: a non-negative integer, a negative integer, or a float.
#[derive(Clone)]
pub enum NumberKind {
    PosInt(u64),
    NegInt(i64),
    Float(Float64),
}

/// A JSON number: how it is held, its value read as a 64-bit float, and its text as it is
/// written in JSON.
#[derive(Clone)]
pub struct JsonNumber {
    pub kind: NumberKind,
    pub as_float: Float64,
    pub text: String,
}

/// A JSON string, together with its reading as a 64-bit float where its text is one.
#[derive(Clone)]
pub struct JsonString {
    pub text: String,
    pub float: Option<Float64>,
}

/// One member of a JSON object.
pub struct JsonMember {
    pub key: String,
    pub value: JsonValue,
}

/// A JSON value.
pub enum JsonValue {
    Null,
    Bool(bool),
    Number(JsonNumber),
    String(JsonString),
    Array(Vec<JsonValue>),
    Object(Vec<JsonMember>),
}

// ---------------------------------------------------------------------------
// Floats, compared by their bits
// ---------------------------------------------------------------------------

/// Whether the bits encode a NaN.
pub open spec fn float_is_nan(b: u64) -> bool {
    (b / 0x10_0000_0000_0000) % 0x800 == 0x7ff && b % 0x10_0000_0000_0000 != 0
}

/// The magnitude part of the bits (everything but the sign), which orders non-negative floats.
pub open spec fn float_magnitude(b: u64) -> int {
    (b % 0x8000_0000_0000_0000) as int
}

/// Whether the sign bit is set.
pub open spec fn float_negative(b: u64) -> bool {
    b >= 0x8000_0000_0000_0000
}

/// A key that orders non-NaN floats as the numbers they stand for (both zeros map to 0).
pub open spec fn float_key(b: u64) -> int {
    if float_negative(b) {
        -float_magnitude(b)
    } else {
        float_magnitude(b)
    }
}

/// `a < b` on the floats the bits stand for (false when either is NaN).
pub open spec fn float_lt(a: u64, b: u64) -> bool {
    !float_is_nan(a) && !float_is_nan(b) && float_key(a) < float_key(b)
}

/// `a == b` on the floats the bits stand for (`0.0 == -0.0`; NaN equals nothing).
pub open spec fn float_eq(a: u64, b: u64) -> bool {
    !float_is_nan(a) && !float_is_nan(b) && float_key(a) == float_key(b)
}

/// Whether the bits encode a NaN, computed.
pub fn is_nan_bits(b: u64) -> (r: bool)
    ensures
        r == float_is_nan(b),
{
    (b / 0x10_0000_0000_0000) % 0x800 == 0x7ff && b % 0x10_0000_0000_0000 != 0
}

/// `a < b` on floats given by their bits, computed.
pub fn float_less(a: &Float64, b: &Float64) -> (r: bool)
    ensures
        r == float_lt(a.bits, b.bits),
{
    if is_nan_bits(a.bits) || is_nan_bits(b.bits) {
        return false;
    }
    let ma = a.bits % 0x8000_0000_0000_0000;
    let mb = b.bits % 0x8000_0000_0000_0000;
    let na = a.bits >= 0x8000_0000_0000_0000;
    let nb = b.bits >= 0x8000_0000_0000_0000;
    if na && nb {
        mb < ma
    } else if na {
        !(ma == 0 && mb == 0)
    } else if nb {
        false
    } else {
        ma < mb
    }
}

/// `a == b` on floats given by their bits, computed.
pub fn float_equal(a: &Float64, b: &Float64) -> (r: bool)
    ensures
        r == float_eq(a.bits, b.bits),
{
    !float_less(a, b) && !float_less(b, a) && !is_nan_bits(a.bits) && !is_nan_bits(b.bits)
}

// ---------------------------------------------------------------------------
// Reading values
// ---------------------------------------------------------------------------

impl JsonValue {
    /// `Value::as_str`: the text of a string value.
    pub open spec fn spec_as_str(self) -> Option<Seq<char>> {
        match self {
            JsonValue::String(s) => Some(s.text@),
            _ => None,
        }
    }

    /// `Value::as_f64`: a number read as a float.
    pub open spec fn spec_as_float(self) -> Option<u64> {
        match self {
            JsonValue::Number(n) => Some(n.as_float.bits),
            _ => None,
        }
    }

    /// `Value::as_i64`: a number that is an integer within `i64`.
    pub open spec fn spec_as_i64(self) -> Option<i64> {
        match self {
            JsonValue::Number(n) => match n.kind {
                NumberKind::PosInt(u) => if u <= i64::MAX { Some(u as i64) } else { None },
                NumberKind::NegInt(i) => Some(i),
                NumberKind::Float(_) => None,
            },
            _ => None,
        }
    }

    /// Whether the value counts as empty for a field: absent, null, `""` or `[]`.
    pub open spec fn spec_is_blank(self) -> bool {
        match self {
            JsonValue::Null => true,
            JsonValue::String(s) => s.text@.len() == 0,
            JsonValue::Array(a) => a@.len() == 0,
            _ => false,
        }
    }

    /// `Value::as_i64`, computed.
    pub fn as_i64(&self) -> (r: Option<i64>)
        ensures
            r == self.spec_as_i64(),
    {
        match self {
            JsonValue::Number(n) => match &n.kind {
                NumberKind::PosInt(u) => if *u <= 9223372036854775807u64 {
                    Some(*u as i64)
                } else {
                    None
                },
                NumberKind::NegInt(i) => Some(*i),
                NumberKind::Float(_) => None,
            },
            _ => None,
        }
    }

    /// Whether the value counts as empty for a field, computed.
    pub fn is_blank(&self) -> (r: bool)
        ensures
            r == self.spec_is_blank(),
    {
        match self {
            JsonValue::Null => true,
            JsonValue::String(s) => s.text.as_str().unicode_len() == 0,
            JsonValue::Array(a) => a.len() == 0,
            _ => false,
        }
    }
}

/// The value stored under `key` in an object's members (the first member with that key).
pub open spec fn member_lookup(members: Seq<JsonMember>, key: Seq<char>) -> Option<JsonValue>
    decreases members.len(),
{
    if members.len() == 0 {
        None
    } else if members[0].key@ == key {
        Some(members[0].value)
    } else {
        member_lookup(members.drop_first(), key)
    }
}

/// `Value::get(key)`: the member of an object under `key`; `None` for a non-object.
pub open spec fn json_get(v: JsonValue, key: Seq<char>) -> Option<JsonValue> {
    match v {
        JsonValue::Object(m) => member_lookup(m@, key),
        _ => None,
    }
}

/// Looks up `key` among an object's members.
pub fn lookup_member<'a>(members: &'a Vec<JsonMember>, key: &str) -> (r: Option<&'a JsonValue>)
    ensures
        r matches Some(v) ==> member_lookup(members@, key@) == Some(*v),
        r is None ==> member_lookup(members@, key@) is None,
{
    let mut i: usize = 0;
    assert(members@.skip(0) =~= members@);
    while i < members.len()
        invariant
            i <= members@.len(),
            member_lookup(members@, key@) == member_lookup(members@.skip(i as int), key@),
        decreases members@.len() - i,
    {
        assert(members@.skip(i as int).drop_first() =~= members@.skip(i + 1));
        if crate::text::str_eq(members[i].key.as_str(), key) {
            return Some(&members[i].value);
        }
        i = i + 1;
    }
    None
}

/// `Value::get(key)`, computed.
pub fn get<'a>(v: &'a JsonValue, key: &str) -> (r: Option<&'a JsonValue>)
    ensures
        r matches Some(x) ==> json_get(*v, key@) == Some(*x),
        r is None ==> json_get(*v, key@) is None,
{
    match v {
        JsonValue::Object(m) => lookup_member(m, key),
        _ => None,
    }
}

// ---------------------------------------------------------------------------
// Equality, as `serde_json::Value` compares values
// ---------------------------------------------------------------------------

/// Equality of numbers: same representation and equal value (floats compare as floats).
pub open spec fn number_equal(a: NumberKind, b: NumberKind) -> bool {
    match (a, b) {
        (NumberKind::PosInt(x), NumberKind::PosInt(y)) => x == y,
        (NumberKind::NegInt(x), NumberKind::NegInt(y)) => x == y,
        (NumberKind::Float(x), NumberKind::Float(y)) => float_eq(x.bits, y.bits),
        _ => false,
    }
}

/// Whether every member of `a` has a member of `b` under the same key with an equal value.
pub open spec fn members_within(a: Seq<JsonMember>, b: Seq<JsonMember>) -> bool
    decreases a, 0nat,
{
    if a.len() == 0 {
        true
    } else {
        &&& match member_lookup(b, a[0].key@) {
            Some(w) => json_equal(a[0].value, w),
            None => false,
        }
        &&& members_within(a.drop_first(), b)
    }
}

/// Element-wise equality of two arrays.
pub open spec fn elements_equal(a: Seq<JsonValue>, b: Seq<JsonValue>) -> bool
    decreases a, 0nat,
{
    if a.len() != b.len() {
        false
    } else if a.len() == 0 {
        true
    } else {
        json_equal(a[0], b[0]) && elements_equal(a.drop_first(), b.drop_first())
    }
}

/// Equality of JSON values: objects are equal when they have the same keys with equal values.
pub open spec fn json_equal(a: JsonValue, b: JsonValue) -> bool
    decreases a, 1nat,
{
    match (a, b) {
        (JsonValue::Null, JsonValue::Null) => true,
        (JsonValue::Bool(x), JsonValue::Bool(y)) => x == y,
        (JsonValue::Number(x), JsonValue::Number(y)) => number_equal(x.kind, y.kind),
        (JsonValue::String(x), JsonValue::String(y)) => x.text@ == y.text@,
        (JsonValue::Array(x), JsonValue::Array(y)) => elements_equal(x@, y@),
        (JsonValue::Object(x), JsonValue::Object(y)) => {
            x@.len() == y@.len() && members_within(x@, y@)
        },
        _ => false,
    }
}

/// Equality of numbers, computed.
fn numbers_equal(a: &NumberKind, b: &NumberKind) -> (r: bool)
    ensures
        r == number_equal(*a, *b),
{
    match (a, b) {
        (NumberKind::PosInt(x), NumberKind::PosInt(y)) => *x == *y,
        (NumberKind::NegInt(x), NumberKind::NegInt(y)) => *x == *y,
        (NumberKind::Float(x), NumberKind::Float(y)) => float_equal(x, y),
        _ => false,
    }
}

/// Element-wise equality of two arrays from position `i` on, computed.
fn elements_equal_from(a: &Vec<JsonValue>, b: &Vec<JsonValue>, i: usize) -> (r: bool)
    requires
        i <= a@.len(),
        i <= b@.len(),
    ensures
        r == elements_equal(a@.skip(i as int), b@.skip(i as int)),
    decreases a@, a@.len() - i,
{
    if a.len() != b.len() {
        return false;
    }
    if i == a.len() {
        return true;
    }
    assert(a@.skip(i as int).drop_first() =~= a@.skip(i + 1));
    assert(b@.skip(i as int).drop_first() =~= b@.skip(i + 1));
    if !json_equals(&a[i], &b[i]) {
        return false;
    }
    elements_equal_from(a, b, i + 1)
}

/// Whether every member of `a` from position `i` on has an equal member under its key in
/// `b`, computed.
fn members_within_from(a: &Vec<JsonMember>, b: &Vec<JsonMember>, i: usize) -> (r: bool)
    requires
        i <= a@.len(),
    ensures
        r == members_within(a@.skip(i as int), b@),
    decreases a@, a@.len() - i,
{
    if i == a.len() {
        return true;
    }
    assert(a@.skip(i as int).drop_first() =~= a@.skip(i + 1));
    let ok = match lookup_member(b, a[i].key.as_str()) {
        Some(w) => {
            assert(decreases_to!(a@ => a@[i as int].value));
            json_equals(&a[i].value, w)
        },
        None => false,
    };
    if !ok {
        return false;
    }
    members_within_from(a, b, i + 1)
}

/// Equality of JSON values, as `serde_json::Value` compares them, computed.
pub fn json_equals(a: &JsonValue, b: &JsonValue) -> (r: bool)
    ensures
        r == json_equal(*a, *b),
    decreases a, 1nat,
{
    match (a, b) {
        (JsonValue::Null, JsonValue::Null) => true,
        (JsonValue::Bool(x), JsonValue::Bool(y)) => *x == *y,
        (JsonValue::Number(x), JsonValue::Number(y)) => numbers_equal(&x.kind, &y.kind),
        (JsonValue::String(x), JsonValue::String(y)) => crate::text::str_eq(x.text.as_str(), y.text.as_str()),
        (JsonValue::Array(x), JsonValue::Array(y)) => {
            assert(x@.skip(0) =~= x@);
            assert(y@.skip(0) =~= y@);
            if x.len() != y.len() {
                return false;
            }
            elements_equal_from(x, y, 0)
        },
        (JsonValue::Object(x), JsonValue::Object(y)) => {
            assert(x@.skip(0) =~= x@);
            x.len() == y.len() && members_within_from(x, y, 0)
        },
        _ => false,
    }
}

// ---------------------------------------------------------------------------
// Writing scalars as JSON
// ---------------------------------------------------------------------------

/// The hexadecimal digit of `d < 16`, in lowercase.
pub open spec fn hex_digit(d: nat) -> char {
    if d < 10 {
        (d + 48) as char
    } else {
        (d + 87) as char
    }
}

/// The JSON text `serde_json` writes for a string: the string in double quotes, with
/// its special characters escaped.
pub uninterp spec fn json_quoted(s: Seq<char>) -> Seq<char>;

/// `serde_json::to_string` on a string slice (which never fails for a string; an error
/// would be written as nothing); named by [`json_quoted`].
#[verifier::external_body]
fn json_quote(s: &str) -> (r: String)
    ensures
        r@ == json_quoted(s@),
{
    match serde_json::to_string(s) {
        Ok(t) => t,
        Err(_) => String::new(),
    }
}

/// A scalar JSON value as JSON text (arrays and objects are written as nothing here).
pub open spec fn scalar_json(v: JsonValue) -> Seq<char> {
    match v {
        JsonValue::Null => "null"@,
        JsonValue::Bool(b) => if b { "true"@ } else { "false"@ },
        JsonValue::Number(n) => n.text@,
        JsonValue::String(s) => json_quoted(s.text@),
        _ => seq![],
    }
}

/// Writes a scalar JSON value as JSON text.
pub fn scalar_to_json(v: &JsonValue) -> (r: String)
    ensures
        r@ == scalar_json(*v),
{
    match v {
        JsonValue::Null => "null".to_string(),
        JsonValue::Bool(b) => if *b { "true".to_string() } else { "false".to_string() },
        JsonValue::Number(n) => n.text.clone(),
        JsonValue::String(s) => json_quote(s.text.as_str()),
        _ => String::new(),
    }
}

} // verus!
