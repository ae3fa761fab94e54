use tinycms::json::{Float64, JsonMember, JsonNumber, JsonString, JsonValue, NumberKind};
use tinycms::schema::field::{
    BaseField, BooleanFieldDef, DateFieldDef, FieldDef, FieldOption, NumberFieldDef, SlugFieldDef, StringFieldDef,
    TypeDef, UrlFieldDef,
};

fn base(name: &str, required: bool) -> BaseField {
    BaseField { name: name.to_string(), required, title: None, description: None, hidden: false, read_only: false }
}

fn float(f: f64) -> Float64 {
    Float64 { bits: f.to_bits(), text: format!("{f}") }
}

fn text(s: &str) -> JsonValue {
    let f = s.parse::<f64>().ok().map(float);
    JsonValue::String(JsonString { text: s.to_string(), float: f })
}

fn integer(i: u64) -> JsonValue {
    JsonValue::Number(JsonNumber { kind: NumberKind::PosInt(i), as_float: float(i as f64), text: i.to_string() })
}

fn messages(f: &FieldDef, v: Option<&JsonValue>) -> Vec<String> {
    f.validate_value(v).into_iter().map(|e| e.message).collect()
}

#[test]
fn required_and_empty() {
    let mut b = base("title", true);
    b.title = Some("Title".to_string());
    let f = FieldDef::Url(UrlFieldDef { base: b, placeholder: None });
    assert_eq!(messages(&f, None), vec!["Title is required"]);
    assert_eq!(messages(&f, Some(&JsonValue::Null)), vec!["Title is required"]);
    assert_eq!(messages(&f, Some(&text(""))), vec!["Title is required"]);
    assert_eq!(messages(&f, Some(&JsonValue::Array(vec![]))), vec!["Title is required"]);
    let g = FieldDef::Url(UrlFieldDef { base: base("u", false), placeholder: None });
    assert!(messages(&g, None).is_empty());
}

#[test]
fn urls() {
    let f = FieldDef::Url(UrlFieldDef { base: base("u", false), placeholder: None });
    assert!(messages(&f, Some(&text("https://x"))).is_empty());
    assert!(messages(&f, Some(&text("http://x"))).is_empty());
    assert_eq!(messages(&f, Some(&text("ftp://x"))), vec!["u must be a valid URL"]);
    assert_eq!(messages(&f, Some(&integer(3))), vec!["u must be a string"]);
}

#[test]
fn slugs() {
    let f = FieldDef::Slug(SlugFieldDef { base: base("s", false), source: None });
    assert!(messages(&f, Some(&text("my-post-2"))).is_empty());
    assert_eq!(
        messages(&f, Some(&text("My Post"))),
        vec!["s must contain only lowercase letters, numbers, and hyphens"]
    );
    assert_eq!(messages(&f, Some(&text("a--b"))).len(), 1);
}

#[test]
fn strings_with_pattern_and_options() {
    let f = FieldDef::String(StringFieldDef {
        base: base("c", false),
        placeholder: None,
        options: Some(vec![
            FieldOption { label: "Red".to_string(), value: text("red") },
            FieldOption { label: "Blue".to_string(), value: text("blue") },
        ]),
        pattern: Some("^[a-z]+$".to_string()),
    });
    assert!(messages(&f, Some(&text("red"))).is_empty());
    assert_eq!(messages(&f, Some(&text("green"))), vec!["c must be one of the allowed values"]);
    assert_eq!(
        messages(&f, Some(&text("Green"))),
        vec!["c does not match the required pattern", "c must be one of the allowed values"]
    );
    let bad_pattern = FieldDef::String(StringFieldDef {
        base: base("c", false),
        placeholder: None,
        options: None,
        pattern: Some("(".to_string()),
    });
    assert!(messages(&bad_pattern, Some(&text("x"))).is_empty());
    assert_eq!(messages(&bad_pattern, Some(&JsonValue::Bool(true))), vec!["c must be a string"]);
}

#[test]
fn numbers_with_bounds() {
    let f = FieldDef::Number(NumberFieldDef {
        base: base("n", false),
        placeholder: None,
        options: None,
        min: Some(float(1.5)),
        max: Some(float(10.0)),
    });
    assert!(messages(&f, Some(&integer(5))).is_empty());
    assert_eq!(messages(&f, Some(&integer(1))), vec!["n must be at least 1.5"]);
    assert_eq!(messages(&f, Some(&integer(11))), vec!["n must be at most 10"]);
    assert_eq!(messages(&f, Some(&text("5"))), vec!["n must be a number"]);
}

#[test]
fn booleans_and_dates() {
    let b = FieldDef::Boolean(BooleanFieldDef { base: base("b", false) });
    assert!(messages(&b, Some(&JsonValue::Bool(false))).is_empty());
    assert_eq!(messages(&b, Some(&integer(1))), vec!["b must be a boolean"]);
    let d = FieldDef::Date(DateFieldDef { base: base("d", false), min: Some(float(100.0)), max: Some(float(200.0)) });
    assert!(messages(&d, Some(&integer(150))).is_empty());
    assert_eq!(messages(&d, Some(&integer(50))), vec!["d is before the minimum allowed date"]);
    assert_eq!(messages(&d, Some(&text("250"))), vec!["d is after the maximum allowed date"]);
    assert!(messages(&d, Some(&text("2024-01-01"))).is_empty());
    assert_eq!(messages(&d, Some(&JsonValue::Bool(true))), vec!["d must be a date"]);
}

#[test]
fn hidden_and_read_only_fields_skipped() {
    let mut hidden = base("h", true);
    hidden.hidden = true;
    let mut ro = base("r", true);
    ro.read_only = true;
    let t = TypeDef {
        name: "t".to_string(),
        fields: vec![
            FieldDef::Boolean(BooleanFieldDef { base: hidden }),
            FieldDef::Boolean(BooleanFieldDef { base: ro }),
            FieldDef::Boolean(BooleanFieldDef { base: base("x", true) }),
        ],
    };
    let data = JsonValue::Object(vec![JsonMember { key: "x".to_string(), value: integer(1) }]);
    let errors = t.validate(&data);
    assert_eq!(errors.len(), 1);
    assert_eq!(errors[0].field, "x");
    assert_eq!(errors[0].message, "x must be a boolean");
    let not_object = JsonValue::Bool(true);
    assert_eq!(t.validate(&not_object).len(), 1);
}

#[test]
fn field_kinds_named() {
    let f = FieldDef::Slug(SlugFieldDef { base: base("s", false), source: None });
    assert_eq!(f.field_type(), "slug");
    assert_eq!(f.base().name, "s");
}
