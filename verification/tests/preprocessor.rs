use tinycms::json::{JsonMember, JsonString, JsonValue};
use tinycms::query::preprocessor::{count_positional, expand, Param};

fn text(s: &str) -> JsonValue {
    JsonValue::String(JsonString { text: s.to_string(), float: None })
}

fn array(items: Vec<JsonValue>) -> JsonValue {
    JsonValue::Array(items)
}

fn object(members: Vec<(&str, JsonValue)>) -> JsonValue {
    JsonValue::Object(
        members
            .into_iter()
            .map(|(k, v)| JsonMember { key: k.to_string(), value: v })
            .collect(),
    )
}

#[test]
fn positional_correct_count() {
    let params = array(vec![text("blog"), text("published")]);
    let r = expand(
        "SELECT * FROM documents WHERE type = $1 AND status = $2",
        Some(&params),
    )
    .ok()
    .unwrap();
    assert_eq!(r.params.len(), 2);
}

#[test]
fn positional_wrong_count_errors() {
    let params = array(vec![text("blog"), text("extra")]);
    let r = expand("SELECT * FROM documents WHERE type = $1", Some(&params));
    assert!(r.is_err());
}

#[test]
fn named_replaces_correctly() {
    let params = object(vec![("type", text("blog")), ("status", text("published"))]);
    let r = expand(
        "SELECT * FROM documents WHERE type = :type AND status = :status",
        Some(&params),
    )
    .ok()
    .unwrap();
    assert!(r.sql.contains("$1") || r.sql.contains("$2"));
    assert_eq!(r.params.len(), 2);
}

#[test]
fn named_missing_param_errors() {
    let params = object(vec![("type", text("blog"))]);
    let r = expand("SELECT * FROM documents WHERE type = :missing", Some(&params));
    assert!(r.is_err());
}

#[test]
fn no_params_passthrough() {
    let sql = "SELECT * FROM documents LIMIT 10";
    let r = expand(sql, None).ok().unwrap();
    assert_eq!(r.sql, sql);
    assert!(r.params.is_empty());
}

#[test]
fn named_parameters_numbered_by_first_appearance() {
    let params = object(vec![("a", text("x")), ("b", text("y"))]);
    let r = expand("SELECT * FROM documents WHERE x = :b OR y = :a OR z = :b", Some(&params))
        .ok()
        .unwrap();
    assert_eq!(r.sql, "SELECT * FROM documents WHERE x = $1 OR y = $2 OR z = $1");
    assert_eq!(r.params.len(), 2);
    assert!(matches!(&r.params[0], Param::Text(t) if t == "y"));
    assert!(matches!(&r.params[1], Param::Text(t) if t == "x"));
}

#[test]
fn named_parameters_inside_quotes_are_kept() {
    let params = object(vec![("a", text("x"))]);
    let r = expand("SELECT ':a' FROM documents WHERE t = :a", Some(&params)).ok().unwrap();
    assert_eq!(r.sql, "SELECT ':a' FROM documents WHERE t = $1");
}

#[test]
fn wrong_count_message() {
    let params = array(vec![text("blog"), text("extra")]);
    let r = expand("SELECT * FROM documents WHERE type = $1", Some(&params));
    match r {
        Err(e) => assert_eq!(
            e.message(),
            "query has 1 positional parameter(s) but 2 value(s) were supplied"
        ),
        Ok(_) => panic!("expected an error"),
    }
}

#[test]
fn missing_name_message() {
    let params = object(vec![("type", text("blog"))]);
    match expand("SELECT * FROM documents WHERE type = :missing", Some(&params)) {
        Err(e) => assert_eq!(e.message(), "parameter :missing not found in params"),
        Ok(_) => panic!("expected an error"),
    }
}

#[test]
fn scalar_params_refused() {
    let v = JsonValue::Bool(true);
    match expand("SELECT 1", Some(&v)) {
        Err(e) => assert_eq!(e.message(), "params must be an array or object, got true"),
        Ok(_) => panic!("expected an error"),
    }
    let s = text("a\"b");
    match expand("SELECT 1", Some(&s)) {
        Err(e) => assert_eq!(e.message(), "params must be an array or object, got \"a\\\"b\""),
        Ok(_) => panic!("expected an error"),
    }
}

#[test]
fn positional_count_is_highest_placeholder() {
    assert_eq!(count_positional("SELECT $3, $1"), 3);
    assert_eq!(count_positional("SELECT 1"), 0);
    assert_eq!(count_positional("SELECT $ , $x"), 0);
    assert_eq!(count_positional("SELECT $99999999999999999999999"), 0);
}
