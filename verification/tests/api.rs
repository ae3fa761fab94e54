use tinycms::api::{
    asset_path, check_user_update, document_data, document_status, is_initialized, prepare_query,
    require_deleted, settings_change_requested, token_name, validate_doc, ListQuery,
};
use tinycms::error::Error;
use tinycms::json::{JsonMember, JsonString, JsonValue};
use tinycms::models::user::{UpdateUser, UserRole, UserStatus};
use tinycms::models::workspace::UpdateWorkspaceSettings;
use tinycms::query::error::QueryError;
use tinycms::schema::field::{BaseField, FieldDef, TextFieldDef, TypeDef};

fn text(s: &str) -> JsonValue {
    JsonValue::String(JsonString { text: s.to_string(), float: None })
}

fn base(name: &str, required: bool) -> BaseField {
    BaseField { name: name.to_string(), required, title: None, description: None, hidden: false, read_only: false }
}

fn post_type() -> TypeDef {
    TypeDef {
        name: "post".to_string(),
        fields: vec![FieldDef::Text(TextFieldDef { base: base("title", true), placeholder: None, rows: None })],
    }
}

#[test]
fn query_pipeline_runs() {
    let params = JsonValue::Object(vec![JsonMember { key: "s".to_string(), value: text("published") }]);
    let t = prepare_query("SELECT id FROM documents WHERE status = :s", Some(&params), UserRole::Viewer, &vec![])
        .ok()
        .unwrap();
    assert!(t.sql.contains("$1"), "got: {}", t.sql);
    assert!(t.sql.contains("LIMIT 50"), "got: {}", t.sql);
    assert_eq!(t.params.len(), 1);
}

#[test]
fn query_pipeline_refusals_are_bad_requests() {
    match prepare_query("SELECT * FROM media", None, UserRole::Viewer, &vec![]) {
        Err(Error::BadRequest(m)) => assert_eq!(m, "table 'media' is not accessible with your role"),
        _ => panic!("expected a refusal"),
    }
    assert!(prepare_query("SELECT * FROM media", None, UserRole::Editor, &vec![]).is_ok());
    match prepare_query("SELEC", None, UserRole::Admin, &vec![]) {
        Err(Error::BadRequest(m)) => assert!(m.starts_with("parse error: "), "got: {m}"),
        _ => panic!("expected a parse error"),
    }
    assert!(prepare_query("SELECT * FROM post", None, UserRole::Viewer, &vec![post_type()]).is_ok());
}

#[test]
fn query_errors_become_bad_requests() {
    match Error::from_query(QueryError::Parse("x".to_string())) {
        Error::BadRequest(m) => assert_eq!(m, "parse error: x"),
        _ => panic!("expected a bad request"),
    }
}

#[test]
fn error_statuses() {
    assert_eq!(Error::NotFound.status(), 404);
    assert_eq!(Error::Unauthorized.status(), 401);
    assert_eq!(Error::Forbidden.status(), 403);
    assert_eq!(Error::BadRequest("m".to_string()).status(), 400);
    assert_eq!(Error::Validation(vec![]).status(), 422);
    assert_eq!(Error::Database { row_not_found: true }.status(), 404);
    assert_eq!(Error::Database { row_not_found: false }.status(), 500);
    assert_eq!(Error::Internal.status(), 500);
    assert_eq!(Error::Database { row_not_found: false }.message(), "internal server error");
    assert_eq!(Error::BadRequest("m".to_string()).message(), "m");
}

#[test]
fn documents_checked_against_their_type() {
    let types = vec![post_type()];
    let empty = JsonValue::Object(vec![]);
    match validate_doc(&types, "post", &empty) {
        Err(Error::Validation(errors)) => {
            assert_eq!(errors.len(), 1);
            assert_eq!(errors[0].field, "title");
            assert_eq!(errors[0].message, "title is required");
        },
        _ => panic!("expected a validation failure"),
    }
    assert!(validate_doc(&types, "page", &empty).is_ok());
    let ok = JsonValue::Object(vec![JsonMember { key: "title".to_string(), value: text("Hi") }]);
    assert!(validate_doc(&types, "post", &ok).is_ok());
}

#[test]
fn defaults_for_new_documents() {
    assert_eq!(document_status(None), "draft");
    assert_eq!(document_status(Some("published")), "published");
    assert!(matches!(document_data(None), JsonValue::Object(ref m) if m.is_empty()));
}

#[test]
fn paging() {
    let q = ListQuery { doc_type: None, status: None, limit: None, offset: None };
    assert_eq!(q.window(), (50, 0));
    let q = ListQuery { doc_type: None, status: None, limit: Some(1000), offset: Some(20) };
    assert_eq!(q.window(), (200, 20));
    let q = ListQuery { doc_type: None, status: None, limit: Some(-5), offset: None };
    assert_eq!(q.window(), (-5, 0));
}

#[test]
fn edits_must_change_something() {
    let u = UpdateUser { name: None, status: None, role: None };
    match check_user_update(&u) {
        Err(Error::BadRequest(m)) => assert_eq!(m, "no fields to update"),
        _ => panic!("expected a refusal"),
    }
    let u = UpdateUser { name: None, status: Some(UserStatus::Active), role: None };
    assert!(check_user_update(&u).is_ok());
    let s = UpdateWorkspaceSettings { name: None, require_approval: None, default_role: None };
    assert!(!settings_change_requested(&s));
    let s = UpdateWorkspaceSettings { name: None, require_approval: Some(false), default_role: None };
    assert!(settings_change_requested(&s));
}

#[test]
fn token_names_trimmed() {
    assert_eq!(token_name("  ci  ").ok().unwrap(), "ci");
    match token_name("   ") {
        Err(Error::BadRequest(m)) => assert_eq!(m, "name is required"),
        _ => panic!("expected a refusal"),
    }
}

#[test]
fn small_decisions() {
    assert!(require_deleted(0).is_err());
    assert!(require_deleted(1).is_ok());
    assert!(is_initialized(Some(1)));
    assert!(!is_initialized(Some(0)));
    assert!(!is_initialized(None));
    assert_eq!(asset_path("/"), "index.html");
    assert_eq!(asset_path(""), "index.html");
    assert_eq!(asset_path("//assets/app.js"), "assets/app.js");
}
