use tinycms::query::executor::{column_kind, insert_nested, ColumnKind};
use tinycms::json::{JsonMember, JsonString, JsonValue, get};
use tinycms::schema::config::StorageConfig;
use tinycms::storage::{object_url, plan_upload, plan_upload_with, storage_settings, upload_key, StorageEnv};

fn text(s: &str) -> JsonValue {
    JsonValue::String(JsonString { text: s.to_string(), float: None })
}

fn none_env() -> StorageEnv {
    StorageEnv { region: None, access_key_id: None, secret_access_key: None, endpoint: None }
}

#[test]
fn settings_defaults_and_fallbacks() {
    let cfg = StorageConfig { bucket: "b".to_string(), region: None, access_key_id: None, secret_access_key: None, endpoint: None };
    let s = storage_settings(cfg, none_env());
    assert_eq!(s.region, "us-east-1");
    assert_eq!(s.access_key_id, "");
    assert_eq!(s.base_url, "https://s3.us-east-1.amazonaws.com/b");
    let cfg = StorageConfig { bucket: "b".to_string(), region: Some("eu".to_string()), access_key_id: None, secret_access_key: None, endpoint: None };
    let env = StorageEnv { region: Some("us".to_string()), access_key_id: Some("k".to_string()), secret_access_key: None, endpoint: Some("http://minio".to_string()) };
    let s = storage_settings(cfg, env);
    assert_eq!(s.region, "eu");
    assert_eq!(s.access_key_id, "k");
    assert_eq!(s.endpoint, Some("http://minio".to_string()));
    assert_eq!(s.base_url, "http://minio");
}

#[test]
fn object_addresses() {
    assert_eq!(object_url("http://minio//", "uploads/a.png"), "http://minio/uploads/a.png");
    assert_eq!(object_url("http://minio", "k"), "http://minio/k");
}

#[test]
fn upload_keys() {
    let id: u128 = 0x0123_4567_89ab_cdef_0123_4567_89ab_cdef;
    assert_eq!(upload_key(id, "photo.JPG"), "uploads/01234567-89ab-cdef-0123-456789abcdef.JPG");
    assert_eq!(upload_key(id, "README"), "uploads/01234567-89ab-cdef-0123-456789abcdef.bin");
    assert_eq!(upload_key(0, ".bashrc"), "uploads/00000000-0000-0000-0000-000000000000.bin");
    let plan = plan_upload_with(Some("file"), None, None, 0).unwrap();
    assert_eq!(plan.file_name, "upload");
    assert_eq!(plan.content_type, "application/octet-stream");
    assert_eq!(plan.key, "uploads/00000000-0000-0000-0000-000000000000.bin");
    assert!(plan_upload_with(Some("other"), Some("a.png"), None, 0).is_none());
    assert!(plan_upload_with(None, Some("a.png"), None, 0).is_none());
    let random = plan_upload(Some("file"), Some("a.png"), Some("image/png")).unwrap();
    assert!(random.key.starts_with("uploads/") && random.key.ends_with(".png"));
    assert_eq!(random.key.len(), "uploads/".len() + 36 + 4);
}

#[test]
fn column_kinds() {
    assert_eq!(column_kind("JSONB"), ColumnKind::Json);
    assert_eq!(column_kind("INT4"), ColumnKind::Int32);
    assert_eq!(column_kind("INT8"), ColumnKind::Int64);
    assert_eq!(column_kind("NUMERIC"), ColumnKind::Float);
    assert_eq!(column_kind("TIMESTAMPTZ"), ColumnKind::Timestamp);
    assert_eq!(column_kind("UUID"), ColumnKind::Uuid);
    assert_eq!(column_kind("BOOL"), ColumnKind::Bool);
    assert_eq!(column_kind("TEXT"), ColumnKind::Text);
    assert_eq!(column_kind("jsonb"), ColumnKind::Text);
}

#[test]
fn nested_columns() {
    let mut m: Vec<JsonMember> = vec![];
    insert_nested(&mut m, "id", text("1"));
    insert_nested(&mut m, "author__name", text("Ann"));
    insert_nested(&mut m, "author__meta__age", text("30"));
    insert_nested(&mut m, "id__x", text("lost"));
    insert_nested(&mut m, "id", text("2"));
    let obj = JsonValue::Object(m);
    assert!(matches!(get(&obj, "id"), Some(JsonValue::String(s)) if s.text == "2"));
    let author = get(&obj, "author").unwrap();
    assert!(matches!(get(author, "name"), Some(JsonValue::String(s)) if s.text == "Ann"));
    let meta = get(author, "meta").unwrap();
    assert!(matches!(get(meta, "age"), Some(JsonValue::String(s)) if s.text == "30"));
    match obj {
        JsonValue::Object(m) => assert_eq!(m.len(), 2),
        _ => unreachable!(),
    }
}
