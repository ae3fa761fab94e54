use tinycms::models::user::UserRole;
use tinycms::query::error::QueryError;
use tinycms::query::parser;
use tinycms::query::translator::{translate, Translated};
use tinycms::query::validator;

fn run(sql: &str) -> Result<Translated, QueryError> {
    let q = parser::parse(sql)?;
    let v = validator::validate(q, &UserRole::Admin, &[])?;
    translate(v, vec![], &[])
}

#[test]
fn simple_select() {
    let t = run("SELECT id, status FROM documents WHERE status = 'published'").ok().unwrap();
    assert!(t.sql.contains("SELECT"));
    assert_eq!(t.params.len(), 1);
}

#[test]
fn jsonb_single_field() {
    let t = run("SELECT data.title FROM documents").ok().unwrap();
    assert!(t.sql.contains("data->>'title'"), "got: {}", t.sql);
}

#[test]
fn jsonb_nested_field() {
    let t = run("SELECT data.meta.seo FROM documents").ok().unwrap();
    assert!(t.sql.contains("data#>>'{meta,seo}'"), "got: {}", t.sql);
}

#[test]
fn default_limit_injected() {
    let t = run("SELECT * FROM documents").ok().unwrap();
    assert!(t.sql.contains("LIMIT 50"), "got: {}", t.sql);
}

#[test]
fn large_limit_capped() {
    let t = run("SELECT * FROM documents LIMIT 1000").ok().unwrap();
    assert!(t.sql.contains("LIMIT 200"), "got: {}", t.sql);
}

#[test]
fn denied_table_refused() {
    match run("SELECT * FROM users") {
        Err(e) => assert_eq!(e.message(), "table 'users' is not accessible"),
        Ok(_) => panic!("expected a refusal"),
    }
}

#[test]
fn subquery_refused() {
    assert!(run("SELECT * FROM documents WHERE id IN (SELECT id FROM documents)").is_err());
}

#[test]
fn two_statements_refused() {
    match parser::parse("SELECT 1; SELECT 2") {
        Err(e) => assert_eq!(e.message(), "exactly one statement is required"),
        Ok(_) => panic!("expected a refusal"),
    }
}

#[test]
fn non_select_refused() {
    match parser::parse("DELETE FROM documents") {
        Err(e) => assert_eq!(e.message(), "only SELECT queries are allowed"),
        Ok(_) => panic!("expected a refusal"),
    }
}

#[test]
fn literals_become_bound_parameters() {
    let t = run("SELECT id FROM documents WHERE status = 'secret-value' AND id IN (7, 8)").ok().unwrap();
    assert!(!t.sql.contains("secret-value"), "got: {}", t.sql);
    assert!(t.sql.contains("$1") && t.sql.contains("$2") && t.sql.contains("$3"), "got: {}", t.sql);
    assert_eq!(t.params.len(), 3);
    let texts: Vec<String> = t
        .params
        .iter()
        .filter_map(|p| match p {
            tinycms::query::preprocessor::Param::Text(s) => Some(s.clone()),
            _ => None,
        })
        .collect();
    assert_eq!(texts, vec!["secret-value".to_string()]);
    let ints: Vec<i64> = t
        .params
        .iter()
        .filter_map(|p| match p {
            tinycms::query::preprocessor::Param::Int(i) => Some(*i),
            _ => None,
        })
        .collect();
    assert_eq!(ints.len(), 2);
    assert!(ints.contains(&7) && ints.contains(&8));
}

#[test]
fn reserved_words_quoted_in_any_case() {
    assert_eq!(tinycms::query::translator::quote_ident("Type"), "\"Type\"");
    assert_eq!(tinycms::query::translator::quote_ident("title"), "title");
    assert_eq!(tinycms::query::translator::quote_ident("ÉTAT"), "ÉTAT");
}
