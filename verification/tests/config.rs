use tinycms::config::Config;
use tinycms::schema::config::{DatabaseConfig, TinyCmsConfig};
use tinycms::schema::runtime::{runtime_args, runtime_bin, runtime_probe_order, sniff_runtime_pref};
use tinycms::schema::watch::{after_reload, triggers_reload, FileChange};

#[test]
fn defaults() {
    let c = Config::from_env(None, None, None).ok().unwrap();
    assert_eq!(c.port, 3000);
    assert_eq!(c.base_url, "http://localhost:3000");
    assert_eq!(c.config_path, "./tinycms.config.ts");
}

#[test]
fn explicit_values() {
    let c = Config::from_env(Some("8080"), None, Some("/srv/cms.ts")).ok().unwrap();
    assert_eq!(c.port, 8080);
    assert_eq!(c.base_url, "http://localhost:8080");
    assert_eq!(c.config_path, "/srv/cms.ts");
    let c = Config::from_env(Some("+81"), Some("https://cms.example"), None).ok().unwrap();
    assert_eq!(c.port, 81);
    assert_eq!(c.base_url, "https://cms.example");
}

#[test]
fn bad_ports() {
    for p in ["", "abc", "70000", "-1", "+", " 80"] {
        match Config::from_env(Some(p), None, None) {
            Err(e) => assert_eq!(e, "PORT must be a number"),
            Ok(_) => panic!("port {p:?} should be refused"),
        }
    }
}

#[test]
fn runtime_named_on_first_line() {
    assert_eq!(sniff_runtime_pref("runtime: \"deno\"\nexport default {}"), Some("deno".to_string()));
    assert_eq!(sniff_runtime_pref("  runtime :  'bun' // x"), Some("bun".to_string()));
    assert_eq!(sniff_runtime_pref("runtime: ''\r\nruntime: node"), Some("node".to_string()));
    assert_eq!(sniff_runtime_pref("export default {}\nruntime: deno"), Some("deno".to_string()));
    assert_eq!(
        sniff_runtime_pref("export default {\n  runtime: \"deno\",\n}"),
        Some("deno".to_string())
    );
    assert_eq!(sniff_runtime_pref("export default {\n  name: \"x\",\n}"), None);
    assert_eq!(sniff_runtime_pref("runtimes: deno"), None);
    assert_eq!(sniff_runtime_pref(""), None);
}

#[test]
fn probe_order() {
    assert_eq!(runtime_probe_order(Some("bun")), vec![2, 0, 1, 2]);
    assert_eq!(runtime_probe_order(Some("python")), vec![0, 1, 2]);
    assert_eq!(runtime_probe_order(None), vec![0, 1, 2]);
    assert_eq!(runtime_bin(1), "deno");
    assert_eq!(runtime_args(0), vec!["--input-type=module"]);
    assert_eq!(runtime_args(1), vec!["run", "--allow-read", "--allow-env", "-"]);
}

#[test]
fn reloads() {
    assert!(triggers_reload(FileChange::Modified));
    assert!(triggers_reload(FileChange::Created));
    assert!(!triggers_reload(FileChange::Other));
}

#[test]
fn reload_keeps_previous_on_failure() {
    let cfg = |url: &str| TinyCmsConfig {
        database: DatabaseConfig { db_type: None, url: url.to_string() },
        auth: None,
        storage: None,
        runtime: None,
        types: vec![],
    };
    let (c, changed) = after_reload(cfg("a"), None);
    assert_eq!(c.database.url, "a");
    assert!(!changed);
    let (c, changed) = after_reload(cfg("a"), Some(cfg("b")));
    assert_eq!(c.database.url, "b");
    assert!(changed);
}

#[test]
fn last_good_config_stays_in_force() {
    let cfg = |url: &str| TinyCmsConfig {
        database: DatabaseConfig { db_type: None, url: url.to_string() },
        auth: None,
        storage: None,
        runtime: None,
        types: vec![],
    };
    let mut current = cfg("initial");
    let loads = vec![None, Some(cfg("first")), None, Some(cfg("second")), None, None];
    for loaded in loads {
        current = after_reload(current, loaded).0;
    }
    assert_eq!(current.database.url, "second");
    let mut current = cfg("initial");
    for loaded in vec![None, None] {
        current = after_reload(current, loaded).0;
    }
    assert_eq!(current.database.url, "initial");
}
