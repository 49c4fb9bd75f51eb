use valet::config::{config_dir_from, config_path_from, config_path_in, config_dir, config_path, Config, ConfigError};
use valet::json::{JsonNumber, JsonValue};
use valet::paths::{extension_of, extension_of_name};
use valet::rules::Rule;
use valet::storage::{date_filter, enabled_flag, needs_sample_rules, operation_counts, stats_queries};
use valet::text::{i64_to_decimal, is_blank, u64_to_decimal};

#[test]
fn decimal_numerals() {
    assert_eq!(u64_to_decimal(0), "0");
    assert_eq!(u64_to_decimal(1234567890), "1234567890");
    assert_eq!(u64_to_decimal(u64::MAX), u64::MAX.to_string());
    assert_eq!(i64_to_decimal(-42), "-42");
    assert_eq!(i64_to_decimal(i64::MIN), i64::MIN.to_string());
    assert_eq!(i64_to_decimal(7), "7");
}

#[test]
fn blank_strings() {
    assert!(is_blank(""));
    assert!(is_blank(" \t\n\u{3000}"));
    assert!(!is_blank(" x "));
}

#[test]
fn extensions_follow_path_rules() {
    assert_eq!(extension_of_name("a.tar.gz").as_deref(), Some("gz"));
    assert_eq!(extension_of_name(".bashrc"), None);
    assert_eq!(extension_of_name(".config.toml").as_deref(), Some("toml"));
    assert_eq!(extension_of_name("a.").as_deref(), Some(""));
    assert_eq!(extension_of_name("noext"), None);
    assert_eq!(extension_of_name(".."), None);
    assert_eq!(extension_of(&None), None);
}

#[test]
fn json_lookups() {
    let v = JsonValue::Object(vec![
        ("a".to_string(), JsonValue::Number(JsonNumber::PosInt(u64::MAX))),
        ("b".to_string(), JsonValue::Number(JsonNumber::NegInt(-3))),
        ("c".to_string(), JsonValue::Number(JsonNumber::Float(2.5f64.to_bits()))),
    ]);
    assert_eq!(v.get("a").unwrap().as_i64(), None);
    assert_eq!(v.get("a").unwrap().as_u64(), Some(u64::MAX));
    assert_eq!(v.get("b").unwrap().as_i64(), Some(-3));
    assert_eq!(v.get("b").unwrap().as_u64(), None);
    assert_eq!(v.get("c").unwrap().as_i64(), None);
    assert!(v.get("z").is_none());
    assert!(JsonValue::Null.get("a").is_none());
    assert!(JsonValue::String("s".to_string()).as_array().is_none());
}

#[test]
fn config_defaults_and_location() {
    let c = Config::default();
    assert!(c.inbox_paths.is_empty());
    assert_eq!(c.quarantine_retention_days, 30);
    assert_eq!(c.tag_suggestions, vec!["work", "personal", "invoice"]);
    assert!(!c.always_do_actions);
    assert_eq!(ConfigError::NoConfigDir.message(), "cannot determine config directory");
    if let (Ok(dir), Ok(path)) = (config_dir(), config_path()) {
        assert!(path.ends_with("config.json"));
        assert!(path.starts_with(&dir));
        assert!(dir.ends_with("/valet") || dir.ends_with("com.example.Valet"));
        if !dir.ends_with('/') && !dir.ends_with('\\') {
            assert_eq!(path.len(), dir.len() + 1 + "config.json".len());
        }
    }
}

#[test]
fn config_location_from_platform_directories() {
    let some = |v: &str| Some(v.to_string());
    let win = "C:\\Users\\me\\AppData\\Roaming\\example\\Valet\\config";
    assert!(matches!(config_dir_from(None, some("/u")), Err(ConfigError::NoConfigDir)));
    assert_eq!(config_dir_from(some("/home/me/.config/valet"), None).ok().unwrap(), "/home/me/.config/valet");
    assert_eq!(config_dir_from(some(win), some("/roam")).ok().unwrap(), "/roam/com.example.Valet");
    assert!(matches!(config_dir_from(some(win), None), Err(ConfigError::NoConfigDir)));
    assert_eq!(config_path_in("/d"), "/d/config.json");
    assert_eq!(config_path_in("/d/"), "/d/config.json");
    assert_eq!(config_path_from(some("/c/valet"), None).ok().unwrap(), "/c/valet/config.json");
    assert_eq!(config_path_from(some(win), some("/roam")).ok().unwrap(), "/roam/com.example.Valet/config.json");
    assert!(matches!(config_path_from(None, None), Err(ConfigError::NoConfigDir)));
    assert!(matches!(config_path_from(some(win), None), Err(ConfigError::NoConfigDir)));
}

#[test]
fn statistics_queries_for_a_week() {
    let q = stats_queries(Some(7));
    assert_eq!(q.total, "SELECT COUNT(*) FROM operation_history WHERE created_at >= datetime('now', '-7 days')");
    assert_eq!(
        q.successful,
        "SELECT COUNT(*) FROM operation_history WHERE created_at >= datetime('now', '-7 days') AND status = 'success'"
    );
    assert_eq!(
        q.moved,
        "SELECT COUNT(*) FROM operation_history WHERE created_at >= datetime('now', '-7 days') AND operation_type = 'move' AND status = 'success'"
    );
    assert_eq!(
        q.active_days,
        "SELECT COUNT(DISTINCT DATE(created_at)) FROM operation_history WHERE created_at >= datetime('now', '-7 days')"
    );
    assert_eq!(
        q.last_operation,
        "SELECT created_at FROM operation_history WHERE created_at >= datetime('now', '-7 days') ORDER BY created_at DESC LIMIT 1"
    );
}

#[test]
fn statistics_queries_for_all_time() {
    let q = stats_queries(None);
    assert_eq!(q.total, "SELECT COUNT(*) FROM operation_history ");
    assert_eq!(q.successful, "SELECT COUNT(*) FROM operation_history  WHERE status = 'success'");
    assert_eq!(
        q.copied,
        "SELECT COUNT(*) FROM operation_history  WHERE operation_type = 'copy' AND status = 'success'"
    );
    assert_eq!(
        q.rules_applied,
        "SELECT rule_name, COUNT(*) as count FROM operation_history  WHERE status = 'success' GROUP BY rule_name"
    );
    assert_eq!(
        q.file_types,
        "SELECT LOWER(SUBSTR(source_path, INSTR(source_path, '.') + 1)) as ext, COUNT(*) as count FROM operation_history  WHERE status = 'success' AND INSTR(source_path, '.') > 0 GROUP BY ext"
    );
    assert_eq!(q.active_days, "SELECT COUNT(DISTINCT DATE(created_at)) FROM operation_history");
    assert_eq!(date_filter(Some(-2)), "WHERE created_at >= datetime('now', '--2 days')");
    assert_eq!(date_filter(None), "");
}

#[test]
fn counts_and_flags() {
    let c = operation_counts(10, 7, 3, 2);
    assert_eq!(
        (c.total_operations, c.successful_operations, c.failed_operations, c.files_moved, c.files_copied),
        (10, 7, 3, 3, 2)
    );
    let mut r = Rule {
        id: 1,
        name: "r".to_string(),
        enabled: true,
        always_apply: false,
        conditions: vec![],
        actions: vec![],
        version: 1,
        options: JsonValue::Null,
    };
    assert_eq!(enabled_flag(&r), 1);
    r.enabled = false;
    assert_eq!(enabled_flag(&r), 0);
    assert!(needs_sample_rules(0));
    assert!(!needs_sample_rules(3));
}
