use valet::desktop::templates::{
    generate_actions_from_template, generate_conditions_from_template, get_predefined_templates,
    lookup_param, rule_from_template, ParameterType, TemplateCategory, TemplateError, TemplateRequest,
};
use valet::json::JsonValue;
use valet::rules::{Action, Condition, Rule};

fn pairs(items: &[(&str, &str)]) -> Vec<(String, String)> {
    items.iter().map(|(k, v)| (k.to_string(), v.to_string())).collect()
}

fn text(v: &JsonValue) -> Option<&str> {
    match v {
        JsonValue::String(s) => Some(s.as_str()),
        _ => None,
    }
}

fn target_of(a: &Action) -> String {
    match &a.params {
        JsonValue::Object(es) => {
            assert_eq!(es.len(), 1);
            assert_eq!(es[0].0, "target");
            text(&es[0].1).unwrap().to_string()
        },
        _ => panic!("action parameters are not an object"),
    }
}

fn request(id: &str, params: &[(&str, &str)], name: Option<&str>) -> TemplateRequest {
    TemplateRequest {
        template_id: id.to_string(),
        parameters: pairs(params),
        custom_name: name.map(|n| n.to_string()),
    }
}

#[test]
fn predefined_templates_come_in_fixed_order() {
    let ts = get_predefined_templates();
    let ids: Vec<&str> = ts.iter().map(|t| t.id.as_str()).collect();
    assert_eq!(
        ids,
        vec!["file-type-organizer", "date-based-archiver", "project-structure", "size-based-sorter", "content-classifier"]
    );
    assert!(ts[0].category == TemplateCategory::FileType);
    assert!(ts[4].category == TemplateCategory::ContentBased);
    assert_eq!(ts[0].name, "File Type Organizer");
    assert_eq!(ts[0].parameters.len(), 2);
    assert_eq!(ts[0].parameters[1].name, "file_extensions");
    assert_eq!(ts[0].parameters[1].validation_regex.as_deref(), Some("^[a-zA-Z0-9,]+$"));
    assert!(ts[2].parameters[1].param_type == ParameterType::Boolean);
    assert!(!ts[2].parameters[1].required);
    assert_eq!(ts[3].parameters[0].default_value.as_deref(), Some("1"));
    assert_eq!(ts[1].tags, vec!["archive".to_string(), "date".to_string(), "backup".to_string()]);
}

#[test]
fn template_defaults_pass_their_checks() {
    for t in get_predefined_templates() {
        for p in &t.parameters {
            if let (Some(d), Some(re)) = (&p.default_value, &p.validation_regex) {
                assert!(regex::Regex::new(re).unwrap().is_match(d), "{} {}", t.id, p.name);
            }
        }
    }
}

#[test]
fn lookup_param_takes_the_first_entry() {
    let ps = pairs(&[("a", "1"), ("b", "2"), ("a", "3")]);
    assert_eq!(lookup_param(&ps, "a").map(|s| s.as_str()), Some("1"));
    assert_eq!(lookup_param(&ps, "b").map(|s| s.as_str()), Some("2"));
    assert!(lookup_param(&ps, "c").is_none());
}

#[test]
fn file_type_template_makes_one_condition_per_extension() {
    let ts = get_predefined_templates();
    let conds = generate_conditions_from_template(&ts[0], &pairs(&[("file_extensions", "jpg, png ,pdf")])).unwrap();
    let got: Vec<(&str, Option<&str>)> = conds.iter().map(|c| (c.kind.as_str(), text(&c.value))).collect();
    assert_eq!(got, vec![("extension", Some("jpg")), ("extension", Some("png")), ("extension", Some("pdf"))]);
    assert!(generate_conditions_from_template(&ts[0], &[]).unwrap().is_empty());
    let spaced = generate_conditions_from_template(&ts[0], &pairs(&[("file_extensions", "\u{3000}gif\t,,txt")])).unwrap();
    let got: Vec<Option<&str>> = spaced.iter().map(|c| text(&c.value)).collect();
    assert_eq!(got, vec![Some("gif"), Some(""), Some("txt")]);
    let acts = generate_actions_from_template(&ts[0], &pairs(&[("base_path", "./Out")])).unwrap();
    assert_eq!(acts.len(), 1);
    assert_eq!(acts[0].kind, "move");
    assert_eq!(target_of(&acts[0]), "./Out/{extension}/");
    assert!(generate_actions_from_template(&ts[0], &[]).unwrap().is_empty());
}

#[test]
fn other_templates_generate_their_conditions_and_targets() {
    let ts = get_predefined_templates();
    let date = generate_conditions_from_template(&ts[1], &[]).unwrap();
    assert_eq!(date.len(), 1);
    assert_eq!(date[0].kind, "hasDate");
    assert!(matches!(date[0].value, JsonValue::Bool(true)));
    let acts = generate_actions_from_template(&ts[1], &pairs(&[("archive_path", "./A")])).unwrap();
    assert_eq!(target_of(&acts[0]), "./A/YYYY/MM/");
    let acts = generate_actions_from_template(&ts[1], &pairs(&[("archive_path", "./A"), ("date_format", "YYYY")])).unwrap();
    assert_eq!(target_of(&acts[0]), "./A/YYYY/");

    let project = generate_conditions_from_template(&ts[2], &[]).unwrap();
    assert_eq!(project[0].kind, "always");
    let acts = generate_actions_from_template(&ts[2], &pairs(&[("project_name", "P")])).unwrap();
    assert_eq!(target_of(&acts[0]), "P/src/");

    let size = generate_conditions_from_template(&ts[3], &pairs(&[("small_threshold_mb", "5")])).unwrap();
    assert_eq!(size[0].kind, "sizeRange");
    assert_eq!(text(&size[0].value), Some("0-5MB"));
    let acts = generate_actions_from_template(&ts[3], &pairs(&[("sort_path", "./S")])).unwrap();
    assert_eq!(target_of(&acts[0]), "./S/{size_category}/");

    let content = generate_conditions_from_template(&ts[4], &pairs(&[("work_keywords", "work,report")])).unwrap();
    assert_eq!(content[0].kind, "nameMatches");
    assert_eq!(text(&content[0].value), Some(".*(work|report).*"));
    let acts = generate_actions_from_template(&ts[4], &pairs(&[("classifier_path", "./C")])).unwrap();
    assert_eq!(target_of(&acts[0]), "./C/{content_category}/");
}

#[test]
fn template_request_for_unknown_template_is_refused() {
    let r = rule_from_template(&request("nope", &[], None), "20250101_000000", 1);
    match r {
        Err(e) => {
            assert!(matches!(&e, TemplateError::NotFound { template_id } if template_id == "nope"));
            assert_eq!(e.message(), "Template 'nope' not found");
        },
        Ok(_) => panic!("unknown template accepted"),
    }
}

#[test]
fn template_request_without_required_parameter_is_refused() {
    let r = rule_from_template(&request("file-type-organizer", &[("file_extensions", "jpg")], None), "t", 1);
    match r {
        Err(e) => assert_eq!(e.message(), "Required parameter 'base_path' not provided"),
        Ok(_) => panic!("missing parameter accepted"),
    }
}

#[test]
fn template_request_with_bad_value_is_refused() {
    let r = rule_from_template(
        &request("file-type-organizer", &[("base_path", "./O"), ("file_extensions", "jpg;png")], None),
        "t",
        1,
    );
    match r {
        Err(e) => {
            assert!(matches!(&e, TemplateError::ValueMismatch { name, value } if name == "file_extensions" && value == "jpg;png"));
            assert_eq!(e.message(), "Parameter 'file_extensions' value 'jpg;png' doesn't match required pattern");
        },
        Ok(_) => panic!("bad value accepted"),
    }
    let r = rule_from_template(
        &request("size-based-sorter", &[("small_threshold_mb", "1"), ("large_threshold_mb", "x"), ("sort_path", "./S")], None),
        "t",
        1,
    );
    assert!(matches!(r, Err(TemplateError::ValueMismatch { ref name, .. }) if name == "large_threshold_mb"));
}

#[test]
fn template_error_messages() {
    let e = TemplateError::InvalidValidationRegex { name: "p".to_string(), error: "bad".to_string() };
    assert_eq!(e.message(), "Invalid validation regex for parameter 'p': bad");
}

#[test]
fn template_request_builds_the_rule() {
    let r = rule_from_template(
        &request("file-type-organizer", &[("base_path", "./O"), ("file_extensions", "jpg,png")], None),
        "20250102_030405",
        42,
    )
    .ok()
    .unwrap();
    assert_eq!(r.id, 42);
    assert_eq!(r.name, "File Type Organizer - 20250102_030405");
    assert!(r.enabled);
    assert!(!r.always_apply);
    assert_eq!(r.version, 1);
    assert!(matches!(r.options, JsonValue::Null));
    assert_eq!(r.conditions.len(), 2);
    assert_eq!(text(&r.conditions[1].value), Some("png"));
    assert_eq!(target_of(&r.actions[0]), "./O/{extension}/");

    let named = rule_from_template(
        &request("date-based-archiver", &[("date_format", "YYYY"), ("archive_path", "./A"), ("date_source", "created")], Some("Mine")),
        "t",
        3,
    )
    .ok()
    .unwrap();
    assert_eq!(named.name, "Mine");
    assert_eq!(target_of(&named.actions[0]), "./A/YYYY/");
}

use valet::desktop::validation::{check_rule, check_rule_for_save, RuleError};
use valet::json::JsonNumber;

fn s(v: &str) -> JsonValue {
    JsonValue::String(v.to_string())
}

fn cond(kind: &str, value: JsonValue) -> Condition {
    Condition { kind: kind.to_string(), value }
}

fn obj(entries: Vec<(&str, JsonValue)>) -> JsonValue {
    JsonValue::Object(entries.into_iter().map(|(k, v)| (k.to_string(), v)).collect())
}

fn act(kind: &str, params: JsonValue) -> Action {
    Action { kind: kind.to_string(), params }
}

fn rule(name: &str, conditions: Vec<Condition>, actions: Vec<Action>) -> Rule {
    Rule { id: 9, name: name.to_string(), enabled: true, always_apply: false, conditions, actions, version: 1, options: JsonValue::Null }
}

fn save_error(r: &Rule) -> String {
    match check_rule_for_save(r) {
        Err(e) => e.message(),
        Ok(()) => String::new(),
    }
}

fn move_to(p: &str) -> Action {
    act("moveTo", obj(vec![("path", s(p))]))
}

#[test]
fn save_check_accepts_a_good_rule() {
    let r = rule(
        "ok",
        vec![cond("ext", s("pdf")), cond("sizeGt", JsonValue::Number(JsonNumber::PosInt(3))), cond("nameMatches", s("^a"))],
        vec![move_to("/x"), act("quarantine", JsonValue::Null), act("tag", obj(vec![("tags", JsonValue::Array(vec![]))]))],
    );
    assert!(check_rule_for_save(&r).is_ok());
}

#[test]
fn save_check_reports_each_problem() {
    assert_eq!(save_error(&rule("  ", vec![], vec![move_to("/x")])), "Rule name cannot be empty");
    assert_eq!(save_error(&rule("n", vec![], vec![])), "Rule must have at least one action");
    assert_eq!(
        save_error(&rule("n", vec![cond("nameMatches", s("("))], vec![move_to("/x")])).starts_with("Invalid regex pattern '(': "),
        true
    );
    assert_eq!(
        save_error(&rule("n", vec![cond("nameMatches", JsonValue::Null)], vec![move_to("/x")])),
        "nameMatches condition requires a string value"
    );
    assert_eq!(
        save_error(&rule("n", vec![cond("pathContains", JsonValue::Bool(true))], vec![move_to("/x")])),
        "pathContains condition requires a string value"
    );
    assert_eq!(
        save_error(&rule("n", vec![cond("sizeLt", JsonValue::Number(JsonNumber::NegInt(-4)))], vec![move_to("/x")])),
        "sizeLt condition requires a numeric value"
    );
    assert_eq!(save_error(&rule("n", vec![cond("always", JsonValue::Bool(true))], vec![move_to("/x")])), "Unknown condition type: always");
    assert_eq!(save_error(&rule("n", vec![], vec![move_to("  ")])), "moveTo action requires a non-empty path");
    assert_eq!(save_error(&rule("n", vec![], vec![act("copyTo", JsonValue::Null)])), "copyTo action requires a path parameter");
    assert_eq!(save_error(&rule("n", vec![], vec![act("tag", obj(vec![("tags", s("a"))]))])), "tag action requires a tags array parameter");
    assert_eq!(save_error(&rule("n", vec![], vec![act("rename", obj(vec![]))])), "rename action requires a pattern parameter");
    assert_eq!(save_error(&rule("n", vec![], vec![act("move", obj(vec![("target", s("/x"))]))])), "Unknown action type: move");
}

#[test]
fn template_rules_cannot_be_saved() {
    let r = rule_from_template(
        &request("date-based-archiver", &[("date_format", "YYYY/MM"), ("archive_path", "./A"), ("date_source", "modified")], None),
        "t",
        3,
    )
    .ok()
    .unwrap();
    assert!(matches!(check_rule_for_save(&r), Err(RuleError::UnknownCondition { .. })));
}

#[test]
fn editor_check_reports_errors_and_warnings() {
    let r = rule(
        "",
        vec![cond("nameMatches", s("[")), cond("extension", s(".pdf")), cond("sizeGt", JsonValue::Null), cond("extension", s("txt"))],
        vec![],
    );
    let c = check_rule(&r);
    assert_eq!(c.errors.len(), 3);
    assert_eq!(c.errors[0], "Rule name cannot be empty");
    assert_eq!(c.errors[1], "Rule must have at least one action");
    assert!(c.errors[2].starts_with("Condition 1: Invalid regex pattern '[': "));
    assert_eq!(
        c.warnings,
        vec![
            "Condition 2: Extension '.pdf' should not include dots".to_string(),
            "Condition 3: Unknown condition type 'sizeGt'".to_string(),
        ]
    );
    let empty = check_rule(&rule("x", vec![], vec![move_to("/a")]));
    assert_eq!(empty.errors, vec!["Rule must have at least one condition".to_string()]);
    assert!(empty.warnings.is_empty());
}

use valet::desktop::preview::simulate_rule_on_file;

#[test]
fn preview_fills_in_the_target() {
    let r = rule(
        "p",
        vec![cond("extension", s("pdf"))],
        vec![act("move", obj(vec![("target", s("./Docs/{extension}/{filename}"))]))],
    );
    let p = simulate_rule_on_file(&r, "/home/me/report.pdf").unwrap().unwrap();
    assert_eq!(p.source_path, "/home/me/report.pdf");
    assert_eq!(p.destination_path, "./Docs/pdf/report.pdf");
    assert_eq!(p.action_type, "move");
    assert!(simulate_rule_on_file(&r, "/home/me/report.txt").unwrap().is_none());
}

#[test]
fn preview_without_target_or_match() {
    let r = rule("p", vec![cond("nameMatches", s("^rep"))], vec![act("copy", obj(vec![]))]);
    let p = simulate_rule_on_file(&r, "/x/report.txt").unwrap().unwrap();
    assert_eq!(p.destination_path, "./Organized/report.txt");
    let twice = rule("t", vec![cond("extension", s("md"))], vec![act("move", obj(vec![("target", s("{extension}{extension}x/{filename}"))]))]);
    assert_eq!(simulate_rule_on_file(&twice, "/n/a.md").unwrap().unwrap().destination_path, "mdmdx/a.md");
    assert_eq!(p.action_type, "copy");
    let odd = rule("p", vec![cond("hasDate", JsonValue::Bool(true))], vec![act("move", obj(vec![("target", JsonValue::Null)]))]);
    assert_eq!(simulate_rule_on_file(&odd, "/x/a.b").unwrap().unwrap().destination_path, "./Organized/");
    let no_conditions = rule("p", vec![], vec![move_to("/a")]);
    assert!(simulate_rule_on_file(&no_conditions, "/x/a.b").unwrap().is_none());
    let no_actions = rule("p", vec![cond("extension", s("b"))], vec![]);
    assert!(simulate_rule_on_file(&no_actions, "/x/a.b").unwrap().is_none());
}

use valet::desktop::settings::{default_backup_config, default_quarantine_days, AppSettings, Config, RetryConfig};

#[test]
fn settings_defaults() {
    assert_eq!(default_quarantine_days(), 30);
    let c = Config::default();
    assert!(c.inbox_paths.is_empty());
    assert!(!c.pause_watchers);
    assert_eq!(c.quarantine_retention_days, 30);
    let a = AppSettings::default();
    assert_eq!(a.theme, "system");
    assert_eq!(a.max_concurrent_operations, 5);
    assert_eq!(a.watch_interval_ms, 500);
    assert_eq!(a.log_level, "info");
    assert!(a.notification_types.errors && !a.notification_types.daily_summary);
    let rc = RetryConfig::default();
    assert_eq!((rc.max_retries, rc.retry_delay_ms, rc.exponential_backoff), (3, 1000, true));
    let b = default_backup_config("/b".to_string());
    assert_eq!(b.backup_location, "/b");
    assert_eq!(b.max_backup_size_gb, 10);
    assert_eq!(b.backup_schedule.cleanup_interval_hours, 168);
    assert!(!b.encrypt_backups && b.compress_backups);
}

use valet::desktop::operations::{
    days_back_for_range, destination_of, dry_run_kind, dry_run_row, execution_kind, imported_rule_name, retry_decision,
    RetryDecision,
};
use valet::model::{DryRunAction, Op};

#[test]
fn operation_labels() {
    let mv = Op::MoveTo { path: "/a".to_string() };
    let cp = Op::CopyTo { path: "/b".to_string() };
    let q = Op::Quarantine;
    assert_eq!(execution_kind(&mv), "move");
    assert_eq!(execution_kind(&cp), "copy");
    assert_eq!(execution_kind(&q), "other");
    assert_eq!(dry_run_kind(&q), "unknown");
    assert_eq!(destination_of(&cp), "/b");
    assert_eq!(destination_of(&q), "N/A");
    let row = dry_run_row(&DryRunAction { file_path: "/f".to_string(), op: mv, rule_id: 5, rule_name: "r".to_string() });
    assert_eq!(
        (row.source_path.as_str(), row.destination_path.as_str(), row.rule_name.as_str(), row.operation.as_str()),
        ("/f", "/a", "r", "move")
    );
}

#[test]
fn retries_back_off_then_give_up() {
    let cfg = RetryConfig::default();
    let fail: Result<(), String> = Err("disk full".to_string());
    assert!(matches!(retry_decision(&cfg, 0, &Ok(())), RetryDecision::Done));
    assert!(matches!(retry_decision(&cfg, 0, &fail), RetryDecision::Retry { attempt: 1, delay_ms: 1000 }));
    assert!(matches!(retry_decision(&cfg, 1, &fail), RetryDecision::Retry { attempt: 2, delay_ms: 2000 }));
    assert!(matches!(retry_decision(&cfg, 2, &fail), RetryDecision::Retry { attempt: 3, delay_ms: 4000 }));
    match retry_decision(&cfg, 3, &fail) {
        RetryDecision::GiveUp { message } => assert_eq!(message, "Operation failed after 4 attempts. Last error: disk full"),
        _ => panic!("no give-up after the last retry"),
    }
    let flat = RetryConfig { max_retries: 2, retry_delay_ms: 250, exponential_backoff: false };
    assert!(matches!(retry_decision(&flat, 1, &fail), RetryDecision::Retry { attempt: 2, delay_ms: 250 }));
    let none = RetryConfig { max_retries: 0, retry_delay_ms: 250, exponential_backoff: true };
    assert!(matches!(retry_decision(&none, 0, &fail), RetryDecision::GiveUp { .. }));
}

#[test]
fn statistics_ranges_and_import_names() {
    assert_eq!(days_back_for_range("1d"), Some(1));
    assert_eq!(days_back_for_range("30d"), Some(30));
    assert_eq!(days_back_for_range("90d"), Some(90));
    assert_eq!(days_back_for_range("all"), None);
    assert_eq!(days_back_for_range("year"), Some(7));
    assert_eq!(imported_rule_name("Docs", true), "Docs");
    assert_eq!(imported_rule_name("Docs", false), "Docs (imported)");
}

use valet::desktop::health::{
    analyze_component_health, backup_verdict, component_issue, database_verdict, determine_overall_health,
    get_available_disk_space, rule_engine_verdict, run_system_tests, storage_verdict, test_totals, HealthStatus, IssueSeverity,
    TestCategory, TestStatus,
};

#[test]
fn overall_health_takes_the_worst() {
    assert!(determine_overall_health(&[]) == HealthStatus::Excellent);
    assert!(determine_overall_health(&[HealthStatus::Excellent, HealthStatus::Good]) == HealthStatus::Good);
    assert!(determine_overall_health(&[HealthStatus::Good, HealthStatus::Excellent, HealthStatus::Good]) == HealthStatus::Good);
    assert!(determine_overall_health(&[HealthStatus::Good, HealthStatus::Failed]) == HealthStatus::Good);
    assert!(determine_overall_health(&[HealthStatus::Failed, HealthStatus::Excellent]) == HealthStatus::Excellent);
    assert!(determine_overall_health(&[HealthStatus::Warning, HealthStatus::Good]) == HealthStatus::Warning);
    assert!(
        determine_overall_health(&[HealthStatus::Warning, HealthStatus::Critical, HealthStatus::Excellent]) == HealthStatus::Critical
    );
}

#[test]
fn component_verdicts() {
    assert!(database_verdict(true).status == HealthStatus::Excellent);
    assert_eq!(database_verdict(false).score, 0);
    assert_eq!(backup_verdict(0).score, 50);
    assert!(rule_engine_verdict(0).status == HealthStatus::Good);
    assert_eq!(storage_verdict(1_000_000_001).score, 100);
    assert_eq!(storage_verdict(1_000_000_000).score, 75);
    assert!(storage_verdict(50_000_000).status == HealthStatus::Warning);
    assert!(storage_verdict(10_000_000).status == HealthStatus::Critical);
    assert_eq!(get_available_disk_space("/"), Ok(10_000_000_000));
    let a = component_issue(&database_verdict(false)).unwrap();
    assert!(a.severity == IssueSeverity::Critical && !a.auto_fixable);
    assert_eq!(a.component, "System Component");
    assert_eq!(a.description, "Critical issue detected with score: 0");
    let w = component_issue(&backup_verdict(0)).unwrap();
    assert_eq!(w.description, "Warning detected with score: 50");
    assert_eq!(w.suggestion, "Monitor component and consider optimization");
    assert!(component_issue(&rule_engine_verdict(0)).is_none());
    let mut issues = Vec::new();
    let mut recommendations = Vec::new();
    analyze_component_health(&storage_verdict(5), &mut issues, &mut recommendations);
    analyze_component_health(&database_verdict(true), &mut issues, &mut recommendations);
    analyze_component_health(&backup_verdict(0), &mut issues, &mut recommendations);
    assert_eq!(issues.len(), 2);
    assert_eq!(issues[0].description, "Critical issue detected with score: 25");
    assert_eq!(
        recommendations,
        vec![
            "Immediate attention required for critical component".to_string(),
            "Monitor component and consider optimization".to_string(),
        ]
    );
}

#[test]
fn test_run_totals() {
    let t = test_totals(&[TestStatus::Passed, TestStatus::Failed, TestStatus::Skipped, TestStatus::Passed]);
    assert_eq!((t.total_tests, t.passed_tests, t.failed_tests), (4, 2, 1));
    let suite = run_system_tests(&["unit".to_string(), "bogus".to_string(), "end-to-end".to_string()]);
    let names: Vec<&str> = suite.tests.iter().map(|t| t.name.as_str()).collect();
    assert_eq!(names, vec!["Rule matching logic", "File operation utilities", "Complete workflow test"]);
    assert!(suite.tests[2].category == TestCategory::EndToEnd);
    assert_eq!(suite.tests[1].execution_time_ms, 8);
    assert_eq!((suite.totals.total_tests, suite.totals.passed_tests, suite.totals.failed_tests), (3, 3, 0));
    assert_eq!(run_system_tests(&[]).totals.total_tests, 0);
}

use valet::desktop::backup::{
    backup_entry, backup_file_path, backup_not_found, backup_summary, compress_backup_file, decompress_backup_file, decrypt_backup_file, detect_mime_type,
    encrypt_backup_file, filter_backups, find_backup, verify_backup_size, BackupEntry, BackupMetadata,
};

fn entry(id: &str, op: &str, size: u64, created: &str) -> BackupEntry {
    BackupEntry {
        id: id.to_string(),
        operation_id: op.to_string(),
        original_path: format!("/orig/{}", id),
        backup_path: format!("/backup/{}", id),
        file_size: size,
        file_hash: "h".to_string(),
        created_at: created.to_string(),
        operation_type: "move".to_string(),
        metadata: BackupMetadata {
            file_permissions: None,
            file_modified: None,
            file_created: None,
            mime_type: None,
            compressed: false,
            encrypted: false,
        },
    }
}

#[test]
fn mime_types_by_extension() {
    assert_eq!(detect_mime_type("/a/photo.JPG").as_deref(), Some("image/jpeg"));
    assert_eq!(detect_mime_type("/a/photo.jpeg").as_deref(), Some("image/jpeg"));
    assert_eq!(detect_mime_type("/a/b.png").as_deref(), Some("image/png"));
    assert_eq!(detect_mime_type("/a/b.pdf").as_deref(), Some("application/pdf"));
    assert_eq!(detect_mime_type("/a/b.Txt").as_deref(), Some("text/plain"));
    assert_eq!(detect_mime_type("/a/b.json").as_deref(), Some("application/json"));
    assert_eq!(detect_mime_type("/a/b.zip").as_deref(), Some("application/octet-stream"));
    assert_eq!(detect_mime_type("/a/README"), None);
    assert_eq!(detect_mime_type("/a/.bashrc"), None);
    assert_eq!(detect_mime_type("doc.pdf").as_deref(), Some("application/pdf"));
    assert_eq!(detect_mime_type("/a/doc.pdf/").as_deref(), Some("application/pdf"));
    assert_eq!(detect_mime_type("/a/doc.pdf/.").as_deref(), Some("application/pdf"));
    assert_eq!(detect_mime_type("/a.pdf/x"), None);
    assert_eq!(detect_mime_type("/a/doc.pdf/.."), None);
    assert_eq!(detect_mime_type(""), None);
    assert_eq!(detect_mime_type("/"), None);
}

#[test]
fn backup_paths_and_entries() {
    let p = backup_file_path("/bk", "op7", "20250101_120000", "id9", &Some("report.pdf".to_string()));
    assert_eq!(p, "/bk/op7/20250101_120000/id9_report.pdf");
    let q = backup_file_path("/bk/", "op7", "t", "id9", &None);
    assert_eq!(q, "/bk/op7/t/id9_unknown");
    let e = backup_entry(
        "id9".to_string(),
        "op7",
        "/home/me/report.pdf",
        p.clone(),
        42,
        "hash".to_string(),
        "2025-01-01T12:00:00Z".to_string(),
        Some("m".to_string()),
        None,
        true,
        false,
    );
    assert_eq!((e.id.as_str(), e.operation_id.as_str(), e.original_path.as_str()), ("id9", "op7", "/home/me/report.pdf"));
    assert_eq!((e.backup_path.as_str(), e.file_size, e.file_hash.as_str()), (p.as_str(), 42, "hash"));
    assert_eq!(e.operation_type, "file_move");
    assert_eq!(e.metadata.mime_type.as_deref(), Some("application/pdf"));
    assert_eq!(e.metadata.file_modified.as_deref(), Some("m"));
    assert!(e.metadata.file_created.is_none() && e.metadata.file_permissions.is_none());
    assert!(e.metadata.compressed && !e.metadata.encrypted);
}

#[test]
fn backup_files_pass_through() {
    assert!(compress_backup_file("/b/x").is_ok());
    assert!(encrypt_backup_file("/b/x").is_ok());
    assert_eq!(decrypt_backup_file("/b/x").ok().unwrap(), "/b/x");
    assert_eq!(decompress_backup_file("/b/y").ok().unwrap(), "/b/y");
}

#[test]
fn backup_size_verdicts() {
    assert_eq!(verify_backup_size(10, Some(10)), (true, "Backup file is valid".to_string()));
    assert_eq!(verify_backup_size(10, Some(7)), (false, "File size mismatch: expected 10, found 7".to_string()));
    assert_eq!(verify_backup_size(10, None), (false, "Backup file not found".to_string()));
}

#[test]
fn backups_filtered_found_and_summarised() {
    let es = vec![
        entry("a", "op1", 10, "2025-01-02"),
        entry("b", "op2", 20, "2025-01-01"),
        entry("c", "op1", 30, "2025-01-03"),
    ];
    let sum = backup_summary(&es);
    assert_eq!((sum.total_backups, sum.total_size_bytes), (3, 60));
    assert_eq!(sum.oldest_backup.as_deref(), Some("2025-01-01"));
    assert_eq!(sum.newest_backup.as_deref(), Some("2025-01-03"));
    assert_eq!(find_backup(&es, "b").unwrap().file_size, 20);
    assert!(find_backup(&es, "z").is_none());
    let dup = vec![entry("d", "op", 1, "t"), entry("d", "op", 2, "t")];
    assert_eq!(find_backup(&dup, "d").unwrap().file_size, 1);
    let kept = filter_backups(es, Some("op1".to_string()));
    let ids: Vec<&str> = kept.iter().map(|e| e.id.as_str()).collect();
    assert_eq!(ids, vec!["a", "c"]);
    let all = filter_backups(kept, None);
    assert_eq!(all.len(), 2);
    let mixed = vec![entry("x", "o", 1, "b"), entry("y", "o", 1, "ab"), entry("z", "o", 1, "a"), entry("w", "o", 1, "é")];
    let m = backup_summary(&mixed);
    assert_eq!(m.oldest_backup.as_deref(), Some("a"));
    assert_eq!(m.newest_backup.as_deref(), Some("é"));
    let empty = backup_summary(&[]);
    assert_eq!(empty.total_backups, 0);
    assert!(empty.oldest_backup.is_none());
    let e = backup_not_found("zz");
    assert_eq!((e.backup_id.as_str(), e.original_path.as_str(), e.error_message.as_str(), e.error_type.as_str()),
        ("zz", "Unknown", "Backup not found", "NOT_FOUND"));
}

use valet::desktop::backup::{
    backup_due_for_cleanup, past_retention, recovered_file, recovery_error, recovery_refusal, recovery_source,
    recovery_target, RecoveryTally,
};

#[test]
fn recovery_decisions() {
    let b = entry("b1", "op", 12, "2025-01-01T00:00:00Z");
    let e = recovery_refusal(&b, false, true, false).unwrap();
    assert_eq!((e.error_message.as_str(), e.error_type.as_str()), ("Backup file not found", "FILE_NOT_FOUND"));
    let e = recovery_refusal(&b, true, true, false).unwrap();
    assert_eq!((e.error_message.as_str(), e.error_type.as_str()), ("Target file exists and overwrite not allowed", "FILE_EXISTS"));
    assert_eq!(e.original_path, "/orig/b1");
    assert!(recovery_refusal(&b, true, true, true).is_none());
    assert!(recovery_refusal(&b, true, false, false).is_none());
    let c = recovery_error(&b, "Failed to copy file during recovery: x".to_string(), "COPY_FAILED");
    assert_eq!((c.backup_id.as_str(), c.error_type.as_str()), ("b1", "COPY_FAILED"));
    assert_eq!(recovery_source(&b).ok().unwrap(), "/backup/b1");
    assert_eq!(recovery_target("/orig/report.pdf", &None), "/orig/report.pdf");
    let t = recovery_target("/orig/report.pdf", &Some("/restore".to_string()));
    assert_eq!(t, std::path::Path::new("/restore").join("report.pdf").to_string_lossy());
    assert!(t.starts_with("/restore") && t.ends_with("report.pdf"));
    assert_eq!(recovery_target("/orig/report.pdf", &Some("/restore/".to_string())), "/restore/report.pdf");
    assert_eq!(recovery_target("/orig/dir/", &Some("/restore".to_string())), "/restore/dir");
    assert_eq!(recovery_target("/", &Some("/restore".to_string())), "/restore/");
    let f = recovered_file(&b, "/restore/x".to_string(), true, false);
    assert!(!f.integrity_verified);
    assert_eq!(f.file_size, 12);
    assert!(recovered_file(&b, "/r".to_string(), false, false).integrity_verified);
}

#[test]
fn recovery_tally_counts_both_kinds() {
    let b = entry("b1", "op", 12, "t");
    let mut tally = RecoveryTally::new();
    tally.record(Ok(recovered_file(&b, "/r/1".to_string(), false, false)));
    tally.record(Err(backup_not_found("zz")));
    tally.record(Err(recovery_refusal(&b, false, false, false).unwrap()));
    let r = tally.finish();
    assert_eq!((r.total_recovered, r.total_failed), (1, 2));
    assert_eq!(r.recovered_files[0].recovered_path, "/r/1");
    assert_eq!(r.failed_recoveries[0].backup_id, "zz");
}

#[test]
fn old_backups_are_due_for_cleanup() {
    // 2025-01-31T00:00:00Z
    let now = 1_738_281_600i64;
    assert!(backup_due_for_cleanup("2024-12-31T23:59:59Z", now, 0, 30));
    assert!(!backup_due_for_cleanup("2025-01-01T00:00:00Z", now, 0, 30));
    assert!(backup_due_for_cleanup("2025-01-01T00:00:00Z", now, 1, 30));
    assert!(backup_due_for_cleanup("2025-01-01T01:00:00+02:00", now, 0, 30));
    assert!(!backup_due_for_cleanup("yesterday", now, 0, 30));
    assert!(!backup_due_for_cleanup("2025-01-20T00:00:00Z", now, 0, 30));
    assert!(past_retention(Some((10, 5)), 100, 6, 0));
    assert!(!past_retention(Some((100, 6)), 100, 6, 0));
    assert!(!past_retention(None, 100, 6, 0));
}

use valet::desktop::exchange::{import_result, rule_export, select_rules_for_export};

#[test]
fn export_picks_rules_by_number_so_none_match() {
    let mut a = rule("a", vec![], vec![]);
    a.id = 1;
    let mut b = rule("b", vec![], vec![]);
    b.id = 0x67e5_5044_10b1_426f_9247_bb68_0e5f_e0c8;
    let rules = vec![a, b];
    assert!(select_rules_for_export(&rules, &[1, 0, 9]).is_empty());
    assert!(select_rules_for_export(&rules, &[]).is_empty());
    let e = rule_export(rules, true, "2025-01-01T00:00:00Z".to_string());
    assert_eq!(e.version, "1.0");
    assert_eq!(e.templates.len(), 5);
    assert_eq!(e.rules.len(), 2);
    assert!(rule_export(vec![], false, "t".to_string()).templates.is_empty());
}

#[test]
fn import_outcomes() {
    let ok = vec![
        ("A".to_string(), Ok("A (imported)".to_string())),
        ("B".to_string(), Ok("B (imported)".to_string())),
    ];
    assert_eq!(import_result(&ok), Ok(vec!["A (imported)".to_string(), "B (imported)".to_string()]));
    let mixed = vec![
        ("A".to_string(), Err("Rule name cannot be empty".to_string())),
        ("B".to_string(), Ok("B".to_string())),
        ("C".to_string(), Err("Unknown action type: move".to_string())),
    ];
    assert_eq!(
        import_result(&mixed),
        Err("Import completed with errors: Failed to import 'A': Rule name cannot be empty; Failed to import 'C': Unknown action type: move"
            .to_string())
    );
    assert_eq!(import_result(&[]), Ok(vec![]));
}

use valet::desktop::operations::{execute_response, file_operation_target, operation_record, start_notification, ExecuteTally};

fn planned(path: &str, op: Op) -> DryRunAction {
    DryRunAction { file_path: path.to_string(), op, rule_id: 1, rule_name: "r".to_string() }
}

#[test]
fn execution_is_tallied() {
    let actions = vec![
        planned("/a", Op::MoveTo { path: "/x/a".to_string() }),
        planned("/b", Op::CopyTo { path: "/x/b".to_string() }),
        planned("/c", Op::Quarantine),
    ];
    let outcomes: Vec<Result<(), String>> = vec![Ok(()), Err("disk full".to_string()), Err("Unsupported operation type".to_string())];
    let r = execute_response(&actions, &outcomes);
    assert_eq!(r.executed_count, 1);
    assert_eq!(r.executed_count + r.failed_operations.len(), actions.len());
    assert!(!r.success);
    assert_eq!(r.failed_operations.len(), 2);
    assert_eq!(r.failed_operations[0].destination_path, "/x/b");
    assert_eq!(r.failed_operations[1].destination_path, "N/A");
    assert_eq!(r.failed_operations[1].error_message, "Unsupported operation type");
    let all_ok = execute_response(&actions[..1], &outcomes[..1]);
    assert!(all_ok.success && all_ok.executed_count == 1);
    let mut tally = ExecuteTally::new();
    tally.record(&actions[1], &Err("e".to_string()));
    tally.record(&actions[0], &Ok(()));
    let fin = tally.finish();
    assert_eq!((fin.executed_count, fin.failed_operations.len(), fin.success), (1, 1, false));
}

#[test]
fn execution_order_does_not_change_the_response() {
    let a = || planned("/a", Op::MoveTo { path: "/x/a".to_string() });
    let b = || planned("/b", Op::CopyTo { path: "/x/b".to_string() });
    let c = || planned("/c", Op::Quarantine);
    let forward =
        execute_response(&[a(), b(), c()], &[Ok(()), Err("disk full".to_string()), Err("gone".to_string())]);
    let backward = execute_response(&[c(), b(), a()], &[Err("gone".to_string()), Err("disk full".to_string()), Ok(())]);
    assert_eq!(forward.executed_count, backward.executed_count);
    assert_eq!(forward.success, backward.success);
    let mut f: Vec<(String, String)> =
        forward.failed_operations.iter().map(|e| (e.source_path.clone(), e.error_message.clone())).collect();
    let mut g: Vec<(String, String)> =
        backward.failed_operations.iter().map(|e| (e.source_path.clone(), e.error_message.clone())).collect();
    assert_ne!(f, g);
    f.sort();
    g.sort();
    assert_eq!(f, g);
}

#[test]
fn execution_records_and_notices() {
    let a = planned("/a", Op::CopyTo { path: "/x/a".to_string() });
    let ok = operation_record(&a, &Ok(()));
    assert_eq!(
        (ok.source_path.as_str(), ok.destination_path.as_str(), ok.operation_type.as_str(), ok.status.as_str()),
        ("/a", "/x/a", "copy", "success")
    );
    assert!(ok.error_message.is_none());
    let bad = operation_record(&planned("/q", Op::Quarantine), &Err("no".to_string()));
    assert_eq!((bad.operation_type.as_str(), bad.status.as_str()), ("other", "failed"));
    assert_eq!(bad.error_message.as_deref(), Some("no"));
    assert_eq!(start_notification(true, 12, false).as_deref(), Some("Starting organization of 12 files"));
    assert_eq!(start_notification(true, 3, true).as_deref(), Some("Starting bulk organization of 3 files"));
    assert!(start_notification(false, 3, true).is_none());
    assert!(start_notification(true, 0, false).is_none());
}

use valet::desktop::validation::validation_result;

#[test]
fn validation_result_combines_check_and_preview() {
    let good = rule("x", vec![cond("extension", s("pdf"))], vec![act("move", obj(vec![("target", s("/d/{filename}"))]))]);
    let preview = simulate_rule_on_file(&good, "/in/a.pdf").unwrap().unwrap();
    let r = validation_result(check_rule(&good), Some(Ok(vec![preview])));
    assert!(r.is_valid);
    assert_eq!(r.affected_file_count, Some(1));
    assert_eq!(r.preview_actions[0].destination_path, "/d/a.pdf");
    let none = validation_result(check_rule(&good), Some(Ok(vec![])));
    assert_eq!(none.affected_file_count, None);
    let bad = rule("", vec![cond("size", s("1"))], vec![]);
    let r = validation_result(check_rule(&bad), Some(Err("Test path does not exist".to_string())));
    assert!(!r.is_valid);
    assert_eq!(r.errors.len(), 2);
    assert_eq!(
        r.warnings,
        vec![
            "Condition 1: Unknown condition type 'size'".to_string(),
            "Could not test rule against path: Test path does not exist".to_string(),
        ]
    );
    assert!(r.preview_actions.is_empty() && r.affected_file_count.is_none());
    assert!(validation_result(check_rule(&bad), None).warnings.len() == 1);
}

#[test]
fn operations_that_can_be_carried_out() {
    assert_eq!(file_operation_target(&Op::MoveTo { path: "/d/a".to_string() }), Ok(("/d/a".to_string(), false)));
    assert_eq!(file_operation_target(&Op::CopyTo { path: "/d/b".to_string() }), Ok(("/d/b".to_string(), true)));
    assert_eq!(file_operation_target(&Op::Rename { pattern: "x".to_string() }), Err("Unsupported operation type".to_string()));
    assert_eq!(file_operation_target(&Op::Quarantine), Err("Unsupported operation type".to_string()));
}

use valet::engine::plan_for_file;
use valet::matcher::FileFacts;

#[test]
fn savable_rule_plans_one_operation_per_action() {
    let mut r = rule(
        "all",
        vec![],
        vec![move_to("/x"), act("quarantine", JsonValue::Null), act("rename", obj(vec![("pattern", s("{name}"))]))],
    );
    r.always_apply = true;
    assert!(check_rule_for_save(&r).is_ok());
    let plan = plan_for_file(&[r], &FileFacts { path: "/in/a.txt", size: 3 });
    assert_eq!(plan.actions.len(), 3);
}
