use valet::engine::{dry_run_plan, map_action, plan_for_file, unix_secs};
use valet::hashing::short_hash_of;
use valet::json::{JsonNumber, JsonValue};
use valet::matcher::{matching_rules, rule_matches, FileFacts};
use valet::model::{DryRunPlan, FileRow, Op};
use valet::rules::{default_version, Action, Condition, Rule};

fn s(v: &str) -> JsonValue {
    JsonValue::String(v.to_string())
}

fn cond(kind: &str, value: JsonValue) -> Condition {
    Condition { kind: kind.to_string(), value }
}

fn obj(entries: Vec<(&str, JsonValue)>) -> JsonValue {
    JsonValue::Object(entries.into_iter().map(|(k, v)| (k.to_string(), v)).collect())
}

fn act(kind: &str, params: JsonValue) -> Action {
    Action { kind: kind.to_string(), params }
}

fn rule(name: &str, conditions: Vec<Condition>, actions: Vec<Action>) -> Rule {
    Rule {
        id: 7,
        name: name.to_string(),
        enabled: true,
        always_apply: false,
        conditions,
        actions,
        version: 1,
        options: JsonValue::Null,
    }
}

fn facts(path: &str, size: u64) -> FileFacts<'_> {
    FileFacts { path, size }
}

#[test]
fn ext_condition_ignores_ascii_case() {
    let r = rule("pdf", vec![cond("ext", s("PDF"))], vec![]);
    assert!(rule_matches(&r, &facts("/tmp/report.pdf", 10)));
    assert!(rule_matches(&r, &facts("/tmp/REPORT.Pdf", 10)));
    assert!(!rule_matches(&r, &facts("/tmp/report.txt", 10)));
    assert!(!rule_matches(&r, &facts("/tmp/.pdf", 10)));
    assert!(!rule_matches(&r, &facts("/tmp/pdf", 10)));
}

#[test]
fn ext_condition_without_string_wants_empty_extension() {
    let r = rule("empty", vec![cond("ext", JsonValue::Null)], vec![]);
    assert!(rule_matches(&r, &facts("/tmp/trailing.", 1)));
    assert!(!rule_matches(&r, &facts("/tmp/trailing.txt", 1)));
}

#[test]
fn name_matches_uses_the_file_name() {
    let r = rule("inv", vec![cond("nameMatches", s("^invoice"))], vec![]);
    assert!(rule_matches(&r, &facts("/home/me/invoice-2025.pdf", 1)));
    assert!(!rule_matches(&r, &facts("/invoice/report.pdf", 1)));
    let bad = rule("bad", vec![cond("nameMatches", s("("))], vec![]);
    assert!(!rule_matches(&bad, &facts("/a/(.txt", 1)));
}

#[test]
fn size_conditions_compare_unsigned() {
    let gt = rule("gt", vec![cond("sizeGt", JsonValue::Number(JsonNumber::PosInt(100)))], vec![]);
    assert!(rule_matches(&gt, &facts("/a", 101)));
    assert!(!rule_matches(&gt, &facts("/a", 100)));
    let lt = rule("lt", vec![cond("sizeLt", JsonValue::Number(JsonNumber::NegInt(-1)))], vec![]);
    assert!(rule_matches(&lt, &facts("/a", 5)));
    let gt_neg = rule("gtn", vec![cond("sizeGt", JsonValue::Number(JsonNumber::NegInt(-1)))], vec![]);
    assert!(!rule_matches(&gt_neg, &facts("/a", u64::MAX)));
    let missing = rule("m", vec![cond("sizeGt", s("12"))], vec![]);
    assert!(rule_matches(&missing, &facts("/a", 1)));
    assert!(!rule_matches(&missing, &facts("/a", 0)));
}

#[test]
fn path_contains_ignores_ascii_case() {
    let r = rule("dl", vec![cond("pathContains", s("Downloads"))], vec![]);
    assert!(rule_matches(&r, &facts("/home/me/downloads/x.zip", 1)));
    assert!(!rule_matches(&r, &facts("/home/me/desktop/x.zip", 1)));
}

#[test]
fn unknown_condition_never_holds() {
    let r = rule("u", vec![cond("mimeIs", s("text/plain"))], vec![]);
    assert!(!rule_matches(&r, &facts("/a.txt", 1)));
}

#[test]
fn disabled_always_and_empty_rules() {
    let mut r = rule("d", vec![], vec![]);
    assert!(rule_matches(&r, &facts("/a", 0)));
    r.enabled = false;
    assert!(!rule_matches(&r, &facts("/a", 0)));
    let mut always = rule("a", vec![cond("mimeIs", JsonValue::Null)], vec![]);
    always.always_apply = true;
    assert!(rule_matches(&always, &facts("/a", 0)));
    always.enabled = false;
    assert!(!rule_matches(&always, &facts("/a", 0)));
}

#[test]
fn matching_rules_keeps_order() {
    let rules = vec![
        rule("first", vec![cond("ext", s("pdf"))], vec![]),
        rule("second", vec![cond("ext", s("txt"))], vec![]),
        rule("third", vec![], vec![]),
    ];
    let m = matching_rules(&rules, &facts("/x/a.pdf", 3));
    let names: Vec<&str> = m.iter().map(|r| r.name.as_str()).collect();
    assert_eq!(names, vec!["first", "third"]);
}

#[test]
fn map_action_kinds() {
    match map_action(&act("moveTo", obj(vec![("path", s("/dst"))]))) {
        Some(Op::MoveTo { path }) => assert_eq!(path, "/dst"),
        _ => panic!("expected a move"),
    }
    match map_action(&act("copyTo", obj(vec![("path", s("/c"))]))) {
        Some(Op::CopyTo { path }) => assert_eq!(path, "/c"),
        _ => panic!("expected a copy"),
    }
    match map_action(&act("tag", obj(vec![("tags", JsonValue::Array(vec![s("a"), JsonValue::Bool(true), s("b")]))]))) {
        Some(Op::Tag { tags }) => assert_eq!(tags, vec!["a".to_string(), "b".to_string()]),
        _ => panic!("expected tags"),
    }
    match map_action(&act("rename", obj(vec![("pattern", s("{name}"))]))) {
        Some(Op::Rename { pattern }) => assert_eq!(pattern, "{name}"),
        _ => panic!("expected a rename"),
    }
    assert!(matches!(map_action(&act("quarantine", JsonValue::Null)), Some(Op::Quarantine)));
    assert!(map_action(&act("moveTo", obj(vec![("path", JsonValue::Bool(false))]))).is_none());
    assert!(map_action(&act("moveTo", JsonValue::Null)).is_none());
    assert!(map_action(&act("tag", obj(vec![("tags", s("x"))]))).is_none());
    assert!(map_action(&act("delete", JsonValue::Null)).is_none());
}

fn invoice_rule() -> Rule {
    let mut r = rule(
        "Invoices → Finance",
        vec![cond("nameMatches", s("(?i)invoice")), cond("ext", s("pdf"))],
        vec![
            act("moveTo", obj(vec![("path", s("~/Documents/Finance"))])),
            act("tag", obj(vec![("tags", JsonValue::Array(vec![s("finance"), s("invoice")]))])),
        ],
    );
    r.id = 42;
    r
}

#[test]
fn invoice_dry_run_scenario() {
    let rules = vec![invoice_rule()];
    let files = vec![facts("/home/me/Downloads/test-invoice-2025.pdf", 1000), facts("/home/me/Downloads/cat.png", 5)];
    let plan = dry_run_plan(&rules, &files);
    assert_eq!(plan.actions.len(), 2);
    let a = &plan.actions[0];
    assert_eq!(a.file_path, "/home/me/Downloads/test-invoice-2025.pdf");
    assert_eq!(a.rule_name, "Invoices → Finance");
    assert_eq!(a.rule_id, 42);
    assert!(matches!(&a.op, Op::MoveTo { path } if path == "~/Documents/Finance"));
    assert!(matches!(&plan.actions[1].op, Op::Tag { tags } if tags == &vec!["finance".to_string(), "invoice".to_string()]));
}

#[test]
fn plan_of_two_file_lists_is_the_concatenation() {
    let rules = vec![invoice_rule(), rule("all", vec![], vec![act("quarantine", JsonValue::Null)])];
    let f1 = vec![facts("/a/invoice.pdf", 1)];
    let f2 = vec![facts("/b/other.txt", 2)];
    let both = vec![facts("/a/invoice.pdf", 1), facts("/b/other.txt", 2)];
    let p1 = dry_run_plan(&rules, &f1);
    let p2 = dry_run_plan(&rules, &f2);
    let p = dry_run_plan(&rules, &both);
    assert_eq!(p.actions.len(), p1.actions.len() + p2.actions.len());
    assert_eq!(p.actions.len(), 4);
    let paths: Vec<&str> = p.actions.iter().map(|a| a.file_path.as_str()).collect();
    assert_eq!(paths, vec!["/a/invoice.pdf", "/a/invoice.pdf", "/a/invoice.pdf", "/b/other.txt"]);
    let single = plan_for_file(&rules, &facts("/b/other.txt", 2));
    assert_eq!(single.actions.len(), 1);
}

#[test]
fn no_rules_no_plan() {
    let plan = dry_run_plan(&[], &[facts("/a", 1), facts("/b", 2)]);
    assert!(plan.actions.is_empty());
    assert!(DryRunPlan::default().actions.is_empty());
}

#[test]
fn unix_secs_values() {
    assert_eq!(unix_secs(Some(1_700_000_000)), 1_700_000_000);
    assert_eq!(unix_secs(None), 0);
    assert_eq!(unix_secs(Some(u64::MAX)), -1);
}

#[test]
fn short_hash_matches_blake3_prefix() {
    for data in [&b""[..], &b"hello world"[..], &[0u8; 300][..]] {
        let h = blake3::hash(data);
        let mut first = [0u8; 16];
        first.copy_from_slice(&h.as_bytes()[..16]);
        let expected = format!("{:016x}", u128::from_le_bytes(first));
        let got = short_hash_of(data);
        assert_eq!(got, expected);
        assert!(got.len() >= 16 && got.len() <= 32);
        assert!(got.chars().all(|c| c.is_ascii_hexdigit() && !c.is_ascii_uppercase()));
    }
}

#[test]
fn id_for_path_is_uuid_v5_and_stable() {
    let a = FileRow::id_for_path("/home/me/file.txt");
    let b = FileRow::id_for_path("/home/me/file.txt");
    assert_eq!(a, b);
    let expected = uuid::Uuid::new_v5(&uuid::Uuid::NAMESPACE_URL, b"/home/me/file.txt").as_u128();
    assert_eq!(a, expected);
    assert_ne!(a, FileRow::id_for_path("/home/me/other.txt"));
    assert_eq!((a >> 76) & 0xf, 5);
    assert_eq!((a >> 62) & 0x3, 2);
    assert_eq!(uuid::Uuid::from_u128(a).get_version_num(), 5);
}

#[test]
fn file_row_for_indexing() {
    let row = FileRow::for_file("/x/y.bin", 12345, 99, Some("abc".to_string()));
    assert_eq!(row.id, FileRow::id_for_path("/x/y.bin"));
    assert_eq!(row.path, "/x/y.bin");
    assert_eq!(row.size, 12345);
    assert_eq!(row.mtime, 99);
    assert_eq!(row.hash_short.as_deref(), Some("abc"));
    assert_eq!(row.tags_json, "[]");
    assert_eq!(FileRow::for_file("/big", u64::MAX, 0, None).size, -1);
}

#[test]
fn default_version_is_one() {
    assert_eq!(default_version(), 1);
}

#[test]
fn path_contains_lowers_only_ascii() {
    let upper = rule("u", vec![cond("pathContains", s("ÄPFEL"))], vec![]);
    assert!(rule_matches(&upper, &facts("/home/Äpfel/x", 1)));
    let lower = rule("l", vec![cond("pathContains", s("äpfel"))], vec![]);
    assert!(!rule_matches(&lower, &facts("/home/Äpfel/x", 1)));
    let empty = rule("e", vec![cond("pathContains", s(""))], vec![]);
    assert!(rule_matches(&empty, &facts("", 1)));
    let longer = rule("g", vec![cond("pathContains", s("/a/b/c"))], vec![]);
    assert!(!rule_matches(&longer, &facts("/a/b", 1)));
}
