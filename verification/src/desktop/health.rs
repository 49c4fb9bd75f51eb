//! The decisions of the system health check.

use vstd::prelude::*;
use crate::text::{decimal, push_decimal, str_eq, to_owned};

verus! {

/// How healthy a component, or the whole system, is.
#[derive(PartialEq, Eq, Structural, Clone, Copy)]
pub enum HealthStatus {
    Excellent,
    Good,
    Warning,
    Critical,
    Failed,
}

/// How serious a reported issue is.
#[derive(PartialEq, Eq, Structural, Clone, Copy)]
pub enum IssueSeverity {
    Info,
    Warning,
    Error,
    Critical,
}

/// The verdict on one component: its status and its score out of 100.
pub struct ComponentVerdict {
    pub status: HealthStatus,
    pub score: u32,
}

/// The overall health: the worst status among the components, in the order
/// excellent, good, warning, critical; excellent when no component reports
/// one of these (a failed status is not counted).
pub open spec fn overall_health(statuses: Seq<HealthStatus>) -> HealthStatus {
    if exists|i: int| 0 <= i < statuses.len() && statuses[i] == HealthStatus::Critical {
        HealthStatus::Critical
    } else if exists|i: int| 0 <= i < statuses.len() && statuses[i] == HealthStatus::Warning {
        HealthStatus::Warning
    } else if exists|i: int| 0 <= i < statuses.len() && statuses[i] == HealthStatus::Good {
        HealthStatus::Good
    } else {
        HealthStatus::Excellent
    }
}

/// How bad a status is: excellent, good, warning, critical in rising order
/// (failed ranks with excellent, as the overall health does not count it).
pub open spec fn severity_rank(s: HealthStatus) -> int {
    match s {
        HealthStatus::Excellent => 0,
        HealthStatus::Good => 1,
        HealthStatus::Warning => 2,
        HealthStatus::Critical => 3,
        HealthStatus::Failed => 0,
    }
}

/// The overall health of the components whose statuses are given.
pub fn determine_overall_health(statuses: &[HealthStatus]) -> (r: HealthStatus)
    ensures
        r == overall_health(statuses@),
{
    let mut critical = false;
    let mut warning = false;
    let mut good = false;
    let mut i: usize = 0;
    while i < statuses.len()
        invariant
            i <= statuses@.len(),
            critical <==> exists|j: int| 0 <= j < i && statuses@[j] == HealthStatus::Critical,
            warning <==> exists|j: int| 0 <= j < i && statuses@[j] == HealthStatus::Warning,
            good <==> exists|j: int| 0 <= j < i && statuses@[j] == HealthStatus::Good,
        decreases statuses@.len() - i,
    {
        match statuses[i] {
            HealthStatus::Critical => {
                critical = true;
            },
            HealthStatus::Warning => {
                warning = true;
            },
            HealthStatus::Good => {
                good = true;
            },
            _ => {},
        }
        i = i + 1;
    }
    if critical {
        HealthStatus::Critical
    } else if warning {
        HealthStatus::Warning
    } else if good {
        HealthStatus::Good
    } else {
        HealthStatus::Excellent
    }
}

/// The overall health is the worst status among the components: no
/// component is worse, and it is one of theirs (excellent when there is
/// none, or only failed ones). It is never failed.
pub proof fn law_overall_health_is_the_worst(statuses: Seq<HealthStatus>)
    ensures
        forall|i: int| 0 <= i < statuses.len() ==> severity_rank(#[trigger] statuses[i]) <= severity_rank(overall_health(statuses)),
        overall_health(statuses) == HealthStatus::Excellent || exists|i: int|
            0 <= i < statuses.len() && statuses[i] == overall_health(statuses),
        overall_health(statuses) != HealthStatus::Failed,
{
}

/// The verdict on a component that could not be checked.
pub fn unavailable_component() -> (r: ComponentVerdict)
    ensures
        r.status == HealthStatus::Critical,
        r.score == 0,
{
    ComponentVerdict { status: HealthStatus::Critical, score: 0 }
}

/// The verdict on the database: excellent when its file is there.
pub fn database_verdict(file_exists: bool) -> (r: ComponentVerdict)
    ensures
        file_exists ==> r.status == HealthStatus::Excellent && r.score == 100,
        !file_exists ==> r.status == HealthStatus::Critical && r.score == 0,
{
    if file_exists {
        ComponentVerdict { status: HealthStatus::Excellent, score: 100 }
    } else {
        unavailable_component()
    }
}

/// The verdict on the backup system: excellent with backups, a warning
/// without.
pub fn backup_verdict(backup_count: usize) -> (r: ComponentVerdict)
    ensures
        backup_count > 0 ==> r.status == HealthStatus::Excellent && r.score == 100,
        backup_count == 0 ==> r.status == HealthStatus::Warning && r.score == 50,
{
    if backup_count > 0 {
        ComponentVerdict { status: HealthStatus::Excellent, score: 100 }
    } else {
        ComponentVerdict { status: HealthStatus::Warning, score: 50 }
    }
}

/// The verdict on the rule engine: excellent with rules, good without.
pub fn rule_engine_verdict(rule_count: usize) -> (r: ComponentVerdict)
    ensures
        rule_count > 0 ==> r.status == HealthStatus::Excellent && r.score == 100,
        rule_count == 0 ==> r.status == HealthStatus::Good && r.score == 75,
{
    if rule_count > 0 {
        ComponentVerdict { status: HealthStatus::Excellent, score: 100 }
    } else {
        ComponentVerdict { status: HealthStatus::Good, score: 75 }
    }
}

/// The verdict on storage from the free space in bytes: above 1 GB
/// excellent, above 100 MB good, above 10 MB a warning, critical below.
pub fn storage_verdict(available: u64) -> (r: ComponentVerdict)
    ensures
        available > 1_000_000_000 ==> r.status == HealthStatus::Excellent && r.score == 100,
        100_000_000 < available <= 1_000_000_000 ==> r.status == HealthStatus::Good && r.score == 75,
        10_000_000 < available <= 100_000_000 ==> r.status == HealthStatus::Warning && r.score == 50,
        available <= 10_000_000 ==> r.status == HealthStatus::Critical && r.score == 25,
{
    if available > 1_000_000_000 {
        ComponentVerdict { status: HealthStatus::Excellent, score: 100 }
    } else if available > 100_000_000 {
        ComponentVerdict { status: HealthStatus::Good, score: 75 }
    } else if available > 10_000_000 {
        ComponentVerdict { status: HealthStatus::Warning, score: 50 }
    } else {
        ComponentVerdict { status: HealthStatus::Critical, score: 25 }
    }
}

/// The free disk space the health check assumes.
pub fn get_available_disk_space(path: &str) -> (r: Result<u64, String>)
    ensures
        r == Ok::<u64, String>(10_000_000_000),
{
    Ok(10_000_000_000)
}

/// A problem the health check reports.
pub struct HealthIssue {
    pub severity: IssueSeverity,
    pub component: String,
    pub description: String,
    pub suggestion: String,
    pub auto_fixable: bool,
}

/// The contents of a [`HealthIssue`].
pub struct HealthIssueView {
    pub severity: IssueSeverity,
    pub component: Seq<char>,
    pub description: Seq<char>,
    pub suggestion: Seq<char>,
    pub auto_fixable: bool,
}

impl View for HealthIssue {
    type V = HealthIssueView;

    open spec fn view(&self) -> HealthIssueView {
        HealthIssueView {
            severity: self.severity,
            component: self.component@,
            description: self.description@,
            suggestion: self.suggestion@,
            auto_fixable: self.auto_fixable,
        }
    }
}

/// The suggestion for a critical component.
pub open spec fn critical_suggestion() -> Seq<char> {
    "Immediate attention required for critical component"@
}

/// The suggestion for a component with a warning.
pub open spec fn warning_suggestion() -> Seq<char> {
    "Monitor component and consider optimization"@
}

/// The issue a component with verdict `v` raises: a critical component
/// needs immediate attention, one with a warning should be watched (and can
/// be fixed automatically); others raise none. The score is written as a
/// whole number.
pub open spec fn component_issue_of(v: ComponentVerdict) -> Option<HealthIssueView> {
    match v.status {
        HealthStatus::Critical => Some(HealthIssueView {
            severity: IssueSeverity::Critical,
            component: "System Component"@,
            description: "Critical issue detected with score: "@ + decimal(v.score as nat),
            suggestion: critical_suggestion(),
            auto_fixable: false,
        }),
        HealthStatus::Warning => Some(HealthIssueView {
            severity: IssueSeverity::Warning,
            component: "System Component"@,
            description: "Warning detected with score: "@ + decimal(v.score as nat),
            suggestion: warning_suggestion(),
            auto_fixable: true,
        }),
        _ => None,
    }
}

/// The issue a component with verdict `v` raises, if any.
pub fn component_issue(v: &ComponentVerdict) -> (r: Option<HealthIssue>)
    ensures
        match component_issue_of(*v) {
            Some(i) => r matches Some(x) && x@ == i,
            None => r is None,
        },
{
    match v.status {
        HealthStatus::Critical => {
            let mut d = to_owned("Critical issue detected with score: ");
            push_decimal(&mut d, v.score as u64);
            Some(HealthIssue {
                severity: IssueSeverity::Critical,
                component: to_owned("System Component"),
                description: d,
                suggestion: to_owned("Immediate attention required for critical component"),
                auto_fixable: false,
            })
        },
        HealthStatus::Warning => {
            let mut d = to_owned("Warning detected with score: ");
            push_decimal(&mut d, v.score as u64);
            Some(HealthIssue {
                severity: IssueSeverity::Warning,
                component: to_owned("System Component"),
                description: d,
                suggestion: to_owned("Monitor component and consider optimization"),
                auto_fixable: true,
            })
        },
        _ => None,
    }
}

/// Adds the issue that `component` raises, and its suggestion as a
/// recommendation; a healthy component adds nothing.
pub fn analyze_component_health(component: &ComponentVerdict, issues: &mut Vec<HealthIssue>, recommendations: &mut Vec<String>)
    ensures
        match component_issue_of(*component) {
            Some(i) => final(issues)@.map_values(|x: HealthIssue| x@) == old(issues)@.map_values(|x: HealthIssue| x@).push(i)
                && final(recommendations)@.map_values(|s: String| s@) == old(recommendations)@.map_values(|s: String| s@).push(i.suggestion),
            None => final(issues)@ == old(issues)@ && final(recommendations)@ == old(recommendations)@,
        },
{
    match component_issue(component) {
        Some(issue) => {
            let ghost iv = issue@;
            let ghost before_i = issues@.map_values(|x: HealthIssue| x@);
            let ghost before_r = recommendations@.map_values(|s: String| s@);
            let suggestion = issue.suggestion.clone();
            issues.push(issue);
            recommendations.push(suggestion);
            assert(issues@.map_values(|x: HealthIssue| x@) =~= before_i.push(iv));
            assert(recommendations@.map_values(|s: String| s@) =~= before_r.push(iv.suggestion));
        },
        None => {},
    }
}

/// The outcome of one system test.
#[derive(PartialEq, Eq, Structural, Clone, Copy)]
pub enum TestStatus {
    Passed,
    Failed,
    Skipped,
    Running,
}

/// How many of `statuses` are `s`.
pub open spec fn count_status(statuses: Seq<TestStatus>, s: TestStatus) -> nat
    decreases statuses.len(),
{
    if statuses.len() == 0 {
        0
    } else {
        count_status(statuses.drop_last(), s) + if statuses.last() == s { 1nat } else { 0nat }
    }
}

/// The totals of a test run.
pub struct TestTotals {
    pub total_tests: u32,
    pub passed_tests: u32,
    pub failed_tests: u32,
}

/// The totals of a test run: all tests, the passed ones and the failed ones,
/// each counted as a 32-bit number.
pub fn test_totals(statuses: &[TestStatus]) -> (r: TestTotals)
    ensures
        r.total_tests == statuses@.len() as u32,
        r.passed_tests == count_status(statuses@, TestStatus::Passed) as u32,
        r.failed_tests == count_status(statuses@, TestStatus::Failed) as u32,
{
    let mut passed: usize = 0;
    let mut failed: usize = 0;
    let mut i: usize = 0;
    while i < statuses.len()
        invariant
            i <= statuses@.len(),
            passed == count_status(statuses@.take(i as int), TestStatus::Passed),
            failed == count_status(statuses@.take(i as int), TestStatus::Failed),
            passed <= i,
            failed <= i,
        decreases statuses@.len() - i,
    {
        assert(statuses@.take(i + 1).drop_last() =~= statuses@.take(i as int));
        assert(statuses@.take(i + 1).last() == statuses@[i as int]);
        match statuses[i] {
            TestStatus::Passed => {
                passed = passed + 1;
            },
            TestStatus::Failed => {
                failed = failed + 1;
            },
            _ => {},
        }
        i = i + 1;
    }
    assert(statuses@.take(statuses@.len() as int) =~= statuses@);
    TestTotals {
        total_tests: #[verifier::truncate] (statuses.len() as u32),
        passed_tests: #[verifier::truncate] (passed as u32),
        failed_tests: #[verifier::truncate] (failed as u32),
    }
}

/// The kind of a system test.
#[derive(PartialEq, Eq, Structural, Clone, Copy)]
pub enum TestCategory {
    Unit,
    Integration,
    Performance,
    Security,
    EndToEnd,
}

/// One system test and how it went.
pub struct SystemTest {
    pub name: String,
    pub category: TestCategory,
    pub status: TestStatus,
    pub execution_time_ms: u64,
    pub error_message: Option<String>,
}

/// The contents of a [`SystemTest`].
pub struct SystemTestView {
    pub name: Seq<char>,
    pub category: TestCategory,
    pub status: TestStatus,
    pub execution_time_ms: u64,
    pub error_message: Option<Seq<char>>,
}

impl View for SystemTest {
    type V = SystemTestView;

    open spec fn view(&self) -> SystemTestView {
        SystemTestView {
            name: self.name@,
            category: self.category,
            status: self.status,
            execution_time_ms: self.execution_time_ms,
            error_message: match self.error_message {
                Some(m) => Some(m@),
                None => None,
            },
        }
    }
}

/// A passed test without an error.
pub open spec fn passed_test(name: Seq<char>, category: TestCategory, ms: u64) -> SystemTestView {
    SystemTestView { name, category, status: TestStatus::Passed, execution_time_ms: ms, error_message: None }
}

/// The tests of a category, by its name: `unit`, `integration`,
/// `performance`, `security` or `end-to-end`; no tests for any other name.
pub open spec fn category_tests_of(category: Seq<char>) -> Seq<SystemTestView> {
    if category == "unit"@ {
        seq![
            passed_test("Rule matching logic"@, TestCategory::Unit, 15),
            passed_test("File operation utilities"@, TestCategory::Unit, 8),
        ]
    } else if category == "integration"@ {
        seq![passed_test("Rule engine integration"@, TestCategory::Integration, 250)]
    } else if category == "performance"@ {
        seq![passed_test("Bulk file processing"@, TestCategory::Performance, 1500)]
    } else if category == "security"@ {
        seq![passed_test("File permission validation"@, TestCategory::Security, 100)]
    } else if category == "end-to-end"@ {
        seq![passed_test("Complete workflow test"@, TestCategory::EndToEnd, 2000)]
    } else {
        Seq::empty()
    }
}

fn passed(name: &str, category: TestCategory, ms: u64) -> (r: SystemTest)
    ensures
        r@ == passed_test(name@, category, ms),
{
    SystemTest { name: to_owned(name), category, status: TestStatus::Passed, execution_time_ms: ms, error_message: None }
}

/// The tests of the category named `category`.
pub fn category_tests(category: &str) -> (r: Vec<SystemTest>)
    ensures
        r@.map_values(|t: SystemTest| t@) == category_tests_of(category@),
{
    let r = if str_eq(category, "unit") {
        vec![passed("Rule matching logic", TestCategory::Unit, 15), passed("File operation utilities", TestCategory::Unit, 8)]
    } else if str_eq(category, "integration") {
        vec![passed("Rule engine integration", TestCategory::Integration, 250)]
    } else if str_eq(category, "performance") {
        vec![passed("Bulk file processing", TestCategory::Performance, 1500)]
    } else if str_eq(category, "security") {
        vec![passed("File permission validation", TestCategory::Security, 100)]
    } else if str_eq(category, "end-to-end") {
        vec![passed("Complete workflow test", TestCategory::EndToEnd, 2000)]
    } else {
        Vec::new()
    };
    assert(r@.map_values(|t: SystemTest| t@) =~= category_tests_of(category@));
    r
}

/// The tests of `categories`, category by category.
pub open spec fn suite_tests(categories: Seq<String>) -> Seq<SystemTestView>
    decreases categories.len(),
{
    if categories.len() == 0 {
        Seq::empty()
    } else {
        suite_tests(categories.drop_last()) + category_tests_of(categories.last()@)
    }
}

/// The outcome of a test run.
pub struct TestSuite {
    pub tests: Vec<SystemTest>,
    pub totals: TestTotals,
}

/// Runs the tests of `categories` in order and counts them.
pub fn run_system_tests(categories: &[String]) -> (r: TestSuite)
    ensures
        r.tests@.map_values(|t: SystemTest| t@) == suite_tests(categories@),
        r.totals.total_tests == suite_tests(categories@).len() as u32,
        r.totals.passed_tests == count_status(suite_tests(categories@).map_values(|t: SystemTestView| t.status), TestStatus::Passed) as u32,
        r.totals.failed_tests == count_status(suite_tests(categories@).map_values(|t: SystemTestView| t.status), TestStatus::Failed) as u32,
{
    let mut tests: Vec<SystemTest> = Vec::new();
    let mut statuses: Vec<TestStatus> = Vec::new();
    let mut i: usize = 0;
    while i < categories.len()
        invariant
            i <= categories@.len(),
            tests@.map_values(|t: SystemTest| t@) == suite_tests(categories@.take(i as int)),
            statuses@ == suite_tests(categories@.take(i as int)).map_values(|t: SystemTestView| t.status),
        decreases categories@.len() - i,
    {
        assert(categories@.take(i + 1).drop_last() =~= categories@.take(i as int));
        assert(categories@.take(i + 1).last() == categories@[i as int]);
        let mut more = category_tests(categories[i].as_str());
        let ghost before = tests@.map_values(|t: SystemTest| t@);
        let ghost before_s = statuses@;
        let ghost mv = more@.map_values(|t: SystemTest| t@);
        let mut j: usize = 0;
        while j < more.len()
            invariant
                j <= more@.len(),
                mv == more@.map_values(|t: SystemTest| t@),
                statuses@ == before_s + mv.take(j as int).map_values(|t: SystemTestView| t.status),
            decreases more@.len() - j,
        {
            statuses.push(more[j].status);
            assert(mv.take(j + 1) =~= mv.take(j as int).push(mv[j as int]));
            assert(statuses@ =~= before_s + mv.take(j + 1).map_values(|t: SystemTestView| t.status));
            j = j + 1;
        }
        tests.append(&mut more);
        assert(tests@.map_values(|t: SystemTest| t@) =~= before + mv);
        assert(mv.take(mv.len() as int) =~= mv);
        assert(suite_tests(categories@.take(i + 1)).map_values(|t: SystemTestView| t.status) =~= before_s + mv.map_values(|t: SystemTestView| t.status));
        i = i + 1;
    }
    assert(categories@.take(categories@.len() as int) =~= categories@);
    let totals = test_totals(statuses.as_slice());
    TestSuite { tests, totals }
}

/// The system is excellent exactly when no component is critical, has a
/// warning or is merely good.
pub proof fn law_excellent_means_no_component_needs_attention(statuses: Seq<HealthStatus>)
    ensures
        overall_health(statuses) == HealthStatus::Excellent <==> forall|i: int|
            0 <= i < statuses.len() ==> #[trigger] statuses[i] != HealthStatus::Critical && statuses[i] != HealthStatus::Warning
                && statuses[i] != HealthStatus::Good,
{
}

/// Passed and failed tests together are never more than all the tests.
pub proof fn law_passed_and_failed_are_among_all_tests(statuses: Seq<TestStatus>)
    ensures
        count_status(statuses, TestStatus::Passed) + count_status(statuses, TestStatus::Failed) <= statuses.len(),
    decreases statuses.len(),
{
    if statuses.len() > 0 {
        law_passed_and_failed_are_among_all_tests(statuses.drop_last());
    }
}

} // verus!
