//! Carrying out planned operations: how they are labelled and reported, and
//! when a failed one is retried.

use vstd::prelude::*;
use vstd::multiset::Multiset;
use crate::model::{DryRunAction, Op, OpView};
use crate::desktop::settings::RetryConfig;
use crate::text::{decimal, push_decimal, push_str, str_eq, to_owned};

verus! {

/// The kind of operation as execution records it: `move`, `copy`, or `other`.
pub open spec fn execution_kind_text(op: OpView) -> Seq<char> {
    match op {
        OpView::MoveTo(_) => "move"@,
        OpView::CopyTo(_) => "copy"@,
        _ => "other"@,
    }
}

/// The kind of operation as a dry run reports it: `move`, `copy`, or
/// `unknown`.
pub open spec fn dry_run_kind_text(op: OpView) -> Seq<char> {
    match op {
        OpView::MoveTo(_) => "move"@,
        OpView::CopyTo(_) => "copy"@,
        _ => "unknown"@,
    }
}

/// Where an operation sends the file: the path of a move or copy, `N/A`
/// otherwise.
pub open spec fn destination_text(op: OpView) -> Seq<char> {
    match op {
        OpView::MoveTo(p) => p,
        OpView::CopyTo(p) => p,
        _ => "N/A"@,
    }
}

/// The kind of operation as execution records it.
pub fn execution_kind(op: &Op) -> (r: &'static str)
    ensures
        r@ == execution_kind_text(op@),
{
    match op {
        Op::MoveTo { .. } => "move",
        Op::CopyTo { .. } => "copy",
        _ => "other",
    }
}

/// The kind of operation as a dry run reports it.
pub fn dry_run_kind(op: &Op) -> (r: &'static str)
    ensures
        r@ == dry_run_kind_text(op@),
{
    match op {
        Op::MoveTo { .. } => "move",
        Op::CopyTo { .. } => "copy",
        _ => "unknown",
    }
}

/// Where an operation sends the file.
pub fn destination_of(op: &Op) -> (r: String)
    ensures
        r@ == destination_text(op@),
{
    match op {
        Op::MoveTo { path } => path.clone(),
        Op::CopyTo { path } => path.clone(),
        _ => to_owned("N/A"),
    }
}

/// One row of the dry-run report.
pub struct DryRunRow {
    pub source_path: String,
    pub destination_path: String,
    pub rule_name: String,
    pub operation: String,
}

/// The dry-run report row of a planned action.
pub fn dry_run_row(action: &DryRunAction) -> (r: DryRunRow)
    ensures
        r.source_path@ == action.file_path@,
        r.destination_path@ == destination_text(action.op@),
        r.rule_name@ == action.rule_name@,
        r.operation@ == dry_run_kind_text(action.op@),
{
    DryRunRow {
        source_path: action.file_path.clone(),
        destination_path: destination_of(&action.op),
        rule_name: action.rule_name.clone(),
        operation: to_owned(dry_run_kind(&action.op)),
    }
}

/// `2` to the power `n`.
pub open spec fn pow2(n: nat) -> nat
    decreases n,
{
    if n == 0 {
        1
    } else {
        2 * pow2((n - 1) as nat)
    }
}

/// The wait before attempt number `next` (counting the first retry as 1):
/// the base delay, doubled for each earlier retry when the backoff is
/// exponential.
pub open spec fn backoff_delay(cfg: RetryConfig, next: nat) -> nat {
    if cfg.exponential_backoff {
        (cfg.retry_delay_ms as nat) * pow2((next - 1) as nat)
    } else {
        cfg.retry_delay_ms as nat
    }
}

/// What to do after an attempt.
pub enum RetryDecision {
    /// The operation succeeded.
    Done,
    /// Wait `delay_ms`, then make attempt number `attempt`.
    Retry { attempt: usize, delay_ms: u64 },
    /// Stop, reporting `message`.
    GiveUp { message: String },
}

/// The message when every attempt failed, the last with `last_error`.
pub open spec fn give_up_text(cfg: RetryConfig, last_error: Seq<char>) -> Seq<char> {
    "Operation failed after "@ + decimal((cfg.max_retries + 1) as nat) + " attempts. Last error: "@ + last_error
}

/// The decision after attempt `attempt` (0 for the first try) with outcome
/// `outcome`: done on success; otherwise retry while retries remain, giving
/// up after the last one.
pub open spec fn retry_ok(r: RetryDecision, cfg: RetryConfig, attempt: nat, outcome: Result<(), String>) -> bool {
    match outcome {
        Ok(()) => r is Done,
        Err(e) => if attempt + 1 <= cfg.max_retries {
            r matches RetryDecision::Retry { attempt: a, delay_ms } && a == attempt + 1
                && delay_ms == backoff_delay(cfg, attempt + 1)
        } else {
            r matches RetryDecision::GiveUp { message } && message@ == give_up_text(cfg, e@)
        },
    }
}

/// The inputs on which computing the next wait does not overflow.
pub open spec fn retry_in_range(cfg: RetryConfig, attempt: nat) -> bool {
    &&& cfg.max_retries < usize::MAX
    &&& attempt <= cfg.max_retries
    &&& (cfg.exponential_backoff && attempt + 1 <= cfg.max_retries) ==> (attempt < 64
        && cfg.retry_delay_ms * pow2(attempt) <= u64::MAX)
}

proof fn lemma_pow2_mono(a: nat, b: nat)
    requires
        a <= b,
    ensures
        pow2(a) <= pow2(b),
        pow2(a) >= 1,
    decreases b,
{
    if a < b {
        lemma_pow2_mono(a, (b - 1) as nat);
    } else if a > 0 {
        lemma_pow2_mono((a - 1) as nat, (a - 1) as nat);
    }
}

proof fn lemma_pow2_63()
    ensures
        pow2(63) == 0x8000_0000_0000_0000,
{
    reveal_with_fuel(pow2, 64);
}

/// `2` to the power `n`, for `n < 64`.
fn pow2_u64(n: usize) -> (r: u64)
    requires
        n < 64,
    ensures
        r == pow2(n as nat),
{
    let mut p: u64 = 1;
    let mut k: usize = 0;
    while k < n
        invariant
            k <= n,
            n < 64,
            p == pow2(k as nat),
        decreases n - k,
    {
        proof {
            lemma_pow2_mono((k + 1) as nat, 63);
            lemma_pow2_63();
            assert(pow2((k + 1) as nat) == 2 * pow2(k as nat));
        }
        p = p * 2;
        k = k + 1;
    }
    p
}

/// What to do after attempt `attempt` of an operation (0 for the first try)
/// ended with `outcome`.
pub fn retry_decision(cfg: &RetryConfig, attempt: usize, outcome: &Result<(), String>) -> (r: RetryDecision)
    requires
        retry_in_range(*cfg, attempt as nat),
    ensures
        retry_ok(r, *cfg, attempt as nat, *outcome),
{
    match outcome {
        Ok(()) => RetryDecision::Done,
        Err(e) => {
            let next = attempt + 1;
            if next <= cfg.max_retries {
                let delay = if cfg.exponential_backoff {
                    let p = pow2_u64(attempt);
                    cfg.retry_delay_ms * p
                } else {
                    cfg.retry_delay_ms
                };
                RetryDecision::Retry { attempt: next, delay_ms: delay }
            } else {
                let mut s = to_owned("Operation failed after ");
                push_decimal(&mut s, (cfg.max_retries + 1) as u64);
                push_str(&mut s, " attempts. Last error: ");
                push_str(&mut s, e.as_str());
                RetryDecision::GiveUp { message: s }
            }
        },
    }
}

/// When every attempt fails, an operation is tried `max_retries + 1` times:
/// each failed attempt before the last leads to a retry, the last to giving
/// up.
pub proof fn law_failing_operation_is_tried_max_retries_plus_one_times(
    cfg: RetryConfig,
    attempt: nat,
    e: String,
    r: RetryDecision,
)
    requires
        attempt <= cfg.max_retries,
        retry_ok(r, cfg, attempt, Err(e)),
    ensures
        attempt < cfg.max_retries <==> r is Retry,
        attempt == cfg.max_retries <==> r is GiveUp,
{
}

/// With exponential backoff each wait is twice the one before.
pub proof fn law_backoff_doubles(cfg: RetryConfig, next: nat)
    requires
        cfg.exponential_backoff,
        next >= 1,
    ensures
        backoff_delay(cfg, next + 1) == 2 * backoff_delay(cfg, next),
{
    assert(pow2(next) == 2 * pow2((next - 1) as nat));
    assert(cfg.retry_delay_ms * (2 * pow2((next - 1) as nat)) == 2 * (cfg.retry_delay_ms * pow2((next - 1) as nat)))
        by (nonlinear_arith);
}

/// The number of days of history that a statistics time range covers:
/// `1d`, `7d`, `30d` and `90d` their days, `all` everything, and anything
/// else seven days.
pub open spec fn range_days(range: Seq<char>) -> Option<i64> {
    if range == "1d"@ {
        Some(1)
    } else if range == "7d"@ {
        Some(7)
    } else if range == "30d"@ {
        Some(30)
    } else if range == "90d"@ {
        Some(90)
    } else if range == "all"@ {
        None
    } else {
        Some(7)
    }
}

/// The numerals of the day counts that a range may name.
proof fn lemma_day_numerals()
    ensures
        decimal(1) + "d"@ == "1d"@,
        decimal(7) + "d"@ == "7d"@,
        decimal(30) + "d"@ == "30d"@,
        decimal(90) + "d"@ == "90d"@,
{
    reveal_strlit("d");
    reveal_strlit("1d");
    reveal_strlit("7d");
    reveal_strlit("30d");
    reveal_strlit("90d");
    assert(decimal(3) =~= seq!['3']);
    assert(decimal(9) =~= seq!['9']);
    assert(decimal(30) =~= seq!['3', '0']);
    assert(decimal(90) =~= seq!['9', '0']);
    assert(decimal(1) + "d"@ =~= "1d"@);
    assert(decimal(7) + "d"@ =~= "7d"@);
    assert(decimal(30) + "d"@ =~= "30d"@);
    assert(decimal(90) + "d"@ =~= "90d"@);
}

/// The range names differ from one another.
proof fn lemma_range_names_differ()
    ensures
        "1d"@ != "7d"@,
        "1d"@ != "30d"@,
        "1d"@ != "90d"@,
        "1d"@ != "all"@,
        "7d"@ != "30d"@,
        "7d"@ != "90d"@,
        "7d"@ != "all"@,
        "30d"@ != "90d"@,
        "30d"@ != "all"@,
        "90d"@ != "all"@,
{
    reveal_strlit("1d");
    reveal_strlit("7d");
    reveal_strlit("30d");
    reveal_strlit("90d");
    reveal_strlit("all");
    assert("1d"@[0] != "7d"@[0]);
    assert("1d"@.len() != "30d"@.len());
    assert("1d"@.len() != "90d"@.len());
    assert("1d"@.len() != "all"@.len());
    assert("7d"@.len() != "30d"@.len());
    assert("7d"@.len() != "90d"@.len());
    assert("7d"@.len() != "all"@.len());
    assert("30d"@[0] != "90d"@[0]);
    assert("30d"@[0] != "all"@[0]);
    assert("90d"@[0] != "all"@[0]);
}

/// Each range the statistics offer, a day count `n` of 1, 7, 30 or 90
/// written in decimal and followed by `d`, covers exactly `n` days.
pub proof fn law_named_range_covers_its_days(n: nat)
    requires
        n == 1 || n == 7 || n == 30 || n == 90,
    ensures
        range_days(decimal(n) + "d"@) == Some(n as i64),
{
    lemma_range_names_differ();
    lemma_day_numerals();
}

/// Every range but `all` covers a number of days: the number it names as
/// `<n>d`, or else the default of seven; `all` alone covers everything.
pub proof fn law_range_covers_named_days_or_the_default(range: Seq<char>)
    ensures
        range_days(range) is None <==> range == "all"@,
        range_days(range) matches Some(d) ==> (d > 0 && (range == decimal(d as nat) + "d"@ || d == 7)),
{
    lemma_range_names_differ();
    lemma_day_numerals();
}

/// The number of days of history that a statistics time range covers.
pub fn days_back_for_range(range: &str) -> (r: Option<i64>)
    ensures
        r == range_days(range@),
{
    if str_eq(range, "1d") {
        Some(1)
    } else if str_eq(range, "7d") {
        Some(7)
    } else if str_eq(range, "30d") {
        Some(30)
    } else if str_eq(range, "90d") {
        Some(90)
    } else if str_eq(range, "all") {
        None
    } else {
        Some(7)
    }
}

/// The name an imported rule is saved under: its own name when existing rules
/// may be overwritten, its name with ` (imported)` otherwise.
pub fn imported_rule_name(name: &str, overwrite_existing: bool) -> (r: String)
    ensures
        r@ == if overwrite_existing { name@ } else { name@ + " (imported)"@ },
{
    let mut s = to_owned(name);
    if !overwrite_existing {
        push_str(&mut s, " (imported)");
    }
    s
}


/// A planned operation that failed when it was carried out.
pub struct ExecuteError {
    pub source_path: String,
    pub destination_path: String,
    pub rule_name: String,
    pub error_message: String,
}

/// The contents of an [`ExecuteError`].
pub struct ExecuteErrorView {
    pub source_path: Seq<char>,
    pub destination_path: Seq<char>,
    pub rule_name: Seq<char>,
    pub error_message: Seq<char>,
}

impl View for ExecuteError {
    type V = ExecuteErrorView;

    open spec fn view(&self) -> ExecuteErrorView {
        ExecuteErrorView {
            source_path: self.source_path@,
            destination_path: self.destination_path@,
            rule_name: self.rule_name@,
            error_message: self.error_message@,
        }
    }
}

/// The failure report of planned action `a` that failed with `message`.
pub open spec fn failure_of(a: DryRunAction, message: Seq<char>) -> ExecuteErrorView {
    ExecuteErrorView {
        source_path: a.file_path@,
        destination_path: destination_text(a.op@),
        rule_name: a.rule_name@,
        error_message: message,
    }
}

/// The outcome of carrying out a plan.
pub struct ExecuteResponse {
    pub executed_count: usize,
    pub failed_operations: Vec<ExecuteError>,
    pub success: bool,
}

/// How many of `outcomes` succeeded.
pub open spec fn successes(outcomes: Seq<Result<(), String>>) -> nat
    decreases outcomes.len(),
{
    if outcomes.len() == 0 {
        0
    } else {
        successes(outcomes.drop_last()) + if outcomes.last() is Ok { 1nat } else { 0nat }
    }
}

/// The failure reports of `actions` whose `outcomes` were errors, in order.
pub open spec fn failures(actions: Seq<DryRunAction>, outcomes: Seq<Result<(), String>>) -> Seq<ExecuteErrorView>
    decreases outcomes.len(),
{
    if outcomes.len() == 0 || actions.len() == 0 {
        Seq::empty()
    } else {
        let init = failures(actions.drop_last(), outcomes.drop_last());
        match outcomes.last() {
            Ok(()) => init,
            Err(e) => init.push(failure_of(actions.last(), e@)),
        }
    }
}

/// The running count of a plan being carried out: the operations that
/// succeeded and the reports of those that failed.
pub struct ExecuteTally {
    pub executed_count: usize,
    pub failed_operations: Vec<ExecuteError>,
}

impl ExecuteTally {
    /// Nothing carried out yet.
    pub fn new() -> (r: ExecuteTally)
        ensures
            r.executed_count == 0,
            r.failed_operations@.len() == 0,
    {
        ExecuteTally { executed_count: 0, failed_operations: Vec::new() }
    }

    /// Counts `action`, which ended with `outcome`: a success adds one to the
    /// executed count, a failure adds its report.
    pub fn record(&mut self, action: &DryRunAction, outcome: &Result<(), String>)
        requires
            outcome is Ok ==> old(self).executed_count < usize::MAX,
        ensures
            final(self).executed_count == old(self).executed_count + if outcome is Ok { 1int } else { 0int },
            final(self).failed_operations@.map_values(|e: ExecuteError| e@) == match outcome {
                Ok(()) => old(self).failed_operations@.map_values(|e: ExecuteError| e@),
                Err(m) => old(self).failed_operations@.map_values(|e: ExecuteError| e@).push(failure_of(*action, m@)),
            },
    {
        match outcome {
            Ok(()) => {
                self.executed_count = self.executed_count + 1;
            },
            Err(m) => {
                let ghost before = self.failed_operations@.map_values(|e: ExecuteError| e@);
                let report = ExecuteError {
                    source_path: action.file_path.clone(),
                    destination_path: destination_of(&action.op),
                    rule_name: action.rule_name.clone(),
                    error_message: m.clone(),
                };
                self.failed_operations.push(report);
                assert(self.failed_operations@.map_values(|e: ExecuteError| e@) =~= before.push(failure_of(*action, m@)));
            },
        }
    }

    /// The response for the plan: successful exactly when nothing failed.
    pub fn finish(self) -> (r: ExecuteResponse)
        ensures
            r.executed_count == self.executed_count,
            r.failed_operations@ == self.failed_operations@,
            r.success <==> self.failed_operations@.len() == 0,
    {
        let success = self.failed_operations.len() == 0;
        ExecuteResponse { executed_count: self.executed_count, failed_operations: self.failed_operations, success }
    }
}

/// The response for carrying out `actions`, each ending with the outcome at
/// the same place in `outcomes`.
pub fn execute_response(actions: &[DryRunAction], outcomes: &[Result<(), String>]) -> (r: ExecuteResponse)
    requires
        actions@.len() == outcomes@.len(),
    ensures
        r.executed_count == successes(outcomes@),
        r.failed_operations@.map_values(|e: ExecuteError| e@) == failures(actions@, outcomes@),
        r.success <==> failures(actions@, outcomes@).len() == 0,
{
    let mut tally = ExecuteTally::new();
    let mut i: usize = 0;
    while i < actions.len()
        invariant
            i <= actions@.len(),
            actions@.len() == outcomes@.len(),
            tally.executed_count == successes(outcomes@.take(i as int)),
            tally.executed_count <= i,
            tally.failed_operations@.map_values(|e: ExecuteError| e@) == failures(
                actions@.take(i as int),
                outcomes@.take(i as int),
            ),
        decreases actions@.len() - i,
    {
        assert(outcomes@.take(i + 1).drop_last() =~= outcomes@.take(i as int));
        assert(actions@.take(i + 1).drop_last() =~= actions@.take(i as int));
        assert(outcomes@.take(i + 1).last() == outcomes@[i as int]);
        assert(actions@.take(i + 1).last() == actions@[i as int]);
        tally.record(&actions[i], &outcomes[i]);
        i = i + 1;
    }
    assert(outcomes@.take(outcomes@.len() as int) =~= outcomes@);
    assert(actions@.take(actions@.len() as int) =~= actions@);
    tally.finish()
}

/// Every planned action is counted once: as a success or as a failure.
pub proof fn law_every_operation_is_counted_once(actions: Seq<DryRunAction>, outcomes: Seq<Result<(), String>>)
    requires
        actions.len() == outcomes.len(),
    ensures
        successes(outcomes) + failures(actions, outcomes).len() == actions.len(),
    decreases outcomes.len(),
{
    if outcomes.len() > 0 {
        law_every_operation_is_counted_once(actions.drop_last(), outcomes.drop_last());
    }
}

/// Each planned action paired with the outcome it ended with.
pub open spec fn paired(actions: Seq<DryRunAction>, outcomes: Seq<Result<(), String>>) -> Seq<(DryRunAction, Result<(), String>)> {
    Seq::new(outcomes.len(), |i: int| (actions[i], outcomes[i]))
}

/// How many of the `pairs` succeeded.
pub open spec fn ok_count(pairs: Seq<(DryRunAction, Result<(), String>)>) -> nat
    decreases pairs.len(),
{
    if pairs.len() == 0 {
        0
    } else {
        ok_count(pairs.drop_last()) + if pairs.last().1 is Ok { 1nat } else { 0nat }
    }
}

/// The failure reports of the `pairs` that failed, in order.
pub open spec fn failure_reports(pairs: Seq<(DryRunAction, Result<(), String>)>) -> Seq<ExecuteErrorView>
    decreases pairs.len(),
{
    if pairs.len() == 0 {
        Seq::empty()
    } else {
        let init = failure_reports(pairs.drop_last());
        match pairs.last().1 {
            Ok(()) => init,
            Err(e) => init.push(failure_of(pairs.last().0, e@)),
        }
    }
}

/// The failure report that one pair contributes: none for a success.
pub open spec fn report_of(pair: (DryRunAction, Result<(), String>)) -> Multiset<ExecuteErrorView> {
    match pair.1 {
        Ok(()) => Multiset::empty(),
        Err(e) => Multiset::singleton(failure_of(pair.0, e@)),
    }
}

proof fn lemma_paired_tallies(actions: Seq<DryRunAction>, outcomes: Seq<Result<(), String>>)
    requires
        actions.len() == outcomes.len(),
    ensures
        successes(outcomes) == ok_count(paired(actions, outcomes)),
        failures(actions, outcomes) == failure_reports(paired(actions, outcomes)),
    decreases outcomes.len(),
{
    if outcomes.len() > 0 {
        lemma_paired_tallies(actions.drop_last(), outcomes.drop_last());
        assert(paired(actions, outcomes).drop_last() =~= paired(actions.drop_last(), outcomes.drop_last()));
    }
}

proof fn lemma_tallies_without(pairs: Seq<(DryRunAction, Result<(), String>)>, j: int)
    requires
        0 <= j < pairs.len(),
    ensures
        ok_count(pairs) == ok_count(pairs.remove(j)) + if pairs[j].1 is Ok { 1nat } else { 0nat },
        failure_reports(pairs).to_multiset() =~= failure_reports(pairs.remove(j)).to_multiset().add(report_of(pairs[j])),
    decreases pairs.len(),
{
    broadcast use vstd::seq_lib::group_to_multiset_ensures;
    broadcast use vstd::multiset::group_multiset_axioms;
    if j == pairs.len() - 1 {
        assert(pairs.remove(j) =~= pairs.drop_last());
    } else {
        let rest = pairs.drop_last();
        lemma_tallies_without(rest, j);
        assert(pairs.remove(j).drop_last() =~= rest.remove(j));
        assert(pairs.remove(j).last() == pairs.last());
    }
}

/// The order in which outcomes are counted does not change the response:
/// two runs that pair the same actions with the same outcomes, in any order,
/// count the same successes, succeed alike and report the same failures
/// (as a multiset).
pub proof fn law_outcome_order_does_not_matter(
    actions1: Seq<DryRunAction>,
    outcomes1: Seq<Result<(), String>>,
    actions2: Seq<DryRunAction>,
    outcomes2: Seq<Result<(), String>>,
)
    requires
        actions1.len() == outcomes1.len(),
        actions2.len() == outcomes2.len(),
        paired(actions1, outcomes1).to_multiset() == paired(actions2, outcomes2).to_multiset(),
    ensures
        successes(outcomes1) == successes(outcomes2),
        failures(actions1, outcomes1).to_multiset() == failures(actions2, outcomes2).to_multiset(),
        failures(actions1, outcomes1).len() == failures(actions2, outcomes2).len(),
{
    broadcast use vstd::seq_lib::group_to_multiset_ensures;
    lemma_paired_tallies(actions1, outcomes1);
    lemma_paired_tallies(actions2, outcomes2);
    lemma_permuted_tallies(paired(actions1, outcomes1), paired(actions2, outcomes2));
    assert(failures(actions1, outcomes1).to_multiset().len() == failures(actions2, outcomes2).to_multiset().len());
}

proof fn lemma_permuted_tallies(p1: Seq<(DryRunAction, Result<(), String>)>, p2: Seq<(DryRunAction, Result<(), String>)>)
    requires
        p1.to_multiset() == p2.to_multiset(),
    ensures
        ok_count(p1) == ok_count(p2),
        failure_reports(p1).to_multiset() == failure_reports(p2).to_multiset(),
    decreases p1.len(),
{
    broadcast use vstd::seq_lib::group_to_multiset_ensures;
    broadcast use vstd::multiset::group_multiset_axioms;
    if p1.len() == 0 {
        assert(p1.to_multiset().len() == 0);
        assert(p2.to_multiset().len() == 0);
        assert(p2 =~= Seq::empty());
    } else {
        let x = p1.last();
        let rest = p1.drop_last();
        assert(p1 =~= rest.push(x));
        assert(p2.to_multiset().count(x) > 0);
        assert(p2.contains(x));
        let j = choose|j: int| 0 <= j < p2.len() && p2[j] == x;
        assert(p2.remove(j).to_multiset() =~= p2.to_multiset().remove(x));
        assert(rest.to_multiset() =~= p2.remove(j).to_multiset());
        lemma_permuted_tallies(rest, p2.remove(j));
        lemma_tallies_without(p2, j);
        assert(failure_reports(p1).to_multiset() =~= failure_reports(rest).to_multiset().add(report_of(x)));
    }
}

/// What the operation history records of an executed action.
pub struct OperationRecord {
    pub source_path: String,
    pub destination_path: String,
    pub operation_type: String,
    pub rule_name: String,
    pub status: String,
    pub error_message: Option<String>,
}

/// The history record of `action`, which ended with `outcome`: its kind as
/// execution names it, `success` or `failed`, and the error of a failure.
pub fn operation_record(action: &DryRunAction, outcome: &Result<(), String>) -> (r: OperationRecord)
    ensures
        r.source_path@ == action.file_path@,
        r.destination_path@ == destination_text(action.op@),
        r.operation_type@ == execution_kind_text(action.op@),
        r.rule_name@ == action.rule_name@,
        r.status@ == if outcome is Ok { "success"@ } else { "failed"@ },
        match outcome {
            Ok(()) => r.error_message is None,
            Err(m) => r.error_message matches Some(e) && e@ == m@,
        },
{
    let (status, error_message) = match outcome {
        Ok(()) => ("success", None),
        Err(m) => ("failed", Some(m.clone())),
    };
    OperationRecord {
        source_path: action.file_path.clone(),
        destination_path: destination_of(&action.op),
        operation_type: to_owned(execution_kind(&action.op)),
        rule_name: action.rule_name.clone(),
        status: to_owned(status),
        error_message,
    }
}

/// The notification sent before a plan of `count` operations is carried
/// out, one at a time or (`bulk`) several at once: none when notifications
/// are off or there is nothing to do.
pub fn start_notification(enabled: bool, count: usize, bulk: bool) -> (r: Option<String>)
    ensures
        (enabled && count > 0) ==> (r matches Some(m) && m@ == (if bulk {
            "Starting bulk organization of "@
        } else {
            "Starting organization of "@
        }) + decimal(count as nat) + " files"@),
        !(enabled && count > 0) ==> r is None,
{
    if enabled && count > 0 {
        let mut s = to_owned(if bulk { "Starting bulk organization of " } else { "Starting organization of " });
        push_decimal(&mut s, count as u64);
        push_str(&mut s, " files");
        Some(s)
    } else {
        None
    }
}

/// What carrying out `op` on a file does: move it (`false`) or copy it
/// (`true`) to the path; other operations cannot be carried out.
pub fn file_operation_target(op: &Op) -> (r: Result<(String, bool), String>)
    ensures
        match op@ {
            OpView::MoveTo(p) => r matches Ok((d, copy)) && d@ == p && !copy,
            OpView::CopyTo(p) => r matches Ok((d, copy)) && d@ == p && copy,
            _ => r matches Err(m) && m@ == "Unsupported operation type"@,
        },
{
    match op {
        Op::MoveTo { path } => Ok((path.clone(), false)),
        Op::CopyTo { path } => Ok((path.clone(), true)),
        _ => Err(to_owned("Unsupported operation type")),
    }
}

} // verus!
