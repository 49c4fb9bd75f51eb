//! The computing side of the store: the statistics queries and the values a
//! rule is stored with. Running the queries is the caller's I/O.

use vstd::prelude::*;
use crate::rules::Rule;
use crate::text::{i64_to_decimal, push_str, signed_decimal, to_owned};

verus! {

/// The SQL statements that gather operation statistics.
pub struct StatsQueries {
    pub total: String,
    pub successful: String,
    pub moved: String,
    pub copied: String,
    pub rules_applied: String,
    pub file_types: String,
    pub active_days: String,
    pub last_operation: String,
}

/// The date restriction of the statistics: the last `days` days, or none.
pub open spec fn date_filter_text(days_back: Option<i64>) -> Seq<char> {
    match days_back {
        Some(d) => "WHERE created_at >= datetime('now', '-"@ + signed_decimal(d as int) + " days')"@,
        None => Seq::<char>::empty(),
    }
}

/// The word that adds a further restriction after the date restriction.
pub open spec fn joiner_text(days_back: Option<i64>) -> Seq<char> {
    if date_filter_text(days_back).len() == 0 {
        "WHERE"@
    } else {
        "AND"@
    }
}

/// The date restriction of the statistics.
pub fn date_filter(days_back: Option<i64>) -> (r: String)
    ensures
        r@ == date_filter_text(days_back),
{
    match days_back {
        Some(d) => {
            let mut s = to_owned("WHERE created_at >= datetime('now', '-");
            let n = i64_to_decimal(d);
            push_str(&mut s, n.as_str());
            push_str(&mut s, " days')");
            s
        },
        None => String::new(),
    }
}

/// `prefix`, the date filter, a space, the joiner, and `suffix`.
fn filtered(prefix: &str, filter: &str, joiner: &str, suffix: &str) -> (r: String)
    ensures
        r@ == prefix@ + filter@ + " "@ + joiner@ + suffix@,
{
    let mut s = to_owned(prefix);
    push_str(&mut s, filter);
    push_str(&mut s, " ");
    push_str(&mut s, joiner);
    push_str(&mut s, suffix);
    s
}

/// The statistics queries for the last `days_back` days, or for all time.
pub fn stats_queries(days_back: Option<i64>) -> (r: StatsQueries)
    ensures
        r.total@ == "SELECT COUNT(*) FROM operation_history "@ + date_filter_text(days_back),
        r.successful@ == "SELECT COUNT(*) FROM operation_history "@ + date_filter_text(days_back) + " "@
            + joiner_text(days_back) + " status = 'success'"@,
        r.moved@ == "SELECT COUNT(*) FROM operation_history "@ + date_filter_text(days_back) + " "@
            + joiner_text(days_back) + " operation_type = 'move' AND status = 'success'"@,
        r.copied@ == "SELECT COUNT(*) FROM operation_history "@ + date_filter_text(days_back) + " "@
            + joiner_text(days_back) + " operation_type = 'copy' AND status = 'success'"@,
        r.rules_applied@ == "SELECT rule_name, COUNT(*) as count FROM operation_history "@
            + date_filter_text(days_back) + " "@ + joiner_text(days_back)
            + " status = 'success' GROUP BY rule_name"@,
        r.file_types@
            == "SELECT LOWER(SUBSTR(source_path, INSTR(source_path, '.') + 1)) as ext, COUNT(*) as count FROM operation_history "@
            + date_filter_text(days_back) + " "@ + joiner_text(days_back)
            + " status = 'success' AND INSTR(source_path, '.') > 0 GROUP BY ext"@,
        r.active_days@ == match days_back {
            Some(d) => "SELECT COUNT(DISTINCT DATE(created_at)) FROM operation_history WHERE created_at >= datetime('now', '-"@
                + signed_decimal(d as int) + " days')"@,
            None => "SELECT COUNT(DISTINCT DATE(created_at)) FROM operation_history"@,
        },
        r.last_operation@ == "SELECT created_at FROM operation_history "@ + date_filter_text(days_back)
            + " ORDER BY created_at DESC LIMIT 1"@,
{
    let filter = date_filter(days_back);
    let joiner: &str = if filter.as_str().unicode_len() == 0 { "WHERE" } else { "AND" };
    let mut total = to_owned("SELECT COUNT(*) FROM operation_history ");
    push_str(&mut total, filter.as_str());
    let successful = filtered("SELECT COUNT(*) FROM operation_history ", filter.as_str(), joiner, " status = 'success'");
    let moved = filtered(
        "SELECT COUNT(*) FROM operation_history ",
        filter.as_str(),
        joiner,
        " operation_type = 'move' AND status = 'success'",
    );
    let copied = filtered(
        "SELECT COUNT(*) FROM operation_history ",
        filter.as_str(),
        joiner,
        " operation_type = 'copy' AND status = 'success'",
    );
    let rules_applied = filtered(
        "SELECT rule_name, COUNT(*) as count FROM operation_history ",
        filter.as_str(),
        joiner,
        " status = 'success' GROUP BY rule_name",
    );
    let file_types = filtered(
        "SELECT LOWER(SUBSTR(source_path, INSTR(source_path, '.') + 1)) as ext, COUNT(*) as count FROM operation_history ",
        filter.as_str(),
        joiner,
        " status = 'success' AND INSTR(source_path, '.') > 0 GROUP BY ext",
    );
    let active_days = match days_back {
        Some(d) => {
            let mut s = to_owned(
                "SELECT COUNT(DISTINCT DATE(created_at)) FROM operation_history WHERE created_at >= datetime('now', '-",
            );
            let n = i64_to_decimal(d);
            push_str(&mut s, n.as_str());
            push_str(&mut s, " days')");
            s
        },
        None => to_owned("SELECT COUNT(DISTINCT DATE(created_at)) FROM operation_history"),
    };
    let mut last_operation = to_owned("SELECT created_at FROM operation_history ");
    push_str(&mut last_operation, filter.as_str());
    push_str(&mut last_operation, " ORDER BY created_at DESC LIMIT 1");
    let r = StatsQueries {
        total,
        successful,
        moved,
        copied,
        rules_applied,
        file_types,
        active_days,
        last_operation,
    };
    assert(r.successful@ =~= "SELECT COUNT(*) FROM operation_history "@ + date_filter_text(days_back) + " "@
        + joiner_text(days_back) + " status = 'success'"@);
    assert(r.moved@ =~= "SELECT COUNT(*) FROM operation_history "@ + date_filter_text(days_back) + " "@
        + joiner_text(days_back) + " operation_type = 'move' AND status = 'success'"@);
    assert(r.copied@ =~= "SELECT COUNT(*) FROM operation_history "@ + date_filter_text(days_back) + " "@
        + joiner_text(days_back) + " operation_type = 'copy' AND status = 'success'"@);
    assert(r.rules_applied@ =~= "SELECT rule_name, COUNT(*) as count FROM operation_history "@
        + date_filter_text(days_back) + " "@ + joiner_text(days_back) + " status = 'success' GROUP BY rule_name"@);
    assert(r.file_types@
        =~= "SELECT LOWER(SUBSTR(source_path, INSTR(source_path, '.') + 1)) as ext, COUNT(*) as count FROM operation_history "@
        + date_filter_text(days_back) + " "@ + joiner_text(days_back)
        + " status = 'success' AND INSTR(source_path, '.') > 0 GROUP BY ext"@);
    r
}

/// The counts of operations, as the statistics report them.
pub struct OperationCounts {
    pub total_operations: u64,
    pub successful_operations: u64,
    pub failed_operations: u64,
    pub files_moved: u64,
    pub files_copied: u64,
}

/// The operation counts from the query results: the failed operations are
/// those that did not succeed; the counts are reported unsigned.
pub fn operation_counts(total: i64, successful: i64, moved: i64, copied: i64) -> (r: OperationCounts)
    requires
        i64::MIN <= total - successful <= i64::MAX,
    ensures
        r.total_operations == total as u64,
        r.successful_operations == successful as u64,
        r.failed_operations == (total - successful) as i64 as u64,
        r.files_moved == moved as u64,
        r.files_copied == copied as u64,
{
    let failed = total - successful;
    OperationCounts {
        total_operations: #[verifier::truncate] (total as u64),
        successful_operations: #[verifier::truncate] (successful as u64),
        failed_operations: #[verifier::truncate] (failed as u64),
        files_moved: #[verifier::truncate] (moved as u64),
        files_copied: #[verifier::truncate] (copied as u64),
    }
}

/// The `enabled` column a rule is stored with: 1 when enabled, 0 otherwise.
pub fn enabled_flag(rule: &Rule) -> (r: i32)
    ensures
        r == if rule.enabled { 1i32 } else { 0i32 },
{
    if rule.enabled { 1 } else { 0 }
}

/// Whether the rule table needs the sample rules: it does exactly when it is
/// empty.
pub fn needs_sample_rules(rule_count: i64) -> (r: bool)
    ensures
        r == (rule_count == 0),
{
    rule_count == 0
}

} // verus!
