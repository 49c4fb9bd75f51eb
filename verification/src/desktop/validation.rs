//! Checking rules: the checks a rule must pass before it is saved, and the
//! errors and warnings the rule editor reports.

use vstd::prelude::*;
use crate::engine::{action_entries, action_op, param_str};
use crate::json::{json_array, json_get, json_str, json_u64};
use crate::patterns::{regex_compile_error, regex_error};
use crate::desktop::preview::PreviewTarget;
use crate::rules::{Action, Condition, Rule};
use crate::text::{blank, contains, decimal, is_blank, occurs_in, push_decimal, push_str, str_eq, to_owned};

verus! {

/// Why a rule cannot be saved.
pub enum RuleError {
    EmptyName,
    NoActions,
    InvalidRegex { pattern: String, error: String },
    NameMatchesNeedsString,
    NeedsString { kind: String },
    NeedsNumber { kind: String },
    UnknownCondition { kind: String },
    EmptyPath { kind: String },
    MissingPath { kind: String },
    TagsNotArray,
    MissingPattern,
    UnknownAction { kind: String },
}

/// The contents of a [`RuleError`].
pub enum RuleErrorView {
    EmptyName,
    NoActions,
    InvalidRegex(Seq<char>, Seq<char>),
    NameMatchesNeedsString,
    NeedsString(Seq<char>),
    NeedsNumber(Seq<char>),
    UnknownCondition(Seq<char>),
    EmptyPath(Seq<char>),
    MissingPath(Seq<char>),
    TagsNotArray,
    MissingPattern,
    UnknownAction(Seq<char>),
}

impl View for RuleError {
    type V = RuleErrorView;

    open spec fn view(&self) -> RuleErrorView {
        match self {
            RuleError::EmptyName => RuleErrorView::EmptyName,
            RuleError::NoActions => RuleErrorView::NoActions,
            RuleError::InvalidRegex { pattern, error } => RuleErrorView::InvalidRegex(pattern@, error@),
            RuleError::NameMatchesNeedsString => RuleErrorView::NameMatchesNeedsString,
            RuleError::NeedsString { kind } => RuleErrorView::NeedsString(kind@),
            RuleError::NeedsNumber { kind } => RuleErrorView::NeedsNumber(kind@),
            RuleError::UnknownCondition { kind } => RuleErrorView::UnknownCondition(kind@),
            RuleError::EmptyPath { kind } => RuleErrorView::EmptyPath(kind@),
            RuleError::MissingPath { kind } => RuleErrorView::MissingPath(kind@),
            RuleError::TagsNotArray => RuleErrorView::TagsNotArray,
            RuleError::MissingPattern => RuleErrorView::MissingPattern,
            RuleError::UnknownAction { kind } => RuleErrorView::UnknownAction(kind@),
        }
    }
}

/// The message of a rule error.
pub open spec fn rule_error_message(e: RuleErrorView) -> Seq<char> {
    match e {
        RuleErrorView::EmptyName => "Rule name cannot be empty"@,
        RuleErrorView::NoActions => "Rule must have at least one action"@,
        RuleErrorView::InvalidRegex(p, err) => "Invalid regex pattern '"@ + p + "': "@ + err,
        RuleErrorView::NameMatchesNeedsString => "nameMatches condition requires a string value"@,
        RuleErrorView::NeedsString(k) => k + " condition requires a string value"@,
        RuleErrorView::NeedsNumber(k) => k + " condition requires a numeric value"@,
        RuleErrorView::UnknownCondition(k) => "Unknown condition type: "@ + k,
        RuleErrorView::EmptyPath(k) => k + " action requires a non-empty path"@,
        RuleErrorView::MissingPath(k) => k + " action requires a path parameter"@,
        RuleErrorView::TagsNotArray => "tag action requires a tags array parameter"@,
        RuleErrorView::MissingPattern => "rename action requires a pattern parameter"@,
        RuleErrorView::UnknownAction(k) => "Unknown action type: "@ + k,
    }
}

/// What is wrong with condition `c`, if anything: a `nameMatches` needs a
/// string that compiles as a regular expression, `ext` and `pathContains` a
/// string, `sizeGt` and `sizeLt` a non-negative integer; other kinds are
/// unknown.
pub open spec fn condition_problem(c: Condition) -> Option<RuleErrorView> {
    let k = c.kind@;
    if k == "nameMatches"@ {
        match json_str(c.value) {
            Some(p) => match regex_compile_error(p) {
                Some(e) => Some(RuleErrorView::InvalidRegex(p, e)),
                None => None,
            },
            None => Some(RuleErrorView::NameMatchesNeedsString),
        }
    } else if k == "ext"@ || k == "pathContains"@ {
        if json_str(c.value) is None {
            Some(RuleErrorView::NeedsString(k))
        } else {
            None
        }
    } else if k == "sizeGt"@ || k == "sizeLt"@ {
        if json_u64(c.value) is None {
            Some(RuleErrorView::NeedsNumber(k))
        } else {
            None
        }
    } else {
        Some(RuleErrorView::UnknownCondition(k))
    }
}

/// What is wrong with action `a`, if anything: `moveTo` and `copyTo` need a
/// string `path` that is not blank, `tag` an array `tags`, `rename` a string
/// `pattern`; `quarantine` needs nothing; other kinds are unknown.
pub open spec fn action_problem(a: Action) -> Option<RuleErrorView> {
    let k = a.kind@;
    if k == "moveTo"@ || k == "copyTo"@ {
        match param_str(a.params, "path"@) {
            Some(p) => if blank(p) {
                Some(RuleErrorView::EmptyPath(k))
            } else {
                None
            },
            None => Some(RuleErrorView::MissingPath(k)),
        }
    } else if k == "tag"@ {
        match json_get(a.params, "tags"@) {
            Some(v) => if json_array(v) is Some {
                None
            } else {
                Some(RuleErrorView::TagsNotArray)
            },
            None => Some(RuleErrorView::TagsNotArray),
        }
    } else if k == "rename"@ {
        if param_str(a.params, "pattern"@) is None {
            Some(RuleErrorView::MissingPattern)
        } else {
            None
        }
    } else if k == "quarantine"@ {
        None
    } else {
        Some(RuleErrorView::UnknownAction(k))
    }
}

/// The first problem among the conditions, in order.
pub open spec fn first_condition_problem(conds: Seq<Condition>) -> Option<RuleErrorView>
    decreases conds.len(),
{
    if conds.len() == 0 {
        None
    } else {
        match condition_problem(conds[0]) {
            Some(e) => Some(e),
            None => first_condition_problem(conds.drop_first()),
        }
    }
}

/// The first problem among the actions, in order.
pub open spec fn first_action_problem(acts: Seq<Action>) -> Option<RuleErrorView>
    decreases acts.len(),
{
    if acts.len() == 0 {
        None
    } else {
        match action_problem(acts[0]) {
            Some(e) => Some(e),
            None => first_action_problem(acts.drop_first()),
        }
    }
}

/// Why `rule` cannot be saved, checked in this order: a blank name, no
/// actions, then the conditions one by one, then the actions one by one.
pub open spec fn save_problem(rule: Rule) -> Option<RuleErrorView> {
    if blank(rule.name@) {
        Some(RuleErrorView::EmptyName)
    } else if rule.actions@.len() == 0 {
        Some(RuleErrorView::NoActions)
    } else {
        match first_condition_problem(rule.conditions@) {
            Some(e) => Some(e),
            None => first_action_problem(rule.actions@),
        }
    }
}

impl RuleError {
    /// The error's message.
    pub fn message(&self) -> (r: String)
        ensures
            r@ == rule_error_message(self@),
    {
        match self {
            RuleError::EmptyName => to_owned("Rule name cannot be empty"),
            RuleError::NoActions => to_owned("Rule must have at least one action"),
            RuleError::InvalidRegex { pattern, error } => {
                let mut s = to_owned("Invalid regex pattern '");
                push_str(&mut s, pattern.as_str());
                push_str(&mut s, "': ");
                push_str(&mut s, error.as_str());
                s
            },
            RuleError::NameMatchesNeedsString => to_owned("nameMatches condition requires a string value"),
            RuleError::NeedsString { kind } => {
                let mut s = to_owned(kind.as_str());
                push_str(&mut s, " condition requires a string value");
                s
            },
            RuleError::NeedsNumber { kind } => {
                let mut s = to_owned(kind.as_str());
                push_str(&mut s, " condition requires a numeric value");
                s
            },
            RuleError::UnknownCondition { kind } => {
                let mut s = to_owned("Unknown condition type: ");
                push_str(&mut s, kind.as_str());
                s
            },
            RuleError::EmptyPath { kind } => {
                let mut s = to_owned(kind.as_str());
                push_str(&mut s, " action requires a non-empty path");
                s
            },
            RuleError::MissingPath { kind } => {
                let mut s = to_owned(kind.as_str());
                push_str(&mut s, " action requires a path parameter");
                s
            },
            RuleError::TagsNotArray => to_owned("tag action requires a tags array parameter"),
            RuleError::MissingPattern => to_owned("rename action requires a pattern parameter"),
            RuleError::UnknownAction { kind } => {
                let mut s = to_owned("Unknown action type: ");
                push_str(&mut s, kind.as_str());
                s
            },
        }
    }
}

fn check_condition(c: &Condition) -> (r: Option<RuleError>)
    ensures
        match r {
            Some(e) => condition_problem(*c) == Some(e@),
            None => condition_problem(*c) is None,
        },
{
    let k = c.kind.as_str();
    if str_eq(k, "nameMatches") {
        match c.value.as_str() {
            Some(p) => match regex_error(p) {
                Some(e) => Some(RuleError::InvalidRegex { pattern: to_owned(p), error: e }),
                None => None,
            },
            None => Some(RuleError::NameMatchesNeedsString),
        }
    } else if str_eq(k, "ext") || str_eq(k, "pathContains") {
        if c.value.as_str().is_none() {
            Some(RuleError::NeedsString { kind: to_owned(k) })
        } else {
            None
        }
    } else if str_eq(k, "sizeGt") || str_eq(k, "sizeLt") {
        if c.value.as_u64().is_none() {
            Some(RuleError::NeedsNumber { kind: to_owned(k) })
        } else {
            None
        }
    } else {
        Some(RuleError::UnknownCondition { kind: to_owned(k) })
    }
}

fn check_action(a: &Action) -> (r: Option<RuleError>)
    ensures
        match r {
            Some(e) => action_problem(*a) == Some(e@),
            None => action_problem(*a) is None,
        },
{
    let k = a.kind.as_str();
    if str_eq(k, "moveTo") || str_eq(k, "copyTo") {
        let path = match a.params.get("path") {
            Some(v) => v.as_str(),
            None => None,
        };
        match path {
            Some(p) => if is_blank(p) {
                Some(RuleError::EmptyPath { kind: to_owned(k) })
            } else {
                None
            },
            None => Some(RuleError::MissingPath { kind: to_owned(k) }),
        }
    } else if str_eq(k, "tag") {
        let tags_ok = match a.params.get("tags") {
            Some(v) => v.as_array().is_some(),
            None => false,
        };
        if tags_ok {
            None
        } else {
            Some(RuleError::TagsNotArray)
        }
    } else if str_eq(k, "rename") {
        let has_pattern = match a.params.get("pattern") {
            Some(v) => v.as_str().is_some(),
            None => false,
        };
        if has_pattern {
            None
        } else {
            Some(RuleError::MissingPattern)
        }
    } else if str_eq(k, "quarantine") {
        None
    } else {
        Some(RuleError::UnknownAction { kind: to_owned(k) })
    }
}

/// The checks a rule must pass before it is saved.
pub fn check_rule_for_save(rule: &Rule) -> (r: Result<(), RuleError>)
    ensures
        match r {
            Ok(()) => save_problem(*rule) is None,
            Err(e) => save_problem(*rule) == Some(e@),
        },
{
    if is_blank(rule.name.as_str()) {
        return Err(RuleError::EmptyName);
    }
    if rule.actions.len() == 0 {
        return Err(RuleError::NoActions);
    }
    let mut i: usize = 0;
    assert(rule.conditions@.skip(0) =~= rule.conditions@);
    while i < rule.conditions.len()
        invariant
            i <= rule.conditions@.len(),
            !blank(rule.name@),
            rule.actions@.len() > 0,
            first_condition_problem(rule.conditions@) == first_condition_problem(rule.conditions@.skip(i as int)),
        decreases rule.conditions@.len() - i,
    {
        assert(rule.conditions@.skip(i as int).drop_first() =~= rule.conditions@.skip(i + 1));
        assert(rule.conditions@.skip(i as int)[0] == rule.conditions@[i as int]);
        match check_condition(&rule.conditions[i]) {
            Some(e) => {
                return Err(e);
            },
            None => {},
        }
        i = i + 1;
    }
    let mut j: usize = 0;
    assert(rule.actions@.skip(0) =~= rule.actions@);
    while j < rule.actions.len()
        invariant
            j <= rule.actions@.len(),
            !blank(rule.name@),
            rule.actions@.len() > 0,
            first_condition_problem(rule.conditions@) is None,
            first_action_problem(rule.actions@) == first_action_problem(rule.actions@.skip(j as int)),
        decreases rule.actions@.len() - j,
    {
        assert(rule.actions@.skip(j as int).drop_first() =~= rule.actions@.skip(j + 1));
        assert(rule.actions@.skip(j as int)[0] == rule.actions@[j as int]);
        match check_action(&rule.actions[j]) {
            Some(e) => {
                return Err(e);
            },
            None => {},
        }
        j = j + 1;
    }
    Ok(())
}

/// The error the rule editor reports for condition `c`, the `n`-th
/// condition (counting from 1): a `nameMatches` whose string does not compile.
pub open spec fn condition_error_text(c: Condition, n: nat) -> Option<Seq<char>> {
    if c.kind@ == "nameMatches"@ {
        match json_str(c.value) {
            Some(p) => match regex_compile_error(p) {
                Some(e) => Some("Condition "@ + decimal(n) + ": Invalid regex pattern '"@ + p + "': "@ + e),
                None => None,
            },
            None => None,
        }
    } else {
        None
    }
}

/// The warning the rule editor reports for condition `c`, the `n`-th
/// condition (counting from 1): an `extension` whose string holds a dot, or a
/// kind other than `nameMatches` and `extension`.
pub open spec fn condition_warning_text(c: Condition, n: nat) -> Option<Seq<char>> {
    if c.kind@ == "nameMatches"@ {
        None
    } else if c.kind@ == "extension"@ {
        match json_str(c.value) {
            Some(ext) => if occurs_in("."@, ext) {
                Some("Condition "@ + decimal(n) + ": Extension '"@ + ext + "' should not include dots"@)
            } else {
                None
            },
            None => None,
        }
    } else {
        Some("Condition "@ + decimal(n) + ": Unknown condition type '"@ + c.kind@ + "'"@)
    }
}

/// The texts that `f` gives for the conditions, in order, numbered from 1.
pub open spec fn condition_texts(conds: Seq<Condition>, warnings: bool) -> Seq<Seq<char>>
    decreases conds.len(),
{
    if conds.len() == 0 {
        Seq::<Seq<char>>::empty()
    } else {
        let init = condition_texts(conds.drop_last(), warnings);
        let t = if warnings {
            condition_warning_text(conds.last(), conds.len())
        } else {
            condition_error_text(conds.last(), conds.len())
        };
        match t {
            Some(m) => init.push(m),
            None => init,
        }
    }
}

/// The errors the rule editor reports for `rule`: a blank name, no
/// conditions, no actions, then the conditions' errors.
pub open spec fn rule_errors(rule: Rule) -> Seq<Seq<char>> {
    let a = if blank(rule.name@) { seq!["Rule name cannot be empty"@] } else { Seq::empty() };
    let b = if rule.conditions@.len() == 0 { seq!["Rule must have at least one condition"@] } else { Seq::empty() };
    let c = if rule.actions@.len() == 0 { seq!["Rule must have at least one action"@] } else { Seq::empty() };
    a + b + c + condition_texts(rule.conditions@, false)
}

/// The errors and warnings of a rule, as the rule editor shows them.
pub struct RuleCheck {
    pub errors: Vec<String>,
    pub warnings: Vec<String>,
}

fn condition_note(c: &Condition, n: u64, warnings: bool) -> (r: Option<String>)
    ensures
        opt_string_view(r) == if warnings { condition_warning_text(*c, n as nat) } else { condition_error_text(*c, n as nat) },
{
    let k = c.kind.as_str();
    if str_eq(k, "nameMatches") {
        if warnings {
            return None;
        }
        match c.value.as_str() {
            Some(p) => match regex_error(p) {
                Some(e) => {
                    let mut s = to_owned("Condition ");
                    push_decimal(&mut s, n);
                    push_str(&mut s, ": Invalid regex pattern '");
                    push_str(&mut s, p);
                    push_str(&mut s, "': ");
                    push_str(&mut s, e.as_str());
                    Some(s)
                },
                None => None,
            },
            None => None,
        }
    } else if !warnings {
        None
    } else if str_eq(k, "extension") {
        match c.value.as_str() {
            Some(ext) => if contains(ext, ".") {
                let mut s = to_owned("Condition ");
                push_decimal(&mut s, n);
                push_str(&mut s, ": Extension '");
                push_str(&mut s, ext);
                push_str(&mut s, "' should not include dots");
                Some(s)
            } else {
                None
            },
            None => None,
        }
    } else {
        let mut s = to_owned("Condition ");
        push_decimal(&mut s, n);
        push_str(&mut s, ": Unknown condition type '");
        push_str(&mut s, k);
        push_str(&mut s, "'");
        Some(s)
    }
}

/// The contents of an optional string.
pub open spec fn opt_string_view(o: Option<String>) -> Option<Seq<char>> {
    match o {
        Some(s) => Some(s@),
        None => None,
    }
}

fn condition_notes(conds: &Vec<Condition>, warnings: bool, out: &mut Vec<String>)
    ensures
        final(out)@.map_values(|s: String| s@) == old(out)@.map_values(|s: String| s@) + condition_texts(conds@, warnings),
{
    let ghost start = out@.map_values(|s: String| s@);
    let mut i: usize = 0;
    while i < conds.len()
        invariant
            i <= conds@.len(),
            out@.map_values(|s: String| s@) == start + condition_texts(conds@.take(i as int), warnings),
        decreases conds@.len() - i,
    {
        assert(conds@.take(i + 1).drop_last() =~= conds@.take(i as int));
        assert(conds@.take(i + 1).last() == conds@[i as int]);
        let ghost before = out@.map_values(|s: String| s@);
        match condition_note(&conds[i], (i + 1) as u64, warnings) {
            Some(m) => {
                let ghost mv = m@;
                out.push(m);
                assert(out@.map_values(|s: String| s@) =~= before.push(mv));
            },
            None => {},
        }
        assert(out@.map_values(|s: String| s@) =~= start + condition_texts(conds@.take(i + 1), warnings));
        i = i + 1;
    }
    assert(conds@.take(conds@.len() as int) =~= conds@);
}

/// The errors and warnings the rule editor reports for `rule`; the rule is
/// valid when there are no errors. Each condition is numbered from 1:
/// a `nameMatches` whose pattern does not compile is an error, an `extension`
/// that holds a dot a warning, and any kind but those two a warning too.
pub fn check_rule(rule: &Rule) -> (r: RuleCheck)
    ensures
        r.errors@.map_values(|s: String| s@) == rule_errors(*rule),
        r.warnings@.map_values(|s: String| s@) == condition_texts(rule.conditions@, true),
{
    let mut errors: Vec<String> = Vec::new();
    if is_blank(rule.name.as_str()) {
        errors.push(to_owned("Rule name cannot be empty"));
    }
    if rule.conditions.len() == 0 {
        errors.push(to_owned("Rule must have at least one condition"));
    }
    if rule.actions.len() == 0 {
        errors.push(to_owned("Rule must have at least one action"));
    }
    let ghost base = errors@.map_values(|s: String| s@);
    let ghost a = if blank(rule.name@) { seq!["Rule name cannot be empty"@] } else { Seq::<Seq<char>>::empty() };
    let ghost b = if rule.conditions@.len() == 0 { seq!["Rule must have at least one condition"@] } else { Seq::<Seq<char>>::empty() };
    let ghost c = if rule.actions@.len() == 0 { seq!["Rule must have at least one action"@] } else { Seq::<Seq<char>>::empty() };
    assert(base =~= a + b + c);
    condition_notes(&rule.conditions, false, &mut errors);
    let mut warnings: Vec<String> = Vec::new();
    condition_notes(&rule.conditions, true, &mut warnings);
    assert(warnings@.map_values(|s: String| s@) =~= condition_texts(rule.conditions@, true));
    RuleCheck { errors, warnings }
}

proof fn lemma_no_condition_problem(conds: Seq<Condition>)
    requires
        first_condition_problem(conds) is None,
    ensures
        forall|i: int| 0 <= i < conds.len() ==> condition_problem(#[trigger] conds[i]) is None,
    decreases conds.len(),
{
    if conds.len() > 0 {
        lemma_no_condition_problem(conds.drop_first());
        assert forall|i: int| 0 <= i < conds.len() implies condition_problem(#[trigger] conds[i]) is None by {
            if i > 0 {
                assert(conds[i] == conds.drop_first()[i - 1]);
            }
        }
    }
}

proof fn lemma_no_action_problem(acts: Seq<Action>)
    requires
        first_action_problem(acts) is None,
    ensures
        forall|i: int| 0 <= i < acts.len() ==> action_problem(#[trigger] acts[i]) is None,
    decreases acts.len(),
{
    if acts.len() > 0 {
        lemma_no_action_problem(acts.drop_first());
        assert forall|i: int| 0 <= i < acts.len() implies action_problem(#[trigger] acts[i]) is None by {
            if i > 0 {
                assert(acts[i] == acts.drop_first()[i - 1]);
            }
        }
    }
}

/// A rule that may be saved has a name that is not blank, at least one
/// action, and only conditions and actions that are known and carry the
/// values their kind needs.
pub proof fn law_savable_rules_are_well_formed(rule: Rule)
    requires
        save_problem(rule) is None,
    ensures
        !blank(rule.name@),
        rule.actions@.len() > 0,
        forall|i: int| 0 <= i < rule.conditions@.len() ==> condition_problem(#[trigger] rule.conditions@[i]) is None,
        forall|i: int| 0 <= i < rule.actions@.len() ==> action_problem(#[trigger] rule.actions@[i]) is None,
{
    lemma_no_condition_problem(rule.conditions@);
    lemma_no_action_problem(rule.actions@);
}

/// A rule that a template generates cannot be saved: its one action is a
/// `move`, which is no known action kind, or it has no action at all.
pub proof fn law_template_rules_cannot_be_saved(rule: Rule, target: Option<Seq<char>>)
    requires
        crate::desktop::templates::actions_are(rule.actions@, target),
    ensures
        save_problem(rule) is Some,
{
    reveal_strlit("move");
    reveal_strlit("moveTo");
    reveal_strlit("copyTo");
    reveal_strlit("tag");
    reveal_strlit("rename");
    reveal_strlit("quarantine");
    if !blank(rule.name@) && rule.actions@.len() > 0 && first_condition_problem(rule.conditions@) is None {
        let a = rule.actions@[0];
        assert(a.kind@ == "move"@);
        assert(a.kind@ != "moveTo"@);
        assert(a.kind@ != "copyTo"@);
        assert(a.kind@ != "tag"@);
        assert(a.kind@ != "rename"@);
        assert(a.kind@ != "quarantine"@);
        assert(action_problem(a) is Some);
        assert(rule.actions@.drop_first().len() == 0);
    }
}

/// The first action problem is that of the first action that has one.
proof fn lemma_first_action_problem_at(acts: Seq<Action>, i: int)
    requires
        0 <= i < acts.len(),
        forall|j: int| 0 <= j < i ==> action_problem(#[trigger] acts[j]) is None,
        action_problem(acts[i]) is Some,
    ensures
        first_action_problem(acts) == action_problem(acts[i]),
    decreases i,
{
    if i > 0 {
        assert forall|j: int| 0 <= j < i - 1 implies action_problem(#[trigger] acts.drop_first()[j]) is None by {
            assert(acts.drop_first()[j] == acts[j + 1]);
        }
        assert(action_problem(acts[0]) is None);
        assert(acts.drop_first()[i - 1] == acts[i]);
        lemma_first_action_problem_at(acts.drop_first(), i - 1);
    }
}

/// A `moveTo` or `copyTo` action without a string `path`, or with one that is
/// only white space, has a problem.
proof fn lemma_destination_needed(a: Action)
    requires
        a.kind@ == "moveTo"@ || a.kind@ == "copyTo"@,
        match param_str(a.params, "path"@) {
            None => true,
            Some(p) => blank(p),
        },
    ensures
        action_problem(a) == Some(
            if param_str(a.params, "path"@) is None { RuleErrorView::MissingPath(a.kind@) } else { RuleErrorView::EmptyPath(a.kind@) },
        ),
{
}

/// A rule may be saved only if every `moveTo` and every `copyTo` action
/// carries a string `path` that is not blank: one such action without a
/// destination, or with one that is only white space, stops the save.
pub proof fn law_move_and_copy_need_a_destination(rule: Rule, i: int)
    requires
        0 <= i < rule.actions@.len(),
        rule.actions@[i].kind@ == "moveTo"@ || rule.actions@[i].kind@ == "copyTo"@,
        match param_str(rule.actions@[i].params, "path"@) {
            None => true,
            Some(p) => blank(p),
        },
    ensures
        save_problem(rule) is Some,
{
    lemma_destination_needed(rule.actions@[i]);
    if save_problem(rule) is None {
        lemma_no_action_problem(rule.actions@);
        assert(action_problem(rule.actions@[i]) is None);
    }
}

/// The save check names the blank destination: for a rule whose name is not
/// blank, whose conditions are sound and whose earlier actions are sound, a
/// `moveTo` or `copyTo` action whose `path` is only white space makes the
/// check fail with the empty-path error of that action's kind.
pub proof fn law_blank_destination_is_reported(rule: Rule, i: int)
    requires
        !blank(rule.name@),
        first_condition_problem(rule.conditions@) is None,
        0 <= i < rule.actions@.len(),
        forall|j: int| 0 <= j < i ==> action_problem(#[trigger] rule.actions@[j]) is None,
        rule.actions@[i].kind@ == "moveTo"@ || rule.actions@[i].kind@ == "copyTo"@,
        param_str(rule.actions@[i].params, "path"@) matches Some(p) && blank(p),
    ensures
        save_problem(rule) == Some(RuleErrorView::EmptyPath(rule.actions@[i].kind@)),
{
    lemma_destination_needed(rule.actions@[i]);
    lemma_first_action_problem_at(rule.actions@, i);
}

/// What the rule editor shows after checking a rule, and after trying it on
/// a path when one was given.
pub struct RuleValidationResult {
    pub is_valid: bool,
    pub errors: Vec<String>,
    pub warnings: Vec<String>,
    pub affected_file_count: Option<u32>,
    pub preview_actions: Vec<PreviewTarget>,
}

/// The warnings of a rule check, followed by the one that says why the rule
/// could not be tried on the test path, if it could not.
pub open spec fn result_warnings(warnings: Seq<Seq<char>>, test: Option<Result<Vec<PreviewTarget>, String>>) -> Seq<Seq<char>> {
    match test {
        Some(Err(e)) => warnings.push("Could not test rule against path: "@ + e@),
        _ => warnings,
    }
}

/// The result the rule editor shows for `check` and, when a test path was
/// given, the previews on it (or why there are none): valid when there are
/// no errors; the number of previews (as a 32-bit number) as the affected
/// file count, none when that number is zero.
pub fn validation_result(check: RuleCheck, test: Option<Result<Vec<PreviewTarget>, String>>) -> (r: RuleValidationResult)
    ensures
        r.is_valid <==> check.errors@.len() == 0,
        r.errors@ == check.errors@,
        r.warnings@.map_values(|s: String| s@) == result_warnings(check.warnings@.map_values(|s: String| s@), test),
        match test {
            Some(Ok(p)) => r.preview_actions@ == p@ && r.affected_file_count == if p@.len() as u32 > 0 {
                Some(p@.len() as u32)
            } else {
                None
            },
            _ => r.preview_actions@.len() == 0 && r.affected_file_count is None,
        },
{
    let RuleCheck { errors, mut warnings } = check;
    let ghost before = warnings@.map_values(|s: String| s@);
    let (previews, count) = match test {
        Some(Ok(p)) => {
            let n: u32 = #[verifier::truncate] (p.len() as u32);
            (p, n)
        },
        Some(Err(e)) => {
            let mut s = to_owned("Could not test rule against path: ");
            push_str(&mut s, e.as_str());
            let ghost sv = s@;
            warnings.push(s);
            assert(warnings@.map_values(|s: String| s@) =~= before.push(sv));
            (Vec::new(), 0)
        },
        None => (Vec::new(), 0),
    };
    let is_valid = errors.len() == 0;
    RuleValidationResult {
        is_valid,
        errors,
        warnings,
        affected_file_count: if count > 0 { Some(count) } else { None },
        preview_actions: previews,
    }
}

proof fn lemma_action_entries_full(acts: Seq<Action>, path: Seq<char>, rule_id: u128, rule_name: Seq<char>)
    requires
        forall|i: int| 0 <= i < acts.len() ==> action_problem(#[trigger] acts[i]) is None,
    ensures
        action_entries(acts, path, rule_id, rule_name).len() == acts.len(),
    decreases acts.len(),
{
    if acts.len() > 0 {
        assert forall|i: int| 0 <= i < acts.drop_last().len() implies action_problem(#[trigger] acts.drop_last()[i]) is None by {
            assert(acts.drop_last()[i] == acts[i]);
        }
        lemma_action_entries_full(acts.drop_last(), path, rule_id, rule_name);
        assert(action_problem(acts[acts.len() - 1]) is None);
        assert(action_op(acts.last()) is Some);
    }
}

/// Every action of a rule that may be saved stands for an operation, so a
/// dry run plans one operation per action for each file the rule applies to.
pub proof fn law_savable_rule_plans_every_action(rule: Rule, path: Seq<char>)
    requires
        save_problem(rule) is None,
    ensures
        forall|i: int| 0 <= i < rule.actions@.len() ==> action_op(#[trigger] rule.actions@[i]) is Some,
        action_entries(rule.actions@, path, rule.id, rule.name@).len() == rule.actions@.len(),
{
    law_savable_rules_are_well_formed(rule);
    lemma_action_entries_full(rule.actions@, path, rule.id, rule.name@);
}

} // verus!
