//! The engine: turning rule actions into operations, planning a dry run over
//! files, and the values that indexing records.

use vstd::prelude::*;
use crate::json::{json_array, json_get, json_str, JsonValue};
use crate::matcher::{applying_rules, matching_rules_given, FileFacts};
use crate::model::{DryRunAction, DryRunActionView, DryRunPlan, Op, OpView};
use crate::paths::{file_name, file_name_of_path};
use crate::rules::{Action, Rule};
use crate::text::{opt_view, str_eq, to_owned};

verus! {

/// The string parameter `key` of an action's parameters.
pub open spec fn param_str(params: JsonValue, key: Seq<char>) -> Option<Seq<char>> {
    match json_get(params, key) {
        Some(v) => json_str(v),
        None => None,
    }
}

/// The strings among `items`, in order; other values are skipped.
pub open spec fn strings_among(items: Seq<JsonValue>) -> Seq<Seq<char>>
    decreases items.len(),
{
    if items.len() == 0 {
        Seq::<Seq<char>>::empty()
    } else {
        let init = strings_among(items.drop_last());
        match json_str(items.last()) {
            Some(s) => init.push(s),
            None => init,
        }
    }
}

/// The operation an action stands for, if its kind is known and it carries
/// the parameters that kind needs:
/// `moveTo` / `copyTo` need a string `path`, `tag` an array `tags` (whose
/// strings become the tags), `rename` a string `pattern`; `quarantine` needs
/// nothing.
pub open spec fn action_op(a: Action) -> Option<OpView> {
    let k = a.kind@;
    if k == "moveTo"@ {
        match param_str(a.params, "path"@) {
            Some(p) => Some(OpView::MoveTo(p)),
            None => None,
        }
    } else if k == "copyTo"@ {
        match param_str(a.params, "path"@) {
            Some(p) => Some(OpView::CopyTo(p)),
            None => None,
        }
    } else if k == "tag"@ {
        match json_get(a.params, "tags"@) {
            Some(v) => match json_array(v) {
                Some(items) => Some(OpView::Tag(strings_among(items))),
                None => None,
            },
            None => None,
        }
    } else if k == "rename"@ {
        match param_str(a.params, "pattern"@) {
            Some(p) => Some(OpView::Rename(p)),
            None => None,
        }
    } else if k == "quarantine"@ {
        Some(OpView::Quarantine)
    } else {
        None
    }
}

/// The contents of an optional operation.
pub open spec fn opt_op_view(o: Option<Op>) -> Option<OpView> {
    match o {
        Some(op) => Some(op@),
        None => None,
    }
}

/// The plan entries that the actions `acts` of the rule `rule_id` / `rule_name`
/// give for the file at `path`: one per action that stands for an operation.
pub open spec fn action_entries(acts: Seq<Action>, path: Seq<char>, rule_id: u128, rule_name: Seq<char>) -> Seq<DryRunActionView>
    decreases acts.len(),
{
    if acts.len() == 0 {
        Seq::<DryRunActionView>::empty()
    } else {
        let init = action_entries(acts.drop_last(), path, rule_id, rule_name);
        match action_op(acts.last()) {
            Some(op) => init.push(DryRunActionView { file_path: path, op, rule_id, rule_name }),
            None => init,
        }
    }
}

/// The plan entries that the rules `rules` give for the file at `path`, rule
/// after rule.
pub open spec fn rule_entries(rules: Seq<Rule>, path: Seq<char>) -> Seq<DryRunActionView>
    decreases rules.len(),
{
    if rules.len() == 0 {
        Seq::<DryRunActionView>::empty()
    } else {
        rule_entries(rules.drop_last(), path) + action_entries(
            rules.last().actions@,
            path,
            rules.last().id,
            rules.last().name@,
        )
    }
}

/// The plan entries for one file: those of the rules that apply to it.
pub open spec fn file_entries(rules: Seq<Rule>, path: Seq<char>, size: u64, name: Option<Seq<char>>) -> Seq<DryRunActionView> {
    rule_entries(applying_rules(rules, path, size, name), path)
}

/// The plan for a sequence of files, whose final path components are
/// `names`: the entries of each file, file after file.
pub open spec fn plan_entries<'a>(rules: Seq<Rule>, files: Seq<FileFacts<'a>>, names: Seq<Option<Seq<char>>>) -> Seq<DryRunActionView>
    decreases files.len(),
{
    if files.len() == 0 || names.len() != files.len() {
        Seq::<DryRunActionView>::empty()
    } else {
        plan_entries(rules, files.drop_last(), names.drop_last()) + file_entries(
            rules,
            files.last().path@,
            files.last().size,
            names.last(),
        )
    }
}

/// The string parameter `key` of `params`.
fn param_string(params: &JsonValue, key: &str) -> (r: Option<String>)
    ensures
        opt_view(r) == param_str(*params, key@),
{
    match params.get(key) {
        Some(v) => match v.as_str() {
            Some(s) => Some(to_owned(s)),
            None => None,
        },
        None => None,
    }
}

/// The strings among the items of a JSON array, in order.
fn strings_in(items: &Vec<JsonValue>) -> (r: Vec<String>)
    ensures
        r@.map_values(|t: String| t@) == strings_among(items@),
{
    let mut out: Vec<String> = Vec::new();
    let mut i: usize = 0;
    while i < items.len()
        invariant
            i <= items@.len(),
            out@.map_values(|t: String| t@) == strings_among(items@.take(i as int)),
        decreases items@.len() - i,
    {
        assert(items@.take(i + 1).drop_last() =~= items@.take(i as int));
        assert(items@.take(i + 1).last() == items@[i as int]);
        match items[i].as_str() {
            Some(s) => {
                out.push(to_owned(s));
            },
            None => {},
        }
        assert(out@.map_values(|t: String| t@) =~= strings_among(items@.take(i + 1)));
        i = i + 1;
    }
    assert(items@.take(items@.len() as int) =~= items@);
    out
}

/// The operation an action stands for, if any.
pub fn map_action(a: &Action) -> (r: Option<Op>)
    ensures
        opt_op_view(r) == action_op(*a),
{
    let k = a.kind.as_str();
    if str_eq(k, "moveTo") {
        match param_string(&a.params, "path") {
            Some(p) => Some(Op::MoveTo { path: p }),
            None => None,
        }
    } else if str_eq(k, "copyTo") {
        match param_string(&a.params, "path") {
            Some(p) => Some(Op::CopyTo { path: p }),
            None => None,
        }
    } else if str_eq(k, "tag") {
        match a.params.get("tags") {
            Some(v) => match v.as_array() {
                Some(items) => Some(Op::Tag { tags: strings_in(items) }),
                None => None,
            },
            None => None,
        }
    } else if str_eq(k, "rename") {
        match param_string(&a.params, "pattern") {
            Some(p) => Some(Op::Rename { pattern: p }),
            None => None,
        }
    } else if str_eq(k, "quarantine") {
        Some(Op::Quarantine)
    } else {
        None
    }
}

/// Appends to `plan` the entries that `rule`'s actions give for the file at
/// `path`.
fn push_rule_actions(plan: &mut DryRunPlan, rule: &Rule, path: &str)
    ensures
        final(plan)@ == old(plan)@ + action_entries(rule.actions@, path@, rule.id, rule.name@),
{
    let ghost start = plan@;
    let mut j: usize = 0;
    while j < rule.actions.len()
        invariant
            j <= rule.actions@.len(),
            plan@ == start + action_entries(rule.actions@.take(j as int), path@, rule.id, rule.name@),
        decreases rule.actions@.len() - j,
    {
        assert(rule.actions@.take(j + 1).drop_last() =~= rule.actions@.take(j as int));
        assert(rule.actions@.take(j + 1).last() == rule.actions@[j as int]);
        match map_action(&rule.actions[j]) {
            Some(op) => {
                let entry = DryRunAction {
                    file_path: to_owned(path),
                    op,
                    rule_id: rule.id,
                    rule_name: rule.name.clone(),
                };
                let ghost ev = entry@;
                let ghost before = plan@;
                plan.actions.push(entry);
                assert(plan@ =~= before.push(ev));
            },
            None => {},
        }
        assert(plan@ =~= start + action_entries(rule.actions@.take(j + 1), path@, rule.id, rule.name@));
        j = j + 1;
    }
    assert(rule.actions@.take(rule.actions@.len() as int) =~= rule.actions@);
}

/// Appends to `plan` the entries for one file, given its final path
/// component: for each rule that applies to the file, in order, one entry per
/// action that stands for an operation.
pub fn plan_file_given(plan: &mut DryRunPlan, rules: &[Rule], facts: &FileFacts, name: &Option<String>)
    ensures
        final(plan)@ == old(plan)@ + file_entries(rules@, facts.path@, facts.size, opt_view(*name)),
{
    let matched = matching_rules_given(rules, facts, name);
    let ghost ms = matched@.map_values(|x: &Rule| *x);
    let ghost start = plan@;
    let mut i: usize = 0;
    while i < matched.len()
        invariant
            i <= matched@.len(),
            ms == matched@.map_values(|x: &Rule| *x),
            plan@ == start + rule_entries(ms.take(i as int), facts.path@),
        decreases matched@.len() - i,
    {
        assert(ms.take(i + 1).drop_last() =~= ms.take(i as int));
        assert(ms.take(i + 1).last() == *matched@[i as int]);
        push_rule_actions(plan, matched[i], facts.path);
        assert(plan@ =~= start + rule_entries(ms.take(i + 1), facts.path@));
        i = i + 1;
    }
    assert(ms.take(ms.len() as int) =~= ms);
}

/// The plan for one file: for each rule that applies to it, in order, one
/// entry per action that stands for an operation, with the file name that the
/// platform reads off the path.
pub fn plan_for_file(rules: &[Rule], facts: &FileFacts) -> (r: DryRunPlan)
    ensures
        exists|name: Option<Seq<char>>|
            file_name_of_path(facts.path@, name) && r@ == file_entries(rules@, facts.path@, facts.size, name),
{
    let mut plan = DryRunPlan::default();
    let name = file_name(facts.path);
    plan_file_given(&mut plan, rules, facts, &name);
    assert(plan@ =~= file_entries(rules@, facts.path@, facts.size, opt_view(name)));
    plan
}

/// The dry-run plan for a list of files: the entries of each file, file after
/// file, with the file names that the platform reads off the paths.
pub fn dry_run_plan<'a>(rules: &[Rule], files: &[FileFacts<'a>]) -> (r: DryRunPlan)
    ensures
        exists|names: Seq<Option<Seq<char>>>|
            names.len() == files@.len()
            && (forall|k: int| 0 <= k < files@.len() ==> file_name_of_path(#[trigger] files@[k].path@, names[k]))
            && r@ == plan_entries(rules@, files@, names),
{
    let mut plan = DryRunPlan::default();
    let ghost mut names: Seq<Option<Seq<char>>> = Seq::empty();
    let mut i: usize = 0;
    while i < files.len()
        invariant
            i <= files@.len(),
            names.len() == i,
            forall|k: int| 0 <= k < i ==> file_name_of_path(#[trigger] files@[k].path@, names[k]),
            plan@ == plan_entries(rules@, files@.take(i as int), names),
        decreases files@.len() - i,
    {
        let name = file_name(files[i].path);
        let ghost before = plan@;
        plan_file_given(&mut plan, rules, &files[i], &name);
        proof {
            let old_names = names;
            names = names.push(opt_view(name));
            assert(files@.take(i + 1).drop_last() =~= files@.take(i as int));
            assert(names.drop_last() =~= old_names);
            assert(files@.take(i + 1).last() == files@[i as int]);
        }
        i = i + 1;
    }
    assert(files@.take(files@.len() as int) =~= files@);
    plan
}

/// Seconds since the Unix epoch as the index stores them: the whole seconds
/// of the time since the epoch, or zero for a time before it.
pub fn unix_secs(since_epoch: Option<u64>) -> (r: i64)
    ensures
        r == match since_epoch {
            Some(s) => s as i64,
            None => 0i64,
        },
{
    match since_epoch {
        Some(s) => #[verifier::truncate] (s as i64),
        None => 0,
    }
}

/// Planning two lists of files in turn gives the plan of the first list
/// followed by the plan of the second.
pub proof fn law_plan_distributes_over_files<'a>(
    rules: Seq<Rule>,
    f1: Seq<FileFacts<'a>>,
    n1: Seq<Option<Seq<char>>>,
    f2: Seq<FileFacts<'a>>,
    n2: Seq<Option<Seq<char>>>,
)
    requires
        n1.len() == f1.len(),
        n2.len() == f2.len(),
    ensures
        plan_entries(rules, f1 + f2, n1 + n2) == plan_entries(rules, f1, n1) + plan_entries(rules, f2, n2),
    decreases f2.len(),
{
    if f2.len() == 0 {
        assert(f1 + f2 =~= f1);
        assert(n1 + n2 =~= n1);
        assert(plan_entries(rules, f1, n1) + plan_entries(rules, f2, n2) =~= plan_entries(rules, f1, n1));
    } else {
        law_plan_distributes_over_files(rules, f1, n1, f2.drop_last(), n2.drop_last());
        assert((f1 + f2).drop_last() =~= f1 + f2.drop_last());
        assert((n1 + n2).drop_last() =~= n1 + n2.drop_last());
        assert((f1 + f2).last() == f2.last());
        assert((n1 + n2).last() == n2.last());
    }
}

proof fn lemma_action_entries_shape(acts: Seq<Action>, path: Seq<char>, id: u128, name: Seq<char>)
    ensures
        forall|i: int| 0 <= i < action_entries(acts, path, id, name).len() ==> {
            let e = #[trigger] action_entries(acts, path, id, name)[i];
            e.file_path == path && e.rule_id == id && e.rule_name == name
        },
        action_entries(acts, path, id, name).len() <= acts.len(),
    decreases acts.len(),
{
    if acts.len() > 0 {
        lemma_action_entries_shape(acts.drop_last(), path, id, name);
    }
}

/// Every entry that rules give for a file is about that file and comes from
/// one of those rules, under its id and name.
pub proof fn law_plan_entries_come_from_the_rules(rules: Seq<Rule>, path: Seq<char>)
    ensures
        forall|i: int| 0 <= i < rule_entries(rules, path).len() ==> {
            let e = #[trigger] rule_entries(rules, path)[i];
            e.file_path == path && exists|j: int| 0 <= j < rules.len() && rules[j].id == e.rule_id && rules[j].name@ == e.rule_name
        },
    decreases rules.len(),
{
    if rules.len() > 0 {
        let init = rules.drop_last();
        law_plan_entries_come_from_the_rules(init, path);
        let last = rules.last();
        lemma_action_entries_shape(last.actions@, path, last.id, last.name@);
        let a = rule_entries(init, path);
        let b = action_entries(last.actions@, path, last.id, last.name@);
        assert forall|i: int| 0 <= i < rule_entries(rules, path).len() implies {
            let e = #[trigger] rule_entries(rules, path)[i];
            e.file_path == path && exists|j: int| 0 <= j < rules.len() && rules[j].id == e.rule_id && rules[j].name@ == e.rule_name
        } by {
            let e = rule_entries(rules, path)[i];
            if i < a.len() {
                assert(e == a[i]);
                let j = choose|j: int| 0 <= j < init.len() && init[j].id == a[i].rule_id && init[j].name@ == a[i].rule_name;
                assert(rules[j] == init[j]);
            } else {
                assert(e == b[i - a.len()]);
                assert(rules[rules.len() - 1] == last);
            }
        }
    }
}

/// With no rules, a dry run proposes nothing.
pub proof fn law_no_rules_no_plan<'a>(files: Seq<FileFacts<'a>>, names: Seq<Option<Seq<char>>>)
    ensures
        plan_entries(Seq::<Rule>::empty(), files, names).len() == 0,
    decreases files.len(),
{
    if files.len() > 0 && names.len() == files.len() {
        law_no_rules_no_plan(files.drop_last(), names.drop_last());
        let f = files.last();
        assert(applying_rules(Seq::<Rule>::empty(), f.path@, f.size, names.last()) =~= Seq::<Rule>::empty());
    }
}

} // verus!
