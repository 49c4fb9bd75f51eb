//! Deciding which rules apply to a file.

use vstd::prelude::*;
use crate::json::{json_i64, json_str, JsonValue};
use crate::paths::{extension_of, file_name, file_name_of_path, path_extension};
use crate::patterns::{regex_compiles, regex_finds, regex_match};
use crate::rules::{Condition, Rule};
use crate::text::{
    ascii_lower, ascii_lower_char, contains, eq_ignore_ascii_case, occurs_in, opt_view, or_empty, str_eq, to_ascii_lowercase,
};

verus! {

/// What the matcher knows of a file: its path and its size in bytes.
pub struct FileFacts<'a> {
    pub path: &'a str,
    pub size: u64,
}

/// The integer held by an option, or zero.
pub open spec fn or_zero(o: Option<i64>) -> i64 {
    match o {
        Some(k) => k,
        None => 0,
    }
}

/// Whether condition `c` holds of the file at `path` of `size` bytes whose
/// final path component is `name`.
///
/// - `ext`: the file has an extension, equal up to ASCII case to the
///   condition's string;
/// - `nameMatches`: the condition's string is a regular expression that
///   matches somewhere in the file name;
/// - `sizeGt` / `sizeLt`: the size is above / below the condition's integer,
///   taken as an unsigned number;
/// - `pathContains`: the condition's string occurs in the path, both in ASCII
///   lower case;
/// - any other kind never holds.
///
/// A missing or mistyped value counts as the empty string or zero.
pub open spec fn condition_holds(c: Condition, path: Seq<char>, size: u64, name: Option<Seq<char>>) -> bool {
    let arg = or_empty(json_str(c.value));
    if c.kind@ == "ext"@ {
        match path_extension(name) {
            Some(e) => ascii_lower(e) == ascii_lower(ascii_lower(arg)),
            None => false,
        }
    } else if c.kind@ == "nameMatches"@ {
        regex_compiles(arg) && regex_finds(arg, or_empty(name))
    } else if c.kind@ == "sizeGt"@ {
        size > (or_zero(json_i64(c.value)) as u64)
    } else if c.kind@ == "sizeLt"@ {
        size < (or_zero(json_i64(c.value)) as u64)
    } else if c.kind@ == "pathContains"@ {
        occurs_in(ascii_lower(arg), ascii_lower(path))
    } else {
        false
    }
}

/// All of `conds` hold of the file.
pub open spec fn conditions_hold(conds: Seq<Condition>, path: Seq<char>, size: u64, name: Option<Seq<char>>) -> bool {
    forall|i: int| 0 <= i < conds.len() ==> #[trigger] condition_holds(conds[i], path, size, name)
}

/// Whether `rule` applies to the file: it is enabled, and it either always
/// applies or all of its conditions hold.
pub open spec fn rule_applies(rule: Rule, path: Seq<char>, size: u64, name: Option<Seq<char>>) -> bool {
    rule.enabled && (rule.always_apply || conditions_hold(rule.conditions@, path, size, name))
}

/// The rules of `rules` that apply to the file, in their order.
pub open spec fn applying_rules(rules: Seq<Rule>, path: Seq<char>, size: u64, name: Option<Seq<char>>) -> Seq<Rule>
    decreases rules.len(),
{
    if rules.len() == 0 {
        Seq::<Rule>::empty()
    } else {
        let init = applying_rules(rules.drop_last(), path, size, name);
        if rule_applies(rules.last(), path, size, name) {
            init.push(rules.last())
        } else {
            init
        }
    }
}

/// Whether condition `c` holds of the file, given the file's final path
/// component.
pub fn condition_matches(c: &Condition, f: &FileFacts, name: &Option<String>) -> (r: bool)
    ensures
        r == condition_holds(*c, f.path@, f.size, opt_view(*name)),
{
    let kind = c.kind.as_str();
    if str_eq(kind, "ext") {
        let want = to_ascii_lowercase(str_or_default(&c.value));
        match extension_of(name) {
            Some(e) => eq_ignore_ascii_case(e.as_str(), want.as_str()),
            None => false,
        }
    } else if str_eq(kind, "nameMatches") {
        let pat = str_or_default(&c.value);
        let hay: &str = match name {
            Some(n) => n.as_str(),
            None => "",
        };
        proof {
            reveal_strlit("");
        }
        assert(hay@ =~= or_empty(opt_view(*name)));
        match regex_match(pat, hay) {
            Some(b) => b,
            None => false,
        }
    } else if str_eq(kind, "sizeGt") {
        let n: i64 = match c.value.as_i64() {
            Some(k) => k,
            None => 0,
        };
        f.size > #[verifier::truncate] (n as u64)
    } else if str_eq(kind, "sizeLt") {
        let n: i64 = match c.value.as_i64() {
            Some(k) => k,
            None => 0,
        };
        f.size < #[verifier::truncate] (n as u64)
    } else if str_eq(kind, "pathContains") {
        let needle = to_ascii_lowercase(str_or_default(&c.value));
        let hay = to_ascii_lowercase(f.path);
        contains(hay.as_str(), needle.as_str())
    } else {
        false
    }
}

/// The string held by a JSON value, or the empty string.
pub fn str_or_default(v: &JsonValue) -> (r: &str)
    ensures
        r@ == or_empty(json_str(*v)),
{
    match v.as_str() {
        Some(s) => s,
        None => {
            proof {
                reveal_strlit("");
            }
            ""
        },
    }
}

/// Whether `rule` applies to the file, given the file's final path component.
pub fn rule_matches_given(rule: &Rule, f: &FileFacts, name: &Option<String>) -> (r: bool)
    ensures
        r == rule_applies(*rule, f.path@, f.size, opt_view(*name)),
{
    if !rule.enabled {
        return false;
    }
    if rule.always_apply {
        return true;
    }
    let mut i: usize = 0;
    while i < rule.conditions.len()
        invariant
            i <= rule.conditions@.len(),
            rule.enabled,
            !rule.always_apply,
            forall|j: int| 0 <= j < i ==> #[trigger] condition_holds(rule.conditions@[j], f.path@, f.size, opt_view(*name)),
        decreases rule.conditions@.len() - i,
    {
        if !condition_matches(&rule.conditions[i], f, name) {
            return false;
        }
        i = i + 1;
    }
    true
}

/// Whether `rule` applies to the file. A disabled rule never applies; an
/// enabled rule that always applies does; otherwise every condition must hold
/// of the file, with the file name that the platform reads off the path.
pub fn rule_matches(rule: &Rule, f: &FileFacts) -> (r: bool)
    ensures
        !rule.enabled ==> !r,
        rule.enabled && rule.always_apply ==> r,
        exists|name: Option<Seq<char>>|
            file_name_of_path(f.path@, name) && r == rule_applies(*rule, f.path@, f.size, name),
{
    let name = file_name(f.path);
    rule_matches_given(rule, f, &name)
}

/// The rules that apply to the file, in their order, given the file's final
/// path component.
pub fn matching_rules_given<'a>(rules: &'a [Rule], facts: &FileFacts, name: &Option<String>) -> (r: Vec<&'a Rule>)
    ensures
        r@.map_values(|x: &Rule| *x) == applying_rules(rules@, facts.path@, facts.size, opt_view(*name)),
{
    let mut out: Vec<&'a Rule> = Vec::new();
    let mut i: usize = 0;
    while i < rules.len()
        invariant
            i <= rules@.len(),
            out@.map_values(|x: &Rule| *x) == applying_rules(rules@.take(i as int), facts.path@, facts.size, opt_view(*name)),
        decreases rules@.len() - i,
    {
        assert(rules@.take(i + 1).drop_last() =~= rules@.take(i as int));
        assert(rules@.take(i + 1).last() == rules@[i as int]);
        if rule_matches_given(&rules[i], facts, name) {
            out.push(&rules[i]);
        }
        assert(out@.map_values(|x: &Rule| *x) =~= applying_rules(rules@.take(i + 1), facts.path@, facts.size, opt_view(*name)));
        i = i + 1;
    }
    assert(rules@.take(rules@.len() as int) =~= rules@);
    out
}

/// The rules that apply to the file, in their order, with the file name that
/// the platform reads off the path.
pub fn matching_rules<'a>(rules: &'a [Rule], facts: &FileFacts) -> (r: Vec<&'a Rule>)
    ensures
        exists|name: Option<Seq<char>>|
            file_name_of_path(facts.path@, name)
            && r@.map_values(|x: &Rule| *x) == applying_rules(rules@, facts.path@, facts.size, name),
{
    let name = file_name(facts.path);
    matching_rules_given(rules, facts, &name)
}

/// A disabled rule applies to no file.
pub proof fn law_disabled_rule_never_applies(rule: Rule, path: Seq<char>, size: u64, name: Option<Seq<char>>)
    requires
        !rule.enabled,
    ensures
        !rule_applies(rule, path, size, name),
{
}

/// An enabled rule marked to always apply applies to every file, whatever
/// its conditions.
pub proof fn law_always_apply_rule_applies_to_every_file(rule: Rule, path: Seq<char>, size: u64, name: Option<Seq<char>>)
    requires
        rule.enabled,
        rule.always_apply,
    ensures
        rule_applies(rule, path, size, name),
{
}

/// A rule without conditions applies to every file exactly when it is
/// enabled.
pub proof fn law_rule_without_conditions(rule: Rule, path: Seq<char>, size: u64, name: Option<Seq<char>>)
    requires
        rule.conditions@.len() == 0,
    ensures
        rule_applies(rule, path, size, name) == rule.enabled,
{
}

/// The matching rules are exactly the rules that apply, each kept in place:
/// every one of them applies and is one of the rules, and every rule that
/// applies is among them.
pub proof fn law_matching_rules_are_the_applying_ones(rules: Seq<Rule>, path: Seq<char>, size: u64, name: Option<Seq<char>>)
    ensures
        forall|i: int| 0 <= i < applying_rules(rules, path, size, name).len() ==>
            rule_applies(#[trigger] applying_rules(rules, path, size, name)[i], path, size, name)
            && rules.contains(applying_rules(rules, path, size, name)[i]),
        forall|i: int| 0 <= i < rules.len() && rule_applies(#[trigger] rules[i], path, size, name) ==>
            applying_rules(rules, path, size, name).contains(rules[i]),
        applying_rules(rules, path, size, name).len() <= rules.len(),
    decreases rules.len(),
{
    if rules.len() > 0 {
        let init = rules.drop_last();
        law_matching_rules_are_the_applying_ones(init, path, size, name);
        let a = applying_rules(init, path, size, name);
        let full = applying_rules(rules, path, size, name);
        assert forall|i: int| 0 <= i < full.len() implies
            rule_applies(#[trigger] full[i], path, size, name) && rules.contains(full[i]) by {
            if i < a.len() {
                assert(full[i] == a[i]);
                let j = choose|j: int| 0 <= j < init.len() && init[j] == a[i];
                assert(rules[j] == init[j]);
            } else {
                assert(full[i] == rules.last());
                assert(rules[rules.len() - 1] == rules.last());
            }
        }
        assert forall|i: int| 0 <= i < rules.len() && rule_applies(#[trigger] rules[i], path, size, name) implies
            full.contains(rules[i]) by {
            if i < rules.len() - 1 {
                assert(init[i] == rules[i]);
                let j = choose|j: int| 0 <= j < a.len() && a[j] == init[i];
                assert(full[j] == a[j]);
            } else {
                assert(full[full.len() - 1] == rules.last());
            }
        }
    }
}

/// Matching against two lists of rules in turn gives the matches of the
/// first list followed by those of the second.
pub proof fn law_matching_distributes_over_concatenation(a: Seq<Rule>, b: Seq<Rule>, path: Seq<char>, size: u64, name: Option<Seq<char>>)
    ensures
        applying_rules(a + b, path, size, name) == applying_rules(a, path, size, name) + applying_rules(b, path, size, name),
    decreases b.len(),
{
    if b.len() == 0 {
        assert(a + b =~= a);
        assert(applying_rules(a, path, size, name) + applying_rules(b, path, size, name) =~= applying_rules(a, path, size, name));
    } else {
        law_matching_distributes_over_concatenation(a, b.drop_last(), path, size, name);
        assert((a + b).drop_last() =~= a + b.drop_last());
        assert((a + b).last() == b.last());
        let x = applying_rules(a, path, size, name);
        let y = applying_rules(b.drop_last(), path, size, name);
        assert((x + y).push(b.last()) =~= x + y.push(b.last()));
    }
}

/// Every condition must hold: an enabled rule that does not always apply
/// does not apply to a file for which any one of its conditions fails,
/// whatever its other conditions say.
pub proof fn law_one_failing_condition_vetoes_the_rule(rule: Rule, path: Seq<char>, size: u64, name: Option<Seq<char>>, i: int)
    requires
        !rule.always_apply,
        0 <= i < rule.conditions@.len(),
        !condition_holds(rule.conditions@[i], path, size, name),
    ensures
        !rule_applies(rule, path, size, name),
{
}

/// An enabled rule applies to a file for which every one of its conditions
/// holds.
pub proof fn law_rule_applies_when_every_condition_holds(rule: Rule, path: Seq<char>, size: u64, name: Option<Seq<char>>)
    requires
        rule.enabled,
        forall|i: int| 0 <= i < rule.conditions@.len() ==> #[trigger] condition_holds(rule.conditions@[i], path, size, name),
    ensures
        rule_applies(rule, path, size, name),
{
}

/// Lower-casing twice is lower-casing once.
proof fn lemma_ascii_lower_twice(s: Seq<char>)
    ensures
        ascii_lower(ascii_lower(s)) == ascii_lower(s),
{
    assert forall|i: int| 0 <= i < s.len() implies #[trigger] ascii_lower(ascii_lower(s))[i] == ascii_lower(s)[i] by {
        let c = s[i];
        if 'A' <= c && c <= 'Z' {
            assert('a' <= ascii_lower_char(c) && ascii_lower_char(c) <= 'z');
        }
    }
    assert(ascii_lower(ascii_lower(s)) =~= ascii_lower(s));
}

/// An extension condition fails for a file without an extension, or whose
/// extension differs from the condition's text when both are taken in ASCII
/// lower case; so a rule that does not always apply and has such a condition
/// does not apply to that file.
pub proof fn law_extension_mismatch_vetoes_the_rule(rule: Rule, path: Seq<char>, size: u64, name: Option<Seq<char>>, i: int)
    requires
        !rule.always_apply,
        0 <= i < rule.conditions@.len(),
        rule.conditions@[i].kind@ == "ext"@,
        match path_extension(name) {
            None => true,
            Some(e) => ascii_lower(e) != ascii_lower(or_empty(json_str(rule.conditions@[i].value))),
        },
    ensures
        !rule_applies(rule, path, size, name),
{
    lemma_ascii_lower_twice(or_empty(json_str(rule.conditions@[i].value)));
    assert(!condition_holds(rule.conditions@[i], path, size, name));
}

} // verus!
