//! Previewing what a rule would do to one file, as the rule editor shows it.

use vstd::prelude::*;
use crate::json::{json_get, json_str};
use crate::paths::{extension_of, file_name, file_name_of_path, path_extension};
use crate::patterns::{regex_compiles, regex_finds, regex_match};
use crate::rules::{Condition, Rule};
use crate::text::{opt_view, or_empty, push_str, replace, replace_all, str_eq, to_owned};

verus! {

/// Where a previewed rule would send a file, and by which action.
pub struct PreviewTarget {
    pub source_path: String,
    pub destination_path: String,
    pub action_type: String,
}

/// Whether condition `c` counts as matching in a preview of the file named
/// `name` with extension `ext`: an `extension` condition must equal the
/// extension, a `nameMatches` condition must compile and match the name, and
/// any other condition counts as matching.
pub open spec fn preview_condition_matches(c: Condition, name: Seq<char>, ext: Seq<char>) -> bool {
    if c.kind@ == "extension"@ {
        json_str(c.value) == Some(ext)
    } else if c.kind@ == "nameMatches"@ {
        match json_str(c.value) {
            Some(p) => regex_compiles(p) && regex_finds(p, name),
            None => false,
        }
    } else {
        true
    }
}

/// Whether a preview counts the rule as matching: some condition matches.
pub open spec fn preview_matches(conds: Seq<Condition>, name: Seq<char>, ext: Seq<char>) -> bool {
    exists|i: int| 0 <= i < conds.len() && #[trigger] preview_condition_matches(conds[i], name, ext)
}

/// The destination a preview shows for the file named `name` with extension
/// `ext`, from the first action's parameters: its `target` (or
/// `./Organized/` when that is not a string) with `{extension}` and then
/// `{filename}` filled in, or `./Organized/<name>` when there is no target.
pub open spec fn preview_destination(params: crate::json::JsonValue, name: Seq<char>, ext: Seq<char>) -> Seq<char> {
    match json_get(params, "target"@) {
        Some(t) => {
            let base = match json_str(t) {
                Some(s) => s,
                None => "./Organized/"@,
            };
            replace_all(replace_all(base, "{extension}"@, ext), "{filename}"@, name)
        },
        None => "./Organized/"@ + name,
    }
}

/// The preview of `rule` on the file at `path`, whose final path component is
/// `name`: none unless some condition matches and the rule has an action;
/// otherwise the first action's type and destination.
pub open spec fn preview_ok(r: Option<PreviewTarget>, rule: Rule, path: Seq<char>, name: Option<Seq<char>>) -> bool {
    let n = or_empty(name);
    let e = or_empty(path_extension(name));
    if preview_matches(rule.conditions@, n, e) && rule.actions@.len() > 0 {
        r matches Some(p) && p.source_path@ == path && p.action_type@ == rule.actions@[0].kind@
            && p.destination_path@ == preview_destination(rule.actions@[0].params, n, e)
    } else {
        r is None
    }
}

fn condition_matches_in_preview(c: &Condition, name: &str, ext: &str) -> (r: bool)
    ensures
        r == preview_condition_matches(*c, name@, ext@),
{
    let k = c.kind.as_str();
    if str_eq(k, "extension") {
        match c.value.as_str() {
            Some(t) => str_eq(ext, t),
            None => false,
        }
    } else if str_eq(k, "nameMatches") {
        match c.value.as_str() {
            Some(p) => match regex_match(p, name) {
                Some(b) => b,
                None => false,
            },
            None => false,
        }
    } else {
        true
    }
}

/// The preview of `rule` on the file at `path`, given the path's final
/// component.
pub fn simulate_rule_on_file_given(rule: &Rule, path: &str, name: &Option<String>) -> (r: Option<PreviewTarget>)
    ensures
        preview_ok(r, *rule, path@, opt_view(*name)),
{
    proof {
        reveal_strlit("");
        reveal_strlit("{extension}");
        reveal_strlit("{filename}");
    }
    let file_name: &str = match name {
        Some(n) => n.as_str(),
        None => "",
    };
    let ext_owned = extension_of(name);
    let extension: &str = match &ext_owned {
        Some(e) => e.as_str(),
        None => "",
    };
    assert(file_name@ =~= or_empty(opt_view(*name)));
    assert(extension@ =~= or_empty(path_extension(opt_view(*name))));
    let mut matches = false;
    let mut i: usize = 0;
    while i < rule.conditions.len()
        invariant
            i <= rule.conditions@.len(),
            matches <==> exists|j: int| 0 <= j < i && #[trigger] preview_condition_matches(rule.conditions@[j], file_name@, extension@),
        decreases rule.conditions@.len() - i,
    {
        if condition_matches_in_preview(&rule.conditions[i], file_name, extension) {
            matches = true;
        }
        i = i + 1;
    }
    if matches && rule.actions.len() > 0 {
        let action = &rule.actions[0];
        let destination = match action.params.get("target") {
            Some(t) => {
                let base: &str = match t.as_str() {
                    Some(s) => s,
                    None => "./Organized/",
                };
                let once = replace(base, "{extension}", extension);
                replace(once.as_str(), "{filename}", file_name)
            },
            None => {
                let mut s = to_owned("./Organized/");
                push_str(&mut s, file_name);
                s
            },
        };
        Some(PreviewTarget {
            source_path: to_owned(path),
            destination_path: destination,
            action_type: action.kind.clone(),
        })
    } else {
        None
    }
}

/// The preview of `rule` on the file at `path`, with the file name that the
/// platform reads off the path; this never fails.
pub fn simulate_rule_on_file(rule: &Rule, path: &str) -> (r: Result<Option<PreviewTarget>, String>)
    ensures
        r matches Ok(p) && exists|name: Option<Seq<char>>| file_name_of_path(path@, name) && preview_ok(p, *rule, path@, name),
{
    let name = file_name(path);
    Ok(simulate_rule_on_file_given(rule, path, &name))
}

/// One matching condition is enough for a preview: when some condition of a
/// rule that has an action matches the file in the preview's sense, the
/// preview is given, from the file's path and the rule's first action,
/// whatever the other conditions say.
pub proof fn law_one_matching_condition_gives_a_preview(r: Option<PreviewTarget>, rule: Rule, path: Seq<char>, name: Option<Seq<char>>, i: int)
    requires
        preview_ok(r, rule, path, name),
        rule.actions@.len() > 0,
        0 <= i < rule.conditions@.len(),
        preview_condition_matches(rule.conditions@[i], or_empty(name), or_empty(path_extension(name))),
    ensures
        r matches Some(p) && p.source_path@ == path && p.action_type@ == rule.actions@[0].kind@,
{
}

/// In particular an `extension` condition whose text is the file's extension
/// makes the preview appear, whatever the other conditions say.
pub proof fn law_extension_condition_gives_a_preview(r: Option<PreviewTarget>, rule: Rule, path: Seq<char>, name: Option<Seq<char>>, i: int)
    requires
        preview_ok(r, rule, path, name),
        rule.actions@.len() > 0,
        0 <= i < rule.conditions@.len(),
        rule.conditions@[i].kind@ == "extension"@,
        json_str(rule.conditions@[i].value) == Some(or_empty(path_extension(name))),
    ensures
        r is Some,
{
    law_one_matching_condition_gives_a_preview(r, rule, path, name, i);
}

/// No preview without a matching condition: when no condition of the rule
/// matches the file in the preview's sense (a rule without conditions
/// included), there is no preview.
pub proof fn law_no_matching_condition_gives_no_preview(r: Option<PreviewTarget>, rule: Rule, path: Seq<char>, name: Option<Seq<char>>)
    requires
        preview_ok(r, rule, path, name),
        forall|i: int| 0 <= i < rule.conditions@.len() ==>
            !#[trigger] preview_condition_matches(rule.conditions@[i], or_empty(name), or_empty(path_extension(name))),
    ensures
        r is None,
{
}

} // verus!
