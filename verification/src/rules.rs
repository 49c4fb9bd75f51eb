//! Organisation rules: when they apply (conditions) and what they do
//! (actions).

use vstd::prelude::*;
use crate::json::JsonValue;

verus! {

/// One test on a file. `kind` names the test (`"ext"`, `"nameMatches"`,
/// `"sizeGt"`, `"sizeLt"`, `"pathContains"`); `value` is its argument.
pub struct Condition {
    pub kind: String,
    pub value: JsonValue,
}

/// One thing to do with a file. `kind` names it (`"moveTo"`, `"copyTo"`,
/// `"tag"`, `"rename"`, `"quarantine"`); `params` holds its arguments.
pub struct Action {
    pub kind: String,
    pub params: JsonValue,
}

/// A rule: when enabled, it applies to every file if `always_apply` is set,
/// and otherwise to the files that pass all of its conditions.
pub struct Rule {
    pub id: u128,
    pub name: String,
    pub enabled: bool,
    pub always_apply: bool,
    pub conditions: Vec<Condition>,
    pub actions: Vec<Action>,
    pub version: i32,
    pub options: JsonValue,
}

/// The version a rule gets when its document gives none.
pub fn default_version() -> (r: i32)
    ensures
        r == 1,
{
    1
}

} // verus!
