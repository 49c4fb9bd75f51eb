//! Exporting rules to a document and importing them back.

use vstd::prelude::*;
use crate::desktop::templates::{get_predefined_templates, predefined_templates, RuleTemplate};
use crate::model::{uuid_string, uuid_text};
use crate::rules::Rule;
use crate::text::{decimal, push_str, str_eq, to_owned, u64_to_decimal};

verus! {

/// The index of the first rule of `rules`, from index `k` on, whose id reads
/// as `text`.
pub open spec fn first_rule_from(rules: Seq<Rule>, text: Seq<char>, k: int) -> Option<int>
    decreases rules.len() - k,
{
    if k < 0 || k >= rules.len() {
        None
    } else if uuid_text(rules[k].id) == text {
        Some(k)
    } else {
        first_rule_from(rules, text, k + 1)
    }
}

/// The rules an export picks for `ids`, as indices into `rules`: for each
/// requested id in turn, the first rule whose id reads as that number.
pub open spec fn export_selection(rules: Seq<Rule>, ids: Seq<u32>) -> Seq<int>
    decreases ids.len(),
{
    if ids.len() == 0 {
        Seq::empty()
    } else {
        let init = export_selection(rules, ids.drop_last());
        match first_rule_from(rules, decimal(ids.last() as nat), 0) {
            Some(i) => init.push(i),
            None => init,
        }
    }
}

proof fn lemma_decimal_has_only_digits(n: nat)
    ensures
        forall|i: int| 0 <= i < decimal(n).len() ==> '0' <= #[trigger] decimal(n)[i] <= '9',
    decreases n,
{
    if n >= 10 {
        lemma_decimal_has_only_digits(n / 10);
        assert forall|i: int| 0 <= i < decimal(n).len() implies '0' <= #[trigger] decimal(n)[i] <= '9' by {
            if i < decimal(n / 10).len() {
                assert(decimal(n)[i] == decimal(n / 10)[i]);
            }
        }
    }
}

/// The index of the first rule of `rules` whose id reads as the number `id`;
/// a UUID's text always holds a `-` and a numeral never does, so there is
/// none.
fn first_rule_with_number(rules: &[Rule], id: u32) -> (r: Option<usize>)
    ensures
        r is None,
        first_rule_from(rules@, decimal(id as nat), 0) is None,
{
    let wanted = u64_to_decimal(id as u64);
    proof {
        lemma_decimal_has_only_digits(id as nat);
    }
    let mut i: usize = 0;
    while i < rules.len()
        invariant
            i <= rules@.len(),
            wanted@ == decimal(id as nat),
            forall|j: int| 0 <= j < wanted@.len() ==> '0' <= #[trigger] wanted@[j] <= '9',
            first_rule_from(rules@, wanted@, 0) == first_rule_from(rules@, wanted@, i as int),
        decreases rules@.len() - i,
    {
        let text = uuid_string(rules[i].id);
        if str_eq(text.as_str(), wanted.as_str()) {
            assert(wanted@[8] == '-');
            return Some(i);
        }
        i = i + 1;
    }
    None
}

/// The rules an export picks for `ids`, as indices into `rules`. Rule ids
/// are UUIDs and requested ids are numbers, so no rule is ever picked.
pub fn select_rules_for_export(rules: &[Rule], ids: &[u32]) -> (r: Vec<usize>)
    ensures
        r@.map_values(|i: usize| i as int) == export_selection(rules@, ids@),
        r@.len() == 0,
{
    let mut picked: Vec<usize> = Vec::new();
    let mut k: usize = 0;
    while k < ids.len()
        invariant
            k <= ids@.len(),
            picked@.len() == 0,
            export_selection(rules@, ids@.take(k as int)) == Seq::<int>::empty(),
        decreases ids@.len() - k,
    {
        assert(ids@.take(k + 1).drop_last() =~= ids@.take(k as int));
        assert(ids@.take(k + 1).last() == ids@[k as int]);
        let found = first_rule_with_number(rules, ids[k]);
        match found {
            Some(i) => picked.push(i),
            None => {},
        }
        k = k + 1;
    }
    assert(ids@.take(ids@.len() as int) =~= ids@);
    assert(picked@.map_values(|i: usize| i as int) =~= Seq::<int>::empty());
    picked
}

/// An exported document of rules.
pub struct RuleExport {
    pub rules: Vec<Rule>,
    pub templates: Vec<RuleTemplate>,
    pub exported_at: String,
    pub version: String,
}

/// The export of `rules` made at `exported_at`, in format version `1.0`,
/// with the predefined templates when they are asked for.
pub fn rule_export(rules: Vec<Rule>, include_templates: bool, exported_at: String) -> (r: RuleExport)
    ensures
        r.rules@ == rules@,
        r.exported_at@ == exported_at@,
        r.version@ == "1.0"@,
        include_templates ==> r.templates@.map_values(|t: RuleTemplate| t@) == predefined_templates(),
        !include_templates ==> r.templates@.len() == 0,
{
    let templates = if include_templates { get_predefined_templates() } else { Vec::new() };
    RuleExport { rules, templates, exported_at, version: to_owned("1.0") }
}

/// The names of the rules that were imported, in order.
pub open spec fn imported_names(outcomes: Seq<(String, Result<String, String>)>) -> Seq<Seq<char>>
    decreases outcomes.len(),
{
    if outcomes.len() == 0 {
        Seq::empty()
    } else {
        let init = imported_names(outcomes.drop_last());
        match outcomes.last().1 {
            Ok(n) => init.push(n@),
            Err(_) => init,
        }
    }
}

/// The reports of the rules that could not be imported, in order: the rule's
/// original name and why.
pub open spec fn import_failures(outcomes: Seq<(String, Result<String, String>)>) -> Seq<Seq<char>>
    decreases outcomes.len(),
{
    if outcomes.len() == 0 {
        Seq::empty()
    } else {
        let init = import_failures(outcomes.drop_last());
        match outcomes.last().1 {
            Ok(_) => init,
            Err(e) => init.push("Failed to import '"@ + outcomes.last().0@ + "': "@ + e@),
        }
    }
}

/// The texts of `parts`, with `sep` between each two.
pub open spec fn joined(parts: Seq<Seq<char>>, sep: Seq<char>) -> Seq<char>
    decreases parts.len(),
{
    if parts.len() == 0 {
        Seq::empty()
    } else if parts.len() == 1 {
        parts[0]
    } else {
        joined(parts.drop_last(), sep) + sep + parts.last()
    }
}

/// The outcome of an import, given for each rule its original name and what
/// saving it gave (its saved name, or why it failed): the saved names when
/// every rule was saved, otherwise all the failures in one message.
pub fn import_result(outcomes: &[(String, Result<String, String>)]) -> (r: Result<Vec<String>, String>)
    ensures
        import_failures(outcomes@).len() == 0 ==> (r matches Ok(names)
            && names@.map_values(|s: String| s@) == imported_names(outcomes@)),
        import_failures(outcomes@).len() > 0 ==> (r matches Err(m)
            && m@ == "Import completed with errors: "@ + joined(import_failures(outcomes@), "; "@)),
{
    let mut names: Vec<String> = Vec::new();
    let mut message = String::new();
    let mut failed: usize = 0;
    let mut i: usize = 0;
    while i < outcomes.len()
        invariant
            i <= outcomes@.len(),
            names@.map_values(|s: String| s@) == imported_names(outcomes@.take(i as int)),
            failed == import_failures(outcomes@.take(i as int)).len(),
            failed <= i,
            message@ == joined(import_failures(outcomes@.take(i as int)), "; "@),
        decreases outcomes@.len() - i,
    {
        let ghost t = outcomes@.take(i + 1);
        assert(t.drop_last() =~= outcomes@.take(i as int));
        assert(t.last() == outcomes@[i as int]);
        let (original, outcome) = &outcomes[i];
        match outcome {
            Ok(n) => {
                let ghost before = names@.map_values(|s: String| s@);
                names.push(n.clone());
                assert(names@.map_values(|s: String| s@) =~= before.push(n@));
            },
            Err(e) => {
                let ghost prev = message@;
                if failed > 0 {
                    push_str(&mut message, "; ");
                }
                push_str(&mut message, "Failed to import '");
                push_str(&mut message, original.as_str());
                push_str(&mut message, "': ");
                push_str(&mut message, e.as_str());
                proof {
                    let item = "Failed to import '"@ + original@ + "': "@ + e@;
                    let fs = import_failures(outcomes@.take(i as int));
                    assert(import_failures(t) == fs.push(item));
                    assert(fs.push(item).drop_last() =~= fs);
                    if failed == 0 {
                        assert(prev == Seq::<char>::empty());
                        assert(message@ =~= item);
                    } else {
                        assert(message@ =~= prev + "; "@ + item);
                    }
                }
                failed = failed + 1;
            },
        }
        i = i + 1;
    }
    assert(outcomes@.take(outcomes@.len() as int) =~= outcomes@);
    if failed > 0 {
        let mut m = to_owned("Import completed with errors: ");
        push_str(&mut m, message.as_str());
        Err(m)
    } else {
        Ok(names)
    }
}

/// Every imported rule is reported once: by its saved name or by its
/// failure.
pub proof fn law_every_import_is_reported_once(outcomes: Seq<(String, Result<String, String>)>)
    ensures
        imported_names(outcomes).len() + import_failures(outcomes).len() == outcomes.len(),
    decreases outcomes.len(),
{
    if outcomes.len() > 0 {
        law_every_import_is_reported_once(outcomes.drop_last());
    }
}

} // verus!
