//! Rule templates: the predefined ones, and the rules they generate from the
//! parameters a user fills in.

use vstd::prelude::*;
use crate::json::{json_str, JsonValue};
use crate::patterns::{regex_compile_error, regex_error, regex_finds, regex_match};
use crate::rules::{Action, Condition, Rule};
use crate::text::{
    opt_view, push_str, replace, replace_all, split, split_on, str_eq, to_owned, trim, trimmed,
};

verus! {

/// What a template organises by.
#[derive(PartialEq, Eq, Structural, Clone, Copy)]
pub enum TemplateCategory {
    FileType,
    DateBased,
    ProjectStructure,
    ContentBased,
    SizeBased,
    Custom,
}

/// The kind of value a template parameter takes.
#[derive(PartialEq, Eq, Structural, Clone, Copy)]
pub enum ParameterType {
    String,
    Number,
    Boolean,
    FileExtension,
    DateFormat,
    Path,
    RegexPattern,
}

/// One parameter of a template.
pub struct TemplateParameter {
    pub name: String,
    pub param_type: ParameterType,
    pub description: String,
    pub default_value: Option<String>,
    pub required: bool,
    pub validation_regex: Option<String>,
}

/// The contents of a [`TemplateParameter`].
pub struct TemplateParameterView {
    pub name: Seq<char>,
    pub param_type: ParameterType,
    pub description: Seq<char>,
    pub default_value: Option<Seq<char>>,
    pub required: bool,
    pub validation_regex: Option<Seq<char>>,
}

impl View for TemplateParameter {
    type V = TemplateParameterView;

    open spec fn view(&self) -> TemplateParameterView {
        TemplateParameterView {
            name: self.name@,
            param_type: self.param_type,
            description: self.description@,
            default_value: opt_view(self.default_value),
            required: self.required,
            validation_regex: opt_view(self.validation_regex),
        }
    }
}

/// A rule template.
pub struct RuleTemplate {
    pub id: String,
    pub name: String,
    pub description: String,
    pub category: TemplateCategory,
    pub parameters: Vec<TemplateParameter>,
    pub rule_pattern: String,
    pub example_usage: String,
    pub tags: Vec<String>,
}

/// The contents of a [`RuleTemplate`].
pub struct RuleTemplateView {
    pub id: Seq<char>,
    pub name: Seq<char>,
    pub description: Seq<char>,
    pub category: TemplateCategory,
    pub parameters: Seq<TemplateParameterView>,
    pub rule_pattern: Seq<char>,
    pub example_usage: Seq<char>,
    pub tags: Seq<Seq<char>>,
}

impl View for RuleTemplate {
    type V = RuleTemplateView;

    open spec fn view(&self) -> RuleTemplateView {
        RuleTemplateView {
            id: self.id@,
            name: self.name@,
            description: self.description@,
            category: self.category,
            parameters: self.parameters@.map_values(|p: TemplateParameter| p@),
            rule_pattern: self.rule_pattern@,
            example_usage: self.example_usage@,
            tags: self.tags@.map_values(|t: String| t@),
        }
    }
}

/// The contents of an optional string slice.
pub open spec fn opt_str(o: Option<&str>) -> Option<Seq<char>> {
    match o {
        Some(s) => Some(s@),
        None => None,
    }
}

/// A parameter's contents.
pub open spec fn param_view(
    name: Seq<char>,
    param_type: ParameterType,
    description: Seq<char>,
    default_value: Option<Seq<char>>,
    required: bool,
    validation_regex: Option<Seq<char>>,
) -> TemplateParameterView {
    TemplateParameterView { name, param_type, description, default_value, required, validation_regex }
}

fn param(
    name: &str,
    param_type: ParameterType,
    description: &str,
    default_value: &str,
    required: bool,
    validation_regex: Option<&str>,
) -> (r: TemplateParameter)
    ensures
        r@ == param_view(name@, param_type, description@, Some(default_value@), required, opt_str(validation_regex)),
{
    TemplateParameter {
        name: to_owned(name),
        param_type,
        description: to_owned(description),
        default_value: Some(to_owned(default_value)),
        required,
        validation_regex: match validation_regex {
            Some(v) => Some(to_owned(v)),
            None => None,
        },
    }
}

fn strings3(a: &str, b: &str, c: &str) -> (r: Vec<String>)
    ensures
        r@.map_values(|t: String| t@) == seq![a@, b@, c@],
{
    let r = vec![to_owned(a), to_owned(b), to_owned(c)];
    assert(r@.map_values(|t: String| t@) =~= seq![a@, b@, c@]);
    r
}

/// The five predefined templates.
pub open spec fn predefined_templates() -> Seq<RuleTemplateView> {
    seq![
        RuleTemplateView {
            id: "file-type-organizer"@,
            name: "File Type Organizer"@,
            description: "Organizes files by their extension into categorized folders"@,
            category: TemplateCategory::FileType,
            parameters: seq![
                param_view("base_path"@, ParameterType::Path, "Base directory where organized folders will be created"@, Some("./Organized"@), true, None),
                param_view("file_extensions"@, ParameterType::String, "Comma-separated list of file extensions to organize"@, Some("jpg,png,pdf,docx,txt"@), true, Some("^[a-zA-Z0-9,]+$"@)),
            ],
            rule_pattern: "if extension in [{file_extensions}] then move to {base_path}/{extension_category}/"@,
            example_usage: "Organizes images to ./Organized/Images/, documents to ./Organized/Documents/"@,
            tags: seq!["organization"@, "file-type"@, "automatic"@],
        },
        RuleTemplateView {
            id: "date-based-archiver"@,
            name: "Date-Based File Archiver"@,
            description: "Archives files into folders based on their creation or modification date"@,
            category: TemplateCategory::DateBased,
            parameters: seq![
                param_view("date_format"@, ParameterType::DateFormat, "Date format for folder structure (e.g., YYYY/MM, YYYY-MM-DD)"@, Some("YYYY/MM"@), true, None),
                param_view("archive_path"@, ParameterType::Path, "Base path for date-organized archives"@, Some("./Archive"@), true, None),
                param_view("date_source"@, ParameterType::String, "Use 'created' or 'modified' date for organization"@, Some("modified"@), true, Some("^(created|modified)$"@)),
            ],
            rule_pattern: "if {date_source}_date then move to {archive_path}/{date_format}/"@,
            example_usage: "Files modified in Jan 2024 go to ./Archive/2024/01/"@,
            tags: seq!["archive"@, "date"@, "backup"@],
        },
        RuleTemplateView {
            id: "project-structure"@,
            name: "Project Structure Organizer"@,
            description: "Organizes files into a standard project structure based on file types and patterns"@,
            category: TemplateCategory::ProjectStructure,
            parameters: seq![
                param_view("project_name"@, ParameterType::String, "Name of the project for the base folder"@, Some("MyProject"@), true, Some("^[a-zA-Z0-9_-]+$"@)),
                param_view("include_assets"@, ParameterType::Boolean, "Create separate folders for assets (images, videos, etc.)"@, Some("true"@), false, None),
            ],
            rule_pattern: "if code_file then move to {project_name}/src/ else if asset_file and {include_assets} then move to {project_name}/assets/ else move to {project_name}/docs/"@,
            example_usage: "Code files → MyProject/src/, Images → MyProject/assets/, Others → MyProject/docs/"@,
            tags: seq!["project"@, "development"@, "structure"@],
        },
        RuleTemplateView {
            id: "size-based-sorter"@,
            name: "File Size Based Sorter"@,
            description: "Sorts files into folders based on their file size ranges"@,
            category: TemplateCategory::SizeBased,
            parameters: seq![
                param_view("small_threshold_mb"@, ParameterType::Number, "Maximum size in MB for small files"@, Some("1"@), true, Some("^\\d+$"@)),
                param_view("large_threshold_mb"@, ParameterType::Number, "Minimum size in MB for large files"@, Some("100"@), true, Some("^\\d+$"@)),
                param_view("sort_path"@, ParameterType::Path, "Base path for size-sorted folders"@, Some("./SortedBySize"@), true, None),
            ],
            rule_pattern: "if size < {small_threshold_mb}MB then move to {sort_path}/Small/ else if size > {large_threshold_mb}MB then move to {sort_path}/Large/ else move to {sort_path}/Medium/"@,
            example_usage: "Files <1MB → Small/, >100MB → Large/, others → Medium/"@,
            tags: seq!["size"@, "storage"@, "optimization"@],
        },
        RuleTemplateView {
            id: "content-classifier"@,
            name: "Content-Based Classifier"@,
            description: "Classifies files based on content patterns and keywords in filenames"@,
            category: TemplateCategory::ContentBased,
            parameters: seq![
                param_view("work_keywords"@, ParameterType::String, "Keywords that indicate work-related files"@, Some("work,business,project,meeting,report"@), true, None),
                param_view("personal_keywords"@, ParameterType::String, "Keywords that indicate personal files"@, Some("personal,family,vacation,photo,hobby"@), true, None),
                param_view("classifier_path"@, ParameterType::Path, "Base path for classified folders"@, Some("./Classified"@), true, None),
            ],
            rule_pattern: "if filename contains [{work_keywords}] then move to {classifier_path}/Work/ else if filename contains [{personal_keywords}] then move to {classifier_path}/Personal/ else move to {classifier_path}/Uncategorized/"@,
            example_usage: "meeting-notes.pdf → Work/, family-photo.jpg → Personal/"@,
            tags: seq!["content"@, "classification"@, "keywords"@],
        },
    ]
}

/// The predefined rule templates, in their fixed order.
pub fn get_predefined_templates() -> (r: Vec<RuleTemplate>)
    ensures
        r@.map_values(|t: RuleTemplate| t@) == predefined_templates(),
{
    let t1 = RuleTemplate {
        id: to_owned("file-type-organizer"),
        name: to_owned("File Type Organizer"),
        description: to_owned("Organizes files by their extension into categorized folders"),
        category: TemplateCategory::FileType,
        parameters: vec![
            param("base_path", ParameterType::Path, "Base directory where organized folders will be created", "./Organized", true, None),
            param("file_extensions", ParameterType::String, "Comma-separated list of file extensions to organize", "jpg,png,pdf,docx,txt", true, Some("^[a-zA-Z0-9,]+$")),
        ],
        rule_pattern: to_owned("if extension in [{file_extensions}] then move to {base_path}/{extension_category}/"),
        example_usage: to_owned("Organizes images to ./Organized/Images/, documents to ./Organized/Documents/"),
        tags: strings3("organization", "file-type", "automatic"),
    };
    let t2 = RuleTemplate {
        id: to_owned("date-based-archiver"),
        name: to_owned("Date-Based File Archiver"),
        description: to_owned("Archives files into folders based on their creation or modification date"),
        category: TemplateCategory::DateBased,
        parameters: vec![
            param("date_format", ParameterType::DateFormat, "Date format for folder structure (e.g., YYYY/MM, YYYY-MM-DD)", "YYYY/MM", true, None),
            param("archive_path", ParameterType::Path, "Base path for date-organized archives", "./Archive", true, None),
            param("date_source", ParameterType::String, "Use 'created' or 'modified' date for organization", "modified", true, Some("^(created|modified)$")),
        ],
        rule_pattern: to_owned("if {date_source}_date then move to {archive_path}/{date_format}/"),
        example_usage: to_owned("Files modified in Jan 2024 go to ./Archive/2024/01/"),
        tags: strings3("archive", "date", "backup"),
    };
    let t3 = RuleTemplate {
        id: to_owned("project-structure"),
        name: to_owned("Project Structure Organizer"),
        description: to_owned("Organizes files into a standard project structure based on file types and patterns"),
        category: TemplateCategory::ProjectStructure,
        parameters: vec![
            param("project_name", ParameterType::String, "Name of the project for the base folder", "MyProject", true, Some("^[a-zA-Z0-9_-]+$")),
            param("include_assets", ParameterType::Boolean, "Create separate folders for assets (images, videos, etc.)", "true", false, None),
        ],
        rule_pattern: to_owned("if code_file then move to {project_name}/src/ else if asset_file and {include_assets} then move to {project_name}/assets/ else move to {project_name}/docs/"),
        example_usage: to_owned("Code files → MyProject/src/, Images → MyProject/assets/, Others → MyProject/docs/"),
        tags: strings3("project", "development", "structure"),
    };
    let t4 = RuleTemplate {
        id: to_owned("size-based-sorter"),
        name: to_owned("File Size Based Sorter"),
        description: to_owned("Sorts files into folders based on their file size ranges"),
        category: TemplateCategory::SizeBased,
        parameters: vec![
            param("small_threshold_mb", ParameterType::Number, "Maximum size in MB for small files", "1", true, Some("^\\d+$")),
            param("large_threshold_mb", ParameterType::Number, "Minimum size in MB for large files", "100", true, Some("^\\d+$")),
            param("sort_path", ParameterType::Path, "Base path for size-sorted folders", "./SortedBySize", true, None),
        ],
        rule_pattern: to_owned("if size < {small_threshold_mb}MB then move to {sort_path}/Small/ else if size > {large_threshold_mb}MB then move to {sort_path}/Large/ else move to {sort_path}/Medium/"),
        example_usage: to_owned("Files <1MB → Small/, >100MB → Large/, others → Medium/"),
        tags: strings3("size", "storage", "optimization"),
    };
    let t5 = RuleTemplate {
        id: to_owned("content-classifier"),
        name: to_owned("Content-Based Classifier"),
        description: to_owned("Classifies files based on content patterns and keywords in filenames"),
        category: TemplateCategory::ContentBased,
        parameters: vec![
            param("work_keywords", ParameterType::String, "Keywords that indicate work-related files", "work,business,project,meeting,report", true, None),
            param("personal_keywords", ParameterType::String, "Keywords that indicate personal files", "personal,family,vacation,photo,hobby", true, None),
            param("classifier_path", ParameterType::Path, "Base path for classified folders", "./Classified", true, None),
        ],
        rule_pattern: to_owned("if filename contains [{work_keywords}] then move to {classifier_path}/Work/ else if filename contains [{personal_keywords}] then move to {classifier_path}/Personal/ else move to {classifier_path}/Uncategorized/"),
        example_usage: to_owned("meeting-notes.pdf → Work/, family-photo.jpg → Personal/"),
        tags: strings3("content", "classification", "keywords"),
    };
    assert(t1.parameters@.map_values(|p: TemplateParameter| p@) =~= predefined_templates()[0].parameters);
    assert(t2.parameters@.map_values(|p: TemplateParameter| p@) =~= predefined_templates()[1].parameters);
    assert(t3.parameters@.map_values(|p: TemplateParameter| p@) =~= predefined_templates()[2].parameters);
    assert(t4.parameters@.map_values(|p: TemplateParameter| p@) =~= predefined_templates()[3].parameters);
    assert(t5.parameters@.map_values(|p: TemplateParameter| p@) =~= predefined_templates()[4].parameters);
    let r = vec![t1, t2, t3, t4, t5];
    assert(r@.map_values(|t: RuleTemplate| t@) =~= predefined_templates());
    r
}

/// The value of the first of `params` named `key`.
pub open spec fn param_lookup(params: Seq<(String, String)>, key: Seq<char>) -> Option<Seq<char>>
    decreases params.len(),
{
    if params.len() == 0 {
        None
    } else if params[0].0@ == key {
        Some(params[0].1@)
    } else {
        param_lookup(params.drop_first(), key)
    }
}

/// The value of the first of `params` named `key`.
pub fn lookup_param<'a>(params: &'a [(String, String)], key: &str) -> (r: Option<&'a String>)
    ensures
        r is Some == param_lookup(params@, key@) is Some,
        r matches Some(v) ==> param_lookup(params@, key@) == Some(v@),
{
    let mut i: usize = 0;
    assert(params@.skip(0) =~= params@);
    while i < params.len()
        invariant
            i <= params@.len(),
            param_lookup(params@, key@) == param_lookup(params@.skip(i as int), key@),
        decreases params@.len() - i,
    {
        assert(params@.skip(i as int).drop_first() =~= params@.skip(i + 1));
        assert(params@.skip(i as int)[0] == params@[i as int]);
        if str_eq(params[i].0.as_str(), key) {
            return Some(&params[i].1);
        }
        i = i + 1;
    }
    None
}

/// A plain JSON value, as a template puts it into a condition.
pub enum PlainValue {
    Text(Seq<char>),
    Flag(bool),
}

/// `v` is the plain value `p`.
pub open spec fn value_is(v: JsonValue, p: PlainValue) -> bool {
    match p {
        PlainValue::Text(s) => json_str(v) == Some(s),
        PlainValue::Flag(b) => v == JsonValue::Bool(b),
    }
}

/// The conditions (kind and value) that a template of `category` generates
/// from `params`:
/// - file type: one `extension` condition per comma-separated entry of
///   `file_extensions` (trimmed), none without that parameter;
/// - date based: `hasDate` true;
/// - size based: `sizeRange` `0-<small_threshold_mb>MB`, none without it;
/// - content based: `nameMatches` `.*(<work_keywords with , as |>).*`, none
///   without it;
/// - otherwise `always` true.
pub open spec fn template_conditions(category: TemplateCategory, params: Seq<(String, String)>) -> Seq<(Seq<char>, PlainValue)> {
    match category {
        TemplateCategory::FileType => match param_lookup(params, "file_extensions"@) {
            Some(e) => split_on(e, ',').map_values(|p: Seq<char>| ("extension"@, PlainValue::Text(trimmed(p)))),
            None => Seq::empty(),
        },
        TemplateCategory::DateBased => seq![("hasDate"@, PlainValue::Flag(true))],
        TemplateCategory::SizeBased => match param_lookup(params, "small_threshold_mb"@) {
            Some(t) => seq![("sizeRange"@, PlainValue::Text("0-"@ + t + "MB"@))],
            None => Seq::empty(),
        },
        TemplateCategory::ContentBased => match param_lookup(params, "work_keywords"@) {
            Some(k) => seq![("nameMatches"@, PlainValue::Text(".*("@ + replace_all(k, ","@, "|"@) + ").*"@))],
            None => Seq::empty(),
        },
        _ => seq![("always"@, PlainValue::Flag(true))],
    }
}

/// `conds` are exactly the conditions described by `expected`.
pub open spec fn conditions_are(conds: Seq<Condition>, expected: Seq<(Seq<char>, PlainValue)>) -> bool {
    conds.len() == expected.len() && forall|i: int|
        0 <= i < conds.len() ==> #[trigger] conds[i].kind@ == expected[i].0 && value_is(conds[i].value, expected[i].1)
}

/// The move target that a template of `category` generates from `params`:
/// - file type: `<base_path>/{extension}/`;
/// - date based: `<archive_path>/<date_format, default YYYY/MM>/`;
/// - project structure: `<project_name>/src/`;
/// - size based: `<sort_path>/{size_category}/`;
/// - content based: `<classifier_path>/{content_category}/`;
/// - custom: `./Organized/`;
/// and none when the parameter that the target is built on is missing.
pub open spec fn template_target(category: TemplateCategory, params: Seq<(String, String)>) -> Option<Seq<char>> {
    match category {
        TemplateCategory::FileType => match param_lookup(params, "base_path"@) {
            Some(b) => Some(b + "/{extension}/"@),
            None => None,
        },
        TemplateCategory::DateBased => match param_lookup(params, "archive_path"@) {
            Some(a) => {
                let f = match param_lookup(params, "date_format"@) {
                    Some(f) => f,
                    None => "YYYY/MM"@,
                };
                Some(a + "/"@ + f + "/"@)
            },
            None => None,
        },
        TemplateCategory::ProjectStructure => match param_lookup(params, "project_name"@) {
            Some(p) => Some(p + "/src/"@),
            None => None,
        },
        TemplateCategory::SizeBased => match param_lookup(params, "sort_path"@) {
            Some(p) => Some(p + "/{size_category}/"@),
            None => None,
        },
        TemplateCategory::ContentBased => match param_lookup(params, "classifier_path"@) {
            Some(p) => Some(p + "/{content_category}/"@),
            None => None,
        },
        TemplateCategory::Custom => Some("./Organized/"@),
    }
}

/// `params` is the object `{ "target": target }`.
pub open spec fn target_object(params: JsonValue, target: Seq<char>) -> bool {
    match params {
        JsonValue::Object(es) => es@.len() == 1 && es@[0].0@ == "target"@ && json_str(es@[0].1) == Some(target),
        _ => false,
    }
}

/// `acts` are the actions for `target`: one `move` to it, or none.
pub open spec fn actions_are(acts: Seq<Action>, target: Option<Seq<char>>) -> bool {
    match target {
        Some(t) => acts.len() == 1 && acts[0].kind@ == "move"@ && target_object(acts[0].params, t),
        None => acts.len() == 0,
    }
}

fn text_value(s: String) -> (r: JsonValue)
    ensures
        json_str(r) == Some(s@),
{
    JsonValue::String(s)
}

fn cond(kind: &str, value: JsonValue) -> (r: Condition)
    ensures
        r.kind@ == kind@,
        r.value == value,
{
    Condition { kind: to_owned(kind), value }
}

/// `a` followed by `b`.
fn concat(a: &str, b: &str) -> (r: String)
    ensures
        r@ == a@ + b@,
{
    let mut s = to_owned(a);
    push_str(&mut s, b);
    s
}

/// The conditions that `template` generates from `params`; this never fails.
pub fn generate_conditions_from_template(template: &RuleTemplate, params: &[(String, String)]) -> (r: Result<Vec<Condition>, String>)
    ensures
        r matches Ok(conds) && conditions_are(conds@, template_conditions(template.category, params@)),
{
    Ok(conditions_for(template.category, params))
}

fn conditions_for(category: TemplateCategory, params: &[(String, String)]) -> (r: Vec<Condition>)
    ensures
        conditions_are(r@, template_conditions(category, params@)),
{
    let mut conditions: Vec<Condition> = Vec::new();
    match category {
        TemplateCategory::FileType => {
            match lookup_param(params, "file_extensions") {
                Some(exts) => {
                    let pieces = split(exts.as_str(), ',');
                    let ghost ps = pieces@.map_values(|p: String| p@);
                    let mut i: usize = 0;
                    while i < pieces.len()
                        invariant
                            i <= pieces@.len(),
                            ps == pieces@.map_values(|p: String| p@),
                            conditions_are(conditions@, ps.take(i as int).map_values(|p: Seq<char>| ("extension"@, PlainValue::Text(trimmed(p))))),
                        decreases pieces@.len() - i,
                    {
                        let t = trim(pieces[i].as_str());
                        conditions.push(cond("extension", text_value(t)));
                        assert(ps.take(i + 1).map_values(|p: Seq<char>| ("extension"@, PlainValue::Text(trimmed(p))))
                            =~= ps.take(i as int).map_values(|p: Seq<char>| ("extension"@, PlainValue::Text(trimmed(p)))).push(("extension"@, PlainValue::Text(trimmed(ps[i as int])))));
                        i = i + 1;
                    }
                    assert(ps.take(ps.len() as int) =~= ps);
                },
                None => {},
            }
        },
        TemplateCategory::DateBased => {
            conditions.push(cond("hasDate", JsonValue::Bool(true)));
        },
        TemplateCategory::SizeBased => {
            match lookup_param(params, "small_threshold_mb") {
                Some(t) => {
                    let mut s = to_owned("0-");
                    push_str(&mut s, t.as_str());
                    push_str(&mut s, "MB");
                    conditions.push(cond("sizeRange", text_value(s)));
                },
                None => {},
            }
        },
        TemplateCategory::ContentBased => {
            match lookup_param(params, "work_keywords") {
                Some(k) => {
                    proof {
                        reveal_strlit(",");
                    }
                    let alternatives = replace(k.as_str(), ",", "|");
                    let mut s = to_owned(".*(");
                    push_str(&mut s, alternatives.as_str());
                    push_str(&mut s, ").*");
                    conditions.push(cond("nameMatches", text_value(s)));
                },
                None => {},
            }
        },
        _ => {
            conditions.push(cond("always", JsonValue::Bool(true)));
        },
    }
    conditions
}

fn move_action(target: String) -> (r: Action)
    ensures
        r.kind@ == "move"@,
        target_object(r.params, target@),
{
    let entries = vec![(to_owned("target"), JsonValue::String(target))];
    Action { kind: to_owned("move"), params: JsonValue::Object(entries) }
}

/// The actions that `template` generates from `params`; this never fails.
pub fn generate_actions_from_template(template: &RuleTemplate, params: &[(String, String)]) -> (r: Result<Vec<Action>, String>)
    ensures
        r matches Ok(acts) && actions_are(acts@, template_target(template.category, params@)),
{
    Ok(actions_for(template.category, params))
}

fn actions_for(category: TemplateCategory, params: &[(String, String)]) -> (r: Vec<Action>)
    ensures
        actions_are(r@, template_target(category, params@)),
{
    let mut actions: Vec<Action> = Vec::new();
    match category {
        TemplateCategory::FileType => {
            match lookup_param(params, "base_path") {
                Some(b) => actions.push(move_action(concat(b.as_str(), "/{extension}/"))),
                None => {},
            }
        },
        TemplateCategory::DateBased => {
            match lookup_param(params, "archive_path") {
                Some(a) => {
                    let f: &str = match lookup_param(params, "date_format") {
                        Some(f) => f.as_str(),
                        None => "YYYY/MM",
                    };
                    let mut s = concat(a.as_str(), "/");
                    push_str(&mut s, f);
                    push_str(&mut s, "/");
                    actions.push(move_action(s));
                },
                None => {},
            }
        },
        TemplateCategory::ProjectStructure => {
            match lookup_param(params, "project_name") {
                Some(p) => actions.push(move_action(concat(p.as_str(), "/src/"))),
                None => {},
            }
        },
        TemplateCategory::SizeBased => {
            match lookup_param(params, "sort_path") {
                Some(p) => actions.push(move_action(concat(p.as_str(), "/{size_category}/"))),
                None => {},
            }
        },
        TemplateCategory::ContentBased => {
            match lookup_param(params, "classifier_path") {
                Some(p) => actions.push(move_action(concat(p.as_str(), "/{content_category}/"))),
                None => {},
            }
        },
        TemplateCategory::Custom => {
            actions.push(move_action(to_owned("./Organized/")));
        },
    }
    actions
}

/// A request to build a rule from a template.
pub struct TemplateRequest {
    pub template_id: String,
    pub parameters: Vec<(String, String)>,
    pub custom_name: Option<String>,
}

/// Why a template request was refused.
pub enum TemplateError {
    /// No template has the requested id.
    NotFound { template_id: String },
    /// A required parameter was not given.
    MissingParameter { name: String },
    /// A parameter's validation pattern does not compile.
    InvalidValidationRegex { name: String, error: String },
    /// A parameter's value does not match its validation pattern.
    ValueMismatch { name: String, value: String },
}

impl TemplateError {
    /// The error's message.
    pub fn message(&self) -> (r: String)
        ensures
            r@ == match self {
                TemplateError::NotFound { template_id } => "Template '"@ + template_id@ + "' not found"@,
                TemplateError::MissingParameter { name } => "Required parameter '"@ + name@ + "' not provided"@,
                TemplateError::InvalidValidationRegex { name, error } => "Invalid validation regex for parameter '"@
                    + name@ + "': "@ + error@,
                TemplateError::ValueMismatch { name, value } => "Parameter '"@ + name@ + "' value '"@ + value@
                    + "' doesn't match required pattern"@,
            },
    {
        match self {
            TemplateError::NotFound { template_id } => {
                let mut s = concat("Template '", template_id.as_str());
                push_str(&mut s, "' not found");
                s
            },
            TemplateError::MissingParameter { name } => {
                let mut s = concat("Required parameter '", name.as_str());
                push_str(&mut s, "' not provided");
                s
            },
            TemplateError::InvalidValidationRegex { name, error } => {
                let mut s = concat("Invalid validation regex for parameter '", name.as_str());
                push_str(&mut s, "': ");
                push_str(&mut s, error.as_str());
                s
            },
            TemplateError::ValueMismatch { name, value } => {
                let mut s = concat("Parameter '", name.as_str());
                push_str(&mut s, "' value '");
                push_str(&mut s, value.as_str());
                push_str(&mut s, "' doesn't match required pattern");
                s
            },
        }
    }
}

/// The first template of `ts` whose id is `id`.
pub open spec fn find_template(ts: Seq<RuleTemplateView>, id: Seq<char>) -> Option<RuleTemplateView>
    decreases ts.len(),
{
    if ts.len() == 0 {
        None
    } else if ts[0].id == id {
        Some(ts[0])
    } else {
        find_template(ts.drop_first(), id)
    }
}

/// The first required parameter of `defs` that `given` lacks.
pub open spec fn first_missing(defs: Seq<TemplateParameterView>, given: Seq<(String, String)>) -> Option<Seq<char>>
    decreases defs.len(),
{
    if defs.len() == 0 {
        None
    } else if defs[0].required && param_lookup(given, defs[0].name) is None {
        Some(defs[0].name)
    } else {
        first_missing(defs.drop_first(), given)
    }
}

/// The first parameter of `defs` named `name`.
pub open spec fn param_def(defs: Seq<TemplateParameterView>, name: Seq<char>) -> Option<TemplateParameterView>
    decreases defs.len(),
{
    if defs.len() == 0 {
        None
    } else if defs[0].name == name {
        Some(defs[0])
    } else {
        param_def(defs.drop_first(), name)
    }
}

/// A given parameter value that its definition rejects.
pub enum ValueProblem {
    BadRegex(Seq<char>, Seq<char>),
    Mismatch(Seq<char>, Seq<char>),
}

/// The first of the `given` values, in order, whose definition in `defs` has
/// a validation pattern that does not compile or does not match the value.
pub open spec fn first_bad_value(defs: Seq<TemplateParameterView>, given: Seq<(String, String)>) -> Option<ValueProblem>
    decreases given.len(),
{
    if given.len() == 0 {
        None
    } else {
        let n = given[0].0@;
        let v = given[0].1@;
        let rest = first_bad_value(defs, given.drop_first());
        match param_def(defs, n) {
            Some(d) => match d.validation_regex {
                Some(re) => match regex_compile_error(re) {
                    Some(e) => Some(ValueProblem::BadRegex(n, e)),
                    None => if !regex_finds(re, v) {
                        Some(ValueProblem::Mismatch(n, v))
                    } else {
                        rest
                    },
                },
                None => rest,
            },
            None => rest,
        }
    }
}

/// The name a generated rule gets: the requested one, or the template's name,
/// `" - "` and the timestamp.
pub open spec fn generated_rule_name(custom: Option<Seq<char>>, template_name: Seq<char>, timestamp: Seq<char>) -> Seq<char> {
    match custom {
        Some(n) => n,
        None => template_name + " - "@ + timestamp,
    }
}

/// `rule` is the rule that template `t` generates from `params`, with the
/// given id and name: enabled, not always applying, version 1, no options.
pub open spec fn generated_rule(rule: Rule, t: RuleTemplateView, params: Seq<(String, String)>, id: u128, name: Seq<char>) -> bool {
    &&& rule.id == id
    &&& rule.name@ == name
    &&& rule.enabled
    &&& !rule.always_apply
    &&& rule.version == 1
    &&& rule.options == JsonValue::Null
    &&& conditions_are(rule.conditions@, template_conditions(t.category, params))
    &&& actions_are(rule.actions@, template_target(t.category, params))
}

/// The outcome of a template request, checked in this order: the template
/// must exist, its required parameters must be given, and each given value
/// must pass its parameter's validation pattern.
pub open spec fn template_request_ok(
    r: Result<Rule, TemplateError>,
    template_id: Seq<char>,
    params: Seq<(String, String)>,
    custom: Option<Seq<char>>,
    timestamp: Seq<char>,
    id: u128,
) -> bool {
    match find_template(predefined_templates(), template_id) {
        None => r matches Err(TemplateError::NotFound { template_id: t }) && t@ == template_id,
        Some(t) => match first_missing(t.parameters, params) {
            Some(n) => r matches Err(TemplateError::MissingParameter { name }) && name@ == n,
            None => match first_bad_value(t.parameters, params) {
                Some(ValueProblem::BadRegex(n, e)) => r matches Err(TemplateError::InvalidValidationRegex { name, error })
                    && name@ == n && error@ == e,
                Some(ValueProblem::Mismatch(n, v)) => r matches Err(TemplateError::ValueMismatch { name, value })
                    && name@ == n && value@ == v,
                None => r matches Ok(rule) && generated_rule(rule, t, params, id, generated_rule_name(custom, t.name, timestamp)),
            },
        },
    }
}

/// The template of `templates` with id `id`.
fn find_template_in<'a>(templates: &'a Vec<RuleTemplate>, id: &str) -> (r: Option<&'a RuleTemplate>)
    ensures
        r is Some == find_template(templates@.map_values(|t: RuleTemplate| t@), id@) is Some,
        r matches Some(t) ==> find_template(templates@.map_values(|t: RuleTemplate| t@), id@) == Some(t@),
{
    let ghost vs = templates@.map_values(|t: RuleTemplate| t@);
    let mut i: usize = 0;
    assert(vs.skip(0) =~= vs);
    while i < templates.len()
        invariant
            i <= templates@.len(),
            vs == templates@.map_values(|t: RuleTemplate| t@),
            find_template(vs, id@) == find_template(vs.skip(i as int), id@),
        decreases templates@.len() - i,
    {
        assert(vs.skip(i as int).drop_first() =~= vs.skip(i + 1));
        assert(vs.skip(i as int)[0] == templates@[i as int]@);
        if str_eq(templates[i].id.as_str(), id) {
            return Some(&templates[i]);
        }
        i = i + 1;
    }
    None
}

/// The first required parameter of `defs` that `given` lacks.
fn find_missing(defs: &Vec<TemplateParameter>, given: &[(String, String)]) -> (r: Option<String>)
    ensures
        opt_view(r) == first_missing(defs@.map_values(|p: TemplateParameter| p@), given@),
{
    let ghost vs = defs@.map_values(|p: TemplateParameter| p@);
    let mut i: usize = 0;
    assert(vs.skip(0) =~= vs);
    while i < defs.len()
        invariant
            i <= defs@.len(),
            vs == defs@.map_values(|p: TemplateParameter| p@),
            first_missing(vs, given@) == first_missing(vs.skip(i as int), given@),
        decreases defs@.len() - i,
    {
        assert(vs.skip(i as int).drop_first() =~= vs.skip(i + 1));
        assert(vs.skip(i as int)[0] == defs@[i as int]@);
        if defs[i].required && lookup_param(given, defs[i].name.as_str()).is_none() {
            return Some(defs[i].name.clone());
        }
        i = i + 1;
    }
    None
}

/// The first parameter of `defs` named `name`.
fn find_def<'a>(defs: &'a Vec<TemplateParameter>, name: &str) -> (r: Option<&'a TemplateParameter>)
    ensures
        r is Some == param_def(defs@.map_values(|p: TemplateParameter| p@), name@) is Some,
        r matches Some(d) ==> param_def(defs@.map_values(|p: TemplateParameter| p@), name@) == Some(d@),
{
    let ghost vs = defs@.map_values(|p: TemplateParameter| p@);
    let mut i: usize = 0;
    assert(vs.skip(0) =~= vs);
    while i < defs.len()
        invariant
            i <= defs@.len(),
            vs == defs@.map_values(|p: TemplateParameter| p@),
            param_def(vs, name@) == param_def(vs.skip(i as int), name@),
        decreases defs@.len() - i,
    {
        assert(vs.skip(i as int).drop_first() =~= vs.skip(i + 1));
        assert(vs.skip(i as int)[0] == defs@[i as int]@);
        if str_eq(defs[i].name.as_str(), name) {
            return Some(&defs[i]);
        }
        i = i + 1;
    }
    None
}

/// The first given value that its definition rejects.
fn find_bad_value(defs: &Vec<TemplateParameter>, given: &[(String, String)]) -> (r: Option<TemplateError>)
    ensures
        match first_bad_value(defs@.map_values(|p: TemplateParameter| p@), given@) {
            None => r is None,
            Some(ValueProblem::BadRegex(n, e)) => r matches Some(TemplateError::InvalidValidationRegex { name, error })
                && name@ == n && error@ == e,
            Some(ValueProblem::Mismatch(n, v)) => r matches Some(TemplateError::ValueMismatch { name, value })
                && name@ == n && value@ == v,
        },
{
    let ghost vs = defs@.map_values(|p: TemplateParameter| p@);
    let mut i: usize = 0;
    assert(given@.skip(0) =~= given@);
    while i < given.len()
        invariant
            i <= given@.len(),
            vs == defs@.map_values(|p: TemplateParameter| p@),
            first_bad_value(vs, given@) == first_bad_value(vs, given@.skip(i as int)),
        decreases given@.len() - i,
    {
        assert(given@.skip(i as int).drop_first() =~= given@.skip(i + 1));
        assert(given@.skip(i as int)[0] == given@[i as int]);
        let name = &given[i].0;
        let value = &given[i].1;
        match find_def(defs, name.as_str()) {
            Some(d) => match &d.validation_regex {
                Some(re) => {
                    match regex_error(re.as_str()) {
                        Some(e) => {
                            return Some(TemplateError::InvalidValidationRegex { name: name.clone(), error: e });
                        },
                        None => {
                            match regex_match(re.as_str(), value.as_str()) {
                                Some(ok) => {
                                    if !ok {
                                        return Some(TemplateError::ValueMismatch { name: name.clone(), value: value.clone() });
                                    }
                                },
                                None => {},
                            }
                        },
                    }
                },
                None => {},
            },
            None => {},
        }
        i = i + 1;
    }
    None
}

/// Builds the rule that a template request asks for, with the given id; a
/// rule without a requested name is named after the template and `timestamp`.
pub fn rule_from_template(request: &TemplateRequest, timestamp: &str, id: u128) -> (r: Result<Rule, TemplateError>)
    ensures
        template_request_ok(r, request.template_id@, request.parameters@, opt_view(request.custom_name), timestamp@, id),
{
    let templates = get_predefined_templates();
    let template = match find_template_in(&templates, request.template_id.as_str()) {
        Some(t) => t,
        None => {
            return Err(TemplateError::NotFound { template_id: request.template_id.clone() });
        },
    };
    match find_missing(&template.parameters, request.parameters.as_slice()) {
        Some(n) => {
            return Err(TemplateError::MissingParameter { name: n });
        },
        None => {},
    }
    match find_bad_value(&template.parameters, request.parameters.as_slice()) {
        Some(e) => {
            return Err(e);
        },
        None => {},
    }
    let name = match &request.custom_name {
        Some(n) => n.clone(),
        None => {
            let mut s = concat(template.name.as_str(), " - ");
            push_str(&mut s, timestamp);
            s
        },
    };
    let conditions = conditions_for(template.category, request.parameters.as_slice());
    let actions = actions_for(template.category, request.parameters.as_slice());
    Ok(Rule {
        id,
        name,
        enabled: true,
        always_apply: false,
        conditions,
        actions,
        version: 1,
        options: JsonValue::Null,
    })
}

/// The parameter `first_missing` reports is a required one that is not
/// given, and nothing is reported when every required parameter is given.
proof fn lemma_first_missing(defs: Seq<TemplateParameterView>, given: Seq<(String, String)>)
    ensures
        first_missing(defs, given) matches Some(n) ==> exists|i: int|
            0 <= i < defs.len() && #[trigger] defs[i].name == n && defs[i].required && param_lookup(given, n) is None,
        (forall|i: int| 0 <= i < defs.len() && #[trigger] defs[i].required ==> param_lookup(given, defs[i].name) is Some)
            ==> first_missing(defs, given) is None,
    decreases defs.len(),
{
    if defs.len() > 0 {
        lemma_first_missing(defs.drop_first(), given);
        if first_missing(defs, given) is Some {
            let n = first_missing(defs, given)->Some_0;
            if !(defs[0].required && param_lookup(given, defs[0].name) is None) {
                let j = choose|j: int|
                    0 <= j < defs.drop_first().len() && #[trigger] defs.drop_first()[j].name == n
                        && defs.drop_first()[j].required && param_lookup(given, n) is None;
                assert(defs[j + 1] == defs.drop_first()[j]);
            } else {
                assert(defs[0].name == n);
            }
        }
        if forall|i: int| 0 <= i < defs.len() && #[trigger] defs[i].required ==> param_lookup(given, defs[i].name) is Some {
            assert forall|i: int| 0 <= i < defs.drop_first().len() && #[trigger] defs.drop_first()[i].required
                implies param_lookup(given, defs.drop_first()[i].name) is Some by {
                assert(defs.drop_first()[i] == defs[i + 1]);
            }
            assert(defs[0].required ==> param_lookup(given, defs[0].name) is Some);
        }
    }
}

/// Only a required parameter is reported missing: when a template request is
/// refused for a missing parameter, the requested template has a parameter of
/// that name which is marked required and which the request does not give.
pub proof fn law_only_required_parameters_are_reported_missing(
    r: Result<Rule, TemplateError>,
    template_id: Seq<char>,
    params: Seq<(String, String)>,
    custom: Option<Seq<char>>,
    timestamp: Seq<char>,
    id: u128,
)
    requires
        template_request_ok(r, template_id, params, custom, timestamp, id),
        r matches Err(TemplateError::MissingParameter { .. }),
    ensures
        exists|t: RuleTemplateView, i: int|
            find_template(predefined_templates(), template_id) == Some(t) && 0 <= i < t.parameters.len()
                && #[trigger] t.parameters[i].required && t.parameters[i].name == r->Err_0->MissingParameter_name@
                && param_lookup(params, t.parameters[i].name) is None,
{
    let t = find_template(predefined_templates(), template_id)->Some_0;
    lemma_first_missing(t.parameters, params);
    let i = choose|i: int|
        0 <= i < t.parameters.len() && #[trigger] t.parameters[i].name == r->Err_0->MissingParameter_name@
            && t.parameters[i].required && param_lookup(params, r->Err_0->MissingParameter_name@) is None;
    assert(t.parameters[i].required);
}

/// A template request that gives every parameter the template marks required
/// is never refused for a missing parameter, whatever it leaves out of the
/// optional ones.
pub proof fn law_request_with_required_parameters_is_not_missing_any(
    r: Result<Rule, TemplateError>,
    template_id: Seq<char>,
    params: Seq<(String, String)>,
    custom: Option<Seq<char>>,
    timestamp: Seq<char>,
    id: u128,
    t: RuleTemplateView,
)
    requires
        template_request_ok(r, template_id, params, custom, timestamp, id),
        find_template(predefined_templates(), template_id) == Some(t),
        forall|i: int| 0 <= i < t.parameters.len() && #[trigger] t.parameters[i].required
            ==> param_lookup(params, t.parameters[i].name) is Some,
    ensures
        !(r matches Err(TemplateError::MissingParameter { .. })),
{
    lemma_first_missing(t.parameters, params);
}

} // verus!
