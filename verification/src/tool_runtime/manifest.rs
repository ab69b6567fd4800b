//! The compact list of tools: their categories and risks, without their schemas.
use crate::json::{
    array, boolean, empty_object, field, find_field, law_put_get, no_fields, no_trees, number,
    opt_text_json, opt_text_tree, text, text_array, text_trees, trees, unsigned, ArrayBuilder,
    Json, ObjectBuilder, Tree,
};
use crate::order::{insert_sorted, lemma_text_placed, sorted_texts, with_text_placed};
use crate::text::{opt_clone, opt_str, opt_text, str_eq, texts};
use crate::tool_runtime::calls::{name_of, ToolKind};
use crate::tool_runtime::handoff::{string_array, texts_in};
use crate::tool_runtime::types::{tool_ok, ToolResult};
use vstd::prelude::*;

verus! {

/// The category of a tool.
pub open spec fn category_of(name: Seq<char>) -> Seq<char> {
    if name == "list_tools"@
        || name == "tool_manifest"@
        || name == "runtime_status"@
        || name == "list_agents"@ {
        "runtime"@
    } else if name == "start_session"@
        || name == "session_summary"@
        || name == "post_session_message"@
        || name == "list_session_messages"@
        || name == "resolve_session_message"@
        || name == "session_discussion_summary"@
        || name == "session_handoff_summary"@
        || name == "bind_current_session"@
        || name == "current_session"@
        || name == "unbind_current_session"@ {
        "session"@
    } else if name == "workspace_checkpoint_create"@
        || name == "workspace_checkpoint_list"@
        || name == "workspace_checkpoint_show"@
        || name == "workspace_checkpoint_restore"@
        || name == "workspace_checkpoint_delete"@ {
        "checkpoint"@
    } else if name == "git_status"@
        || name == "git_diff"@
        || name == "git_diff_hunks"@
        || name == "git_log"@
        || name == "git_diff_summary"@
        || name == "show_changes"@ {
        "git"@
    } else if name == "replace_in_file"@
        || name == "replace_exact_block"@
        || name == "insert_before_pattern"@
        || name == "insert_after_pattern"@
        || name == "write_project_file"@
        || name == "replace_line_range"@
        || name == "insert_at_line"@
        || name == "delete_line_range"@
        || name == "apply_text_edits"@ {
        "edit"@
    } else if name == "read_file"@
        || name == "list_project_files"@
        || name == "search_project_text"@ {
        "file"@
    } else if name == "apply_patch"@
        || name == "apply_patch_checked"@
        || name == "validate_patch"@ {
        "patch"@
    } else if name == "cargo_fmt"@
        || name == "cargo_check"@
        || name == "cargo_test"@ {
        "validation"@
    } else if name == "run_shell"@
        || name == "run_job"@
        || name == "job_status"@
        || name == "job_log"@
        || name == "list_jobs"@
        || name == "job_tail"@ {
        "job"@
    } else if name == "list_projects"@
        || name == "register_project"@
        || name == "create_project"@ {
        "project"@
    } else if name == "save_project_artifact"@
        || name == "read_project_artifact_metadata"@
        || name == "read_project_artifact"@ {
        "artifact"@
    } else if name == "delete_project_files"@
        || name == "git_restore_paths"@
        || name == "discard_untracked"@
        || name == "workspace_hygiene_check"@ {
        "cleanup"@
    } else if name == "run_codex"@ {
        "codex"@
    } else {
        "other"@
    }
}

/// The category of a tool.
pub fn tool_manifest_category(name: &str) -> (r: &'static str)
    ensures
        r@ == category_of(name@),
{
    if str_eq(name, "list_tools")
        || str_eq(name, "tool_manifest")
        || str_eq(name, "runtime_status")
        || str_eq(name, "list_agents") {
        "runtime"
    } else if str_eq(name, "start_session")
        || str_eq(name, "session_summary")
        || str_eq(name, "post_session_message")
        || str_eq(name, "list_session_messages")
        || str_eq(name, "resolve_session_message")
        || str_eq(name, "session_discussion_summary")
        || str_eq(name, "session_handoff_summary")
        || str_eq(name, "bind_current_session")
        || str_eq(name, "current_session")
        || str_eq(name, "unbind_current_session") {
        "session"
    } else if str_eq(name, "workspace_checkpoint_create")
        || str_eq(name, "workspace_checkpoint_list")
        || str_eq(name, "workspace_checkpoint_show")
        || str_eq(name, "workspace_checkpoint_restore")
        || str_eq(name, "workspace_checkpoint_delete") {
        "checkpoint"
    } else if str_eq(name, "git_status")
        || str_eq(name, "git_diff")
        || str_eq(name, "git_diff_hunks")
        || str_eq(name, "git_log")
        || str_eq(name, "git_diff_summary")
        || str_eq(name, "show_changes") {
        "git"
    } else if str_eq(name, "replace_in_file")
        || str_eq(name, "replace_exact_block")
        || str_eq(name, "insert_before_pattern")
        || str_eq(name, "insert_after_pattern")
        || str_eq(name, "write_project_file")
        || str_eq(name, "replace_line_range")
        || str_eq(name, "insert_at_line")
        || str_eq(name, "delete_line_range")
        || str_eq(name, "apply_text_edits") {
        "edit"
    } else if str_eq(name, "read_file")
        || str_eq(name, "list_project_files")
        || str_eq(name, "search_project_text") {
        "file"
    } else if str_eq(name, "apply_patch")
        || str_eq(name, "apply_patch_checked")
        || str_eq(name, "validate_patch") {
        "patch"
    } else if str_eq(name, "cargo_fmt")
        || str_eq(name, "cargo_check")
        || str_eq(name, "cargo_test") {
        "validation"
    } else if str_eq(name, "run_shell")
        || str_eq(name, "run_job")
        || str_eq(name, "job_status")
        || str_eq(name, "job_log")
        || str_eq(name, "list_jobs")
        || str_eq(name, "job_tail") {
        "job"
    } else if str_eq(name, "list_projects")
        || str_eq(name, "register_project")
        || str_eq(name, "create_project") {
        "project"
    } else if str_eq(name, "save_project_artifact")
        || str_eq(name, "read_project_artifact_metadata")
        || str_eq(name, "read_project_artifact") {
        "artifact"
    } else if str_eq(name, "delete_project_files")
        || str_eq(name, "git_restore_paths")
        || str_eq(name, "discard_untracked")
        || str_eq(name, "workspace_hygiene_check") {
        "cleanup"
    } else if str_eq(name, "run_codex") {
        "codex"
    } else {
        "other"
    }
}

/// Every tool has a category of its own.
pub proof fn law_every_tool_has_a_category(kind: ToolKind)
    ensures
        category_of(name_of(kind)) != "other"@,
{
    reveal_strlit("runtime");
    reveal_strlit("session");
    reveal_strlit("checkpoint");
    reveal_strlit("git");
    reveal_strlit("edit");
    reveal_strlit("file");
    reveal_strlit("patch");
    reveal_strlit("validation");
    reveal_strlit("job");
    reveal_strlit("project");
    reveal_strlit("artifact");
    reveal_strlit("cleanup");
    reveal_strlit("codex");
    reveal_strlit("other");
    assert("patch"@[0] != "other"@[0]);
    assert("codex"@[0] != "other"@[0]);
}

/// Where the paths of a tool call stand in its arguments.
#[derive(Debug, Clone, Copy, PartialEq, Eq, Structural)]
pub enum ToolPathHint {
    Nowhere,
    SinglePath,
    PathList,
    Patch,
    Artifact,
}

/// The word for where the paths of a tool call stand.
pub open spec fn hint_word(hint: ToolPathHint) -> Seq<char> {
    match hint {
        ToolPathHint::Nowhere => "none"@,
        ToolPathHint::SinglePath => "single_path"@,
        ToolPathHint::PathList => "path_list"@,
        ToolPathHint::Patch => "patch"@,
        ToolPathHint::Artifact => "artifact"@,
    }
}

/// The word for where the paths of a tool call stand.
pub fn path_hint_str(hint: ToolPathHint) -> (r: &'static str)
    ensures
        r@ == hint_word(hint),
{
    match hint {
        ToolPathHint::Nowhere => "none",
        ToolPathHint::SinglePath => "single_path",
        ToolPathHint::PathList => "path_list",
        ToolPathHint::Patch => "patch",
        ToolPathHint::Artifact => "artifact",
    }
}

/// A tool with what is known of it beside its schemas.
#[derive(Debug)]
pub struct ToolMetadata {
    pub name: String,
    pub provider_id: String,
    pub risk: String,
    pub read_only: bool,
    pub requires_project: bool,
    pub path_hint: ToolPathHint,
    pub destructive: bool,
    pub shell_like: bool,
    pub oauth_scope: Option<String>,
}

impl ToolMetadata {
    /// A copy with the same value.
    pub fn copy(&self) -> (r: Self)
        ensures
            entry_tree(r) == entry_tree(*self),
    {
        ToolMetadata {
            name: self.name.clone(),
            provider_id: self.provider_id.clone(),
            risk: self.risk.clone(),
            read_only: self.read_only,
            requires_project: self.requires_project,
            path_hint: self.path_hint,
            destructive: self.destructive,
            shell_like: self.shell_like,
            oauth_scope: opt_clone(&self.oauth_scope),
        }
    }
}

/// A tool in the compact list.
pub open spec fn entry_tree(m: ToolMetadata) -> Tree {
    Tree::Object(
        no_fields()
            .push(field("name"@, Tree::Text(m.name@)))
            .push(field("category"@, Tree::Text(category_of(m.name@))))
            .push(field("provider"@, Tree::Text(m.provider_id@)))
            .push(field("risk"@, Tree::Text(m.risk@)))
            .push(field("read_only"@, Tree::Bool(m.read_only)))
            .push(field("requires_project"@, Tree::Bool(m.requires_project)))
            .push(field("path_hint"@, Tree::Text(hint_word(m.path_hint))))
            .push(field("destructive"@, Tree::Bool(m.destructive)))
            .push(field("shell_like"@, Tree::Bool(m.shell_like)))
            .push(field("oauth_scope"@, opt_text_tree(opt_text(m.oauth_scope)))),
    )
}

fn entry_json(m: &ToolMetadata) -> (r: Json)
    ensures
        r@ == entry_tree(*m),
{
    ObjectBuilder::new()
        .with("name", text(m.name.as_str()))
        .with("category", text(tool_manifest_category(m.name.as_str())))
        .with("provider", text(m.provider_id.as_str()))
        .with("risk", text(m.risk.as_str()))
        .with("read_only", boolean(m.read_only))
        .with("requires_project", boolean(m.requires_project))
        .with("path_hint", text(path_hint_str(m.path_hint)))
        .with("destructive", boolean(m.destructive))
        .with("shell_like", boolean(m.shell_like))
        .with("oauth_scope", opt_text_json(&m.oauth_scope))
        .build()
}

// ---------------------------------------------------------------------------
// Categories and risks
// ---------------------------------------------------------------------------

/// The text under a name, or the default where there is none.
pub open spec fn text_or(v: Tree, default: Seq<char>) -> Seq<char> {
    match v.as_text() {
        Some(s) => s,
        None => default,
    }
}

/// The category of a tool in the compact list.
pub open spec fn told_category(tool: Tree) -> Seq<char> {
    text_or(tool.at("category"@), "other"@)
}

/// The name of a tool in the compact list.
pub open spec fn told_name(tool: Tree) -> Seq<char> {
    text_or(tool.at("name"@), ""@)
}

/// The names of the tools of a category, as the tools come.
pub open spec fn names_within(tools: Seq<Tree>, category: Seq<char>) -> Seq<Seq<char>>
    decreases tools.len(),
{
    if tools.len() == 0 {
        Seq::empty()
    } else if told_category(tools.last()) == category {
        names_within(tools.drop_last(), category).push(told_name(tools.last()))
    } else {
        names_within(tools.drop_last(), category)
    }
}

/// The sorted names of the tools of a category.
pub open spec fn sorted_within(tools: Seq<Tree>, category: Seq<char>) -> Seq<Seq<char>>
    decreases tools.len(),
{
    if tools.len() == 0 {
        Seq::empty()
    } else if told_category(tools.last()) == category {
        with_text_placed(sorted_within(tools.drop_last(), category), told_name(tools.last()))
    } else {
        sorted_within(tools.drop_last(), category)
    }
}

/// The names of the tools by category: each category has the sorted list of them.
pub open spec fn categories_tree(tools: Seq<Tree>) -> Tree
    decreases tools.len(),
{
    if tools.len() == 0 {
        Tree::Object(Seq::empty())
    } else {
        let category = told_category(tools.last());
        categories_tree(tools.drop_last()).put(category, text_trees(sorted_within(tools, category)))
    }
}

/// Whether a category is told as the sorted list of the names of its tools, and not at all
/// where it has none.
pub open spec fn tells_category(categories: Tree, tools: Seq<Tree>, category: Seq<char>) -> bool {
    let names = names_within(tools, category);
    match categories.get(category) {
        Some(list) => names.len() > 0 && exists|sorted: Seq<Seq<char>>| #[trigger]
            text_trees(sorted) == list && sorted_texts(sorted) && sorted.to_multiset()
                == names.to_multiset(),
        None => names.len() == 0,
    }
}

/// The names of the tools of a category, sorted, are the names of its tools.
proof fn lemma_sorted_within(tools: Seq<Tree>, category: Seq<char>)
    ensures
        sorted_texts(sorted_within(tools, category)),
        sorted_within(tools, category).to_multiset() == names_within(
            tools,
            category,
        ).to_multiset(),
        sorted_within(tools, category).len() == names_within(tools, category).len(),
    decreases tools.len(),
{
    broadcast use vstd::seq_lib::group_to_multiset_ensures;

    if tools.len() > 0 {
        lemma_sorted_within(tools.drop_last(), category);
        let name = told_name(tools.last());
        lemma_text_placed(sorted_within(tools.drop_last(), category), name);
        let front = names_within(tools.drop_last(), category);
        assert(front.push(name).to_multiset() =~= front.to_multiset().insert(name));
    }
}

proof fn lemma_category_found(tools: Seq<Tree>, category: Seq<char>)
    ensures
        categories_tree(tools) is Object,
        categories_tree(tools).get(category) == (if names_within(tools, category).len() > 0 {
            Some(text_trees(sorted_within(tools, category)))
        } else {
            None
        }),
    decreases tools.len(),
{
    if tools.len() > 0 {
        let front = tools.drop_last();
        let last = told_category(tools.last());
        lemma_category_found(front, category);
        law_put_get(
            categories_tree(front),
            last,
            text_trees(sorted_within(tools, last)),
            category,
        );
    }
}

/// Every category is told as the sorted list of the names of its tools.
pub proof fn law_categories_are_sorted(tools: Seq<Tree>, category: Seq<char>)
    ensures
        tells_category(categories_tree(tools), tools, category),
{
    lemma_sorted_within(tools, category);
    lemma_category_found(tools, category);
    let sorted = sorted_within(tools, category);
    assert(text_trees(sorted) == text_trees(sorted));
}

/// The texts of a list of texts are that list.
proof fn lemma_texts_in_texts(list: Seq<Seq<char>>)
    ensures
        texts_in(text_trees(list).items()) == list,
    decreases list.len(),
{
    let items = text_trees(list).items();
    if list.len() > 0 {
        lemma_texts_in_texts(list.drop_last());
        assert(items.drop_last() =~= text_trees(list.drop_last()).items());
        assert(list.drop_last().push(list.last()) =~= list);
    } else {
        assert(list =~= seq![]);
    }
}

fn text_at<'a>(v: &'a Json, name: &str, default: &'a str) -> (r: &'a str)
    ensures
        r@ == text_or(v@.at(name@), default@),
{
    match v.get(name) {
        Some(t) => match t.as_str() {
            Some(s) => s,
            None => default,
        },
        None => default,
    }
}

/// The names of the tools by category.
pub fn build_manifest_categories(tools: &Vec<Json>) -> (r: Json)
    ensures
        r@ == categories_tree(trees(tools@)),
        forall|category: Seq<char>| #[trigger] tells_category(r@, trees(tools@), category),
{
    let ghost all = trees(tools@);
    let mut out = empty_object();
    let mut i: usize = 0;
    assert(all.take(0) =~= seq![]);
    while i < tools.len()
        invariant
            i <= tools@.len(),
            all == trees(tools@),
            out@ == categories_tree(all.take(i as int)),
        decreases tools@.len() - i,
    {
        proof {
            assert(all.take(i + 1).drop_last() =~= all.take(i as int));
            assert(all.take(i + 1).last() == tools@[i as int]@);
        }
        let category = text_at(&tools[i], "category", "other");
        let name = text_at(&tools[i], "name", "");
        proof {
            lemma_category_found(all.take(i as int), category@);
            lemma_sorted_within(all.take(i as int), category@);
            lemma_texts_in_texts(sorted_within(all.take(i as int), category@));
        }
        let mut names = string_array(out.get(category));
        assert(texts(names@) =~= sorted_within(all.take(i as int), category@));
        insert_sorted(&mut names, name);
        out.set(category, text_array(&names));
        i = i + 1;
    }
    assert(all.take(i as int) =~= all);
    proof {
        assert forall|category: Seq<char>| #[trigger] tells_category(out@, all, category) by {
            law_categories_are_sorted(all, category);
        }
    }
    out
}

/// How many of the tools have the risk.
pub open spec fn risk_count(tools: Seq<Tree>, risk: Seq<char>) -> nat
    decreases tools.len(),
{
    if tools.len() == 0 {
        0
    } else {
        risk_count(tools.drop_last(), risk) + (if text_or(tools.last().at("risk"@), "unknown"@)
            == risk {
            1nat
        } else {
            0nat
        })
    }
}

/// The number of tools by risk.
pub open spec fn risks_tree(tools: Seq<Tree>) -> Tree
    decreases tools.len(),
{
    if tools.len() == 0 {
        Tree::Object(Seq::empty())
    } else {
        let risk = text_or(tools.last().at("risk"@), "unknown"@);
        risks_tree(tools.drop_last()).put(risk, Tree::Number(risk_count(tools, risk) as int))
    }
}

/// The number under each risk is the number of tools that have it.
pub proof fn law_risks_are_counted(tools: Seq<Tree>, risk: Seq<char>)
    ensures
        risks_tree(tools) is Object,
        risks_tree(tools).get(risk) == (if risk_count(tools, risk) > 0 {
            Some(Tree::Number(risk_count(tools, risk) as int))
        } else {
            None
        }),
        risk_count(tools, risk) <= tools.len(),
    decreases tools.len(),
{
    if tools.len() > 0 {
        let last = text_or(tools.last().at("risk"@), "unknown"@);
        law_risks_are_counted(tools.drop_last(), risk);
        law_risks_are_counted(tools.drop_last(), last);
        law_put_get(
            risks_tree(tools.drop_last()),
            last,
            Tree::Number(risk_count(tools, last) as int),
            risk,
        );
    }
}

/// The number of tools by risk.
pub fn build_risk_summary(tools: &Vec<Json>) -> (r: Json)
    ensures
        r@ == risks_tree(trees(tools@)),
{
    let ghost all = trees(tools@);
    let mut out = empty_object();
    let mut i: usize = 0;
    assert(all.take(0) =~= seq![]);
    while i < tools.len()
        invariant
            i <= tools@.len(),
            all == trees(tools@),
            out@ == risks_tree(all.take(i as int)),
        decreases tools@.len() - i,
    {
        let risk = text_at(&tools[i], "risk", "unknown");
        proof {
            assert(all.take(i + 1).drop_last() =~= all.take(i as int));
            assert(all.take(i + 1).last() == tools@[i as int]@);
            law_risks_are_counted(all.take(i as int), risk@);
        }
        let before: u64 = match out.get(risk) {
            Some(n) => match n.as_u64() {
                Some(k) => k,
                None => 0,
            },
            None => 0,
        };
        assert(before == risk_count(all.take(i as int), risk@));
        out.set(risk, unsigned(before + 1));
        i = i + 1;
    }
    assert(all.take(i as int) =~= all);
    out
}

// ---------------------------------------------------------------------------
// Recommended flows
// ---------------------------------------------------------------------------

/// A flow: what it is for, and its tools.
pub open spec fn flow(name: Seq<char>, purpose: Seq<char>, tools: Seq<Tree>) -> Tree {
    Tree::Object(
        no_fields()
            .push(field("name"@, Tree::Text(name)))
            .push(field("purpose"@, Tree::Text(purpose)))
            .push(field("tools"@, Tree::Array(tools))),
    )
}

fn flow_json(name: &str, purpose: &str, tools: Json) -> (r: Json)
    ensures
        tools@ is Array ==> r@ == flow(name@, purpose@, tools@->Array_0),
{
    ObjectBuilder::new()
        .with("name", text(name))
        .with("purpose", text(purpose))
        .with("tools", tools)
        .build()
}

/// Flows for common tasks.
pub open spec fn flows() -> Seq<Tree> {
    no_trees()
        .push(flow("large_refactor"@, "Safely perform large single-file refactors."@, no_trees().push(Tree::Text("workspace_checkpoint_create"@)).push(Tree::Text("read_file"@)).push(Tree::Text("apply_text_edits"@)).push(Tree::Text("cargo_test"@)).push(Tree::Text("show_changes"@))))
        .push(flow("deployment_smoke"@, "Check runtime health and persistent session behavior."@, no_trees().push(Tree::Text("runtime_status"@)).push(Tree::Text("start_session"@)).push(Tree::Text("post_session_message"@)).push(Tree::Text("git_log"@)).push(Tree::Text("session_summary"@))))
        .push(flow("small_line_edit"@, "Make small targeted edits by stable line numbers."@, no_trees().push(Tree::Text("read_file"@)).push(Tree::Text("replace_line_range"@)).push(Tree::Text("insert_at_line"@)).push(Tree::Text("delete_line_range"@)).push(Tree::Text("show_changes"@))))
        .push(flow("patch_review"@, "Validate a patch before applying it safely."@, no_trees().push(Tree::Text("validate_patch"@)).push(Tree::Text("apply_patch_checked"@)).push(Tree::Text("show_changes"@)).push(Tree::Text("cargo_test"@))))
        .push(flow("discovery"@, "Discover projects, agents, and available tools."@, no_trees().push(Tree::Text("tool_manifest"@)).push(Tree::Text("list_projects"@)).push(Tree::Text("runtime_status"@))))
        .push(flow("handoff"@, "Quickly understand task state before taking over a session."@, no_trees().push(Tree::Text("session_handoff_summary"@)).push(Tree::Text("show_changes"@)).push(Tree::Text("workspace_checkpoint_create"@))))
}

/// Flows for common tasks.
pub fn tool_manifest_recommended_flows() -> (r: Json)
    ensures
        r@ == Tree::Array(flows()),
{
    ArrayBuilder::new()
        .with(flow_json("large_refactor", "Safely perform large single-file refactors.", ArrayBuilder::new().with_text("workspace_checkpoint_create").with_text("read_file").with_text("apply_text_edits").with_text("cargo_test").with_text("show_changes").build()))
        .with(flow_json("deployment_smoke", "Check runtime health and persistent session behavior.", ArrayBuilder::new().with_text("runtime_status").with_text("start_session").with_text("post_session_message").with_text("git_log").with_text("session_summary").build()))
        .with(flow_json("small_line_edit", "Make small targeted edits by stable line numbers.", ArrayBuilder::new().with_text("read_file").with_text("replace_line_range").with_text("insert_at_line").with_text("delete_line_range").with_text("show_changes").build()))
        .with(flow_json("patch_review", "Validate a patch before applying it safely.", ArrayBuilder::new().with_text("validate_patch").with_text("apply_patch_checked").with_text("show_changes").with_text("cargo_test").build()))
        .with(flow_json("discovery", "Discover projects, agents, and available tools.", ArrayBuilder::new().with_text("tool_manifest").with_text("list_projects").with_text("runtime_status").build()))
        .with(flow_json("handoff", "Quickly understand task state before taking over a session.", ArrayBuilder::new().with_text("session_handoff_summary").with_text("show_changes").with_text("workspace_checkpoint_create").build()))
        .build()
}

/// Whether a tree is the name of a tool.
pub open spec fn names_tool(t: Tree) -> bool {
    exists|kind: ToolKind| t == Tree::Text(#[trigger] name_of(kind))
}

proof fn lemma_flow_tools(name: Seq<char>, purpose: Seq<char>, tools: Seq<Tree>)
    ensures
        flow(name, purpose, tools).at("tools"@) == Tree::Array(tools),
{
    reveal_strlit("name");
    reveal_strlit("purpose");
    reveal_strlit("tools");
    assert("name"@.len() == 4 && "purpose"@.len() == 7 && "tools"@.len() == 5);
    let members = flow(name, purpose, tools)->Object_0;
    assert(members[2] == field("tools"@, Tree::Array(tools)));
    reveal_with_fuel(find_field, 4);
}

/// There are fewer than ten flows, and they name tools and nothing else.
pub proof fn law_flows_name_tools(i: int, j: int)
    requires
        0 <= i < flows().len(),
        0 <= j < flows()[i].at("tools"@).items().len(),
    ensures
        flows().len() < 10,
        names_tool(flows()[i].at("tools"@).items()[j]),
{
    assert forall|name: Seq<char>, purpose: Seq<char>, tools: Seq<Tree>|
        (#[trigger] flow(name, purpose, tools)).at("tools"@) == Tree::Array(tools) by {
        lemma_flow_tools(name, purpose, tools);
    }
    assert(names_tool(Tree::Text(name_of(ToolKind::WorkspaceCheckpointCreate))));
    assert(names_tool(Tree::Text(name_of(ToolKind::ReadFile))));
    assert(names_tool(Tree::Text(name_of(ToolKind::ApplyTextEdits))));
    assert(names_tool(Tree::Text(name_of(ToolKind::CargoTest))));
    assert(names_tool(Tree::Text(name_of(ToolKind::ShowChanges))));
    assert(names_tool(Tree::Text(name_of(ToolKind::RuntimeStatus))));
    assert(names_tool(Tree::Text(name_of(ToolKind::StartSession))));
    assert(names_tool(Tree::Text(name_of(ToolKind::PostSessionMessage))));
    assert(names_tool(Tree::Text(name_of(ToolKind::GitLog))));
    assert(names_tool(Tree::Text(name_of(ToolKind::SessionSummary))));
    assert(names_tool(Tree::Text(name_of(ToolKind::ReplaceLineRange))));
    assert(names_tool(Tree::Text(name_of(ToolKind::InsertAtLine))));
    assert(names_tool(Tree::Text(name_of(ToolKind::DeleteLineRange))));
    assert(names_tool(Tree::Text(name_of(ToolKind::ValidatePatch))));
    assert(names_tool(Tree::Text(name_of(ToolKind::ApplyPatchChecked))));
    assert(names_tool(Tree::Text(name_of(ToolKind::ToolManifest))));
    assert(names_tool(Tree::Text(name_of(ToolKind::ListProjects))));
    assert(names_tool(Tree::Text(name_of(ToolKind::SessionHandoffSummary))));
}

// ---------------------------------------------------------------------------
// The manifest
// ---------------------------------------------------------------------------

/// The tools of a category, or all.
pub open spec fn in_category(tools: Seq<Tree>, category: Option<Seq<char>>) -> Seq<Tree>
    decreases tools.len(),
{
    if category is None {
        tools
    } else if tools.len() == 0 {
        seq![]
    } else {
        let front = in_category(tools.drop_last(), category);
        if tools.last().at("category"@).as_text() == category {
            front.push(tools.last())
        } else {
            front
        }
    }
}

/// The tools in the compact list.
pub open spec fn entries(tools: Seq<ToolMetadata>) -> Seq<Tree> {
    Seq::new(tools.len(), |i: int| entry_tree(tools[i]))
}

/// The compact list of tools. The categories are always told whole, so that a caller
/// sees which there are.
pub open spec fn manifest_tree(
    tools: Seq<ToolMetadata>,
    category: Option<Seq<char>>,
    with_flows: bool,
    with_risks: bool,
) -> Tree {
    let all = entries(tools);
    let shown = in_category(all, category);
    let base = no_fields()
        .push(field("schema_version"@, Tree::Number(1)))
        .push(field("tool_count"@, Tree::Number(all.len() as int)))
        .push(field("filtered_count"@, Tree::Number(shown.len() as int)))
        .push(field("category"@, opt_text_tree(category)))
        .push(field("categories"@, categories_tree(all)))
        .push(field("tools"@, Tree::Array(shown)));
    let risky = if with_risks {
        base.push(field("risk_summary"@, risks_tree(shown)))
    } else {
        base
    };
    Tree::Object(
        if with_flows {
            risky.push(field("recommended_flows"@, Tree::Array(flows())))
        } else {
            risky
        },
    )
}

fn filter_category(all: &Vec<Json>, category: Option<&str>) -> (r: Vec<Json>)
    ensures
        trees(r@) == in_category(trees(all@), opt_str(category)),
{
    let ghost models = trees(all@);
    let mut out: Vec<Json> = Vec::new();
    let mut i: usize = 0;
    assert(models.take(0) =~= seq![]);
    assert(trees(out@) =~= seq![]);
    while i < all.len()
        invariant
            i <= all@.len(),
            models == trees(all@),
            trees(out@) == in_category(models.take(i as int), opt_str(category)),
        decreases all@.len() - i,
    {
        let ghost before = trees(out@);
        proof {
            assert(models.take(i + 1).drop_last() =~= models.take(i as int));
            assert(models.take(i + 1).last() == all@[i as int]@);
            assert(models.take(i as int).push(all@[i as int]@) =~= models.take(i + 1));
        }
        let keep = match category {
            Some(c) => all[i].is_text_at("category", c),
            None => true,
        };
        if keep {
            let item = all[i].copy();
            out.push(item);
            assert(trees(out@) =~= before.push(item@));
        }
        i = i + 1;
    }
    assert(models.take(i as int) =~= models);
    out
}

/// The compact list of tools.
pub fn tool_manifest(
    tools: &Vec<ToolMetadata>,
    category: Option<&str>,
    include_recommended_flows: bool,
    include_risk_summary: bool,
) -> (r: ToolResult)
    ensures
        r@ == tool_ok(
            manifest_tree(
                tools@,
                opt_str(category),
                include_recommended_flows,
                include_risk_summary,
            ),
        ),
{
    let mut all: Vec<Json> = Vec::new();
    let mut i: usize = 0;
    while i < tools.len()
        invariant
            i <= tools@.len(),
            all@.len() == i,
            forall|j: int| 0 <= j < i ==> (#[trigger] all@[j])@ == entry_tree(tools@[j]),
        decreases tools@.len() - i,
    {
        all.push(entry_json(&tools[i]));
        i = i + 1;
    }
    assert(trees(all@) =~= entries(tools@));
    let categories = build_manifest_categories(&all);
    let shown = filter_category(&all, category);
    let owned = match category {
        Some(c) => Some(c.to_owned()),
        None => None,
    };
    assert(trees(shown@).len() == shown@.len());
    let risks = build_risk_summary(&shown);
    let base = ObjectBuilder::new()
        .with("schema_version", unsigned(1))
        .with("tool_count", number(all.len()))
        .with("filtered_count", number(shown.len()))
        .with("category", opt_text_json(&owned))
        .with("categories", categories)
        .with("tools", array(shown));
    let risky = if include_risk_summary {
        base.with("risk_summary", risks)
    } else {
        base
    };
    if include_recommended_flows {
        ToolResult::ok(risky.with("recommended_flows", tool_manifest_recommended_flows()).build())
    } else {
        ToolResult::ok(risky.build())
    }
}

} // verus!
