//! The tools of a runtime: their specifications, names and categories.
use crate::json::{
    array, field, no_fields, text, text_array, text_trees, trees, Json, ObjectBuilder, Tree,
};
use crate::order::{insert_sorted, lemma_text_placed, sorted_texts};
use crate::text::{lemma_texts_push, opt_str, str_eq, texts, views};
use crate::tool_runtime::manifest::{
    entries, entry_tree, manifest_tree, tool_manifest, ToolMetadata,
};
use crate::tool_runtime::output_schemas::{output_fields, output_schema_for_tool};
use crate::tool_runtime::schemas::{
    annotations, arguments_schema, fields_schema, tool_annotations, wrapped,
};
use crate::tool_runtime::actions::holds_text;
use crate::tool_runtime::calls::{law_names_differ, name_of, ToolKind};
use crate::tool_runtime::tool_table::{entries_of, tool_rows, tool_table, ToolEntry};
use crate::tool_runtime::types::{tool_ok, ToolResult};
use vstd::prelude::*;
use vstd::string::*;

verus! {

/// A tool as it is offered.
#[derive(Debug)]
pub struct ToolSpec {
    pub name: String,
    pub description: String,
    pub input_schema: Json,
    pub output_schema: Json,
    pub annotations: Json,
}

/// The mathematical value of a [`ToolSpec`].
#[verifier::ext_equal]
pub struct SpecModel {
    pub name: Seq<char>,
    pub description: Seq<char>,
    pub input_schema: Tree,
    pub output_schema: Tree,
    pub annotations: Tree,
}

impl View for ToolSpec {
    type V = SpecModel;

    open spec fn view(&self) -> SpecModel {
        SpecModel {
            name: self.name@,
            description: self.description@,
            input_schema: self.input_schema@,
            output_schema: self.output_schema@,
            annotations: self.annotations@,
        }
    }
}

/// A tool as it is listed.
pub open spec fn spec_tree(s: SpecModel) -> Tree {
    Tree::Object(
        no_fields()
            .push(field("name"@, Tree::Text(s.name)))
            .push(field("description"@, Tree::Text(s.description)))
            .push(field("input_schema"@, s.input_schema))
            .push(field("output_schema"@, s.output_schema))
            .push(field("annotations"@, s.annotations)),
    )
}

/// The list of tools.
pub open spec fn tool_list_tree(specs: Seq<SpecModel>) -> Tree {
    Tree::Array(specs.map_values(|s: SpecModel| spec_tree(s)))
}

/// What is known of a tool: the first entry under its name.
pub open spec fn metadata_of(table: Seq<ToolMetadata>, name: Seq<char>) -> Option<ToolMetadata>
    decreases table.len(),
{
    if table.len() == 0 {
        None
    } else if table[0].name@ == name {
        Some(table[0])
    } else {
        metadata_of(table.skip(1), name)
    }
}

/// Every tool that is offered is known.
pub open spec fn covers_tools(table: Seq<ToolMetadata>) -> bool {
    forall|i: int|
        0 <= i < tool_table().len() ==> metadata_of(
            table,
            (#[trigger] tool_table()[i]).name,
        ) is Some
}

/// A tool with its schemas and hints.
pub open spec fn specified(tool: ToolEntry, metadata: ToolMetadata) -> SpecModel {
    SpecModel {
        name: tool.name,
        description: tool.description,
        input_schema: arguments_schema(tool.arguments),
        output_schema: wrapped(output_fields(tool.name)),
        annotations: annotations(metadata),
    }
}

/// The tools with their schemas and hints.
pub open spec fn all_specified(tools: Seq<ToolEntry>, table: Seq<ToolMetadata>) -> Seq<SpecModel> {
    Seq::new(tools.len(), |i: int| specified(tools[i], metadata_of(table, tools[i].name)->0))
}

/// What is known of the tools that are offered, in their order.
pub open spec fn offered(table: Seq<ToolMetadata>) -> Seq<ToolMetadata> {
    Seq::new(tool_table().len(), |i: int| metadata_of(table, tool_table()[i].name)->0)
}

/// The models of specifications.
pub open spec fn spec_models(specs: Seq<ToolSpec>) -> Seq<SpecModel> {
    Seq::new(specs.len(), |i: int| specs[i]@)
}

/// The names of the tools.
pub open spec fn names_of(tools: Seq<ToolEntry>) -> Seq<Seq<char>> {
    Seq::new(tools.len(), |i: int| tools[i].name)
}

/// Those of the texts that are among the names, in their order.
pub open spec fn picked(set: Seq<Seq<char>>, names: Seq<Seq<char>>) -> Seq<Seq<char>>
    decreases set.len(),
{
    if set.len() == 0 {
        Seq::empty()
    } else if names.contains(set.last()) {
        picked(set.drop_last(), names).push(set.last())
    } else {
        picked(set.drop_last(), names)
    }
}

/// The tools that are offered, with what is known of each beside its schemas.
pub struct ToolRuntime {
    metadata: Vec<ToolMetadata>,
}

fn position(table: &Vec<ToolMetadata>, name: &str) -> (r: Option<usize>)
    ensures
        match r {
            Some(i) => i < table@.len() && metadata_of(table@, name@) == Some(table@[i as int]),
            None => metadata_of(table@, name@) is None,
        },
{
    let mut i: usize = 0;
    assert(table@.skip(0) =~= table@);
    while i < table.len()
        invariant
            i <= table@.len(),
            metadata_of(table@, name@) == metadata_of(table@.skip(i as int), name@),
        decreases table@.len() - i,
    {
        assert(table@.skip(i as int).skip(1) =~= table@.skip(i + 1));
        if str_eq(table[i].name.as_str(), name) {
            return Some(i);
        }
        i = i + 1;
    }
    None
}

/// Tools of the category `inspect`.
pub open spec fn inspect_tools() -> Seq<Seq<char>> {
    Seq::<Seq<char>>::empty()
        .push("list_tools"@)
        .push("list_projects"@)
        .push("list_agents"@)
        .push("runtime_status"@)
        .push("read_file"@)
        .push("list_project_files"@)
        .push("search_project_text"@)
        .push("git_status"@)
        .push("git_diff"@)
        .push("git_diff_summary"@)
        .push("git_diff_hunks"@)
        .push("show_changes"@)
}

fn inspect_list() -> (r: Vec<&'static str>)
    ensures
        views(r@) == inspect_tools(),
{
    let r = vec!["list_tools", "list_projects", "list_agents", "runtime_status", "read_file", "list_project_files", "search_project_text", "git_status", "git_diff", "git_diff_summary", "git_diff_hunks", "show_changes"];
    assert(views(r@) =~= inspect_tools());
    r
}

/// Tools of the category `projects`.
pub open spec fn projects_tools() -> Seq<Seq<char>> {
    Seq::<Seq<char>>::empty()
        .push("list_projects"@)
        .push("register_project"@)
        .push("create_project"@)
}

fn projects_list() -> (r: Vec<&'static str>)
    ensures
        views(r@) == projects_tools(),
{
    let r = vec!["list_projects", "register_project", "create_project"];
    assert(views(r@) =~= projects_tools());
    r
}

/// Tools of the category `git`.
pub open spec fn git_tools() -> Seq<Seq<char>> {
    Seq::<Seq<char>>::empty()
        .push("git_status"@)
        .push("git_diff"@)
        .push("git_diff_summary"@)
        .push("git_diff_hunks"@)
        .push("show_changes"@)
        .push("git_restore_paths"@)
        .push("discard_untracked"@)
}

fn git_list() -> (r: Vec<&'static str>)
    ensures
        views(r@) == git_tools(),
{
    let r = vec!["git_status", "git_diff", "git_diff_summary", "git_diff_hunks", "show_changes", "git_restore_paths", "discard_untracked"];
    assert(views(r@) =~= git_tools());
    r
}

/// Tools of the category `review`.
pub open spec fn review_tools() -> Seq<Seq<char>> {
    Seq::<Seq<char>>::empty()
        .push("show_changes"@)
        .push("git_diff_hunks"@)
        .push("git_diff_summary"@)
        .push("git_status"@)
        .push("git_diff"@)
}

fn review_list() -> (r: Vec<&'static str>)
    ensures
        views(r@) == review_tools(),
{
    let r = vec!["show_changes", "git_diff_hunks", "git_diff_summary", "git_status", "git_diff"];
    assert(views(r@) =~= review_tools());
    r
}

/// Tools of the category `validation`.
pub open spec fn validation_tools() -> Seq<Seq<char>> {
    Seq::<Seq<char>>::empty()
        .push("cargo_fmt"@)
        .push("cargo_check"@)
        .push("cargo_test"@)
        .push("validate_patch"@)
}

fn validation_list() -> (r: Vec<&'static str>)
    ensures
        views(r@) == validation_tools(),
{
    let r = vec!["cargo_fmt", "cargo_check", "cargo_test", "validate_patch"];
    assert(views(r@) =~= validation_tools());
    r
}

/// Tools of the category `patch`.
pub open spec fn patch_tools() -> Seq<Seq<char>> {
    Seq::<Seq<char>>::empty()
        .push("apply_patch"@)
        .push("apply_patch_checked"@)
        .push("validate_patch"@)
}

fn patch_list() -> (r: Vec<&'static str>)
    ensures
        views(r@) == patch_tools(),
{
    let r = vec!["apply_patch", "apply_patch_checked", "validate_patch"];
    assert(views(r@) =~= patch_tools());
    r
}

/// Tools of the category `edit`.
pub open spec fn edit_tools() -> Seq<Seq<char>> {
    Seq::<Seq<char>>::empty()
        .push("replace_in_file"@)
        .push("replace_exact_block"@)
        .push("insert_before_pattern"@)
        .push("insert_after_pattern"@)
        .push("write_project_file"@)
        .push("save_project_artifact"@)
        .push("read_project_artifact_metadata"@)
        .push("read_project_artifact"@)
        .push("replace_line_range"@)
        .push("insert_at_line"@)
        .push("delete_line_range"@)
        .push("apply_patch_checked"@)
}

fn edit_list() -> (r: Vec<&'static str>)
    ensures
        views(r@) == edit_tools(),
{
    let r = vec!["replace_in_file", "replace_exact_block", "insert_before_pattern", "insert_after_pattern", "write_project_file", "save_project_artifact", "read_project_artifact_metadata", "read_project_artifact", "replace_line_range", "insert_at_line", "delete_line_range", "apply_patch_checked"];
    assert(views(r@) =~= edit_tools());
    r
}

/// Tools of the category `shell`.
pub open spec fn shell_tools() -> Seq<Seq<char>> {
    Seq::<Seq<char>>::empty()
        .push("run_shell"@)
        .push("run_job"@)
        .push("cargo_fmt"@)
        .push("cargo_check"@)
        .push("cargo_test"@)
}

fn shell_list() -> (r: Vec<&'static str>)
    ensures
        views(r@) == shell_tools(),
{
    let r = vec!["run_shell", "run_job", "cargo_fmt", "cargo_check", "cargo_test"];
    assert(views(r@) =~= shell_tools());
    r
}

/// Tools of the category `jobs`.
pub open spec fn jobs_tools() -> Seq<Seq<char>> {
    Seq::<Seq<char>>::empty()
        .push("run_job"@)
        .push("job_status"@)
        .push("job_log"@)
        .push("list_jobs"@)
        .push("job_tail"@)
}

fn jobs_list() -> (r: Vec<&'static str>)
    ensures
        views(r@) == jobs_tools(),
{
    let r = vec!["run_job", "job_status", "job_log", "list_jobs", "job_tail"];
    assert(views(r@) =~= jobs_tools());
    r
}

/// Tools of the category `runtime`.
pub open spec fn runtime_tools() -> Seq<Seq<char>> {
    Seq::<Seq<char>>::empty()
        .push("list_tools"@)
        .push("start_session"@)
        .push("session_summary"@)
        .push("list_projects"@)
        .push("list_agents"@)
        .push("runtime_status"@)
}

fn runtime_list() -> (r: Vec<&'static str>)
    ensures
        views(r@) == runtime_tools(),
{
    let r = vec!["list_tools", "start_session", "session_summary", "list_projects", "list_agents", "runtime_status"];
    assert(views(r@) =~= runtime_tools());
    r
}

/// Tools of the category `cleanup`.
pub open spec fn cleanup_tools() -> Seq<Seq<char>> {
    Seq::<Seq<char>>::empty()
        .push("delete_project_files"@)
        .push("git_restore_paths"@)
        .push("discard_untracked"@)
}

fn cleanup_list() -> (r: Vec<&'static str>)
    ensures
        views(r@) == cleanup_tools(),
{
    let r = vec!["delete_project_files", "git_restore_paths", "discard_untracked"];
    assert(views(r@) =~= cleanup_tools());
    r
}

/// The names by category.
pub open spec fn tool_groups(names: Seq<Seq<char>>) -> Tree {
    Tree::Object(
        no_fields()
            .push(field("inspect"@, text_trees(picked(inspect_tools(), names))))
            .push(field("projects"@, text_trees(picked(projects_tools(), names))))
            .push(field("git"@, text_trees(picked(git_tools(), names))))
            .push(field("review"@, text_trees(picked(review_tools(), names))))
            .push(field("validation"@, text_trees(picked(validation_tools(), names))))
            .push(field("patch"@, text_trees(picked(patch_tools(), names))))
            .push(field("edit"@, text_trees(picked(edit_tools(), names))))
            .push(field("shell"@, text_trees(picked(shell_tools(), names))))
            .push(field("jobs"@, text_trees(picked(jobs_tools(), names))))
            .push(field("runtime"@, text_trees(picked(runtime_tools(), names))))
            .push(field("cleanup"@, text_trees(picked(cleanup_tools(), names)))),
    )
}

fn pick(set: Vec<&'static str>, names: &Vec<String>) -> (r: Json)
    ensures
        r@ == text_trees(picked(views(set@), texts(names@))),
{
    broadcast use lemma_texts_push;

    let ghost all = views(set@);
    let mut out: Vec<String> = Vec::new();
    let mut i: usize = 0;
    assert(all.take(0) =~= Seq::empty());
    assert(texts(out@) =~= Seq::empty());
    while i < set.len()
        invariant
            i <= set@.len(),
            all == views(set@),
            texts(out@) == picked(all.take(i as int), texts(names@)),
        decreases set@.len() - i,
    {
        proof {
            assert(all.take(i + 1).drop_last() =~= all.take(i as int));
            assert(all.take(i + 1).last() == set@[i as int]@);
        }
        if holds_text(names, set[i]) {
            out.push(set[i].to_owned());
        }
        i = i + 1;
    }
    assert(all.take(i as int) =~= all);
    text_array(&out)
}

/// Which names are picked depends only on which there are.
proof fn lemma_same_picked(set: Seq<Seq<char>>, a: Seq<Seq<char>>, b: Seq<Seq<char>>)
    requires
        a.to_multiset() == b.to_multiset(),
    ensures
        picked(set, a) == picked(set, b),
    decreases set.len(),
{
    if set.len() > 0 {
        lemma_same_picked(set.drop_last(), a, b);
        a.to_multiset_ensures();
        b.to_multiset_ensures();
        assert(a.contains(set.last()) == (a.to_multiset().count(set.last()) > 0));
        assert(b.contains(set.last()) == (b.to_multiset().count(set.last()) > 0));
    }
}

/// The categories depend only on which names there are.
proof fn lemma_same_names(a: Seq<Seq<char>>, b: Seq<Seq<char>>)
    requires
        a.to_multiset() == b.to_multiset(),
    ensures
        tool_groups(a) == tool_groups(b),
{
    lemma_same_picked(inspect_tools(), a, b);
    lemma_same_picked(projects_tools(), a, b);
    lemma_same_picked(git_tools(), a, b);
    lemma_same_picked(review_tools(), a, b);
    lemma_same_picked(validation_tools(), a, b);
    lemma_same_picked(patch_tools(), a, b);
    lemma_same_picked(edit_tools(), a, b);
    lemma_same_picked(shell_tools(), a, b);
    lemma_same_picked(jobs_tools(), a, b);
    lemma_same_picked(runtime_tools(), a, b);
    lemma_same_picked(cleanup_tools(), a, b);
}

/// Short hints on how the tools go together.
pub open spec fn flow_hints() -> Seq<Seq<char>> {
    Seq::<Seq<char>>::empty()
        .push("Discovery: call list_projects then runtime_status to see agents and projects."@)
        .push("Inspect: use show_changes or git_diff_summary, then read_file before proposing changes."@)
        .push("Review: use show_changes first; request include_diff=true or call git_diff_hunks for bounded hunk review, then run focused tests."@)
        .push("Source code edit: inspect with read_file/search_project_text; prefer replace_line_range/insert_at_line/delete_line_range with guards. apply_patch_checked for broad diffs; run_shell not primary; validate with cargo tools."@)
        .push("Rust validation: use cargo_fmt, cargo_check, cargo_test before run_shell for common checks."@)
        .push("Patch: call validate_patch to dry-run, then apply_patch_checked to apply safely."@)
        .push("Cleanup: use delete_project_files / git_restore_paths / discard_untracked instead of ad hoc rm."@)
}

impl ToolRuntime {
    /// Every tool that is offered is known.
    pub closed spec fn wf(&self) -> bool {
        covers_tools(self.metadata@)
    }

    /// What is known of the tools.
    pub closed spec fn table(&self) -> Seq<ToolMetadata> {
        self.metadata@
    }

    /// The runtime with what is known of its tools, or none where a tool is not known.
    pub fn new(metadata: Vec<ToolMetadata>) -> (r: Option<Self>)
        ensures
            match r {
                Some(runtime) => runtime.wf() && runtime.table() == metadata@ && covers_tools(
                    metadata@,
                ),
                None => !covers_tools(metadata@),
            },
    {
        let rows = tool_rows();
        let mut i: usize = 0;
        while i < rows.len()
            invariant
                i <= rows@.len(),
                entries_of(rows@) == tool_table(),
                forall|j: int|
                    0 <= j < i ==> metadata_of(
                        metadata@,
                        (#[trigger] tool_table()[j]).name,
                    ) is Some,
            decreases rows@.len() - i,
        {
            assert(rows@[i as int]@ == tool_table()[i as int]);
            if position(&metadata, rows[i].name).is_none() {
                return None;
            }
            i = i + 1;
        }
        assert(tool_table().len() == rows@.len());
        Some(ToolRuntime { metadata })
    }

    /// The tools that are offered, with their schemas and hints.
    pub fn tool_specs(&self) -> (r: Vec<ToolSpec>)
        requires
            self.wf(),
        ensures
            spec_models(r@) == all_specified(tool_table(), self.table()),
            forall|i: int| 0 <= i < r@.len() ==> (#[trigger] r@[i])@.name != "run_codex"@,
    {
        let rows = tool_rows();
        let mut out: Vec<ToolSpec> = Vec::new();
        let mut i: usize = 0;
        assert(tool_table().len() == rows@.len());
        while i < rows.len()
            invariant
                self.wf(),
                i <= rows@.len(),
                out@.len() == i,
                entries_of(rows@) == tool_table(),
                rows@.len() == tool_table().len(),
                forall|j: int|
                    0 <= j < i ==> (#[trigger] out@[j])@ == specified(
                        tool_table()[j],
                        metadata_of(self.table(), tool_table()[j].name)->0,
                    ),
            decreases rows@.len() - i,
        {
            let row = &rows[i];
            assert(row@ == tool_table()[i as int]);
            if let Some(k) = position(&self.metadata, row.name) {
                out.push(
                    ToolSpec {
                        name: row.name.to_owned(),
                        description: row.description.to_owned(),
                        input_schema: fields_schema(&row.arguments),
                        output_schema: output_schema_for_tool(row.name),
                        annotations: tool_annotations(&self.metadata[k]),
                    },
                );
            }
            i = i + 1;
        }
        assert(spec_models(out@) =~= all_specified(tool_table(), self.table()));
        proof {
            law_codex_is_not_offered();
        }
        out
    }

    /// The list of the tools that are offered, with their schemas and hints.
    pub fn list_tools(&self) -> (r: Json)
        requires
            self.wf(),
        ensures
            r@ == tool_list_tree(all_specified(tool_table(), self.table())),
    {
        let specs = self.tool_specs();
        let ghost models = spec_models(specs@);
        let mut out: Vec<Json> = Vec::new();
        let mut i: usize = 0;
        while i < specs.len()
            invariant
                i <= specs@.len(),
                out@.len() == i,
                forall|j: int| 0 <= j < i ==> (#[trigger] out@[j])@ == spec_tree(specs@[j]@),
            decreases specs@.len() - i,
        {
            let spec = &specs[i];
            out.push(
                ObjectBuilder::new()
                    .with("name", text(spec.name.as_str()))
                    .with("description", text(spec.description.as_str()))
                    .with("input_schema", spec.input_schema.copy())
                    .with("output_schema", spec.output_schema.copy())
                    .with("annotations", spec.annotations.copy())
                    .build(),
            );
            i = i + 1;
        }
        assert(trees(out@) =~= models.map_values(|s: SpecModel| spec_tree(s)));
        array(out)
    }

    /// The names of the tools that are offered, in the order in which they are listed.
    pub fn offered_names(&self) -> (r: Vec<String>)
        ensures
            texts(r@) == names_of(tool_table()),
    {
        let rows = tool_rows();
        let mut out: Vec<String> = Vec::new();
        let mut i: usize = 0;
        assert(tool_table().len() == rows@.len());
        while i < rows.len()
            invariant
                i <= rows@.len(),
                out@.len() == i,
                entries_of(rows@) == tool_table(),
                rows@.len() == tool_table().len(),
                forall|j: int| 0 <= j < i ==> (#[trigger] out@[j])@ == tool_table()[j].name,
            decreases rows@.len() - i,
        {
            assert(rows@[i as int]@ == tool_table()[i as int]);
            out.push(rows[i].name.to_owned());
            i = i + 1;
        }
        assert(texts(out@) =~= names_of(tool_table()));
        out
    }

    /// The compact list of the tools that are offered.
    pub fn tool_manifest(
        &self,
        category: Option<&str>,
        include_recommended_flows: bool,
        include_risk_summary: bool,
    ) -> (r: ToolResult)
        requires
            self.wf(),
        ensures
            r@ == tool_ok(
                manifest_tree(
                    offered(self.table()),
                    opt_str(category),
                    include_recommended_flows,
                    include_risk_summary,
                ),
            ),
    {
        let rows = tool_rows();
        let mut tools: Vec<ToolMetadata> = Vec::new();
        let mut i: usize = 0;
        assert(tool_table().len() == rows@.len());
        while i < rows.len()
            invariant
                self.wf(),
                i <= rows@.len(),
                tools@.len() == i,
                entries_of(rows@) == tool_table(),
                rows@.len() == tool_table().len(),
                forall|j: int|
                    0 <= j < i ==> entry_tree(#[trigger] tools@[j]) == entry_tree(
                        offered(self.table())[j],
                    ),
            decreases rows@.len() - i,
        {
            assert(rows@[i as int]@ == tool_table()[i as int]);
            if let Some(k) = position(&self.metadata, rows[i].name) {
                tools.push(self.metadata[k].copy());
            }
            i = i + 1;
        }
        assert(entries(tools@) =~= entries(offered(self.table())));
        tool_manifest(&tools, category, include_recommended_flows, include_risk_summary)
    }

    /// The sorted names of the tools that are offered.
    pub fn tool_names(&self) -> (r: Vec<String>)
        ensures
            sorted_texts(texts(r@)),
            texts(r@).to_multiset() == names_of(tool_table()).to_multiset(),
            !texts(r@).contains("run_codex"@),
    {
        let rows = tool_rows();
        let ghost names = names_of(tool_table());
        let mut out: Vec<String> = Vec::new();
        let mut i: usize = 0;
        proof {
            assert(texts(out@) =~= names.take(0));
            assert(tool_table().len() == rows@.len());
        }
        while i < rows.len()
            invariant
                i <= rows@.len(),
                names == names_of(tool_table()),
                entries_of(rows@) == tool_table(),
                names.len() == rows@.len(),
                sorted_texts(texts(out@)),
                texts(out@).to_multiset() == names.take(i as int).to_multiset(),
            decreases rows@.len() - i,
        {
            proof {
                assert(rows@[i as int]@ == tool_table()[i as int]);
                assert(names.take(i + 1) =~= names.take(i as int).push(names[i as int]));
                names.take(i as int).to_multiset_ensures();
                assert(names.take(i as int).push(names[i as int]).to_multiset() =~= names.take(
                    i as int,
                ).to_multiset().insert(names[i as int]));
                lemma_text_placed(texts(out@), names[i as int]);
            }
            insert_sorted(&mut out, rows[i].name);
            i = i + 1;
        }
        assert(names.take(i as int) =~= names);
        proof {
            law_codex_is_not_offered();
            names.to_multiset_ensures();
            texts(out@).to_multiset_ensures();
            assert(names.contains("run_codex"@) == (names.to_multiset().count("run_codex"@) > 0));
        }
        out
    }

    /// The names of the tools by what they are for. A tool may stand in more than one
    /// category.
    pub fn tool_categories(&self) -> (r: Json)
        ensures
            r@ == tool_groups(names_of(tool_table())),
            !grouped(r@, "run_codex"@),
    {
        let names = self.tool_names();
        proof {
            lemma_same_names(texts(names@), names_of(tool_table()));
            law_codex_is_not_offered();
            if grouped(tool_groups(texts(names@)), "run_codex"@) {
                law_only_offered_tools_are_grouped(texts(names@), "run_codex"@);
            }
        }
        ObjectBuilder::new()
            .with("inspect", pick(inspect_list(), &names))
            .with("projects", pick(projects_list(), &names))
            .with("git", pick(git_list(), &names))
            .with("review", pick(review_list(), &names))
            .with("validation", pick(validation_list(), &names))
            .with("patch", pick(patch_list(), &names))
            .with("edit", pick(edit_list(), &names))
            .with("shell", pick(shell_list(), &names))
            .with("jobs", pick(jobs_list(), &names))
            .with("runtime", pick(runtime_list(), &names))
            .with("cleanup", pick(cleanup_list(), &names))
            .build()
    }

    /// Short hints on how the tools go together.
    pub fn recommended_flows() -> (r: Vec<&'static str>)
        ensures
            views(r@) == flow_hints(),
    {
        let r = vec![
            "Discovery: call list_projects then runtime_status to see agents and projects.",
            "Inspect: use show_changes or git_diff_summary, then read_file before proposing changes.",
            "Review: use show_changes first; request include_diff=true or call git_diff_hunks for bounded hunk review, then run focused tests.",
            "Source code edit: inspect with read_file/search_project_text; prefer replace_line_range/insert_at_line/delete_line_range with guards. apply_patch_checked for broad diffs; run_shell not primary; validate with cargo tools.",
            "Rust validation: use cargo_fmt, cargo_check, cargo_test before run_shell for common checks.",
            "Patch: call validate_patch to dry-run, then apply_patch_checked to apply safely.",
            "Cleanup: use delete_project_files / git_restore_paths / discard_untracked instead of ad hoc rm.",
        ];
        assert(views(r@) =~= flow_hints());
        r
    }
}

// ---------------------------------------------------------------------------
// Laws
// ---------------------------------------------------------------------------

/// Every hint is well under three hundred characters.
pub proof fn law_flow_hints_are_short(i: int)
    requires
        0 <= i < flow_hints().len(),
    ensures
        flow_hints()[i].len() < 300,
{
    reveal_strlit("Discovery: call list_projects then runtime_status to see agents and projects.");
    reveal_strlit("Inspect: use show_changes or git_diff_summary, then read_file before proposing changes.");
    reveal_strlit("Review: use show_changes first; request include_diff=true or call git_diff_hunks for bounded hunk review, then run focused tests.");
    reveal_strlit("Source code edit: inspect with read_file/search_project_text; prefer replace_line_range/insert_at_line/delete_line_range with guards. apply_patch_checked for broad diffs; run_shell not primary; validate with cargo tools.");
    reveal_strlit("Rust validation: use cargo_fmt, cargo_check, cargo_test before run_shell for common checks.");
    reveal_strlit("Patch: call validate_patch to dry-run, then apply_patch_checked to apply safely.");
    reveal_strlit("Cleanup: use delete_project_files / git_restore_paths / discard_untracked instead of ad hoc rm.");
}

/// Every tool is described in at most three hundred characters.
pub proof fn law_descriptions_are_short(i: int)
    requires
        0 <= i < tool_table().len(),
    ensures
        tool_table()[i].description.len() <= 300,
{
    reveal_strlit("List tools exposed by this WebCodex runtime.");
    reveal_strlit("Start an in-memory task tracking session. Read-only; creates bounded recorder metadata only and never modifies a project.");
    reveal_strlit("Return a bounded structured summary of tool calls recorded for a session. In-memory only; events are lost on restart.");
    reveal_strlit("List agent-registered runtime projects and their execution mode.");
    reveal_strlit("Register an existing directory as a WebCodex project on a selected agent. Mutation with side effects; constrained by agent policy. The agent validates the path, writes projects_dir/<id>.toml atomically, and refreshes its project list. Requires Bearer auth.");
    reveal_strlit("Create a new directory on the selected agent and register it as a WebCodex project. Mutation with side effects; constrained by agent policy. Creates directory, optional template, optional git init, writes projects_dir/<id>.toml atomically. Requires Bearer auth.");
    reveal_strlit("List connected local/remote execution agents.");
    reveal_strlit("Return a structured runtime health/observability summary (service metadata, projects config status, agent client summaries, and job counts). Read-only; never exposes tokens, secrets, full env, or stdout/stderr.");
    reveal_strlit("Run checks, builds, tests, read-only diagnostics, or necessary commands in a project. Do not use as the primary project file editing path; prefer structured line edit tools for source edits.");
    reveal_strlit("Start an asynchronous shell job inside an agent-registered project.");
    reveal_strlit("Get status for a runtime job.");
    reveal_strlit("Read stdout/stderr for a runtime job.");
    reveal_strlit("List files in an agent-registered project directory (bounded, read-only). Returns project-relative paths plus a file/dir kind. Routed to the owning registered agent; the server never reads the agent project path directly.");
    reveal_strlit("Search text inside an agent-registered project (bounded matches). Each match carries a project-relative path, 1-based line number, and a preview line. Sensitive/build directories (.git, target, node_modules) are excluded by default.");
    reveal_strlit("Read-only git diff summary for a project: `git status --porcelain`, `git diff --stat`, and a parsed changed-file list. Does not modify the worktree.");
    reveal_strlit("Read-only git worktree and optional session activity summary for task review. Reports status, warnings, next actions, bounded hunks, and never modifies the worktree.");
    reveal_strlit("List bounded runtime job summaries across agent and local executors. Never returns stdout/stderr bodies — only metadata (job_id, kind, status, project, timestamps, exit_code).");
    reveal_strlit("Return bounded stdout/stderr tails for a job.");
    reveal_strlit("Read a UTF-8 file from an agent-registered project.");
    reveal_strlit("Run git status --porcelain for a project.");
    reveal_strlit("Run git diff for a project, optionally scoped to paths.");
    reveal_strlit("Return bounded structured git diff hunks for review. Supports optional paths and cached diff; does not modify the worktree.");
    reveal_strlit("Run cargo fmt in an agent-registered project. Use check=true for cargo fmt -- --check before broader validation.");
    reveal_strlit("Run structured cargo check. Defaults to --all-targets; supports features/package/cwd without shell interpolation.");
    reveal_strlit("Run structured cargo test. Supports optional filter, feature flags, package, --no-run, and bounded output tails.");
    reveal_strlit("Apply a unified diff patch to an agent-registered project.");
    reveal_strlit("Validate/apply a unified diff and return a diff summary. Best for broad or multi-file patches; for local line edits prefer structured line edit tools.");
    reveal_strlit("Delete selected project-relative files only; safer than arbitrary rm for cleanup.");
    reveal_strlit("Restore selected tracked paths with git restore; does not remove untracked files.");
    reveal_strlit("Discard selected untracked files with git clean -f -- <paths>.");
    reveal_strlit("Dry-run a unified diff with git apply --check/--stat through the owning agent; never writes files.");
    reveal_strlit("Replace a short unique substring in a project file. Good for small exact text changes; not for large source rewrites. Fails without writing when old is missing or ambiguous.");
    reveal_strlit("Replace literal UTF-8 text that matches exactly once; no regex or auto-format. Use line edit tools when line numbers are known.");
    reveal_strlit("Insert UTF-8 text before one literal pattern match; no regex, AST, auto-newline, or auto-format.");
    reveal_strlit("Insert UTF-8 text after one literal pattern match; no regex, AST, auto-newline, or auto-format.");
    reveal_strlit("Create a new UTF-8 file or deliberately overwrite a small whole file. Not the first choice for ordinary local source edits; prefer line edit tools when scoped by line.");
    reveal_strlit("Write a bounded binary project artifact from base64. Use for imported session files, generated images, PDFs, and zip files; not for UTF-8 source edits.");
    reveal_strlit("Read bounded metadata for a binary artifact; images include dimensions and zip archives are counted but never extracted.");
    reveal_strlit("Chunked content read for a project artifact. Returns base64 for one small segment plus full-file sha256/MIME metadata; not a large-file transfer tool.");
    reveal_strlit("Preferred source-code edit tool for local changes with clear line numbers. Replaces a 1-based inclusive line range; safer than run_shell/sed/perl/python and better than write_project_file for medium edits. Supports sha256/prefix guards.");
    reveal_strlit("Preferred source-code edit tool for local changes with clear line numbers. Inserts before a specified 1-based line; safer than run_shell/sed/perl/python and better than write_project_file for medium edits. Supports sha256/prefix guards.");
    reveal_strlit("Preferred source-code edit tool for local changes with clear line numbers. Deletes a 1-based inclusive line range; safer than run_shell/sed/perl/python and better than write_project_file for medium edits. Supports sha256/prefix guards.");
}

/// The tool that an entry offers.
pub open spec fn kind_at(i: int) -> ToolKind {
    if i == 0 {
        ToolKind::ListTools
    } else if i == 1 {
        ToolKind::StartSession
    } else if i == 2 {
        ToolKind::SessionSummary
    } else if i == 3 {
        ToolKind::ListProjects
    } else if i == 4 {
        ToolKind::RegisterProject
    } else if i == 5 {
        ToolKind::CreateProject
    } else if i == 6 {
        ToolKind::ListAgents
    } else if i == 7 {
        ToolKind::RuntimeStatus
    } else if i == 8 {
        ToolKind::RunShell
    } else if i == 9 {
        ToolKind::RunJob
    } else if i == 10 {
        ToolKind::JobStatus
    } else if i == 11 {
        ToolKind::JobLog
    } else if i == 12 {
        ToolKind::ListProjectFiles
    } else if i == 13 {
        ToolKind::SearchProjectText
    } else if i == 14 {
        ToolKind::GitDiffSummary
    } else if i == 15 {
        ToolKind::ShowChanges
    } else if i == 16 {
        ToolKind::ListJobs
    } else if i == 17 {
        ToolKind::JobTail
    } else if i == 18 {
        ToolKind::ReadFile
    } else if i == 19 {
        ToolKind::GitStatus
    } else if i == 20 {
        ToolKind::GitDiff
    } else if i == 21 {
        ToolKind::GitDiffHunks
    } else if i == 22 {
        ToolKind::CargoFmt
    } else if i == 23 {
        ToolKind::CargoCheck
    } else if i == 24 {
        ToolKind::CargoTest
    } else if i == 25 {
        ToolKind::ApplyPatch
    } else if i == 26 {
        ToolKind::ApplyPatchChecked
    } else if i == 27 {
        ToolKind::DeleteProjectFiles
    } else if i == 28 {
        ToolKind::GitRestorePaths
    } else if i == 29 {
        ToolKind::DiscardUntracked
    } else if i == 30 {
        ToolKind::ValidatePatch
    } else if i == 31 {
        ToolKind::ReplaceInFile
    } else if i == 32 {
        ToolKind::ReplaceExactBlock
    } else if i == 33 {
        ToolKind::InsertBeforePattern
    } else if i == 34 {
        ToolKind::InsertAfterPattern
    } else if i == 35 {
        ToolKind::WriteProjectFile
    } else if i == 36 {
        ToolKind::SaveProjectArtifact
    } else if i == 37 {
        ToolKind::ReadProjectArtifactMetadata
    } else if i == 38 {
        ToolKind::ReadProjectArtifact
    } else if i == 39 {
        ToolKind::ReplaceLineRange
    } else if i == 40 {
        ToolKind::InsertAtLine
    } else {
        ToolKind::DeleteLineRange
    }
}

/// Every tool that is offered is one that can be called, and none is offered twice.
pub proof fn law_offered_tools(i: int, j: int)
    requires
        0 <= i < tool_table().len(),
        0 <= j < tool_table().len(),
    ensures
        tool_table()[i].name == name_of(kind_at(i)),
        i != j ==> tool_table()[i].name != tool_table()[j].name,
{
    assert(tool_table().len() == 42);
    if i != j {
        assert(kind_at(i) != kind_at(j));
        law_names_differ(kind_at(i), kind_at(j));
    }
}

/// Codex is not among the tools that are offered.
pub proof fn law_codex_is_not_offered()
    ensures
        forall|i: int| 0 <= i < tool_table().len() ==> (#[trigger] tool_table()[i]).name
            != "run_codex"@,
        !names_of(tool_table()).contains("run_codex"@),
{
    assert forall|i: int| 0 <= i < tool_table().len() implies (#[trigger] tool_table()[i]).name
        != "run_codex"@ by {
        law_offered_tools(i, i);
        assert(kind_at(i) != ToolKind::RunCodex);
        law_names_differ(kind_at(i), ToolKind::RunCodex);
    }
    assert forall|i: int| 0 <= i < names_of(tool_table()).len() implies names_of(tool_table())[i]
        != "run_codex"@ by {
        assert(names_of(tool_table())[i] == tool_table()[i].name);
    }
}

/// The manifest tells of the tools that are offered, each under its name, and so not of
/// Codex.
pub proof fn law_manifest_tells_offered_tools(table: Seq<ToolMetadata>, i: int)
    requires
        covers_tools(table),
        0 <= i < tool_table().len(),
    ensures
        offered(table).len() == tool_table().len(),
        entries(offered(table))[i] == entry_tree(offered(table)[i]),
        offered(table)[i].name@ == tool_table()[i].name,
        offered(table)[i].name@ != "run_codex"@,
{
    lemma_metadata_name(table, tool_table()[i].name);
    law_codex_is_not_offered();
}

proof fn lemma_metadata_name(table: Seq<ToolMetadata>, name: Seq<char>)
    requires
        metadata_of(table, name) is Some,
    ensures
        metadata_of(table, name)->0.name@ == name,
    decreases table.len(),
{
    if table[0].name@ != name {
        lemma_metadata_name(table.skip(1), name);
    }
}

/// Every name that is picked is among the names.
proof fn lemma_picked_only(set: Seq<Seq<char>>, names: Seq<Seq<char>>, name: Seq<char>)
    requires
        picked(set, names).contains(name),
    ensures
        names.contains(name),
    decreases set.len(),
{
    let front = picked(set.drop_last(), names);
    if set.len() > 0 {
        let at = choose|m: int| 0 <= m < picked(set, names).len() && picked(set, names)[m] == name;
        if names.contains(set.last()) && at == front.len() {
        } else {
            assert(front[at] == name);
            lemma_picked_only(set.drop_last(), names, name);
        }
    }
}

/// Only names that are offered stand in the categories.
pub proof fn law_only_offered_tools_are_grouped(names: Seq<Seq<char>>, name: Seq<char>)
    requires
        grouped(tool_groups(names), name),
    ensures
        names.contains(name),
{
    let groups = tool_groups(names)->Object_0;
    let g = choose|g: int| 0 <= g < groups.len() && #[trigger] names_group(groups[g].value, name);
    let set = group_at(g);
    assert(groups.len() == 11);
    assert(groups[g].value == text_trees(picked(set, names)));
    let list = picked(set, names);
    let trees = text_trees(list)->Array_0;
    let at = choose|m: int| 0 <= m < trees.len() && trees[m] == Tree::Text(name);
    assert(trees[at] == Tree::Text(list[at]));
    assert(list[at] == name);
    lemma_picked_only(set, names, name);
}

/// The tools of a category by its place.
spec fn group_at(g: int) -> Seq<Seq<char>> {
    if g == 0 {
        inspect_tools()
    } else if g == 1 {
        projects_tools()
    } else if g == 2 {
        git_tools()
    } else if g == 3 {
        review_tools()
    } else if g == 4 {
        validation_tools()
    } else if g == 5 {
        patch_tools()
    } else if g == 6 {
        edit_tools()
    } else if g == 7 {
        shell_tools()
    } else if g == 8 {
        jobs_tools()
    } else if g == 9 {
        runtime_tools()
    } else {
        cleanup_tools()
    }
}

/// A name stands in one of the categories.
pub open spec fn grouped(groups: Tree, name: Seq<char>) -> bool {
    exists|g: int|
        0 <= g < groups->Object_0.len() && #[trigger] names_group(
            groups->Object_0[g].value,
            name,
        )
}

/// A name stands in a category.
pub open spec fn names_group(group: Tree, name: Seq<char>) -> bool {
    group is Array && group->Array_0.contains(Tree::Text(name))
}

proof fn lemma_picked(set: Seq<Seq<char>>, names: Seq<Seq<char>>, k: int)
    requires
        0 <= k < set.len(),
        names.contains(set[k]),
    ensures
        picked(set, names).contains(set[k]),
    decreases set.len(),
{
    if k == set.len() - 1 {
        let front = picked(set.drop_last(), names);
        assert(front.push(set.last())[front.len() as int] == set[k]);
    } else {
        lemma_picked(set.drop_last(), names, k);
        let front = picked(set.drop_last(), names);
        let at = choose|m: int| 0 <= m < front.len() && front[m] == set[k];
        assert(front.push(set.last())[at] == set[k]);
    }
}

proof fn lemma_grouped(g: int, set: Seq<Seq<char>>, names: Seq<Seq<char>>, k: int)
    requires
        0 <= g < tool_groups(names)->Object_0.len(),
        tool_groups(names)->Object_0[g].value == text_trees(picked(set, names)),
        0 <= k < set.len(),
        names.contains(set[k]),
    ensures
        grouped(tool_groups(names), set[k]),
{
    lemma_picked(set, names, k);
    let list = picked(set, names);
    let at = choose|m: int| 0 <= m < list.len() && list[m] == set[k];
    assert(text_trees(list)->Array_0[at] == Tree::Text(set[k]));
    assert(names_group(tool_groups(names)->Object_0[g].value, set[k]));
}

/// Every tool that is offered stands in a category.
pub proof fn law_every_tool_is_grouped(i: int)
    requires
        0 <= i < tool_table().len(),
    ensures
        grouped(tool_groups(names_of(tool_table())), tool_table()[i].name),
{
    let names = names_of(tool_table());
    assert(names[i] == tool_table()[i].name);
    assert(tool_table().len() == 42);
    if i == 0 {
        lemma_grouped(0, inspect_tools(), names, 0);
    } else if i == 1 {
        lemma_grouped(9, runtime_tools(), names, 1);
    } else if i == 2 {
        lemma_grouped(9, runtime_tools(), names, 2);
    } else if i == 3 {
        lemma_grouped(0, inspect_tools(), names, 1);
    } else if i == 4 {
        lemma_grouped(1, projects_tools(), names, 1);
    } else if i == 5 {
        lemma_grouped(1, projects_tools(), names, 2);
    } else if i == 6 {
        lemma_grouped(0, inspect_tools(), names, 2);
    } else if i == 7 {
        lemma_grouped(0, inspect_tools(), names, 3);
    } else if i == 8 {
        lemma_grouped(7, shell_tools(), names, 0);
    } else if i == 9 {
        lemma_grouped(7, shell_tools(), names, 1);
    } else if i == 10 {
        lemma_grouped(8, jobs_tools(), names, 1);
    } else if i == 11 {
        lemma_grouped(8, jobs_tools(), names, 2);
    } else if i == 12 {
        lemma_grouped(0, inspect_tools(), names, 5);
    } else if i == 13 {
        lemma_grouped(0, inspect_tools(), names, 6);
    } else if i == 14 {
        lemma_grouped(0, inspect_tools(), names, 9);
    } else if i == 15 {
        lemma_grouped(0, inspect_tools(), names, 11);
    } else if i == 16 {
        lemma_grouped(8, jobs_tools(), names, 3);
    } else if i == 17 {
        lemma_grouped(8, jobs_tools(), names, 4);
    } else if i == 18 {
        lemma_grouped(0, inspect_tools(), names, 4);
    } else if i == 19 {
        lemma_grouped(0, inspect_tools(), names, 7);
    } else if i == 20 {
        lemma_grouped(0, inspect_tools(), names, 8);
    } else if i == 21 {
        lemma_grouped(0, inspect_tools(), names, 10);
    } else if i == 22 {
        lemma_grouped(4, validation_tools(), names, 0);
    } else if i == 23 {
        lemma_grouped(4, validation_tools(), names, 1);
    } else if i == 24 {
        lemma_grouped(4, validation_tools(), names, 2);
    } else if i == 25 {
        lemma_grouped(5, patch_tools(), names, 0);
    } else if i == 26 {
        lemma_grouped(5, patch_tools(), names, 1);
    } else if i == 27 {
        lemma_grouped(10, cleanup_tools(), names, 0);
    } else if i == 28 {
        lemma_grouped(2, git_tools(), names, 5);
    } else if i == 29 {
        lemma_grouped(2, git_tools(), names, 6);
    } else if i == 30 {
        lemma_grouped(4, validation_tools(), names, 3);
    } else if i == 31 {
        lemma_grouped(6, edit_tools(), names, 0);
    } else if i == 32 {
        lemma_grouped(6, edit_tools(), names, 1);
    } else if i == 33 {
        lemma_grouped(6, edit_tools(), names, 2);
    } else if i == 34 {
        lemma_grouped(6, edit_tools(), names, 3);
    } else if i == 35 {
        lemma_grouped(6, edit_tools(), names, 4);
    } else if i == 36 {
        lemma_grouped(6, edit_tools(), names, 5);
    } else if i == 37 {
        lemma_grouped(6, edit_tools(), names, 6);
    } else if i == 38 {
        lemma_grouped(6, edit_tools(), names, 7);
    } else if i == 39 {
        lemma_grouped(6, edit_tools(), names, 8);
    } else if i == 40 {
        lemma_grouped(6, edit_tools(), names, 9);
    } else if i == 41 {
        lemma_grouped(6, edit_tools(), names, 10);
    }
}

} // verus!
