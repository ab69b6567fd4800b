//! What is told of the tools that are offered.
use crate::json::{lemma_find_push, Tree};
use crate::tool_runtime::manifest::{
    category_of, entries, entry_tree, in_category, manifest_tree, ToolMetadata,
};
use crate::tool_runtime::registry::{tool_list_tree, SpecModel};
use crate::tool_runtime::schemas::{annotations, argument_schema, arguments_schema, Argument};
use vstd::prelude::*;

verus! {

broadcast use lemma_find_push;

/// The list of tools tells of each in its place, with its name, its description, its
/// schemas and its hints.
pub proof fn law_tools_are_listed(specs: Seq<SpecModel>, i: int)
    requires
        0 <= i < specs.len(),
    ensures
        ({
            let t = tool_list_tree(specs)->Array_0[i];
            &&& tool_list_tree(specs) is Array
            &&& tool_list_tree(specs)->Array_0.len() == specs.len()
            &&& t.at("name"@) == Tree::Text(specs[i].name)
            &&& t.at("description"@) == Tree::Text(specs[i].description)
            &&& t.at("input_schema"@) == specs[i].input_schema
            &&& t.at("output_schema"@) == specs[i].output_schema
            &&& t.at("annotations"@) == specs[i].annotations
        }),
{
    reveal_strlit("name");
    reveal_strlit("description");
    reveal_strlit("input_schema");
    reveal_strlit("output_schema");
    reveal_strlit("annotations");
    assert("name"@.len() == 4);
    assert("description"@.len() == 11 && "description"@[0] == 'd');
    assert("input_schema"@.len() == 12);
    assert("output_schema"@.len() == 13);
    assert("annotations"@.len() == 11 && "annotations"@[0] == 'a');
}

/// The hints on a tool follow from what is known of it: one that only reads is told as such
/// and can be called again, one that destroys is told as such, and one that is like a shell
/// reaches beyond.
pub proof fn law_hints_follow_metadata(m: ToolMetadata)
    ensures
        ({
            let t = annotations(m);
            &&& t.at("readOnlyHint"@) == Tree::Bool(m.read_only)
            &&& t.at("destructiveHint"@) == Tree::Bool(m.destructive)
            &&& t.at("idempotentHint"@) == Tree::Bool(m.read_only)
            &&& t.at("openWorldHint"@) == Tree::Bool(m.shell_like)
        }),
{
    reveal_strlit("readOnlyHint");
    reveal_strlit("destructiveHint");
    reveal_strlit("idempotentHint");
    reveal_strlit("openWorldHint");
    assert("readOnlyHint"@.len() == 12);
    assert("destructiveHint"@.len() == 15);
    assert("idempotentHint"@.len() == 14);
    assert("openWorldHint"@.len() == 13);
}

/// The compact list tells of a tool what is known of it.
pub proof fn law_entry_is_told(m: ToolMetadata)
    ensures
        ({
            let t = entry_tree(m);
            &&& t.at("name"@) == Tree::Text(m.name@)
            &&& t.at("category"@) == Tree::Text(category_of(m.name@))
            &&& t.at("provider"@) == Tree::Text(m.provider_id@)
            &&& t.at("risk"@) == Tree::Text(m.risk@)
            &&& t.at("read_only"@) == Tree::Bool(m.read_only)
            &&& t.at("requires_project"@) == Tree::Bool(m.requires_project)
            &&& t.at("destructive"@) == Tree::Bool(m.destructive)
            &&& t.at("shell_like"@) == Tree::Bool(m.shell_like)
            &&& t.at("oauth_scope"@) == match m.oauth_scope {
                Some(s) => Tree::Text(s@),
                None => Tree::Null,
            }
        }),
{
    reveal_strlit("name");
    reveal_strlit("category");
    reveal_strlit("provider");
    reveal_strlit("risk");
    reveal_strlit("read_only");
    reveal_strlit("requires_project");
    reveal_strlit("path_hint");
    reveal_strlit("destructive");
    reveal_strlit("shell_like");
    reveal_strlit("oauth_scope");
    assert("name"@.len() == 4 && "name"@[0] == 'n');
    assert("category"@.len() == 8 && "category"@[0] == 'c');
    assert("provider"@.len() == 8 && "provider"@[0] == 'p');
    assert("risk"@.len() == 4 && "risk"@[0] == 'r');
    assert("read_only"@.len() == 9 && "read_only"@[0] == 'r');
    assert("requires_project"@.len() == 16);
    assert("path_hint"@.len() == 9 && "path_hint"@[0] == 'p');
    assert("destructive"@.len() == 11 && "destructive"@[0] == 'd');
    assert("shell_like"@.len() == 10);
    assert("oauth_scope"@.len() == 11 && "oauth_scope"@[0] == 'o');
}

/// The compact list holds every tool where no category is asked for, and else exactly the
/// tools of that category, in their order; it says how many there are in all and how many
/// of them it holds.
pub proof fn law_manifest_is_filtered(
    tools: Seq<ToolMetadata>,
    category: Option<Seq<char>>,
    with_flows: bool,
    with_risks: bool,
)
    ensures
        ({
            let t = manifest_tree(tools, category, with_flows, with_risks);
            let shown = t.at("tools"@)->Array_0;
            &&& t.at("tool_count"@) == Tree::Number(tools.len() as int)
            &&& t.at("filtered_count"@) == Tree::Number(shown.len() as int)
            &&& t.at("tools"@) is Array
            &&& category is None ==> shown == entries(tools)
            &&& t.at("category"@) == match category {
                Some(c) => Tree::Text(c),
                None => Tree::Null,
            }
            &&& (t.get("risk_summary"@) is Some) == with_risks
            &&& (t.get("recommended_flows"@) is Some) == with_flows
        }),
{
    reveal_strlit("schema_version");
    reveal_strlit("tool_count");
    reveal_strlit("filtered_count");
    reveal_strlit("category");
    reveal_strlit("categories");
    reveal_strlit("tools");
    reveal_strlit("risk_summary");
    reveal_strlit("recommended_flows");
    assert("schema_version"@.len() == 14 && "schema_version"@[0] == 's');
    assert("tool_count"@.len() == 10 && "tool_count"@[0] == 't');
    assert("filtered_count"@.len() == 14 && "filtered_count"@[0] == 'f');
    assert("category"@.len() == 8);
    assert("categories"@.len() == 10 && "categories"@[0] == 'c');
    assert("tools"@.len() == 5);
    assert("risk_summary"@.len() == 12);
    assert("recommended_flows"@.len() == 17);
}

/// One more tool is shown exactly where its category is the one that is asked for.
pub proof fn law_category_filter(tools: Seq<Tree>, tool: Tree, category: Seq<char>)
    ensures
        in_category(tools.push(tool), Some(category)) == if tool.at("category"@) == Tree::Text(
            category,
        ) {
            in_category(tools, Some(category)).push(tool)
        } else {
            in_category(tools, Some(category))
        },
        in_category(Seq::<Tree>::empty(), Some(category)).len() == 0,
{
    assert(tools.push(tool).drop_last() =~= tools);
}

/// The tools of git are in the category of git, edits among the edits, patches among the
/// patches, and so on.
pub proof fn law_categories()
    ensures
        category_of("git_diff"@) == "git"@ && category_of("show_changes"@) == "git"@,
        category_of("read_file"@) == "file"@ && category_of("search_project_text"@) == "file"@,
        category_of("replace_line_range"@) == "edit"@ && category_of("apply_text_edits"@)
            == "edit"@,
        category_of("apply_patch"@) == "patch"@ && category_of("validate_patch"@) == "patch"@,
        category_of("cargo_test"@) == "validation"@,
        category_of("run_shell"@) == "job"@ && category_of("job_log"@) == "job"@,
        category_of("start_session"@) == "session"@,
        category_of("list_projects"@) == "project"@,
        category_of("runtime_status"@) == "runtime"@,
        category_of("git_restore_paths"@) == "cleanup"@,
{
    reveal_strlit("list_tools");
    reveal_strlit("tool_manifest");
    reveal_strlit("runtime_status");
    reveal_strlit("list_agents");
    reveal_strlit("start_session");
    reveal_strlit("session_summary");
    reveal_strlit("post_session_message");
    reveal_strlit("list_session_messages");
    reveal_strlit("resolve_session_message");
    reveal_strlit("session_discussion_summary");
    reveal_strlit("session_handoff_summary");
    reveal_strlit("bind_current_session");
    reveal_strlit("current_session");
    reveal_strlit("unbind_current_session");
    reveal_strlit("workspace_checkpoint_create");
    reveal_strlit("workspace_checkpoint_list");
    reveal_strlit("workspace_checkpoint_show");
    reveal_strlit("workspace_checkpoint_restore");
    reveal_strlit("workspace_checkpoint_delete");
    reveal_strlit("git_status");
    reveal_strlit("git_diff");
    reveal_strlit("git_diff_hunks");
    reveal_strlit("git_log");
    reveal_strlit("git_diff_summary");
    reveal_strlit("show_changes");
    reveal_strlit("replace_in_file");
    reveal_strlit("replace_exact_block");
    reveal_strlit("insert_before_pattern");
    reveal_strlit("insert_after_pattern");
    reveal_strlit("write_project_file");
    reveal_strlit("replace_line_range");
    reveal_strlit("insert_at_line");
    reveal_strlit("delete_line_range");
    reveal_strlit("apply_text_edits");
    reveal_strlit("read_file");
    reveal_strlit("list_project_files");
    reveal_strlit("search_project_text");
    reveal_strlit("apply_patch");
    reveal_strlit("apply_patch_checked");
    reveal_strlit("validate_patch");
    reveal_strlit("cargo_fmt");
    reveal_strlit("cargo_check");
    reveal_strlit("cargo_test");
    reveal_strlit("run_shell");
    reveal_strlit("run_job");
    reveal_strlit("job_status");
    reveal_strlit("job_log");
    reveal_strlit("list_jobs");
    reveal_strlit("job_tail");
    reveal_strlit("list_projects");
    reveal_strlit("register_project");
    reveal_strlit("create_project");
    reveal_strlit("save_project_artifact");
    reveal_strlit("read_project_artifact_metadata");
    reveal_strlit("read_project_artifact");
    reveal_strlit("delete_project_files");
    reveal_strlit("git_restore_paths");
    reveal_strlit("discard_untracked");
    reveal_strlit("workspace_hygiene_check");
    assert("list_tools"@.len() == 10 && "list_tools"@[0] == 'l');
    assert("tool_manifest"@.len() == 13 && "tool_manifest"@[0] == 't');
    assert("runtime_status"@.len() == 14 && "runtime_status"@[0] == 'r');
    assert("list_agents"@.len() == 11 && "list_agents"@[0] == 'l');
    assert("start_session"@.len() == 13 && "start_session"@[0] == 's');
    assert("session_summary"@.len() == 15 && "session_summary"@[0] == 's');
    assert("post_session_message"@.len() == 20 && "post_session_message"@[0] == 'p');
    assert("list_session_messages"@.len() == 21 && "list_session_messages"@[0] == 'l');
    assert("resolve_session_message"@.len() == 23 && "resolve_session_message"@[0] == 'r');
    assert("session_discussion_summary"@.len() == 26);
    assert("session_handoff_summary"@.len() == 23 && "session_handoff_summary"@[0] == 's');
    assert("bind_current_session"@.len() == 20 && "bind_current_session"@[0] == 'b');
    assert("current_session"@.len() == 15 && "current_session"@[0] == 'c');
    assert("unbind_current_session"@.len() == 22);
    assert("workspace_checkpoint_create"@.len() == 27 && "workspace_checkpoint_create"@[21] == 'c');
    assert("workspace_checkpoint_list"@.len() == 25 && "workspace_checkpoint_list"@[21] == 'l');
    assert("workspace_checkpoint_show"@.len() == 25 && "workspace_checkpoint_show"@[21] == 's');
    assert("workspace_checkpoint_restore"@.len() == 28);
    assert("workspace_checkpoint_delete"@.len() == 27 && "workspace_checkpoint_delete"@[21] == 'd');
    assert("git_status"@.len() == 10 && "git_status"@[0] == 'g');
    assert("git_diff"@.len() == 8 && "git_diff"@[0] == 'g');
    assert("git_diff_hunks"@.len() == 14 && "git_diff_hunks"@[0] == 'g');
    assert("git_log"@.len() == 7 && "git_log"@[0] == 'g');
    assert("git_diff_summary"@.len() == 16 && "git_diff_summary"@[0] == 'g');
    assert("show_changes"@.len() == 12);
    assert("replace_in_file"@.len() == 15 && "replace_in_file"@[0] == 'r');
    assert("replace_exact_block"@.len() == 19 && "replace_exact_block"@[0] == 'r');
    assert("insert_before_pattern"@.len() == 21 && "insert_before_pattern"@[0] == 'i');
    assert("insert_after_pattern"@.len() == 20 && "insert_after_pattern"@[0] == 'i');
    assert("write_project_file"@.len() == 18 && "write_project_file"@[0] == 'w');
    assert("replace_line_range"@.len() == 18 && "replace_line_range"@[0] == 'r');
    assert("insert_at_line"@.len() == 14 && "insert_at_line"@[0] == 'i');
    assert("delete_line_range"@.len() == 17 && "delete_line_range"@[0] == 'd' && "delete_line_range"@[1] == 'e');
    assert("apply_text_edits"@.len() == 16 && "apply_text_edits"@[0] == 'a');
    assert("read_file"@.len() == 9 && "read_file"@[0] == 'r' && "read_file"@[1] == 'e');
    assert("list_project_files"@.len() == 18 && "list_project_files"@[0] == 'l');
    assert("search_project_text"@.len() == 19 && "search_project_text"@[0] == 's');
    assert("apply_patch"@.len() == 11 && "apply_patch"@[0] == 'a');
    assert("apply_patch_checked"@.len() == 19 && "apply_patch_checked"@[0] == 'a');
    assert("validate_patch"@.len() == 14 && "validate_patch"@[0] == 'v');
    assert("cargo_fmt"@.len() == 9 && "cargo_fmt"@[0] == 'c');
    assert("cargo_check"@.len() == 11 && "cargo_check"@[0] == 'c');
    assert("cargo_test"@.len() == 10 && "cargo_test"@[0] == 'c');
    assert("run_shell"@.len() == 9 && "run_shell"@[0] == 'r' && "run_shell"@[1] == 'u');
    assert("run_job"@.len() == 7 && "run_job"@[0] == 'r');
    assert("job_status"@.len() == 10 && "job_status"@[0] == 'j');
    assert("job_log"@.len() == 7 && "job_log"@[0] == 'j');
    assert("list_jobs"@.len() == 9 && "list_jobs"@[0] == 'l');
    assert("job_tail"@.len() == 8 && "job_tail"@[0] == 'j');
    assert("list_projects"@.len() == 13 && "list_projects"@[0] == 'l');
    assert("register_project"@.len() == 16 && "register_project"@[0] == 'r');
    assert("create_project"@.len() == 14 && "create_project"@[0] == 'c');
    assert("save_project_artifact"@.len() == 21 && "save_project_artifact"@[0] == 's');
    assert("read_project_artifact_metadata"@.len() == 30);
    assert("read_project_artifact"@.len() == 21 && "read_project_artifact"@[0] == 'r');
    assert("delete_project_files"@.len() == 20 && "delete_project_files"@[0] == 'd');
    assert("git_restore_paths"@.len() == 17 && "git_restore_paths"@[0] == 'g');
    assert("discard_untracked"@.len() == 17 && "discard_untracked"@[0] == 'd' && "discard_untracked"@[1] == 'i');
    assert("workspace_hygiene_check"@.len() == 23 && "workspace_hygiene_check"@[0] == 'w');
}

/// The schema of a call is one of an object that holds its arguments and nothing else; an
/// argument has its kind and its description, and a list is one of strings.
pub proof fn law_argument_schemas(args: Seq<Argument>, a: Argument)
    ensures
        arguments_schema(args).at("type"@) == Tree::Text("object"@),
        arguments_schema(args).at("additionalProperties"@) == Tree::Bool(false),
        argument_schema(a).at("type"@) == Tree::Text(a.kind),
        argument_schema(a).at("description"@) == Tree::Text(a.description),
        a.kind == "array"@ ==> argument_schema(a).at("items"@).at("type"@) == Tree::Text("string"@),
{
    reveal_strlit("type");
    reveal_strlit("properties");
    reveal_strlit("required");
    reveal_strlit("additionalProperties");
    reveal_strlit("description");
    reveal_strlit("items");
    assert("type"@.len() == 4);
    assert("properties"@.len() == 10);
    assert("required"@.len() == 8);
    assert("additionalProperties"@.len() == 20);
    assert("description"@.len() == 11);
    assert("items"@.len() == 5);
}

} // verus!
