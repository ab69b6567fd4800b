//! The tools that callers use: what they decide, what they read out of command
//! output and what they tell.
pub mod actions;
pub mod agent_laws;
pub mod agents;
pub mod authorization;
pub mod call_laws;
pub mod calls;
pub mod changes;
pub mod coding_task;
pub mod coding_task_results;
pub mod coding_task_schemas;
pub mod diff;
pub mod diff_laws;
pub mod dispatch;
pub mod dispatch_flow;
pub mod git;
pub mod git_laws;
pub mod git_tools;
pub mod handoff;
pub mod handoff_laws;
pub mod handoff_summary;
pub mod kernel;
pub mod kernel_flow;
pub mod listing_laws;
pub mod lookups;
pub mod manifest;
pub mod output_schemas;
pub mod project_commands;
pub mod project_resolution;
pub mod registry;
pub mod resolution_answers;
pub mod resolution_laws;
pub mod schemas;
pub mod session_context;
pub mod sessions;
pub mod shell_text;
pub mod startup_laws;
pub mod step_laws;
pub mod tool_table;
pub mod tool_work;
pub mod types;
pub mod verdict_laws;
pub mod warning_laws;
