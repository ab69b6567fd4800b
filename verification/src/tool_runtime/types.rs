//! What tools hand back.
use crate::json::{null, Json, Tree};
use crate::text::{opt_clone, opt_text};
use vstd::prelude::*;

verus! {

/// The result of a tool call.
#[derive(Debug, PartialEq, Eq)]
pub struct ToolResult {
    pub success: bool,
    pub output: Json,
    pub error: Option<String>,
}

/// The mathematical value of a [`ToolResult`].
#[verifier::ext_equal]
pub struct ToolModel {
    pub success: bool,
    pub output: Tree,
    pub error: Option<Seq<char>>,
}

impl View for ToolResult {
    type V = ToolModel;

    open spec fn view(&self) -> ToolModel {
        ToolModel { success: self.success, output: self.output@, error: opt_text(self.error) }
    }
}

/// A success with its output.
pub open spec fn tool_ok(output: Tree) -> ToolModel {
    ToolModel { success: true, output, error: None }
}

/// A failure with a complaint and nothing else.
pub open spec fn tool_err(error: Seq<char>) -> ToolModel {
    ToolModel { success: false, output: Tree::Null, error: Some(error) }
}

/// A failure with a complaint and an output.
pub open spec fn tool_failed(output: Tree, error: Seq<char>) -> ToolModel {
    ToolModel { success: false, output, error: Some(error) }
}

impl ToolResult {
    /// A success with its output.
    pub fn ok(output: Json) -> (r: Self)
        ensures
            r@ == tool_ok(output@),
    {
        ToolResult { success: true, output, error: None }
    }

    /// A failure with a complaint and nothing else.
    pub fn err(error: &str) -> (r: Self)
        ensures
            r@ == tool_err(error@),
    {
        ToolResult { success: false, output: null(), error: Some(error.to_owned()) }
    }

    /// A failure with a complaint and an output.
    pub fn failed(output: Json, error: &str) -> (r: Self)
        ensures
            r@ == tool_failed(output@, error@),
    {
        ToolResult { success: false, output, error: Some(error.to_owned()) }
    }

    /// A copy with the same value.
    pub fn copy(&self) -> (r: Self)
        ensures
            r@ == self@,
    {
        ToolResult {
            success: self.success,
            output: self.output.copy(),
            error: opt_clone(&self.error),
        }
    }
}

/// What a command left behind.
#[derive(Debug)]
pub struct CommandOutput {
    pub exit_code: Option<i32>,
    pub stdout: String,
    pub stderr: String,
}

} // verus!
