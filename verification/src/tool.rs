//! What a tool is told of its surroundings, and what it answers.

use vstd::prelude::*;
use vstd::string::*;

verus! {

/// What a tool asks leave for.
#[derive(Debug, Clone, Copy, PartialEq, Eq, Structural)]
pub enum PermissionLevel {
    ReadOnly,
    Write,
}

/// The surroundings of one call of a tool, as far as teams depend on them.
#[derive(Debug)]
pub struct ToolContext {
    pub session_id: String,
    /// How many teams the caller is nested in.
    pub team_depth: u32,
}

/// What a tool answers.
#[derive(Debug)]
pub struct ToolResult {
    pub content: String,
    pub is_error: bool,
}

/// The model of a [`ToolContext`].
#[verifier::ext_equal]
pub struct ToolContextModel {
    pub session_id: Seq<char>,
    pub team_depth: u32,
}

/// The model of a [`ToolResult`].
#[verifier::ext_equal]
pub struct ToolResultModel {
    pub content: Seq<char>,
    pub is_error: bool,
}

impl View for ToolContext {
    type V = ToolContextModel;

    open spec fn view(&self) -> ToolContextModel {
        ToolContextModel { session_id: self.session_id@, team_depth: self.team_depth }
    }
}

impl View for ToolResult {
    type V = ToolResultModel;

    open spec fn view(&self) -> ToolResultModel {
        ToolResultModel { content: self.content@, is_error: self.is_error }
    }
}

/// The answer of a call that did what it was asked for.
pub open spec fn success_reply(content: Seq<char>) -> ToolResultModel {
    ToolResultModel { content, is_error: false }
}

/// The answer of a call that failed or was refused.
pub open spec fn error_reply(content: Seq<char>) -> ToolResultModel {
    ToolResultModel { content, is_error: true }
}

impl ToolResult {
    /// The answer of a call that did what it was asked for.
    pub fn success(content: String) -> (reply: ToolResult)
        ensures
            reply@ == success_reply(content@),
    {
        ToolResult { content, is_error: false }
    }

    /// The answer of a call that failed or was refused.
    pub fn error(content: String) -> (reply: ToolResult)
        ensures
            reply@ == error_reply(content@),
    {
        ToolResult { content, is_error: true }
    }

    /// The failure that a fixed text describes, followed by what the cause says of itself.
    pub fn failure(what: &str, cause: &str) -> (reply: ToolResult)
        ensures
            reply@ == error_reply(what@ + cause@),
    {
        ToolResult::error(what.to_owned().concat(cause))
    }

    /// The refusal of an input that is not what a tool takes.
    pub fn invalid_input(cause: &str) -> (reply: ToolResult)
        ensures
            reply@ == error_reply("Invalid input: "@ + cause@),
    {
        ToolResult::failure("Invalid input: ", cause)
    }
}

} // verus!
