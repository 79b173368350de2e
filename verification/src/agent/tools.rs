//! The command-line tool of the earliest agent, and how its calls are
//! dispatched.
use vstd::prelude::*;

use crate::resolver::action::str_equals;
use crate::resolver::tool::IToolCall;

pub mod local;

verus! {

/// The output of a dispatched call, with the id of the call it answers.
#[derive(Debug)]
pub struct ToolOutput {
    pub id: String,
    pub content: String,
}

/// Why a dispatched call failed.
#[derive(Debug)]
pub enum ToolError {
    Fail(String),
    UserAbort,
}

pub enum ToolErrorView {
    Fail(Seq<char>),
    UserAbort,
}

impl View for ToolError {
    type V = ToolErrorView;

    open spec fn view(&self) -> ToolErrorView {
        match self {
            ToolError::Fail(m) => ToolErrorView::Fail(m@),
            ToolError::UserAbort => ToolErrorView::UserAbort,
        }
    }
}

pub type ToolResult = Result<String, ToolError>;

pub type DispatchResult = Result<ToolOutput, ToolError>;

/// The error for a call of a tool that does not exist.
pub open spec fn unknown_tool_error(name: Seq<char>) -> ToolErrorView {
    ToolErrorView::Fail("Unknown tool: "@ + name)
}

pub fn unknown_tool(name: &str) -> (r: ToolError)
    ensures
        r@ == unknown_tool_error(name@),
{
    let mut m = "Unknown tool: ".to_owned();
    m.append(name);
    ToolError::Fail(m)
}

/// Whether a call goes to the command-line tool; every other call is
/// answered with [`unknown_tool_error`].
pub fn dispatches_to_command_line<C: IToolCall>(call: &C) -> (r: bool)
    ensures
        r == (call.name_view() == local::command_line_name()),
{
    str_equals(call.name(), local::COMMAND_LINE_TOOL)
}

/// The output of a call answered with `content`.
pub fn call_output<C: IToolCall>(call: &C, content: String) -> (r: ToolOutput)
    ensures
        r.id@ == call.id_view(),
        r.content == content,
{
    ToolOutput { id: call.id().to_owned(), content }
}

} // verus!
