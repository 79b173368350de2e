//! What a tool call gives back.
use vstd::prelude::*;
use vstd::string::*;

verus! {

/// Why a tool call failed.
#[derive(Debug)]
pub enum ExecutionError {
    ArgsSchema { message: String },
    ExecFail { message: String },
    UserAbort,
}

pub enum ExecutionErrorView {
    ArgsSchema(Seq<char>),
    ExecFail(Seq<char>),
    UserAbort,
}

impl View for ExecutionError {
    type V = ExecutionErrorView;

    open spec fn view(&self) -> ExecutionErrorView {
        match self {
            ExecutionError::ArgsSchema { message } => ExecutionErrorView::ArgsSchema(message@),
            ExecutionError::ExecFail { message } => ExecutionErrorView::ExecFail(message@),
            ExecutionError::UserAbort => ExecutionErrorView::UserAbort,
        }
    }
}

impl ExecutionError {
    /// The arguments did not match the tool's schema.
    pub fn args_schema(msg: String) -> (r: Self)
        ensures
            r@ == ExecutionErrorView::ArgsSchema(msg@),
    {
        Self::ArgsSchema { message: msg }
    }

    /// The tool ran and failed.
    pub fn exec_fail(msg: String) -> (r: Self)
        ensures
            r@ == ExecutionErrorView::ExecFail(msg@),
    {
        Self::ExecFail { message: msg }
    }

    /// The user stopped the call.
    pub fn user_abort() -> (r: Self)
        ensures
            r@ == ExecutionErrorView::UserAbort,
    {
        Self::UserAbort
    }
}

pub type ExecutionResult = Result<String, ExecutionError>;

/// The output of a tool call, with the id of the call it answers.
#[derive(Debug)]
pub struct CallOutput {
    pub call_id: String,
    pub content: String,
}

impl CallOutput {
    pub fn new(call_id: String, content: String) -> (r: Self)
        ensures
            r.call_id == call_id,
            r.content == content,
    {
        Self { call_id, content }
    }
}

pub type CallResult = Result<CallOutput, ExecutionError>;

/// The error for tool arguments that are not JSON, with the parser's reason.
pub open spec fn invalid_json_error(reason: Seq<char>) -> ExecutionErrorView {
    ExecutionErrorView::ArgsSchema("Invalid JSON args: "@ + reason)
}

/// The error for a required argument that is missing (or not of its type).
pub open spec fn missing_field_error(name: Seq<char>) -> ExecutionErrorView {
    ExecutionErrorView::ArgsSchema("Missing required field '"@ + name + "'"@)
}

pub fn invalid_json(reason: &str) -> (r: ExecutionError)
    ensures
        r@ == invalid_json_error(reason@),
{
    let mut m = "Invalid JSON args: ".to_owned();
    m.append(reason);
    ExecutionError::args_schema(m)
}

pub fn missing_field(name: &str) -> (r: ExecutionError)
    ensures
        r@ == missing_field_error(name@),
{
    let mut m = "Missing required field '".to_owned();
    m.append(name);
    m.append("'");
    ExecutionError::args_schema(m)
}

} // verus!
