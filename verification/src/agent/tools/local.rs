//! The command-line tool: runs one command in `/bin/sh`.
use vstd::prelude::*;
use vstd::string::*;

use crate::agent::tools::{ToolError, ToolErrorView};
use crate::json::{JsonValue, ParsedArgs, json_get, json_str, str_field};
use crate::resolver::tool::{
    ParamDef, PropDef, ToolDefination, lemma_set_distinct_properties, names_view,
    plain_string_prop, string_prop,
};

verus! {

/// The name of the command-line tool.
pub const COMMAND_LINE_TOOL: &'static str = "command_line";

pub open spec fn command_line_name() -> Seq<char> {
    "command_line"@
}

pub open spec fn command_line_description() -> Seq<char> {
    "Execute a command in the shell(/bin/sh) and return the output."@
}

/// The definition of the command-line tool: one required string, the
/// command.
pub open spec fn is_command_line_definition(d: ToolDefination) -> bool {
    &&& d.name@ == command_line_name()
    &&& d.description@ == command_line_description()
    &&& d.strict == Some(true)
    &&& d.parameters.type_@ == "object"@
    &&& d.parameters.props@.len() == 1
    &&& plain_string_prop(d.parameters.props@[0], "command"@, "The command to execute."@)
    &&& names_view(d.parameters.required) == Some(seq!["command"@])
    &&& d.parameters.additional_props is None
}

pub fn command_line_tool() -> (r: ToolDefination)
    ensures
        is_command_line_definition(r),
{
    let props = vec![("command", string_prop("The command to execute."))];
    let ghost pv = props@.map_values(|e: (&str, PropDef)| (e.0@, e.1));
    proof {
        lemma_set_distinct_properties(pv);
    }
    let params = ParamDef::new("object").with_properties(props).with_required(
        vec!["command".to_owned()],
    );
    proof {
        reveal_strlit("command_line");
    }
    let r = ToolDefination::new(
        COMMAND_LINE_TOOL,
        "Execute a command in the shell(/bin/sh) and return the output.",
        params,
    ).with_strict(true);
    assert(names_view(r.parameters.required) =~= Some(seq!["command"@]));
    r
}

/// The command a call runs: the `command` member of its JSON arguments,
/// or, when the arguments are not JSON or have no such string, the argument
/// text itself.
pub open spec fn command_of(args: Seq<char>, parsed: ParsedArgs) -> Seq<char> {
    match parsed {
        Ok(v) => match json_str(json_get(v, "command"@)) {
            Some(c) => c,
            None => args,
        },
        Err(_) => args,
    }
}

/// The command a call runs; `parsed` is `args` parsed as JSON.
pub fn command_text(args: &str, parsed: &ParsedArgs) -> (r: String)
    ensures
        r@ == command_of(args@, *parsed),
{
    match parsed {
        Ok(v) => match str_field(v, "command") {
            Some(c) => c.to_owned(),
            None => args.to_owned(),
        },
        Err(_) => args.to_owned(),
    }
}

/// The error for a command the shell could not be started for.
pub fn spawn_failed(reason: &str) -> (r: ToolError)
    ensures
        r@ == ToolErrorView::Fail("Failed to execute command: "@ + reason@),
{
    let mut m = "Failed to execute command: ".to_owned();
    m.append(reason);
    ToolError::Fail(m)
}

/// What a finished command answers: its standard output when it succeeded,
/// else an error with its exit status and standard error.
pub open spec fn command_outcome(success: bool, status: Seq<char>, stdout: Seq<char>, stderr: Seq<char>) -> Result<Seq<char>, ToolErrorView> {
    if success {
        Ok(stdout)
    } else {
        Err(ToolErrorView::Fail("Command failed with status "@ + status + ": "@ + stderr))
    }
}

pub fn command_result(success: bool, status: &str, stdout: String, stderr: &str) -> (r: Result<String, ToolError>)
    ensures
        match r {
            Ok(out) => command_outcome(success, status@, stdout@, stderr@) == Ok::<Seq<char>, ToolErrorView>(out@),
            Err(e) => command_outcome(success, status@, stdout@, stderr@) == Err::<Seq<char>, ToolErrorView>(e@),
        },
{
    if success {
        Ok(stdout)
    } else {
        let mut m = "Command failed with status ".to_owned();
        m.append(status);
        m.append(": ");
        m.append(stderr);
        Err(ToolError::Fail(m))
    }
}

} // verus!
