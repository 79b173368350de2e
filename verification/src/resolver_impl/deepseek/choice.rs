//! A completion choice, as plain values read from the response body, and
//! the action it stands for.
use vstd::prelude::*;
use vstd::string::*;

use crate::resolver::action::{Action, ReasonView, reason_from_finish, reason_of_finish};
use crate::resolver_impl::deepseek::data_object::{
    DeepSeekToolCall, ToolCallFunction, ToolCallView, opt_view,
};

verus! {

/// A tool call as the response lists it; a field that is missing or not a
/// string is `None`.
pub struct RawToolCall {
    pub id: Option<String>,
    pub name: Option<String>,
    pub arguments: Option<String>,
}

/// The fields of the first choice that an action is built from; a field
/// that is missing or of another JSON type is `None`.
pub struct Choice {
    pub finish_reason: Option<String>,
    pub content: Option<String>,
    pub refusal: Option<String>,
    pub tool_calls: Option<Vec<RawToolCall>>,
}

pub open spec fn or_default(s: Option<String>, d: Seq<char>) -> Seq<char> {
    match s {
        Some(x) => x@,
        None => d,
    }
}

/// The tool call a listed call stands for: a missing id or name is empty,
/// missing arguments are `{}`, and the type is `function`.
pub open spec fn raw_call_view(c: RawToolCall) -> ToolCallView {
    ToolCallView {
        id: or_default(c.id, Seq::empty()),
        type_: "function"@,
        name: or_default(c.name, Seq::empty()),
        arguments: or_default(c.arguments, "{}"@),
    }
}

fn or_default_string(s: Option<String>, d: &str) -> (r: String)
    ensures
        r@ == or_default(s, d@),
{
    match s {
        Some(x) => x,
        None => d.to_owned(),
    }
}

fn build_tool_calls(raw: Vec<RawToolCall>) -> (r: Vec<DeepSeekToolCall>)
    ensures
        r@.len() == raw@.len(),
        forall|i: int| 0 <= i < r@.len() ==> #[trigger] r@[i]@ == raw_call_view(raw@[i]),
{
    let ghost orig = raw@;
    let mut rest = raw;
    let mut out: Vec<DeepSeekToolCall> = Vec::new();
    while rest.len() > 0
        invariant
            out@.len() + rest@.len() == orig.len(),
            rest@ == orig.skip(out@.len() as int),
            forall|i: int| 0 <= i < out@.len() ==> #[trigger] out@[i]@ == raw_call_view(orig[i]),
        decreases rest.len(),
    {
        let ghost k = out@.len() as int;
        let c = rest.remove(0);
        assert(orig.skip(k)[0] == orig[k]);
        assert(c == orig[k]);
        proof {
            reveal_strlit("");
            assert(""@ =~= Seq::<char>::empty());
        }
        let call = DeepSeekToolCall {
            id: or_default_string(c.id, ""),
            type_: "function".to_owned(),
            function: ToolCallFunction {
                name: or_default_string(c.name, ""),
                arguments: or_default_string(c.arguments, "{}"),
            },
        };
        assert(call@ == raw_call_view(orig[k]));
        out.push(call);
        assert(rest@ =~= orig.skip(out@.len() as int));
    }
    out
}

/// Builds the action of a choice: the reason from `finish_reason` (empty
/// when missing), the content and refusal as given, and each listed tool call
/// with its defaults filled in.
pub fn build_action(choice: Choice) -> (r: Action<DeepSeekToolCall>)
    ensures
        r.reason@ == reason_of_finish(or_default(choice.finish_reason, Seq::empty())),
        opt_view(r.content) == opt_view(choice.content),
        opt_view(r.refusal) == opt_view(choice.refusal),
        r.tool_calls is Some <==> choice.tool_calls is Some,
        r.tool_calls matches Some(calls) ==> calls@.len() == choice.tool_calls->0@.len() && (
        forall|i: int|
            0 <= i < calls@.len() ==> #[trigger] calls@[i]@ == raw_call_view(
                choice.tool_calls->0@[i],
            )),
{
    proof {
        reveal_strlit("");
        assert(""@ =~= Seq::<char>::empty());
    }
    let finish = or_default_string(choice.finish_reason, "");
    let reason = reason_from_finish(finish.as_str());
    let tool_calls = match choice.tool_calls {
        Some(raw) => Some(build_tool_calls(raw)),
        None => None,
    };
    Action { reason, content: choice.content, refusal: choice.refusal, tool_calls }
}

} // verus!
