//! The body of a chat-completions request, and the choice read from a
//! response.
use vstd::prelude::*;
use vstd::string::*;

use crate::json::{JsonValue, json_array, json_get, json_str};
use crate::resolver::action::str_equals;
use crate::resolver::result::ResolveError;
use crate::resolver::schema::{is_tool_json, tool_json};
use crate::resolver::tool::ToolDefination;
use crate::resolver_impl::deepseek::choice::{Choice, RawToolCall};

verus! {

/// The body of a request: the model and the messages, and, when tools are
/// offered, each tool's JSON and an automatic tool choice.
pub open spec fn is_request_body(model: Seq<char>, messages: JsonValue, tools: Seq<ToolDefination>, v: JsonValue) -> bool {
    match v {
        JsonValue::Object(m) => {
            &&& m@.len() == if tools.len() == 0 {
                2int
            } else {
                4int
            }
            &&& m@[0].0@ == "model"@
            &&& json_str(Some(m@[0].1)) == Some(model)
            &&& m@[1].0@ == "messages"@
            &&& m@[1].1 == messages
            &&& tools.len() > 0 ==> {
                &&& m@[2].0@ == "tools"@
                &&& match m@[2].1 {
                    JsonValue::Array(a) => a@.len() == tools.len() && forall|i: int|
                        0 <= i < a@.len() ==> is_tool_json(tools[i], #[trigger] a@[i]),
                    _ => false,
                }
                &&& m@[3].0@ == "tool_choice"@
                &&& json_str(Some(m@[3].1)) == Some("auto"@)
            }
        },
        _ => false,
    }
}

/// The body of a request; see [`is_request_body`]. `messages` is the JSON
/// of the context's messages.
pub fn request_body(model: &str, messages: JsonValue, tools: &[ToolDefination]) -> (r: JsonValue)
    ensures
        is_request_body(model@, messages, tools@, r),
{
    proof {
        reveal_strlit("model");
        reveal_strlit("messages");
        reveal_strlit("tools");
        reveal_strlit("tool_choice");
        reveal_strlit("auto");
    }
    let ghost msgs = messages;
    let mut m: Vec<(String, JsonValue)> = Vec::new();
    m.push(("model".to_owned(), JsonValue::String(model.to_owned())));
    m.push(("messages".to_owned(), messages));
    if tools.len() > 0 {
        let mut a: Vec<JsonValue> = Vec::new();
        let mut i: usize = 0;
        while i < tools.len()
            invariant
                i <= tools@.len(),
                a@.len() == i,
                forall|k: int| 0 <= k < i ==> is_tool_json(tools@[k], #[trigger] a@[k]),
            decreases tools@.len() - i,
        {
            a.push(tool_json(&tools[i]));
            i = i + 1;
        }
        m.push(("tools".to_owned(), JsonValue::Array(a)));
        m.push(("tool_choice".to_owned(), JsonValue::String("auto".to_owned())));
    }
    JsonValue::Object(m)
}

/// `v[key]` of an optional value.
pub open spec fn get_in(v: Option<JsonValue>, key: Seq<char>) -> Option<JsonValue> {
    match v {
        Some(x) => json_get(x, key),
        None => None,
    }
}

fn get_in_exec<'a>(v: Option<&'a JsonValue>, key: &str) -> (r: Option<&'a JsonValue>)
    ensures
        match r {
            Some(x) => get_in(
                match v {
                    Some(y) => Some(*y),
                    None => None,
                },
                key@,
            ) == Some(*x),
            None => get_in(
                match v {
                    Some(y) => Some(*y),
                    None => None,
                },
                key@,
            ) is None,
        },
{
    match v {
        Some(x) => x.get(key),
        None => None,
    }
}

fn str_of(v: Option<&JsonValue>) -> (r: Option<String>)
    ensures
        match r {
            Some(s) => json_str(
                match v {
                    Some(y) => Some(*y),
                    None => None,
                },
            ) == Some(s@),
            None => json_str(
                match v {
                    Some(y) => Some(*y),
                    None => None,
                },
            ) is None,
        },
{
    match v {
        Some(x) => match x.as_str() {
            Some(s) => Some(s.to_owned()),
            None => None,
        },
        None => None,
    }
}

pub open spec fn text_view(s: Option<String>) -> Option<Seq<char>> {
    match s {
        Some(x) => Some(x@),
        None => None,
    }
}

/// The tool call a listed call reads as: its `id`, and the `name` and
/// `arguments` of its `function`, each when it is a string.
pub open spec fn raw_call_of(tc: JsonValue, c: RawToolCall) -> bool {
    let f = json_get(tc, "function"@);
    &&& text_view(c.id) == json_str(json_get(tc, "id"@))
    &&& text_view(c.name) == json_str(get_in(f, "name"@))
    &&& text_view(c.arguments) == json_str(get_in(f, "arguments"@))
}

/// The fields of a choice: its `finish_reason`, and the `content`,
/// `refusal` and `tool_calls` of its `message`, each when it has that type.
pub open spec fn choice_of_json(v: JsonValue, c: Choice) -> bool {
    let msg = json_get(v, "message"@);
    &&& text_view(c.finish_reason) == json_str(json_get(v, "finish_reason"@))
    &&& text_view(c.content) == json_str(get_in(msg, "content"@))
    &&& text_view(c.refusal) == json_str(get_in(msg, "refusal"@))
    &&& match (c.tool_calls, json_array(get_in(msg, "tool_calls"@))) {
        (None, None) => true,
        (Some(calls), Some(list)) => calls@.len() == list.len() && forall|i: int|
            0 <= i < list.len() ==> raw_call_of(list[i], #[trigger] calls@[i]),
        _ => false,
    }
}

/// Reads the fields of a choice; see [`choice_of_json`].
pub fn read_choice(v: &JsonValue) -> (r: Choice)
    ensures
        choice_of_json(*v, r),
{
    let msg = v.get("message");
    let finish_reason = str_of(v.get("finish_reason"));
    let content = str_of(get_in_exec(msg, "content"));
    let refusal = str_of(get_in_exec(msg, "refusal"));
    let tool_calls = match get_in_exec(msg, "tool_calls") {
        Some(x) => match x.as_array() {
            Some(list) => {
                let mut calls: Vec<RawToolCall> = Vec::new();
                let mut i: usize = 0;
                while i < list.len()
                    invariant
                        i <= list@.len(),
                        calls@.len() == i,
                        forall|k: int| 0 <= k < i ==> raw_call_of(list@[k], #[trigger] calls@[k]),
                    decreases list@.len() - i,
                {
                    let tc = &list[i];
                    let f = tc.get("function");
                    calls.push(
                        RawToolCall {
                            id: str_of(tc.get("id")),
                            name: str_of(get_in_exec(f, "name")),
                            arguments: str_of(get_in_exec(f, "arguments")),
                        },
                    );
                    i = i + 1;
                }
                Some(calls)
            },
            None => None,
        },
        None => None,
    };
    Choice { finish_reason, content, refusal, tool_calls }
}

/// A message whose JSON is an assistant's without reasoning text: thinking
/// mode expects every assistant message to carry `reasoning_content`.
pub open spec fn needs_reasoning(m: JsonValue) -> bool {
    &&& json_str(json_get(m, "role"@)) == Some("assistant"@)
    &&& json_get(m, "reasoning_content"@) is None
}

/// `r` is the JSON of message `m` with an empty `reasoning_content` added
/// last when it needs one, and `m` itself otherwise.
pub open spec fn is_reasoning_filled(m: JsonValue, r: JsonValue) -> bool {
    if needs_reasoning(m) {
        match (m, r) {
            (JsonValue::Object(a), JsonValue::Object(b)) => {
                &&& b@.len() == a@.len() + 1
                &&& b@.take(a@.len() as int) == a@
                &&& b@.last().0@ == "reasoning_content"@
                &&& json_str(Some(b@.last().1)) == Some(Seq::<char>::empty())
            },
            _ => false,
        }
    } else {
        r == m
    }
}

/// The JSON of a message with its reasoning text filled in; see
/// [`is_reasoning_filled`].
pub fn fill_reasoning(m: JsonValue) -> (r: JsonValue)
    ensures
        is_reasoning_filled(m, r),
{
    proof {
        reveal_strlit("role");
        reveal_strlit("assistant");
        reveal_strlit("reasoning_content");
    }
    let needs = match m.get("role") {
        Some(role) => match role.as_str() {
            Some(text) => str_equals(text, "assistant") && m.get("reasoning_content").is_none(),
            None => false,
        },
        None => false,
    };
    if !needs {
        return m;
    }
    match m {
        JsonValue::Object(members) => {
            let ghost before = members@;
            let mut members = members;
            members.push(("reasoning_content".to_owned(), JsonValue::String(String::new())));
            assert(members@.take(before.len() as int) =~= before);
            JsonValue::Object(members)
        },
        other => other,
    }
}

/// The JSON of a list of messages with each assistant message's reasoning
/// text filled in; any value that is not a list is unchanged.
pub fn with_empty_reasoning(messages: JsonValue) -> (r: JsonValue)
    ensures
        match messages {
            JsonValue::Array(a) => match r {
                JsonValue::Array(b) => b@.len() == a@.len() && forall|i: int|
                    0 <= i < a@.len() ==> is_reasoning_filled(a@[i], #[trigger] b@[i]),
                _ => false,
            },
            _ => r == messages,
        },
{
    match messages {
        JsonValue::Array(items) => {
            let ghost a = items@;
            let mut rest = items;
            let mut out: Vec<JsonValue> = Vec::new();
            assert(rest@ =~= a.skip(0));
            while rest.len() > 0
                invariant
                    out@.len() + rest@.len() == a.len(),
                    rest@ == a.skip(out@.len() as int),
                    forall|i: int| 0 <= i < out@.len() ==> is_reasoning_filled(a[i], #[trigger] out@[i]),
                decreases rest.len(),
            {
                let ghost k: int = out@.len() as int;
                let item = rest.remove(0);
                assert(item == a[k]);
                out.push(fill_reasoning(item));
                assert(rest@ =~= a.skip(k + 1));
            }
            JsonValue::Array(out)
        },
        other => other,
    }
}

/// The first of a response's `choices`, or a no-choice error when there is
/// none.
pub fn first_choice(response: &JsonValue) -> (r: Result<&JsonValue, ResolveError>)
    ensures
        match json_array(json_get(*response, "choices"@)) {
            Some(list) if list.len() > 0 => r == Ok::<&JsonValue, ResolveError>(&list[0]),
            _ => r is Err && r->Err_0 is NoChoice,
        },
{
    match response.get("choices") {
        Some(x) => match x.as_array() {
            Some(list) => if list.len() > 0 {
                Ok(&list[0])
            } else {
                Err(ResolveError::NoChoice { message: String::new() })
            },
            None => Err(ResolveError::NoChoice { message: String::new() }),
        },
        None => Err(ResolveError::NoChoice { message: String::new() }),
    }
}

} // verus!
