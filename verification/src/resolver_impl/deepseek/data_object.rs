//! Request and response data of DeepSeek V4 chat completions.
use vstd::prelude::*;
use vstd::string::*;

use crate::json::JsonValue;

verus! {

/// Whether thinking mode is on.
#[derive(Debug, Clone, Copy, PartialEq, Eq, Structural)]
pub enum ThinkingType {
    Enabled,
    Disabled,
}

/// The `thinking` field of a request body.
#[derive(Debug, Clone, Copy, PartialEq, Eq, Structural)]
pub struct Thinking {
    pub type_: ThinkingType,
}

impl Thinking {
    pub fn enabled() -> (r: Self)
        ensures
            r.type_ == ThinkingType::Enabled,
    {
        Self { type_: ThinkingType::Enabled }
    }

    pub fn disabled() -> (r: Self)
        ensures
            r.type_ == ThinkingType::Disabled,
    {
        Self { type_: ThinkingType::Disabled }
    }
}

/// Reasoning intensity.
#[derive(Debug, Clone, Copy, PartialEq, Eq, Structural)]
pub enum ReasoningEffort {
    High,
    Max,
}

/// The JSON name of a thinking mode.
pub open spec fn thinking_type_name(t: ThinkingType) -> Seq<char> {
    match t {
        ThinkingType::Enabled => "enabled"@,
        ThinkingType::Disabled => "disabled"@,
    }
}

/// `v` is the JSON of `t`: an object whose one member `type` is the mode's
/// name.
pub open spec fn is_thinking_json(t: Thinking, v: JsonValue) -> bool {
    match v {
        JsonValue::Object(m) => {
            &&& m@.len() == 1
            &&& m@[0].0@ == "type"@
            &&& m@[0].1 matches JsonValue::String(name) && name@ == thinking_type_name(t.type_)
        },
        _ => false,
    }
}

impl Thinking {
    /// The JSON of the `thinking` field; see [`is_thinking_json`].
    pub fn to_json(&self) -> (r: JsonValue)
        ensures
            is_thinking_json(*self, r),
    {
        proof {
            reveal_strlit("type");
            reveal_strlit("enabled");
            reveal_strlit("disabled");
        }
        let name = match self.type_ {
            ThinkingType::Enabled => "enabled".to_owned(),
            ThinkingType::Disabled => "disabled".to_owned(),
        };
        let mut m: Vec<(String, JsonValue)> = Vec::new();
        m.push(("type".to_owned(), JsonValue::String(name)));
        JsonValue::Object(m)
    }
}

/// The JSON name of a reasoning effort.
pub open spec fn effort_name(e: ReasoningEffort) -> Seq<char> {
    match e {
        ReasoningEffort::High => "high"@,
        ReasoningEffort::Max => "max"@,
    }
}

impl ReasoningEffort {
    /// The JSON of a reasoning effort: a string of its name.
    pub fn to_json(&self) -> (r: JsonValue)
        ensures
            r matches JsonValue::String(name) && name@ == effort_name(*self),
    {
        proof {
            reveal_strlit("high");
            reveal_strlit("max");
        }
        match self {
            ReasoningEffort::High => JsonValue::String("high".to_owned()),
            ReasoningEffort::Max => JsonValue::String("max".to_owned()),
        }
    }
}

/// Function name and arguments inside a tool call.
#[derive(Debug, PartialEq, Eq)]
pub struct ToolCallFunction {
    pub name: String,
    pub arguments: String,
}

impl Clone for ToolCallFunction {
    fn clone(&self) -> (r: Self)
        ensures
            r == *self,
    {
        ToolCallFunction { name: self.name.clone(), arguments: self.arguments.clone() }
    }
}

/// A tool call in the OpenAI-compatible shape.
#[derive(Debug, PartialEq, Eq)]
pub struct DeepSeekToolCall {
    pub id: String,
    pub type_: String,
    pub function: ToolCallFunction,
}

impl Clone for DeepSeekToolCall {
    fn clone(&self) -> (r: Self)
        ensures
            r == *self,
    {
        DeepSeekToolCall {
            id: self.id.clone(),
            type_: self.type_.clone(),
            function: self.function.clone(),
        }
    }
}

pub struct ToolCallView {
    pub id: Seq<char>,
    pub type_: Seq<char>,
    pub name: Seq<char>,
    pub arguments: Seq<char>,
}

impl View for DeepSeekToolCall {
    type V = ToolCallView;

    open spec fn view(&self) -> ToolCallView {
        ToolCallView {
            id: self.id@,
            type_: self.type_@,
            name: self.function.name@,
            arguments: self.function.arguments@,
        }
    }
}

/// A conversation message; an assistant message may carry thinking-mode
/// reasoning text.
#[derive(Debug, Clone, PartialEq, Eq)]
#[allow(inconsistent_fields)]
pub enum DeepSeekMessage {
    System { content: String },
    User { content: String },
    Assistant {
        content: Option<String>,
        reasoning_content: Option<String>,
        tool_calls: Option<Vec<DeepSeekToolCall>>,
        refusal: Option<String>,
    },
    Tool { tool_call_id: String, content: String },
}

#[allow(inconsistent_fields)]
pub enum DeepSeekMessageView {
    System { content: Seq<char> },
    User { content: Seq<char> },
    Assistant {
        content: Option<Seq<char>>,
        reasoning_content: Option<Seq<char>>,
        tool_calls: Option<Seq<ToolCallView>>,
        refusal: Option<Seq<char>>,
    },
    Tool { tool_call_id: Seq<char>, content: Seq<char> },
}

pub open spec fn opt_view(s: Option<String>) -> Option<Seq<char>> {
    match s {
        Some(x) => Some(x@),
        None => None,
    }
}

pub open spec fn calls_view(c: Option<Vec<DeepSeekToolCall>>) -> Option<Seq<ToolCallView>> {
    match c {
        Some(v) => Some(v@.map_values(|t: DeepSeekToolCall| t@)),
        None => None,
    }
}

impl View for DeepSeekMessage {
    type V = DeepSeekMessageView;

    open spec fn view(&self) -> DeepSeekMessageView {
        match self {
            DeepSeekMessage::System { content } => DeepSeekMessageView::System { content: content@ },
            DeepSeekMessage::User { content } => DeepSeekMessageView::User { content: content@ },
            DeepSeekMessage::Assistant { content, reasoning_content, tool_calls, refusal } =>
                DeepSeekMessageView::Assistant {
                content: opt_view(*content),
                reasoning_content: opt_view(*reasoning_content),
                tool_calls: calls_view(*tool_calls),
                refusal: opt_view(*refusal),
            },
            DeepSeekMessage::Tool { tool_call_id, content } => DeepSeekMessageView::Tool {
                tool_call_id: tool_call_id@,
                content: content@,
            },
        }
    }
}

/// The message with an assistant's absent reasoning text set to the empty
/// text; anything else unchanged.
pub open spec fn with_reasoning_content(m: DeepSeekMessageView) -> DeepSeekMessageView {
    match m {
        DeepSeekMessageView::Assistant { content, reasoning_content, tool_calls, refusal } =>
            DeepSeekMessageView::Assistant {
            content,
            reasoning_content: match reasoning_content {
                Some(r) => Some(r),
                None => Some(Seq::empty()),
            },
            tool_calls,
            refusal,
        },
        _ => m,
    }
}

impl DeepSeekMessage {
    /// Gives an assistant message without reasoning text the empty reasoning
    /// text, which thinking mode expects; a no-op otherwise.
    pub fn ensure_reasoning_content(&mut self)
        ensures
            final(self)@ == with_reasoning_content(old(self)@),
    {
        if let DeepSeekMessage::Assistant { reasoning_content, .. } = self {
            if reasoning_content.is_none() {
                *reasoning_content = Some(String::new());
            }
        }
    }
}

/// Applies [`DeepSeekMessage::ensure_reasoning_content`] to each message, as a
/// request body expects.
pub fn with_reasoning_contents(messages: Vec<DeepSeekMessage>) -> (r: Vec<DeepSeekMessage>)
    ensures
        r@.len() == messages@.len(),
        forall|i: int|
            0 <= i < r@.len() ==> #[trigger] r@[i]@ == with_reasoning_content(messages@[i]@),
{
    let mut out: Vec<DeepSeekMessage> = Vec::new();
    let mut rest = messages;
    let ghost orig = rest@;
    while rest.len() > 0
        invariant
            out@.len() + rest@.len() == orig.len(),
            rest@ == orig.skip(out@.len() as int),
            forall|i: int|
                0 <= i < out@.len() ==> #[trigger] out@[i]@ == with_reasoning_content(orig[i]@),
        decreases rest.len(),
    {
        let ghost before = rest@;
        let mut m = rest.remove(0);
        assert(orig.skip(out@.len() as int)[0] == orig[out@.len() as int]);
        m.ensure_reasoning_content();
        out.push(m);
        assert(rest@ =~= orig.skip(out@.len() as int));
    }
    out
}

} // verus!
