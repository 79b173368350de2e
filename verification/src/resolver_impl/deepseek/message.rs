//! DeepSeek messages as generic resolver messages, and the conversions
//! between them.
use vstd::prelude::*;
use vstd::std_specs::convert::FromSpecImpl;

use crate::resolver::action::Action;
use crate::resolver::message::{IMessage, MessageOwned, MessageRef, MessageRole, role_of_ref};
use crate::resolver_impl::deepseek::data_object::{
    DeepSeekMessage, DeepSeekMessageView, DeepSeekToolCall, ToolCallView, calls_view, opt_view,
};

verus! {

pub open spec fn opt_str_view(s: Option<&str>) -> Option<Seq<char>> {
    match s {
        Some(x) => Some(x@),
        None => None,
    }
}

pub open spec fn slice_calls_view(c: Option<&[DeepSeekToolCall]>) -> Option<Seq<ToolCallView>> {
    match c {
        Some(v) => Some(v@.map_values(|t: DeepSeekToolCall| t@)),
        None => None,
    }
}

/// The message a borrowed message stands for; it carries no reasoning text.
pub open spec fn ref_view(r: MessageRef<'_, DeepSeekToolCall>) -> DeepSeekMessageView {
    match r {
        MessageRef::System { content } => DeepSeekMessageView::System { content: content@ },
        MessageRef::User { content } => DeepSeekMessageView::User { content: content@ },
        MessageRef::Assist { content, tool_calls, refusal } => DeepSeekMessageView::Assistant {
            content: opt_str_view(content),
            reasoning_content: None,
            tool_calls: slice_calls_view(tool_calls),
            refusal: opt_str_view(refusal),
        },
        MessageRef::Tool { tool_call_id, content } => DeepSeekMessageView::Tool {
            tool_call_id: tool_call_id@,
            content: content@,
        },
    }
}

/// The message with the reasoning text of an assistant message dropped.
pub open spec fn without_reasoning(m: DeepSeekMessageView) -> DeepSeekMessageView {
    match m {
        DeepSeekMessageView::Assistant { content, tool_calls, refusal, .. } =>
            DeepSeekMessageView::Assistant { content, reasoning_content: None, tool_calls, refusal },
        _ => m,
    }
}

/// The role of a message.
pub open spec fn deepseek_role(m: DeepSeekMessage) -> MessageRole {
    match m {
        DeepSeekMessage::System { .. } => MessageRole::System,
        DeepSeekMessage::User { .. } => MessageRole::User,
        DeepSeekMessage::Assistant { .. } => MessageRole::Assist,
        DeepSeekMessage::Tool { .. } => MessageRole::Tool,
    }
}

impl IMessage for DeepSeekMessage {
    type ToolCall = DeepSeekToolCall;

    open spec fn role_view(&self) -> MessageRole {
        deepseek_role(*self)
    }

    fn message_ref(&self) -> (r: MessageRef<'_, DeepSeekToolCall>)
        ensures
            ref_view(r) == without_reasoning(self@),
    {
        match self {
            DeepSeekMessage::System { content } => MessageRef::System { content: content.as_str() },
            DeepSeekMessage::User { content } => MessageRef::User { content: content.as_str() },
            DeepSeekMessage::Assistant { content, tool_calls, refusal, .. } => {
                let c = match content {
                    Some(x) => Some(x.as_str()),
                    None => None,
                };
                let t = match tool_calls {
                    Some(v) => Some(v.as_slice()),
                    None => None,
                };
                let f = match refusal {
                    Some(x) => Some(x.as_str()),
                    None => None,
                };
                MessageRef::Assist { content: c, tool_calls: t, refusal: f }
            },
            DeepSeekMessage::Tool { tool_call_id, content } => MessageRef::Tool {
                tool_call_id: tool_call_id.as_str(),
                content: content.as_str(),
            },
        }
    }
}

fn opt_str_to_owned(s: Option<&str>) -> (r: Option<String>)
    ensures
        opt_view(r) == opt_str_view(s),
{
    match s {
        Some(x) => Some(x.to_owned()),
        None => None,
    }
}

fn calls_to_vec(calls: &[DeepSeekToolCall]) -> (r: Vec<DeepSeekToolCall>)
    ensures
        r@ == calls@,
{
    let mut out: Vec<DeepSeekToolCall> = Vec::new();
    let mut i: usize = 0;
    while i < calls.len()
        invariant
            i <= calls.len(),
            out@ == calls@.take(i as int),
        decreases calls.len() - i,
    {
        out.push(calls[i].clone());
        i = i + 1;
        assert(out@ =~= calls@.take(i as int));
    }
    assert(calls@.take(calls.len() as int) =~= calls@);
    out
}

impl DeepSeekMessage {
    /// An owned copy of a borrowed message, without reasoning text.
    pub fn from_message_ref(msg: MessageRef<'_, DeepSeekToolCall>) -> (r: Self)
        ensures
            r@ == ref_view(msg),
    {
        match msg {
            MessageRef::System { content } => DeepSeekMessage::System { content: content.to_owned() },
            MessageRef::User { content } => DeepSeekMessage::User { content: content.to_owned() },
            MessageRef::Assist { content, tool_calls, refusal } => {
                let t = match tool_calls {
                    Some(calls) => Some(calls_to_vec(calls)),
                    None => None,
                };
                DeepSeekMessage::Assistant {
                    content: opt_str_to_owned(content),
                    reasoning_content: None,
                    tool_calls: t,
                    refusal: opt_str_to_owned(refusal),
                }
            },
            MessageRef::Tool { tool_call_id, content } => DeepSeekMessage::Tool {
                tool_call_id: tool_call_id.to_owned(),
                content: content.to_owned(),
            },
        }
    }
}

/// Taking a message's borrowed form and owning it again gives the message
/// back, except that an assistant's reasoning text is dropped.
pub proof fn lemma_message_ref_round_trip(m: DeepSeekMessage, r: MessageRef<'_, DeepSeekToolCall>, back: DeepSeekMessage)
    requires
        ref_view(r) == without_reasoning(m@),
        back@ == ref_view(r),
    ensures
        back@ == without_reasoning(m@),
        deepseek_role(back) == deepseek_role(m),
{
}

/// The assistant message of an action.
pub open spec fn action_message(a: Action<DeepSeekToolCall>) -> DeepSeekMessage {
    DeepSeekMessage::Assistant {
        content: a.content,
        reasoning_content: None,
        tool_calls: a.tool_calls,
        refusal: a.refusal,
    }
}

impl From<Action<DeepSeekToolCall>> for DeepSeekMessage {
    /// The assistant message of the action: its content, tool calls and
    /// refusal, without reasoning text.
    fn from(action: Action<DeepSeekToolCall>) -> (r: Self) {
        DeepSeekMessage::Assistant {
            content: action.content,
            reasoning_content: None,
            tool_calls: action.tool_calls,
            refusal: action.refusal,
        }
    }
}

impl FromSpecImpl<Action<DeepSeekToolCall>> for DeepSeekMessage {
    open spec fn obeys_from_spec() -> bool {
        true
    }

    open spec fn from_spec(v: Action<DeepSeekToolCall>) -> Self {
        action_message(v)
    }
}

/// The DeepSeek message holding what an owned message holds.
pub open spec fn owned_message(m: MessageOwned<DeepSeekToolCall>) -> DeepSeekMessage {
    match m {
        MessageOwned::System { content } => DeepSeekMessage::System { content },
        MessageOwned::User { content } => DeepSeekMessage::User { content },
        MessageOwned::Assist { content, tool_calls, refusal } => DeepSeekMessage::Assistant {
            content,
            reasoning_content: None,
            tool_calls,
            refusal,
        },
        MessageOwned::Tool { tool_call_id, content } => DeepSeekMessage::Tool {
            tool_call_id,
            content,
        },
    }
}

impl From<MessageOwned<DeepSeekToolCall>> for DeepSeekMessage {
    fn from(msg: MessageOwned<DeepSeekToolCall>) -> (r: Self) {
        match msg {
            MessageOwned::System { content } => DeepSeekMessage::System { content },
            MessageOwned::User { content } => DeepSeekMessage::User { content },
            MessageOwned::Assist { content, tool_calls, refusal } => DeepSeekMessage::Assistant {
                content,
                reasoning_content: None,
                tool_calls,
                refusal,
            },
            MessageOwned::Tool { tool_call_id, content } => DeepSeekMessage::Tool {
                tool_call_id,
                content,
            },
        }
    }
}

impl FromSpecImpl<MessageOwned<DeepSeekToolCall>> for DeepSeekMessage {
    open spec fn obeys_from_spec() -> bool {
        true
    }

    open spec fn from_spec(v: MessageOwned<DeepSeekToolCall>) -> Self {
        owned_message(v)
    }
}

impl<'a> From<MessageRef<'a, DeepSeekToolCall>> for DeepSeekMessage {
    /// See [`DeepSeekMessage::from_message_ref`], which states the result over
    /// views.
    fn from(msg: MessageRef<'a, DeepSeekToolCall>) -> (r: Self) {
        DeepSeekMessage::from_message_ref(msg)
    }
}

impl<'a> FromSpecImpl<MessageRef<'a, DeepSeekToolCall>> for DeepSeekMessage {
    open spec fn obeys_from_spec() -> bool {
        false
    }

    open spec fn from_spec(v: MessageRef<'a, DeepSeekToolCall>) -> Self {
        vstd::pervasive::arbitrary()
    }
}

} // verus!
