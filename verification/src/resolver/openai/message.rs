//! OpenAI-shaped messages as generic resolver messages.
use vstd::prelude::*;
use vstd::std_specs::convert::FromSpecImpl;
use vstd::string::*;

use crate::resolver::action::Action;
use crate::resolver::message::{IMessage, MessageOwned, MessageRef, MessageRole, role_of_ref};
use crate::resolver::openai::tool::ChatToolCall;

verus! {

#[verifier::external_type_specification]
#[verifier::external_body]
pub struct ExContentPart(openai_oxide::types::chat::ContentPart);

/// The content of a user message: text, or parts (text, images, audio)
/// that the library carries without reading.
#[derive(Debug)]
pub enum ChatUserContent {
    Text(String),
    Parts(Vec<openai_oxide::types::chat::ContentPart>),
}

/// A chat message in the OpenAI request shape.
#[derive(Debug)]
#[allow(inconsistent_fields)]
pub enum ChatMessage {
    System { content: String, name: Option<String> },
    Developer { content: String, name: Option<String> },
    User { content: ChatUserContent, name: Option<String> },
    Assistant {
        content: Option<String>,
        name: Option<String>,
        tool_calls: Option<Vec<ChatToolCall>>,
        refusal: Option<String>,
    },
    Tool { content: String, tool_call_id: String },
}

/// A message of the OpenAI shape.
pub trait IOpenAiMessage: IMessage<ToolCall = ChatToolCall> {

}

/// The role a message takes in a conversation; a developer message is read
/// as a system message with no text.
pub open spec fn chat_role(m: ChatMessage) -> MessageRole {
    match m {
        ChatMessage::System { .. } => MessageRole::System,
        ChatMessage::Developer { .. } => MessageRole::System,
        ChatMessage::User { .. } => MessageRole::User,
        ChatMessage::Assistant { .. } => MessageRole::Assist,
        ChatMessage::Tool { .. } => MessageRole::Tool,
    }
}

pub open spec fn opt_str(s: Option<&str>) -> Option<Seq<char>> {
    match s {
        Some(x) => Some(x@),
        None => None,
    }
}

pub open spec fn opt_string(s: Option<String>) -> Option<Seq<char>> {
    match s {
        Some(x) => Some(x@),
        None => None,
    }
}

/// What the borrowed form of a message holds: the text of a system, user
/// or tool message (empty for a developer message and for a user message in
/// parts), and the content, tool calls and refusal of an assistant message.
pub open spec fn chat_ref_matches(m: ChatMessage, r: MessageRef<'_, ChatToolCall>) -> bool {
    match (m, r) {
        (ChatMessage::System { content, .. }, MessageRef::System { content: c }) => c@ == content@,
        (ChatMessage::Developer { .. }, MessageRef::System { content: c }) => c@.len() == 0,
        (ChatMessage::User { content, .. }, MessageRef::User { content: c }) => match content {
            ChatUserContent::Text(t) => c@ == t@,
            ChatUserContent::Parts(_) => c@.len() == 0,
        },
        (
            ChatMessage::Assistant { content, tool_calls, refusal, .. },
            MessageRef::Assist { content: c, tool_calls: t, refusal: f },
        ) => {
            &&& opt_str(c) == opt_string(content)
            &&& opt_str(f) == opt_string(refusal)
            &&& match (tool_calls, t) {
                (Some(v), Some(s)) => s@ == v@,
                (None, None) => true,
                _ => false,
            }
        },
        (ChatMessage::Tool { content, tool_call_id }, MessageRef::Tool { tool_call_id: i, content: c }) => {
            &&& i@ == tool_call_id@
            &&& c@ == content@
        },
        _ => false,
    }
}

impl IMessage for ChatMessage {
    type ToolCall = ChatToolCall;

    open spec fn role_view(&self) -> MessageRole {
        chat_role(*self)
    }

    fn message_ref(&self) -> (r: MessageRef<'_, ChatToolCall>)
        ensures
            chat_ref_matches(*self, r),
    {
        match self {
            ChatMessage::System { content, .. } => MessageRef::System { content: content.as_str() },
            ChatMessage::Developer { .. } => {
                proof {
                    reveal_strlit("");
                }
                MessageRef::System { content: "" }
            },
            ChatMessage::User { content, .. } => {
                proof {
                    reveal_strlit("");
                }
                let text = match content {
                    ChatUserContent::Text(t) => t.as_str(),
                    ChatUserContent::Parts(_) => "",
                };
                MessageRef::User { content: text }
            },
            ChatMessage::Assistant { content, tool_calls, refusal, .. } => {
                let c = match content {
                    Some(x) => Some(x.as_str()),
                    None => None,
                };
                let t = match tool_calls {
                    Some(v) => Some(v.as_slice()),
                    None => None,
                };
                let f = match refusal {
                    Some(x) => Some(x.as_str()),
                    None => None,
                };
                MessageRef::Assist { content: c, tool_calls: t, refusal: f }
            },
            ChatMessage::Tool { content, tool_call_id } => MessageRef::Tool {
                tool_call_id: tool_call_id.as_str(),
                content: content.as_str(),
            },
        }
    }
}

impl IOpenAiMessage for ChatMessage {

}

/// The assistant message of an action, with no name.
pub open spec fn action_chat_message(a: Action<ChatToolCall>) -> ChatMessage {
    ChatMessage::Assistant { content: a.content, name: None, tool_calls: a.tool_calls, refusal: a.refusal }
}

impl From<Action<ChatToolCall>> for ChatMessage {
    fn from(action: Action<ChatToolCall>) -> (r: Self) {
        ChatMessage::Assistant {
            content: action.content,
            name: None,
            tool_calls: action.tool_calls,
            refusal: action.refusal,
        }
    }
}

impl FromSpecImpl<Action<ChatToolCall>> for ChatMessage {
    open spec fn obeys_from_spec() -> bool {
        true
    }

    open spec fn from_spec(v: Action<ChatToolCall>) -> Self {
        action_chat_message(v)
    }
}

/// The message holding what an owned message holds: no names, and user
/// text as text.
pub open spec fn owned_chat_message(m: MessageOwned<ChatToolCall>) -> ChatMessage {
    match m {
        MessageOwned::System { content } => ChatMessage::System { content, name: None },
        MessageOwned::User { content } => ChatMessage::User {
            content: ChatUserContent::Text(content),
            name: None,
        },
        MessageOwned::Assist { content, tool_calls, refusal } => ChatMessage::Assistant {
            content,
            name: None,
            tool_calls,
            refusal,
        },
        MessageOwned::Tool { tool_call_id, content } => ChatMessage::Tool { content, tool_call_id },
    }
}

impl From<MessageOwned<ChatToolCall>> for ChatMessage {
    fn from(msg: MessageOwned<ChatToolCall>) -> (r: Self) {
        match msg {
            MessageOwned::System { content } => ChatMessage::System { content, name: None },
            MessageOwned::User { content } => ChatMessage::User {
                content: ChatUserContent::Text(content),
                name: None,
            },
            MessageOwned::Assist { content, tool_calls, refusal } => ChatMessage::Assistant {
                content,
                name: None,
                tool_calls,
                refusal,
            },
            MessageOwned::Tool { tool_call_id, content } => ChatMessage::Tool { content, tool_call_id },
        }
    }
}

impl FromSpecImpl<MessageOwned<ChatToolCall>> for ChatMessage {
    open spec fn obeys_from_spec() -> bool {
        true
    }

    open spec fn from_spec(v: MessageOwned<ChatToolCall>) -> Self {
        owned_chat_message(v)
    }
}

fn calls_to_vec(calls: &[ChatToolCall]) -> (r: Vec<ChatToolCall>)
    ensures
        r@ == calls@,
{
    let mut out: Vec<ChatToolCall> = Vec::new();
    let mut i: usize = 0;
    while i < calls.len()
        invariant
            i <= calls.len(),
            out@ == calls@.take(i as int),
        decreases calls.len() - i,
    {
        out.push(calls[i].clone());
        i = i + 1;
        assert(out@ =~= calls@.take(i as int));
    }
    assert(calls@.take(calls.len() as int) =~= calls@);
    out
}

fn opt_owned(s: Option<&str>) -> (r: Option<String>)
    ensures
        opt_string(r) == opt_str(s),
{
    match s {
        Some(x) => Some(x.to_owned()),
        None => None,
    }
}

impl ChatMessage {
    /// An owned message of a borrowed one, with no names and user text as
    /// text; its borrowed form holds what `msg` holds.
    pub fn from_message_ref(msg: MessageRef<'_, ChatToolCall>) -> (r: Self)
        ensures
            chat_role(r) == role_of_ref(msg),
            chat_ref_matches(r, msg),
            match r {
                ChatMessage::System { name, .. } => name is None,
                ChatMessage::User { content, name } => name is None && content is Text,
                ChatMessage::Assistant { name, .. } => name is None,
                _ => true,
            },
    {
        match msg {
            MessageRef::System { content } => ChatMessage::System { content: content.to_owned(), name: None },
            MessageRef::User { content } => ChatMessage::User {
                content: ChatUserContent::Text(content.to_owned()),
                name: None,
            },
            MessageRef::Assist { content, tool_calls, refusal } => {
                let t = match tool_calls {
                    Some(calls) => Some(calls_to_vec(calls)),
                    None => None,
                };
                ChatMessage::Assistant {
                    content: opt_owned(content),
                    name: None,
                    tool_calls: t,
                    refusal: opt_owned(refusal),
                }
            },
            MessageRef::Tool { tool_call_id, content } => ChatMessage::Tool {
                content: content.to_owned(),
                tool_call_id: tool_call_id.to_owned(),
            },
        }
    }
}

impl<'a> From<MessageRef<'a, ChatToolCall>> for ChatMessage {
    /// See [`ChatMessage::from_message_ref`].
    fn from(msg: MessageRef<'a, ChatToolCall>) -> (r: Self) {
        ChatMessage::from_message_ref(msg)
    }
}

impl<'a> FromSpecImpl<MessageRef<'a, ChatToolCall>> for ChatMessage {
    open spec fn obeys_from_spec() -> bool {
        false
    }

    open spec fn from_spec(v: MessageRef<'a, ChatToolCall>) -> Self {
        vstd::pervasive::arbitrary()
    }
}

} // verus!
