//! Messages of a conversation, seen through a role-tagged borrowed form.
use vstd::prelude::*;

use crate::resolver::action::Action;
use crate::resolver::tool::IToolCall;

verus! {

/// An entry that a plugin contributes to the system message.
pub struct PluginSystemItem {}

/// An entry that the agent itself contributes to the system message.
pub struct EmbeddedSystemItem {}

/// A message, borrowed.
#[derive(Debug)]
#[allow(inconsistent_fields)]
pub enum MessageRef<'a, C> where C: IToolCall {
    System { content: &'a str },
    User { content: &'a str },
    Assist { content: Option<&'a str>, tool_calls: Option<&'a [C]>, refusal: Option<&'a str> },
    Tool { tool_call_id: &'a str, content: &'a str },
}

/// A message, owned.
#[allow(inconsistent_fields)]
pub enum MessageOwned<C> where C: IToolCall {
    System { content: String },
    User { content: String },
    Assist { content: Option<String>, tool_calls: Option<Vec<C>>, refusal: Option<String> },
    Tool { tool_call_id: String, content: String },
}

/// Who a message comes from.
#[derive(Debug, Clone, Copy, PartialEq, Eq, Structural)]
pub enum MessageRole {
    System,
    User,
    Assist,
    Tool,
}

/// The role of a borrowed message.
pub open spec fn role_of_ref<C: IToolCall>(m: MessageRef<'_, C>) -> MessageRole {
    match m {
        MessageRef::System { .. } => MessageRole::System,
        MessageRef::User { .. } => MessageRole::User,
        MessageRef::Assist { .. } => MessageRole::Assist,
        MessageRef::Tool { .. } => MessageRole::Tool,
    }
}

/// A message type that a resolver exchanges with a model.
pub trait IMessage: Sized + From<Action<Self::ToolCall>> + From<MessageOwned<Self::ToolCall>> {
    type ToolCall: IToolCall;

    /// The role of the message.
    spec fn role_view(&self) -> MessageRole;

    /// The message, borrowed.
    fn message_ref(&self) -> (r: MessageRef<'_, Self::ToolCall>)
        ensures
            role_of_ref(r) == self.role_view(),
    ;

    /// The role of the message: that of its borrowed form.
    fn role(&self) -> (r: MessageRole)
        ensures
            r == self.role_view(),
    {
        match self.message_ref() {
            MessageRef::System { .. } => MessageRole::System,
            MessageRef::User { .. } => MessageRole::User,
            MessageRef::Assist { .. } => MessageRole::Assist,
            MessageRef::Tool { .. } => MessageRole::Tool,
        }
    }
}

} // verus!
