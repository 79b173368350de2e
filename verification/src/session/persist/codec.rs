//! Turning a context's messages into stored messages and back.
use vstd::prelude::*;
use vstd::string::*;

use crate::resolver::context::{AnnotatedMessage, Context, ContextBuilder, plain_messages};
use crate::resolver::message::IMessage;
use crate::resolver::openai::message::{ChatMessage, ChatUserContent};
use crate::resolver::openai::tool::{ChatFunctionCall, ChatToolCall};
use crate::session::persist::data_object::{
    ContextSnapshot, Message, MessageView, ToolCall, ToolCallView, tool_call_view,
};

pub use crate::agent::persist::codec::OpenAiCodec;

verus! {

/// Why a message could not be stored or read back.
#[derive(Debug)]
pub struct CodecError {
    pub message: String,
}

/// A codec between a context's messages and stored messages.
pub trait IContextSnapshotCodec<M> {
    /// The stored form of a message, or why it has none.
    spec fn encode_spec(&self, m: M) -> Result<MessageView, Seq<char>>;

    /// Whether `r` is what reading back the stored message `v` gives.
    spec fn decode_spec(&self, v: MessageView, r: Result<M, Seq<char>>) -> bool;

    fn encode_message(&self, message: &M) -> (r: Result<Message, CodecError>)
        ensures
            match r {
                Ok(s) => self.encode_spec(*message) == Ok::<MessageView, Seq<char>>(s@),
                Err(e) => self.encode_spec(*message) == Err::<MessageView, Seq<char>>(e.message@),
            },
    ;

    fn decode_message(&self, message: &Message) -> (r: Result<M, CodecError>)
        ensures
            self.decode_spec(
                message@,
                match r {
                    Ok(m) => Ok(m),
                    Err(e) => Err(e.message@),
                },
            ),
    ;
}

/// The stored forms of the first `n` messages, or the error of the first
/// that has none.
pub open spec fn encode_all<M, C: IContextSnapshotCodec<M>>(codec: C, ms: Seq<M>, n: nat) -> Result<Seq<MessageView>, Seq<char>>
    decreases n,
{
    if n == 0 {
        Ok(Seq::empty())
    } else {
        match encode_all(codec, ms, (n - 1) as nat) {
            Err(e) => Err(e),
            Ok(done) => match codec.encode_spec(ms[n - 1]) {
                Err(e) => Err(e),
                Ok(v) => Ok(done.push(v)),
            },
        }
    }
}

proof fn lemma_encode_all_err_stays<M, C: IContextSnapshotCodec<M>>(codec: C, ms: Seq<M>, k: nat, n: nat)
    requires
        k <= n,
        encode_all(codec, ms, k) is Err,
    ensures
        encode_all(codec, ms, n) == encode_all(codec, ms, k),
    decreases n - k,
{
    if k < n {
        lemma_encode_all_err_stays(codec, ms, k, (n - 1) as nat);
    }
}

pub open spec fn stored_views(ms: Seq<Message>) -> Seq<MessageView> {
    ms.map_values(|m: Message| m@)
}

/// The snapshot of a context: its model and the stored form of each of its
/// messages, or the error of the first message that has none.
pub fn encode_context<M: IMessage, A, C: IContextSnapshotCodec<M>>(codec: &C, context: &Context<M, A>) -> (r: Result<ContextSnapshot, CodecError>)
    ensures
        match r {
            Ok(s) => {
                &&& s.model@ == context@.model
                &&& encode_all(*codec, plain_messages(context@.messages), context@.messages.len())
                    == Ok::<Seq<MessageView>, Seq<char>>(stored_views(s.messages@))
            },
            Err(e) => encode_all(*codec, plain_messages(context@.messages), context@.messages.len())
                == Err::<Seq<MessageView>, Seq<char>>(e.message@),
        },
{
    let ghost ms = plain_messages(context@.messages);
    let items = context.annotated_messages();
    let n = items.len();
    let mut out: Vec<Message> = Vec::new();
    let mut i: usize = 0;
    assert(stored_views(out@) =~= Seq::<MessageView>::empty());
    while i < n
        invariant
            n == items@.len(),
            items@ == context@.messages,
            ms == plain_messages(context@.messages),
            i <= n,
            encode_all(*codec, ms, i as nat) == Ok::<Seq<MessageView>, Seq<char>>(stored_views(out@)),
        decreases n - i,
    {
        match codec.encode_message(&items[i].message) {
            Ok(m) => {
                let ghost before = out@;
                out.push(m);
                assert(stored_views(out@) =~= stored_views(before).push(out@.last()@));
            },
            Err(e) => {
                proof {
                    lemma_encode_all_err_stays(*codec, ms, (i + 1) as nat, n as nat);
                }
                return Err(e);
            },
        }
        i = i + 1;
    }
    Ok(ContextSnapshot { model: context.model().to_owned(), messages: out })
}

/// The context a snapshot stands for: its model and each message read back,
/// each with a default annotation; or the first error reading one back.
pub fn decode_context<M: IMessage, A: Default, C: IContextSnapshotCodec<M>>(codec: &C, snapshot: &ContextSnapshot) -> (r: Result<Context<M, A>, CodecError>)
    ensures
        match r {
            Ok(cx) => {
                &&& cx@.model == snapshot.model@
                &&& cx@.messages.len() == snapshot.messages@.len()
                &&& cx@.tool_defs.len() == 0
                &&& forall|i: int| 0 <= i < snapshot.messages@.len() ==> codec.decode_spec(
                    #[trigger] snapshot.messages@[i]@,
                    Ok(cx@.messages[i].message),
                )
            },
            Err(e) => exists|i: int| 0 <= i < snapshot.messages@.len() && codec.decode_spec(
                #[trigger] snapshot.messages@[i]@,
                Err(e.message@),
            ),
        },
{
    let n = snapshot.messages.len();
    let mut out: Vec<M> = Vec::new();
    let mut i: usize = 0;
    while i < n
        invariant
            n == snapshot.messages@.len(),
            i <= n,
            out@.len() == i,
            forall|k: int| 0 <= k < i ==> codec.decode_spec(
                #[trigger] snapshot.messages@[k]@,
                Ok(out@[k]),
            ),
        decreases n - i,
    {
        match codec.decode_message(&snapshot.messages[i]) {
            Ok(m) => out.push(m),
            Err(e) => {
                assert(codec.decode_spec(snapshot.messages@[i as int]@, Err(e.message@)));
                return Err(e);
            },
        }
        i = i + 1;
    }
    let ghost decoded = out@;
    let cx = ContextBuilder::new(snapshot.model.as_str()).messages(out).build();
    proof {
        assert forall|k: int| 0 <= k < n implies codec.decode_spec(
            #[trigger] snapshot.messages@[k]@,
            Ok(cx@.messages[k].message),
        ) by {
            assert(plain_messages(cx@.messages)[k] == cx@.messages[k].message);
            assert(plain_messages(cx@.messages)[k] == decoded[k]);
        }
    }
    Ok(cx)
}

// ---------------------------------------------------------------------------
// OpenAI-shaped messages
// ---------------------------------------------------------------------------

/// An OpenAI-shaped tool call as text: id, type, function name, arguments.
pub type ChatToolCallView = (Seq<char>, Seq<char>, Seq<char>, Seq<char>);

/// An OpenAI-shaped message as text; the parts of a user message in parts
/// are not text and are left out.
#[allow(inconsistent_fields)]
pub enum ChatView {
    System { content: Seq<char>, name: Option<Seq<char>> },
    Developer { content: Seq<char>, name: Option<Seq<char>> },
    UserText { content: Seq<char>, name: Option<Seq<char>> },
    UserParts { name: Option<Seq<char>> },
    Assistant {
        content: Option<Seq<char>>,
        name: Option<Seq<char>>,
        tool_calls: Option<Seq<ChatToolCallView>>,
        refusal: Option<Seq<char>>,
    },
    Tool { content: Seq<char>, tool_call_id: Seq<char> },
}

pub open spec fn text_of(s: Option<String>) -> Option<Seq<char>> {
    match s {
        Some(x) => Some(x@),
        None => None,
    }
}

pub open spec fn chat_call_view(c: ChatToolCall) -> ChatToolCallView {
    (c.id@, c.type_@, c.function.name@, c.function.arguments@)
}

pub open spec fn chat_calls_view(c: Option<Vec<ChatToolCall>>) -> Option<Seq<ChatToolCallView>> {
    match c {
        Some(v) => Some(v@.map_values(|t: ChatToolCall| chat_call_view(t))),
        None => None,
    }
}

pub open spec fn chat_view(m: ChatMessage) -> ChatView {
    match m {
        ChatMessage::System { content, name } => ChatView::System { content: content@, name: text_of(name) },
        ChatMessage::Developer { content, name } => ChatView::Developer {
            content: content@,
            name: text_of(name),
        },
        ChatMessage::User { content, name } => match content {
            ChatUserContent::Text(t) => ChatView::UserText { content: t@, name: text_of(name) },
            ChatUserContent::Parts(_) => ChatView::UserParts { name: text_of(name) },
        },
        ChatMessage::Assistant { content, name, tool_calls, refusal } => ChatView::Assistant {
            content: text_of(content),
            name: text_of(name),
            tool_calls: chat_calls_view(tool_calls),
            refusal: text_of(refusal),
        },
        ChatMessage::Tool { content, tool_call_id } => ChatView::Tool {
            content: content@,
            tool_call_id: tool_call_id@,
        },
    }
}

/// The stored form of an OpenAI-shaped message: names and tool-call types
/// are not kept; a user message in parts and a developer message have none.
pub open spec fn encode_chat(m: ChatView) -> Result<MessageView, Seq<char>> {
    match m {
        ChatView::System { content, .. } => Ok(MessageView::System { content }),
        ChatView::Developer { .. } => Err("cannot persist OpenAI developer message as agent message"@),
        ChatView::UserText { content, .. } => Ok(MessageView::User { content }),
        ChatView::UserParts { .. } => Err("cannot persist non-text OpenAI user message"@),
        ChatView::Assistant { content, tool_calls, refusal, .. } => Ok(
            MessageView::Assistant {
                content,
                refusal,
                tool_calls: match tool_calls {
                    Some(calls) => Some(calls.map_values(|c: ChatToolCallView| (c.0, c.2, c.3))),
                    None => None,
                },
            },
        ),
        ChatView::Tool { content, tool_call_id } => Ok(MessageView::Tool { tool_call_id, content }),
    }
}

/// An OpenAI-shaped message read back from its stored form: no names, user
/// text as text, tool calls of type `function`.
pub open spec fn decode_chat(v: MessageView) -> ChatView {
    match v {
        MessageView::System { content } => ChatView::System { content, name: None },
        MessageView::User { content } => ChatView::UserText { content, name: None },
        MessageView::Assistant { content, refusal, tool_calls } => ChatView::Assistant {
            content,
            name: None,
            tool_calls: match tool_calls {
                Some(calls) => Some(
                    calls.map_values(|c: ToolCallView| (c.0, "function"@, c.1, c.2)),
                ),
                None => None,
            },
            refusal,
        },
        MessageView::Tool { tool_call_id, content } => ChatView::Tool { content, tool_call_id },
    }
}

/// A message as it reads back after being stored: names dropped and
/// tool-call types `function`.
pub open spec fn unnamed(m: ChatView) -> ChatView {
    match m {
        ChatView::System { content, .. } => ChatView::System { content, name: None },
        ChatView::Developer { content, .. } => ChatView::Developer { content, name: None },
        ChatView::UserText { content, .. } => ChatView::UserText { content, name: None },
        ChatView::UserParts { .. } => ChatView::UserParts { name: None },
        ChatView::Assistant { content, tool_calls, refusal, .. } => ChatView::Assistant {
            content,
            name: None,
            tool_calls: match tool_calls {
                Some(calls) => Some(
                    calls.map_values(|c: ChatToolCallView| (c.0, "function"@, c.2, c.3)),
                ),
                None => None,
            },
            refusal,
        },
        ChatView::Tool { .. } => m,
    }
}

/// Reading a stored message back and storing it again gives it back.
pub proof fn lemma_stored_message_round_trip(v: MessageView)
    ensures
        encode_chat(decode_chat(v)) == Ok::<MessageView, Seq<char>>(v),
{
    match v {
        MessageView::Assistant { content, refusal, tool_calls } => {
            match tool_calls {
                Some(calls) => {
                    let back = calls.map_values(|c: ToolCallView| (c.0, "function"@, c.1, c.2)).map_values(
                        |c: ChatToolCallView| (c.0, c.2, c.3),
                    );
                    assert(back =~= calls);
                },
                None => {},
            }
        },
        _ => {},
    }
}

/// Storing a message and reading it back gives the message without its
/// names and with tool calls of type `function`; in particular a message
/// with no names and such tool calls comes back as it was.
pub proof fn lemma_chat_message_round_trip(m: ChatView)
    requires
        encode_chat(m) is Ok,
    ensures
        decode_chat(encode_chat(m)->Ok_0) == unnamed(m),
{
    match m {
        ChatView::Assistant { content, name, tool_calls, refusal } => {
            match tool_calls {
                Some(calls) => {
                    let there = calls.map_values(|c: ChatToolCallView| (c.0, c.2, c.3)).map_values(
                        |c: ToolCallView| (c.0, "function"@, c.1, c.2),
                    );
                    assert(there =~= calls.map_values(
                        |c: ChatToolCallView| (c.0, "function"@, c.2, c.3),
                    ));
                },
                None => {},
            }
        },
        _ => {},
    }
}

fn stored_calls(calls: &Vec<ChatToolCall>) -> (r: Vec<ToolCall>)
    ensures
        r@.map_values(|t: ToolCall| tool_call_view(t)) == calls@.map_values(
            |c: ChatToolCall| chat_call_view(c),
        ).map_values(|c: ChatToolCallView| (c.0, c.2, c.3)),
{
    let mut out: Vec<ToolCall> = Vec::new();
    let mut i: usize = 0;
    while i < calls.len()
        invariant
            i <= calls@.len(),
            out@.map_values(|t: ToolCall| tool_call_view(t)) == calls@.take(i as int).map_values(
                |c: ChatToolCall| chat_call_view(c),
            ).map_values(|c: ChatToolCallView| (c.0, c.2, c.3)),
        decreases calls@.len() - i,
    {
        let c = &calls[i];
        let ghost before = out@;
        out.push(ToolCall { id: c.id.clone(), name: c.function.name.clone(), args: c.function.arguments.clone() });
        proof {
            assert(calls@.take(i + 1) =~= calls@.take(i as int).push(calls@[i as int]));
            assert(out@.map_values(|t: ToolCall| tool_call_view(t)) =~= before.map_values(
                |t: ToolCall| tool_call_view(t),
            ).push(tool_call_view(out@.last())));
            assert(calls@.take(i + 1).map_values(|c: ChatToolCall| chat_call_view(c)).map_values(
                |c: ChatToolCallView| (c.0, c.2, c.3),
            ) =~= calls@.take(i as int).map_values(|c: ChatToolCall| chat_call_view(c)).map_values(
                |c: ChatToolCallView| (c.0, c.2, c.3),
            ).push((c.id@, c.function.name@, c.function.arguments@)));
        }
        i = i + 1;
    }
    assert(calls@.take(calls@.len() as int) =~= calls@);
    out
}

fn chat_calls(calls: &Vec<ToolCall>) -> (r: Vec<ChatToolCall>)
    ensures
        chat_calls_view(Some(r)) == Some(
            calls@.map_values(|t: ToolCall| tool_call_view(t)).map_values(
                |c: ToolCallView| (c.0, "function"@, c.1, c.2),
            ),
        ),
{
    let mut out: Vec<ChatToolCall> = Vec::new();
    let mut i: usize = 0;
    while i < calls.len()
        invariant
            i <= calls@.len(),
            out@.map_values(|c: ChatToolCall| chat_call_view(c)) == calls@.take(i as int).map_values(
                |t: ToolCall| tool_call_view(t),
            ).map_values(|c: ToolCallView| (c.0, "function"@, c.1, c.2)),
        decreases calls@.len() - i,
    {
        let c = &calls[i];
        let ghost before = out@;
        out.push(
            ChatToolCall {
                id: c.id.clone(),
                type_: "function".to_owned(),
                function: ChatFunctionCall { name: c.name.clone(), arguments: c.args.clone() },
            },
        );
        proof {
            assert(calls@.take(i + 1) =~= calls@.take(i as int).push(calls@[i as int]));
            assert(out@.map_values(|c: ChatToolCall| chat_call_view(c)) =~= before.map_values(
                |c: ChatToolCall| chat_call_view(c),
            ).push(chat_call_view(out@.last())));
            assert(calls@.take(i + 1).map_values(|t: ToolCall| tool_call_view(t)).map_values(
                |c: ToolCallView| (c.0, "function"@, c.1, c.2),
            ) =~= calls@.take(i as int).map_values(|t: ToolCall| tool_call_view(t)).map_values(
                |c: ToolCallView| (c.0, "function"@, c.1, c.2),
            ).push((c.id@, "function"@, c.name@, c.args@)));
        }
        i = i + 1;
    }
    assert(calls@.take(calls@.len() as int) =~= calls@);
    out
}

fn opt_clone(s: &Option<String>) -> (r: Option<String>)
    ensures
        text_of(r) == text_of(*s),
{
    match s {
        Some(x) => Some(x.clone()),
        None => None,
    }
}

/// The stored form of an OpenAI-shaped message; see [`encode_chat`].
pub fn encode_chat_message(m: &ChatMessage) -> (r: Result<Message, CodecError>)
    ensures
        match r {
            Ok(s) => encode_chat(chat_view(*m)) == Ok::<MessageView, Seq<char>>(s@),
            Err(e) => encode_chat(chat_view(*m)) == Err::<MessageView, Seq<char>>(e.message@),
        },
{
    match m {
        ChatMessage::System { content, .. } => Ok(Message::System { content: content.clone() }),
        ChatMessage::Developer { .. } => Err(
            CodecError {
                message: "cannot persist OpenAI developer message as agent message".to_owned(),
            },
        ),
        ChatMessage::User { content, .. } => match content {
            ChatUserContent::Text(t) => Ok(Message::User { content: t.clone() }),
            ChatUserContent::Parts(_) => Err(
                CodecError { message: "cannot persist non-text OpenAI user message".to_owned() },
            ),
        },
        ChatMessage::Assistant { content, tool_calls, refusal, .. } => {
            let calls = match tool_calls {
                Some(v) => Some(stored_calls(v)),
                None => None,
            };
            Ok(Message::Assistant { content: opt_clone(content), refusal: opt_clone(refusal), tool_calls: calls })
        },
        ChatMessage::Tool { content, tool_call_id } => Ok(
            Message::Tool { tool_call_id: tool_call_id.clone(), content: content.clone() },
        ),
    }
}

/// An OpenAI-shaped message read back from its stored form; see
/// [`decode_chat`].
pub fn decode_chat_message(m: &Message) -> (r: ChatMessage)
    ensures
        chat_view(r) == decode_chat(m@),
{
    match m {
        Message::System { content } => ChatMessage::System { content: content.clone(), name: None },
        Message::User { content } => ChatMessage::User {
            content: ChatUserContent::Text(content.clone()),
            name: None,
        },
        Message::Assistant { content, refusal, tool_calls } => {
            let calls = match tool_calls {
                Some(v) => Some(chat_calls(v)),
                None => None,
            };
            ChatMessage::Assistant {
                content: opt_clone(content),
                name: None,
                tool_calls: calls,
                refusal: opt_clone(refusal),
            }
        },
        Message::Tool { tool_call_id, content } => ChatMessage::Tool {
            content: content.clone(),
            tool_call_id: tool_call_id.clone(),
        },
    }
}

impl IContextSnapshotCodec<ChatMessage> for OpenAiCodec {
    open spec fn encode_spec(&self, m: ChatMessage) -> Result<MessageView, Seq<char>> {
        encode_chat(chat_view(m))
    }

    open spec fn decode_spec(&self, v: MessageView, r: Result<ChatMessage, Seq<char>>) -> bool {
        &&& r is Ok
        &&& chat_view(r->Ok_0) == decode_chat(v)
    }

    fn encode_message(&self, message: &ChatMessage) -> (r: Result<Message, CodecError>) {
        encode_chat_message(message)
    }

    fn decode_message(&self, message: &Message) -> (r: Result<ChatMessage, CodecError>) {
        Ok(decode_chat_message(message))
    }
}

} // verus!
