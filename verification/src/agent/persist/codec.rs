//! Turning a context's messages into the first-generation stored messages
//! and back.
use vstd::prelude::*;

use crate::agent::persist::data_object::{Message, from_current, to_current};
use crate::resolver::openai::message::ChatMessage;
use crate::session::persist::codec::{
    CodecError, chat_view, decode_chat, decode_chat_message, encode_chat, encode_chat_message,
};
use crate::session::persist::data_object::MessageView;

verus! {

/// A codec between a context's messages and stored messages.
pub trait MessageSnapshotCodec<M> {
    /// The stored form of a message, or why it has none.
    spec fn encode_spec(&self, m: M) -> Result<MessageView, Seq<char>>;

    /// Whether `r` is what reading back the stored message `v` gives.
    spec fn decode_spec(&self, v: MessageView, r: Result<M, Seq<char>>) -> bool;

    fn encode_message(&self, message: &M) -> (r: Result<Message, CodecError>)
        ensures
            match r {
                Ok(s) => self.encode_spec(*message) == Ok::<MessageView, Seq<char>>(s@),
                Err(e) => self.encode_spec(*message) == Err::<MessageView, Seq<char>>(e.message@),
            },
    ;

    fn decode_message(&self, message: &Message) -> (r: Result<M, CodecError>)
        ensures
            self.decode_spec(
                message@,
                match r {
                    Ok(m) => Ok(m),
                    Err(e) => Err(e.message@),
                },
            ),
    ;
}

/// The codec for OpenAI-shaped messages.
#[derive(Debug, Clone, Copy, Default)]
pub struct OpenAiCodec;

impl MessageSnapshotCodec<ChatMessage> for OpenAiCodec {
    open spec fn encode_spec(&self, m: ChatMessage) -> Result<MessageView, Seq<char>> {
        encode_chat(chat_view(m))
    }

    open spec fn decode_spec(&self, v: MessageView, r: Result<ChatMessage, Seq<char>>) -> bool {
        &&& r is Ok
        &&& chat_view(r->Ok_0) == decode_chat(v)
    }

    fn encode_message(&self, message: &ChatMessage) -> (r: Result<Message, CodecError>) {
        match encode_chat_message(message) {
            Ok(m) => Ok(from_current(m)),
            Err(e) => Err(e),
        }
    }

    fn decode_message(&self, message: &Message) -> (r: Result<ChatMessage, CodecError>) {
        let m = match message {
            Message::System { content } => Message::System { content: content.clone() },
            Message::User { content } => Message::User { content: content.clone() },
            Message::Assistant { content, refusal, tool_calls } => {
                let calls = match tool_calls {
                    Some(v) => {
                        let mut out: Vec<crate::agent::persist::data_object::ToolCall> = Vec::new();
                        let mut i: usize = 0;
                        while i < v.len()
                            invariant
                                i <= v@.len(),
                                out@.map_values(|t: crate::agent::persist::data_object::ToolCall| (t.id@, t.name@, t.args@))
                                    == v@.take(i as int).map_values(|t: crate::agent::persist::data_object::ToolCall| (t.id@, t.name@, t.args@)),
                            decreases v@.len() - i,
                        {
                            let ghost before = out@;
                            out.push(
                                crate::agent::persist::data_object::ToolCall {
                                    id: v[i].id.clone(),
                                    name: v[i].name.clone(),
                                    args: v[i].args.clone(),
                                },
                            );
                            proof {
                                let tv = (v@[i as int].id@, v@[i as int].name@, v@[i as int].args@);
                                assert(v@.take(i + 1) =~= v@.take(i as int).push(v@[i as int]));
                                assert(out@.map_values(|t: crate::agent::persist::data_object::ToolCall| (t.id@, t.name@, t.args@))
                                    =~= before.map_values(|t: crate::agent::persist::data_object::ToolCall| (t.id@, t.name@, t.args@)).push(tv));
                                assert(v@.take(i + 1).map_values(|t: crate::agent::persist::data_object::ToolCall| (t.id@, t.name@, t.args@))
                                    =~= v@.take(i as int).map_values(|t: crate::agent::persist::data_object::ToolCall| (t.id@, t.name@, t.args@)).push(tv));
                            }
                            i = i + 1;
                        }
                        assert(v@.take(v@.len() as int) =~= v@);
                        Some(out)
                    },
                    None => None,
                };
                Message::Assistant {
                    content: match content {
                        Some(x) => Some(x.clone()),
                        None => None,
                    },
                    refusal: match refusal {
                        Some(x) => Some(x.clone()),
                        None => None,
                    },
                    tool_calls: calls,
                }
            },
            Message::Tool { tool_call_id, content } => Message::Tool {
                tool_call_id: tool_call_id.clone(),
                content: content.clone(),
            },
        };
        assert(m@ == message@);
        let c = to_current(m);
        Ok(decode_chat_message(&c))
    }
}

} // verus!
