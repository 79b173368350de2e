//! The records of the first-generation store, as plain values.
use vstd::prelude::*;

use crate::session::persist::data_object as current;
use crate::session::persist::data_object::{MessageView, opt_text, tool_call_view, tool_calls_view};

verus! {

/// Whether a session is in use.
#[derive(Debug, Clone, Copy, PartialEq, Eq, Structural)]
pub enum Status {
    Active,
    Archived,
}

/// Why a checkpoint was taken.
#[derive(Debug, Clone, Copy, PartialEq, Eq, Structural)]
pub enum CheckpointKind {
    BeforeRun,
    AfterRun,
    Fork,
}

/// A tool call as stored.
#[derive(Debug)]
pub struct ToolCall {
    pub id: String,
    pub name: String,
    pub args: String,
}

/// A stored message, tagged by role.
#[derive(Debug)]
#[allow(inconsistent_fields)]
pub enum Message {
    System { content: String },
    User { content: String },
    Assistant { content: Option<String>, refusal: Option<String>, tool_calls: Option<Vec<ToolCall>> },
    Tool { tool_call_id: String, content: String },
}

/// The model and messages of a context.
#[derive(Debug)]
pub struct ContextSnapshot {
    pub model: String,
    pub messages: Vec<Message>,
}

pub open spec fn first_calls_view(c: Option<Vec<ToolCall>>) -> Option<Seq<(Seq<char>, Seq<char>, Seq<char>)>> {
    match c {
        Some(v) => Some(v@.map_values(|t: ToolCall| (t.id@, t.name@, t.args@))),
        None => None,
    }
}

impl View for Message {
    type V = MessageView;

    open spec fn view(&self) -> MessageView {
        match self {
            Message::System { content } => MessageView::System { content: content@ },
            Message::User { content } => MessageView::User { content: content@ },
            Message::Assistant { content, refusal, tool_calls } => MessageView::Assistant {
                content: opt_text(*content),
                refusal: opt_text(*refusal),
                tool_calls: first_calls_view(*tool_calls),
            },
            Message::Tool { tool_call_id, content } => MessageView::Tool {
                tool_call_id: tool_call_id@,
                content: content@,
            },
        }
    }
}

/// The message, in the current store's form.
pub fn to_current(m: Message) -> (r: current::Message)
    ensures
        r@ == m@,
{
    match m {
        Message::System { content } => current::Message::System { content },
        Message::User { content } => current::Message::User { content },
        Message::Assistant { content, refusal, tool_calls } => {
            let ghost before = tool_calls;
            let calls = match tool_calls {
                Some(v) => {
                    let mut out: Vec<current::ToolCall> = Vec::new();
                    let mut rest = v;
                    let ghost all = rest@;
                    let ghost k: int = 0;
                    assert(all.skip(0) =~= all);
                    while rest.len() > 0
                        invariant
                            0 <= k <= all.len(),
                            rest@ == all.skip(k),
                            out@.map_values(|t: current::ToolCall| tool_call_view(t)) == all.take(
                                k,
                            ).map_values(|t: ToolCall| (t.id@, t.name@, t.args@)),
                        decreases rest.len(),
                    {
                        let t = rest.remove(0);
                        assert(all.skip(k)[0] == t);
                        let ghost tv = (t.id@, t.name@, t.args@);
                        let ghost before = out@;
                        out.push(current::ToolCall { id: t.id, name: t.name, args: t.args });
                        proof {
                            assert(all.skip(k).drop_first() =~= all.skip(k + 1));
                            assert(all.take(k + 1) =~= all.take(k).push(all[k]));
                            assert(out@.map_values(|t: current::ToolCall| tool_call_view(t)) =~= before.map_values(
                                |t: current::ToolCall| tool_call_view(t),
                            ).push(tv));
                            assert(all.take(k + 1).map_values(|t: ToolCall| (t.id@, t.name@, t.args@)) =~= all.take(
                                k,
                            ).map_values(|t: ToolCall| (t.id@, t.name@, t.args@)).push(tv));
                            k = k + 1;
                        }
                    }
                    assert(all.take(k) =~= all);
                    Some(out)
                },
                None => None,
            };
            current::Message::Assistant { content, refusal, tool_calls: calls }
        },
        Message::Tool { tool_call_id, content } => current::Message::Tool { tool_call_id, content },
    }
}

/// The message, in this store's form.
pub fn from_current(m: current::Message) -> (r: Message)
    ensures
        r@ == m@,
{
    match m {
        current::Message::System { content } => Message::System { content },
        current::Message::User { content } => Message::User { content },
        current::Message::Assistant { content, refusal, tool_calls } => {
            let calls = match tool_calls {
                Some(v) => {
                    let mut out: Vec<ToolCall> = Vec::new();
                    let mut rest = v;
                    let ghost all = rest@;
                    let ghost k: int = 0;
                    assert(all.skip(0) =~= all);
                    while rest.len() > 0
                        invariant
                            0 <= k <= all.len(),
                            rest@ == all.skip(k),
                            out@.map_values(|t: ToolCall| (t.id@, t.name@, t.args@)) == all.take(
                                k,
                            ).map_values(|t: current::ToolCall| tool_call_view(t)),
                        decreases rest.len(),
                    {
                        let t = rest.remove(0);
                        assert(all.skip(k)[0] == t);
                        let ghost tv = (t.id@, t.name@, t.args@);
                        let ghost before = out@;
                        out.push(ToolCall { id: t.id, name: t.name, args: t.args });
                        proof {
                            assert(all.skip(k).drop_first() =~= all.skip(k + 1));
                            assert(all.take(k + 1) =~= all.take(k).push(all[k]));
                            assert(out@.map_values(|t: ToolCall| (t.id@, t.name@, t.args@)) =~= before.map_values(
                                |t: ToolCall| (t.id@, t.name@, t.args@),
                            ).push(tv));
                            assert(all.take(k + 1).map_values(|t: current::ToolCall| tool_call_view(t)) =~= all.take(
                                k,
                            ).map_values(|t: current::ToolCall| tool_call_view(t)).push(tv));
                            k = k + 1;
                        }
                    }
                    assert(all.take(k) =~= all);
                    Some(out)
                },
                None => None,
            };
            Message::Assistant { content, refusal, tool_calls: calls }
        },
        current::Message::Tool { tool_call_id, content } => Message::Tool { tool_call_id, content },
    }
}

/// What a new session is made of: its name and model, and the session and
/// checkpoint it was forked from, where it was.
#[derive(Debug)]
pub struct NewSession {
    pub name: Option<String>,
    pub model: String,
    pub parent_session_id: Option<uuid::Uuid>,
    pub parent_checkpoint_id: Option<uuid::Uuid>,
}

/// What a new checkpoint is made of: its session, the run it belongs to,
/// why it is taken and the context it holds.
#[derive(Debug)]
pub struct NewCheckpoint {
    pub session_id: uuid::Uuid,
    pub run_id: Option<uuid::Uuid>,
    pub kind: CheckpointKind,
    pub snapshot: ContextSnapshot,
}

/// The session a fork of the checkpoint `parent_id` (taken in the session
/// `parent_session_id` with the model `parent_model`) starts: it points to
/// both parents and keeps the parent's model.
pub fn fork_session_input(
    parent_id: uuid::Uuid,
    parent_session_id: uuid::Uuid,
    parent_model: &String,
    name: Option<String>,
) -> (r: NewSession)
    ensures
        r.name == name,
        r.model@ == parent_model@,
        r.parent_session_id == Some(parent_session_id),
        r.parent_checkpoint_id == Some(parent_id),
{
    NewSession {
        name,
        model: parent_model.clone(),
        parent_session_id: Some(parent_session_id),
        parent_checkpoint_id: Some(parent_id),
    }
}

/// The first checkpoint of a forked session: a fork checkpoint of no run
/// that holds the parent checkpoint's snapshot.
pub fn fork_checkpoint_input(session_id: uuid::Uuid, parent_snapshot: ContextSnapshot) -> (r: NewCheckpoint)
    ensures
        r.session_id == session_id,
        r.run_id is None,
        r.kind == CheckpointKind::Fork,
        r.snapshot == parent_snapshot,
{
    NewCheckpoint { session_id, run_id: None, kind: CheckpointKind::Fork, snapshot: parent_snapshot }
}

} // verus!
