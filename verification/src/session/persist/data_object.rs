//! The records the session store reads and writes, as plain values.
use vstd::prelude::*;
use vstd::string::*;

use crate::resolver::action::str_equals;

verus! {

/// Whether a session is in use.
#[derive(Debug, Clone, Copy, PartialEq, Eq, Structural)]
pub enum Status {
    Active,
    Archived,
}

/// Counts of what the store holds.
#[derive(Debug, Clone, Copy, PartialEq, Eq, Structural)]
pub struct PersistDiagnostics {
    pub session_count: i64,
    pub checkpoint_count: i64,
    pub message_count: i64,
    pub checkpoint_local_ref_count: i64,
}

/// A tool call as stored.
#[derive(Debug)]
pub struct ToolCall {
    pub id: String,
    pub name: String,
    pub args: String,
}

impl Clone for ToolCall {
    fn clone(&self) -> (r: Self)
        ensures
            r == *self,
    {
        ToolCall { id: self.id.clone(), name: self.name.clone(), args: self.args.clone() }
    }
}

/// A stored message, tagged by role.
#[derive(Debug)]
#[allow(inconsistent_fields)]
pub enum Message {
    System { content: String },
    User { content: String },
    Assistant { content: Option<String>, refusal: Option<String>, tool_calls: Option<Vec<ToolCall>> },
    Tool { tool_call_id: String, content: String },
}

/// A stored tool call as text: id, name and arguments.
pub type ToolCallView = (Seq<char>, Seq<char>, Seq<char>);

/// A stored message as text.
#[allow(inconsistent_fields)]
pub enum MessageView {
    System { content: Seq<char> },
    User { content: Seq<char> },
    Assistant {
        content: Option<Seq<char>>,
        refusal: Option<Seq<char>>,
        tool_calls: Option<Seq<ToolCallView>>,
    },
    Tool { tool_call_id: Seq<char>, content: Seq<char> },
}

pub open spec fn opt_text(s: Option<String>) -> Option<Seq<char>> {
    match s {
        Some(x) => Some(x@),
        None => None,
    }
}

pub open spec fn tool_call_view(c: ToolCall) -> ToolCallView {
    (c.id@, c.name@, c.args@)
}

pub open spec fn tool_calls_view(c: Option<Vec<ToolCall>>) -> Option<Seq<ToolCallView>> {
    match c {
        Some(v) => Some(v@.map_values(|t: ToolCall| tool_call_view(t))),
        None => None,
    }
}

impl View for Message {
    type V = MessageView;

    open spec fn view(&self) -> MessageView {
        match self {
            Message::System { content } => MessageView::System { content: content@ },
            Message::User { content } => MessageView::User { content: content@ },
            Message::Assistant { content, refusal, tool_calls } => MessageView::Assistant {
                content: opt_text(*content),
                refusal: opt_text(*refusal),
                tool_calls: tool_calls_view(*tool_calls),
            },
            Message::Tool { tool_call_id, content } => MessageView::Tool {
                tool_call_id: tool_call_id@,
                content: content@,
            },
        }
    }
}

/// The role tag of a stored message.
pub open spec fn role_name(m: MessageView) -> Seq<char> {
    match m {
        MessageView::System { .. } => "system"@,
        MessageView::User { .. } => "user"@,
        MessageView::Assistant { .. } => "assistant"@,
        MessageView::Tool { .. } => "tool"@,
    }
}

impl Message {
    pub fn role(&self) -> (r: &'static str)
        ensures
            r@ == role_name(self@),
    {
        proof {
            reveal_strlit("system");
            reveal_strlit("user");
            reveal_strlit("assistant");
            reveal_strlit("tool");
        }
        match self {
            Message::System { .. } => "system",
            Message::User { .. } => "user",
            Message::Assistant { .. } => "assistant",
            Message::Tool { .. } => "tool",
        }
    }
}

fn opt_equals(a: &Option<String>, b: &Option<String>) -> (r: bool)
    ensures
        r == (opt_text(*a) == opt_text(*b)),
{
    match (a, b) {
        (Some(x), Some(y)) => str_equals(x.as_str(), y.as_str()),
        (None, None) => true,
        _ => false,
    }
}

fn calls_equal(a: &Option<Vec<ToolCall>>, b: &Option<Vec<ToolCall>>) -> (r: bool)
    ensures
        r == (tool_calls_view(*a) == tool_calls_view(*b)),
{
    match (a, b) {
        (Some(x), Some(y)) => {
            let ghost xv = x@.map_values(|t: ToolCall| tool_call_view(t));
            let ghost yv = y@.map_values(|t: ToolCall| tool_call_view(t));
            if x.len() != y.len() {
                assert(xv.len() != yv.len());
                return false;
            }
            let mut i: usize = 0;
            while i < x.len()
                invariant
                    x@.len() == y@.len(),
                    xv == x@.map_values(|t: ToolCall| tool_call_view(t)),
                    yv == y@.map_values(|t: ToolCall| tool_call_view(t)),
                    tool_calls_view(*a) == Some(xv),
                    tool_calls_view(*b) == Some(yv),
                    i <= x@.len(),
                    forall|k: int| 0 <= k < i ==> xv[k] == yv[k],
                decreases x@.len() - i,
            {
                let same = str_equals(x[i].id.as_str(), y[i].id.as_str()) && str_equals(
                    x[i].name.as_str(),
                    y[i].name.as_str(),
                ) && str_equals(x[i].args.as_str(), y[i].args.as_str());
                if !same {
                    assert(xv[i as int] != yv[i as int]);
                    return false;
                }
                i = i + 1;
            }
            assert(xv =~= yv);
            true
        },
        (None, None) => true,
        _ => false,
    }
}

/// Whether two stored messages hold the same text.
pub fn message_equals(a: &Message, b: &Message) -> (r: bool)
    ensures
        r == (a@ == b@),
{
    match (a, b) {
        (Message::System { content: x }, Message::System { content: y }) => str_equals(x.as_str(), y.as_str()),
        (Message::User { content: x }, Message::User { content: y }) => str_equals(x.as_str(), y.as_str()),
        (
            Message::Assistant { content: c1, refusal: r1, tool_calls: t1 },
            Message::Assistant { content: c2, refusal: r2, tool_calls: t2 },
        ) => opt_equals(c1, c2) && opt_equals(r1, r2) && calls_equal(t1, t2),
        (Message::Tool { tool_call_id: i1, content: c1 }, Message::Tool { tool_call_id: i2, content: c2 }) => {
            str_equals(i1.as_str(), i2.as_str()) && str_equals(c1.as_str(), c2.as_str())
        },
        _ => false,
    }
}

/// The SHA-256 digest of `bytes`.
pub uninterp spec fn sha256_of(bytes: Seq<u8>) -> Seq<u8>;

/// `sha2::Sha256::digest`: the 32-byte digest of `bytes`, named by
/// [`sha256_of`].
#[verifier::external_body]
fn sha256(bytes: &[u8]) -> (r: Vec<u8>)
    ensures
        r@ == sha256_of(bytes@),
        r@.len() == 32,
{
    <sha2::Sha256 as sha2::Digest>::digest(bytes).to_vec()
}

/// The hash a stored message is found by: the SHA-256 digest of its
/// canonical JSON text.
pub fn hash_message(canonical_json: &[u8]) -> (r: Vec<u8>)
    ensures
        r@ == sha256_of(canonical_json@),
        r@.len() == 32,
{
    sha256(canonical_json)
}

/// The bytes of a stored message's id: the first 16 bytes of its hash, so
/// that the same message always gets the same id.
pub fn message_id_bytes(hash: &Vec<u8>) -> (r: Vec<u8>)
    requires
        hash@.len() >= 16,
    ensures
        r@ == hash@.take(16),
{
    let mut out: Vec<u8> = Vec::new();
    let mut i: usize = 0;
    while i < 16
        invariant
            hash@.len() >= 16,
            i <= 16,
            out@ == hash@.take(i as int),
        decreases 16 - i,
    {
        out.push(hash[i]);
        i = i + 1;
        assert(out@ =~= hash@.take(i as int));
    }
    out
}

#[verifier::external_type_specification]
#[verifier::external_body]
pub struct ExUuid(uuid::Uuid);

#[verifier::external_type_specification]
#[verifier::external_body]
pub struct ExUuidError(uuid::Error);

/// The UUID made of 16 bytes, in order.
pub uninterp spec fn uuid_from_bytes(bytes: Seq<u8>) -> uuid::Uuid;

/// `uuid::Uuid::from_slice`: the UUID of exactly 16 bytes, named by
/// [`uuid_from_bytes`]; an error for any other length.
#[verifier::external_body]
fn uuid_from_slice(bytes: &[u8]) -> (r: Result<uuid::Uuid, uuid::Error>)
    ensures
        r is Ok <==> bytes@.len() == 16,
        r matches Ok(u) ==> u == uuid_from_bytes(bytes@),
{
    uuid::Uuid::from_slice(bytes)
}

/// The row a stored message is kept under, from its canonical JSON text:
/// the id made of the first 16 bytes of its hash, and the hash. The same
/// message always gets the same id.
pub fn upsert_row(canonical_json: &[u8]) -> (r: (uuid::Uuid, Vec<u8>))
    ensures
        r.1@ == sha256_of(canonical_json@),
        r.0 == uuid_from_bytes(sha256_of(canonical_json@).take(16)),
{
    let hash = hash_message(canonical_json);
    let id_bytes = message_id_bytes(&hash);
    match uuid_from_slice(id_bytes.as_slice()) {
        Ok(id) => (id, hash),
        Err(_) => vstd::pervasive::unreached(),
    }
}

/// Why a checkpoint was taken.
#[derive(Debug, Clone, Copy, PartialEq, Eq, Structural)]
pub enum CheckpointKind {
    BeforeSolution,
    AfterSolution,
    Fork,
}

/// The model and messages of a context.
#[derive(Debug)]
pub struct ContextSnapshot {
    pub model: String,
    pub messages: Vec<Message>,
}

/// What a new session is made of: its name and model, and the checkpoint
/// it was forked from, where it was.
#[derive(Debug)]
pub struct NewSession {
    pub name: Option<String>,
    pub model: String,
    pub forked_from_checkpoint_id: Option<uuid::Uuid>,
}

/// What a new checkpoint is made of: its session, the solution it belongs
/// to, why it is taken, its model, and the messages of the context; the
/// store decides whether it rests on a base checkpoint.
#[derive(Debug)]
pub struct NewCheckpoint {
    pub session_id: uuid::Uuid,
    pub solution_id: Option<uuid::Uuid>,
    pub kind: CheckpointKind,
    pub model: String,
    pub messages: Vec<Message>,
}

/// The session a fork of the checkpoint `parent_checkpoint_id`, taken with
/// the model `parent_model`, starts: it points to that checkpoint and keeps
/// its model.
pub fn fork_session_input(parent_checkpoint_id: uuid::Uuid, parent_model: &String, name: Option<String>) -> (r: NewSession)
    ensures
        r.name == name,
        r.model@ == parent_model@,
        r.forked_from_checkpoint_id == Some(parent_checkpoint_id),
{
    NewSession { name, model: parent_model.clone(), forked_from_checkpoint_id: Some(parent_checkpoint_id) }
}

/// The first checkpoint of a forked session and the checkpoint it rests
/// on: a fork checkpoint of no solution, with the parent's model and no
/// messages of its own, resting on the parent checkpoint.
pub fn fork_checkpoint_input(session_id: uuid::Uuid, parent_checkpoint_id: uuid::Uuid, parent_model: String) -> (r: (
    NewCheckpoint,
    Option<uuid::Uuid>,
))
    ensures
        r.0.session_id == session_id,
        r.0.solution_id is None,
        r.0.kind == CheckpointKind::Fork,
        r.0.model@ == parent_model@,
        r.0.messages@.len() == 0,
        r.1 == Some(parent_checkpoint_id),
{
    (
        NewCheckpoint {
            session_id,
            solution_id: None,
            kind: CheckpointKind::Fork,
            model: parent_model,
            messages: Vec::new(),
        },
        Some(parent_checkpoint_id),
    )
}

} // verus!
