//! What the model decided to do in one completion.
use vstd::prelude::*;
use vstd::string::*;

use crate::resolver::tool::IToolCall;

verus! {

/// Why the model stopped producing output.
#[derive(Debug, Clone, PartialEq, Eq)]
pub enum Reason {
    Finish,
    Length,
    ToolCall,
    Unknown(String),
}

pub enum ReasonView {
    Finish,
    Length,
    ToolCall,
    Unknown(Seq<char>),
}

impl View for Reason {
    type V = ReasonView;

    open spec fn view(&self) -> ReasonView {
        match self {
            Reason::Finish => ReasonView::Finish,
            Reason::Length => ReasonView::Length,
            Reason::ToolCall => ReasonView::ToolCall,
            Reason::Unknown(s) => ReasonView::Unknown(s@),
        }
    }
}

/// The reason named by an OpenAI-style `finish_reason` value.
pub open spec fn reason_of_finish(s: Seq<char>) -> ReasonView {
    if s == "stop"@ {
        ReasonView::Finish
    } else if s == "length"@ {
        ReasonView::Length
    } else if s == "tool_calls"@ || s == "function_call"@ {
        ReasonView::ToolCall
    } else {
        ReasonView::Unknown(s)
    }
}

/// Maps a `finish_reason` value: `stop`, `length`, `tool_calls` or
/// `function_call`; anything else is kept as an unknown reason.
pub fn reason_from_finish(s: &str) -> (r: Reason)
    ensures
        r@ == reason_of_finish(s@),
{
    if str_equals(s, "stop") {
        Reason::Finish
    } else if str_equals(s, "length") {
        Reason::Length
    } else if str_equals(s, "tool_calls") || str_equals(s, "function_call") {
        Reason::ToolCall
    } else {
        Reason::Unknown(s.to_owned())
    }
}

/// Whether two strings hold the same characters.
pub fn str_equals(a: &str, b: &str) -> (r: bool)
    ensures
        r == (a@ == b@),
{
    let va = crate::text::chars_of(a);
    let vb = crate::text::chars_of(b);
    if va.len() != vb.len() {
        return false;
    }
    let mut i: usize = 0;
    while i < va.len()
        invariant
            va@ == a@,
            vb@ == b@,
            va.len() == vb.len(),
            i <= va.len(),
            forall|k: int| 0 <= k < i ==> a@[k] == b@[k],
        decreases va.len() - i,
    {
        if va[i] != vb[i] {
            return false;
        }
        i = i + 1;
    }
    assert(a@ =~= b@);
    true
}

/// One completion: why it stopped, its text, a refusal and the tool calls
/// it asked for.
#[derive(Debug)]
pub struct Action<C> where C: IToolCall {
    pub reason: Reason,
    pub content: Option<String>,
    pub refusal: Option<String>,
    pub tool_calls: Option<Vec<C>>,
}

} // verus!
