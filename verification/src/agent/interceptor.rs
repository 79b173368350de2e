//! What an interceptor tells the agent loop: go on, or stop with an output
//! (and, before a tool call, skip the call with a given answer).
use vstd::prelude::*;

verus! {

/// The answer of an interceptor at a step of the loop.
#[derive(Debug, PartialEq, Eq)]
pub enum InterceptorFlow {
    Continue,
    Stop { output: Option<String> },
}

/// The answer of an interceptor before a tool call.
#[derive(Debug, PartialEq, Eq)]
pub enum ToolInterceptorFlow {
    Continue,
    Skip { content: String },
    Stop { output: Option<String> },
}

impl InterceptorFlow {
    /// Whether the loop goes on; interceptors are asked in order until one
    /// does not let it.
    pub fn is_continue(&self) -> (r: bool)
        ensures
            r == (*self is Continue),
    {
        match self {
            InterceptorFlow::Continue => true,
            _ => false,
        }
    }
}

impl ToolInterceptorFlow {
    /// Whether the call goes ahead; interceptors are asked in order until
    /// one does not let it.
    pub fn is_continue(&self) -> (r: bool)
        ensures
            r == (*self is Continue),
    {
        match self {
            ToolInterceptorFlow::Continue => true,
            _ => false,
        }
    }
}

} // verus!
