//! The context of a conversation held as OpenAI-shaped messages.
use vstd::prelude::*;

use crate::resolver::context::Context as GenericContext;
use crate::resolver::openai::message::ChatMessage;

verus! {

/// A context of OpenAI-shaped messages.
pub type Context = GenericContext<ChatMessage>;

} // verus!
