//! Sessions: named conversations whose agent contexts are checkpointed in a
//! store.
use vstd::prelude::*;

use core::marker::PhantomData;

use crate::resolver::context::{Context, plain_messages};
use crate::resolver::message::IMessage;
use crate::resolver::openai::message::ChatMessage;
use crate::session::persist::codec::{
    CodecError, IContextSnapshotCodec, OpenAiCodec, decode_context, encode_all, encode_context,
    stored_views,
};
use crate::session::persist::data_object::{ContextSnapshot, MessageView};

pub mod persist;

verus! {

/// Creates sessions and checkpoints in a store `S`, turning contexts of
/// messages `M` into stored messages with the codec `C`.
#[derive(Debug)]
pub struct SessionManager<S, M, C> {
    store: S,
    codec: C,
    message: PhantomData<M>,
}

impl<S> SessionManager<S, ChatMessage, OpenAiCodec> {
    /// A manager for OpenAI-shaped messages.
    pub fn new_openai(store: S) -> (r: Self)
        ensures
            r.store_spec() == store,
            r.codec_spec() == OpenAiCodec,
    {
        Self { store, codec: OpenAiCodec, message: PhantomData }
    }
}

impl<S, M, C> SessionManager<S, M, C> {
    pub fn new(store: S, codec: C) -> (r: Self)
        ensures
            r.store_spec() == store,
            r.codec_spec() == codec,
    {
        Self { store, codec, message: PhantomData }
    }

    pub closed spec fn store_spec(&self) -> S {
        self.store
    }

    pub closed spec fn codec_spec(&self) -> C {
        self.codec
    }

    pub fn store(&self) -> (r: &S)
        ensures
            *r == self.store_spec(),
    {
        &self.store
    }

    /// The codec contexts are stored with.
    pub fn codec(&self) -> (r: &C)
        ensures
            *r == self.codec_spec(),
    {
        &self.codec
    }
}

impl<S, M: IMessage, C: IContextSnapshotCodec<M>> SessionManager<S, M, C> {
    /// The snapshot a checkpoint of `context` stores: its model and its
    /// messages as the manager's codec stores them, or the first message the
    /// codec cannot store.
    pub fn encode_snapshot<A>(&self, context: &Context<M, A>) -> (r: Result<ContextSnapshot, CodecError>)
        ensures
            match r {
                Ok(s) => {
                    &&& s.model@ == context@.model
                    &&& encode_all(self.codec_spec(), plain_messages(context@.messages), context@.messages.len())
                        == Ok::<Seq<MessageView>, Seq<char>>(stored_views(s.messages@))
                },
                Err(e) => encode_all(self.codec_spec(), plain_messages(context@.messages), context@.messages.len())
                    == Err::<Seq<MessageView>, Seq<char>>(e.message@),
            },
    {
        encode_context(&self.codec, context)
    }

    /// The context a snapshot stands for, read back with the manager's codec:
    /// the snapshot's model and one message per stored message, or the error
    /// of a stored message the codec cannot read.
    pub fn decode_snapshot(&self, snapshot: &ContextSnapshot) -> (r: Result<Context<M>, CodecError>)
        ensures
            match r {
                Ok(cx) => {
                    &&& cx@.model == snapshot.model@
                    &&& cx@.messages.len() == snapshot.messages@.len()
                    &&& cx@.tool_defs.len() == 0
                    &&& forall|i: int| 0 <= i < snapshot.messages@.len() ==> self.codec_spec().decode_spec(
                        #[trigger] snapshot.messages@[i]@,
                        Ok(cx@.messages[i].message),
                    )
                },
                Err(e) => exists|i: int| 0 <= i < snapshot.messages@.len() && self.codec_spec().decode_spec(
                    #[trigger] snapshot.messages@[i]@,
                    Err(e.message@),
                ),
            },
    {
        decode_context::<M, (), C>(&self.codec, snapshot)
    }
}

} // verus!
