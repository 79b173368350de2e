//! The context a resolver is asked with: the model, the conversation so far
//! and the tools offered.
use vstd::prelude::*;

use crate::resolver::message::IMessage;
use crate::resolver::tool::ToolDefination;

verus! {

/// A message with an annotation that travels with it.
#[derive(Debug, Clone)]
pub struct AnnotatedMessage<M, A = ()> where M: IMessage {
    pub message: M,
    pub annotation: A,
}

impl<M, A> AnnotatedMessage<M, A> where M: IMessage {
    pub fn new(message: M, annotation: A) -> (r: Self)
        ensures
            r.message == message,
            r.annotation == annotation,
    {
        Self { message, annotation }
    }
}

/// The conversation and tools of a resolver call. It owns its messages and
/// tool definitions, so an agent can push, replace or drop them.
pub struct Context<M, A = ()> where M: IMessage {
    model: String,
    messages: Vec<AnnotatedMessage<M, A>>,
    tool_defs: Vec<ToolDefination>,
}

pub struct ContextView<M, A> where M: IMessage {
    pub model: Seq<char>,
    pub messages: Seq<AnnotatedMessage<M, A>>,
    pub tool_defs: Seq<ToolDefination>,
}

impl<M, A> View for Context<M, A> where M: IMessage {
    type V = ContextView<M, A>;

    closed spec fn view(&self) -> ContextView<M, A> {
        ContextView { model: self.model@, messages: self.messages@, tool_defs: self.tool_defs@ }
    }
}

/// The messages of a run of annotated messages.
pub open spec fn plain_messages<M: IMessage, A>(s: Seq<AnnotatedMessage<M, A>>) -> Seq<M> {
    s.map_values(|m: AnnotatedMessage<M, A>| m.message)
}

impl<M, A> Context<M, A> where M: IMessage {
    pub fn new(model: String) -> (r: Self)
        ensures
            r@.model == model@,
            r@.messages == Seq::<AnnotatedMessage<M, A>>::empty(),
            r@.tool_defs == Seq::<ToolDefination>::empty(),
    {
        let r = Self { model, messages: Vec::new(), tool_defs: Vec::new() };
        assert(r@.messages =~= Seq::<AnnotatedMessage<M, A>>::empty());
        r
    }

    pub fn annotated_messages(&self) -> (r: &[AnnotatedMessage<M, A>])
        ensures
            r@ == self@.messages,
    {
        self.messages.as_slice()
    }

    pub fn message_at(&self, index: usize) -> (r: Option<&M>)
        ensures
            index < self@.messages.len() ==> r == Some(&self@.messages[index as int].message),
            index >= self@.messages.len() ==> r is None,
    {
        if index < self.messages.len() {
            Some(&self.messages[index].message)
        } else {
            None
        }
    }

    /// The messages, in order, without their annotations.
    pub fn messages(&self) -> (r: Vec<&M>)
        ensures
            r@.len() == self@.messages.len(),
            forall|i: int| 0 <= i < r@.len() ==> *#[trigger] r@[i] == self@.messages[i].message,
    {
        let mut out: Vec<&M> = Vec::new();
        let mut i: usize = 0;
        while i < self.messages.len()
            invariant
                i <= self.messages.len(),
                out@.len() == i,
                forall|k: int| 0 <= k < i ==> *#[trigger] out@[k] == self@.messages[k].message,
            decreases self.messages.len() - i,
        {
            out.push(&self.messages[i].message);
            i = i + 1;
        }
        out
    }

    pub fn push_annotated_message(&mut self, message: AnnotatedMessage<M, A>)
        ensures
            final(self)@.messages == old(self)@.messages.push(message),
            final(self)@.model == old(self)@.model,
            final(self)@.tool_defs == old(self)@.tool_defs,
    {
        self.messages.push(message);
    }

    /// Takes all messages out, leaving none.
    pub fn take_annotated_messages(&mut self) -> (r: Vec<AnnotatedMessage<M, A>>)
        ensures
            r@ == old(self)@.messages,
            final(self)@.messages == Seq::<AnnotatedMessage<M, A>>::empty(),
            final(self)@.model == old(self)@.model,
            final(self)@.tool_defs == old(self)@.tool_defs,
    {
        let mut taken: Vec<AnnotatedMessage<M, A>> = Vec::new();
        std::mem::swap(&mut taken, &mut self.messages);
        assert(self@.messages =~= Seq::<AnnotatedMessage<M, A>>::empty());
        taken
    }

    pub fn set_annotated_messages(&mut self, messages: Vec<AnnotatedMessage<M, A>>)
        ensures
            final(self)@.messages == messages@,
            final(self)@.model == old(self)@.model,
            final(self)@.tool_defs == old(self)@.tool_defs,
    {
        self.messages = messages;
    }

    pub fn message_count(&self) -> (r: usize)
        ensures
            r == self@.messages.len(),
    {
        self.messages.len()
    }

    pub fn tool_defs(&self) -> (r: &[ToolDefination])
        ensures
            r@ == self@.tool_defs,
    {
        self.tool_defs.as_slice()
    }

    pub fn set_tool_defs(&mut self, tool_defs: Vec<ToolDefination>)
        ensures
            final(self)@.tool_defs == tool_defs@,
            final(self)@.model == old(self)@.model,
            final(self)@.messages == old(self)@.messages,
    {
        self.tool_defs = tool_defs;
    }

    pub fn model(&self) -> (r: &str)
        ensures
            r@ == self@.model,
    {
        self.model.as_str()
    }

    pub fn set_model(&mut self, model: String)
        ensures
            final(self)@.model == model@,
            final(self)@.messages == old(self)@.messages,
            final(self)@.tool_defs == old(self)@.tool_defs,
    {
        self.model = model;
    }
}

impl<M, A> Context<M, A> where M: IMessage, A: Default {
    /// Puts a message just before the last one (at the end when there is
    /// none), keeping the others in order.
    pub fn inject_before_last(&mut self, message: AnnotatedMessage<M, A>)
        ensures
            old(self)@.messages.len() == 0 ==> final(self)@.messages == seq![message],
            old(self)@.messages.len() > 0 ==> final(self)@.messages == old(self)@.messages.insert(
                old(self)@.messages.len() - 1,
                message,
            ),
            final(self)@.model == old(self)@.model,
            final(self)@.tool_defs == old(self)@.tool_defs,
    {
        let n = self.messages.len();
        if n == 0 {
            self.messages.push(message);
            assert(self@.messages =~= seq![message]);
        } else {
            self.messages.insert(n - 1, message);
        }
    }

    /// Appends a message with a default annotation.
    pub fn push_message(&mut self, message: M)
        ensures
            final(self)@.messages.len() == old(self)@.messages.len() + 1,
            final(self)@.messages.drop_last() == old(self)@.messages,
            final(self)@.messages.last().message == message,
            final(self)@.model == old(self)@.model,
            final(self)@.tool_defs == old(self)@.tool_defs,
    {
        self.messages.push(AnnotatedMessage::new(message, A::default()));
        assert(self@.messages.drop_last() =~= old(self)@.messages);
    }

    /// Takes all messages out without their annotations, leaving none.
    pub fn take_messages(&mut self) -> (r: Vec<M>)
        ensures
            r@ == plain_messages(old(self)@.messages),
            final(self)@.messages == Seq::<AnnotatedMessage<M, A>>::empty(),
            final(self)@.model == old(self)@.model,
            final(self)@.tool_defs == old(self)@.tool_defs,
    {
        let taken = self.take_annotated_messages();
        let ghost orig = taken@;
        let mut rest = taken;
        let mut out: Vec<M> = Vec::new();
        while rest.len() > 0
            invariant
                out@.len() + rest@.len() == orig.len(),
                rest@ == orig.skip(out@.len() as int),
                out@ == plain_messages(orig).take(out@.len() as int),
            decreases rest.len(),
        {
            let ghost k = out@.len() as int;
            let m = rest.remove(0);
            assert(orig.skip(k)[0] == orig[k]);
            out.push(m.message);
            assert(rest@ =~= orig.skip(k + 1));
            assert(out@ =~= plain_messages(orig).take(k + 1));
        }
        assert(plain_messages(orig).take(orig.len() as int) =~= plain_messages(orig));
        out
    }

    /// Replaces all messages, each with a default annotation.
    pub fn set_messages(&mut self, messages: Vec<M>)
        ensures
            plain_messages(final(self)@.messages) == messages@,
            final(self)@.model == old(self)@.model,
            final(self)@.tool_defs == old(self)@.tool_defs,
    {
        self.messages = annotate_all(messages);
    }

    /// Replaces the first message (the system prompt), or pushes it as the
    /// only message when there is none.
    pub fn set_system_message(&mut self, message: M)
        ensures
            old(self)@.messages.len() == 0 ==> final(self)@.messages.len() == 1,
            old(self)@.messages.len() > 0 ==> final(self)@.messages.len() == old(self)@.messages.len()
                && final(self)@.messages[0].annotation == old(self)@.messages[0].annotation
                && final(self)@.messages.skip(1) == old(self)@.messages.skip(1),
            final(self)@.messages[0].message == message,
            final(self)@.model == old(self)@.model,
            final(self)@.tool_defs == old(self)@.tool_defs,
    {
        if self.messages.len() == 0 {
            self.push_message(message);
        } else {
            let mut taken = self.take_annotated_messages();
            let first = taken.remove(0);
            taken.insert(0, AnnotatedMessage::new(message, first.annotation));
            self.set_annotated_messages(taken);
            assert(self@.messages.skip(1) =~= old(self)@.messages.skip(1));
        }
    }
}

impl<M, A> Context<M, A> where M: IMessage + Clone {
    /// A copy of every message, in order.
    pub fn snapshot_messages(&self) -> (r: Vec<M>)
        ensures
            r@.len() == self@.messages.len(),
            forall|i: int|
                0 <= i < r@.len() ==> cloned(self@.messages[i].message, #[trigger] r@[i]),
    {
        let mut out: Vec<M> = Vec::new();
        let mut i: usize = 0;
        while i < self.messages.len()
            invariant
                i <= self.messages.len(),
                out@.len() == i,
                forall|k: int|
                    0 <= k < i ==> cloned(self@.messages[k].message, #[trigger] out@[k]),
            decreases self.messages.len() - i,
        {
            out.push(self.messages[i].message.clone());
            i = i + 1;
        }
        out
    }
}

/// Each message with a default annotation, in order.
fn annotate_all<M: IMessage, A: Default>(messages: Vec<M>) -> (r: Vec<AnnotatedMessage<M, A>>)
    ensures
        plain_messages(r@) == messages@,
{
    let ghost orig = messages@;
    let mut rest = messages;
    let mut out: Vec<AnnotatedMessage<M, A>> = Vec::new();
    while rest.len() > 0
        invariant
            out@.len() + rest@.len() == orig.len(),
            rest@ == orig.skip(out@.len() as int),
            plain_messages(out@) == orig.take(out@.len() as int),
        decreases rest.len(),
    {
        let ghost k = out@.len() as int;
        let m = rest.remove(0);
        assert(orig.skip(k)[0] == orig[k]);
        out.push(AnnotatedMessage::new(m, A::default()));
        assert(rest@ =~= orig.skip(k + 1));
        assert(plain_messages(out@) =~= orig.take(k + 1));
    }
    assert(orig.take(orig.len() as int) =~= orig);
    out
}

/// Builds a context step by step.
pub struct ContextBuilder<M, A = ()> where M: IMessage {
    model: String,
    messages: Vec<AnnotatedMessage<M, A>>,
    tool_defs: Vec<ToolDefination>,
}

impl<M, A> View for ContextBuilder<M, A> where M: IMessage {
    type V = ContextView<M, A>;

    closed spec fn view(&self) -> ContextView<M, A> {
        ContextView { model: self.model@, messages: self.messages@, tool_defs: self.tool_defs@ }
    }
}

impl<M, A> ContextBuilder<M, A> where M: IMessage {
    pub fn new(model: &str) -> (r: Self)
        ensures
            r@.model == model@,
            r@.messages == Seq::<AnnotatedMessage<M, A>>::empty(),
            r@.tool_defs == Seq::<ToolDefination>::empty(),
    {
        let r = Self { model: model.to_owned(), messages: Vec::new(), tool_defs: Vec::new() };
        assert(r@.messages =~= Seq::<AnnotatedMessage<M, A>>::empty());
        r
    }

    pub fn annotated_messages(self, messages: Vec<AnnotatedMessage<M, A>>) -> (r: Self)
        ensures
            r@.model == self@.model,
            r@.messages == messages@,
            r@.tool_defs == self@.tool_defs,
    {
        ContextBuilder { messages, ..self }
    }

    pub fn tool_defs(self, tool_defs: Vec<ToolDefination>) -> (r: Self)
        ensures
            r@.model == self@.model,
            r@.messages == self@.messages,
            r@.tool_defs == tool_defs@,
    {
        ContextBuilder { tool_defs, ..self }
    }

    pub fn build(self) -> (r: Context<M, A>)
        ensures
            r@.model == self@.model,
            r@.messages == self@.messages,
            r@.tool_defs == self@.tool_defs,
    {
        Context { model: self.model, messages: self.messages, tool_defs: self.tool_defs }
    }
}

impl<M, A> ContextBuilder<M, A> where M: IMessage, A: Default {
    /// Sets the messages, each with a default annotation.
    pub fn messages(self, messages: Vec<M>) -> (r: Self)
        ensures
            r@.model == self@.model,
            plain_messages(r@.messages) == messages@,
            r@.tool_defs == self@.tool_defs,
    {
        ContextBuilder { messages: annotate_all(messages), ..self }
    }
}

} // verus!
