//! Keeping the context of a long conversation bounded.
use vstd::prelude::*;

use crate::resolver::context::{AnnotatedMessage, Context};
use crate::resolver::message::{IMessage, MessageRole};

verus! {

/// Above this many messages the context is compacted.
pub const MAX_MESSAGES: usize = 80;

/// How many of the latest messages compaction keeps (besides the first).
pub const RESERVE_MESSAGES: usize = 50;

/// The position of the first user message in `s`, if any.
pub open spec fn first_user<M: IMessage, A>(s: Seq<AnnotatedMessage<M, A>>) -> Option<int>
    decreases s.len(),
{
    if s.len() == 0 {
        None
    } else if s[0].message.role_view() == MessageRole::User {
        Some(0)
    } else {
        match first_user(s.drop_first()) {
            Some(j) => Some(j + 1),
            None => None,
        }
    }
}

/// The messages after compaction: unchanged up to `MAX_MESSAGES`; otherwise
/// the first message (the system prompt) followed by the latest
/// `RESERVE_MESSAGES`, from which leading messages before the first user
/// message are dropped.
pub open spec fn compacted<M: IMessage, A>(s: Seq<AnnotatedMessage<M, A>>) -> Seq<
    AnnotatedMessage<M, A>,
> {
    if s.len() <= MAX_MESSAGES {
        s
    } else {
        let tail = s.skip(s.len() - RESERVE_MESSAGES);
        match first_user(tail) {
            Some(j) => seq![s[0]] + tail.skip(j),
            None => seq![s[0]] + tail,
        }
    }
}

/// `first_user` finds the first user message, when there is one.
pub proof fn lemma_first_user<M: IMessage, A>(s: Seq<AnnotatedMessage<M, A>>)
    ensures
        first_user(s) matches Some(j) ==> 0 <= j < s.len() && s[j].message.role_view()
            == MessageRole::User && forall|k: int|
            0 <= k < j ==> #[trigger] s[k].message.role_view() != MessageRole::User,
        first_user(s) is None ==> forall|k: int|
            0 <= k < s.len() ==> #[trigger] s[k].message.role_view() != MessageRole::User,
    decreases s.len(),
{
    if s.len() > 0 {
        let t = s.drop_first();
        lemma_first_user(t);
        if s[0].message.role_view() != MessageRole::User {
            assert forall|k: int|
                0 <= k < s.len() && (first_user(s) is None || k < first_user(s)->0) implies
                #[trigger] s[k].message.role_view() != MessageRole::User by {
                if k > 0 {
                    assert(s[k] == t[k - 1]);
                }
            }
            if let Some(j) = first_user(t) {
                assert(s[j + 1] == t[j]);
            }
        }
    }
}

/// Compaction bounds the context, keeps the first message, keeps a suffix of
/// the rest that starts at a user message where the kept window has one, and
/// leaves an already compacted context as it is.
pub proof fn lemma_compacted<M: IMessage, A>(s: Seq<AnnotatedMessage<M, A>>)
    ensures
        compacted(s).len() <= s.len(),
        s.len() > MAX_MESSAGES ==> compacted(s).len() <= RESERVE_MESSAGES + 1,
        s.len() > 0 ==> compacted(s)[0] == s[0],
        s.len() > MAX_MESSAGES ==> compacted(s).skip(1) == s.skip(
            s.len() - (compacted(s).len() - 1),
        ),
        s.len() > MAX_MESSAGES && first_user(s.skip(s.len() - RESERVE_MESSAGES)) is Some
            ==> compacted(s)[1].message.role_view() == MessageRole::User,
        compacted(compacted(s)) == compacted(s),
{
    if s.len() > MAX_MESSAGES {
        let tail = s.skip(s.len() - RESERVE_MESSAGES);
        lemma_first_user(tail);
        match first_user(tail) {
            Some(j) => {
                assert((seq![s[0]] + tail.skip(j)).skip(1) =~= tail.skip(j));
                assert(tail.skip(j) =~= s.skip(s.len() - RESERVE_MESSAGES + j));
                assert((seq![s[0]] + tail.skip(j))[1] == tail[j]);
            },
            None => {
                assert((seq![s[0]] + tail).skip(1) =~= tail);
            },
        }
    }
}

/// What compaction keeps of a context, stated from the messages alone: a
/// context of at most `MAX_MESSAGES` messages is kept whole; a longer one
/// keeps its first message and then every message from some point `start`
/// on, at least one, all within the latest `RESERVE_MESSAGES`. When the
/// latest `RESERVE_MESSAGES` hold a user message, `start` is the first of
/// them (no user message is skipped, and the window opens on a user
/// message); when they hold none, the whole window is kept.
pub proof fn lemma_compaction_window<M: IMessage, A>(s: Seq<AnnotatedMessage<M, A>>)
    ensures
        s.len() <= MAX_MESSAGES ==> compacted(s) == s,
        s.len() > MAX_MESSAGES ==> {
            let n = compacted(s).len();
            let start = s.len() - (n - 1);
            &&& 2 <= n
            &&& compacted(s)[0] == s[0]
            &&& compacted(s).skip(1) == s.skip(start)
            &&& s.len() - RESERVE_MESSAGES <= start < s.len()
            &&& forall|k: int|
                s.len() - RESERVE_MESSAGES <= k < start ==> #[trigger] s[k].message.role_view()
                    != MessageRole::User
            &&& (exists|k: int|
                s.len() - RESERVE_MESSAGES <= k < s.len() && #[trigger] s[k].message.role_view()
                    == MessageRole::User) ==> s[start].message.role_view() == MessageRole::User
            &&& (forall|k: int|
                s.len() - RESERVE_MESSAGES <= k < s.len() ==> #[trigger] s[k].message.role_view()
                    != MessageRole::User) ==> n == RESERVE_MESSAGES + 1
        },
{
    if s.len() > MAX_MESSAGES {
        let base = s.len() - RESERVE_MESSAGES;
        let tail = s.skip(base);
        lemma_first_user(tail);
        let c = compacted(s);
        match first_user(tail) {
            Some(j) => {
                assert(c == seq![s[0]] + tail.skip(j));
                assert(c.skip(1) =~= tail.skip(j));
                assert(tail.skip(j) =~= s.skip(base + j));
                assert(tail[j] == s[base + j]);
                assert forall|k: int| base <= k < base + j implies #[trigger] s[k].message.role_view()
                    != MessageRole::User by {
                    assert(s[k] == tail[k - base]);
                }
            },
            None => {
                assert(c == seq![s[0]] + tail);
                assert(c.skip(1) =~= tail);
                assert forall|k: int| base <= k < s.len() implies #[trigger] s[k].message.role_view()
                    != MessageRole::User by {
                    assert(s[k] == tail[k - base]);
                }
            },
        }
    }
}

fn first_user_index<M: IMessage, A>(s: &Vec<AnnotatedMessage<M, A>>) -> (r: usize)
    ensures
        r <= s@.len(),
        first_user(s@) matches Some(j) ==> r == j,
        first_user(s@) is None ==> r == s@.len(),
{
    proof {
        lemma_first_user(s@);
    }
    let mut j: usize = 0;
    while j < s.len() && s[j].message.role() != MessageRole::User
        invariant
            j <= s@.len(),
            forall|k: int| 0 <= k < j ==> #[trigger] s@[k].message.role_view() != MessageRole::User,
            first_user(s@) matches Some(f) ==> j <= f && 0 <= f < s@.len()
                && s@[f].message.role_view() == MessageRole::User,
            first_user(s@) is None ==> forall|k: int|
                0 <= k < s@.len() ==> #[trigger] s@[k].message.role_view() != MessageRole::User,
        decreases s@.len() - j,
    {
        j = j + 1;
    }
    j
}

/// Compacts a context of more than `MAX_MESSAGES` messages down to its first
/// message and a window of the latest ones (see [`compacted`]); the model
/// and tool definitions are kept.
pub fn sliding_window_compact<S, M: IMessage, A>(_state: &mut S, cx: &mut Context<M, A>)
    ensures
        final(cx)@.messages == compacted(old(cx)@.messages),
        final(cx)@.model == old(cx)@.model,
        final(cx)@.tool_defs == old(cx)@.tool_defs,
{
    let len = cx.message_count();
    if len <= MAX_MESSAGES {
        return;
    }
    let ghost s = cx@.messages;
    let mut messages = cx.take_annotated_messages();
    let mut tail = messages.split_off(len - RESERVE_MESSAGES);
    messages.truncate(1);
    assert(tail@ =~= s.skip(s.len() - RESERVE_MESSAGES));
    assert(messages@ =~= seq![s[0]]);
    let ghost t = tail@;
    let j = first_user_index(&tail);
    if j < tail.len() && j > 0 {
        let mut kept = tail.split_off(j);
        assert(kept@ =~= t.skip(j as int));
        messages.append(&mut kept);
        assert(messages@ =~= compacted(s));
    } else {
        messages.append(&mut tail);
        proof {
            lemma_first_user(t);
            assert(t == s.skip(s.len() - RESERVE_MESSAGES));
            assert(messages@ =~= seq![s[0]] + t);
            match first_user(t) {
                Some(f) => {
                    assert(f == 0);
                    assert(t.skip(f) =~= t);
                },
                None => {},
            }
        }
        assert(messages@ =~= compacted(s));
    }
    cx.set_annotated_messages(messages);
}

} // verus!
