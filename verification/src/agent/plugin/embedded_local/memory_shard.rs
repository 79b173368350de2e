//! The memory-shard plugin: the shard tools, and an interceptor that puts
//! the directory of shards before the user's message so the model knows
//! what it can recall.
use vstd::prelude::*;
use vstd::std_specs::convert::FromSpec;

use core::marker::PhantomData;
use std::path::PathBuf;

use crate::agent::interceptor::InterceptorFlow;
use crate::agent::tool::embedded_local::memory::{ShardMeta, path_join};
use crate::lines::{join, join_strings, lemma_join_push, views};
use crate::resolver::context::{AnnotatedMessage, Context};
use crate::resolver::message::{IMessage, MessageOwned, MessageRef};

verus! {

/// Provides the shard tools and the shard-directory interceptor for the
/// shards under `<memory dir>/shards`.
#[derive(Debug)]
pub struct MemoryShardPlugin {
    memory_dir: PathBuf,
}

pub fn memory_shard_plugin(memory_dir: PathBuf) -> (r: MemoryShardPlugin)
    ensures
        r.memory_dir() == memory_dir,
{
    MemoryShardPlugin::new(memory_dir)
}

impl MemoryShardPlugin {
    pub fn new(memory_dir: PathBuf) -> (r: Self)
        ensures
            r.memory_dir() == memory_dir,
    {
        Self { memory_dir }
    }

    pub closed spec fn memory_dir(&self) -> PathBuf {
        self.memory_dir
    }

    /// The memory directory the plugin's tools and interceptor use.
    pub fn memory_dir_path(&self) -> (r: &PathBuf)
        ensures
            *r == self.memory_dir(),
    {
        &self.memory_dir
    }
}

/// Puts the directory of shards before the user's message of each
/// evaluation.
#[derive(Debug)]
pub struct MemoryShardInterceptor<M, S, A> {
    shards_dir: PathBuf,
    marker: PhantomData<(M, S, A)>,
}

impl<M, S, A> MemoryShardInterceptor<M, S, A> {
    pub fn new(memory_dir: PathBuf) -> (r: Self)
        ensures
            r.shards_dir() == path_join(memory_dir, "shards"@),
    {
        Self {
            shards_dir: crate::agent::tool::embedded_local::memory::shards_dir_of(&memory_dir),
            marker: PhantomData,
        }
    }

    pub closed spec fn shards_dir(&self) -> PathBuf {
        self.shards_dir
    }

    /// The directory the shards live in.
    pub fn shards_dir_path(&self) -> (r: &PathBuf)
        ensures
            *r == self.shards_dir(),
    {
        &self.shards_dir
    }
}

/// The entry of one shard in the directory.
pub open spec fn directory_entry(name: Seq<char>, description: Seq<char>, tags: Seq<Seq<char>>) -> Seq<char> {
    "- \u{540d}\u{79f0}\u{ff1a}"@ + name + "\n  \u{63cf}\u{8ff0}\u{ff1a}"@ + description
        + "\n  \u{6807}\u{7b7e}\u{ff1a}"@ + join(tags, ", "@)
}

/// The directory of the shards whose front-matter could be read: one entry
/// each, in the order found; empty when there is none.
pub open spec fn shard_directory(metas: Seq<ShardMeta>) -> Seq<char> {
    join(
        metas.map_values(|m: ShardMeta| directory_entry(m.name@, m.description@, views(m.tags@))),
        "\n"@,
    )
}

/// The directory lists every shard, one entry each, in order: it is empty
/// for no shards, a single shard gives its name, description and tags on
/// three lines, and one more shard adds a newline and its entry at the end.
pub proof fn lemma_directory_lists_every_shard(metas: Seq<ShardMeta>, m: ShardMeta)
    ensures
        shard_directory(Seq::<ShardMeta>::empty()) == Seq::<char>::empty(),
        shard_directory(seq![m]) == "- \u{540d}\u{79f0}\u{ff1a}"@ + m.name@ + "\n  \u{63cf}\u{8ff0}\u{ff1a}"@
            + m.description@ + "\n  \u{6807}\u{7b7e}\u{ff1a}"@ + join(views(m.tags@), ", "@),
        shard_directory(metas.push(m)) == if metas.len() == 0 {
            shard_directory(seq![m])
        } else {
            shard_directory(metas) + "\n"@ + shard_directory(seq![m])
        },
{
    let f = |x: ShardMeta| directory_entry(x.name@, x.description@, views(x.tags@));
    assert(Seq::<ShardMeta>::empty().map_values(f) =~= Seq::<Seq<char>>::empty());
    assert(seq![m].map_values(f) =~= seq![f(m)]);
    assert(metas.push(m).map_values(f) =~= metas.map_values(f).push(f(m)));
    lemma_join_push(metas.map_values(f), "\n"@, f(m));
}

/// The directory of shards; see [`shard_directory`].
pub fn shard_directory_text(metas: &Vec<ShardMeta>) -> (r: String)
    ensures
        r@ == shard_directory(metas@),
{
    let n = metas.len();
    let mut entries: Vec<String> = Vec::new();
    let mut i: usize = 0;
    let ghost f = |m: ShardMeta| directory_entry(m.name@, m.description@, views(m.tags@));
    while i < n
        invariant
            n == metas@.len(),
            i <= n,
            f == (|m: ShardMeta| directory_entry(m.name@, m.description@, views(m.tags@))),
            views(entries@) == metas@.take(i as int).map_values(f),
        decreases n - i,
    {
        let m = &metas[i];
        let mut e = "- \u{540d}\u{79f0}\u{ff1a}".to_owned();
        e.append(m.name.as_str());
        e.append("\n  \u{63cf}\u{8ff0}\u{ff1a}");
        e.append(m.description.as_str());
        e.append("\n  \u{6807}\u{7b7e}\u{ff1a}");
        let t = join_strings(&m.tags, ", ");
        e.append(t.as_str());
        let ghost before = entries@;
        entries.push(e);
        proof {
            assert(views(entries@) =~= views(before).push(f(metas@[i as int])));
            assert(metas@.take(i + 1) =~= metas@.take(i as int).push(metas@[i as int]));
            assert(metas@.take(i + 1).map_values(f) =~= metas@.take(i as int).map_values(f).push(
                f(metas@[i as int]),
            ));
        }
        i = i + 1;
    }
    assert(metas@.take(n as int) =~= metas@);
    join_strings(&entries, "\n")
}

/// The text of the message that carries the directory: a header saying it
/// is injected context and not the user speaking, the directory, and a
/// closing tag.
pub open spec fn injection_text(directory: Seq<char>) -> Seq<char> {
    "[\u{6ce8}\u{5165}\u{4e0a}\u{4e0b}\u{6587}\u{ff1a}\u{8bb0}\u{5fc6}\u{5206}\u{7247}\u{76ee}\u{5f55}]\n\u{6765}\u{6e90}\u{ff1a}\u{7cfb}\u{7edf}\n\u{7528}\u{9014}\u{ff1a}\u{53ef}\u{7528}\u{8bb0}\u{5fc6}\u{5206}\u{7247}\u{76ee}\u{5f55}\n\u{8bf4}\u{660e}\u{ff1a}\u{8fd9}\u{4e0d}\u{662f}\u{771f}\u{5b9e}\u{7528}\u{6237}\u{53d1}\u{8a00}\u{3002}\u{4e0d}\u{8981}\u{76f4}\u{63a5}\u{56de}\u{5e94}\u{672c}\u{6d88}\u{606f}\u{3002}\u{9700}\u{8981}\u{5b8c}\u{6574}\u{5185}\u{5bb9}\u{65f6}\u{ff0c}\u{6309}\u{540d}\u{79f0}\u{8c03}\u{7528} recall_memory_shard\u{3002}\n\n"@
        + directory + "\n[/\u{6ce8}\u{5165}\u{4e0a}\u{4e0b}\u{6587}]"@
}

pub fn injection_message_text(directory: &str) -> (r: String)
    ensures
        r@ == injection_text(directory@),
{
    let mut m = "[\u{6ce8}\u{5165}\u{4e0a}\u{4e0b}\u{6587}\u{ff1a}\u{8bb0}\u{5fc6}\u{5206}\u{7247}\u{76ee}\u{5f55}]\n\u{6765}\u{6e90}\u{ff1a}\u{7cfb}\u{7edf}\n\u{7528}\u{9014}\u{ff1a}\u{53ef}\u{7528}\u{8bb0}\u{5fc6}\u{5206}\u{7247}\u{76ee}\u{5f55}\n\u{8bf4}\u{660e}\u{ff1a}\u{8fd9}\u{4e0d}\u{662f}\u{771f}\u{5b9e}\u{7528}\u{6237}\u{53d1}\u{8a00}\u{3002}\u{4e0d}\u{8981}\u{76f4}\u{63a5}\u{56de}\u{5e94}\u{672c}\u{6d88}\u{606f}\u{3002}\u{9700}\u{8981}\u{5b8c}\u{6574}\u{5185}\u{5bb9}\u{65f6}\u{ff0c}\u{6309}\u{540d}\u{79f0}\u{8c03}\u{7528} recall_memory_shard\u{3002}\n\n".to_owned();
    m.append(directory);
    m.append("\n[/\u{6ce8}\u{5165}\u{4e0a}\u{4e0b}\u{6587}]");
    m
}

/// Whether the last message of the context is from the user, and its text.
pub fn last_user_text<M: IMessage, A>(cx: &Context<M, A>) -> (r: Option<&str>)
    ensures
        cx@.messages.len() == 0 ==> r is None,
        r is Some ==> cx@.messages.len() > 0 && cx@.messages.last().message.role_view()
            == crate::resolver::message::MessageRole::User,
        cx@.messages.len() > 0 && cx@.messages.last().message.role_view()
            == crate::resolver::message::MessageRole::User ==> r is Some,
{
    let items = cx.annotated_messages();
    let n = items.len();
    if n == 0 {
        return None;
    }
    match items[n - 1].message.message_ref() {
        MessageRef::User { content } => Some(content),
        _ => None,
    }
}

/// The step the interceptor takes before an evaluation, given the shard
/// directory: when the last message is the user's and the directory is not
/// empty, the message carrying the directory goes just before it; the
/// evaluation goes on in every case.
pub fn inject_directory<M: IMessage, A: Default>(cx: &mut Context<M, A>, directory: &str) -> (r: InterceptorFlow)
    ensures
        r is Continue,
        final(cx)@.model == old(cx)@.model,
        final(cx)@.tool_defs == old(cx)@.tool_defs,
        ({
            let n = old(cx)@.messages.len();
            let injects = n > 0 && old(cx)@.messages.last().message.role_view()
                == crate::resolver::message::MessageRole::User && directory@.len() > 0;
            &&& !injects ==> final(cx)@.messages == old(cx)@.messages
            &&& injects ==> {
                &&& final(cx)@.messages.len() == n + 1
                &&& final(cx)@.messages.take(n - 1) == old(cx)@.messages.take(n - 1)
                &&& final(cx)@.messages.last() == old(cx)@.messages.last()
                &&& <M as FromSpec<MessageOwned<M::ToolCall>>>::obeys_from_spec() ==> exists|
                    c: String,
                |
                    c@ == injection_text(directory@) && #[trigger] final(cx)@.messages[n - 1].message
                        == <M as FromSpec<MessageOwned<M::ToolCall>>>::from_spec(
                        MessageOwned::User { content: c },
                    )
            }
        }),
{
    if last_user_text(cx).is_none() {
        return InterceptorFlow::Continue;
    }
    if directory.unicode_len() == 0 {
        return InterceptorFlow::Continue;
    }
    let content = injection_message_text(directory);
    let ghost c = content;
    let injected = M::from(MessageOwned::User { content });
    cx.inject_before_last(AnnotatedMessage::new(injected, A::default()));
    proof {
        let n = old(cx)@.messages.len();
        assert(cx@.messages[n - 1].message == injected);
        assert(c@ == injection_text(directory@));
    }
    InterceptorFlow::Continue
}

} // verus!
