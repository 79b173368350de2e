//! How a checkpoint's messages are laid out in the store, and read back.
//!
//! A checkpoint holds local references `(position, message)` and may rest on
//! a base checkpoint. Its messages are those of its base chain, root first,
//! each checkpoint's references taken in order of position. A new
//! checkpoint of a context whose messages extend the latest checkpoint's
//! messages stores only the extension on top of it; otherwise it stores all
//! of them with no base.
use vstd::prelude::*;

use crate::session::persist::data_object::{Message, MessageView, message_equals};

verus! {

pub open spec fn message_views(ms: Seq<Message>) -> Seq<MessageView> {
    ms.map_values(|m: Message| m@)
}

/// `base` is where `current` starts.
pub open spec fn is_prefix(base: Seq<MessageView>, current: Seq<MessageView>) -> bool {
    base.len() <= current.len() && current.take(base.len() as int) == base
}

/// Whether the messages of `base` begin `current`.
pub fn prefix_match(base: &[Message], current: &[Message]) -> (r: bool)
    ensures
        r == is_prefix(message_views(base@), message_views(current@)),
{
    let ghost bv = message_views(base@);
    let ghost cv = message_views(current@);
    if current.len() < base.len() {
        return false;
    }
    let mut i: usize = 0;
    while i < base.len()
        invariant
            base@.len() <= current@.len(),
            bv == message_views(base@),
            cv == message_views(current@),
            i <= base@.len(),
            forall|k: int| 0 <= k < i ==> bv[k] == cv[k],
        decreases base@.len() - i,
    {
        if !message_equals(&base[i], &current[i]) {
            assert(cv.take(bv.len() as int)[i as int] != bv[i as int]);
            return false;
        }
        i = i + 1;
    }
    assert(cv.take(bv.len() as int) =~= bv);
    true
}

/// How a checkpoint is stored: on its base or alone, and from which message
/// of the context on its references start.
#[derive(Debug)]
pub struct CheckpointPlan {
    pub keep_base: bool,
    pub first: usize,
}

/// The checkpoint a new checkpoint of a session rests on: the session's
/// latest checkpoint, or, where it has none yet, the checkpoint the session
/// was forked from.
pub fn checkpoint_base(latest: Option<uuid::Uuid>, forked_from: Option<uuid::Uuid>) -> (r: Option<uuid::Uuid>)
    ensures
        r == match latest {
            Some(id) => Some(id),
            None => forked_from,
        },
{
    match latest {
        Some(id) => Some(id),
        None => forked_from,
    }
}

/// Plans a checkpoint of `current` when the latest checkpoint holds `base`:
/// on top of it from `base.len()` on when `base` begins `current`, else
/// alone from the first message.
pub fn plan_checkpoint(base: &[Message], current: &[Message]) -> (r: CheckpointPlan)
    ensures
        r.keep_base == is_prefix(message_views(base@), message_views(current@)),
        r.first == if r.keep_base {
            base@.len()
        } else {
            0
        },
{
    if prefix_match(base, current) {
        CheckpointPlan { keep_base: true, first: base.len() }
    } else {
        CheckpointPlan { keep_base: false, first: 0 }
    }
}

/// The positions of the references a plan stores for a context of `count`
/// messages: `first`, `first + 1`, ... up to the last message.
pub fn ref_positions(first: usize, count: usize) -> (r: Vec<i32>)
    requires
        first <= count <= i32::MAX,
    ensures
        r@.len() == count - first,
        forall|k: int| 0 <= k < r@.len() ==> r@[k] == first + k,
{
    let mut out: Vec<i32> = Vec::new();
    let mut i = first;
    while i < count
        invariant
            first <= i <= count <= i32::MAX,
            out@.len() == i - first,
            forall|k: int| 0 <= k < out@.len() ==> out@[k] == first + k,
        decreases count - i,
    {
        out.push(i as i32);
        i = i + 1;
    }
    out
}

// ---------------------------------------------------------------------------
// Reading a checkpoint back
// ---------------------------------------------------------------------------

/// `x` inserted into `s` after the last entry (from the end) whose position
/// is at most `x`'s: one step of a stable sort by position.
pub open spec fn insert_by_position(s: Seq<(i32, MessageView)>, x: (i32, MessageView)) -> Seq<(i32, MessageView)>
    decreases s.len(),
{
    if s.len() == 0 {
        seq![x]
    } else if s.last().0 <= x.0 {
        s.push(x)
    } else {
        insert_by_position(s.drop_last(), x).push(s.last())
    }
}

/// References in order of position, those at equal positions in the order
/// given.
pub open spec fn sort_by_position(s: Seq<(i32, MessageView)>) -> Seq<(i32, MessageView)>
    decreases s.len(),
{
    if s.len() == 0 {
        s
    } else {
        insert_by_position(sort_by_position(s.drop_last()), s.last())
    }
}

/// The references of one checkpoint, as positions and message text.
pub open spec fn level_view(level: Seq<(i32, Message)>) -> Seq<(i32, MessageView)> {
    level.map_values(|e: (i32, Message)| (e.0, e.1@))
}

pub open spec fn levels_view(levels: Seq<Vec<(i32, Message)>>) -> Seq<Seq<(i32, MessageView)>> {
    levels.map_values(|l: Vec<(i32, Message)>| level_view(l@))
}

/// The messages of a base chain given as the references of each checkpoint,
/// root first: each checkpoint's messages in order of position, one
/// checkpoint after the other.
pub open spec fn chain_messages(levels: Seq<Seq<(i32, MessageView)>>) -> Seq<MessageView>
    decreases levels.len(),
{
    if levels.len() == 0 {
        Seq::empty()
    } else {
        chain_messages(levels.drop_last()) + sort_by_position(levels.last()).map_values(
            |e: (i32, MessageView)| e.1,
        )
    }
}

/// Scanning from the end for where `x` goes stops after the last entry at
/// or before `x`'s position.
proof fn lemma_insert_scan(s: Seq<(i32, MessageView)>, x: (i32, MessageView), i: int)
    requires
        0 <= i <= s.len(),
        forall|k: int| i <= k < s.len() ==> s[k].0 > x.0,
    ensures
        insert_by_position(s, x) == insert_by_position(s.take(i), x) + s.skip(i),
    decreases s.len() - i,
{
    if i < s.len() {
        lemma_insert_scan(s, x, i + 1);
        let t = s.take(i + 1);
        assert(t.last() == s[i]);
        assert(t.drop_last() =~= s.take(i));
        assert(insert_by_position(t, x) == insert_by_position(s.take(i), x).push(s[i]));
        assert(insert_by_position(s.take(i), x).push(s[i]) + s.skip(i + 1) =~= insert_by_position(
            s.take(i),
            x,
        ) + s.skip(i));
    } else {
        assert(s.take(i) =~= s);
        assert(s.skip(i) =~= Seq::<(i32, MessageView)>::empty());
        assert(insert_by_position(s, x) + s.skip(i) =~= insert_by_position(s, x));
    }
}

/// Sorts the references of one checkpoint by position, keeping the given
/// order at equal positions.
pub fn sort_level(level: Vec<(i32, Message)>) -> (r: Vec<(i32, Message)>)
    ensures
        level_view(r@) == sort_by_position(level_view(level@)),
{
    let ghost input = level_view(level@);
    let mut out: Vec<(i32, Message)> = Vec::new();
    let mut rest = level;
    let ghost taken: int = 0;
    assert(input.take(0) =~= Seq::<(i32, MessageView)>::empty());
    assert(level_view(out@) =~= Seq::<(i32, MessageView)>::empty());
    assert(level_view(rest@) =~= input.skip(0));
    while rest.len() > 0
        invariant
            0 <= taken <= input.len(),
            taken + rest@.len() == input.len(),
            level_view(rest@) == input.skip(taken),
            level_view(out@) == sort_by_position(input.take(taken)),
        decreases rest.len(),
    {
        let ghost before_rest = rest@;
        let x = rest.remove(0);
        proof {
            assert(level_view(before_rest)[0] == (x.0, x.1@));
            assert(input.skip(taken)[0] == input[taken]);
            assert(level_view(rest@) =~= level_view(before_rest).drop_first());
            assert(input.skip(taken).drop_first() =~= input.skip(taken + 1));
        }
        let ghost s = level_view(out@);
        let ghost xv = (x.0, x.1@);
        let mut i = out.len();
        while i > 0 && out[i - 1].0 > x.0
            invariant
                i <= out@.len(),
                s == level_view(out@),
                xv == (x.0, x.1@),
                forall|k: int| i <= k < s.len() ==> s[k].0 > xv.0,
            decreases i,
        {
            i = i - 1;
        }
        proof {
            lemma_insert_scan(s, xv, i as int);
            if i > 0 {
                assert(s.take(i as int).last() == s[i - 1]);
                assert(insert_by_position(s.take(i as int), xv) == s.take(i as int).push(xv));
            } else {
                assert(s.take(0) =~= Seq::<(i32, MessageView)>::empty());
            }
            assert(insert_by_position(s, xv) =~= s.insert(i as int, xv));
            let t = input.take(taken + 1);
            assert(t.drop_last() =~= input.take(taken));
            assert(t.last() == xv);
        }
        out.insert(i, x);
        proof {
            assert(level_view(out@) =~= s.insert(i as int, xv));
            taken = taken + 1;
        }
    }
    assert(input.take(taken) =~= input);
    out
}

/// The messages of a base chain; see [`chain_messages`]. `levels` holds the
/// references of each checkpoint of the chain, root first.
pub fn assemble_messages(levels: Vec<Vec<(i32, Message)>>) -> (r: Vec<Message>)
    ensures
        message_views(r@) == chain_messages(levels_view(levels@)),
{
    let ghost all = levels_view(levels@);
    let mut out: Vec<Message> = Vec::new();
    let mut rest = levels;
    let ghost taken: int = 0;
    assert(all.take(0) =~= Seq::<Seq<(i32, MessageView)>>::empty());
    assert(message_views(out@) =~= Seq::<MessageView>::empty());
    assert(levels_view(rest@) =~= all.skip(0));
    while rest.len() > 0
        invariant
            0 <= taken <= all.len(),
            taken + rest@.len() == all.len(),
            levels_view(rest@) == all.skip(taken),
            message_views(out@) == chain_messages(all.take(taken)),
        decreases rest.len(),
    {
        let ghost before_rest = rest@;
        let level = rest.remove(0);
        proof {
            assert(levels_view(before_rest)[0] == level_view(level@));
            assert(all.skip(taken)[0] == all[taken]);
            assert(levels_view(rest@) =~= levels_view(before_rest).drop_first());
            assert(all.skip(taken).drop_first() =~= all.skip(taken + 1));
        }
        let sorted = sort_level(level);
        let ghost sv = level_view(sorted@);
        let ghost before = message_views(out@);
        let mut j: usize = 0;
        let mut items = sorted;
        let ghost consumed: int = 0;
        assert(level_view(items@) =~= sv.skip(0));
        while items.len() > 0
            invariant
                0 <= consumed <= sv.len(),
                consumed + items@.len() == sv.len(),
                level_view(items@) == sv.skip(consumed),
                message_views(out@) == before + sv.take(consumed).map_values(
                    |e: (i32, MessageView)| e.1,
                ),
            decreases items.len(),
        {
            let ghost before_items = items@;
            let (_, m) = items.remove(0);
            proof {
                assert(level_view(before_items)[0] == sv[consumed]);
                assert(level_view(items@) =~= level_view(before_items).drop_first());
                assert(sv.skip(consumed).drop_first() =~= sv.skip(consumed + 1));
            }
            let ghost before_out = out@;
            out.push(m);
            proof {
                assert(sv.take(consumed + 1) =~= sv.take(consumed).push(sv[consumed]));
                assert(message_views(out@) =~= message_views(before_out).push(sv[consumed].1));
                assert(sv.take(consumed + 1).map_values(|e: (i32, MessageView)| e.1) =~= sv.take(
                    consumed,
                ).map_values(|e: (i32, MessageView)| e.1).push(sv[consumed].1));
                consumed = consumed + 1;
            }
        }
        proof {
            assert(sv.take(consumed) =~= sv);
            let t = all.take(taken + 1);
            assert(t.drop_last() =~= all.take(taken));
            assert(t.last() == all[taken]);
            taken = taken + 1;
        }
    }
    assert(all.take(taken) =~= all);
    out
}

// ---------------------------------------------------------------------------
// Laws
// ---------------------------------------------------------------------------

/// References already in order of position are left as they are.
pub proof fn lemma_sorted_level_unchanged(s: Seq<(i32, MessageView)>)
    requires
        forall|i: int, j: int| 0 <= i < j < s.len() ==> s[i].0 <= s[j].0,
    ensures
        sort_by_position(s) == s,
    decreases s.len(),
{
    if s.len() > 0 {
        let init = s.drop_last();
        lemma_sorted_level_unchanged(init);
        if init.len() > 0 {
            assert(init.last().0 <= s.last().0);
        }
        assert(init.push(s.last()) =~= s);
    }
}

/// The references a new checkpoint stores: the messages of `current` from
/// `first` on, at their positions in `current`.
pub open spec fn new_level(current: Seq<MessageView>, first: int) -> Seq<(i32, MessageView)> {
    Seq::new((current.len() - first) as nat, |k: int| ((first + k) as i32, current[first + k]))
}

/// The base chain of a new checkpoint of `current`, given the chain of the
/// latest checkpoint: that chain with the new references on top when its
/// messages begin `current`, else the new references alone, from the first
/// message.
pub open spec fn chain_after_checkpoint(base: Seq<Seq<(i32, MessageView)>>, current: Seq<MessageView>) -> Seq<Seq<(i32, MessageView)>> {
    let held = chain_messages(base);
    if is_prefix(held, current) {
        base.push(new_level(current, held.len() as int))
    } else {
        seq![new_level(current, 0)]
    }
}

proof fn lemma_new_level_reads_back(current: Seq<MessageView>, first: int)
    requires
        0 <= first <= current.len() <= i32::MAX,
    ensures
        sort_by_position(new_level(current, first)).map_values(|e: (i32, MessageView)| e.1)
            == current.skip(first),
{
    let l = new_level(current, first);
    lemma_sorted_level_unchanged(l);
    assert(l.map_values(|e: (i32, MessageView)| e.1) =~= current.skip(first));
}

/// A checkpoint reads back the messages it was taken of, whether it is
/// stored on top of the latest checkpoint or alone.
pub proof fn lemma_checkpoint_reads_back(base: Seq<Seq<(i32, MessageView)>>, current: Seq<MessageView>)
    requires
        current.len() <= i32::MAX,
    ensures
        chain_messages(chain_after_checkpoint(base, current)) == current,
{
    let held = chain_messages(base);
    if is_prefix(held, current) {
        let l = new_level(current, held.len() as int);
        let c = base.push(l);
        assert(c.drop_last() =~= base);
        assert(c.last() == l);
        lemma_new_level_reads_back(current, held.len() as int);
        assert(chain_messages(c) == chain_messages(c.drop_last()) + sort_by_position(c.last()).map_values(
            |e: (i32, MessageView)| e.1,
        ));
        assert(held + current.skip(held.len() as int) =~= current);
    } else {
        let l = new_level(current, 0);
        let c = seq![l];
        assert(c.drop_last() =~= Seq::<Seq<(i32, MessageView)>>::empty());
        assert(c.last() == l);
        lemma_new_level_reads_back(current, 0);
        assert(chain_messages(c) == chain_messages(c.drop_last()) + sort_by_position(c.last()).map_values(
            |e: (i32, MessageView)| e.1,
        ));
        assert(Seq::<MessageView>::empty() + current.skip(0) =~= current);
    }
}

/// A checkpoint stored on top of its base stores only the messages the base
/// does not hold.
pub proof fn lemma_incremental_checkpoint_stores_suffix(base: Seq<Seq<(i32, MessageView)>>, current: Seq<MessageView>)
    requires
        is_prefix(chain_messages(base), current),
    ensures
        chain_after_checkpoint(base, current).last().len() == current.len() - chain_messages(
            base,
        ).len(),
{
}

/// A fork, a checkpoint with no references of its own on top of its parent,
/// reads back the parent's messages.
pub proof fn lemma_fork_reads_back_parent(parent: Seq<Seq<(i32, MessageView)>>)
    ensures
        chain_messages(parent.push(Seq::empty())) == chain_messages(parent),
{
    let c = parent.push(Seq::<(i32, MessageView)>::empty());
    assert(c.drop_last() =~= parent);
    assert(sort_by_position(Seq::<(i32, MessageView)>::empty()).map_values(
        |e: (i32, MessageView)| e.1,
    ) =~= Seq::<MessageView>::empty());
    assert(chain_messages(parent) + Seq::<MessageView>::empty() =~= chain_messages(parent));
}

} // verus!
