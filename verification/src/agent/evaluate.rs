//! The decisions of the agent loop. Each turn of the loop asks the
//! interceptors, resolves an action, runs its tool calls, and commits the
//! action and the tool answers to the context; the loop ends when an
//! interceptor stops it, the resolver fails, or the model finishes.
use vstd::prelude::*;

use crate::agent::interceptor::{InterceptorFlow, ToolInterceptorFlow};
use crate::agent::tool::result::{
    CallOutput, CallResult, ExecutionError, ExecutionErrorView,
};
use crate::resolver::action::{Action, Reason, ReasonView};
use crate::resolver::context::{Context, plain_messages};
use crate::resolver::message::IMessage;
use crate::resolver::tool::{IToolCall, ToolDefination};
use crate::resolver::action::str_equals;
use vstd::std_specs::convert::FromSpec;

verus! {

/// Whether the loop goes on (with a value) or ends with an output.
#[derive(Debug)]
pub enum EvaluateFlow<T> {
    Continue(T),
    Finish(Option<String>),
}

/// The work an evaluation does next: ask an interceptor hook, resolve an
/// action, run its tool calls, or commit the turn's messages.
#[derive(Debug, Clone, Copy)]
pub enum EvaluateStage {
    BeforeEvaluate,
    BeforeLoop,
    BeforeResolve,
    Resolve,
    AfterResolve,
    RunTools,
    BeforeCommit,
    Commit,
    AfterLoop,
}

/// Where an evaluation stands: the next stage, the index of the current
/// turn, and, once a turn is committed, whether it finishes the evaluation
/// and with what output.
#[derive(Debug)]
pub struct EvaluateState {
    pub stage: EvaluateStage,
    pub loop_index: usize,
    pub finishing: Option<Option<String>>,
}

/// What the work of a stage gave: an interceptor's answer, whether the
/// resolver produced an action, how running the tool calls went, or the
/// reason and finishing text of the committed action.
#[derive(Debug)]
pub enum EvaluateEvent {
    Answered(InterceptorFlow),
    Resolved(bool),
    ToolsRun(EvaluateFlow<()>),
    Committed { reason: Reason, finish: Option<String> },
}

/// The event is the outcome of the work of the stage.
pub open spec fn event_fits(stage: EvaluateStage, event: EvaluateEvent) -> bool {
    match event {
        EvaluateEvent::Answered(_) => match stage {
            EvaluateStage::Resolve | EvaluateStage::RunTools | EvaluateStage::Commit => false,
            _ => true,
        },
        EvaluateEvent::Resolved(_) => stage is Resolve,
        EvaluateEvent::ToolsRun(_) => stage is RunTools,
        EvaluateEvent::Committed { .. } => stage is Commit,
    }
}

pub open spec fn moved_to(stage: EvaluateStage, loop_index: usize) -> EvaluateFlow<EvaluateState> {
    EvaluateFlow::Continue(EvaluateState { stage, loop_index, finishing: None })
}

/// Where an evaluation goes when the interceptors let a hook pass: on to
/// the next stage of the turn; after the last hook of a turn, to the next
/// turn, or to the end when the committed turn finished the evaluation.
pub open spec fn pass_hook(state: EvaluateState) -> EvaluateFlow<EvaluateState> {
    match state.stage {
        EvaluateStage::BeforeEvaluate => moved_to(EvaluateStage::BeforeLoop, 0),
        EvaluateStage::BeforeLoop => moved_to(EvaluateStage::BeforeResolve, state.loop_index),
        EvaluateStage::BeforeResolve => moved_to(EvaluateStage::Resolve, state.loop_index),
        EvaluateStage::AfterResolve => moved_to(EvaluateStage::RunTools, state.loop_index),
        EvaluateStage::BeforeCommit => moved_to(EvaluateStage::Commit, state.loop_index),
        _ => match state.finishing {
            Some(output) => EvaluateFlow::Finish(output),
            None => moved_to(EvaluateStage::BeforeLoop, (state.loop_index + 1) as usize),
        },
    }
}

/// One step of an evaluation: an interceptor that stops ends it with its
/// output, a resolver that fails ends it with no output, tool calls that are
/// stopped end it with the stop's output; otherwise it moves on to the next
/// stage, a committed turn recording whether the model finished.
pub open spec fn evaluate_next(state: EvaluateState, event: EvaluateEvent) -> EvaluateFlow<EvaluateState> {
    match event {
        EvaluateEvent::Answered(InterceptorFlow::Stop { output }) => EvaluateFlow::Finish(output),
        EvaluateEvent::Answered(InterceptorFlow::Continue) => pass_hook(state),
        EvaluateEvent::Resolved(ok) => if ok {
            moved_to(EvaluateStage::AfterResolve, state.loop_index)
        } else {
            EvaluateFlow::Finish(None)
        },
        EvaluateEvent::ToolsRun(EvaluateFlow::Finish(output)) => EvaluateFlow::Finish(output),
        EvaluateEvent::ToolsRun(EvaluateFlow::Continue(_)) => moved_to(EvaluateStage::BeforeCommit, state.loop_index),
        EvaluateEvent::Committed { reason, finish } => EvaluateFlow::Continue(
            EvaluateState {
                stage: EvaluateStage::AfterLoop,
                loop_index: state.loop_index,
                finishing: if reason is Finish {
                    Some(finish)
                } else {
                    None
                },
            },
        ),
    }
}

impl EvaluateState {
    /// An evaluation that has not asked its first interceptor yet.
    pub fn start() -> (r: Self)
        ensures
            r.stage is BeforeEvaluate,
            r.loop_index == 0,
            r.finishing is None,
    {
        EvaluateState { stage: EvaluateStage::BeforeEvaluate, loop_index: 0, finishing: None }
    }
}

/// The next step of an evaluation, see [`evaluate_next`]. The turn index
/// must have room for one more turn when the last hook of a turn passes.
pub fn evaluate_step(state: EvaluateState, event: EvaluateEvent) -> (r: EvaluateFlow<EvaluateState>)
    requires
        event_fits(state.stage, event),
        state.stage is AfterLoop && state.finishing is None ==> state.loop_index < usize::MAX,
    ensures
        r == evaluate_next(state, event),
{
    let i = state.loop_index;
    match event {
        EvaluateEvent::Answered(InterceptorFlow::Stop { output }) => EvaluateFlow::Finish(output),
        EvaluateEvent::Answered(InterceptorFlow::Continue) => match state.stage {
            EvaluateStage::BeforeEvaluate => EvaluateFlow::Continue(
                EvaluateState { stage: EvaluateStage::BeforeLoop, loop_index: 0, finishing: None },
            ),
            EvaluateStage::BeforeLoop => EvaluateFlow::Continue(
                EvaluateState { stage: EvaluateStage::BeforeResolve, loop_index: i, finishing: None },
            ),
            EvaluateStage::BeforeResolve => EvaluateFlow::Continue(
                EvaluateState { stage: EvaluateStage::Resolve, loop_index: i, finishing: None },
            ),
            EvaluateStage::AfterResolve => EvaluateFlow::Continue(
                EvaluateState { stage: EvaluateStage::RunTools, loop_index: i, finishing: None },
            ),
            EvaluateStage::BeforeCommit => EvaluateFlow::Continue(
                EvaluateState { stage: EvaluateStage::Commit, loop_index: i, finishing: None },
            ),
            _ => match state.finishing {
                Some(output) => EvaluateFlow::Finish(output),
                None => EvaluateFlow::Continue(
                    EvaluateState { stage: EvaluateStage::BeforeLoop, loop_index: i + 1, finishing: None },
                ),
            },
        },
        EvaluateEvent::Resolved(ok) => if ok {
            EvaluateFlow::Continue(EvaluateState { stage: EvaluateStage::AfterResolve, loop_index: i, finishing: None })
        } else {
            EvaluateFlow::Finish(None)
        },
        EvaluateEvent::ToolsRun(EvaluateFlow::Finish(output)) => EvaluateFlow::Finish(output),
        EvaluateEvent::ToolsRun(EvaluateFlow::Continue(_)) => EvaluateFlow::Continue(
            EvaluateState { stage: EvaluateStage::BeforeCommit, loop_index: i, finishing: None },
        ),
        EvaluateEvent::Committed { reason, finish } => {
            let finishing = match after_turn(&reason, finish) {
                EvaluateFlow::Finish(output) => Some(output),
                EvaluateFlow::Continue(_) => None,
            };
            EvaluateFlow::Continue(EvaluateState { stage: EvaluateStage::AfterLoop, loop_index: i, finishing })
        },
    }
}

/// A turn passes through its stages in order: before the loop, before
/// resolving, resolving, after resolving, running the tools, before
/// committing, committing and after the loop; when every step goes on, it
/// ends at the next turn, or, where the model finished, with the model's
/// finishing text.
pub proof fn lemma_turn_order(i: usize, finish: Option<String>, reason: Reason)
    requires
        i < usize::MAX,
    ensures
        ({
            let s0 = EvaluateState { stage: EvaluateStage::BeforeLoop, loop_index: i, finishing: None };
            let go = EvaluateEvent::Answered(InterceptorFlow::Continue);
            let s1 = evaluate_next(s0, go)->Continue_0;
            let s2 = evaluate_next(s1, go)->Continue_0;
            let s3 = evaluate_next(s2, EvaluateEvent::Resolved(true))->Continue_0;
            let s4 = evaluate_next(s3, go)->Continue_0;
            let s5 = evaluate_next(s4, EvaluateEvent::ToolsRun(EvaluateFlow::Continue(())))->Continue_0;
            let s6 = evaluate_next(s5, go)->Continue_0;
            let s7 = evaluate_next(s6, EvaluateEvent::Committed { reason, finish })->Continue_0;
            &&& s1.stage is BeforeResolve
            &&& s2.stage is Resolve
            &&& s3.stage is AfterResolve
            &&& s4.stage is RunTools
            &&& s5.stage is BeforeCommit
            &&& s6.stage is Commit
            &&& s7.stage is AfterLoop
            &&& evaluate_next(s7, go) == if reason is Finish {
                EvaluateFlow::<EvaluateState>::Finish(finish)
            } else {
                moved_to(EvaluateStage::BeforeLoop, (i + 1) as usize)
            }
        }),
{
}

/// An interceptor that stops, a resolver that fails and stopped tool calls
/// end the evaluation, whatever stage it is at.
pub proof fn lemma_stops_end_the_evaluation(state: EvaluateState, output: Option<String>)
    ensures
        evaluate_next(state, EvaluateEvent::Answered(InterceptorFlow::Stop { output })) == EvaluateFlow::<
            EvaluateState,
        >::Finish(output),
        evaluate_next(state, EvaluateEvent::Resolved(false)) == EvaluateFlow::<EvaluateState>::Finish(None),
        evaluate_next(state, EvaluateEvent::ToolsRun(EvaluateFlow::Finish(output))) == EvaluateFlow::<
            EvaluateState,
        >::Finish(output),
{
}

/// What an interceptor's answer means for the loop.
pub fn interceptor_flow(flow: InterceptorFlow) -> (r: EvaluateFlow<()>)
    ensures
        match flow {
            InterceptorFlow::Continue => r is Continue,
            InterceptorFlow::Stop { output } => r == EvaluateFlow::<()>::Finish(output),
        },
{
    match flow {
        InterceptorFlow::Continue => EvaluateFlow::Continue(()),
        InterceptorFlow::Stop { output } => EvaluateFlow::Finish(output),
    }
}

/// The output of a finished evaluation, after the last interceptor: kept
/// when it lets it go on, replaced when it stops.
pub fn final_output(flow: InterceptorFlow, output: Option<String>) -> (r: Option<String>)
    ensures
        r == match flow {
            InterceptorFlow::Continue => output,
            InterceptorFlow::Stop { output: o } => o,
        },
{
    match flow {
        InterceptorFlow::Continue => output,
        InterceptorFlow::Stop { output: o } => o,
    }
}

/// The text an action finishes with: its content when the model finished.
pub fn finish_content<C: IToolCall>(reason: &Reason, action: &Action<C>) -> (r: Option<String>)
    ensures
        r == if *reason is Finish {
            action.content
        } else {
            None
        },
{
    match reason {
        Reason::Finish => match &action.content {
            Some(c) => Some(c.clone()),
            None => None,
        },
        _ => None,
    }
}

/// How a turn ends once its messages are committed: the evaluation finishes
/// with the finishing text when the model finished, and goes on otherwise.
pub fn after_turn(reason: &Reason, finish: Option<String>) -> (r: EvaluateFlow<()>)
    ensures
        *reason is Finish ==> r == EvaluateFlow::<()>::Finish(finish),
        !(*reason is Finish) ==> r is Continue,
{
    match reason {
        Reason::Finish => EvaluateFlow::Finish(finish),
        _ => EvaluateFlow::Continue(()),
    }
}

/// What the interceptors' answer before a tool call means: run the call,
/// answer it with the given content without running it, or stop.
#[derive(Debug)]
pub enum ToolStep {
    Run,
    Answer(CallResult),
    Stop(Option<String>),
}

pub fn before_tool_call<C: IToolCall>(flow: ToolInterceptorFlow, call: &C) -> (r: ToolStep)
    ensures
        match flow {
            ToolInterceptorFlow::Continue => r is Run,
            ToolInterceptorFlow::Skip { content } => r matches ToolStep::Answer(Ok(out)) && out.call_id@
                == call.id_view() && out.content == content,
            ToolInterceptorFlow::Stop { output } => r == ToolStep::Stop(output),
        },
{
    match flow {
        ToolInterceptorFlow::Continue => ToolStep::Run,
        ToolInterceptorFlow::Skip { content } => ToolStep::Answer(
            Ok(CallOutput::new(call.id().to_owned(), content)),
        ),
        ToolInterceptorFlow::Stop { output } => ToolStep::Stop(output),
    }
}

/// The error for a call of a tool the agent does not have.
pub open spec fn tool_not_found_error(name: Seq<char>) -> ExecutionErrorView {
    ExecutionErrorView::ExecFail("tool not found: "@ + name)
}

pub fn tool_not_found<C: IToolCall>(call: &C) -> (r: ExecutionError)
    ensures
        r@ == tool_not_found_error(call.name_view()),
{
    let mut m = "tool not found: ".to_owned();
    m.append(call.name());
    ExecutionError::exec_fail(m)
}

/// What a tool answer says to the model: the id and content of the output,
/// or, for a failed call, the call's id and the error as text.
pub open spec fn tool_reply_text(call_id: Seq<char>, result: CallResult, error_text: Seq<char>) -> (Seq<char>, Seq<char>) {
    match result {
        Ok(out) => (out.call_id@, out.content@),
        Err(_) => (call_id, error_text),
    }
}

/// The id and content of the tool message answering a call; `error_text`
/// is how a failure reads.
pub fn tool_reply<C: IToolCall>(call: &C, result: &CallResult, error_text: &str) -> (r: (String, String))
    ensures
        (r.0@, r.1@) == tool_reply_text(call.id_view(), *result, error_text@),
{
    match result {
        Ok(out) => (out.call_id.clone(), out.content.clone()),
        Err(_) => (call.id().to_owned(), error_text.to_owned()),
    }
}

/// Commits a turn: the action as an assistant message, then the tool
/// answers, after the messages already there.
pub fn commit_messages<M: IMessage, A: Default>(cx: &mut Context<M, A>, action: Action<M::ToolCall>, tool_messages: Vec<M>)
    ensures
        plain_messages(final(cx)@.messages).len() == plain_messages(old(cx)@.messages).len() + 1
            + tool_messages@.len(),
        plain_messages(final(cx)@.messages).take(old(cx)@.messages.len() as int) == plain_messages(
            old(cx)@.messages,
        ),
        plain_messages(final(cx)@.messages).skip(old(cx)@.messages.len() + 1int) == tool_messages@,
        <M as FromSpec<Action<M::ToolCall>>>::obeys_from_spec() ==> plain_messages(
            final(cx)@.messages,
        )[old(cx)@.messages.len() as int] == <M as FromSpec<Action<M::ToolCall>>>::from_spec(action),
        final(cx)@.model == old(cx)@.model,
        final(cx)@.tool_defs == old(cx)@.tool_defs,
{
    let ghost start = plain_messages(cx@.messages);
    let ghost act = action;
    let first = M::from(action);
    let ghost committed = first;
    cx.push_message(first);
    let ghost mid = plain_messages(cx@.messages);
    assert(mid[start.len() as int] == committed);
    let mut rest = tool_messages;
    let ghost all = rest@;
    let ghost k: int = 0;
    assert(all.skip(0) =~= all);
    assert(mid.skip(start.len() + 1int) =~= all.take(0));
    while rest.len() > 0
        invariant
            0 <= k <= all.len(),
            rest@ == all.skip(k),
            plain_messages(cx@.messages).len() == start.len() + 1 + k,
            plain_messages(cx@.messages).take(start.len() as int) == start,
            plain_messages(cx@.messages).skip(start.len() + 1int) == all.take(k),
            plain_messages(cx@.messages)[start.len() as int] == committed,
            <M as FromSpec<Action<M::ToolCall>>>::obeys_from_spec() ==> committed == <M as FromSpec<
                Action<M::ToolCall>,
            >>::from_spec(act),
            cx@.model == old(cx)@.model,
            cx@.tool_defs == old(cx)@.tool_defs,
        decreases rest.len(),
    {
        let m = rest.remove(0);
        let ghost before = plain_messages(cx@.messages);
        cx.push_message(m);
        proof {
            let after = plain_messages(cx@.messages);
            assert(all.skip(k)[0] == m);
            assert(all.skip(k).drop_first() =~= all.skip(k + 1));
            assert(after =~= before.push(m));
            assert(after[start.len() as int] == before[start.len() as int]);
            assert(after.take(start.len() as int) =~= before.take(start.len() as int));
            assert(all.take(k + 1) =~= all.take(k).push(all[k]));
            assert(after.skip(start.len() + 1int) =~= before.skip(start.len() + 1int).push(m));
            k = k + 1;
        }
    }
    assert(all.take(k) =~= all);
}

/// The definitions a context offers: the local tools', then the remote
/// tools' whose names no local tool has.
pub open spec fn merged_defs(local: Seq<ToolDefination>, remote: Seq<ToolDefination>) -> Seq<ToolDefination> {
    local + remote.filter(
        |d: ToolDefination| !(exists|i: int| 0 <= i < local.len() && local[i].name@ == d.name@),
    )
}

/// A remote tool never shadows a local one: the local definitions come
/// first, unchanged, and every definition after them has a name that no
/// local definition has.
pub proof fn lemma_remote_never_shadows_local(local: Seq<ToolDefination>, remote: Seq<ToolDefination>)
    ensures
        merged_defs(local, remote).take(local.len() as int) == local,
        forall|k: int, i: int|
            local.len() <= k < merged_defs(local, remote).len() && 0 <= i < local.len()
                ==> (#[trigger] local[i]).name@ != (#[trigger] merged_defs(local, remote)[k]).name@,
{
    let keep = |d: ToolDefination| !(exists|i: int| 0 <= i < local.len() && local[i].name@ == d.name@);
    let kept = remote.filter(keep);
    let m = merged_defs(local, remote);
    assert(m == local + kept);
    assert(m.take(local.len() as int) =~= local);
    assert forall|k: int, i: int|
        local.len() <= k < m.len() && 0 <= i < local.len() implies (#[trigger] local[i]).name@ != (
        #[trigger] m[k]).name@ by {
        remote.lemma_filter_pred(keep, k - local.len());
        assert(m[k] == kept[k - local.len()]);
    }
}

/// Merging offers the local tools alone when there are no remote ones, and
/// one more remote tool grows the offer by exactly that tool, at the end,
/// unless a local tool has its name, in which case the offer is unchanged.
pub proof fn lemma_merge_adds_each_new_remote(local: Seq<ToolDefination>, remote: Seq<ToolDefination>, d: ToolDefination)
    ensures
        merged_defs(local, Seq::<ToolDefination>::empty()) == local,
        merged_defs(local, remote.push(d)) == if exists|i: int| 0 <= i < local.len() && local[i].name@ == d.name@ {
            merged_defs(local, remote)
        } else {
            merged_defs(local, remote).push(d)
        },
{
    let keep = |x: ToolDefination| !(exists|i: int| 0 <= i < local.len() && local[i].name@ == x.name@);
    assert(merged_defs(local, Seq::<ToolDefination>::empty()) == local + Seq::<ToolDefination>::empty().filter(keep));
    reveal(Seq::filter);
    assert(Seq::<ToolDefination>::empty().filter(keep) =~= Seq::<ToolDefination>::empty());
    assert(local + Seq::<ToolDefination>::empty() =~= local);
    remote.lemma_filter_push(d, keep);
    assert(merged_defs(local, remote.push(d)) == local + remote.push(d).filter(keep));
    assert(merged_defs(local, remote) == local + remote.filter(keep));
    assert(local + remote.filter(keep).push(d) =~= (local + remote.filter(keep)).push(d));
}

/// Every remote tool whose name no local tool has is offered, after the
/// local tools.
pub proof fn lemma_merge_offers_every_new_remote(local: Seq<ToolDefination>, remote: Seq<ToolDefination>)
    ensures
        forall|j: int|
            0 <= j < remote.len() && !(exists|i: int| 0 <= i < local.len() && local[i].name@ == remote[j].name@)
                ==> exists|k: int|
                local.len() <= k < merged_defs(local, remote).len() && merged_defs(local, remote)[k] == #[trigger] remote[j],
{
    let keep = |x: ToolDefination| !(exists|i: int| 0 <= i < local.len() && local[i].name@ == x.name@);
    let kept = remote.filter(keep);
    let m = merged_defs(local, remote);
    assert(m == local + kept);
    assert forall|j: int|
        0 <= j < remote.len() && !(exists|i: int| 0 <= i < local.len() && local[i].name@ == remote[j].name@)
            implies exists|k: int| local.len() <= k < m.len() && m[k] == #[trigger] remote[j] by {
        assert(keep(remote[j]));
        remote.lemma_filter_contains(keep, j);
        let idx = choose|idx: int| 0 <= idx < kept.len() && kept[idx] == remote[j];
        assert(m[local.len() + idx] == kept[idx]);
    }
}

fn has_local_name(local: &Vec<ToolDefination>, name: &str) -> (r: bool)
    ensures
        r == (exists|i: int| 0 <= i < local@.len() && local@[i].name@ == name@),
{
    let mut i: usize = 0;
    while i < local.len()
        invariant
            i <= local@.len(),
            forall|k: int| 0 <= k < i ==> local@[k].name@ != name@,
        decreases local@.len() - i,
    {
        if str_equals(local[i].name.as_str(), name) {
            return true;
        }
        i = i + 1;
    }
    false
}

/// The definitions a context offers; see [`merged_defs`].
pub fn merge_tool_defs(local: Vec<ToolDefination>, remote: Vec<ToolDefination>) -> (r: Vec<ToolDefination>)
    ensures
        r@ == merged_defs(local@, remote@),
{
    let ghost keep = |d: ToolDefination| !(exists|i: int| 0 <= i < local@.len() && local@[i].name@ == d.name@);
    let ghost rv = remote@;
    let mut kept: Vec<ToolDefination> = Vec::new();
    let mut rest = remote;
    let ghost k: int = 0;
    proof {
        reveal(Seq::filter);
        assert(rv.take(0) =~= Seq::<ToolDefination>::empty());
        assert(rv.skip(0) =~= rv);
    }
    while rest.len() > 0
        invariant
            0 <= k <= rv.len(),
            rest@ == rv.skip(k),
            keep == (|d: ToolDefination| !(exists|i: int| 0 <= i < local@.len() && local@[i].name@ == d.name@)),
            kept@ == rv.take(k).filter(keep),
        decreases rest.len(),
    {
        let d = rest.remove(0);
        proof {
            reveal(Seq::filter);
            assert(rv.skip(k)[0] == d);
            assert(rv.skip(k).drop_first() =~= rv.skip(k + 1));
            assert(rv.take(k + 1) =~= rv.take(k).push(d));
            assert(rv.take(k + 1).drop_last() =~= rv.take(k));
        }
        if !has_local_name(&local, d.name.as_str()) {
            kept.push(d);
        }
        proof {
            k = k + 1;
        }
    }
    assert(rv.take(k) =~= rv);
    let mut out = local;
    let ghost lv = out@;
    out.append(&mut kept);
    out
}

} // verus!
