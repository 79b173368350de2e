//! Tools served by remote servers: the registry that their answers fill, and
//! what a forwarded call gives back.
use vstd::prelude::*;
use vstd::string::*;
use crate::agent::tool::result::{CallOutput, CallResult, ExecutionError, ExecutionErrorView};
use crate::lines::{lex_leq, lemma_lex_total, sort_strings, views};
use crate::resolver::action::str_equals;
use crate::resolver::tool::{IToolCall, ToolDefination, same_params};

verus! {

/// A server that lists remote tools at `register_url`.
pub struct RemoteServerConfig {
    pub name: String,
    pub register_url: String,
}

/// Which servers to ask for remote tools.
pub struct RemoteToolConfig {
    pub servers: Vec<RemoteServerConfig>,
}

/// Why the remote tools could not be set up.
#[derive(Debug, PartialEq, Eq, Structural)]
pub enum RemoteError {
    /// The configuration names no server.
    NoServers,
    /// No server gave a tool that could be registered.
    NoToolsLoaded,
}

impl RemoteError {
    pub fn message(&self) -> (r: String)
        ensures
            r@ == remote_error_text(*self),
    {
        match self {
            RemoteError::NoServers => "remote tool config has no servers".to_owned(),
            RemoteError::NoToolsLoaded => "no remote tools successfully loaded".to_owned(),
        }
    }
}

pub open spec fn remote_error_text(e: RemoteError) -> Seq<char> {
    match e {
        RemoteError::NoServers => "remote tool config has no servers"@,
        RemoteError::NoToolsLoaded => "no remote tools successfully loaded"@,
    }
}

impl RemoteToolConfig {
    /// A configuration is usable when it names at least one server.
    pub fn check(&self) -> (r: Result<(), RemoteError>)
        ensures
            r is Err <==> self.servers@.len() == 0,
            r matches Err(e) ==> e == RemoteError::NoServers,
    {
        if self.servers.len() == 0 {
            Err(RemoteError::NoServers)
        } else {
            Ok(())
        }
    }
}

/// A tool that a remote server serves at `call_url`.
pub struct RemoteTool {
    pub defination: ToolDefination,
    pub call_url: String,
}

/// The names of `tools`, in order.
pub open spec fn tool_names(tools: Seq<RemoteTool>) -> Seq<Seq<char>> {
    tools.map_values(|t: RemoteTool| t.defination.name@)
}

/// Every name is non-empty and no two tools share one.
pub open spec fn valid_registry(tools: Seq<RemoteTool>) -> bool {
    &&& forall|i: int| 0 <= i < tools.len() ==> (#[trigger] tools[i]).defination.name@.len() > 0
    &&& forall|i: int, j: int|
        0 <= i < j < tools.len() ==> (#[trigger] tools[i]).defination.name@
            != (#[trigger] tools[j]).defination.name@
}

/// The registry after offering it `tool`: a tool without a name, or with the
/// name of one already registered, is skipped; any other is added last.
pub open spec fn register_step(tools: Seq<RemoteTool>, tool: RemoteTool) -> Seq<RemoteTool> {
    if tool.defination.name@.len() == 0 || tool_names(tools).contains(tool.defination.name@) {
        tools
    } else {
        tools.push(tool)
    }
}

/// The registry after offering it `items` one after the other.
pub open spec fn register_all(tools: Seq<RemoteTool>, items: Seq<RemoteTool>) -> Seq<RemoteTool>
    decreases items.len(),
{
    if items.len() == 0 {
        tools
    } else {
        register_step(register_all(tools, items.drop_last()), items.last())
    }
}

/// What happened to a tool offered to the registry.
#[derive(Debug, PartialEq, Eq, Structural)]
pub enum RegisterOutcome {
    Registered,
    /// Skipped: the tool has no name.
    EmptyName,
    /// Skipped: a tool of that name is already registered.
    Duplicate,
}

/// The remote tools that the agent can forward calls to, by name.
pub struct RemoteProxy {
    tools: Vec<RemoteTool>,
}

impl View for RemoteProxy {
    type V = Seq<RemoteTool>;

    closed spec fn view(&self) -> Seq<RemoteTool> {
        self.tools@
    }
}

proof fn lemma_step_keeps_valid(tools: Seq<RemoteTool>, tool: RemoteTool)
    requires
        valid_registry(tools),
    ensures
        valid_registry(register_step(tools, tool)),
{
    if !(tool.defination.name@.len() == 0 || tool_names(tools).contains(tool.defination.name@)) {
        let s = tools.push(tool);
        assert forall|i: int, j: int| 0 <= i < j < s.len() implies (#[trigger] s[i]).defination.name@
            != (#[trigger] s[j]).defination.name@ by {
            if j == tools.len() {
                assert(tool_names(tools)[i] == s[i].defination.name@);
            }
        }
    }
}

/// Once offered, a tool with a name can be found by that name, and no tool
/// already registered is replaced or moved by a later one.
pub proof fn lemma_register_finds_and_keeps(tools: Seq<RemoteTool>, tool: RemoteTool)
    requires
        tool.defination.name@.len() > 0,
    ensures
        tool_names(register_step(tools, tool)).contains(tool.defination.name@),
        register_step(tools, tool).len() >= tools.len(),
        forall|j: int| 0 <= j < tools.len() ==> #[trigger] register_step(tools, tool)[j] == tools[j],
{
    let s = register_step(tools, tool);
    if !tool_names(tools).contains(tool.defination.name@) {
        assert(tool_names(s)[tools.len() as int] == tool.defination.name@);
    }
}

impl RemoteProxy {
    #[verifier::type_invariant]
    closed spec fn wf(self) -> bool {
        valid_registry(self.tools@)
    }

    /// A registry with no tools.
    pub fn new() -> (r: Self)
        ensures
            r@ == Seq::<RemoteTool>::empty(),
    {
        RemoteProxy { tools: Vec::new() }
    }

    /// The position of the tool named `name`, if one is registered.
    fn position(&self, name: &str) -> (r: Option<usize>)
        ensures
            r matches Some(i) ==> i < self@.len() && self@[i as int].defination.name@ == name@,
            r is None <==> !tool_names(self@).contains(name@),
    {
        let mut i: usize = 0;
        while i < self.tools.len()
            invariant
                i <= self.tools.len(),
                forall|k: int| 0 <= k < i ==> self@[k].defination.name@ != name@,
            decreases self.tools.len() - i,
        {
            if str_equals(self.tools[i].defination.name.as_str(), name) {
                assert(tool_names(self@)[i as int] == name@);
                return Some(i);
            }
            i = i + 1;
        }
        proof {
            if tool_names(self@).contains(name@) {
                let k = choose|k: int| 0 <= k < tool_names(self@).len() && tool_names(self@)[k] == name@;
                assert(self@[k].defination.name@ == name@);
            }
        }
        None
    }

    /// Whether a tool named `name` is registered.
    pub fn has_tool(&self, name: &str) -> (r: bool)
        ensures
            r == tool_names(self@).contains(name@),
    {
        self.position(name).is_some()
    }

    /// Offers `tool` to the registry: it is added unless it has no name or
    /// its name is taken.
    pub fn register(&mut self, tool: RemoteTool) -> (r: RegisterOutcome)
        ensures
            final(self)@ == register_step(old(self)@, tool),
            valid_registry(final(self)@),
            r == RegisterOutcome::EmptyName <==> tool.defination.name@.len() == 0,
            r == RegisterOutcome::Duplicate <==> tool.defination.name@.len() > 0 && tool_names(
                old(self)@,
            ).contains(tool.defination.name@),
    {
        proof {
            use_type_invariant(&*self);
            lemma_step_keeps_valid(self@, tool);
        }
        if tool.defination.name.as_str().is_empty() {
            return RegisterOutcome::EmptyName;
        }
        if self.has_tool(tool.defination.name.as_str()) {
            return RegisterOutcome::Duplicate;
        }
        let mut tools: Vec<RemoteTool> = Vec::new();
        std::mem::swap(&mut tools, &mut self.tools);
        tools.push(tool);
        self.tools = tools;
        RegisterOutcome::Registered
    }

    /// Offers the tools of one server's answer, in order.
    pub fn register_response(&mut self, items: Vec<RemoteTool>)
        ensures
            final(self)@ == register_all(old(self)@, items@),
            valid_registry(final(self)@),
    {
        proof {
            use_type_invariant(&*self);
        }
        let ghost start = self@;
        let ghost all = items@;
        let total = items.len();
        let mut rest = items;
        let mut done: usize = 0;
        assert(all.take(0) =~= Seq::<RemoteTool>::empty());
        assert(rest@ =~= all.skip(0));
        while rest.len() > 0
            invariant
                done + rest@.len() == all.len(),
                all.len() == total,
                rest@ == all.skip(done as int),
                self@ == register_all(start, all.take(done as int)),
                valid_registry(self@),
            decreases rest.len(),
        {
            let ghost before = rest@;
            let item = rest.remove(0);
            assert(item == all[done as int]);
            assert(all.take(done + 1).drop_last() =~= all.take(done as int));
            assert(all.take(done + 1).last() == all[done as int]);
            self.register(item);
            assert(rest@ =~= all.skip(done + 1));
            done = done + 1;
        }
        assert(all.take(all.len() as int) =~= all);
    }

    /// Setting up fails when no tool was registered.
    pub fn ensure_loaded(&self) -> (r: Result<(), RemoteError>)
        ensures
            r is Err <==> self@.len() == 0,
            r matches Err(e) ==> e == RemoteError::NoToolsLoaded,
    {
        if self.tools.len() == 0 {
            Err(RemoteError::NoToolsLoaded)
        } else {
            Ok(())
        }
    }

    /// The definitions of the registered tools, ordered by name, each alike
/// the registered one of its name.
    pub fn tool_definations(&self) -> (r: Vec<ToolDefination>)
        ensures
            r@.len() == self@.len(),
            r@.map_values(|d: ToolDefination| d.name@) == tool_names(self@).sort_by(lex_leq()),
            forall|k: int, j: int|
                0 <= k < r@.len() && 0 <= j < self@.len() && (#[trigger] r@[k]).name@
                    == (#[trigger] self@[j]).defination.name@ ==> r@[k].description
                    == self@[j].defination.description && r@[k].strict
                    == self@[j].defination.strict && same_params(
                    r@[k].parameters,
                    self@[j].defination.parameters,
                ),
    {
        proof {
            use_type_invariant(self);
            lemma_lex_total();
        }
        let ghost names = tool_names(self@);
        let mut name_list: Vec<String> = Vec::new();
        let mut i: usize = 0;
        while i < self.tools.len()
            invariant
                i <= self.tools.len(),
                names == tool_names(self@),
                views(name_list@) == names.take(i as int),
            decreases self.tools.len() - i,
        {
            name_list.push(self.tools[i].defination.name.clone());
            assert(names.take(i + 1) =~= names.take(i as int).push(names[i as int]));
            assert(views(name_list@) =~= views(name_list@).take(i as int).push(name_list@[i as int]@));
            i = i + 1;
        }
        assert(names.take(names.len() as int) =~= names);
        let sorted = sort_strings(name_list);
        let ghost target = names.sort_by(lex_leq());
        proof {
            names.lemma_sort_by_ensures(lex_leq());
            names.to_multiset_ensures();
            target.to_multiset_ensures();
        }
        let mut out: Vec<ToolDefination> = Vec::new();
        let mut k: usize = 0;
        while k < sorted.len()
            invariant
                valid_registry(self@),
                names == tool_names(self@),
                views(sorted@) == target,
                target.to_multiset() == names.to_multiset(),
                forall|x: Seq<char>| target.contains(x) <==> target.to_multiset().count(x) > 0,
                forall|x: Seq<char>| names.contains(x) <==> names.to_multiset().count(x) > 0,
                k <= sorted.len(),
                out@.len() == k,
                forall|p: int| 0 <= p < k ==> (#[trigger] out@[p]).name@ == target[p],
                forall|p: int, j: int|
                    0 <= p < k && 0 <= j < self@.len() && (#[trigger] out@[p]).name@
                        == (#[trigger] self@[j]).defination.name@ ==> out@[p].description
                        == self@[j].defination.description && out@[p].strict
                        == self@[j].defination.strict && same_params(
                        out@[p].parameters,
                        self@[j].defination.parameters,
                    ),
            decreases sorted.len() - k,
        {
            assert(views(sorted@)[k as int] == sorted@[k as int]@);
            assert(target.contains(target[k as int]));
            let pos = self.position(sorted[k].as_str());
            let j = match pos {
                Some(j) => j,
                None => {
                    assert(false);
                    0
                },
            };
            let d = self.tools[j].defination.clone();
            proof {
                assert forall|j2: int| 0 <= j2 < self@.len() && d.name@ == (
                #[trigger] self@[j2]).defination.name@ implies j2 == j by {
                    if j2 < j {
                        assert(self@[j2].defination.name@ != self@[j as int].defination.name@);
                    } else if j < j2 {
                        assert(self@[j as int].defination.name@ != self@[j2].defination.name@);
                    }
                }
            }
            out.push(d);
            k = k + 1;
        }
        proof {
            assert(out@.map_values(|d: ToolDefination| d.name@) =~= target);
        }
        out
    }

    /// Where to forward `call`: the address of the tool it names, or the
    /// failure a call of an unknown tool gives.
    pub fn call_url<C: IToolCall>(&self, call: &C) -> (r: Result<String, ExecutionError>)
        ensures
            r is Ok <==> tool_names(self@).contains(call.name_view()),
            r matches Ok(url) ==> exists|j: int|
                0 <= j < self@.len() && (#[trigger] self@[j]).defination.name@ == call.name_view()
                    && url == self@[j].call_url,
            r matches Err(e) ==> e@ == unknown_remote_tool_error(call.name_view()),
    {
        let name = call.name();
        match self.position(name) {
            Some(j) => Ok(self.tools[j].call_url.clone()),
            None => {
                let mut m = "tool not found: ".to_owned();
                m.append(name);
                Err(ExecutionError::exec_fail(m))
            },
        }
    }
}

/// The failure of a call of a tool that no server registered.
pub open spec fn unknown_remote_tool_error(name: Seq<char>) -> ExecutionErrorView {
    ExecutionErrorView::ExecFail("tool not found: "@ + name)
}

/// What came back from forwarding a call: the server's answer, or why the
/// request itself failed.
pub enum RemoteReply {
    Success { output: String },
    Error { message: String },
    RequestFailed { detail: String },
}

/// The content of a forwarded call, or its failure, for each reply.
pub open spec fn reply_result(reply: RemoteReply) -> Result<Seq<char>, ExecutionErrorView> {
    match reply {
        RemoteReply::Success { output } => Ok(output@),
        RemoteReply::Error { message } => Err(ExecutionErrorView::ExecFail(message@)),
        RemoteReply::RequestFailed { detail } => Err(
            ExecutionErrorView::ExecFail("remote tool request failed: "@ + detail@),
        ),
    }
}

/// The result of a forwarded `call` once `reply` has come back.
pub fn finish_call<C: IToolCall>(call: &C, reply: RemoteReply) -> (r: CallResult)
    ensures
        r is Ok <==> reply_result(reply) is Ok,
        r matches Ok(out) ==> out.call_id@ == call.id_view() && Ok::<Seq<char>, ExecutionErrorView>(
            out.content@,
        ) == reply_result(reply),
        r matches Err(e) ==> Err::<Seq<char>, ExecutionErrorView>(e@) == reply_result(reply),
{
    match reply {
        RemoteReply::Success { output } => Ok(CallOutput::new(call.id().to_owned(), output)),
        RemoteReply::Error { message } => Err(ExecutionError::exec_fail(message)),
        RemoteReply::RequestFailed { detail } => {
            let mut m = "remote tool request failed: ".to_owned();
            m.append(detail.as_str());
            Err(ExecutionError::exec_fail(m))
        },
    }
}

} // verus!
