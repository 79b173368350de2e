//! Delegating tasks to sub-agents: reading the tasks of a call and writing
//! up what the sub-agents answered.
use vstd::prelude::*;
use vstd::string::*;

use std::path::PathBuf;

use crate::agent::tool::embedded_local::fs::{ListFilesTool, ReadFileTool};
use crate::agent::tool::path::copy_path;
use crate::agent::tool::result::{
    ExecutionError, ExecutionErrorView, invalid_json, invalid_json_error, missing_field,
    missing_field_error,
};
use crate::json::{JsonValue, ParsedArgs, json_array, json_get, json_str, str_field};
use crate::lines::{decimal, decimal_string, views};
use crate::resolver::action::str_equals;
use crate::resolver::tool::{
    ParamDef, PropDef, ToolDefination, lemma_set_distinct_properties, names_view,
    plain_string_prop, prop_description, string_prop,
};

verus! {

/// The one model sub-agents can run on.
pub open spec fn supported_model() -> Seq<char> {
    "deepseek-v4-flash"@
}

/// Whether a sub-agent can be run on `model`; on any other model its task
/// fails.
pub fn is_supported_model(model: &str) -> (r: bool)
    ensures
        r == (model@ == supported_model()),
{
    str_equals(model, "deepseek-v4-flash")
}

/// One task for a sub-agent: an id to report it under and the user prompt.
#[derive(Debug)]
pub struct Task {
    pub id: String,
    pub prompt: String,
}

/// A string member that is present and not empty.
pub open spec fn nonempty_str(v: JsonValue, key: Seq<char>) -> Option<Seq<char>> {
    match json_str(json_get(v, key)) {
        Some(s) => if s.len() > 0 {
            Some(s)
        } else {
            None
        },
        None => None,
    }
}

/// The task at position `i` of a call: its `id` and `prompt`, both present
/// and non-empty.
pub open spec fn task_of(i: nat, t: JsonValue) -> Result<(Seq<char>, Seq<char>), ExecutionErrorView> {
    match nonempty_str(t, "id"@) {
        None => Err(
            ExecutionErrorView::ArgsSchema(
                "Task "@ + decimal(i) + ": missing or empty 'id' field"@,
            ),
        ),
        Some(id) => match nonempty_str(t, "prompt"@) {
            None => Err(
                ExecutionErrorView::ArgsSchema(
                    "Task '"@ + id + "': missing or empty 'prompt' field"@,
                ),
            ),
            Some(prompt) => Ok((id, prompt)),
        },
    }
}

/// The first `n` tasks, or the error of the first that is malformed.
pub open spec fn tasks_of(tasks: Seq<JsonValue>, n: nat) -> Result<Seq<(Seq<char>, Seq<char>)>, ExecutionErrorView>
    decreases n,
{
    if n == 0 {
        Ok(Seq::empty())
    } else {
        match tasks_of(tasks, (n - 1) as nat) {
            Err(e) => Err(e),
            Ok(done) => match task_of((n - 1) as nat, tasks[n - 1]) {
                Err(e) => Err(e),
                Ok(t) => Ok(done.push(t)),
            },
        }
    }
}

pub open spec fn too_many_tasks_error(n: nat, max: nat) -> ExecutionErrorView {
    ExecutionErrorView::ExecFail("Too many tasks: "@ + decimal(n) + " (max "@ + decimal(max) + ")"@)
}

/// What a call asks for: the model (the given one when it is a non-empty
/// string, else `default_model`), the shared system prompt and the tasks;
/// or the first error among invalid JSON, a missing or empty
/// `system_prompt`, a missing `tasks` array, no tasks, more than
/// `max_tasks` tasks and a malformed task.
pub open spec fn subagent_args(args: ParsedArgs, default_model: Seq<char>, max_tasks: nat) -> Result<(Seq<char>, Seq<char>, Seq<(Seq<char>, Seq<char>)>), ExecutionErrorView> {
    match args {
        Err(reason) => Err(invalid_json_error(reason@)),
        Ok(v) => match nonempty_str(v, "system_prompt"@) {
            None => Err(missing_field_error("system_prompt"@)),
            Some(system_prompt) => {
                let model = match nonempty_str(v, "model"@) {
                    Some(m) => m,
                    None => default_model,
                };
                match json_array(json_get(v, "tasks"@)) {
                    None => Err(missing_field_error("tasks"@)),
                    Some(tasks) => if tasks.len() == 0 {
                        Err(ExecutionErrorView::ArgsSchema("'tasks' array must not be empty"@))
                    } else if tasks.len() > max_tasks {
                        Err(too_many_tasks_error(tasks.len(), max_tasks))
                    } else {
                        match tasks_of(tasks, tasks.len()) {
                            Err(e) => Err(e),
                            Ok(parsed) => Ok((model, system_prompt, parsed)),
                        }
                    },
                }
            },
        },
    }
}

pub open spec fn tasks_view(t: Seq<Task>) -> Seq<(Seq<char>, Seq<char>)> {
    t.map_values(|x: Task| (x.id@, x.prompt@))
}

fn nonempty_field<'a>(v: &'a JsonValue, key: &str) -> (r: Option<&'a str>)
    ensures
        match r {
            Some(s) => nonempty_str(*v, key@) == Some(s@),
            None => nonempty_str(*v, key@) is None,
        },
{
    match str_field(v, key) {
        Some(s) => if s.unicode_len() > 0 {
            Some(s)
        } else {
            None
        },
        None => None,
    }
}

/// Reads the task at position `i`; see [`task_of`].
pub fn parse_single_task(i: usize, t: &JsonValue) -> (r: Result<Task, ExecutionError>)
    ensures
        match r {
            Ok(task) => task_of(i as nat, *t) == Ok::<(Seq<char>, Seq<char>), ExecutionErrorView>(
                (task.id@, task.prompt@),
            ),
            Err(e) => task_of(i as nat, *t) == Err::<(Seq<char>, Seq<char>), ExecutionErrorView>(e@),
        },
{
    let id = match nonempty_field(t, "id") {
        Some(x) => x,
        None => {
            let mut m = "Task ".to_owned();
            let d = decimal_string(i as u64);
            m.append(d.as_str());
            m.append(": missing or empty 'id' field");
            return Err(ExecutionError::args_schema(m));
        },
    };
    let prompt = match nonempty_field(t, "prompt") {
        Some(x) => x,
        None => {
            let mut m = "Task '".to_owned();
            m.append(id);
            m.append("': missing or empty 'prompt' field");
            return Err(ExecutionError::args_schema(m));
        },
    };
    Ok(Task { id: id.to_owned(), prompt: prompt.to_owned() })
}

/// Reads a call; see [`subagent_args`].
#[verifier::loop_isolation(false)]
pub fn parse_subagent_args(args: &ParsedArgs, default_model: &str, max_tasks: usize) -> (r: Result<(String, String, Vec<Task>), ExecutionError>)
    ensures
        match r {
            Ok((model, system_prompt, tasks)) => subagent_args(*args, default_model@, max_tasks as nat) == Ok::<(Seq<char>, Seq<char>, Seq<(Seq<char>, Seq<char>)>), ExecutionErrorView>(
                (model@, system_prompt@, tasks_view(tasks@)),
            ),
            Err(e) => subagent_args(*args, default_model@, max_tasks as nat) == Err::<(Seq<char>, Seq<char>, Seq<(Seq<char>, Seq<char>)>), ExecutionErrorView>(e@),
        },
{
    let v = match args {
        Err(reason) => return Err(invalid_json(reason.as_str())),
        Ok(v) => v,
    };
    let system_prompt = match nonempty_field(v, "system_prompt") {
        Some(x) => x,
        None => return Err(missing_field("system_prompt")),
    };
    let model = match nonempty_field(v, "model") {
        Some(x) => x,
        None => default_model,
    };
    let tasks = match v.get("tasks") {
        Some(t) => match t.as_array() {
            Some(a) => a,
            None => return Err(missing_field("tasks")),
        },
        None => return Err(missing_field("tasks")),
    };
    let n = tasks.len();
    if n == 0 {
        return Err(ExecutionError::args_schema("'tasks' array must not be empty".to_owned()));
    }
    if n > max_tasks {
        let mut m = "Too many tasks: ".to_owned();
        let a = decimal_string(n as u64);
        m.append(a.as_str());
        m.append(" (max ");
        let b = decimal_string(max_tasks as u64);
        m.append(b.as_str());
        m.append(")");
        return Err(ExecutionError::exec_fail(m));
    }
    let mut parsed: Vec<Task> = Vec::new();
    let mut i: usize = 0;
    assert(tasks_view(parsed@) =~= Seq::<(Seq<char>, Seq<char>)>::empty());
    while i < n
        invariant
            n == tasks@.len(),
            i <= n,
            tasks_of(tasks@, i as nat) == Ok::<Seq<(Seq<char>, Seq<char>)>, ExecutionErrorView>(
                tasks_view(parsed@),
            ),
        decreases n - i,
    {
        let task = match parse_single_task(i, &tasks[i]) {
            Ok(t) => t,
            Err(e) => {
                proof {
                    assert(tasks_of(tasks@, (i + 1) as nat) == Err::<
                        Seq<(Seq<char>, Seq<char>)>,
                        ExecutionErrorView,
                    >(e@));
                    lemma_tasks_of_err_stays(tasks@, (i + 1) as nat, n as nat);
                }
                return Err(e);
            },
        };
        let ghost before = parsed@;
        parsed.push(task);
        assert(tasks_view(parsed@) =~= tasks_view(before).push((parsed@.last().id@, parsed@.last().prompt@)));
        i = i + 1;
    }
    Ok((model.to_owned(), system_prompt.to_owned(), parsed))
}

/// An error among the first `k` tasks is the error of all of them.
proof fn lemma_tasks_of_err_stays(tasks: Seq<JsonValue>, k: nat, n: nat)
    requires
        k <= n,
        tasks_of(tasks, k) is Err,
    ensures
        tasks_of(tasks, n) == tasks_of(tasks, k),
    decreases n - k,
{
    if k < n {
        lemma_tasks_of_err_stays(tasks, k, (n - 1) as nat);
    }
}

// ---------------------------------------------------------------------------
// Results
// ---------------------------------------------------------------------------

/// What the sub-agent run under `id` answered, as the last of the results
/// reported under that id: its text, or `None` when it failed; `None` at
/// the outer level when no result was reported under `id`.
pub open spec fn last_result(results: Seq<(Seq<char>, Option<Seq<char>>)>, id: Seq<char>) -> Option<Option<Seq<char>>>
    decreases results.len(),
{
    if results.len() == 0 {
        None
    } else if results.last().0 == id {
        Some(results.last().1)
    } else {
        last_result(results.drop_last(), id)
    }
}

/// The section for the `k`-th task: its id as a heading, then the answer.
/// A result is handed out once: a repeated id finds none.
pub open spec fn result_section(ids: Seq<Seq<char>>, k: int, results: Seq<(Seq<char>, Option<Seq<char>>)>) -> Seq<char> {
    let id = ids[k];
    let answer = if ids.take(k).contains(id) {
        "FAILED: task not found"@
    } else {
        match last_result(results, id) {
            None => "FAILED: task not found"@,
            Some(None) => "FAILED: resolver error"@,
            Some(Some(text)) => text,
        }
    };
    "\n### "@ + id + "\n\n"@ + answer + "\n"@
}

/// The sections of the first `n` tasks.
pub open spec fn result_sections(ids: Seq<Seq<char>>, n: nat, results: Seq<(Seq<char>, Option<Seq<char>>)>) -> Seq<char>
    decreases n,
{
    if n == 0 {
        Seq::empty()
    } else {
        result_sections(ids, (n - 1) as nat, results) + result_section(ids, n - 1, results)
    }
}

/// The report of a run: a heading and one section per task, in the order
/// of the tasks.
pub open spec fn results_report(ids: Seq<Seq<char>>, results: Seq<(Seq<char>, Option<Seq<char>>)>) -> Seq<char> {
    "## Sub-agent Results\n"@ + result_sections(ids, ids.len(), results)
}

pub open spec fn results_view(r: Seq<(String, Option<String>)>) -> Seq<(Seq<char>, Option<Seq<char>>)> {
    r.map_values(
        |e: (String, Option<String>)|
            (
                e.0@,
                match e.1 {
                    Some(t) => Some(t@),
                    None => None,
                },
            ),
    )
}

fn seen_before(ids: &Vec<String>, k: usize) -> (r: bool)
    requires
        k < ids@.len(),
    ensures
        r == views(ids@).take(k as int).contains(ids@[k as int]@),
{
    let mut j: usize = 0;
    while j < k
        invariant
            k < ids@.len(),
            j <= k,
            forall|i: int| 0 <= i < j ==> ids@[i]@ != ids@[k as int]@,
        decreases k - j,
    {
        if str_equals(ids[j].as_str(), ids[k].as_str()) {
            assert(views(ids@).take(k as int)[j as int] == ids@[k as int]@);
            return true;
        }
        j = j + 1;
    }
    assert forall|i: int| 0 <= i < k implies views(ids@).take(k as int)[i] != ids@[k as int]@ by {
        assert(views(ids@).take(k as int)[i] == ids@[i]@);
    }
    false
}

fn find_last<'a>(results: &'a Vec<(String, Option<String>)>, id: &str) -> (r: Option<&'a Option<String>>)
    ensures
        match r {
            None => last_result(results_view(results@), id@) is None,
            Some(x) => last_result(results_view(results@), id@) == Some(
                match *x {
                    Some(t) => Some(t@),
                    None => None::<Seq<char>>,
                },
            ),
        },
{
    let ghost rv = results_view(results@);
    let mut j = results.len();
    assert(rv.take(j as int) =~= rv);
    while j > 0
        invariant
            j <= results@.len(),
            rv == results_view(results@),
            last_result(rv, id@) == last_result(rv.take(j as int), id@),
        decreases j,
    {
        let entry = &results[j - 1];
        assert(rv.take(j as int).last() == rv[j - 1]);
        assert(rv.take(j as int).drop_last() =~= rv.take(j - 1));
        if str_equals(entry.0.as_str(), id) {
            return Some(&entry.1);
        }
        j = j - 1;
    }
    None
}

/// The report of a run; see [`results_report`]. `results` pairs each
/// reported task id with what its sub-agent answered (`None` when it failed).
pub fn format_results(task_ids: &Vec<String>, results: &Vec<(String, Option<String>)>) -> (r: String)
    ensures
        r@ == results_report(views(task_ids@), results_view(results@)),
{
    let ghost ids = views(task_ids@);
    let ghost rv = results_view(results@);
    let mut out = "## Sub-agent Results\n".to_owned();
    let n = task_ids.len();
    let mut k: usize = 0;
    while k < n
        invariant
            n == task_ids@.len(),
            ids == views(task_ids@),
            rv == results_view(results@),
            k <= n,
            out@ == "## Sub-agent Results\n"@ + result_sections(ids, k as nat, rv),
        decreases n - k,
    {
        let id = task_ids[k].as_str();
        out.append("\n### ");
        out.append(id);
        out.append("\n\n");
        if seen_before(task_ids, k) {
            out.append("FAILED: task not found");
        } else {
            match find_last(results, id) {
                None => out.append("FAILED: task not found"),
                Some(None) => out.append("FAILED: resolver error"),
                Some(Some(text)) => out.append(text.as_str()),
            }
        }
        out.append("\n");
        proof {
            assert(ids[k as int] == id@);
            assert(out@ =~= "## Sub-agent Results\n"@ + result_sections(ids, k as nat, rv)
                + result_section(ids, k as int, rv));
        }
        k = k + 1;
    }
    out
}

// ---------------------------------------------------------------------------
// The tool
// ---------------------------------------------------------------------------

pub open spec fn subagent_description() -> Seq<char> {
    "Delegate multiple independent tasks to sub-agents that run in parallel. Each sub-agent resolves independently and results are collected. Sub-agents have access to the list_files and read_file tools."@
}

/// The definition of the delegating tool: a shared system prompt, a model
/// restricted to the supported one, and the task array; the prompt and the
/// tasks are required.
pub open spec fn is_subagent_definition(d: ToolDefination) -> bool {
    let p = d.parameters.props@;
    &&& d.name@ == "run_subagents"@
    &&& d.description@ == subagent_description()
    &&& d.strict == Some(true)
    &&& d.parameters.type_@ == "object"@
    &&& p.len() == 3
    &&& plain_string_prop(p[0], "system_prompt"@, "Shared system prompt injected into every sub-agent."@)
    &&& p[1].0 == "model"@
    &&& p[1].1 matches PropDef::String { enum_: Some(values), .. }
    &&& views(p[1].1->String_enum_->Some_0@) == seq![supported_model()]
    &&& prop_description(p[1].1) == "Model name used to select the underlying agent provider. Defaults to 'deepseek-v4-flash'."@
    &&& p[2].0 == "tasks"@
    &&& p[2].1 matches PropDef::Array { .. }
    &&& prop_description(p[2].1) == "Array of task objects, each with 'id' and 'prompt'. Max 5 tasks."@
    &&& names_view(d.parameters.required) == Some(seq!["system_prompt"@, "tasks"@])
    &&& d.parameters.additional_props is None
}

pub fn subagent_definition() -> (r: ToolDefination)
    ensures
        is_subagent_definition(r),
{
    let model_values = vec!["deepseek-v4-flash".to_owned()];
    let props = vec![
        ("system_prompt", string_prop("Shared system prompt injected into every sub-agent.")),
        (
            "model",
            PropDef::String {
                desc: "Model name used to select the underlying agent provider. Defaults to 'deepseek-v4-flash'.".to_owned(),
                enum_: Some(model_values),
            },
        ),
        (
            "tasks",
            PropDef::Array {
                desc: "Array of task objects, each with 'id' and 'prompt'. Max 5 tasks.".to_owned(),
            },
        ),
    ];
    let ghost pv = props@.map_values(|e: (&str, PropDef)| (e.0@, e.1));
    proof {
        reveal_strlit("system_prompt");
        reveal_strlit("model");
        reveal_strlit("tasks");
        assert(pv[0].0 == "system_prompt"@);
        assert(pv[1].0 == "model"@);
        assert(pv[2].0 == "tasks"@);
        assert(pv[0].0.len() == 13 && pv[1].0.len() == 5 && pv[2].0.len() == 5);
        assert(pv[1].0[0] != pv[2].0[0]);
        lemma_set_distinct_properties(pv);
    }
    let params = ParamDef::new("object").with_properties(props).with_required(
        vec!["system_prompt".to_owned(), "tasks".to_owned()],
    );
    let r = ToolDefination::new(
        "run_subagents",
        "Delegate multiple independent tasks to sub-agents that run in parallel. Each sub-agent resolves independently and results are collected. Sub-agents have access to the list_files and read_file tools.",
        params,
    ).with_strict(true);
    assert(names_view(r.parameters.required) =~= Some(seq!["system_prompt"@, "tasks"@]));
    assert(views(r.parameters.props@[1].1->String_enum_->Some_0@) =~= seq![supported_model()]);
    r
}

/// Runs tasks on sub-agents, which may read and list files under
/// `tools_base_dir`.
pub struct RunSubagentsTool {
    default_model: String,
    max_tasks: usize,
    tools_base_dir: PathBuf,
}

impl RunSubagentsTool {
    pub fn new(default_model: String, max_tasks: usize, tools_base_dir: PathBuf) -> (r: Self)
        ensures
            r.default_model() == default_model@,
            r.max_tasks() == max_tasks,
            r.tools_base_dir() == tools_base_dir,
    {
        Self { default_model, max_tasks, tools_base_dir }
    }

    pub closed spec fn default_model(&self) -> Seq<char> {
        self.default_model@
    }

    pub closed spec fn max_tasks(&self) -> usize {
        self.max_tasks
    }

    pub closed spec fn tools_base_dir(&self) -> PathBuf {
        self.tools_base_dir
    }

    /// The directory the sub-agents' file tools work under.
    pub fn tools_base_dir_path(&self) -> (r: &PathBuf)
        ensures
            *r == self.tools_base_dir(),
    {
        &self.tools_base_dir
    }

    /// The tools one sub-agent gets: reading files and listing directories,
    /// both under the tool's base directory, and nothing else.
    pub fn subagent_tools(&self) -> (r: (ReadFileTool, ListFilesTool))
        ensures
            r.0.base_dir() == self.tools_base_dir(),
            r.1.base_dir() == self.tools_base_dir(),
    {
        (ReadFileTool::new(copy_path(&self.tools_base_dir)), ListFilesTool::new(copy_path(&self.tools_base_dir)))
    }

    pub fn defination(&self) -> (r: ToolDefination)
        ensures
            is_subagent_definition(r),
    {
        subagent_definition()
    }

    /// Reads a call; see [`subagent_args`].
    pub fn parse_args(&self, args: &ParsedArgs) -> (r: Result<(String, String, Vec<Task>), ExecutionError>)
        ensures
            match r {
                Ok((model, system_prompt, tasks)) => subagent_args(*args, self.default_model(), self.max_tasks() as nat) == Ok::<(Seq<char>, Seq<char>, Seq<(Seq<char>, Seq<char>)>), ExecutionErrorView>(
                    (model@, system_prompt@, tasks_view(tasks@)),
                ),
                Err(e) => subagent_args(*args, self.default_model(), self.max_tasks() as nat) == Err::<(Seq<char>, Seq<char>, Seq<(Seq<char>, Seq<char>)>), ExecutionErrorView>(e@),
            },
    {
        parse_subagent_args(args, self.default_model.as_str(), self.max_tasks)
    }
}

} // verus!
