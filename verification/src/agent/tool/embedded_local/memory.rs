//! Memory shards: markdown files under `memory/shards/<name>/shard.md`, each
//! opened by a YAML front-matter block (`name`, `description`, `tags`). The
//! tools list them, recall one, create one and edit the lines of one.
use vstd::prelude::*;
use vstd::string::*;
use vstd::utf8::*;

use std::path::PathBuf;

pub use crate::agent::tool::path::path_join;
use crate::agent::tool::path::join_path;

use crate::agent::tool::result::{
    ExecutionError, ExecutionErrorView, invalid_json, invalid_json_error, missing_field,
    missing_field_error,
};
use crate::json::{ParsedArgs, json_get, json_str, json_u64, str_field, u64_field};
use crate::lines::{
    decimal, decimal_string, join, join_strings, lemma_one_piece_no_occurrence,
    lemma_split_nonempty, lemma_split_prefix_free, occurs_at, split_by, split_once, split_str,
    views,
};
use crate::resolver::tool::{
    ParamDef, PropDef, ToolDefination, lemma_set_distinct_properties, names_view,
    number_prop, plain_number_prop, plain_string_prop, string_prop,
};
use crate::text::{
    is_blank_spec, lemma_trim_start_blank_prefix, trim, trim_spec, trim_start, trim_start_spec,
};

verus! {

// ---------------------------------------------------------------------------
// Shared helpers
// ---------------------------------------------------------------------------

/// The directory the shards under `memory_dir` live in.
pub fn shards_dir_of(memory_dir: &PathBuf) -> (r: PathBuf)
    ensures
        r == path_join(*memory_dir, "shards"@),
{
    join_path(memory_dir, "shards")
}

/// The directory of the shard `name` under `shards_dir`.
pub fn shard_dir_of(shards_dir: &PathBuf, name: &str) -> (r: PathBuf)
    ensures
        r == path_join(*shards_dir, name@),
{
    join_path(shards_dir, name)
}

/// The file a shard's text is kept in, inside its directory.
pub fn shard_file_in(shard_dir: &PathBuf) -> (r: PathBuf)
    ensures
        r == path_join(*shard_dir, "shard.md"@),
{
    join_path(shard_dir, "shard.md")
}

/// The file of the shard `name` under `shards_dir`.
pub fn shard_file_of(shards_dir: &PathBuf, name: &str) -> (r: PathBuf)
    ensures
        r == path_join(path_join(*shards_dir, name@), "shard.md"@),
{
    let dir = shard_dir_of(shards_dir, name);
    shard_file_in(&dir)
}

/// The front-matter of a shard: its display name, description and tags.
#[derive(Debug)]
pub struct ShardMeta {
    pub name: String,
    pub description: String,
    pub tags: Vec<String>,
}

/// The front-matter delimiter.
pub open spec fn fence() -> Seq<char> {
    "---"@
}

/// The two pieces of a shard file around its front-matter: the YAML text
/// between the first two `---` (trimmed) and everything after the second;
/// or why there are not two.
pub open spec fn frontmatter_parts(raw: Seq<char>) -> Result<(Seq<char>, Seq<char>), Seq<char>> {
    let first = split_by(raw, fence());
    if first.len() == 1 {
        Err("missing YAML front-matter start `---`"@)
    } else {
        let rest = raw.skip(first[0].len() + 3int);
        let second = split_by(rest, fence());
        if second.len() == 1 {
            Err("missing YAML front-matter end `---`"@)
        } else {
            Ok((trim_spec(second[0]), rest.skip(second[0].len() + 3int)))
        }
    }
}

/// Splits a shard file into its YAML front-matter text and its body; see
/// [`frontmatter_parts`].
pub fn split_frontmatter(raw: &str) -> (r: Result<(String, String), String>)
    ensures
        match r {
            Ok((yaml, body)) => frontmatter_parts(raw@) == Ok::<(Seq<char>, Seq<char>), Seq<char>>(
                (yaml@, body@),
            ),
            Err(e) => frontmatter_parts(raw@) == Err::<(Seq<char>, Seq<char>), Seq<char>>(e@),
        },
{
    proof {
        reveal_strlit("---");
    }
    match split_once(raw, "---") {
        None => Err("missing YAML front-matter start `---`".to_owned()),
        Some((_before, rest)) => match split_once(rest.as_str(), "---") {
            None => Err("missing YAML front-matter end `---`".to_owned()),
            Some((yaml, body)) => Ok((trim(yaml.as_str()), body)),
        },
    }
}

/// The YAML list of tags in a shard file: one `  - tag` line each.
pub open spec fn tags_yaml(tags: Seq<Seq<char>>) -> Seq<char> {
    join(tags.map_values(|t: Seq<char>| "  - "@ + t), "\n"@)
}

/// A shard file: the front-matter, a blank line and the body.
pub open spec fn shard_file_text(name: Seq<char>, description: Seq<char>, tags: Seq<Seq<char>>, body: Seq<char>) -> Seq<char> {
    "---\nname: "@ + name + "\ndescription: "@ + description + "\ntags:\n"@ + tags_yaml(tags)
        + "\n---\n\n"@ + body
}

fn tags_yaml_text(tags: &Vec<String>) -> (r: String)
    ensures
        r@ == tags_yaml(views(tags@)),
{
    let n = tags.len();
    let mut items: Vec<String> = Vec::new();
    let mut i: usize = 0;
    while i < n
        invariant
            n == tags@.len(),
            i <= n,
            views(items@) == views(tags@).take(i as int).map_values(|t: Seq<char>| "  - "@ + t),
        decreases n - i,
    {
        let mut item = "  - ".to_owned();
        item.append(tags[i].as_str());
        let ghost before = items@;
        items.push(item);
        proof {
            assert(views(items@) =~= views(before).push("  - "@ + tags@[i as int]@));
            assert(views(tags@).take(i + 1) =~= views(tags@).take(i as int).push(tags@[i as int]@));
            assert(views(items@) =~= views(tags@).take(i + 1).map_values(
                |t: Seq<char>| "  - "@ + t,
            ));
        }
        i = i + 1;
    }
    assert(views(tags@).take(n as int) =~= views(tags@));
    join_strings(&items, "\n")
}

/// The text of a shard file; see [`shard_file_text`].
pub fn shard_file(name: &str, description: &str, tags: &Vec<String>, body: &str) -> (r: String)
    ensures
        r@ == shard_file_text(name@, description@, views(tags@), body@),
{
    let mut out = "---\nname: ".to_owned();
    out.append(name);
    out.append("\ndescription: ");
    out.append(description);
    out.append("\ntags:\n");
    let t = tags_yaml_text(tags);
    out.append(t.as_str());
    out.append("\n---\n\n");
    out.append(body);
    out
}

// ---------------------------------------------------------------------------
// ListMemoryShardsTool
// ---------------------------------------------------------------------------

/// The line that lists one shard.
pub open spec fn shard_line(name: Seq<char>, description: Seq<char>, tags: Seq<Seq<char>>) -> Seq<char> {
    "- **"@ + name + "**: "@ + description + " [tags: "@ + join(tags, ", "@) + "]"@
}

pub open spec fn metas_lines(metas: Seq<ShardMeta>) -> Seq<Seq<char>> {
    metas.map_values(|m: ShardMeta| shard_line(m.name@, m.description@, views(m.tags@)))
}

/// The answer to a listing: one line per shard, in the order found, or a
/// note that there is none.
pub open spec fn shard_list_text(metas: Seq<ShardMeta>) -> Seq<char> {
    if metas.len() == 0 {
        "No memory shards found."@
    } else {
        join(metas_lines(metas), "\n"@)
    }
}

/// The answer to a listing when the shards directory does not exist.
pub open spec fn no_shards_dir_text() -> Seq<char> {
    "No memory shards directory found."@
}

pub fn no_shards_dir_message() -> (r: String)
    ensures
        r@ == no_shards_dir_text(),
{
    "No memory shards directory found.".to_owned()
}

/// The answer to a listing of the shards whose front-matter was read.
pub fn shard_list_message(metas: &Vec<ShardMeta>) -> (r: String)
    ensures
        r@ == shard_list_text(metas@),
{
    let n = metas.len();
    if n == 0 {
        return "No memory shards found.".to_owned();
    }
    let mut lines: Vec<String> = Vec::new();
    let mut i: usize = 0;
    while i < n
        invariant
            n == metas@.len(),
            i <= n,
            views(lines@) == metas_lines(metas@.take(i as int)),
        decreases n - i,
    {
        let m = &metas[i];
        let mut line = "- **".to_owned();
        line.append(m.name.as_str());
        line.append("**: ");
        line.append(m.description.as_str());
        line.append(" [tags: ");
        let t = join_strings(&m.tags, ", ");
        line.append(t.as_str());
        line.append("]");
        let ghost before = lines@;
        lines.push(line);
        proof {
            assert(views(lines@) =~= views(before).push(
                shard_line(m.name@, m.description@, views(m.tags@)),
            ));
            assert(metas@.take(i + 1) =~= metas@.take(i as int).push(metas@[i as int]));
            assert(views(lines@) =~= metas_lines(metas@.take(i + 1)));
        }
        i = i + 1;
    }
    assert(metas@.take(n as int) =~= metas@);
    join_strings(&lines, "\n")
}

pub open spec fn list_shards_description() -> Seq<char> {
    "List all available memory shards with their name, description, and tags. Call this first to discover which shards exist, then use recall_memory_shard to load the full content of a specific shard."@
}

/// The definition of the shard-listing tool: no parameters, not strict.
pub open spec fn is_list_shards_definition(d: ToolDefination) -> bool {
    &&& d.name@ == "list_memory_shards"@
    &&& d.description@ == list_shards_description()
    &&& d.strict is None
    &&& d.parameters.type_@ == "object"@
    &&& d.parameters.props@.len() == 0
    &&& d.parameters.required is None
    &&& d.parameters.additional_props is None
}

pub fn list_shards_definition() -> (r: ToolDefination)
    ensures
        is_list_shards_definition(r),
{
    ToolDefination::new(
        "list_memory_shards",
        "List all available memory shards with their name, description, and tags. Call this first to discover which shards exist, then use recall_memory_shard to load the full content of a specific shard.",
        ParamDef::new("object"),
    )
}

/// Lists the shards under `<memory dir>/shards`.
pub struct ListMemoryShardsTool {
    shards_dir: PathBuf,
}

impl ListMemoryShardsTool {
    pub fn new(memory_dir: PathBuf) -> (r: Self)
        ensures
            r.shards_dir() == path_join(memory_dir, "shards"@),
    {
        Self { shards_dir: join_path(&memory_dir, "shards") }
    }

    pub closed spec fn shards_dir(&self) -> PathBuf {
        self.shards_dir
    }

    /// The directory the shards live in.
    pub fn shards_dir_path(&self) -> (r: &PathBuf)
        ensures
            *r == self.shards_dir(),
    {
        &self.shards_dir
    }

    pub fn defination(&self) -> (r: ToolDefination)
        ensures
            is_list_shards_definition(r),
    {
        list_shards_definition()
    }
}

// ---------------------------------------------------------------------------
// RecallMemoryShardTool
// ---------------------------------------------------------------------------

pub open spec fn recall_description() -> Seq<char> {
    "Recall the full content of a specific memory shard by name. Use list_memory_shards first to discover available shard names."@
}

pub open spec fn recall_name_description() -> Seq<char> {
    "Name of the memory shard to recall. Obtain valid names by calling list_memory_shards first."@
}

/// The definition of the shard-recalling tool.
pub open spec fn is_recall_definition(d: ToolDefination) -> bool {
    &&& d.name@ == "recall_memory_shard"@
    &&& d.description@ == recall_description()
    &&& d.strict == Some(true)
    &&& d.parameters.type_@ == "object"@
    &&& d.parameters.props@.len() == 1
    &&& plain_string_prop(d.parameters.props@[0], "shard_name"@, recall_name_description())
    &&& names_view(d.parameters.required) == Some(seq!["shard_name"@])
    &&& d.parameters.additional_props is None
}

pub fn recall_definition() -> (r: ToolDefination)
    ensures
        is_recall_definition(r),
{
    let props = vec![
        ("shard_name", string_prop("Name of the memory shard to recall. Obtain valid names by calling list_memory_shards first.")),
    ];
    let ghost pv = props@.map_values(|e: (&str, PropDef)| (e.0@, e.1));
    proof {
        lemma_set_distinct_properties(pv);
    }
    let params = ParamDef::new("object").with_properties(props).with_required(
        vec!["shard_name".to_owned()],
    );
    let r = ToolDefination::new(
        "recall_memory_shard",
        "Recall the full content of a specific memory shard by name. Use list_memory_shards first to discover available shard names.",
        params,
    ).with_strict(true);
    assert(names_view(r.parameters.required) =~= Some(seq!["shard_name"@]));
    r
}

/// The shard a call names, or the first error among invalid JSON and a
/// missing `shard_name`.
pub open spec fn shard_name_arg(args: ParsedArgs) -> Result<Seq<char>, ExecutionErrorView> {
    match args {
        Err(reason) => Err(invalid_json_error(reason@)),
        Ok(v) => match json_str(json_get(v, "shard_name"@)) {
            None => Err(missing_field_error("shard_name"@)),
            Some(name) => Ok(name),
        },
    }
}

pub fn recall_check_args(args: &ParsedArgs) -> (r: Result<String, ExecutionError>)
    ensures
        match r {
            Ok(n) => shard_name_arg(*args) == Ok::<Seq<char>, ExecutionErrorView>(n@),
            Err(e) => shard_name_arg(*args) == Err::<Seq<char>, ExecutionErrorView>(e@),
        },
{
    let v = match args {
        Err(reason) => return Err(invalid_json(reason.as_str())),
        Ok(v) => v,
    };
    match str_field(v, "shard_name") {
        Some(n) => Ok(n.to_owned()),
        None => Err(missing_field("shard_name")),
    }
}

/// What a recall answers: the shard's body without its leading blank lines.
pub fn recalled_body(body: &str) -> (r: String)
    ensures
        r@ == trim_start_spec(body@),
{
    trim_start(body)
}

/// The error for a shard file that could not be read.
pub open spec fn shard_read_error(name: Seq<char>, reason: Seq<char>) -> ExecutionErrorView {
    ExecutionErrorView::ExecFail("Failed to read shard '"@ + name + "': "@ + reason)
}

/// The error for a shard file whose front-matter could not be parsed.
pub open spec fn shard_parse_error(name: Seq<char>, reason: Seq<char>) -> ExecutionErrorView {
    ExecutionErrorView::ExecFail("Failed to parse shard '"@ + name + "': "@ + reason)
}

pub fn shard_read_failed(name: &str, reason: &str) -> (r: ExecutionError)
    ensures
        r@ == shard_read_error(name@, reason@),
{
    let mut m = "Failed to read shard '".to_owned();
    m.append(name);
    m.append("': ");
    m.append(reason);
    ExecutionError::exec_fail(m)
}

pub fn shard_parse_failed(name: &str, reason: &str) -> (r: ExecutionError)
    ensures
        r@ == shard_parse_error(name@, reason@),
{
    let mut m = "Failed to parse shard '".to_owned();
    m.append(name);
    m.append("': ");
    m.append(reason);
    ExecutionError::exec_fail(m)
}

/// Recalls one shard under `<memory dir>/shards`.
pub struct RecallMemoryShardTool {
    shards_dir: PathBuf,
}

impl RecallMemoryShardTool {
    pub fn new(memory_dir: PathBuf) -> (r: Self)
        ensures
            r.shards_dir() == path_join(memory_dir, "shards"@),
    {
        Self { shards_dir: join_path(&memory_dir, "shards") }
    }

    pub closed spec fn shards_dir(&self) -> PathBuf {
        self.shards_dir
    }

    /// The directory the shards live in.
    pub fn shards_dir_path(&self) -> (r: &PathBuf)
        ensures
            *r == self.shards_dir(),
    {
        &self.shards_dir
    }

    pub fn defination(&self) -> (r: ToolDefination)
        ensures
            is_recall_definition(r),
    {
        recall_definition()
    }

    /// Reads the arguments of a call; see [`shard_name_arg`].
    pub fn check_args(&self, args: &ParsedArgs) -> (r: Result<String, ExecutionError>)
        ensures
            match r {
                Ok(n) => shard_name_arg(*args) == Ok::<Seq<char>, ExecutionErrorView>(n@),
                Err(e) => shard_name_arg(*args) == Err::<Seq<char>, ExecutionErrorView>(e@),
            },
    {
        recall_check_args(args)
    }
}


// ---------------------------------------------------------------------------
// GenerateMemoryShardTool
// ---------------------------------------------------------------------------

/// The most characters a shard body may hold.
pub const MAX_BODY_CHARS: usize = 1024;

/// The tags of a comma-separated list: each trimmed, the empty ones left out.
pub open spec fn tag_list(tags: Seq<char>) -> Seq<Seq<char>> {
    split_by(tags, ","@).map_values(|t: Seq<char>| trim_spec(t)).filter(|t: Seq<char>| t.len() > 0)
}

/// The tags of a comma-separated list; see [`tag_list`].
pub fn parse_tags(tags: &str) -> (r: Vec<String>)
    ensures
        views(r@) == tag_list(tags@),
{
    proof {
        reveal_strlit(",");
    }
    let parts = split_str(tags, ",");
    let ghost pv = views(parts@).map_values(|t: Seq<char>| trim_spec(t));
    let ghost keep = |t: Seq<char>| t.len() > 0;
    let n = parts.len();
    let mut out: Vec<String> = Vec::new();
    let mut i: usize = 0;
    proof {
        reveal(Seq::filter);
        assert(pv.take(0) =~= Seq::<Seq<char>>::empty());
        assert(views(out@) =~= pv.take(0).filter(keep));
    }
    while i < n
        invariant
            n == parts@.len(),
            pv == views(parts@).map_values(|t: Seq<char>| trim_spec(t)),
            keep == (|t: Seq<char>| t.len() > 0),
            i <= n,
            views(out@) == pv.take(i as int).filter(keep),
        decreases n - i,
    {
        let t = trim(parts[i].as_str());
        let ghost before = out@;
        proof {
            reveal(Seq::filter);
            assert(pv.take(i + 1) =~= pv.take(i as int).push(t@));
            assert(pv.take(i + 1).drop_last() =~= pv.take(i as int));
        }
        if t.as_str().unicode_len() > 0 {
            out.push(t);
            assert(views(out@) =~= views(before).push(pv[i as int]));
        }
        i = i + 1;
    }
    assert(pv.take(n as int) =~= pv);
    out
}

/// The five arguments of a shard creation, in order: directory name,
/// display name, description, comma-separated tags and body; or the first
/// error among invalid JSON and a missing argument.
pub open spec fn generate_args(args: ParsedArgs) -> Result<(Seq<char>, Seq<char>, Seq<char>, Seq<char>, Seq<char>), ExecutionErrorView> {
    match args {
        Err(reason) => Err(invalid_json_error(reason@)),
        Ok(v) => match json_str(json_get(v, "shard_name"@)) {
            None => Err(missing_field_error("shard_name"@)),
            Some(name) => match json_str(json_get(v, "display_name"@)) {
                None => Err(missing_field_error("display_name"@)),
                Some(display) => match json_str(json_get(v, "description"@)) {
                    None => Err(missing_field_error("description"@)),
                    Some(description) => match json_str(json_get(v, "tags"@)) {
                        None => Err(missing_field_error("tags"@)),
                        Some(tags) => match json_str(json_get(v, "content"@)) {
                            None => Err(missing_field_error("content"@)),
                            Some(content) => Ok((name, display, description, tags, content)),
                        },
                    },
                },
            },
        },
    }
}

/// What creating a shard writes and answers: the shard's directory name,
/// the text of its file and the reply to the model.
#[derive(Debug)]
pub struct ShardWrite {
    pub shard_name: String,
    pub file_text: String,
    pub reply: String,
}

pub open spec fn content_too_long_error(len: nat) -> ExecutionErrorView {
    ExecutionErrorView::ExecFail(
        "Content exceeds 1024 character limit (actual: "@ + decimal(len)
            + " characters). Please shorten the content and try again."@,
    )
}

pub open spec fn created_shard_reply(name: Seq<char>, len: nat) -> Seq<char> {
    "Successfully created memory shard '"@ + name + "' at memory/shards/"@ + name + "/shard.md ("@
        + decimal(len) + " characters)"@
}

/// The outcome of a shard creation: the arguments' error; the body's size
/// error when it is over [`MAX_BODY_CHARS`] characters; or the shard to write,
/// its tags being those of [`tag_list`].
pub open spec fn generate_outcome(args: ParsedArgs) -> Result<(Seq<char>, Seq<char>, Seq<char>), ExecutionErrorView> {
    match generate_args(args) {
        Err(e) => Err(e),
        Ok((name, display, description, tags, content)) => if content.len() > 1024 {
            Err(content_too_long_error(content.len()))
        } else {
            Ok(
                (
                    name,
                    shard_file_text(display, description, tag_list(tags), content),
                    created_shard_reply(name, content.len()),
                ),
            )
        },
    }
}

/// Works out a shard creation; see [`generate_outcome`].
pub fn generate_shard(args: &ParsedArgs) -> (r: Result<ShardWrite, ExecutionError>)
    ensures
        match r {
            Ok(w) => generate_outcome(*args) == Ok::<(Seq<char>, Seq<char>, Seq<char>), ExecutionErrorView>(
                (w.shard_name@, w.file_text@, w.reply@),
            ),
            Err(e) => generate_outcome(*args) == Err::<(Seq<char>, Seq<char>, Seq<char>), ExecutionErrorView>(e@),
        },
{
    let v = match args {
        Err(reason) => return Err(invalid_json(reason.as_str())),
        Ok(v) => v,
    };
    let name = match str_field(v, "shard_name") {
        Some(x) => x,
        None => return Err(missing_field("shard_name")),
    };
    let display = match str_field(v, "display_name") {
        Some(x) => x,
        None => return Err(missing_field("display_name")),
    };
    let description = match str_field(v, "description") {
        Some(x) => x,
        None => return Err(missing_field("description")),
    };
    let tags = match str_field(v, "tags") {
        Some(x) => x,
        None => return Err(missing_field("tags")),
    };
    let content = match str_field(v, "content") {
        Some(x) => x,
        None => return Err(missing_field("content")),
    };
    let len = content.unicode_len();
    if len > MAX_BODY_CHARS {
        let mut m = "Content exceeds 1024 character limit (actual: ".to_owned();
        let d = decimal_string(len as u64);
        m.append(d.as_str());
        m.append(" characters). Please shorten the content and try again.");
        return Err(ExecutionError::exec_fail(m));
    }
    let tag_vec = parse_tags(tags);
    let file_text = shard_file(display, description, &tag_vec, content);
    let mut reply = "Successfully created memory shard '".to_owned();
    reply.append(name);
    reply.append("' at memory/shards/");
    reply.append(name);
    reply.append("/shard.md (");
    let d = decimal_string(len as u64);
    reply.append(d.as_str());
    reply.append(" characters)");
    Ok(ShardWrite { shard_name: name.to_owned(), file_text, reply })
}

/// The error for a shard directory that could not be created.
pub fn shard_dir_failed(name: &str, reason: &str) -> (r: ExecutionError)
    ensures
        r@ == ExecutionErrorView::ExecFail(
            "Failed to create shard directory '"@ + name@ + "': "@ + reason@,
        ),
{
    let mut m = "Failed to create shard directory '".to_owned();
    m.append(name);
    m.append("': ");
    m.append(reason);
    ExecutionError::exec_fail(m)
}

/// The error for a shard file that could not be written.
pub fn shard_write_failed(reason: &str) -> (r: ExecutionError)
    ensures
        r@ == ExecutionErrorView::ExecFail("Failed to write shard file: "@ + reason@),
{
    let mut m = "Failed to write shard file: ".to_owned();
    m.append(reason);
    ExecutionError::exec_fail(m)
}

pub open spec fn generate_description() -> Seq<char> {
    "Generate a new memory shard by creating a shard.md file under memory/shards/. IMPORTANT: You MUST call recall_memory_shard with shard_name='how-to-create-shard' first to learn the shard creation guidelines before using this tool. The body content is limited to 1024 characters; exceeding this will be rejected. Only create shards when explicitly instructed by LB or a developer \u{2014} never proactively."@
}

/// The definition of the shard-creating tool: five required strings.
pub open spec fn is_generate_definition(d: ToolDefination) -> bool {
    let p = d.parameters.props@;
    &&& d.name@ == "generate_memory_shard"@
    &&& d.description@ == generate_description()
    &&& d.strict == Some(true)
    &&& d.parameters.type_@ == "object"@
    &&& p.len() == 5
    &&& plain_string_prop(p[0], "shard_name"@, "Directory name for the shard (kebab-case, e.g. 'my-new-topic')"@)
    &&& plain_string_prop(p[1], "display_name"@, "Display name for the shard (used in frontmatter 'name' field)"@)
    &&& plain_string_prop(p[2], "description"@, "Short description of the shard's content"@)
    &&& plain_string_prop(p[3], "tags"@, "Comma-separated tags for categorization (e.g. 'frontend,translation')"@)
    &&& plain_string_prop(p[4], "content"@, "The body content of the shard in Markdown. Max 1024 characters. This is the factual knowledge that will be recalled later."@)
    &&& names_view(d.parameters.required) == Some(
        seq!["shard_name"@, "display_name"@, "description"@, "tags"@, "content"@],
    )
    &&& d.parameters.additional_props is None
}

pub fn generate_definition() -> (r: ToolDefination)
    ensures
        is_generate_definition(r),
{
    let props = vec![
        ("shard_name", string_prop("Directory name for the shard (kebab-case, e.g. 'my-new-topic')")),
        ("display_name", string_prop("Display name for the shard (used in frontmatter 'name' field)")),
        ("description", string_prop("Short description of the shard's content")),
        ("tags", string_prop("Comma-separated tags for categorization (e.g. 'frontend,translation')")),
        ("content", string_prop("The body content of the shard in Markdown. Max 1024 characters. This is the factual knowledge that will be recalled later.")),
    ];
    let ghost pv = props@.map_values(|e: (&str, PropDef)| (e.0@, e.1));
    proof {
        reveal_strlit("shard_name");
        reveal_strlit("display_name");
        reveal_strlit("description");
        reveal_strlit("tags");
        reveal_strlit("content");
        assert(pv[0].0 == "shard_name"@);
        assert(pv[1].0 == "display_name"@);
        assert(pv[2].0 == "description"@);
        assert(pv[3].0 == "tags"@);
        assert(pv[4].0 == "content"@);
        assert(pv[0].0.len() == 10 && pv[1].0.len() == 12 && pv[2].0.len() == 11);
        assert(pv[3].0.len() == 4 && pv[4].0.len() == 7);
        assert(pv[0].0[0] != pv[2].0[0]);
        lemma_set_distinct_properties(pv);
    }
    let params = ParamDef::new("object").with_properties(props).with_required(
        vec![
            "shard_name".to_owned(),
            "display_name".to_owned(),
            "description".to_owned(),
            "tags".to_owned(),
            "content".to_owned(),
        ],
    );
    let r = ToolDefination::new(
        "generate_memory_shard",
        "Generate a new memory shard by creating a shard.md file under memory/shards/. IMPORTANT: You MUST call recall_memory_shard with shard_name='how-to-create-shard' first to learn the shard creation guidelines before using this tool. The body content is limited to 1024 characters; exceeding this will be rejected. Only create shards when explicitly instructed by LB or a developer \u{2014} never proactively.",
        params,
    ).with_strict(true);
    assert(names_view(r.parameters.required) =~= Some(
        seq!["shard_name"@, "display_name"@, "description"@, "tags"@, "content"@],
    ));
    r
}

/// Creates shards under `<memory dir>/shards`.
pub struct GenerateMemoryShardTool {
    shards_dir: PathBuf,
}

impl GenerateMemoryShardTool {
    pub fn new(memory_dir: PathBuf) -> (r: Self)
        ensures
            r.shards_dir() == path_join(memory_dir, "shards"@),
    {
        Self { shards_dir: join_path(&memory_dir, "shards") }
    }

    pub closed spec fn shards_dir(&self) -> PathBuf {
        self.shards_dir
    }

    /// The directory the shards live in.
    pub fn shards_dir_path(&self) -> (r: &PathBuf)
        ensures
            *r == self.shards_dir(),
    {
        &self.shards_dir
    }

    pub fn defination(&self) -> (r: ToolDefination)
        ensures
            is_generate_definition(r),
    {
        generate_definition()
    }

    /// Works out a call; see [`generate_outcome`].
    pub fn plan(&self, args: &ParsedArgs) -> (r: Result<ShardWrite, ExecutionError>)
        ensures
            match r {
                Ok(w) => generate_outcome(*args) == Ok::<(Seq<char>, Seq<char>, Seq<char>), ExecutionErrorView>(
                    (w.shard_name@, w.file_text@, w.reply@),
                ),
                Err(e) => generate_outcome(*args) == Err::<(Seq<char>, Seq<char>, Seq<char>), ExecutionErrorView>(e@),
            },
    {
        generate_shard(args)
    }
}


// ---------------------------------------------------------------------------
// ModifyMemoryShardTool
// ---------------------------------------------------------------------------

/// The lines of a shard body as the model sees them when it recalls the
/// shard: the body without leading whitespace, cut at each newline.
pub open spec fn body_lines(body: Seq<char>) -> Seq<Seq<char>> {
    split_by(trim_start_spec(body), "\n"@)
}

/// The lines of a replacement text, written by the model with the two
/// characters `\n` between lines.
pub open spec fn replacement_lines(text: Seq<char>) -> Seq<Seq<char>> {
    split_by(text, "\\n"@)
}

pub open spec fn start_out_of_range_error(start: u64, lines: nat) -> ExecutionErrorView {
    ExecutionErrorView::ExecFail(
        "start_line "@ + decimal(start as nat) + " is out of range (body has "@ + decimal(lines)
            + " lines)"@,
    )
}

pub open spec fn end_before_start_error(end: u64, start: u64) -> ExecutionErrorView {
    ExecutionErrorView::ExecFail(
        "end_line "@ + decimal(end as nat) + " must be >= start_line "@ + decimal(start as nat),
    )
}

pub open spec fn end_out_of_range_error(end: u64, lines: nat) -> ExecutionErrorView {
    ExecutionErrorView::ExecFail(
        "end_line "@ + decimal(end as nat) + " is out of range (body has "@ + decimal(lines)
            + " lines)"@,
    )
}

/// The lines after an edit. With `end` 0 the new lines are appended.
/// Otherwise lines `start..=end` (counted from 1) are replaced by the new
/// lines, when `1 <= start <= end <= lines.len()`; a `start` past the end, an
/// `end` before `start` and an `end` past the end are errors, in that order.
pub open spec fn edit_lines(lines: Seq<Seq<char>>, start: u64, end: u64, new_lines: Seq<Seq<char>>) -> Result<Seq<Seq<char>>, ExecutionErrorView> {
    let n = lines.len();
    if end == 0 {
        Ok(lines + new_lines)
    } else if start == 0 || start > n + 1 {
        Err(start_out_of_range_error(start, n))
    } else if end < start {
        Err(end_before_start_error(end, start))
    } else if end > n {
        Err(end_out_of_range_error(end, n))
    } else {
        Ok(lines.take(start - 1) + new_lines + lines.skip(end as int))
    }
}

/// Appending keeps every line and adds the new ones after them.
pub proof fn lemma_edit_append(lines: Seq<Seq<char>>, start: u64, new_lines: Seq<Seq<char>>)
    ensures
        edit_lines(lines, start, 0, new_lines) is Ok,
        ({
            let r = edit_lines(lines, start, 0, new_lines)->Ok_0;
            &&& r.len() == lines.len() + new_lines.len()
            &&& r.take(lines.len() as int) == lines
            &&& r.skip(lines.len() as int) == new_lines
        }),
{
    let r = lines + new_lines;
    assert(r.take(lines.len() as int) =~= lines);
    assert(r.skip(lines.len() as int) =~= new_lines);
}

/// A replacement succeeds exactly on a range inside the body, and then
/// keeps the lines before and after the range in place around the new ones.
pub proof fn lemma_edit_replace(lines: Seq<Seq<char>>, start: u64, end: u64, new_lines: Seq<Seq<char>>)
    requires
        end > 0,
    ensures
        edit_lines(lines, start, end, new_lines) is Ok <==> (1 <= start <= end <= lines.len()),
        1 <= start <= end <= lines.len() ==> {
            let r = edit_lines(lines, start, end, new_lines)->Ok_0;
            let kept = start - 1;
            &&& r.len() == lines.len() - (end - start + 1) + new_lines.len()
            &&& r.take(kept as int) == lines.take(kept as int)
            &&& r.subrange(kept as int, kept + new_lines.len()) == new_lines
            &&& r.skip(kept + new_lines.len()) == lines.skip(end as int)
        },
{
    if 1 <= start <= end <= lines.len() {
        let r = lines.take(start - 1) + new_lines + lines.skip(end as int);
        let kept = start - 1;
        assert(r.take(kept as int) =~= lines.take(kept as int));
        assert(r.subrange(kept as int, kept + new_lines.len()) =~= new_lines);
        assert(r.skip(kept + new_lines.len()) =~= lines.skip(end as int));
    }
}

/// The four arguments of a shard edit: shard name, first and last line, and
/// replacement text; or the first error among invalid JSON and a missing
/// argument (a line that is not a non-negative integer counts as missing).
pub open spec fn modify_args(args: ParsedArgs) -> Result<(Seq<char>, u64, u64, Seq<char>), ExecutionErrorView> {
    match args {
        Err(reason) => Err(invalid_json_error(reason@)),
        Ok(v) => match json_str(json_get(v, "shard_name"@)) {
            None => Err(missing_field_error("shard_name"@)),
            Some(name) => match json_u64(json_get(v, "start_line"@)) {
                None => Err(missing_field_error("start_line"@)),
                Some(start) => match json_u64(json_get(v, "end_line"@)) {
                    None => Err(missing_field_error("end_line"@)),
                    Some(end) => match json_str(json_get(v, "new_text"@)) {
                        None => Err(missing_field_error("new_text"@)),
                        Some(text) => Ok((name, start, end, text)),
                    },
                },
            },
        },
    }
}

/// The arguments of a shard edit.
#[derive(Debug)]
pub struct ModifyArgs {
    pub shard_name: String,
    pub start_line: u64,
    pub end_line: u64,
    pub new_text: String,
}

pub fn modify_check_args(args: &ParsedArgs) -> (r: Result<ModifyArgs, ExecutionError>)
    ensures
        match r {
            Ok(a) => modify_args(*args) == Ok::<(Seq<char>, u64, u64, Seq<char>), ExecutionErrorView>(
                (a.shard_name@, a.start_line, a.end_line, a.new_text@),
            ),
            Err(e) => modify_args(*args) == Err::<(Seq<char>, u64, u64, Seq<char>), ExecutionErrorView>(e@),
        },
{
    let v = match args {
        Err(reason) => return Err(invalid_json(reason.as_str())),
        Ok(v) => v,
    };
    let name = match str_field(v, "shard_name") {
        Some(x) => x,
        None => return Err(missing_field("shard_name")),
    };
    let start = match u64_field(v, "start_line") {
        Some(x) => x,
        None => return Err(missing_field("start_line")),
    };
    let end = match u64_field(v, "end_line") {
        Some(x) => x,
        None => return Err(missing_field("end_line")),
    };
    let text = match str_field(v, "new_text") {
        Some(x) => x,
        None => return Err(missing_field("new_text")),
    };
    Ok(ModifyArgs { shard_name: name.to_owned(), start_line: start, end_line: end, new_text: text.to_owned() })
}

pub open spec fn body_too_long_error(len: nat) -> ExecutionErrorView {
    ExecutionErrorView::ExecFail(
        "Modified body would be "@ + decimal(len)
            + " characters, exceeding the 1024 character limit. Please shorten the replacement and try again."@,
    )
}

pub open spec fn modified_reply(name: Seq<char>, old_lines: nat, new_lines: nat) -> Seq<char> {
    "Successfully modified shard '"@ + name + "'. Body changed from "@ + decimal(old_lines) + " to "@
        + decimal(new_lines) + " lines. REMEMBER: You MUST now call recall_memory_shard with shard_name='"@
        + name + "' to verify the modification is correct."@
}

/// The outcome of an edit of the shard `name` whose front-matter is `meta`
/// and whose body (after the front-matter) is `body`: the error of
/// [`edit_lines`]; the size error when the new body, its lines joined with
/// newlines, is over [`MAX_BODY_CHARS`] characters; or the new file text and the
/// reply, which counts the lines before and after.
pub open spec fn modify_outcome(name: Seq<char>, meta: ShardMeta, body: Seq<char>, start: u64, end: u64, text: Seq<char>) -> Result<(Seq<char>, Seq<char>), ExecutionErrorView> {
    let lines = body_lines(body);
    match edit_lines(lines, start, end, replacement_lines(text)) {
        Err(e) => Err(e),
        Ok(edited) => {
            let new_body = join(edited, "\n"@);
            if new_body.len() > 1024 {
                Err(body_too_long_error(new_body.len()))
            } else {
                Ok(
                    (
                        shard_file_text(meta.name@, meta.description@, views(meta.tags@), new_body),
                        modified_reply(name, lines.len(), split_by(new_body, "\n"@).len()),
                    ),
                )
            }
        },
    }
}

/// Appends `src[from..to]` to `out`.
fn push_range(out: &mut Vec<String>, src: &Vec<String>, from: usize, to: usize)
    requires
        from <= to <= src@.len(),
    ensures
        views(final(out)@) == views(old(out)@) + views(src@).subrange(from as int, to as int),
{
    let ghost start = views(out@);
    let mut i = from;
    while i < to
        invariant
            from <= i <= to <= src@.len(),
            views(out@) == start + views(src@).subrange(from as int, i as int),
        decreases to - i,
    {
        let ghost before = out@;
        out.push(src[i].clone());
        assert(views(out@) =~= views(before).push(src@[i as int]@));
        assert(views(src@).subrange(from as int, i + 1) =~= views(src@).subrange(from as int, i as int).push(
            src@[i as int]@,
        ));
        i = i + 1;
    }
}

fn line_error(prefix: &str, n: u64, middle: &str, m: u64, suffix: &str) -> (r: ExecutionError)
    ensures
        r@ == ExecutionErrorView::ExecFail(prefix@ + decimal(n as nat) + middle@ + decimal(m as nat) + suffix@),
{
    let mut msg = prefix.to_owned();
    let a = decimal_string(n);
    msg.append(a.as_str());
    msg.append(middle);
    let b = decimal_string(m);
    msg.append(b.as_str());
    msg.append(suffix);
    ExecutionError::exec_fail(msg)
}

/// Works out an edit; see [`modify_outcome`]. Returns the new file text and
/// the reply.
pub fn modify_shard(name: &str, meta: &ShardMeta, body: &str, start: u64, end: u64, text: &str) -> (r: Result<(String, String), ExecutionError>)
    ensures
        match r {
            Ok((file, reply)) => modify_outcome(name@, *meta, body@, start, end, text@) == Ok::<(Seq<char>, Seq<char>), ExecutionErrorView>(
                (file@, reply@),
            ),
            Err(e) => modify_outcome(name@, *meta, body@, start, end, text@) == Err::<(Seq<char>, Seq<char>), ExecutionErrorView>(e@),
        },
{
    proof {
        reveal_strlit("\n");
        reveal_strlit("\\n");
    }
    let trimmed = trim_start(body);
    let lines = split_str(trimmed.as_str(), "\n");
    let new_lines = split_str(text, "\\n");
    let ghost lv = views(lines@);
    let ghost nv = views(new_lines@);
    let n = lines.len();
    let mut edited: Vec<String> = Vec::new();
    assert(views(edited@) =~= Seq::<Seq<char>>::empty());
    if end == 0 {
        push_range(&mut edited, &lines, 0, n);
        push_range(&mut edited, &new_lines, 0, new_lines.len());
        assert(lv.subrange(0, n as int) =~= lv);
        assert(nv.subrange(0, nv.len() as int) =~= nv);
    } else {
        if start == 0 || start - 1 > n as u64 {
            return Err(line_error("start_line ", start, " is out of range (body has ", n as u64, " lines)"));
        }
        if end < start {
            proof {
                reveal_strlit("");
                let m = "end_line "@ + decimal(end as nat) + " must be >= start_line "@ + decimal(
                    start as nat,
                );
                assert(m + ""@ =~= m);
            }
            return Err(line_error("end_line ", end, " must be >= start_line ", start, ""));
        }
        if end > n as u64 {
            return Err(line_error("end_line ", end, " is out of range (body has ", n as u64, " lines)"));
        }
        let s = (start - 1) as usize;
        let e = end as usize;
        push_range(&mut edited, &lines, 0, s);
        push_range(&mut edited, &new_lines, 0, new_lines.len());
        push_range(&mut edited, &lines, e, n);
        assert(lv.subrange(0, s as int) =~= lv.take(s as int));
        assert(nv.subrange(0, nv.len() as int) =~= nv);
        assert(lv.subrange(e as int, n as int) =~= lv.skip(e as int));
    }
    let new_body = join_strings(&edited, "\n");
    let len = new_body.as_str().unicode_len();
    if len > MAX_BODY_CHARS {
        let mut m = "Modified body would be ".to_owned();
        let d = decimal_string(len as u64);
        m.append(d.as_str());
        m.append(" characters, exceeding the 1024 character limit. Please shorten the replacement and try again.");
        return Err(ExecutionError::exec_fail(m));
    }
    let file = shard_file(meta.name.as_str(), meta.description.as_str(), &meta.tags, new_body.as_str());
    let after = split_str(new_body.as_str(), "\n");
    let mut reply = "Successfully modified shard '".to_owned();
    reply.append(name);
    reply.append("'. Body changed from ");
    let a = decimal_string(n as u64);
    reply.append(a.as_str());
    reply.append(" to ");
    let b = decimal_string(after.len() as u64);
    reply.append(b.as_str());
    reply.append(" lines. REMEMBER: You MUST now call recall_memory_shard with shard_name='");
    reply.append(name);
    reply.append("' to verify the modification is correct.");
    Ok((file, reply))
}

pub open spec fn modify_description() -> Seq<char> {
    "Modify the body content of an existing memory shard. IMPORTANT: You MUST first call recall_memory_shard to read the shard's current content and determine the exact line numbers before using this tool. Line numbers are 1-based and count from the first line after the YAML frontmatter (after the closing `---`). AFTER calling this tool, you MUST call recall_memory_shard again to verify the modification was applied correctly."@
}

/// The definition of the shard-editing tool.
pub open spec fn is_modify_definition(d: ToolDefination) -> bool {
    let p = d.parameters.props@;
    &&& d.name@ == "modify_memory_shard"@
    &&& d.description@ == modify_description()
    &&& d.strict == Some(true)
    &&& d.parameters.type_@ == "object"@
    &&& p.len() == 4
    &&& plain_string_prop(p[0], "shard_name"@, "Name of the shard to modify (directory name, kebab-case)"@)
    &&& plain_number_prop(p[1], "start_line"@, "The 1-based line number (in the body, after frontmatter) where replacement begins. Line 1 is the first line after the closing `---` of the YAML frontmatter. This line will be replaced."@)
    &&& plain_number_prop(p[2], "end_line"@, "The 1-based line number (in the body, inclusive) where replacement ends. Use the same value as start_line to replace a single line. Use 0 to append after the last line."@)
    &&& plain_string_prop(p[3], "new_text"@, "The replacement text. For multi-line replacements, use \\n to separate lines. When end_line is 0 (append mode), new_text is appended as new lines after the existing body lines."@)
    &&& names_view(d.parameters.required) == Some(seq!["shard_name"@, "start_line"@, "end_line"@, "new_text"@])
    &&& d.parameters.additional_props is None
}

pub fn modify_definition() -> (r: ToolDefination)
    ensures
        is_modify_definition(r),
{
    let props = vec![
        ("shard_name", string_prop("Name of the shard to modify (directory name, kebab-case)")),
        ("start_line", number_prop("The 1-based line number (in the body, after frontmatter) where replacement begins. Line 1 is the first line after the closing `---` of the YAML frontmatter. This line will be replaced.")),
        ("end_line", number_prop("The 1-based line number (in the body, inclusive) where replacement ends. Use the same value as start_line to replace a single line. Use 0 to append after the last line.")),
        ("new_text", string_prop("The replacement text. For multi-line replacements, use \\n to separate lines. When end_line is 0 (append mode), new_text is appended as new lines after the existing body lines.")),
    ];
    let ghost pv = props@.map_values(|e: (&str, PropDef)| (e.0@, e.1));
    proof {
        reveal_strlit("shard_name");
        reveal_strlit("start_line");
        reveal_strlit("end_line");
        reveal_strlit("new_text");
        assert(pv[0].0 == "shard_name"@);
        assert(pv[1].0 == "start_line"@);
        assert(pv[2].0 == "end_line"@);
        assert(pv[3].0 == "new_text"@);
        assert(pv[0].0.len() == 10 && pv[1].0.len() == 10 && pv[2].0.len() == 8 && pv[3].0.len() == 8);
        assert(pv[0].0[1] != pv[1].0[1]);
        assert(pv[2].0[0] != pv[3].0[0]);
        lemma_set_distinct_properties(pv);
    }
    let params = ParamDef::new("object").with_properties(props).with_required(
        vec![
            "shard_name".to_owned(),
            "start_line".to_owned(),
            "end_line".to_owned(),
            "new_text".to_owned(),
        ],
    );
    let r = ToolDefination::new(
        "modify_memory_shard",
        "Modify the body content of an existing memory shard. IMPORTANT: You MUST first call recall_memory_shard to read the shard's current content and determine the exact line numbers before using this tool. Line numbers are 1-based and count from the first line after the YAML frontmatter (after the closing `---`). AFTER calling this tool, you MUST call recall_memory_shard again to verify the modification was applied correctly.",
        params,
    ).with_strict(true);
    assert(names_view(r.parameters.required) =~= Some(
        seq!["shard_name"@, "start_line"@, "end_line"@, "new_text"@],
    ));
    r
}

/// Edits the lines of shards under `<memory dir>/shards`.
pub struct ModifyMemoryShardTool {
    shards_dir: PathBuf,
}

impl ModifyMemoryShardTool {
    pub fn new(memory_dir: PathBuf) -> (r: Self)
        ensures
            r.shards_dir() == path_join(memory_dir, "shards"@),
    {
        Self { shards_dir: join_path(&memory_dir, "shards") }
    }

    pub closed spec fn shards_dir(&self) -> PathBuf {
        self.shards_dir
    }

    /// The directory the shards live in.
    pub fn shards_dir_path(&self) -> (r: &PathBuf)
        ensures
            *r == self.shards_dir(),
    {
        &self.shards_dir
    }

    pub fn defination(&self) -> (r: ToolDefination)
        ensures
            is_modify_definition(r),
    {
        modify_definition()
    }

    /// Reads the arguments of a call; see [`modify_args`].
    pub fn check_args(&self, args: &ParsedArgs) -> (r: Result<ModifyArgs, ExecutionError>)
        ensures
            match r {
                Ok(a) => modify_args(*args) == Ok::<(Seq<char>, u64, u64, Seq<char>), ExecutionErrorView>(
                    (a.shard_name@, a.start_line, a.end_line, a.new_text@),
                ),
                Err(e) => modify_args(*args) == Err::<(Seq<char>, u64, u64, Seq<char>), ExecutionErrorView>(e@),
            },
    {
        modify_check_args(args)
    }
}


// ---------------------------------------------------------------------------
// Reading back what was written
// ---------------------------------------------------------------------------

/// The front-matter text of a shard file, between its two fences.
pub open spec fn frontmatter_block(name: Seq<char>, description: Seq<char>, tags: Seq<Seq<char>>) -> Seq<char> {
    "\nname: "@ + name + "\ndescription: "@ + description + "\ntags:\n"@ + tags_yaml(tags) + "\n"@
}

/// A shard file whose front-matter holds no `---` splits into that
/// front-matter and its body; what a recall answers of it is the body it was
/// written with, less the body's leading whitespace.
pub proof fn lemma_recall_after_write(name: Seq<char>, description: Seq<char>, tags: Seq<Seq<char>>, body: Seq<char>)
    requires
        split_by(frontmatter_block(name, description, tags), fence()).len() == 1,
    ensures
        frontmatter_parts(shard_file_text(name, description, tags, body)) == Ok::<(Seq<char>, Seq<char>), Seq<char>>(
            (trim_spec(frontmatter_block(name, description, tags)), "\n\n"@ + body),
        ),
        trim_start_spec("\n\n"@ + body) == trim_start_spec(body),
{
    reveal_strlit("---");
    reveal_strlit("---\nname: ");
    reveal_strlit("\nname: ");
    reveal_strlit("\n---\n\n");
    reveal_strlit("\n");
    reveal_strlit("\n\n");
    let f = fence();
    let block = frontmatter_block(name, description, tags);
    let y = f + "\n\n"@ + body;
    let x = block + y;
    let raw = shard_file_text(name, description, tags, body);
    assert(raw =~= f + x);
    // The first fence opens the file.
    assert(raw.take(3) =~= f);
    lemma_split_nonempty(raw.skip(3), f);
    let first = split_by(raw, f);
    assert(first =~= seq![Seq::<char>::empty()] + split_by(raw.skip(3), f));
    assert(raw.skip(first[0].len() + 3int) =~= x);
    // The second fence closes the front-matter.
    assert(block.len() >= 1 && block[block.len() - 1] == '\n');
    assert forall|i: int| 0 <= i < block.len() implies !occurs_at(x, f, i) by {
        if i + 3 <= block.len() {
            lemma_one_piece_no_occurrence(block, f, i);
            assert(x.subrange(i, i + 3) =~= block.subrange(i, i + 3));
        } else if occurs_at(x, f, i) {
            let k = block.len() - 1 - i;
            assert(x.subrange(i, i + 3)[k] == x[block.len() - 1]);
        }
    }
    lemma_split_prefix_free(block, y, f);
    assert(y.take(3) =~= f);
    lemma_split_nonempty(y.skip(3), f);
    let sy = split_by(y, f);
    assert(sy =~= seq![Seq::<char>::empty()] + split_by(y.skip(3), f));
    let second = split_by(x, f);
    assert(second[0] =~= block);
    assert(x.skip(block.len() + 3int) =~= "\n\n"@ + body);
    assert(is_blank_spec("\n\n"@));
    lemma_trim_start_blank_prefix("\n\n"@, body);
}

/// After a creation whose front-matter holds no `---`, recalling the shard
/// gives back its content, less leading whitespace.
pub proof fn lemma_recall_after_generate(args: ParsedArgs)
    requires
        generate_outcome(args) is Ok,
        ({
            let (_, display, description, tags, _) = generate_args(args)->Ok_0;
            split_by(frontmatter_block(display, description, tag_list(tags)), fence()).len() == 1
        }),
    ensures
        ({
            let (_, _, _, _, content) = generate_args(args)->Ok_0;
            let file = generate_outcome(args)->Ok_0.1;
            &&& frontmatter_parts(file) is Ok
            &&& trim_start_spec(frontmatter_parts(file)->Ok_0.1) == trim_start_spec(content)
        }),
{
    let (_, display, description, tags, content) = generate_args(args)->Ok_0;
    lemma_recall_after_write(display, description, tag_list(tags), content);
}

/// After an edit of a shard whose front-matter holds no `---`, recalling the
/// shard gives back the edited lines joined with newlines, less leading
/// whitespace.
pub proof fn lemma_recall_after_modify(name: Seq<char>, meta: ShardMeta, body: Seq<char>, start: u64, end: u64, text: Seq<char>)
    requires
        modify_outcome(name, meta, body, start, end, text) is Ok,
        split_by(frontmatter_block(meta.name@, meta.description@, views(meta.tags@)), fence()).len()
            == 1,
    ensures
        ({
            let edited = edit_lines(body_lines(body), start, end, replacement_lines(text))->Ok_0;
            let file = modify_outcome(name, meta, body, start, end, text)->Ok_0.0;
            &&& frontmatter_parts(file) is Ok
            &&& trim_start_spec(frontmatter_parts(file)->Ok_0.1) == trim_start_spec(join(edited, "\n"@))
        }),
{
    let edited = edit_lines(body_lines(body), start, end, replacement_lines(text))->Ok_0;
    lemma_recall_after_write(meta.name@, meta.description@, views(meta.tags@), join(edited, "\n"@));
}

} // verus!
