//! File tools confined to a base directory: create, list and read.
use vstd::prelude::*;
use vstd::string::*;

use std::path::PathBuf;

use crate::agent::tool::path::{check_path_traversal, checked_path, join_path, path_join};
use crate::agent::tool::result::{
    ExecutionError, ExecutionErrorView, invalid_json, invalid_json_error, missing_field,
    missing_field_error,
};
use crate::json::{JsonValue, ParsedArgs, json_get, json_str, str_field};
use crate::lines::{join, join_strings, lex_leq, sort_strings, views};
use crate::resolver::tool::{
    ParamDef, PropDef, ToolDefination, lemma_set_distinct_properties, names_view,
    plain_string_prop, string_prop,
};

verus! {

pub open spec fn create_file_name() -> Seq<char> {
    "create_file"@
}

pub open spec fn create_file_description() -> Seq<char> {
    "Create a file with the specified content at the given relative path."@
}

pub open spec fn create_path_description() -> Seq<char> {
    "Relative path of the file to create, relative to the base directory."@
}

pub open spec fn content_description() -> Seq<char> {
    "The content to write into the file."@
}

/// The definition of the file-creating tool.
pub open spec fn is_create_file_definition(d: ToolDefination) -> bool {
    &&& d.name@ == create_file_name()
    &&& d.description@ == create_file_description()
    &&& d.strict == Some(true)
    &&& d.parameters.type_@ == "object"@
    &&& d.parameters.props@.len() == 2
    &&& plain_string_prop(d.parameters.props@[0], "path"@, create_path_description())
    &&& plain_string_prop(d.parameters.props@[1], "content"@, content_description())
    &&& names_view(d.parameters.required) == Some(seq!["path"@, "content"@])
    &&& d.parameters.additional_props is None
}

pub fn create_file_definition() -> (r: ToolDefination)
    ensures
        is_create_file_definition(r),
{
    let props = vec![
        ("path", string_prop("Relative path of the file to create, relative to the base directory.")),
        ("content", string_prop("The content to write into the file.")),
    ];
    let ghost pv = props@.map_values(|e: (&str, PropDef)| (e.0@, e.1));
    proof {
        reveal_strlit("path");
        reveal_strlit("content");
        assert(pv[0].0 == "path"@);
        assert(pv[1].0 == "content"@);
        assert(pv[0].0.len() != pv[1].0.len());
        lemma_set_distinct_properties(pv);
    }
    let params = ParamDef::new("object").with_properties(props).with_required(
        vec!["path".to_owned(), "content".to_owned()],
    );
    let r = ToolDefination::new(
        "create_file",
        "Create a file with the specified content at the given relative path.",
        params,
    ).with_strict(true);
    assert(names_view(r.parameters.required) =~= Some(seq!["path"@, "content"@]));
    r
}

/// What the arguments of the file-creating tool resolve to: the relative
/// path and the content, or the first error among invalid JSON, a missing
/// `path`, a missing `content`, an absolute path and a path that climbs out.
pub open spec fn create_file_args(args: ParsedArgs) -> Result<(Seq<char>, Seq<char>), ExecutionErrorView> {
    match args {
        Err(reason) => Err(invalid_json_error(reason@)),
        Ok(v) => match json_str(json_get(v, "path"@)) {
            None => Err(missing_field_error("path"@)),
            Some(path) => match json_str(json_get(v, "content"@)) {
                None => Err(missing_field_error("content"@)),
                Some(content) => match checked_path(path) {
                    Err(e) => Err(e),
                    Ok(p) => Ok((p, content)),
                },
            },
        },
    }
}

/// The answer to a created file.
pub open spec fn created_message(path: Seq<char>) -> Seq<char> {
    "Created file: "@ + path
}

pub fn created_file_message(path: &str) -> (r: String)
    ensures
        r@ == created_message(path@),
{
    let mut m = "Created file: ".to_owned();
    m.append(path);
    m
}

/// Reads the `path` and `content` arguments of the file-creating tool.
pub fn create_file_check_args(args: &ParsedArgs) -> (r: Result<(String, String), ExecutionError>)
    ensures
        match r {
            Ok((p, c)) => create_file_args(*args) == Ok::<(Seq<char>, Seq<char>), ExecutionErrorView>((p@, c@)),
            Err(e) => create_file_args(*args) == Err::<(Seq<char>, Seq<char>), ExecutionErrorView>(e@),
        },
{
    let v = match args {
        Err(reason) => return Err(invalid_json(reason.as_str())),
        Ok(v) => v,
    };
    let path = match str_field(v, "path") {
        Some(p) => p,
        None => return Err(missing_field("path")),
    };
    let content = match str_field(v, "content") {
        Some(c) => c,
        None => return Err(missing_field("content")),
    };
    let checked = check_path_traversal(path)?;
    Ok((checked, content.to_owned()))
}

/// Creates files under its base directory and remembers each one it created.
pub struct CreateFileTool {
    base_dir: PathBuf,
    created_files: Vec<PathBuf>,
}

impl CreateFileTool {
    pub fn new(base_dir: PathBuf) -> (r: Self)
        ensures
            r.base_dir() == base_dir,
            r.created() == Seq::<PathBuf>::empty(),
    {
        Self { base_dir, created_files: Vec::new() }
    }

    pub closed spec fn base_dir(&self) -> PathBuf {
        self.base_dir
    }

    /// The files created so far, in order.
    pub closed spec fn created(&self) -> Seq<PathBuf> {
        self.created_files@
    }

    /// The directory files are created under.
    pub fn base_dir_path(&self) -> (r: &PathBuf)
        ensures
            *r == self.base_dir(),
    {
        &self.base_dir
    }

    /// Remembers a file this tool created.
    pub fn record_created(&mut self, path: PathBuf)
        ensures
            final(self).created() == old(self).created().push(path),
            final(self).base_dir() == old(self).base_dir(),
    {
        self.created_files.push(path);
    }

    /// Hands out the files this tool created, forgetting them.
    pub fn take_created_files(&mut self) -> (r: Vec<PathBuf>)
        ensures
            r@ == old(self).created(),
            final(self).created() == Seq::<PathBuf>::empty(),
            final(self).base_dir() == old(self).base_dir(),
    {
        let mut taken: Vec<PathBuf> = Vec::new();
        std::mem::swap(&mut taken, &mut self.created_files);
        taken
    }

    pub fn defination(&self) -> (r: ToolDefination)
        ensures
            is_create_file_definition(r),
    {
        create_file_definition()
    }

    /// Reads the arguments of a call; see [`create_file_args`].
    pub fn check_args(&self, args: &ParsedArgs) -> (r: Result<(String, String), ExecutionError>)
        ensures
            match r {
                Ok((p, c)) => create_file_args(*args) == Ok::<(Seq<char>, Seq<char>), ExecutionErrorView>((p@, c@)),
                Err(e) => create_file_args(*args) == Err::<(Seq<char>, Seq<char>), ExecutionErrorView>(e@),
            },
    {
        create_file_check_args(args)
    }

    /// The file a call writes (the base directory joined with the checked
    /// path), that path, and the content written there; or why the call is
    /// refused.
    pub fn target(&self, args: &ParsedArgs) -> (r: Result<(PathBuf, String, String), ExecutionError>)
        ensures
            match r {
                Ok((file, path, content)) => create_file_args(*args) == Ok::<
                    (Seq<char>, Seq<char>),
                    ExecutionErrorView,
                >((path@, content@)) && file == path_join(self.base_dir(), path@),
                Err(e) => create_file_args(*args) == Err::<(Seq<char>, Seq<char>), ExecutionErrorView>(e@),
            },
    {
        let (path, content) = self.check_args(args)?;
        Ok((join_path(&self.base_dir, path.as_str()), path, content))
    }
}


// ---------------------------------------------------------------------------
// Listing a directory
// ---------------------------------------------------------------------------

pub open spec fn list_files_description() -> Seq<char> {
    "List files and directories at the given relative path. The path is always scoped to the base directory \u{2014} path traversal (..) is blocked. Directories are marked with a trailing '/'."@
}

pub open spec fn list_path_description() -> Seq<char> {
    "Relative path to list. Use empty string or '.' for the base directory. This path is always relative to the sandboxed base directory \u{2014} you cannot escape it or access files outside."@
}

/// The definition of the directory-listing tool.
pub open spec fn is_list_files_definition(d: ToolDefination) -> bool {
    &&& d.name@ == "list_files"@
    &&& d.description@ == list_files_description()
    &&& d.strict == Some(true)
    &&& d.parameters.type_@ == "object"@
    &&& d.parameters.props@.len() == 1
    &&& plain_string_prop(d.parameters.props@[0], "path"@, list_path_description())
    &&& names_view(d.parameters.required) == Some(seq!["path"@])
    &&& d.parameters.additional_props is None
}

/// A definition with one required string property `name`.
fn single_path_definition(name: &str, description: &str, prop_desc: &str) -> (r: ToolDefination)
    ensures
        r.name@ == name@,
        r.description@ == description@,
        r.strict == Some(true),
        r.parameters.type_@ == "object"@,
        r.parameters.props@.len() == 1,
        plain_string_prop(r.parameters.props@[0], "path"@, prop_desc@),
        names_view(r.parameters.required) == Some(seq!["path"@]),
        r.parameters.additional_props is None,
{
    let props = vec![("path", string_prop(prop_desc))];
    let ghost pv = props@.map_values(|e: (&str, PropDef)| (e.0@, e.1));
    proof {
        lemma_set_distinct_properties(pv);
    }
    let params = ParamDef::new("object").with_properties(props).with_required(
        vec!["path".to_owned()],
    );
    let r = ToolDefination::new(name, description, params).with_strict(true);
    assert(names_view(r.parameters.required) =~= Some(seq!["path"@]));
    r
}

pub fn list_files_definition() -> (r: ToolDefination)
    ensures
        is_list_files_definition(r),
{
    single_path_definition(
        "list_files",
        "List files and directories at the given relative path. The path is always scoped to the base directory \u{2014} path traversal (..) is blocked. Directories are marked with a trailing '/'.",
        "Relative path to list. Use empty string or '.' for the base directory. This path is always relative to the sandboxed base directory \u{2014} you cannot escape it or access files outside.",
    )
}

/// The directory a listing call asks for: `path`, or the base directory
/// (`.`) when `path` is missing, not a string or empty; the first error
/// among invalid JSON, an absolute path and a path that climbs out.
pub open spec fn list_files_args(args: ParsedArgs) -> Result<Seq<char>, ExecutionErrorView> {
    match args {
        Err(reason) => Err(invalid_json_error(reason@)),
        Ok(v) => {
            let given = match json_str(json_get(v, "path"@)) {
                Some(p) => p,
                None => "."@,
            };
            let path = if given.len() == 0 { "."@ } else { given };
            checked_path(path)
        },
    }
}

pub fn list_files_check_args(args: &ParsedArgs) -> (r: Result<String, ExecutionError>)
    ensures
        match r {
            Ok(p) => list_files_args(*args) == Ok::<Seq<char>, ExecutionErrorView>(p@),
            Err(e) => list_files_args(*args) == Err::<Seq<char>, ExecutionErrorView>(e@),
        },
{
    let v = match args {
        Err(reason) => return Err(invalid_json(reason.as_str())),
        Ok(v) => v,
    };
    let given = match str_field(v, "path") {
        Some(p) => p,
        None => ".",
    };
    let path = if given.is_empty() { "." } else { given };
    check_path_traversal(path)
}

/// The line for one directory entry.
pub open spec fn entry_line(name: Seq<char>, is_dir: bool) -> Seq<char> {
    if is_dir {
        "  "@ + name + "/ (directory)"@
    } else {
        "  "@ + name
    }
}

/// A listing of entries given as `(name, is_dir)`: one line each, sorted,
/// or a note that the directory is empty.
pub open spec fn listing_text(entries: Seq<(Seq<char>, bool)>) -> Seq<char> {
    if entries.len() == 0 {
        "(empty directory)"@
    } else {
        join(entries.map_values(|e: (Seq<char>, bool)| entry_line(e.0, e.1)).sort_by(lex_leq()), "\n"@)
    }
}

pub open spec fn entries_view(entries: Seq<(String, bool)>) -> Seq<(Seq<char>, bool)> {
    entries.map_values(|e: (String, bool)| (e.0@, e.1))
}

/// The text of a listing; see [`listing_text`].
pub fn format_listing(entries: &Vec<(String, bool)>) -> (r: String)
    ensures
        r@ == listing_text(entries_view(entries@)),
{
    if entries.len() == 0 {
        return "(empty directory)".to_owned();
    }
    let ghost ev = entries_view(entries@);
    let n = entries.len();
    let mut lines: Vec<String> = Vec::new();
    let mut i: usize = 0;
    while i < n
        invariant
            n == entries@.len(),
            ev == entries_view(entries@),
            i <= n,
            views(lines@) == ev.take(i as int).map_values(|e: (Seq<char>, bool)| entry_line(e.0, e.1)),
        decreases n - i,
    {
        let (name, is_dir) = (&entries[i].0, entries[i].1);
        let mut line = "  ".to_owned();
        line.append(name.as_str());
        if is_dir {
            line.append("/ (directory)");
        }
        assert(line@ == entry_line(name@, is_dir));
        let ghost before = lines@;
        lines.push(line);
        proof {
            assert(views(lines@) =~= views(before).push(entry_line(name@, is_dir)));
            assert(ev[i as int] == (name@, is_dir));
            assert(ev.take(i + 1) =~= ev.take(i as int).push(ev[i as int]));
            assert(views(lines@) =~= ev.take(i + 1).map_values(
                |e: (Seq<char>, bool)| entry_line(e.0, e.1),
            ));
        }
        i = i + 1;
    }
    assert(ev.take(n as int) =~= ev);
    let sorted = sort_strings(lines);
    join_strings(&sorted, "\n")
}

/// Lists a directory under its base directory.
pub struct ListFilesTool {
    base_dir: PathBuf,
}

impl ListFilesTool {
    pub fn new(base_dir: PathBuf) -> (r: Self)
        ensures
            r.base_dir() == base_dir,
    {
        Self { base_dir }
    }

    pub closed spec fn base_dir(&self) -> PathBuf {
        self.base_dir
    }

    /// The directory listings are made under.
    pub fn base_dir_path(&self) -> (r: &PathBuf)
        ensures
            *r == self.base_dir(),
    {
        &self.base_dir
    }

    pub fn defination(&self) -> (r: ToolDefination)
        ensures
            is_list_files_definition(r),
    {
        list_files_definition()
    }

    /// Reads the arguments of a call; see [`list_files_args`].
    pub fn check_args(&self, args: &ParsedArgs) -> (r: Result<String, ExecutionError>)
        ensures
            match r {
                Ok(p) => list_files_args(*args) == Ok::<Seq<char>, ExecutionErrorView>(p@),
                Err(e) => list_files_args(*args) == Err::<Seq<char>, ExecutionErrorView>(e@),
            },
    {
        list_files_check_args(args)
    }

    /// The directory a call lists (the base directory joined with the
    /// checked path) and that path; or why the call is refused.
    pub fn target(&self, args: &ParsedArgs) -> (r: Result<(PathBuf, String), ExecutionError>)
        ensures
            match r {
                Ok((dir, path)) => list_files_args(*args) == Ok::<Seq<char>, ExecutionErrorView>(path@)
                    && dir == path_join(self.base_dir(), path@),
                Err(e) => list_files_args(*args) == Err::<Seq<char>, ExecutionErrorView>(e@),
            },
    {
        let path = self.check_args(args)?;
        Ok((join_path(&self.base_dir, path.as_str()), path))
    }
}

// ---------------------------------------------------------------------------
// Reading a file
// ---------------------------------------------------------------------------

pub open spec fn read_file_description() -> Seq<char> {
    "Read the contents of a file at the given relative path."@
}

pub open spec fn read_path_description() -> Seq<char> {
    "Relative path of the file to read, relative to the base directory."@
}

/// The definition of the file-reading tool.
pub open spec fn is_read_file_definition(d: ToolDefination) -> bool {
    &&& d.name@ == "read_file"@
    &&& d.description@ == read_file_description()
    &&& d.strict == Some(true)
    &&& d.parameters.type_@ == "object"@
    &&& d.parameters.props@.len() == 1
    &&& plain_string_prop(d.parameters.props@[0], "path"@, read_path_description())
    &&& names_view(d.parameters.required) == Some(seq!["path"@])
    &&& d.parameters.additional_props is None
}

pub fn read_file_definition() -> (r: ToolDefination)
    ensures
        is_read_file_definition(r),
{
    single_path_definition(
        "read_file",
        "Read the contents of a file at the given relative path.",
        "Relative path of the file to read, relative to the base directory.",
    )
}

/// The file a reading call asks for, or the first error among invalid JSON,
/// a missing `path`, an absolute path and a path that climbs out.
pub open spec fn read_file_args(args: ParsedArgs) -> Result<Seq<char>, ExecutionErrorView> {
    match args {
        Err(reason) => Err(invalid_json_error(reason@)),
        Ok(v) => match json_str(json_get(v, "path"@)) {
            None => Err(missing_field_error("path"@)),
            Some(path) => checked_path(path),
        },
    }
}

pub fn read_file_check_args(args: &ParsedArgs) -> (r: Result<String, ExecutionError>)
    ensures
        match r {
            Ok(p) => read_file_args(*args) == Ok::<Seq<char>, ExecutionErrorView>(p@),
            Err(e) => read_file_args(*args) == Err::<Seq<char>, ExecutionErrorView>(e@),
        },
{
    let v = match args {
        Err(reason) => return Err(invalid_json(reason.as_str())),
        Ok(v) => v,
    };
    let path = match str_field(v, "path") {
        Some(p) => p,
        None => return Err(missing_field("path")),
    };
    check_path_traversal(path)
}

/// Reads files under its base directory.
pub struct ReadFileTool {
    base_dir: PathBuf,
}

impl ReadFileTool {
    pub fn new(base_dir: PathBuf) -> (r: Self)
        ensures
            r.base_dir() == base_dir,
    {
        Self { base_dir }
    }

    pub closed spec fn base_dir(&self) -> PathBuf {
        self.base_dir
    }

    /// The directory files are read under.
    pub fn base_dir_path(&self) -> (r: &PathBuf)
        ensures
            *r == self.base_dir(),
    {
        &self.base_dir
    }

    pub fn defination(&self) -> (r: ToolDefination)
        ensures
            is_read_file_definition(r),
    {
        read_file_definition()
    }

    /// Reads the arguments of a call; see [`read_file_args`].
    pub fn check_args(&self, args: &ParsedArgs) -> (r: Result<String, ExecutionError>)
        ensures
            match r {
                Ok(p) => read_file_args(*args) == Ok::<Seq<char>, ExecutionErrorView>(p@),
                Err(e) => read_file_args(*args) == Err::<Seq<char>, ExecutionErrorView>(e@),
            },
    {
        read_file_check_args(args)
    }

    /// The file a call reads, the base directory joined with the checked
    /// path; or why the call is refused.
    pub fn target(&self, args: &ParsedArgs) -> (r: Result<PathBuf, ExecutionError>)
        ensures
            match r {
                Ok(file) => match read_file_args(*args) {
                    Ok(p) => file == path_join(self.base_dir(), p),
                    Err(_) => false,
                },
                Err(e) => read_file_args(*args) == Err::<Seq<char>, ExecutionErrorView>(e@),
            },
    {
        let path = self.check_args(args)?;
        Ok(join_path(&self.base_dir, path.as_str()))
    }
}

} // verus!
