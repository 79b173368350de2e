//! The file tools of the first generation: create and read under a base
//! directory, with the same rules as their successors.
use vstd::prelude::*;

use std::path::PathBuf;

use crate::agent::tool::embedded_local::fs::{
    create_file_args, create_file_check_args, create_file_definition, is_create_file_definition,
    is_read_file_definition, read_file_args, read_file_check_args, read_file_definition,
};
use crate::agent::tool::path::{join_path, path_join};
use crate::agent::tool::result::{ExecutionError, ExecutionErrorView};
use crate::json::ParsedArgs;
use crate::resolver::tool::ToolDef;

verus! {

/// Creates files under its base directory and remembers each one it created.
pub struct CreateFileTool {
    base_dir: PathBuf,
    created_files: Vec<PathBuf>,
}

impl CreateFileTool {
    pub fn new(base_dir: PathBuf) -> (r: Self)
        ensures
            r.base_dir() == base_dir,
            r.created() == Seq::<PathBuf>::empty(),
    {
        Self { base_dir, created_files: Vec::new() }
    }

    pub closed spec fn base_dir(&self) -> PathBuf {
        self.base_dir
    }

    /// The files created so far, in order.
    pub closed spec fn created(&self) -> Seq<PathBuf> {
        self.created_files@
    }

    /// The directory files are created under.
    pub fn base_dir_path(&self) -> (r: &PathBuf)
        ensures
            *r == self.base_dir(),
    {
        &self.base_dir
    }

    /// Remembers a file this tool created.
    pub fn record_created(&mut self, path: PathBuf)
        ensures
            final(self).created() == old(self).created().push(path),
            final(self).base_dir() == old(self).base_dir(),
    {
        self.created_files.push(path);
    }

    /// Hands out the files this tool created, forgetting them.
    pub fn take_created_files(&mut self) -> (r: Vec<PathBuf>)
        ensures
            r@ == old(self).created(),
            final(self).created() == Seq::<PathBuf>::empty(),
            final(self).base_dir() == old(self).base_dir(),
    {
        let mut taken: Vec<PathBuf> = Vec::new();
        std::mem::swap(&mut taken, &mut self.created_files);
        taken
    }

    pub fn def(&self) -> (r: ToolDef)
        ensures
            is_create_file_definition(r),
    {
        create_file_definition()
    }

    /// Reads the arguments of a call; see [`create_file_args`].
    pub fn check_args(&self, args: &ParsedArgs) -> (r: Result<(String, String), ExecutionError>)
        ensures
            match r {
                Ok((p, c)) => create_file_args(*args) == Ok::<(Seq<char>, Seq<char>), ExecutionErrorView>((p@, c@)),
                Err(e) => create_file_args(*args) == Err::<(Seq<char>, Seq<char>), ExecutionErrorView>(e@),
            },
    {
        create_file_check_args(args)
    }

    /// The file a call writes (the base directory joined with the checked
    /// path), that path, and the content written there; or why the call is
    /// refused.
    pub fn target(&self, args: &ParsedArgs) -> (r: Result<(PathBuf, String, String), ExecutionError>)
        ensures
            match r {
                Ok((file, path, content)) => create_file_args(*args) == Ok::<
                    (Seq<char>, Seq<char>),
                    ExecutionErrorView,
                >((path@, content@)) && file == path_join(self.base_dir(), path@),
                Err(e) => create_file_args(*args) == Err::<(Seq<char>, Seq<char>), ExecutionErrorView>(e@),
            },
    {
        let (path, content) = self.check_args(args)?;
        Ok((join_path(&self.base_dir, path.as_str()), path, content))
    }
}

/// Reads files under its base directory.
pub struct ReadFileTool {
    base_dir: PathBuf,
}

impl ReadFileTool {
    pub fn new(base_dir: PathBuf) -> (r: Self)
        ensures
            r.base_dir() == base_dir,
    {
        Self { base_dir }
    }

    pub closed spec fn base_dir(&self) -> PathBuf {
        self.base_dir
    }

    /// The directory files are read under.
    pub fn base_dir_path(&self) -> (r: &PathBuf)
        ensures
            *r == self.base_dir(),
    {
        &self.base_dir
    }

    pub fn def(&self) -> (r: ToolDef)
        ensures
            is_read_file_definition(r),
    {
        read_file_definition()
    }

    /// Reads the arguments of a call; see [`read_file_args`].
    pub fn check_args(&self, args: &ParsedArgs) -> (r: Result<String, ExecutionError>)
        ensures
            match r {
                Ok(p) => read_file_args(*args) == Ok::<Seq<char>, ExecutionErrorView>(p@),
                Err(e) => read_file_args(*args) == Err::<Seq<char>, ExecutionErrorView>(e@),
            },
    {
        read_file_check_args(args)
    }

    /// The file a call reads, the base directory joined with the checked
    /// path; or why the call is refused.
    pub fn target(&self, args: &ParsedArgs) -> (r: Result<PathBuf, ExecutionError>)
        ensures
            match r {
                Ok(file) => match read_file_args(*args) {
                    Ok(p) => file == path_join(self.base_dir(), p),
                    Err(_) => false,
                },
                Err(e) => read_file_args(*args) == Err::<Seq<char>, ExecutionErrorView>(e@),
            },
    {
        let path = self.check_args(args)?;
        Ok(join_path(&self.base_dir, path.as_str()))
    }
}

} // verus!
