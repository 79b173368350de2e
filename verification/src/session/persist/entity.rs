//! How session statuses and checkpoint kinds are written in the database.
use vstd::prelude::*;
use vstd::string::*;

use crate::resolver::action::str_equals;
use crate::session::persist::data_object::{CheckpointKind, Status};

verus! {

/// A database value that names no known status or kind.
#[derive(Debug)]
pub struct UnknownDbValue {
    pub message: String,
}

/// The error for an unknown database value: `what` names the column's
/// meaning.
pub open spec fn unknown_value_message(what: Seq<char>, value: Seq<char>) -> Seq<char> {
    "unknown "@ + what + ": "@ + value
}

fn unknown_value(what: &str, value: &str) -> (r: UnknownDbValue)
    ensures
        r.message@ == unknown_value_message(what@, value@),
{
    let mut m = "unknown ".to_owned();
    m.append(what);
    m.append(": ");
    m.append(value);
    UnknownDbValue { message: m }
}

/// A session's status as stored.
#[derive(Debug, Clone, Copy, PartialEq, Eq, Structural)]
pub enum SessionStatus {
    Active,
    Archived,
}

pub open spec fn session_status_text(s: SessionStatus) -> Seq<char> {
    match s {
        SessionStatus::Active => "active"@,
        SessionStatus::Archived => "archived"@,
    }
}

impl SessionStatus {
    pub fn db_value(&self) -> (r: &'static str)
        ensures
            r@ == session_status_text(*self),
    {
        match self {
            SessionStatus::Active => "active",
            SessionStatus::Archived => "archived",
        }
    }

    /// The status a database value names, or an error for any other value.
    pub fn from_db(value: &str) -> (r: Result<Self, UnknownDbValue>)
        ensures
            match r {
                Ok(s) => session_status_text(s) == value@,
                Err(e) => value@ != "active"@ && value@ != "archived"@ && e.message@
                    == unknown_value_message("session status"@, value@),
            },
    {
        if str_equals(value, "active") {
            Ok(SessionStatus::Active)
        } else if str_equals(value, "archived") {
            Ok(SessionStatus::Archived)
        } else {
            Err(unknown_value("session status", value))
        }
    }

    pub fn to_data_object(&self) -> (r: Status)
        ensures
            r == (match *self {
                SessionStatus::Active => Status::Active,
                SessionStatus::Archived => Status::Archived,
            }),
    {
        match self {
            SessionStatus::Active => Status::Active,
            SessionStatus::Archived => Status::Archived,
        }
    }
}

/// The statuses are written as distinct values, so each reads back as
/// itself.
pub proof fn lemma_session_status_texts_distinct(a: SessionStatus, b: SessionStatus)
    ensures
        session_status_text(a) == session_status_text(b) ==> a == b,
{
    reveal_strlit("active");
    reveal_strlit("archived");
    assert("active"@.len() != "archived"@.len());
}

/// A checkpoint's kind as stored.
#[derive(Debug, Clone, Copy, PartialEq, Eq, Structural)]
pub enum CheckpointKindValue {
    BeforeSolution,
    AfterSolution,
    Fork,
}

pub open spec fn checkpoint_kind_text(k: CheckpointKindValue) -> Seq<char> {
    match k {
        CheckpointKindValue::BeforeSolution => "before_solution"@,
        CheckpointKindValue::AfterSolution => "after_solution"@,
        CheckpointKindValue::Fork => "fork"@,
    }
}

pub open spec fn kind_of_data_object(k: CheckpointKind) -> CheckpointKindValue {
    match k {
        CheckpointKind::BeforeSolution => CheckpointKindValue::BeforeSolution,
        CheckpointKind::AfterSolution => CheckpointKindValue::AfterSolution,
        CheckpointKind::Fork => CheckpointKindValue::Fork,
    }
}

impl CheckpointKindValue {
    pub fn db_value(&self) -> (r: &'static str)
        ensures
            r@ == checkpoint_kind_text(*self),
    {
        match self {
            CheckpointKindValue::BeforeSolution => "before_solution",
            CheckpointKindValue::AfterSolution => "after_solution",
            CheckpointKindValue::Fork => "fork",
        }
    }

    /// The kind a database value names, or an error for any other value.
    pub fn from_db(value: &str) -> (r: Result<Self, UnknownDbValue>)
        ensures
            match r {
                Ok(k) => checkpoint_kind_text(k) == value@,
                Err(e) => value@ != "before_solution"@ && value@ != "after_solution"@ && value@
                    != "fork"@ && e.message@ == unknown_value_message("checkpoint kind"@, value@),
            },
    {
        if str_equals(value, "before_solution") {
            Ok(CheckpointKindValue::BeforeSolution)
        } else if str_equals(value, "after_solution") {
            Ok(CheckpointKindValue::AfterSolution)
        } else if str_equals(value, "fork") {
            Ok(CheckpointKindValue::Fork)
        } else {
            Err(unknown_value("checkpoint kind", value))
        }
    }

    pub fn from_data_object(kind: CheckpointKind) -> (r: Self)
        ensures
            r == kind_of_data_object(kind),
    {
        match kind {
            CheckpointKind::BeforeSolution => CheckpointKindValue::BeforeSolution,
            CheckpointKind::AfterSolution => CheckpointKindValue::AfterSolution,
            CheckpointKind::Fork => CheckpointKindValue::Fork,
        }
    }

    pub fn to_data_object(&self) -> (r: CheckpointKind)
        ensures
            kind_of_data_object(r) == *self,
    {
        match self {
            CheckpointKindValue::BeforeSolution => CheckpointKind::BeforeSolution,
            CheckpointKindValue::AfterSolution => CheckpointKind::AfterSolution,
            CheckpointKindValue::Fork => CheckpointKind::Fork,
        }
    }
}

/// The kinds are written as distinct values, so each reads back as itself.
pub proof fn lemma_checkpoint_kind_texts_distinct(a: CheckpointKindValue, b: CheckpointKindValue)
    ensures
        checkpoint_kind_text(a) == checkpoint_kind_text(b) ==> a == b,
{
    reveal_strlit("before_solution");
    reveal_strlit("after_solution");
    reveal_strlit("fork");
    assert("before_solution"@.len() != "after_solution"@.len());
    assert("before_solution"@.len() != "fork"@.len());
    assert("after_solution"@.len() != "fork"@.len());
}

} // verus!
