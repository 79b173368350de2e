//! How the first-generation store writes statuses and checkpoint kinds.
use vstd::prelude::*;
use vstd::string::*;

use crate::agent::persist::data_object::{CheckpointKind as Kind, Status};
use crate::resolver::action::str_equals;
use crate::session::persist::entity::{UnknownDbValue, unknown_value_message};

verus! {

fn unknown(what: &str, value: &str) -> (r: UnknownDbValue)
    ensures
        r.message@ == unknown_value_message(what@, value@),
{
    let mut m = "unknown ".to_owned();
    m.append(what);
    m.append(": ");
    m.append(value);
    UnknownDbValue { message: m }
}

/// A session's status as stored.
#[derive(Debug, Clone, Copy, PartialEq, Eq, Structural)]
pub enum SessionStatus {
    Active,
    Archived,
}

pub open spec fn status_text(s: SessionStatus) -> Seq<char> {
    match s {
        SessionStatus::Active => "active"@,
        SessionStatus::Archived => "archived"@,
    }
}

impl SessionStatus {
    pub fn db_value(&self) -> (r: &'static str)
        ensures
            r@ == status_text(*self),
    {
        match self {
            SessionStatus::Active => "active",
            SessionStatus::Archived => "archived",
        }
    }

    /// The status a database value names, or an error for any other value.
    pub fn from_db(value: &str) -> (r: Result<Self, UnknownDbValue>)
        ensures
            match r {
                Ok(s) => status_text(s) == value@,
                Err(e) => value@ != "active"@ && value@ != "archived"@ && e.message@
                    == unknown_value_message("session status"@, value@),
            },
    {
        if str_equals(value, "active") {
            Ok(SessionStatus::Active)
        } else if str_equals(value, "archived") {
            Ok(SessionStatus::Archived)
        } else {
            Err(unknown("session status", value))
        }
    }

    pub fn to_data_object(&self) -> (r: Status)
        ensures
            r == (match *self {
                SessionStatus::Active => Status::Active,
                SessionStatus::Archived => Status::Archived,
            }),
    {
        match self {
            SessionStatus::Active => Status::Active,
            SessionStatus::Archived => Status::Archived,
        }
    }
}

/// A checkpoint's kind as stored.
#[derive(Debug, Clone, Copy, PartialEq, Eq, Structural)]
pub enum CheckpointKind {
    BeforeRun,
    AfterRun,
    Fork,
}

pub open spec fn kind_text(k: CheckpointKind) -> Seq<char> {
    match k {
        CheckpointKind::BeforeRun => "before_run"@,
        CheckpointKind::AfterRun => "after_run"@,
        CheckpointKind::Fork => "fork"@,
    }
}

pub open spec fn kind_of(k: Kind) -> CheckpointKind {
    match k {
        Kind::BeforeRun => CheckpointKind::BeforeRun,
        Kind::AfterRun => CheckpointKind::AfterRun,
        Kind::Fork => CheckpointKind::Fork,
    }
}

impl CheckpointKind {
    pub fn db_value(&self) -> (r: &'static str)
        ensures
            r@ == kind_text(*self),
    {
        match self {
            CheckpointKind::BeforeRun => "before_run",
            CheckpointKind::AfterRun => "after_run",
            CheckpointKind::Fork => "fork",
        }
    }

    /// The kind a database value names, or an error for any other value.
    pub fn from_db(value: &str) -> (r: Result<Self, UnknownDbValue>)
        ensures
            match r {
                Ok(k) => kind_text(k) == value@,
                Err(e) => value@ != "before_run"@ && value@ != "after_run"@ && value@ != "fork"@
                    && e.message@ == unknown_value_message("checkpoint kind"@, value@),
            },
    {
        if str_equals(value, "before_run") {
            Ok(CheckpointKind::BeforeRun)
        } else if str_equals(value, "after_run") {
            Ok(CheckpointKind::AfterRun)
        } else if str_equals(value, "fork") {
            Ok(CheckpointKind::Fork)
        } else {
            Err(unknown("checkpoint kind", value))
        }
    }

    pub fn from_data_object(kind: Kind) -> (r: Self)
        ensures
            r == kind_of(kind),
    {
        match kind {
            Kind::BeforeRun => CheckpointKind::BeforeRun,
            Kind::AfterRun => CheckpointKind::AfterRun,
            Kind::Fork => CheckpointKind::Fork,
        }
    }

    pub fn to_data_object(&self) -> (r: Kind)
        ensures
            kind_of(r) == *self,
    {
        match self {
            CheckpointKind::BeforeRun => Kind::BeforeRun,
            CheckpointKind::AfterRun => Kind::AfterRun,
            CheckpointKind::Fork => Kind::Fork,
        }
    }
}

/// The kinds are written as distinct values, so each reads back as itself.
pub proof fn lemma_kind_texts_distinct(a: CheckpointKind, b: CheckpointKind)
    ensures
        kind_text(a) == kind_text(b) ==> a == b,
{
    reveal_strlit("before_run");
    reveal_strlit("after_run");
    reveal_strlit("fork");
    assert("before_run"@.len() != "after_run"@.len());
    assert("before_run"@.len() != "fork"@.len());
    assert("after_run"@.len() != "fork"@.len());
}

} // verus!
