//! Why a resolver call failed.
use vstd::prelude::*;

use crate::lines::{decimal, decimal_string};

verus! {

/// Why a resolver call failed.
#[derive(Debug)]
pub enum ResolveError {
    /// The API answered with no choice.
    NoChoice { message: String },
    /// The API answered with an error.
    Api { status: u16, message: String },
    /// The request or the network failed.
    Network { message: String },
    /// A body could not be written or read as JSON.
    JsonSerde { message: String },
    /// Anything else.
    Unknown { message: String },
}

/// The text shown for a failed call.
pub open spec fn resolve_error_text(e: ResolveError) -> Seq<char> {
    match e {
        ResolveError::NoChoice { message } => "API \u{672a}\u{8fd4}\u{56de}\u{6709}\u{6548}\u{54cd}\u{5e94}\u{ff1a}"@ + message@,
        ResolveError::Api { status, message } => "API \u{9519}\u{8bef} (HTTP "@ + decimal(status as nat) + ")\u{ff1a}"@ + message@,
        ResolveError::Network { message } => "\u{7f51}\u{7edc}\u{9519}\u{8bef}\u{ff1a}"@ + message@,
        ResolveError::JsonSerde { message } => "\u{6570}\u{636e}\u{89e3}\u{6790}\u{9519}\u{8bef}\u{ff1a}"@ + message@,
        ResolveError::Unknown { message } => "\u{672a}\u{77e5}\u{9519}\u{8bef}\u{ff1a}"@ + message@,
    }
}

impl ResolveError {
    /// The text shown for the failure; see [`resolve_error_text`].
    pub fn message_text(&self) -> (r: String)
        ensures
            r@ == resolve_error_text(*self),
    {
        match self {
            ResolveError::NoChoice { message } => {
                let mut m = "API \u{672a}\u{8fd4}\u{56de}\u{6709}\u{6548}\u{54cd}\u{5e94}\u{ff1a}".to_owned();
                m.append(message.as_str());
                m
            },
            ResolveError::Api { status, message } => {
                let mut m = "API \u{9519}\u{8bef} (HTTP ".to_owned();
                let d = decimal_string(*status as u64);
                m.append(d.as_str());
                m.append(")\u{ff1a}");
                m.append(message.as_str());
                m
            },
            ResolveError::Network { message } => {
                let mut m = "\u{7f51}\u{7edc}\u{9519}\u{8bef}\u{ff1a}".to_owned();
                m.append(message.as_str());
                m
            },
            ResolveError::JsonSerde { message } => {
                let mut m = "\u{6570}\u{636e}\u{89e3}\u{6790}\u{9519}\u{8bef}\u{ff1a}".to_owned();
                m.append(message.as_str());
                m
            },
            ResolveError::Unknown { message } => {
                let mut m = "\u{672a}\u{77e5}\u{9519}\u{8bef}\u{ff1a}".to_owned();
                m.append(message.as_str());
                m
            },
        }
    }
}

pub type ResolveResult<T> = Result<T, ResolveError>;

} // verus!
