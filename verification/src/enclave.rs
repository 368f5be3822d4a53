//! Decisions over the enclave state observed on the host.
//!
//! The host's describe query returns a list of enclave summaries; the caller
//! converts them to plain values and the functions here decide whether the
//! enclave is verified running, and whether its console may be read.

use vstd::prelude::*;
use crate::errors::Error;
use crate::text::str_eq;

verus! {

/// What one described enclave reports: its name, its state, and its flags,
/// each absent when the description does not carry the field.
#[derive(Clone, Debug)]
pub struct EnclaveSummary {
    pub name: Option<String>,
    pub state: Option<String>,
    pub flags: Option<String>,
}

/// The state value that means the enclave is running.
pub open spec fn running_state() -> Seq<char> {
    "RUNNING"@
}

/// The flags value that means the enclave was started in debug mode.
pub open spec fn debug_flags() -> Seq<char> {
    "DEBUG_MODE"@
}

/// Whether a described enclave list shows a verified running enclave.
pub open spec fn running_verified(entries: Seq<EnclaveSummary>) -> bool {
    &&& entries.len() > 0
    &&& entries[0].state is Some
    &&& entries[0].state.unwrap()@ == running_state()
}

/// Checks that the host reports a verified running enclave: fails when the
/// list is empty, succeeds exactly when the first entry's state equals the
/// running value, and surfaces any other reported state verbatim.
pub fn verify_running(entries: &Vec<EnclaveSummary>) -> (r: Result<(), Error>)
    ensures
        r is Ok <==> running_verified(entries@),
        entries@.len() == 0 ==> (r matches Err(e) && e is NotRunningError),
        entries@.len() > 0 ==> match entries@[0].state {
            Some(s) => if s@ == running_state() {
                r is Ok
            } else {
                r matches Err(e) && (e matches Error::UnknownStateError { state }
                    && state matches Some(v) && v@ == s@)
            },
            None => r matches Err(e) && (e matches Error::UnknownStateError { state }
                && state is None),
        },
{
    if entries.len() == 0 {
        return Err(Error::NotRunningError);
    }
    let first = &entries[0];
    match &first.state {
        Some(s) => {
            if str_eq(s.as_str(), "RUNNING") {
                Ok(())
            } else {
                Err(Error::UnknownStateError { state: Some(s.clone()) })
            }
        },
        None => Err(Error::UnknownStateError { state: None }),
    }
}

/// Whether the console of an enclave may be read.
#[derive(Debug)]
pub enum ConsoleDecision {
    /// The description carries no name: the console cannot be addressed.
    NoName,
    /// The enclave was not started in debug mode: no console was captured.
    NotDebugMode,
    /// The console may be read under this enclave name.
    Console { name: String },
}

/// Decides whether an enclave's console may be read: the description must
/// carry a name, and the enclave must have been started in debug mode.
pub fn console_plan(enclave: &EnclaveSummary) -> (r: ConsoleDecision)
    ensures
        enclave.name is None ==> r is NoName,
        enclave.name matches Some(n) ==> match enclave.flags {
            Some(f) => if f@ == debug_flags() {
                r matches ConsoleDecision::Console { name } && name@ == n@
            } else {
                r is NotDebugMode
            },
            None => r is NotDebugMode,
        },
{
    match &enclave.name {
        None => ConsoleDecision::NoName,
        Some(n) => {
            match &enclave.flags {
                Some(f) => {
                    if str_eq(f.as_str(), "DEBUG_MODE") {
                        ConsoleDecision::Console { name: n.clone() }
                    } else {
                        ConsoleDecision::NotDebugMode
                    }
                },
                None => ConsoleDecision::NotDebugMode,
            }
        },
    }
}

} // verus!
