//! The error taxonomy of the orchestrator.
//!
//! Every component returns a typed failure; nothing retries on its own, and
//! each error carries enough context (stage, raw status, raw detail) for the
//! caller to diagnose the failure without re-running.

use vstd::prelude::*;
use crate::stack::StackStatus;

verus! {

/// The stages of the deployment pipeline, in the order they run.
#[derive(Clone, Copy, Debug, PartialEq, Eq, Structural)]
pub enum Stage {
    Terminating,
    Reconfiguring,
    RestartingService,
    CopyingImage,
    Starting,
    Verifying,
}

/// A typed failure of one of the orchestrator's components.
#[derive(Debug)]
pub enum Error {
    /// The provisioning service rejected the creation request synchronously.
    ProvisioningRequestError { detail: String },
    /// The provisioning service accepted the request but returned no stack id.
    MissingIdentityError,
    /// An expected output key was absent from the stack's outputs.
    MissingOutputError { key: String },
    /// No output entry identifies the host's public address.
    NoAddressError,
    /// A deployment step exited with a non-zero status; the pipeline aborted.
    DeploymentStepError { stage: Stage, detail: String },
    /// The host reports no enclave at all.
    NotRunningError,
    /// The sole described enclave reports a state other than running,
    /// or no state at all.
    UnknownStateError { state: Option<String> },
    /// The key service rejected the key creation request.
    KeyCreationError { detail: String },
    /// The key service rejected the alias creation request.
    AliasCreationError { detail: String },
    /// A stack reached a terminal status that is neither the recognized
    /// complete nor the recognized failed status for the operation.
    UnexpectedTerminalStatus { status: StackStatus, reason: String },
}

} // verus!
