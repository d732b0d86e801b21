//! The failures that a lifecycle operation can report, and their wording.

use vstd::prelude::*;
use vstd::string::*;

verus! {

/// The step of a start at which the spawn facility gave up.
#[derive(Debug, Clone, Copy, PartialEq, Eq)]
pub enum SpawnStage {
    /// The command for the sidecar executable could not be prepared.
    Command,
    /// The prepared command could not be launched.
    Launch,
}

/// The phase of a health probe in which it failed.
#[derive(Debug, Clone, Copy, PartialEq, Eq)]
pub enum ProbePhase {
    /// The HTTP client could not be built.
    Client,
    /// The request was not answered: refused, unreachable or timed out.
    Request,
    /// The answer could not be read as structured data.
    Response,
}

/// What went wrong in a lifecycle operation.
#[derive(Debug, PartialEq, Eq)]
pub enum SidecarError {
    /// An earlier critical section died while it held the registry.
    LockPoisoned { cause: String },
    /// The sidecar process could not be created.
    SpawnFailed { stage: SpawnStage, cause: String },
    /// The tracked sidecar process could not be terminated.
    KillFailed { cause: String },
    /// The health endpoint did not give a well-formed answer.
    HealthCheckFailed { phase: ProbePhase, cause: String },
}

/// The mathematical value of a [`SidecarError`]: the same cases, with texts as
/// sequences of characters.
pub enum Failure {
    LockPoisoned { cause: Seq<char> },
    SpawnFailed { stage: SpawnStage, cause: Seq<char> },
    KillFailed { cause: Seq<char> },
    HealthCheckFailed { phase: ProbePhase, cause: Seq<char> },
}

impl View for SidecarError {
    type V = Failure;

    open spec fn view(&self) -> Failure {
        match *self {
            SidecarError::LockPoisoned { cause } => Failure::LockPoisoned { cause: cause@ },
            SidecarError::SpawnFailed { stage, cause } => Failure::SpawnFailed {
                stage,
                cause: cause@,
            },
            SidecarError::KillFailed { cause } => Failure::KillFailed { cause: cause@ },
            SidecarError::HealthCheckFailed { phase, cause } => Failure::HealthCheckFailed {
                phase,
                cause: cause@,
            },
        }
    }
}

/// The mathematical value of an operation's answer: what it is on success,
/// or the value of the failure.
pub open spec fn reply_view<S>(reply: Result<S, SidecarError>) -> Result<S, Failure> {
    match reply {
        Ok(success) => Ok(success),
        Err(error) => Err(error@),
    }
}

/// The words that precede the cause in the message of a failed spawn.
pub open spec fn spawn_prefix(stage: SpawnStage) -> Seq<char> {
    match stage {
        SpawnStage::Command => "Failed to create sidecar command: "@,
        SpawnStage::Launch => "Failed to spawn sidecar: "@,
    }
}

/// The words that precede the cause in the message of a failed health probe.
pub open spec fn probe_prefix(phase: ProbePhase) -> Seq<char> {
    match phase {
        ProbePhase::Client => Seq::<char>::empty(),
        ProbePhase::Request => "Health check failed: "@,
        ProbePhase::Response => "Failed to parse health response: "@,
    }
}

impl Failure {
    /// The human-readable message of a failure: a fixed prefix that tells the
    /// operation, followed by the cause as it was reported.
    pub open spec fn message(self) -> Seq<char> {
        match self {
            Failure::LockPoisoned { cause } => cause,
            Failure::SpawnFailed { stage, cause } => spawn_prefix(stage) + cause,
            Failure::KillFailed { cause } => "Failed to kill sidecar: "@ + cause,
            Failure::HealthCheckFailed { phase, cause } => probe_prefix(phase) + cause,
        }
    }
}

impl SidecarError {
    /// Renders the failure as the message that is shown to the caller.
    pub fn message(&self) -> (text: String)
        ensures
            text@ == self@.message(),
    {
        match self {
            SidecarError::LockPoisoned { cause } => cause.clone(),
            SidecarError::SpawnFailed { stage, cause } => {
                let prefix = match stage {
                    SpawnStage::Command => "Failed to create sidecar command: ",
                    SpawnStage::Launch => "Failed to spawn sidecar: ",
                };
                String::from_str(prefix).concat(cause.as_str())
            },
            SidecarError::KillFailed { cause } => {
                String::from_str("Failed to kill sidecar: ").concat(cause.as_str())
            },
            SidecarError::HealthCheckFailed { phase, cause } => {
                let prefix = match phase {
                    ProbePhase::Client => "",
                    ProbePhase::Request => "Health check failed: ",
                    ProbePhase::Response => "Failed to parse health response: ",
                };
                proof {
                    reveal_strlit("");
                }
                String::from_str(prefix).concat(cause.as_str())
            },
        }
    }
}

} // verus!
