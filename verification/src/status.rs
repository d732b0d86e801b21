//! What a successful start or stop reports.

use vstd::prelude::*;
use vstd::string::*;

verus! {

/// How a start ended when it did not fail.
#[derive(Debug, Clone, Copy, PartialEq, Eq)]
pub enum StartStatus {
    /// A sidecar process was spawned and is now tracked.
    Started,
    /// A sidecar process was tracked already; nothing was spawned.
    AlreadyRunning,
}

/// How a stop ended when it did not fail.
#[derive(Debug, Clone, Copy, PartialEq, Eq)]
pub enum StopStatus {
    /// The tracked sidecar process was terminated.
    Stopped,
    /// No sidecar process was tracked; nothing was terminated.
    NotRunning,
}

impl StartStatus {
    /// The wording of the status.
    pub open spec fn text(self) -> Seq<char> {
        match self {
            StartStatus::Started => "Sidecar started"@,
            StartStatus::AlreadyRunning => "Sidecar already running"@,
        }
    }

    /// Renders the status as the message that is shown to the caller.
    pub fn message(&self) -> (text: String)
        ensures
            text@ == self.text(),
    {
        match self {
            StartStatus::Started => String::from_str("Sidecar started"),
            StartStatus::AlreadyRunning => String::from_str("Sidecar already running"),
        }
    }
}

impl StopStatus {
    /// The wording of the status.
    pub open spec fn text(self) -> Seq<char> {
        match self {
            StopStatus::Stopped => "Sidecar stopped"@,
            StopStatus::NotRunning => "Sidecar was not running"@,
        }
    }

    /// Renders the status as the message that is shown to the caller.
    pub fn message(&self) -> (text: String)
        ensures
            text@ == self.text(),
    {
        match self {
            StopStatus::Stopped => String::from_str("Sidecar stopped"),
            StopStatus::NotRunning => String::from_str("Sidecar was not running"),
        }
    }
}

} // verus!
