//! The registry that owns the handle of the running sidecar, and the two
//! protocols that change it.
//!
//! Spawning and killing a process are not done here. Each protocol is cut in
//! two steps around that outside work: the first step decides what is to be
//! done, the caller does it, and the second step takes the outcome. Both steps
//! of an operation belong to one critical section: the caller keeps exclusive
//! access to the registry from the first to the second.

use vstd::prelude::*;
use crate::config::{launch_request, sidecar_launch, SpawnRequest};
use crate::error::{reply_view, Failure, SidecarError, SpawnStage};
use crate::status::{StartStatus, StopStatus};

verus! {

/// What the spawn facility answered to a launch.
#[derive(Debug, PartialEq, Eq)]
pub enum SpawnOutcome<H> {
    /// The process runs; the handle terminates it.
    Spawned(H),
    /// No process was created.
    Failed { stage: SpawnStage, cause: String },
}

/// What the kill facility answered to a termination.
#[derive(Debug, PartialEq, Eq)]
pub enum KillOutcome {
    /// The process was terminated.
    Killed,
    /// The process could not be terminated.
    Failed { cause: String },
}

/// What the caller has to do in the middle of a start.
#[derive(Debug, PartialEq, Eq)]
pub enum StartStep {
    /// Nothing: a sidecar is tracked already.
    AlreadyRunning,
    /// Launch this, and report the outcome.
    Spawn(SpawnRequest),
}

/// What the caller has to do in the middle of a stop.
#[derive(Debug, PartialEq, Eq)]
pub enum StopStep<H> {
    /// Nothing: no sidecar was tracked.
    NotRunning,
    /// Terminate the process behind this handle, and report the outcome.
    Kill(H),
}

/// The registry after a start, what the start answers, and whether it had the
/// spawn facility launch a process.
pub struct StartEffect<H> {
    pub registry: Option<H>,
    pub reply: Result<StartStatus, Failure>,
    pub spawn_requested: bool,
}

/// The registry after a stop, what the stop answers, and the handle that it
/// had the kill facility terminate, if any.
pub struct StopEffect<H> {
    pub registry: Option<H>,
    pub reply: Result<StopStatus, Failure>,
    pub kill_requested: Option<H>,
}

/// A whole start, on the registry's content. `outcome` is what the spawn
/// facility answers if it is asked. A tracked process stays and nothing is
/// launched; else the sidecar is launched, and tracked if that succeeded.
pub open spec fn start<H>(registry: Option<H>, outcome: SpawnOutcome<H>) -> StartEffect<H> {
    match registry {
        Some(_) => StartEffect {
            registry,
            reply: Ok(StartStatus::AlreadyRunning),
            spawn_requested: false,
        },
        None => match outcome {
            SpawnOutcome::Spawned(handle) => StartEffect {
                registry: Some(handle),
                reply: Ok(StartStatus::Started),
                spawn_requested: true,
            },
            SpawnOutcome::Failed { stage, cause } => StartEffect {
                registry: None,
                reply: Err(Failure::SpawnFailed { stage, cause: cause@ }),
                spawn_requested: true,
            },
        },
    }
}

/// What the first step of a stop hands to the caller.
pub open spec fn stop_step<H>(registry: Option<H>) -> StopStep<H> {
    match registry {
        Some(handle) => StopStep::Kill(handle),
        None => StopStep::NotRunning,
    }
}

/// What a stop answers once the kill facility has answered.
pub open spec fn kill_reply(outcome: KillOutcome) -> Result<StopStatus, Failure> {
    match outcome {
        KillOutcome::Killed => Ok(StopStatus::Stopped),
        KillOutcome::Failed { cause } => Err(Failure::KillFailed { cause: cause@ }),
    }
}

/// A whole stop, on the registry's content. `outcome` is what the kill
/// facility answers if it is asked. The registry is empty afterwards in every
/// case: a process that could not be terminated is given up, not kept.
pub open spec fn stop<H>(registry: Option<H>, outcome: KillOutcome) -> StopEffect<H> {
    StopEffect {
        registry: None,
        reply: match registry {
            Some(_) => kill_reply(outcome),
            None => Ok(StopStatus::NotRunning),
        },
        kill_requested: registry,
    }
}

/// The single piece of mutable state: the handle of the sidecar process, if
/// one is running. `H` is whatever the spawn facility hands out to terminate
/// the process with; the registry only keeps it and gives it back.
pub struct SidecarRegistry<H> {
    handle: Option<H>,
}

impl<H> View for SidecarRegistry<H> {
    type V = Option<H>;

    closed spec fn view(&self) -> Option<H> {
        self.handle
    }
}

impl<H> SidecarRegistry<H> {
    /// A registry that tracks no process.
    pub fn new() -> (registry: Self)
        ensures
            registry@ is None,
    {
        SidecarRegistry { handle: None }
    }

    /// Whether a sidecar process is tracked.
    pub fn is_running(&self) -> (running: bool)
        ensures
            running == (self@ is Some),
    {
        self.handle.is_some()
    }

    /// The handle of the tracked process, if there is one.
    pub fn handle(&self) -> (handle: Option<&H>)
        ensures
            (handle is Some) == (self@ is Some),
            handle matches Some(held) ==> self@ == Some(*held),
    {
        self.handle.as_ref()
    }

    /// First step of a start: decides whether a process has to be launched.
    /// The registry is not changed.
    pub fn begin_start(&self) -> (step: StartStep)
        ensures
            self@ is Some ==> step is AlreadyRunning,
            self@ is None ==> (step matches StartStep::Spawn(request) && request@
                == sidecar_launch()),
            forall|outcome: SpawnOutcome<H>|
                (step is Spawn) == (#[trigger] start(self@, outcome)).spawn_requested,
    {
        if self.handle.is_some() {
            StartStep::AlreadyRunning
        } else {
            StartStep::Spawn(launch_request())
        }
    }

    /// Second step of a start: takes the outcome of the launch that
    /// [`begin_start`](Self::begin_start) asked for. A new handle is kept, a
    /// failure leaves the registry empty. A registry that tracks a process
    /// keeps it and lets go of what the outcome holds.
    pub fn finish_start(&mut self, outcome: SpawnOutcome<H>) -> (reply: Result<
        StartStatus,
        SidecarError,
    >)
        ensures
            final(self)@ == start(old(self)@, outcome).registry,
            reply_view(reply) == start(old(self)@, outcome).reply,
    {
        if self.handle.is_some() {
            return Ok(StartStatus::AlreadyRunning);
        }
        match outcome {
            SpawnOutcome::Spawned(handle) => {
                self.handle = Some(handle);
                Ok(StartStatus::Started)
            },
            SpawnOutcome::Failed { stage, cause } => Err(
                SidecarError::SpawnFailed { stage, cause },
            ),
        }
    }

    /// First step of a stop: takes the handle out of the registry, so that
    /// nobody else can act on it, and hands it over to be terminated.
    pub fn begin_stop(&mut self) -> (step: StopStep<H>)
        ensures
            final(self)@ is None,
            step == stop_step(old(self)@),
    {
        match self.handle.take() {
            Some(handle) => StopStep::Kill(handle),
            None => StopStep::NotRunning,
        }
    }

    /// Second step of a stop: takes the outcome of the termination that
    /// [`begin_stop`](Self::begin_stop) asked for. The first step has emptied
    /// the registry, and it stays empty, whatever the outcome.
    pub fn finish_stop(&self, outcome: KillOutcome) -> (reply: Result<StopStatus, SidecarError>)
        requires
            self@ is None,
        ensures
            self@ is None,
            reply_view(reply) == kill_reply(outcome),
            forall|handle: H|
                reply_view(reply) == (#[trigger] stop(Some(handle), outcome)).reply,
    {
        match outcome {
            KillOutcome::Killed => Ok(StopStatus::Stopped),
            KillOutcome::Failed { cause } => Err(SidecarError::KillFailed { cause }),
        }
    }
}

/// What a start answers when its first step found a sidecar running: the
/// answer of a whole start of a registry that holds a handle.
pub fn reply_when_already_running<H>() -> (reply: Result<StartStatus, SidecarError>)
    ensures
        reply_view(reply) == Ok::<StartStatus, Failure>(StartStatus::AlreadyRunning),
        forall|handle: H, outcome: SpawnOutcome<H>|
            reply_view(reply) == (#[trigger] start(Some(handle), outcome)).reply,
{
    Ok(StartStatus::AlreadyRunning)
}

/// What a stop answers when its first step found nothing to terminate: the
/// answer of a whole stop of an empty registry.
pub fn reply_when_not_running<H>() -> (reply: Result<StopStatus, SidecarError>)
    ensures
        reply_view(reply) == Ok::<StopStatus, Failure>(StopStatus::NotRunning),
        forall|outcome: KillOutcome|
            reply_view(reply) == (#[trigger] stop::<H>(None, outcome)).reply,
{
    Ok(StopStatus::NotRunning)
}

} // verus!
