//! What holds of starts and stops that follow one another.
//!
//! An operation runs with exclusive access to the registry from its first step
//! to its second, so operations never overlap: callers that race are served
//! one after another, in some order. The statements below are therefore made
//! of whole operations, [`start`] and [`stop`], applied in sequence.

use vstd::prelude::*;
use crate::error::Failure;
use crate::registry::{start, stop, KillOutcome, SpawnOutcome};
use crate::status::{StartStatus, StopStatus};

verus! {

/// What a run of starts leaves behind: the registry, the answers in the order
/// of the calls, and the number of launches that were asked for.
pub struct StartsTrace<H> {
    pub registry: Option<H>,
    pub replies: Seq<Result<StartStatus, Failure>>,
    pub spawns: nat,
}

/// Starts served one after another. `outcomes[i]` is what the spawn facility
/// answers to call `i` if that call asks it.
pub open spec fn serial_starts<H>(registry: Option<H>, outcomes: Seq<SpawnOutcome<H>>)
    -> StartsTrace<H>
    decreases outcomes.len(),
{
    if outcomes.len() == 0 {
        StartsTrace { registry, replies: Seq::empty(), spawns: 0 }
    } else {
        let earlier = serial_starts(registry, outcomes.drop_last());
        let last = start(earlier.registry, outcomes.last());
        StartsTrace {
            registry: last.registry,
            replies: earlier.replies.push(last.reply),
            spawns: if last.spawn_requested {
                earlier.spawns + 1
            } else {
                earlier.spawns
            },
        }
    }
}

/// A start never leaves more behind than it found plus what it launched: the
/// registry afterwards holds the handle it held before, or the one handle
/// that the launch returned, or nothing.
pub proof fn lemma_start_tracks_one<H>(registry: Option<H>, outcome: SpawnOutcome<H>)
    ensures
        registry is Some ==> start(registry, outcome).registry == registry,
        registry is None ==> (outcome matches SpawnOutcome::Spawned(handle) ==> start(
            registry,
            outcome,
        ).registry == Some(handle)),
        registry is None && outcome is Failed ==> start(registry, outcome).registry is None,
        start(registry, outcome).reply is Ok <==> start(registry, outcome).registry is Some,
{
}

/// Starting twice: the first start of an empty registry launches the sidecar
/// and answers `Started`; the second launches nothing and answers
/// `AlreadyRunning`. After both the registry holds the one handle of the first.
pub proof fn lemma_start_twice<H>(handle: H, later: SpawnOutcome<H>)
    ensures
        ({
            let first = start(None, SpawnOutcome::Spawned(handle));
            let second = start(first.registry, later);
            &&& first.reply == Ok::<StartStatus, Failure>(StartStatus::Started)
            &&& first.spawn_requested
            &&& first.registry == Some(handle)
            &&& second.reply == Ok::<StartStatus, Failure>(StartStatus::AlreadyRunning)
            &&& !second.spawn_requested
            &&& second.registry == Some(handle)
        }),
{
}

/// A start that follows a start that did not fail changes nothing, asks for
/// no launch and answers `AlreadyRunning`, whatever the registry held at first.
pub proof fn lemma_start_is_idempotent<H>(
    registry: Option<H>,
    outcome: SpawnOutcome<H>,
    later: SpawnOutcome<H>,
)
    requires
        start(registry, outcome).reply is Ok,
    ensures
        start(start(registry, outcome).registry, later).registry == start(
            registry,
            outcome,
        ).registry,
        start(start(registry, outcome).registry, later).reply == Ok::<StartStatus, Failure>(
            StartStatus::AlreadyRunning,
        ),
        !start(start(registry, outcome).registry, later).spawn_requested,
{
}

/// A start that failed leaves the registry empty, so that the next start
/// launches again.
pub proof fn lemma_failed_start_leaves_stopped<H>(
    registry: Option<H>,
    outcome: SpawnOutcome<H>,
    later: SpawnOutcome<H>,
)
    requires
        start(registry, outcome).reply is Err,
    ensures
        registry is None,
        start(registry, outcome).registry is None,
        start(start(registry, outcome).registry, later).spawn_requested,
{
}

/// Stopping twice: the first stop of a running sidecar has its process
/// terminated and answers `Stopped`; the second terminates nothing and answers
/// `NotRunning`. After both the registry is empty.
pub proof fn lemma_stop_twice<H>(handle: H, later: KillOutcome)
    ensures
        ({
            let first = stop(Some(handle), KillOutcome::Killed);
            let second = stop(first.registry, later);
            &&& first.reply == Ok::<StopStatus, Failure>(StopStatus::Stopped)
            &&& first.kill_requested == Some(handle)
            &&& first.registry is None
            &&& second.reply == Ok::<StopStatus, Failure>(StopStatus::NotRunning)
            &&& second.kill_requested is None
            &&& second.registry is None
        }),
{
}

/// A stop that follows any stop, failed or not, finds nothing to terminate
/// and answers `NotRunning`.
pub proof fn lemma_stop_is_idempotent<H>(
    registry: Option<H>,
    outcome: KillOutcome,
    later: KillOutcome,
)
    ensures
        stop(registry, outcome).registry is None,
        stop(stop(registry, outcome).registry, later).registry is None,
        stop(stop(registry, outcome).registry, later).reply == Ok::<StopStatus, Failure>(
            StopStatus::NotRunning,
        ),
        stop(stop(registry, outcome).registry, later).kill_requested is None,
{
}

/// A stop of an empty registry answers `NotRunning` and does not ask the kill
/// facility for anything.
pub proof fn lemma_stop_when_stopped<H>(outcome: KillOutcome)
    ensures
        stop::<H>(None, outcome).reply == Ok::<StopStatus, Failure>(StopStatus::NotRunning),
        stop::<H>(None, outcome).kill_requested is None,
        stop::<H>(None, outcome).registry is None,
{
}

/// Start, stop, start: both starts launch a process. The stop asks for the
/// first handle to be terminated and clears the registry whether or not that
/// succeeds, and the registry ends with the handle of the second launch, not
/// with the one that the stop took out.
pub proof fn lemma_restart_spawns_again<H>(first: H, kill: KillOutcome, second: H)
    ensures
        ({
            let started = start(None, SpawnOutcome::Spawned(first));
            let stopped = stop(started.registry, kill);
            let restarted = start(stopped.registry, SpawnOutcome::Spawned(second));
            &&& started.spawn_requested
            &&& started.registry == Some(first)
            &&& stopped.kill_requested == Some(first)
            &&& stopped.registry is None
            &&& restarted.spawn_requested
            &&& restarted.reply == Ok::<StartStatus, Failure>(StartStatus::Started)
            &&& restarted.registry == Some(second)
        }),
{
}

/// Starts on a registry that tracks a process: nothing is launched, the
/// registry keeps its handle, and every caller is answered `AlreadyRunning`.
pub proof fn lemma_starts_while_running<H>(handle: H, outcomes: Seq<SpawnOutcome<H>>)
    ensures
        serial_starts(Some(handle), outcomes).registry == Some(handle),
        serial_starts(Some(handle), outcomes).spawns == 0,
        serial_starts(Some(handle), outcomes).replies.len() == outcomes.len(),
        forall|i: int|
            0 <= i < outcomes.len() ==> #[trigger] serial_starts(
                Some(handle),
                outcomes,
            ).replies[i] == Ok::<StartStatus, Failure>(StartStatus::AlreadyRunning),
    decreases outcomes.len(),
{
    if outcomes.len() > 0 {
        lemma_starts_while_running(handle, outcomes.drop_last());
    }
}

/// Any number of callers that start an empty registry at once: in whatever
/// order they are served, if the launch of the caller served first succeeds,
/// then exactly one launch is asked for, that caller is answered `Started`,
/// all the others `AlreadyRunning`, and the registry ends with the handle of
/// that one launch.
pub proof fn lemma_racing_starts_spawn_once<H>(outcomes: Seq<SpawnOutcome<H>>)
    requires
        outcomes.len() >= 1,
        outcomes[0] is Spawned,
    ensures
        serial_starts(None, outcomes).spawns == 1,
        serial_starts(None, outcomes).registry == Some(outcomes[0]->Spawned_0),
        serial_starts(None, outcomes).replies.len() == outcomes.len(),
        serial_starts(None, outcomes).replies[0] == Ok::<StartStatus, Failure>(
            StartStatus::Started,
        ),
        forall|i: int|
            1 <= i < outcomes.len() ==> #[trigger] serial_starts(None, outcomes).replies[i]
                == Ok::<StartStatus, Failure>(StartStatus::AlreadyRunning),
    decreases outcomes.len(),
{
    let earlier = outcomes.drop_last();
    if outcomes.len() == 1 {
        assert(serial_starts::<H>(None, earlier).registry is None);
    } else {
        assert(earlier[0] == outcomes[0]);
        lemma_racing_starts_spawn_once(earlier);
    }
}

} // verus!
