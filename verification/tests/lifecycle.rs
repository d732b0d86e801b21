use sidecar_lifecycle::config::{launch_request, SpawnRequest, SIDECAR_PORT};
use sidecar_lifecycle::error::{SidecarError, SpawnStage};
use sidecar_lifecycle::registry::{
    reply_when_already_running, reply_when_not_running, KillOutcome, SidecarRegistry,
    SpawnOutcome, StartStep, StopStep,
};
use sidecar_lifecycle::status::{StartStatus, StopStatus};

/// A spawn facility that hands out consecutive process numbers and remembers
/// what it was asked to launch and to terminate.
struct Processes {
    next: u32,
    launched: Vec<SpawnRequest>,
    killed: Vec<u32>,
}

impl Processes {
    fn new() -> Self {
        Processes { next: 100, launched: Vec::new(), killed: Vec::new() }
    }

    fn spawn(&mut self, request: SpawnRequest) -> SpawnOutcome<u32> {
        self.launched.push(request);
        self.next += 1;
        SpawnOutcome::Spawned(self.next)
    }

    fn kill(&mut self, handle: u32) -> KillOutcome {
        self.killed.push(handle);
        KillOutcome::Killed
    }
}

fn start(
    registry: &mut SidecarRegistry<u32>,
    processes: &mut Processes,
) -> Result<StartStatus, SidecarError> {
    match registry.begin_start() {
        StartStep::AlreadyRunning => reply_when_already_running::<u32>(),
        StartStep::Spawn(request) => {
            let outcome = processes.spawn(request);
            registry.finish_start(outcome)
        }
    }
}

fn stop(
    registry: &mut SidecarRegistry<u32>,
    processes: &mut Processes,
) -> Result<StopStatus, SidecarError> {
    match registry.begin_stop() {
        StopStep::NotRunning => reply_when_not_running::<u32>(),
        StopStep::Kill(handle) => {
            let outcome = processes.kill(handle);
            registry.finish_stop(outcome)
        }
    }
}

#[test]
fn new_registry_is_empty() {
    let registry: SidecarRegistry<u32> = SidecarRegistry::new();
    assert!(!registry.is_running());
    assert_eq!(registry.handle(), None);
}

#[test]
fn start_twice_is_started_then_already_running() {
    let mut registry = SidecarRegistry::new();
    let mut processes = Processes::new();
    assert_eq!(start(&mut registry, &mut processes), Ok(StartStatus::Started));
    assert_eq!(start(&mut registry, &mut processes), Ok(StartStatus::AlreadyRunning));
    assert_eq!(registry.handle(), Some(&101));
    assert!(registry.is_running());
    assert_eq!(processes.launched.len(), 1);
}

#[test]
fn stop_twice_is_stopped_then_not_running() {
    let mut registry = SidecarRegistry::new();
    let mut processes = Processes::new();
    assert_eq!(start(&mut registry, &mut processes), Ok(StartStatus::Started));
    assert_eq!(stop(&mut registry, &mut processes), Ok(StopStatus::Stopped));
    assert_eq!(stop(&mut registry, &mut processes), Ok(StopStatus::NotRunning));
    assert_eq!(registry.handle(), None);
    assert!(!registry.is_running());
    assert_eq!(processes.killed, vec![101]);
}

#[test]
fn start_stop_start_spawns_two_processes() {
    let mut registry = SidecarRegistry::new();
    let mut processes = Processes::new();
    assert_eq!(start(&mut registry, &mut processes), Ok(StartStatus::Started));
    assert_eq!(registry.handle(), Some(&101));
    assert_eq!(stop(&mut registry, &mut processes), Ok(StopStatus::Stopped));
    assert_eq!(start(&mut registry, &mut processes), Ok(StartStatus::Started));
    assert_eq!(registry.handle(), Some(&102));
    assert_eq!(processes.launched.len(), 2);
    assert_eq!(processes.killed, vec![101]);
}

#[test]
fn stop_on_empty_registry_kills_nothing() {
    let mut registry: SidecarRegistry<u32> = SidecarRegistry::new();
    assert_eq!(registry.begin_stop(), StopStep::NotRunning);
    let mut processes = Processes::new();
    assert_eq!(stop(&mut registry, &mut processes), Ok(StopStatus::NotRunning));
    assert!(processes.killed.is_empty());
    assert!(!registry.is_running());
}

#[test]
fn begin_start_asks_for_the_sidecar_with_its_port() {
    let registry: SidecarRegistry<u32> = SidecarRegistry::new();
    let expected = SpawnRequest {
        program: String::from("personal-aid-api"),
        args: vec![String::from("18008")],
    };
    assert_eq!(registry.begin_start(), StartStep::Spawn(expected));
    assert!(!registry.is_running());
}

#[test]
fn launch_request_has_the_port_as_its_only_argument() {
    let request = launch_request();
    assert_eq!(request.program, "personal-aid-api");
    assert_eq!(request.args, vec![SIDECAR_PORT.to_string()]);
    assert_eq!(SIDECAR_PORT, 18008);
}

#[test]
fn begin_start_on_running_registry_asks_for_nothing() {
    let mut registry = SidecarRegistry::new();
    assert_eq!(registry.finish_start(SpawnOutcome::Spawned(7u32)), Ok(StartStatus::Started));
    assert_eq!(registry.begin_start(), StartStep::AlreadyRunning);
    assert_eq!(registry.handle(), Some(&7));
}

#[test]
fn finish_start_keeps_the_first_handle() {
    let mut registry = SidecarRegistry::new();
    assert_eq!(registry.finish_start(SpawnOutcome::Spawned(7u32)), Ok(StartStatus::Started));
    assert_eq!(
        registry.finish_start(SpawnOutcome::Spawned(8u32)),
        Ok(StartStatus::AlreadyRunning)
    );
    assert_eq!(registry.handle(), Some(&7));
    let failed = SpawnOutcome::Failed { stage: SpawnStage::Launch, cause: String::from("no") };
    assert_eq!(registry.finish_start(failed), Ok(StartStatus::AlreadyRunning));
    assert_eq!(registry.handle(), Some(&7));
}

#[test]
fn failed_launch_leaves_the_registry_stopped() {
    let mut registry: SidecarRegistry<u32> = SidecarRegistry::new();
    let outcome = SpawnOutcome::Failed {
        stage: SpawnStage::Launch,
        cause: String::from("permission denied"),
    };
    let reply = registry.finish_start(outcome);
    assert_eq!(
        reply,
        Err(SidecarError::SpawnFailed {
            stage: SpawnStage::Launch,
            cause: String::from("permission denied"),
        })
    );
    assert!(!registry.is_running());
    assert!(matches!(registry.begin_start(), StartStep::Spawn(_)));
    assert_eq!(registry.finish_start(SpawnOutcome::Spawned(5)), Ok(StartStatus::Started));
    assert_eq!(registry.handle(), Some(&5));
}

#[test]
fn failed_command_is_a_spawn_failure() {
    let mut registry: SidecarRegistry<u32> = SidecarRegistry::new();
    let outcome = SpawnOutcome::Failed {
        stage: SpawnStage::Command,
        cause: String::from("sidecar not configured"),
    };
    let error = registry.finish_start(outcome).unwrap_err();
    assert_eq!(
        error.message(),
        "Failed to create sidecar command: sidecar not configured"
    );
    assert!(!registry.is_running());
}

#[test]
fn failed_kill_clears_the_registry() {
    let mut registry = SidecarRegistry::new();
    assert_eq!(registry.finish_start(SpawnOutcome::Spawned(9u32)), Ok(StartStatus::Started));
    assert_eq!(registry.begin_stop(), StopStep::Kill(9));
    assert!(!registry.is_running());
    let reply = registry.finish_stop(KillOutcome::Failed { cause: String::from("no such process") });
    assert_eq!(reply, Err(SidecarError::KillFailed { cause: String::from("no such process") }));
    assert!(!registry.is_running());
    assert_eq!(registry.begin_stop(), StopStep::NotRunning);
}

#[test]
fn reply_when_already_running_is_already_running() {
    assert_eq!(reply_when_already_running::<u32>(), Ok(StartStatus::AlreadyRunning));
    assert_eq!(
        reply_when_already_running::<u32>().unwrap().message(),
        "Sidecar already running"
    );
}

#[test]
fn reply_when_not_running_is_not_running() {
    assert_eq!(reply_when_not_running::<u32>(), Ok(StopStatus::NotRunning));
    assert_eq!(reply_when_not_running::<u32>().unwrap().message(), "Sidecar was not running");
}

#[test]
fn finish_stop_reports_the_kill() {
    let registry: SidecarRegistry<u32> = SidecarRegistry::new();
    assert_eq!(registry.finish_stop(KillOutcome::Killed), Ok(StopStatus::Stopped));
}

#[test]
fn starts_served_in_turn_spawn_exactly_once() {
    let mut registry = SidecarRegistry::new();
    let mut processes = Processes::new();
    let mut replies = Vec::new();
    for _ in 0..5 {
        replies.push(start(&mut registry, &mut processes));
    }
    assert_eq!(replies[0], Ok(StartStatus::Started));
    for reply in &replies[1..] {
        assert_eq!(*reply, Ok(StartStatus::AlreadyRunning));
    }
    assert_eq!(processes.launched.len(), 1);
    assert_eq!(registry.handle(), Some(&101));
}
