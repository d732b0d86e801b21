use sidecar_lifecycle::error::{ProbePhase, SidecarError, SpawnStage};
use sidecar_lifecycle::status::{StartStatus, StopStatus};
use sidecar_lifecycle::text::{append_decimal, decimal_text};

#[test]
fn start_statuses_read_as_messages() {
    assert_eq!(StartStatus::Started.message(), "Sidecar started");
    assert_eq!(StartStatus::AlreadyRunning.message(), "Sidecar already running");
}

#[test]
fn stop_statuses_read_as_messages() {
    assert_eq!(StopStatus::Stopped.message(), "Sidecar stopped");
    assert_eq!(StopStatus::NotRunning.message(), "Sidecar was not running");
}

#[test]
fn lock_poisoned_message_is_the_cause() {
    let error = SidecarError::LockPoisoned {
        cause: String::from("poisoned lock: another task failed inside"),
    };
    assert_eq!(error.message(), "poisoned lock: another task failed inside");
}

#[test]
fn spawn_failed_messages_name_the_stage() {
    let command = SidecarError::SpawnFailed {
        stage: SpawnStage::Command,
        cause: String::from("unknown program"),
    };
    assert_eq!(command.message(), "Failed to create sidecar command: unknown program");
    let launch = SidecarError::SpawnFailed {
        stage: SpawnStage::Launch,
        cause: String::from("No such file or directory (os error 2)"),
    };
    assert_eq!(
        launch.message(),
        "Failed to spawn sidecar: No such file or directory (os error 2)"
    );
}

#[test]
fn kill_failed_message_has_its_prefix() {
    let error = SidecarError::KillFailed { cause: String::from("gone") };
    assert_eq!(error.message(), "Failed to kill sidecar: gone");
}

#[test]
fn health_check_failed_messages_name_the_phase() {
    let client = SidecarError::HealthCheckFailed {
        phase: ProbePhase::Client,
        cause: String::from("builder error"),
    };
    assert_eq!(client.message(), "builder error");
    let request = SidecarError::HealthCheckFailed {
        phase: ProbePhase::Request,
        cause: String::from("connection refused"),
    };
    assert_eq!(request.message(), "Health check failed: connection refused");
    let response = SidecarError::HealthCheckFailed {
        phase: ProbePhase::Response,
        cause: String::from("expected value at line 1 column 1"),
    };
    assert_eq!(
        response.message(),
        "Failed to parse health response: expected value at line 1 column 1"
    );
}

#[test]
fn message_with_empty_cause_is_the_prefix() {
    let error = SidecarError::KillFailed { cause: String::new() };
    assert_eq!(error.message(), "Failed to kill sidecar: ");
}

#[test]
fn decimal_text_of_small_numbers() {
    assert_eq!(decimal_text(0), "0");
    assert_eq!(decimal_text(7), "7");
    assert_eq!(decimal_text(9), "9");
    assert_eq!(decimal_text(10), "10");
    assert_eq!(decimal_text(99), "99");
    assert_eq!(decimal_text(100), "100");
}

#[test]
fn decimal_text_of_the_port() {
    assert_eq!(decimal_text(18008), "18008");
}

#[test]
fn decimal_text_of_the_largest_number() {
    assert_eq!(decimal_text(u64::MAX), "18446744073709551615");
}

#[test]
fn decimal_text_agrees_with_the_standard_library() {
    let mut n: u64 = 1;
    for _ in 0..40 {
        assert_eq!(decimal_text(n), n.to_string());
        assert_eq!(decimal_text(n - 1), (n - 1).to_string());
        n = n.wrapping_mul(3).wrapping_add(1);
    }
}

#[test]
fn append_decimal_keeps_what_was_there() {
    let mut text = String::from("port ");
    append_decimal(&mut text, 18008);
    assert_eq!(text, "port 18008");
    append_decimal(&mut text, 0);
    assert_eq!(text, "port 180080");
}
