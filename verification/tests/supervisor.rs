use bioreactor_hub::config::DeviceMetadata;
use bioreactor_hub::device::{Bioreactor, DeviceStatus};
use bioreactor_hub::network_bioreactor::{NetworkReactor, NetworkReactorConfig};
use bioreactor_hub::supervisor::{SupervisorAction, SupervisorEvent, SupervisorPhase};
use bioreactor_hub::views::DeviceInfo;

fn config(port: u16) -> NetworkReactorConfig {
    NetworkReactorConfig {
        meta: DeviceMetadata {
            id: "n".to_string(),
            name: "Networked reactor".to_string(),
            description: None,
        },
        address: [127, 0, 0, 1],
        port,
    }
}

#[test]
fn bind_failure_leaves_the_device_offline_for_good() {
    let device = NetworkReactor::from_config(
        config(80),
        Some("permission denied".to_string()),
    );
    assert_eq!(device.phase, SupervisorPhase::OfflineIdle);
    assert_eq!(device.get_current_status(), DeviceStatus::Offline);
    let detail = device.get_current_status_extra().unwrap();
    assert!(!detail.is_empty());
    assert_eq!(
        detail,
        "Cannot open the configured socket (permission denied)."
    );
    // No background task remains runnable: the supervisor asks the
    // embedding program to halt immediately.
    assert_eq!(device.next_action(), SupervisorAction::Halt);
}

#[test]
fn successful_bind_starts_listening() {
    let device = NetworkReactor::from_config(config(4321), None);
    assert_eq!(device.phase, SupervisorPhase::OfflineListening);
    assert_eq!(device.get_current_status(), DeviceStatus::Offline);
    assert_eq!(
        device.get_current_status_extra(),
        Some("Waiting for a connection.".to_string())
    );
    assert_eq!(device.next_action(), SupervisorAction::Accept);
}

#[test]
fn accept_failure_backs_off_and_retries() {
    let mut device = NetworkReactor::from_config(config(4321), None);
    device.supervisor_step(SupervisorEvent::AcceptFailed("connection reset".to_string()));
    assert_eq!(device.phase, SupervisorPhase::OfflineSocketError);
    assert_eq!(device.next_action(), SupervisorAction::Backoff);
    assert_eq!(
        device.get_current_status_extra(),
        Some("Socket error `connection reset`. Waiting for a new connection.".to_string())
    );

    device.supervisor_step(SupervisorEvent::BackoffElapsed);
    assert_eq!(device.phase, SupervisorPhase::OfflineListening);
    assert_eq!(device.get_current_status(), DeviceStatus::Offline);
    assert_eq!(
        device.get_current_status_extra(),
        Some("Waiting for a connection.".to_string())
    );
}

#[test]
fn accepted_connection_polls_until_told_otherwise() {
    let mut device = NetworkReactor::from_config(config(4321), None);
    device.supervisor_step(SupervisorEvent::Accepted);
    assert_eq!(device.phase, SupervisorPhase::Connected);
    assert_eq!(device.next_action(), SupervisorAction::Poll);
    assert_eq!(
        device.get_current_status_extra(),
        Some("Connecting...".to_string())
    );

    // Without an abort, polling keeps the connection held.
    device.supervisor_step(SupervisorEvent::PollElapsed);
    device.supervisor_step(SupervisorEvent::PollElapsed);
    assert_eq!(device.phase, SupervisorPhase::Connected);
}

#[test]
fn an_event_foreign_to_the_phase_changes_nothing() {
    let mut device = NetworkReactor::from_config(config(4321), None);
    device.supervisor_step(SupervisorEvent::PollElapsed);
    assert_eq!(device.phase, SupervisorPhase::OfflineListening);
    assert_eq!(
        device.get_current_status_extra(),
        Some("Waiting for a connection.".to_string())
    );
}

#[test]
fn abort_stops_the_supervisor_at_the_next_step() {
    let mut device = NetworkReactor::from_config(config(4321), None);
    device.supervisor_step(SupervisorEvent::Accepted);
    device.abort();
    // The supervisor observes the flag at its next poll point and
    // terminates, whatever event arrived.
    device.supervisor_step(SupervisorEvent::PollElapsed);
    assert_eq!(device.phase, SupervisorPhase::Stopped);
    assert_eq!(device.next_action(), SupervisorAction::Halt);

    // Stopped is terminal.
    device.supervisor_step(SupervisorEvent::Accepted);
    assert_eq!(device.phase, SupervisorPhase::Stopped);
}

#[test]
fn abort_also_stops_a_listening_supervisor() {
    let mut device = NetworkReactor::from_config(config(4321), None);
    device.abort();
    device.supervisor_step(SupervisorEvent::AcceptFailed("interrupted".to_string()));
    assert_eq!(device.phase, SupervisorPhase::Stopped);
    assert_eq!(device.next_action(), SupervisorAction::Halt);
}

#[test]
fn detail_view_snapshots_a_network_device() {
    let device = NetworkReactor::from_config(config(4321), None);
    let view = DeviceInfo::from_device(&device);
    assert_eq!(view.id, "n");
    assert_eq!(view.name, "Networked reactor");
    assert_eq!(view.description, None);
    assert_eq!(view.current_status, DeviceStatus::Offline);
    assert_eq!(view.target_status, DeviceStatus::Inactive);
}
