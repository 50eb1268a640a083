use lapdev_ws::config::{resolve_config, WsConfig};
use lapdev_ws::provision::{
    provision_action, provision_step, ProvisionAction, ProvisionEvent, ProvisionState,
};
use lapdev_ws::registry::PeerRegistry;

#[test]
fn config_defaults() {
    let resolved = resolve_config(WsConfig { bind: None, ws_port: None, inter_ws_port: None });
    assert_eq!(resolved.bind, "0.0.0.0");
    assert_eq!(resolved.ws_port, 6123);
    assert_eq!(resolved.inter_ws_port, 6122);
}

#[test]
fn config_overrides() {
    let resolved = resolve_config(WsConfig {
        bind: Some("127.0.0.1".to_string()),
        ws_port: Some(7000),
        inter_ws_port: Some(7001),
    });
    assert_eq!(resolved.bind, "127.0.0.1");
    assert_eq!(resolved.ws_port, 7000);
    assert_eq!(resolved.inter_ws_port, 7001);
}

#[test]
fn registry_tracks_connections() {
    let mut registry = PeerRegistry::new();
    assert_eq!(registry.peer_count(), 0);
    assert!(registry.first_peer().is_none());

    registry.register_peer(11);
    registry.register_peer(22);
    assert_eq!(registry.peer_count(), 2);
    assert_eq!(registry.first_peer(), Some(11));

    // Removing an unknown peer changes nothing.
    registry.remove_peer(99);
    assert_eq!(registry.peer_count(), 2);

    registry.remove_peer(11);
    assert_eq!(registry.peer_count(), 1);
    assert_eq!(registry.first_peer(), Some(22));

    registry.remove_peer(22);
    assert_eq!(registry.peer_count(), 0);
}

#[test]
fn existing_user_resolves_without_creation() {
    // The first probe answers: the run is over, and no useradd was demanded.
    let state = ProvisionState::Start;
    assert!(matches!(provision_action(&state), ProvisionAction::RunReadUid));
    let state = provision_step(state, ProvisionEvent::UidRead { uid: "1000".to_string() });
    match provision_action(&state) {
        ProvisionAction::Finish { uid } => assert_eq!(uid, "1000"),
        other => panic!("unexpected action: {other:?}"),
    }
}

#[test]
fn missing_user_is_created_once() {
    let mut state = ProvisionState::Start;
    let mut useradd_runs = 0;
    let script = [
        ProvisionEvent::UidReadFailed,
        ProvisionEvent::UserAdded,
        ProvisionEvent::WorkspacesDirMade,
        ProvisionEvent::UidRead { uid: "1001".to_string() },
        ProvisionEvent::LingerEnabled,
    ];
    for event in script {
        if matches!(provision_action(&state), ProvisionAction::RunUserAdd) {
            useradd_runs += 1;
        }
        state = provision_step(state, event);
    }
    assert_eq!(useradd_runs, 1);
    match provision_action(&state) {
        ProvisionAction::Finish { uid } => assert_eq!(uid, "1001"),
        other => panic!("unexpected action: {other:?}"),
    }
}

#[test]
fn failed_creation_fails_the_run() {
    let state = provision_step(ProvisionState::Start, ProvisionEvent::UidReadFailed);
    assert!(matches!(provision_action(&state), ProvisionAction::RunUserAdd));
    let state = provision_step(state, ProvisionEvent::UserAddFailed);
    assert!(matches!(provision_action(&state), ProvisionAction::Fail));
}

#[test]
fn second_probe_failure_fails_the_run() {
    let mut state = ProvisionState::Start;
    for event in [
        ProvisionEvent::UidReadFailed,
        ProvisionEvent::UserAdded,
        ProvisionEvent::WorkspacesDirMade,
        ProvisionEvent::UidReadFailed,
    ] {
        state = provision_step(state, event);
    }
    assert!(matches!(provision_action(&state), ProvisionAction::Fail));
}
