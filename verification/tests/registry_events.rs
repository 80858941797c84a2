use drip_net::negotiator::{
    ConnectionState, NegotiationAction, NegotiationEvent, NegotiationPhase, TransportState,
};
use drip_net::registry::{P2PService, PeerInfo, Status};

fn info(id: &str) -> PeerInfo {
    PeerInfo::new(
        id.to_string(),
        "our-node".to_string(),
        "192.168.1.20:1234".to_string(),
        false,
    )
}

#[test]
fn found_registers_a_disconnected_peer() {
    let mut reg = P2PService::new();
    assert!(reg.on_peer_found(info("apollo")));
    assert_eq!(reg.len(), 1);
    assert!(reg.contains(&"apollo".to_string()));
    let snap = reg.snapshot();
    assert_eq!(snap.len(), 1);
    assert_eq!(snap[0].0, "apollo");
    assert_eq!(snap[0].1.id, "apollo");
    assert_eq!(snap[0].1.our_id, "our-node");
    assert!(matches!(snap[0].2, ConnectionState::Disconnected));
}

#[test]
fn duplicate_found_is_ignored() {
    let mut reg = P2PService::new();
    assert!(reg.on_peer_found(info("apollo")));
    // Drive the existing peer's negotiation forward a step.
    reg.handle_peer_event(
        &"apollo".to_string(),
        NegotiationEvent::TransportStateChanged(TransportState::Connecting),
    );
    // A duplicate PeerFound neither adds a peer nor restarts the negotiator.
    assert!(!reg.on_peer_found(info("apollo")));
    assert_eq!(reg.len(), 1);
    let snap = reg.snapshot();
    assert!(matches!(snap[0].2, ConnectionState::Connecting));
}

#[test]
fn lost_for_unknown_id_is_a_no_op() {
    let mut reg = P2PService::new();
    reg.on_peer_found(info("apollo"));
    reg.on_peer_found(info("zeus"));
    assert_eq!(reg.len(), 2);
    assert!(!reg.on_peer_lost(&"hermes".to_string()));
    assert_eq!(reg.len(), 2);
    assert!(!reg.on_peer_lost(&"hermes".to_string()));
    assert_eq!(reg.len(), 2);
}

#[test]
fn lost_removes_only_the_named_peer() {
    let mut reg = P2PService::new();
    reg.on_peer_found(info("apollo"));
    reg.on_peer_found(info("zeus"));
    assert!(reg.on_peer_lost(&"apollo".to_string()));
    assert_eq!(reg.len(), 1);
    assert!(!reg.contains(&"apollo".to_string()));
    assert!(reg.contains(&"zeus".to_string()));
}

#[test]
fn apply_dispatches_discovery_events() {
    let mut reg = P2PService::new();
    assert!(reg.apply(Status::PeerFound(info("apollo"))));
    assert!(!reg.apply(Status::PeerFound(info("apollo"))));
    assert!(reg.apply(Status::PeerLost {
        id: "apollo".to_string()
    }));
    assert!(!reg.apply(Status::PeerLost {
        id: "apollo".to_string()
    }));
    assert_eq!(reg.len(), 0);
}

#[test]
fn events_route_to_the_right_peer() {
    let mut reg = P2PService::new();
    reg.on_peer_found(info("apollo"));
    reg.on_peer_found(info("zeus"));
    let action = reg.handle_peer_event(
        &"zeus".to_string(),
        NegotiationEvent::TransportStateChanged(TransportState::Connected),
    );
    assert_eq!(
        action,
        Some(NegotiationAction::PublishState(ConnectionState::Connected))
    );
    let snap = reg.snapshot();
    assert!(matches!(snap[0].2, ConnectionState::Disconnected)); // apollo
    assert!(matches!(snap[1].2, ConnectionState::Connected)); // zeus

    // Events for a retired id report nothing to do.
    assert_eq!(
        reg.handle_peer_event(
            &"hermes".to_string(),
            NegotiationEvent::RemoteAnswer("x".to_string())
        ),
        None
    );
}

#[test]
fn failure_is_local_to_one_peer() {
    let mut reg = P2PService::new();
    reg.on_peer_found(info("apollo"));
    reg.on_peer_found(info("zeus"));
    reg.handle_peer_event(
        &"apollo".to_string(),
        NegotiationEvent::TransportStateChanged(TransportState::Connected),
    );
    reg.handle_peer_event(
        &"zeus".to_string(),
        NegotiationEvent::TransportStateChanged(TransportState::Connected),
    );
    let err = reg
        .fail_peer(&"zeus".to_string(), NegotiationPhase::SetRemoteDescription)
        .unwrap();
    assert_eq!(err.peer_id, "zeus");
    assert_eq!(err.phase, NegotiationPhase::SetRemoteDescription);
    let snap = reg.snapshot();
    assert!(matches!(snap[0].2, ConnectionState::Connected)); // apollo untouched
    assert!(matches!(snap[1].2, ConnectionState::Disconnected)); // zeus reset
    assert_eq!(
        reg.fail_peer(&"hermes".to_string(), NegotiationPhase::AddCandidate),
        None
    );
}
