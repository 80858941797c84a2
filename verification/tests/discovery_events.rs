use drip_net::discovery::{instance_id, removed_event, resolved_event};

const SERVICE: &str = "_fileshare._tcp.local.";

#[test]
fn instance_name_is_prefix_before_first_dot() {
    assert_eq!(instance_id("apollo._fileshare._tcp.local."), "apollo");
    assert_eq!(instance_id("no-dots-here"), "no-dots-here");
    assert_eq!(instance_id(".starts-with-dot"), "");
    assert_eq!(instance_id(""), "");
}

#[test]
fn resolved_service_becomes_peer_found() {
    let found = resolved_event(
        &SERVICE.to_string(),
        "zeus._fileshare._tcp.local.",
        "192.168.1.30".to_string(),
        true,
        &"apollo".to_string(),
        &SERVICE.to_string(),
    )
    .unwrap();
    assert_eq!(found.id, "zeus");
    assert_eq!(found.our_id, "apollo");
    assert_eq!(found.address, "192.168.1.30");
    assert!(found.mobile);
    // apollo sorts below zeus, so this side is the polite one.
    assert!(found.polite);
}

#[test]
fn own_announcement_is_never_emitted() {
    let own = resolved_event(
        &SERVICE.to_string(),
        "apollo._fileshare._tcp.local.",
        "192.168.1.10".to_string(),
        false,
        &"apollo".to_string(),
        &SERVICE.to_string(),
    );
    assert!(own.is_none());
}

#[test]
fn foreign_service_types_are_ignored() {
    let other = resolved_event(
        &"_printer._tcp.local.".to_string(),
        "zeus._printer._tcp.local.",
        "192.168.1.30".to_string(),
        false,
        &"apollo".to_string(),
        &SERVICE.to_string(),
    );
    assert!(other.is_none());
    assert!(removed_event(
        &"_printer._tcp.local.".to_string(),
        "zeus._printer._tcp.local.",
        &SERVICE.to_string()
    )
    .is_none());
}

#[test]
fn removed_service_becomes_peer_lost() {
    let lost = removed_event(
        &SERVICE.to_string(),
        "zeus._fileshare._tcp.local.",
        &SERVICE.to_string(),
    );
    assert_eq!(lost.as_deref(), Some("zeus"));
}
