//! Tests of the bootstrap decision logic and the connection handshake.

use bafomet::communication::{handshake_peer, Bootstrap, BootstrapEvent, NodeId};
use bafomet::error::ErrorKind;
use bafomet::message::WireMessage;

#[test]
fn test_bootstrap_rejects_too_few_replicas() {
    // n >= 3f + 1 must hold
    let err = Bootstrap::new(3, 1, NodeId::from(0u32), NodeId::from(1000u32)).unwrap_err();
    assert_eq!(err.kind(), ErrorKind::Communication);
    assert!(Bootstrap::new(4, 1, NodeId::from(0u32), NodeId::from(1000u32)).is_ok());
}

#[test]
fn test_bootstrap_rejects_invalid_id() {
    // the id must name a replica or a client
    let err = Bootstrap::new(4, 1, NodeId::from(7u32), NodeId::from(1000u32)).unwrap_err();
    assert_eq!(err.kind(), ErrorKind::Communication);
    assert!(Bootstrap::new(4, 1, NodeId::from(1000u32), NodeId::from(1000u32)).is_ok());
}

#[test]
fn test_bootstrap_completes_after_both_directions() {
    let mut bootstrap =
        Bootstrap::new(4, 1, NodeId::from(0u32), NodeId::from(1000u32)).expect("valid config");
    for peer in 1..4u32 {
        let done = bootstrap
            .handle(BootstrapEvent::ConnectedTx(NodeId::from(peer)))
            .expect("connections are not fatal");
        assert!(!done);
    }
    for peer in 1..4u32 {
        let done = bootstrap
            .handle(BootstrapEvent::ConnectedRx(NodeId::from(peer)))
            .expect("connections are not fatal");
        assert_eq!(done, peer == 3);
    }
}

#[test]
fn test_bootstrap_client_connections_not_counted() {
    let mut bootstrap =
        Bootstrap::new(4, 1, NodeId::from(0u32), NodeId::from(1000u32)).expect("valid config");
    let done = bootstrap
        .handle(BootstrapEvent::ConnectedRx(NodeId::from(1000u32)))
        .expect("connections are not fatal");
    assert!(!done);
}

#[test]
fn test_bootstrap_disconnection_is_fatal() {
    // a replica disconnecting mid-bootstrap aborts it with a
    // communication error
    let mut bootstrap =
        Bootstrap::new(4, 1, NodeId::from(0u32), NodeId::from(1000u32)).expect("valid config");
    bootstrap
        .handle(BootstrapEvent::ConnectedTx(NodeId::from(1u32)))
        .expect("connections are not fatal");
    let err = bootstrap
        .handle(BootstrapEvent::DisconnectedTx(NodeId::from(2u32)))
        .unwrap_err();
    assert_eq!(err.kind(), ErrorKind::Communication);
    let err = bootstrap
        .handle(BootstrapEvent::DisconnectedRx(None))
        .unwrap_err();
    assert_eq!(err.kind(), ErrorKind::Communication);
}

#[test]
fn test_handshake_wrong_destination_is_dropped() {
    // a peer writing a header with to != my_id has its socket dropped
    let (header, _) =
        WireMessage::new(NodeId::from(1u32), NodeId::from(2u32), &[], 0, None, None).into_inner();
    let my_id = NodeId::from(0u32);
    let err = handshake_peer(header, my_id, NodeId::from(1000u32)).unwrap_err();
    assert_eq!(err.kind(), ErrorKind::Communication);
}

#[test]
fn test_handshake_accepts_peer() {
    let (header, _) =
        WireMessage::new(NodeId::from(1u32), NodeId::from(0u32), &[], 0, None, None).into_inner();
    let peer = handshake_peer(header, NodeId::from(0u32), NodeId::from(1000u32))
        .expect("handshake must pass");
    assert_eq!(peer, NodeId::from(1u32));
}

#[test]
fn test_handshake_rejects_client_to_client() {
    let (header, _) = WireMessage::new(NodeId::from(1001u32), NodeId::from(1000u32), &[], 0, None, None)
        .into_inner();
    let err = handshake_peer(header, NodeId::from(1000u32), NodeId::from(1000u32)).unwrap_err();
    assert_eq!(err.kind(), ErrorKind::Communication);
}

#[test]
fn test_targets() {
    let ids = NodeId::targets(0..4);
    assert_eq!(ids, vec![
        NodeId::from(0u32),
        NodeId::from(1u32),
        NodeId::from(2u32),
        NodeId::from(3u32),
    ]);
    let ids = NodeId::targets_u32(2..4);
    assert_eq!(ids.len(), 2);
    assert_eq!(usize::from(ids[1]), 3);
}
