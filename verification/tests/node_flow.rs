use reticulum_mobile::HubMode;
use reticulum_mobile::HubPath;
use reticulum_mobile::LinkEventKind;
use reticulum_mobile::LogLevel;
use reticulum_mobile::Node;
use reticulum_mobile::NodeConfig;
use reticulum_mobile::NodeEvent;
use reticulum_mobile::PeerState;
use reticulum_mobile::RetryStep;
use reticulum_mobile::SendOutcome;
use reticulum_mobile::node_error_code;
use reticulum_mobile::path_retry_step;

fn test_config(name: &str) -> NodeConfig {
    NodeConfig {
        name: name.to_string(),
        storage_dir: None,
        tcp_clients: Vec::new(),
        broadcast: true,
        announce_interval_seconds: 1,
        announce_capabilities: "R3AKT,EMergencyMessages".to_string(),
        hub_mode: HubMode::Disabled {},
        hub_identity_hash: None,
        hub_api_base_url: None,
        hub_api_key: None,
        hub_refresh_interval_seconds: 1,
    }
}

fn started_node(name: &str) -> Node {
    let mut node = Node::new();
    node.start(test_config(name), None).unwrap();
    node
}

fn is_lower_hex(s: &str, len: usize) -> bool {
    s.len() == len && s.chars().all(|c| c.is_ascii_hexdigit() && !c.is_ascii_uppercase())
}

#[test]
fn start_and_stop_roundtrip() {
    let mut node = started_node("n1");
    let sub = node.subscribe_events();
    node.mark_running();
    match node.next_event(&sub, 0) {
        Some(NodeEvent::StatusChanged { status }) => {
            assert!(status.running);
            assert_eq!(status.name, "n1");
            assert!(is_lower_hex(&status.identity_hex, 64));
            assert!(is_lower_hex(&status.app_destination_hex, 32));
            assert!(is_lower_hex(&status.lxmf_destination_hex, 32));
            assert_ne!(status.app_destination_hex, status.lxmf_destination_hex);
        }
        other => panic!("unexpected event: {other:?}"),
    }
    node.stop().unwrap();
    match node.next_event(&sub, 0) {
        Some(NodeEvent::StatusChanged { status }) => assert!(!status.running),
        other => panic!("unexpected event: {other:?}"),
    }
    match node.next_event(&sub, 0) {
        Some(NodeEvent::StatusChanged { status }) => assert!(!status.running),
        other => panic!("unexpected event: {other:?}"),
    }
    assert!(node.next_event(&sub, 0).is_none());
}

#[test]
fn double_start_is_already_running() {
    let mut node = started_node("n1");
    match node.start(test_config("n1"), None) {
        Err(e) => assert_eq!(node_error_code(&e), "AlreadyRunning"),
        Ok(_) => panic!("second start must fail"),
    }
}

#[test]
fn stop_then_start_succeeds_again() {
    let mut node = started_node("n1");
    node.stop().unwrap();
    assert!(node.start(test_config("n1"), None).is_ok());
}

#[test]
fn stop_is_idempotent() {
    let mut node = Node::new();
    assert!(node.stop().is_ok());
    assert!(node.stop().is_ok());
}

#[test]
fn restart_replaces_the_session() {
    let mut node = started_node("n1");
    node.restart(test_config("n2"), None).unwrap();
    assert_eq!(node.get_status().name, "n2");
}

#[test]
fn blank_name_is_invalid_config() {
    let mut node = Node::new();
    match node.start(test_config("   "), None) {
        Err(e) => assert_eq!(node_error_code(&e), "InvalidConfig"),
        Ok(_) => panic!("blank name must fail"),
    }
    match node.start(test_config("\u{a0}\u{2003}"), None) {
        Err(e) => assert_eq!(node_error_code(&e), "InvalidConfig"),
        Ok(_) => panic!("blank name must fail"),
    }
}

#[test]
fn bad_loaded_identity_is_io_error() {
    let mut node = Node::new();
    match node.start(test_config("n1"), Some("not hex".to_string())) {
        Err(e) => assert_eq!(node_error_code(&e), "IoError"),
        Ok(_) => panic!("bad identity must fail"),
    }
}

#[test]
fn absent_storage_identity_is_deterministic() {
    let mut first = started_node("same-name");
    let mut second = started_node("same-name");
    let a = first.get_status();
    let b = second.get_status();
    assert_eq!(a.identity_hex, b.identity_hex);
    assert_eq!(a.app_destination_hex, b.app_destination_hex);
    assert_eq!(a.lxmf_destination_hex, b.lxmf_destination_hex);
    first.stop().unwrap();
    second.stop().unwrap();
}

#[test]
fn derived_identity_matches_the_mesh_library() {
    let derived = reticulum_mobile::derive_identity_hex("same-name");
    let reference = rns_core::identity::PrivateIdentity::new_from_name("same-name");
    assert_eq!(derived, reference.to_hex_string());
    let mut keys = Vec::new();
    keys.extend_from_slice(reference.as_identity().public_key_bytes());
    keys.extend_from_slice(reference.as_identity().verifying_key_bytes());
    let full_hash = rns_core::hash::Hash::new_from_slice(&keys);
    let hash_hex = reticulum_mobile::identity_hash_hex(&derived);
    assert_eq!(hash_hex, hex::encode(full_hash.as_slice()));
    // The address hash the mesh library stores is this hash's truncation.
    assert_eq!(hash_hex[..32], reference.address_hash().to_hex_string());
}

#[test]
fn healthcheck_names_the_library() {
    assert_eq!(reticulum_mobile::healthcheck(), "reticulum-mobile-ready");
}

#[test]
fn destination_addresses_match_the_mesh_library() {
    let identity_hex = reticulum_mobile::derive_identity_hex("n1");
    let identity =
        rns_core::identity::PrivateIdentity::new_from_hex_string(&identity_hex).unwrap();
    let reference = rns_core::destination::SingleInputDestination::new(
        identity,
        rns_core::destination::DestinationName::new("r3akt", "emergency"),
    );
    assert_eq!(
        reticulum_mobile::destination_hex(&identity_hex, "r3akt", "emergency"),
        reference.desc.address_hash.to_hex_string()
    );
}

#[test]
fn positive_timeout_poll_hands_out_buffered_events() {
    let mut node = started_node("n1");
    let sub = node.subscribe_events();
    node.record_packet_received("aa".repeat(16), vec![9]);
    match node.next_event(&sub, 250) {
        Some(NodeEvent::PacketReceived { bytes, .. }) => assert_eq!(bytes, vec![9]),
        other => panic!("unexpected event: {other:?}"),
    }
}

#[test]
fn send_to_invalid_hex_emits_nothing() {
    let mut node = started_node("n1");
    let sub = node.subscribe_events();
    match node.begin_send("zz") {
        Err(e) => assert_eq!(node_error_code(&e), "InvalidConfig"),
        Ok(_) => panic!("bad hex must fail"),
    }
    assert!(node.next_event(&sub, 0).is_none());
}

#[test]
fn connect_intent_reports_connecting_then_connected() {
    let hex = "aa".repeat(16);
    let mut node = started_node("n1");
    let sub = node.subscribe_events();
    node.connect_peer(hex.clone()).unwrap();
    match node.next_event(&sub, 0) {
        Some(NodeEvent::PeerChanged { change }) => {
            assert_eq!(change.destination_hex, hex);
            assert_eq!(change.state, PeerState::Connecting {});
        }
        other => panic!("unexpected event: {other:?}"),
    }
    match node.next_event(&sub, 0) {
        Some(NodeEvent::PeerChanged { change }) => {
            assert_eq!(change.destination_hex, hex);
            assert_eq!(change.state, PeerState::Connected {});
        }
        other => panic!("unexpected event: {other:?}"),
    }
    node.disconnect_peer(hex.clone()).unwrap();
    match node.next_event(&sub, 0) {
        Some(NodeEvent::PeerChanged { change }) => {
            assert_eq!(change.destination_hex, hex);
            assert_eq!(change.state, PeerState::Disconnected {});
        }
        other => panic!("unexpected event: {other:?}"),
    }
}

#[test]
fn connect_bad_hex_reports_disconnected_with_error() {
    let mut node = started_node("n1");
    let sub = node.subscribe_events();
    match node.connect_peer("zz".to_string()) {
        Err(e) => assert_eq!(node_error_code(&e), "InvalidConfig"),
        Ok(_) => panic!("bad hex must fail"),
    }
    match node.next_event(&sub, 0) {
        Some(NodeEvent::PeerChanged { change }) => {
            assert_eq!(change.destination_hex, "zz");
            assert_eq!(change.state, PeerState::Disconnected {});
            assert_eq!(change.last_error, Some("invalid config".to_string()));
        }
        other => panic!("unexpected event: {other:?}"),
    }
}

#[test]
fn commands_without_a_session_are_not_running() {
    let mut node = Node::new();
    assert_eq!(node_error_code(&node.connect_peer("aa".repeat(16)).unwrap_err()), "NotRunning");
    assert_eq!(node_error_code(&node.begin_send("aa").unwrap_err()), "NotRunning");
    assert_eq!(
        node_error_code(&node.set_announce_capabilities("x".to_string()).unwrap_err()),
        "NotRunning"
    );
    assert_eq!(node_error_code(&node.refresh_hub_path().unwrap_err()), "NotRunning");
}

#[test]
fn capabilities_update_reissues_the_announce_payload() {
    let mut node = started_node("n1");
    let fresh = node.set_announce_capabilities("ALPHA".to_string()).unwrap();
    assert_eq!(fresh, b"ALPHA".to_vec());
    assert_eq!(node.announce_payload().unwrap(), b"ALPHA".to_vec());
}

#[test]
fn finish_send_emits_exactly_one_packet_sent() {
    let hex = "bb".repeat(16);
    let bytes = vec![1u8, 2, 3];
    let mut node = started_node("n1");
    let sub = node.subscribe_events();
    node.finish_send(hex.clone(), bytes.clone(), SendOutcome::SentDirect {}).unwrap();
    match node.next_event(&sub, 0) {
        Some(NodeEvent::PacketSent { destination_hex, bytes: sent, outcome }) => {
            assert_eq!(destination_hex, hex);
            assert_eq!(sent, bytes);
            assert_eq!(outcome, SendOutcome::SentDirect {});
        }
        other => panic!("unexpected event: {other:?}"),
    }
    assert!(node.next_event(&sub, 0).is_none());
}

#[test]
fn dropped_send_is_a_network_error_and_still_reported() {
    let hex = "bb".repeat(16);
    let mut node = started_node("n1");
    let sub = node.subscribe_events();
    let result = node.finish_send(hex.clone(), Vec::new(), SendOutcome::DroppedNoRoute {});
    assert_eq!(node_error_code(&result.unwrap_err()), "NetworkError");
    match node.next_event(&sub, 0) {
        Some(NodeEvent::PacketSent { outcome, .. }) => {
            assert_eq!(outcome, SendOutcome::DroppedNoRoute {})
        }
        other => panic!("unexpected event: {other:?}"),
    }
}

#[test]
fn broadcast_targets_are_the_connected_peers() {
    let mut node = started_node("n1");
    node.connect_peer("aa".repeat(16)).unwrap();
    node.connect_peer("bb".repeat(16)).unwrap();
    node.connect_peer("aa".repeat(16)).unwrap();
    let targets = node.broadcast_targets().unwrap();
    assert_eq!(targets, vec!["aa".repeat(16), "bb".repeat(16)]);
    node.disconnect_peer("aa".repeat(16)).unwrap();
    assert_eq!(node.broadcast_targets().unwrap(), vec!["bb".repeat(16)]);
}

#[test]
fn broadcast_reply_needs_one_success() {
    let node = started_node("n1");
    assert_eq!(node_error_code(&node.broadcast_reply(&Vec::new()).unwrap_err()), "NetworkError");
    let all_dropped = vec![SendOutcome::DroppedNoRoute {}, SendOutcome::DroppedEncryptFailed {}];
    assert_eq!(node_error_code(&node.broadcast_reply(&all_dropped).unwrap_err()), "NetworkError");
    let one_sent = vec![SendOutcome::DroppedNoRoute {}, SendOutcome::SentBroadcast {}];
    assert!(node.broadcast_reply(&one_sent).is_ok());
}

#[test]
fn path_retry_only_for_missing_routes() {
    assert_eq!(path_retry_step(SendOutcome::SentDirect {}), RetryStep::Done {});
    assert_eq!(path_retry_step(SendOutcome::SentBroadcast {}), RetryStep::Done {});
    assert_eq!(
        path_retry_step(SendOutcome::DroppedNoRoute {}),
        RetryStep::RetryAfterPathRequest {}
    );
    assert_eq!(
        path_retry_step(SendOutcome::DroppedMissingDestinationIdentity {}),
        RetryStep::RetryAfterPathRequest {}
    );
    assert_eq!(path_retry_step(SendOutcome::DroppedCiphertextTooLarge {}), RetryStep::Done {});
    assert_eq!(path_retry_step(SendOutcome::DroppedEncryptFailed {}), RetryStep::Done {});
}

#[test]
fn disabled_hub_refresh_is_invalid_config() {
    let node = started_node("n1");
    match node.refresh_hub_path() {
        Err(e) => assert_eq!(node_error_code(&e), "InvalidConfig"),
        Ok(_) => panic!("disabled hub must fail"),
    }
}

#[test]
fn hub_paths_follow_the_mode() {
    let mut config = test_config("n1");
    config.hub_mode = HubMode::RchHttp {};
    let mut node = Node::new();
    node.start(config, None).unwrap();
    assert_eq!(node.refresh_hub_path().unwrap(), HubPath::Http {});
    node.stop().unwrap();
    let mut config = test_config("n1");
    config.hub_mode = HubMode::RchLxmf {};
    node.start(config, None).unwrap();
    assert_eq!(node.refresh_hub_path().unwrap(), HubPath::Lxmf {});
}

#[test]
fn subscribers_see_only_later_events_in_order() {
    let mut node = started_node("n1");
    let first = node.subscribe_events();
    node.record_packet_received("aa".repeat(16), vec![1]);
    let second = node.subscribe_events();
    node.record_packet_received("bb".repeat(16), vec![2]);
    match node.next_event(&first, 0) {
        Some(NodeEvent::PacketReceived { destination_hex, .. }) => {
            assert_eq!(destination_hex, "aa".repeat(16))
        }
        other => panic!("unexpected event: {other:?}"),
    }
    match node.next_event(&first, 0) {
        Some(NodeEvent::PacketReceived { destination_hex, .. }) => {
            assert_eq!(destination_hex, "bb".repeat(16))
        }
        other => panic!("unexpected event: {other:?}"),
    }
    match node.next_event(&second, 0) {
        Some(NodeEvent::PacketReceived { destination_hex, .. }) => {
            assert_eq!(destination_hex, "bb".repeat(16))
        }
        other => panic!("unexpected event: {other:?}"),
    }
    assert!(node.next_event(&second, 0).is_none());
}

#[test]
fn zero_timeout_poll_never_blocks_and_closed_cursors_stay_silent() {
    let mut node = started_node("n1");
    let mut sub = node.subscribe_events();
    assert!(node.next_event(&sub, 0).is_none());
    node.record_packet_received("aa".repeat(16), vec![1]);
    node.close_subscription(&mut sub);
    assert!(node.next_event(&sub, 0).is_none());
}

#[test]
fn link_events_update_peer_state() {
    let hex = "cc".repeat(16);
    let mut node = started_node("n1");
    let sub = node.subscribe_events();
    node.record_link_event(hex.clone(), LinkEventKind::Activated {});
    node.record_link_event(hex.clone(), LinkEventKind::Data {});
    node.record_link_event(hex.clone(), LinkEventKind::Closed {});
    match node.next_event(&sub, 0) {
        Some(NodeEvent::PeerChanged { change }) => {
            assert_eq!(change.state, PeerState::Connected {})
        }
        other => panic!("unexpected event: {other:?}"),
    }
    match node.next_event(&sub, 0) {
        Some(NodeEvent::PeerChanged { change }) => {
            assert_eq!(change.state, PeerState::Disconnected {})
        }
        other => panic!("unexpected event: {other:?}"),
    }
    assert!(node.next_event(&sub, 0).is_none());
}

#[test]
fn announces_are_recorded_and_cached() {
    let hex = "dd".repeat(16);
    let mut node = started_node("n1");
    let sub = node.subscribe_events();
    assert!(!node.knows_destination(&hex).unwrap());
    node.record_announce(hex.clone(), b"hello".to_vec(), 3, vec![0xab, 0xcd], 42);
    assert!(node.knows_destination(&hex).unwrap());
    match node.next_event(&sub, 0) {
        Some(NodeEvent::AnnounceReceived {
            destination_hex,
            app_data,
            hops,
            interface_hex,
            received_at_ms,
        }) => {
            assert_eq!(destination_hex, hex);
            assert_eq!(app_data, "hello");
            assert_eq!(hops, 3);
            assert_eq!(interface_hex, "abcd");
            assert_eq!(received_at_ms, 42);
        }
        other => panic!("unexpected event: {other:?}"),
    }
}

#[test]
fn non_text_announce_payload_falls_back_to_hex() {
    let mut node = started_node("n1");
    let sub = node.subscribe_events();
    node.record_announce("dd".repeat(16), vec![0xff, 0xfe], 0, Vec::new(), 0);
    match node.next_event(&sub, 0) {
        Some(NodeEvent::AnnounceReceived { app_data, interface_hex, .. }) => {
            assert_eq!(app_data, "fffe");
            assert_eq!(interface_hex, "");
        }
        other => panic!("unexpected event: {other:?}"),
    }
}

#[test]
fn log_records_respect_the_filter() {
    let mut node = started_node("n1");
    let sub = node.subscribe_events();
    node.set_log_level(LogLevel::Warn {});
    assert!(!node.log_record(LogLevel::Info {}, "quiet".to_string()));
    assert!(node.log_record(LogLevel::Error {}, "loud".to_string()));
    match node.next_event(&sub, 0) {
        Some(NodeEvent::Log { level, message }) => {
            assert_eq!(level, LogLevel::Error {});
            assert_eq!(message, "loud");
        }
        other => panic!("unexpected event: {other:?}"),
    }
    assert!(node.next_event(&sub, 0).is_none());
}

#[test]
fn tracked_links_are_created_once() {
    let hex = "ee".repeat(16);
    let mut node = started_node("n1");
    assert!(node.track_link(hex.clone()).unwrap());
    assert!(!node.track_link(hex.clone()).unwrap());
    let evicted = node.disconnect_peer(hex.clone()).unwrap();
    assert_eq!(evicted.map(|a| a.to_hex_string()), Some(hex.clone()));
    assert!(node.disconnect_peer(hex.clone()).unwrap().is_none());
    assert!(node.track_link(hex).unwrap());
}

#[test]
fn startup_endpoints_skip_blank_entries() {
    let mut config = test_config("n1");
    config.tcp_clients = vec!["".to_string(), " x:1 ".to_string()];
    let mut node = Node::new();
    node.start(config, None).unwrap();
    assert_eq!(node.startup_endpoints().unwrap(), vec!["x:1".to_string()]);
}
