use reticulum_mobile::HubMode;
use reticulum_mobile::HubReplyParts;
use reticulum_mobile::LogLevel;
use reticulum_mobile::NodeConfig;
use reticulum_mobile::NodeError;
use reticulum_mobile::NodeEvent;
use reticulum_mobile::PeerChange;
use reticulum_mobile::PeerState;
use reticulum_mobile::SendOutcome;
use reticulum_mobile::auth_headers;
use reticulum_mobile::base64_encode;
use reticulum_mobile::event_to_wire_json;
use reticulum_mobile::fold_hub_reply;
use reticulum_mobile::hub_http_plan;
use reticulum_mobile::hub_lxmf_target;
use reticulum_mobile::hub_reply_destinations;
use reticulum_mobile::hub_request_content;
use reticulum_mobile::hub_request_title;
use reticulum_mobile::hub_submit_check;
use reticulum_mobile::lxmf_parse_reply;
use reticulum_mobile::lxmf_request_wire;
use reticulum_mobile::status_to_json;

fn hub_config() -> NodeConfig {
    NodeConfig {
        name: "n1".to_string(),
        storage_dir: None,
        tcp_clients: Vec::new(),
        broadcast: true,
        announce_interval_seconds: 1,
        announce_capabilities: "caps".to_string(),
        hub_mode: HubMode::RchHttp {},
        hub_identity_hash: None,
        hub_api_base_url: Some("http://h/".to_string()),
        hub_api_key: None,
        hub_refresh_interval_seconds: 1,
    }
}

#[test]
fn http_plan_composes_the_client_url() {
    let plan = hub_http_plan(&hub_config()).unwrap();
    assert_eq!(plan.url, "http://h/Client");
    assert_eq!(plan.api_key, None);
}

#[test]
fn http_refresh_without_key_sends_no_auth_headers() {
    let plan = hub_http_plan(&hub_config()).unwrap();
    assert!(auth_headers(&plan).is_empty());
    let mut config = hub_config();
    config.hub_api_key = Some("  ".to_string());
    config.hub_api_key = reticulum_mobile::parse_node_config(reticulum_mobile::NodeConfigInput {
        name: None,
        storage_dir: None,
        tcp_clients: None,
        broadcast: None,
        announce_interval_seconds: None,
        announce_capabilities: None,
        hub_mode: None,
        hub_identity_hash: None,
        hub_api_base_url: None,
        hub_api_key: Some("  ".to_string()),
        hub_refresh_interval_seconds: None,
    }).hub_api_key;
    assert_eq!(config.hub_api_key, None);
    assert!(auth_headers(&hub_http_plan(&config).unwrap()).is_empty());
}

#[test]
fn http_refresh_with_key_sends_both_headers() {
    let mut config = hub_config();
    config.hub_api_key = Some(" SECRET-REDACTED ".to_string());
    let plan = hub_http_plan(&config).unwrap();
    let headers = auth_headers(&plan);
    assert_eq!(headers.len(), 2);
    assert_eq!(headers[0], ("X-API-Key".to_string(), "SECRET-REDACTED".to_string()));
    assert_eq!(
        headers[1],
        ("Authorization".to_string(), "Bearer SECRET-REDACTED".to_string())
    );
}

#[test]
fn http_plan_needs_a_base_url() {
    let mut config = hub_config();
    config.hub_api_base_url = None;
    assert!(matches!(hub_http_plan(&config), Err(NodeError::InvalidConfig {})));
    config.hub_api_base_url = Some("   ".to_string());
    assert!(matches!(hub_http_plan(&config), Err(NodeError::InvalidConfig {})));
}

#[test]
fn lxmf_target_requires_the_hub_hash() {
    let mut config = hub_config();
    assert!(matches!(hub_lxmf_target(&config), Err(NodeError::InvalidConfig {})));
    config.hub_identity_hash = Some("zz".to_string());
    assert!(matches!(hub_lxmf_target(&config), Err(NodeError::InvalidConfig {})));
    config.hub_identity_hash = Some("AB".repeat(16));
    assert_eq!(hub_lxmf_target(&config).unwrap().to_hex_string(), "ab".repeat(16));
}

#[test]
fn hub_request_bytes_are_exact() {
    assert_eq!(hub_request_title(), "ListClients");
    assert_eq!(hub_request_content(), b"\\{\"Command\":\"ListClients\"}".to_vec());
}

#[test]
fn submit_outcomes_map_to_network_errors() {
    assert!(hub_submit_check(SendOutcome::SentDirect {}).is_ok());
    assert!(hub_submit_check(SendOutcome::SentBroadcast {}).is_ok());
    assert!(matches!(
        hub_submit_check(SendOutcome::DroppedNoRoute {}),
        Err(NodeError::NetworkError {})
    ));
}

#[test]
fn reply_folding_joins_title_content_and_fields() {
    let parts = HubReplyParts {
        title: b"T".to_vec(),
        content: b"C".to_vec(),
        fields_debug: Some("F".to_string()),
    };
    assert_eq!(fold_hub_reply(&parts), "T\nC\nF");
    let bare = HubReplyParts { title: Vec::new(), content: b"C".to_vec(), fields_debug: None };
    assert_eq!(fold_hub_reply(&bare), "C\n");
    let empty = HubReplyParts { title: Vec::new(), content: Vec::new(), fields_debug: None };
    assert_eq!(fold_hub_reply(&empty), "");
}

#[test]
fn replies_from_other_addresses_are_ignored() {
    let hub = "ab".repeat(16);
    let other = "cd".repeat(16);
    let parts = HubReplyParts {
        title: Vec::new(),
        content: format!("[{}]", "12".repeat(16)).into_bytes(),
        fields_debug: None,
    };
    assert!(hub_reply_destinations(&hub, &other, &parts).is_none());
    let found = hub_reply_destinations(&hub, &hub, &parts).unwrap();
    assert_eq!(found, vec!["12".repeat(16)]);
}

#[test]
fn empty_replies_keep_the_wait_going() {
    let hub = "ab".repeat(16);
    let parts = HubReplyParts {
        title: b"nothing to see".to_vec(),
        content: Vec::new(),
        fields_debug: None,
    };
    assert!(hub_reply_destinations(&hub, &hub, &parts).is_none());
}

#[test]
fn hub_request_wire_roundtrips_through_the_message_layer() {
    let identity = rns_core::identity::PrivateIdentity::new_from_name("hub-test");
    let source = vec![1u8; 16];
    let destination = vec![2u8; 16];
    let content = hub_request_content();
    let wire = lxmf_request_wire(&source, &destination, hub_request_title(), &content, &identity)
        .unwrap();
    let parts = lxmf_parse_reply(&wire).unwrap();
    assert_eq!(parts.title, b"ListClients".to_vec());
    assert_eq!(parts.content, content);
    assert!(lxmf_parse_reply(&vec![0u8, 1, 2]).is_none());
}

#[test]
fn base64_encoding_is_the_standard_alphabet() {
    assert_eq!(base64_encode(&Vec::new()), "");
    assert_eq!(base64_encode(&vec![1u8, 2, 3]), "AQID");
    assert_eq!(base64_encode(&vec![0xffu8, 0xee, 0x11]), "/+4R");
    assert_eq!(base64_encode(&vec![0u8]), "AA==");
    assert_eq!(base64_encode(&vec![0u8, 0]), "AAA=");
}

#[test]
fn base64_payloads_decode_exactly_the_canonical_texts() {
    assert_eq!(reticulum_mobile::parse_base64_payload("AQID").unwrap(), vec![1u8, 2, 3]);
    assert_eq!(reticulum_mobile::parse_base64_payload("").unwrap(), Vec::<u8>::new());
    assert_eq!(reticulum_mobile::parse_base64_payload("AA==").unwrap(), vec![0u8]);
    assert!(matches!(
        reticulum_mobile::parse_base64_payload("!!"),
        Err(NodeError::InvalidConfig {})
    ));
    assert!(matches!(
        reticulum_mobile::parse_base64_payload("AB"),
        Err(NodeError::InvalidConfig {})
    ));
}

#[test]
fn status_json_is_exact() {
    let status = reticulum_mobile::NodeStatus {
        running: true,
        name: "n\"1".to_string(),
        identity_hex: "aa".to_string(),
        app_destination_hex: "bb".to_string(),
        lxmf_destination_hex: "cc".to_string(),
    };
    assert_eq!(
        status_to_json(&status),
        "{\"appDestinationHex\":\"bb\",\"identityHex\":\"aa\",\"lxmfDestinationHex\":\"cc\",\
         \"name\":\"n\\\"1\",\"running\":true}"
    );
}

#[test]
fn wire_json_log_event_is_exact() {
    let event = NodeEvent::Log { level: LogLevel::Info {}, message: "hi".to_string() };
    assert_eq!(
        event_to_wire_json(&event),
        "{\"event\":\"log\",\"payload\":{\"level\":\"Info\",\"message\":\"hi\"}}"
    );
}

#[test]
fn wire_json_escapes_like_the_json_standard() {
    let event = NodeEvent::Error {
        code: "E".to_string(),
        message: "a\"b\\c\nd\te\r\u{8}\u{c}\u{1}f".to_string(),
    };
    let text = event_to_wire_json(&event);
    let expected = "{\"event\":\"error\",\"payload\":{\"code\":\"E\",\"message\":\
                    \"a\\\"b\\\\c\\nd\\te\\r\\b\\f\\u0001f\"}}";
    assert_eq!(text, expected);
    let parsed: serde_json::Value = serde_json::from_str(&text).unwrap();
    assert_eq!(
        parsed["payload"]["message"],
        serde_json::Value::String("a\"b\\c\nd\te\r\u{8}\u{c}\u{1}f".to_string())
    );
}

#[test]
fn wire_json_matches_a_json_library_rendering() {
    let event = NodeEvent::PacketSent {
        destination_hex: "ab".repeat(16),
        bytes: vec![1u8, 2, 3],
        outcome: SendOutcome::SentDirect {},
    };
    let text = event_to_wire_json(&event);
    assert_eq!(
        text,
        format!(
            "{{\"event\":\"packetSent\",\"payload\":{{\"bytesBase64\":\"AQID\",\
             \"destinationHex\":\"{}\",\"outcome\":\"SentDirect\"}}}}",
            "ab".repeat(16)
        )
    );
    let parsed: serde_json::Value = serde_json::from_str(&text).unwrap();
    assert_eq!(parsed["event"], serde_json::Value::String("packetSent".to_string()));
    assert_eq!(
        parsed["payload"]["bytesBase64"],
        serde_json::Value::String("AQID".to_string())
    );
}

#[test]
fn wire_json_announce_and_peer_events() {
    let announce = NodeEvent::AnnounceReceived {
        destination_hex: "dd".repeat(16),
        app_data: "caps".to_string(),
        hops: 3,
        interface_hex: "abcd".to_string(),
        received_at_ms: 12345,
    };
    assert_eq!(
        event_to_wire_json(&announce),
        format!(
            "{{\"event\":\"announceReceived\",\"payload\":{{\"appData\":\"caps\",\
             \"destinationHex\":\"{}\",\"hops\":3,\"interfaceHex\":\"abcd\",\
             \"receivedAtMs\":12345}}}}",
            "dd".repeat(16)
        )
    );
    let peer = NodeEvent::PeerChanged {
        change: PeerChange {
            destination_hex: "ee".repeat(16),
            state: PeerState::Connecting {},
            last_error: None,
        },
    };
    assert_eq!(
        event_to_wire_json(&peer),
        format!(
            "{{\"event\":\"peerChanged\",\"payload\":{{\"change\":{{\"destinationHex\":\"{}\",\
             \"lastError\":null,\"state\":\"Connecting\"}}}}}}",
            "ee".repeat(16)
        )
    );
}

#[test]
fn wire_json_hub_directory_event() {
    let event = NodeEvent::HubDirectoryUpdated {
        destinations: vec!["aa".repeat(16), "bb".repeat(16)],
        received_at_ms: 7,
    };
    assert_eq!(
        event_to_wire_json(&event),
        format!(
            "{{\"event\":\"hubDirectoryUpdated\",\"payload\":{{\"destinations\":\
             [\"{}\",\"{}\"],\"receivedAtMs\":7}}}}",
            "aa".repeat(16),
            "bb".repeat(16)
        )
    );
    let empty = NodeEvent::HubDirectoryUpdated { destinations: Vec::new(), received_at_ms: 7 };
    assert_eq!(
        event_to_wire_json(&empty),
        "{\"event\":\"hubDirectoryUpdated\",\"payload\":{\"destinations\":[],\"receivedAtMs\":7}}"
    );
}

#[test]
fn wire_json_status_event_round_trips_through_a_parser() {
    let mut node = reticulum_mobile::Node::new();
    node.start(
        NodeConfig { hub_mode: HubMode::Disabled {}, ..hub_config() },
        None,
    )
    .unwrap();
    let sub = node.subscribe_events();
    node.mark_running();
    let event = node.next_event(&sub, 0).unwrap();
    let text = event_to_wire_json(&event);
    let parsed: serde_json::Value = serde_json::from_str(&text).unwrap();
    assert_eq!(parsed["event"], serde_json::Value::String("statusChanged".to_string()));
    assert_eq!(parsed["payload"]["status"]["running"], serde_json::Value::Bool(true));
    assert_eq!(
        parsed["payload"]["status"]["name"],
        serde_json::Value::String("n1".to_string())
    );
}

#[test]
fn hub_http_extraction_updates_the_directory() {
    let body = "[ 0123456789abcdef0123456789abcdef , deadbeefdeadbeefdeadbeefdeadbeef ]";
    let destinations = reticulum_mobile::extract_hex_destinations(body);
    let mut node = reticulum_mobile::Node::new();
    node.start(hub_config(), None).unwrap();
    let sub = node.subscribe_events();
    node.finish_hub_refresh(destinations, 99);
    match node.next_event(&sub, 0) {
        Some(NodeEvent::HubDirectoryUpdated { destinations, received_at_ms }) => {
            assert_eq!(
                destinations,
                vec![
                    "0123456789abcdef0123456789abcdef".to_string(),
                    "deadbeefdeadbeefdeadbeefdeadbeef".to_string(),
                ]
            );
            assert_eq!(received_at_ms, 99);
        }
        other => panic!("unexpected event: {other:?}"),
    }
}
