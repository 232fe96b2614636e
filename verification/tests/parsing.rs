use reticulum_mobile::HubMode;
use reticulum_mobile::LogLevel;
use reticulum_mobile::NodeConfigInput;
use reticulum_mobile::NodeError;
use reticulum_mobile::extract_hex_destinations;
use reticulum_mobile::hex_encode;
use reticulum_mobile::identity_path;
use reticulum_mobile::join_url;
use reticulum_mobile::normalize_hex_32;
use reticulum_mobile::parse_address_hash;
use reticulum_mobile::parse_hub_mode;
use reticulum_mobile::parse_identity_file;
use reticulum_mobile::parse_log_level;
use reticulum_mobile::parse_node_config;
use reticulum_mobile::ratchet_path;
use reticulum_mobile::u64_to_string;

const HEX_A: &str = "aaaaaaaaaaaaaaaaaaaaaaaaaaaaaaaa";

#[test]
fn address_accepts_exactly_32_hex_digits() {
    let parsed = parse_address_hash(HEX_A).unwrap();
    assert_eq!(parsed.to_hex_string(), HEX_A);
    assert!(parse_address_hash(&HEX_A[..31]).is_err());
    assert!(parse_address_hash(&format!("{HEX_A}a")).is_err());
    assert!(parse_address_hash("").is_err());
    assert!(parse_address_hash("zz").is_err());
    let with_bad = format!("{}g", &HEX_A[..31]);
    assert!(parse_address_hash(&with_bad).is_err());
}

#[test]
fn address_is_trimmed_and_lowercased() {
    let parsed = parse_address_hash("  0123456789ABCDEF0123456789abcdef\n").unwrap();
    assert_eq!(parsed.to_hex_string(), "0123456789abcdef0123456789abcdef");
    assert_eq!(
        normalize_hex_32("\t0123456789ABCDEF0123456789ABCDEF "),
        Some("0123456789abcdef0123456789abcdef".to_string())
    );
    assert_eq!(normalize_hex_32(" 0123 "), None);
}

#[test]
fn whitespace_beyond_ascii_is_trimmed() {
    assert_eq!(parse_hub_mode(Some("rchhttp\u{a0}")), HubMode::RchHttp {});
    assert_eq!(parse_hub_mode(Some("\u{2003}RCH_LXMF\u{3000}")), HubMode::RchLxmf {});
    assert_eq!(parse_log_level(Some("\u{85}error\u{85}")), LogLevel::Error {});
    let padded = format!("{}{}{}", '\u{3000}', "AB".repeat(16), '\u{a0}');
    let parsed = parse_address_hash(&padded).unwrap();
    assert_eq!(parsed.to_hex_string(), "ab".repeat(16));
    assert_eq!(join_url("\u{2009}http://h\u{2009}", "/x").unwrap(), "http://h/x");
    assert!(matches!(join_url("\u{a0}\u{a0}", "/x"), Err(NodeError::InvalidConfig {})));
    let mut input = empty_input();
    input.tcp_clients = Some(vec!["\u{2003}".to_string(), " \u{3000} a:1 ".to_string()]);
    input.hub_api_key = Some("\u{a0}".to_string());
    let config = parse_node_config(input);
    assert_eq!(config.tcp_clients, vec!["a:1".to_string()]);
    assert_eq!(config.hub_api_key, None);
}

#[test]
fn address_parse_error_is_invalid_config() {
    match parse_address_hash("zz") {
        Err(NodeError::InvalidConfig {}) => {}
        other => panic!("unexpected result: {other:?}"),
    }
}

#[test]
fn address_bytes_match_hex_crate() {
    let parsed = parse_address_hash("0123456789abcdef0123456789ABCDEF").unwrap();
    let bytes = parsed.bytes();
    assert_eq!(hex::encode(&bytes), "0123456789abcdef0123456789abcdef");
    assert_eq!(bytes.len(), 16);
}

#[test]
fn hex_encode_matches_hex_crate() {
    let data = vec![0u8, 1, 15, 16, 127, 128, 255];
    assert_eq!(hex_encode(&data), hex::encode(&data));
    assert_eq!(hex_encode(&Vec::new()), "");
}

fn reference_extract(text: &str) -> Vec<String> {
    let re = regex::Regex::new(r"(?i)(?:^|[^0-9a-f])([0-9a-f]{32})(?:$|[^0-9a-f])").unwrap();
    let mut seen = std::collections::HashSet::new();
    let mut out = Vec::new();
    for caps in re.captures_iter(text) {
        if let Some(m) = caps.get(1) {
            let value = m.as_str().to_ascii_lowercase();
            if seen.insert(value.clone()) {
                out.push(value);
            }
        }
    }
    out
}

#[test]
fn extract_finds_hub_body_destinations_in_order() {
    let body = "[ 0123456789abcdef0123456789abcdef , deadbeefdeadbeefdeadbeefdeadbeef ]";
    assert_eq!(
        extract_hex_destinations(body),
        vec![
            "0123456789abcdef0123456789abcdef".to_string(),
            "deadbeefdeadbeefdeadbeefdeadbeef".to_string(),
        ]
    );
}

#[test]
fn extract_deduplicates_and_lowercases() {
    let h = "0123456789ABCDEF0123456789abcdef";
    let text = format!("x {h} y {h} z 0123456789abcdef0123456789abcdef w");
    assert_eq!(
        extract_hex_destinations(&text),
        vec!["0123456789abcdef0123456789abcdef".to_string()]
    );
}

#[test]
fn extract_ignores_longer_and_shorter_runs() {
    assert_eq!(extract_hex_destinations(&"a".repeat(64)), Vec::<String>::new());
    assert_eq!(extract_hex_destinations(&"a".repeat(33)), Vec::<String>::new());
    assert_eq!(extract_hex_destinations(&"a".repeat(31)), Vec::<String>::new());
    assert_eq!(extract_hex_destinations(&"a".repeat(32)), vec!["a".repeat(32)]);
}

#[test]
fn extract_matches_the_reference_scan() {
    let h1 = "0123456789abcdef0123456789abcdef";
    let h2 = "DEADBEEFDEADBEEFDEADBEEFDEADBEEF";
    let texts = vec![
        format!("{h1}"),
        format!("{h1},{h2}"),
        format!("{h1}, {h2}"),
        format!(" {h1} {h2} {h1}"),
        format!("x{h1}y{h2}z"),
        format!("{h1}{h2}"),
        "nothing here".to_string(),
        format!("{h1}0"),
        format!("0{h1}"),
        format!("«{h1}» et «{h2}»"),
    ];
    for text in texts {
        assert_eq!(extract_hex_destinations(&text), reference_extract(&text), "text: {text}");
    }
}

#[test]
fn join_url_keeps_exactly_one_slash() {
    assert_eq!(join_url("http://h/", "/Client").unwrap(), "http://h/Client");
    assert_eq!(join_url("http://h", "Client").unwrap(), "http://h/Client");
    assert_eq!(join_url(" http://h// ", "//x/y").unwrap(), "http://h/x/y");
    assert_eq!(join_url("http://h", "").unwrap(), "http://h/");
}

#[test]
fn join_url_rejects_blank_base() {
    match join_url("   ", "/Client") {
        Err(NodeError::InvalidConfig {}) => {}
        other => panic!("unexpected result: {other:?}"),
    }
}

#[test]
fn decimal_rendering_is_exact() {
    assert_eq!(u64_to_string(0), "0");
    assert_eq!(u64_to_string(7), "7");
    assert_eq!(u64_to_string(10), "10");
    assert_eq!(u64_to_string(1234567890123), "1234567890123");
    assert_eq!(u64_to_string(u64::MAX), "18446744073709551615");
}

fn empty_input() -> NodeConfigInput {
    NodeConfigInput {
        name: None,
        storage_dir: None,
        tcp_clients: None,
        broadcast: None,
        announce_interval_seconds: None,
        announce_capabilities: None,
        hub_mode: None,
        hub_identity_hash: None,
        hub_api_base_url: None,
        hub_api_key: None,
        hub_refresh_interval_seconds: None,
    }
}

#[test]
fn config_defaults_fill_in() {
    let config = parse_node_config(empty_input());
    assert_eq!(config.name, "emergency-ops-mobile");
    assert_eq!(config.storage_dir, None);
    assert!(config.tcp_clients.is_empty());
    assert!(config.broadcast);
    assert_eq!(config.announce_interval_seconds, 1800);
    assert_eq!(config.announce_capabilities, "R3AKT,EMergencyMessages");
    assert_eq!(config.hub_mode, HubMode::Disabled {});
    assert_eq!(config.hub_refresh_interval_seconds, 3600);
}

#[test]
fn config_zero_intervals_clamp_to_one() {
    let mut input = empty_input();
    input.announce_interval_seconds = Some(0);
    input.hub_refresh_interval_seconds = Some(0);
    let config = parse_node_config(input);
    assert_eq!(config.announce_interval_seconds, 1);
    assert_eq!(config.hub_refresh_interval_seconds, 1);
}

#[test]
fn config_blank_endpoints_are_skipped() {
    let mut input = empty_input();
    input.tcp_clients = Some(vec![
        "".to_string(),
        "  ".to_string(),
        " a:1 ".to_string(),
        "b:2".to_string(),
    ]);
    let config = parse_node_config(input);
    assert_eq!(config.tcp_clients, vec!["a:1".to_string(), "b:2".to_string()]);
}

#[test]
fn config_blank_optionals_collapse_to_absent() {
    let mut input = empty_input();
    input.storage_dir = Some("  ".to_string());
    input.hub_identity_hash = Some(" aa ".to_string());
    input.hub_api_base_url = Some("".to_string());
    input.hub_api_key = Some(" k ".to_string());
    let config = parse_node_config(input);
    assert_eq!(config.storage_dir, None);
    assert_eq!(config.hub_identity_hash, Some("aa".to_string()));
    assert_eq!(config.hub_api_base_url, None);
    assert_eq!(config.hub_api_key, Some("k".to_string()));
}

#[test]
fn hub_mode_parsing_is_case_insensitive_and_tolerant() {
    assert_eq!(parse_hub_mode(Some("RchLxmf")), HubMode::RchLxmf {});
    assert_eq!(parse_hub_mode(Some(" rch_lxmf ")), HubMode::RchLxmf {});
    assert_eq!(parse_hub_mode(Some("RCHHTTP")), HubMode::RchHttp {});
    assert_eq!(parse_hub_mode(Some("rch_http")), HubMode::RchHttp {});
    assert_eq!(parse_hub_mode(Some("anything")), HubMode::Disabled {});
    assert_eq!(parse_hub_mode(None), HubMode::Disabled {});
}

#[test]
fn log_level_parsing_is_case_insensitive_and_tolerant() {
    assert_eq!(parse_log_level(Some("TRACE")), LogLevel::Trace {});
    assert_eq!(parse_log_level(Some(" debug ")), LogLevel::Debug {});
    assert_eq!(parse_log_level(Some("warn")), LogLevel::Warn {});
    assert_eq!(parse_log_level(Some("Error")), LogLevel::Error {});
    assert_eq!(parse_log_level(Some("whatever")), LogLevel::Info {});
    assert_eq!(parse_log_level(None), LogLevel::Info {});
}

#[test]
fn storage_paths_are_joined_with_one_slash() {
    assert_eq!(identity_path("/tmp/x"), "/tmp/x/identity.hex");
    assert_eq!(identity_path("/tmp/x/"), "/tmp/x/identity.hex");
    assert_eq!(ratchet_path("/tmp/x"), "/tmp/x/ratchets.dat");
}

#[test]
fn identity_file_contents_are_validated() {
    let good = "ab".repeat(64);
    assert_eq!(parse_identity_file(&format!("  {good}\n")).unwrap(), good);
    assert!(matches!(parse_identity_file(&good[..126]), Err(NodeError::IoError {})));
    let bad = format!("{}zz", &good[..126]);
    assert!(matches!(parse_identity_file(&bad), Err(NodeError::IoError {})));
}
