//! Core of a mobile-embeddable node for a mesh-style packet network.
//!
//! Peers identify themselves by cryptographic identities and exchange
//! announces, path requests, link sessions and data packets.  This crate
//! holds the verified core: configuration parsing, address handling, the
//! event bus, the runtime state machine and the wire encoding of events.
//! The asynchronous host shell (transport drivers, timers, file and network
//! I/O) lives outside and drives this core through plain values.

use vstd::prelude::*;

mod address;
mod bus;
mod config;
mod hub;
mod identity;
mod node;
mod runtime;
mod scan;
mod strutil;
mod types;
mod urls;
mod wire;

pub use address::AddressHash;
pub use address::hex_encode;
pub use address::normalize_hex_32;
pub use address::parse_address_hash;
pub use bus::EventBus;
pub use bus::EventSubscription;
pub use config::NodeConfigInput;
pub use config::parse_hub_mode;
pub use config::parse_log_level;
pub use config::parse_node_config;
pub use hub::HttpPlan;
pub use hub::HubReplyParts;
pub use hub::auth_headers;
pub use hub::fold_hub_reply;
pub use hub::hub_http_plan;
pub use hub::hub_lxmf_target;
pub use hub::hub_reply_destinations;
pub use hub::hub_request_content;
pub use hub::hub_request_title;
pub use hub::hub_submit_check;
pub use hub::lxmf_parse_reply;
pub use hub::lxmf_request_wire;
pub use identity::derive_identity_hex;
pub use identity::destination_hex;
pub use identity::identity_hash_hex;
pub use identity::identity_path;
pub use identity::identity_storage_dir;
pub use identity::parse_identity_file;
pub use identity::ratchet_path;
pub use node::Node;
pub use runtime::Command;
pub use runtime::HubPath;
pub use runtime::LinkEventKind;
pub use runtime::MAX_SEND_ATTEMPTS;
pub use runtime::RESOLVE_TIMEOUT_MS;
pub use runtime::HUB_REPLY_TIMEOUT_MS;
pub use runtime::LINK_ACTIVE_TIMEOUT_MS;
pub use runtime::SEND_RETRY_DELAY_MS;
pub use runtime::WAIT_POLL_INTERVAL_MS;
pub use runtime::RetryStep;
pub use runtime::RuntimeCore;
pub use runtime::announce_text;
pub use runtime::link_event_update;
pub use runtime::path_retry_step;
pub use runtime::link_wait_step;
pub use runtime::resolve_wait_step;
pub use runtime::record_packet;
pub use scan::extract_hex_destinations;
pub use types::EventModel;
pub use types::HubMode;
pub use types::LogLevel;
pub use types::NodeConfig;
pub use types::NodeError;
pub use types::NodeEvent;
pub use types::NodeStatus;
pub use types::PeerChange;
pub use types::PeerState;
pub use types::SendOutcome;
pub use types::StatusModel;
pub use types::clone_event;
pub use types::clone_status;
pub use types::event_model;
pub use types::log_enabled;
pub use types::log_level_to_str;
pub use types::node_error_code;
pub use types::node_error_message;
pub use types::peer_state_to_str;
pub use types::send_outcome_to_str;
pub use types::status_model;
pub use urls::join_url;
pub use wire::base64_encode;
pub use wire::parse_base64_payload;
pub use wire::event_to_wire_json;
pub use wire::status_to_json;
pub use wire::u64_to_string;

verus! {

/// Fixed readiness probe for embedders: confirms the library is linked.
pub fn healthcheck() -> (r: String)
    ensures
        r@ == "reticulum-mobile-ready"@,
{
    let r = String::from_str("reticulum-mobile-ready");
    r
}

} // verus!
