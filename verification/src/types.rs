//! Value types of the node: configuration, status, events, outcomes and
//! errors, together with their stable string names.

use vstd::prelude::*;

verus! {

/// Severity of a log record, ordered from most to least verbose.
#[derive(Debug, Clone, Copy, PartialEq, Eq, Structural)]
pub enum LogLevel {
    Trace {},
    Debug {},
    Info {},
    Warn {},
    Error {},
}

/// How the hub-published directory of destinations is refreshed.
#[derive(Debug, Clone, Copy, PartialEq, Eq, Structural)]
pub enum HubMode {
    Disabled {},
    RchLxmf {},
    RchHttp {},
}

/// Lifecycle of a connect attempt towards a peer.
#[derive(Debug, Clone, Copy, PartialEq, Eq, Structural)]
pub enum PeerState {
    Connecting {},
    Connected {},
    Disconnected {},
}

/// What became of one submitted packet.
#[derive(Debug, Clone, Copy, PartialEq, Eq, Structural)]
pub enum SendOutcome {
    SentDirect {},
    SentBroadcast {},
    DroppedMissingDestinationIdentity {},
    DroppedCiphertextTooLarge {},
    DroppedEncryptFailed {},
    DroppedNoRoute {},
}

/// Error taxonomy of every host-facing operation.
#[derive(Debug, Clone, Copy, PartialEq, Eq, Structural)]
pub enum NodeError {
    InvalidConfig {},
    IoError {},
    NetworkError {},
    ReticulumError {},
    AlreadyRunning {},
    NotRunning {},
    Timeout {},
    InternalError {},
}

/// Immutable per-start configuration of the node.
#[derive(Debug, Clone)]
pub struct NodeConfig {
    pub name: String,
    pub storage_dir: Option<String>,
    pub tcp_clients: Vec<String>,
    pub broadcast: bool,
    pub announce_interval_seconds: u32,
    pub announce_capabilities: String,
    pub hub_mode: HubMode,
    pub hub_identity_hash: Option<String>,
    pub hub_api_base_url: Option<String>,
    pub hub_api_key: Option<String>,
    pub hub_refresh_interval_seconds: u32,
}

/// Snapshot of the node as hosts see it.
#[derive(Debug, Clone)]
pub struct NodeStatus {
    pub running: bool,
    pub name: String,
    pub identity_hex: String,
    pub app_destination_hex: String,
    pub lxmf_destination_hex: String,
}

/// One transition of a peer's connect lifecycle.
#[derive(Debug, Clone)]
pub struct PeerChange {
    pub destination_hex: String,
    pub state: PeerState,
    pub last_error: Option<String>,
}

/// Everything the node reports to its subscribers.
#[derive(Debug, Clone)]
pub enum NodeEvent {
    StatusChanged { status: NodeStatus },
    AnnounceReceived {
        destination_hex: String,
        app_data: String,
        hops: u8,
        interface_hex: String,
        received_at_ms: u64,
    },
    PeerChanged { change: PeerChange },
    PacketReceived { destination_hex: String, bytes: Vec<u8> },
    PacketSent {
        destination_hex: String,
        bytes: Vec<u8>,
        outcome: SendOutcome,
    },
    HubDirectoryUpdated {
        destinations: Vec<String>,
        received_at_ms: u64,
    },
    Log { level: LogLevel, message: String },
    Error { code: String, message: String },
}

/// Stable code of an error, as hosts receive it.
pub fn node_error_code(err: &NodeError) -> (r: &'static str)
    ensures
        r@ == spec_node_error_code(*err),
{
    match err {
        NodeError::InvalidConfig {} => "InvalidConfig",
        NodeError::IoError {} => "IoError",
        NodeError::NetworkError {} => "NetworkError",
        NodeError::ReticulumError {} => "ReticulumError",
        NodeError::AlreadyRunning {} => "AlreadyRunning",
        NodeError::NotRunning {} => "NotRunning",
        NodeError::Timeout {} => "Timeout",
        NodeError::InternalError {} => "InternalError",
    }
}

pub open spec fn spec_node_error_code(err: NodeError) -> Seq<char> {
    match err {
        NodeError::InvalidConfig {} => "InvalidConfig"@,
        NodeError::IoError {} => "IoError"@,
        NodeError::NetworkError {} => "NetworkError"@,
        NodeError::ReticulumError {} => "ReticulumError"@,
        NodeError::AlreadyRunning {} => "AlreadyRunning"@,
        NodeError::NotRunning {} => "NotRunning"@,
        NodeError::Timeout {} => "Timeout"@,
        NodeError::InternalError {} => "InternalError"@,
    }
}

/// Human-readable message of an error, as hosts receive it.
pub fn node_error_message(err: &NodeError) -> (r: &'static str)
    ensures
        r@ == spec_node_error_message(*err),
{
    match err {
        NodeError::InvalidConfig {} => "invalid config",
        NodeError::IoError {} => "io error",
        NodeError::NetworkError {} => "network error",
        NodeError::ReticulumError {} => "reticulum error",
        NodeError::AlreadyRunning {} => "already running",
        NodeError::NotRunning {} => "not running",
        NodeError::Timeout {} => "timeout",
        NodeError::InternalError {} => "internal error",
    }
}

pub open spec fn spec_node_error_message(err: NodeError) -> Seq<char> {
    match err {
        NodeError::InvalidConfig {} => "invalid config"@,
        NodeError::IoError {} => "io error"@,
        NodeError::NetworkError {} => "network error"@,
        NodeError::ReticulumError {} => "reticulum error"@,
        NodeError::AlreadyRunning {} => "already running"@,
        NodeError::NotRunning {} => "not running"@,
        NodeError::Timeout {} => "timeout"@,
        NodeError::InternalError {} => "internal error"@,
    }
}

/// Name of a peer state on the wire.
pub fn peer_state_to_str(state: PeerState) -> (r: &'static str)
    ensures
        r@ == spec_peer_state_str(state),
{
    match state {
        PeerState::Connecting {} => "Connecting",
        PeerState::Connected {} => "Connected",
        PeerState::Disconnected {} => "Disconnected",
    }
}

pub open spec fn spec_peer_state_str(state: PeerState) -> Seq<char> {
    match state {
        PeerState::Connecting {} => "Connecting"@,
        PeerState::Connected {} => "Connected"@,
        PeerState::Disconnected {} => "Disconnected"@,
    }
}

/// Name of a send outcome on the wire.
pub fn send_outcome_to_str(outcome: SendOutcome) -> (r: &'static str)
    ensures
        r@ == spec_send_outcome_str(outcome),
{
    match outcome {
        SendOutcome::SentDirect {} => "SentDirect",
        SendOutcome::SentBroadcast {} => "SentBroadcast",
        SendOutcome::DroppedMissingDestinationIdentity {} => "DroppedMissingDestinationIdentity",
        SendOutcome::DroppedCiphertextTooLarge {} => "DroppedCiphertextTooLarge",
        SendOutcome::DroppedEncryptFailed {} => "DroppedEncryptFailed",
        SendOutcome::DroppedNoRoute {} => "DroppedNoRoute",
    }
}

pub open spec fn spec_send_outcome_str(outcome: SendOutcome) -> Seq<char> {
    match outcome {
        SendOutcome::SentDirect {} => "SentDirect"@,
        SendOutcome::SentBroadcast {} => "SentBroadcast"@,
        SendOutcome::DroppedMissingDestinationIdentity {} => "DroppedMissingDestinationIdentity"@,
        SendOutcome::DroppedCiphertextTooLarge {} => "DroppedCiphertextTooLarge"@,
        SendOutcome::DroppedEncryptFailed {} => "DroppedEncryptFailed"@,
        SendOutcome::DroppedNoRoute {} => "DroppedNoRoute"@,
    }
}

/// Name of a log level on the wire.
pub fn log_level_to_str(level: LogLevel) -> (r: &'static str)
    ensures
        r@ == spec_log_level_str(level),
{
    match level {
        LogLevel::Trace {} => "Trace",
        LogLevel::Debug {} => "Debug",
        LogLevel::Info {} => "Info",
        LogLevel::Warn {} => "Warn",
        LogLevel::Error {} => "Error",
    }
}

pub open spec fn spec_log_level_str(level: LogLevel) -> Seq<char> {
    match level {
        LogLevel::Trace {} => "Trace"@,
        LogLevel::Debug {} => "Debug"@,
        LogLevel::Info {} => "Info"@,
        LogLevel::Warn {} => "Warn"@,
        LogLevel::Error {} => "Error"@,
    }
}

/// Verbosity rank of a level: greater admits more records.
pub fn log_level_rank(level: LogLevel) -> (r: u8)
    ensures
        r == spec_log_level_rank(level),
{
    match level {
        LogLevel::Error {} => 1,
        LogLevel::Warn {} => 2,
        LogLevel::Info {} => 3,
        LogLevel::Debug {} => 4,
        LogLevel::Trace {} => 5,
    }
}

pub open spec fn spec_log_level_rank(level: LogLevel) -> u8 {
    match level {
        LogLevel::Error {} => 1,
        LogLevel::Warn {} => 2,
        LogLevel::Info {} => 3,
        LogLevel::Debug {} => 4,
        LogLevel::Trace {} => 5,
    }
}

/// A record passes the filter when its level is at most as verbose as the
/// configured one.
pub fn log_enabled(filter: LogLevel, record: LogLevel) -> (r: bool)
    ensures
        r == (spec_log_level_rank(record) <= spec_log_level_rank(filter)),
{
    let fr = log_level_rank(filter);
    let rr = log_level_rank(record);
    rr <= fr
}

/// Ghost mirror of `NodeStatus`, over character sequences.
pub struct StatusModel {
    pub running: bool,
    pub name: Seq<char>,
    pub identity_hex: Seq<char>,
    pub app_destination_hex: Seq<char>,
    pub lxmf_destination_hex: Seq<char>,
}

/// Ghost mirror of `NodeEvent`: what an event holds, with text and bytes as
/// sequences, so that equal content means equal model.
pub enum EventModel {
    StatusChanged { status: StatusModel },
    AnnounceReceived {
        destination_hex: Seq<char>,
        app_data: Seq<char>,
        hops: u8,
        interface_hex: Seq<char>,
        received_at_ms: u64,
    },
    PeerChanged { destination_hex: Seq<char>, state: PeerState, last_error: Option<Seq<char>> },
    PacketReceived { destination_hex: Seq<char>, bytes: Seq<u8> },
    PacketSent { destination_hex: Seq<char>, bytes: Seq<u8>, outcome: SendOutcome },
    HubDirectoryUpdated { destinations: Seq<Seq<char>>, received_at_ms: u64 },
    Log { level: LogLevel, message: Seq<char> },
    Error { code: Seq<char>, message: Seq<char> },
}

/// The model of a status value.
pub open spec fn status_model(s: NodeStatus) -> StatusModel {
    StatusModel {
        running: s.running,
        name: s.name@,
        identity_hex: s.identity_hex@,
        app_destination_hex: s.app_destination_hex@,
        lxmf_destination_hex: s.lxmf_destination_hex@,
    }
}

/// The model of an event value.
pub open spec fn event_model(e: NodeEvent) -> EventModel {
    match e {
        NodeEvent::StatusChanged { status } => EventModel::StatusChanged {
            status: status_model(status),
        },
        NodeEvent::AnnounceReceived {
            destination_hex,
            app_data,
            hops,
            interface_hex,
            received_at_ms,
        } => EventModel::AnnounceReceived {
            destination_hex: destination_hex@,
            app_data: app_data@,
            hops,
            interface_hex: interface_hex@,
            received_at_ms,
        },
        NodeEvent::PeerChanged { change } => EventModel::PeerChanged {
            destination_hex: change.destination_hex@,
            state: change.state,
            last_error: match change.last_error {
                Some(m) => Some(m@),
                None => None,
            },
        },
        NodeEvent::PacketReceived { destination_hex, bytes } => EventModel::PacketReceived {
            destination_hex: destination_hex@,
            bytes: bytes@,
        },
        NodeEvent::PacketSent { destination_hex, bytes, outcome } => EventModel::PacketSent {
            destination_hex: destination_hex@,
            bytes: bytes@,
            outcome,
        },
        NodeEvent::HubDirectoryUpdated { destinations, received_at_ms } => (
        EventModel::HubDirectoryUpdated {
            destinations: destinations@.map_values(|s: String| s@),
            received_at_ms,
        }),
        NodeEvent::Log { level, message } => EventModel::Log { level, message: message@ },
        NodeEvent::Error { code, message } => EventModel::Error {
            code: code@,
            message: message@,
        },
    }
}

/// A structural copy of an event: the copy's model is the original's.
pub fn clone_event(e: &NodeEvent) -> (r: NodeEvent)
    ensures
        event_model(r) == event_model(*e),
{
    match e {
        NodeEvent::StatusChanged { status } => NodeEvent::StatusChanged {
            status: clone_status(status),
        },
        NodeEvent::AnnounceReceived {
            destination_hex,
            app_data,
            hops,
            interface_hex,
            received_at_ms,
        } => NodeEvent::AnnounceReceived {
            destination_hex: destination_hex.clone(),
            app_data: app_data.clone(),
            hops: *hops,
            interface_hex: interface_hex.clone(),
            received_at_ms: *received_at_ms,
        },
        NodeEvent::PeerChanged { change } => NodeEvent::PeerChanged {
            change: PeerChange {
                destination_hex: change.destination_hex.clone(),
                state: change.state,
                last_error: match &change.last_error {
                    Some(m) => Some(m.clone()),
                    None => None,
                },
            },
        },
        NodeEvent::PacketReceived { destination_hex, bytes } => NodeEvent::PacketReceived {
            destination_hex: destination_hex.clone(),
            bytes: clone_bytes(bytes),
        },
        NodeEvent::PacketSent { destination_hex, bytes, outcome } => NodeEvent::PacketSent {
            destination_hex: destination_hex.clone(),
            bytes: clone_bytes(bytes),
            outcome: *outcome,
        },
        NodeEvent::HubDirectoryUpdated { destinations, received_at_ms } => (
        NodeEvent::HubDirectoryUpdated {
            destinations: clone_strings(destinations),
            received_at_ms: *received_at_ms,
        }),
        NodeEvent::Log { level, message } => NodeEvent::Log {
            level: *level,
            message: message.clone(),
        },
        NodeEvent::Error { code, message } => NodeEvent::Error {
            code: code.clone(),
            message: message.clone(),
        },
    }
}

/// A copy of a status with the same model.
pub fn clone_status(s: &NodeStatus) -> (r: NodeStatus)
    ensures
        status_model(r) == status_model(*s),
{
    NodeStatus {
        running: s.running,
        name: s.name.clone(),
        identity_hex: s.identity_hex.clone(),
        app_destination_hex: s.app_destination_hex.clone(),
        lxmf_destination_hex: s.lxmf_destination_hex.clone(),
    }
}

/// A copy of a byte vector with the same bytes.
pub fn clone_bytes(v: &Vec<u8>) -> (r: Vec<u8>)
    ensures
        r@ == v@,
{
    let mut out: Vec<u8> = Vec::new();
    let mut k: usize = 0;
    while k < v.len()
        invariant
            0 <= k <= v@.len(),
            out@ == v@.subrange(0, k as int),
        decreases v@.len() - k,
    {
        out.push(v[k]);
        proof {
            assert(out@ =~= v@.subrange(0, k + 1 as int));
        }
        k = k + 1;
    }
    proof {
        assert(out@ =~= v@);
    }
    out
}

/// A copy of a string vector whose elements read the same.
pub fn clone_strings(v: &Vec<String>) -> (r: Vec<String>)
    ensures
        r@.map_values(|s: String| s@) == v@.map_values(|s: String| s@),
{
    let mut out: Vec<String> = Vec::new();
    let mut k: usize = 0;
    while k < v.len()
        invariant
            0 <= k <= v@.len(),
            out@.map_values(|s: String| s@) == v@.map_values(|s: String| s@).subrange(
                0,
                k as int,
            ),
        decreases v@.len() - k,
    {
        let ghost prev = out@;
        proof {
            assert(prev.map_values(|s: String| s@).len() == prev.len());
            assert(prev.len() == k);
        }
        out.push(v[k].clone());
        proof {
            let newmap = out@.map_values(|s: String| s@);
            let target = v@.map_values(|s: String| s@).subrange(0, k + 1 as int);
            assert(out@.len() == k + 1);
            assert(out@ =~= prev.push(out@[k as int]));
            assert forall|i: int| 0 <= i < newmap.len() implies newmap[i] == target[i] by {
                assert(newmap[i] == out@[i]@);
                if i < k {
                    assert(out@[i] == prev[i]);
                    assert(prev.map_values(|s: String| s@)[i] == prev[i]@);
                } else {
                    assert(out@[i]@ == v@[k as int]@);
                }
            }
            assert(newmap =~= target);
        }
        k = k + 1;
    }
    proof {
        assert(v@.map_values(|s: String| s@).subrange(0, v@.len() as int) =~= v@.map_values(
            |s: String| s@,
        ));
    }
    out
}

} // verus!
