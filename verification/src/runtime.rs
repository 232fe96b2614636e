//! The runtime core's state machine.  The host shell owns the transport,
//! timers and task loops; every decision — what a command changes, which
//! events it emits, when a send is retried — is taken here, on plain values,
//! and proved.

use vstd::prelude::*;

use crate::address::AddressHash;
use crate::address::hex32_accepted;
use crate::address::hex32_canonical;
use crate::address::parse_address_hash;
use crate::address::spec_hex_encode;
use crate::bus::EventBus;
use crate::config::spec_endpoints;
use crate::strutil::ascii_chars;
use crate::types::EventModel;
use crate::types::HubMode;
use crate::types::LogLevel;
use crate::types::NodeConfig;
use crate::types::NodeError;
use crate::types::NodeEvent;
use crate::types::PeerChange;
use crate::types::PeerState;
use crate::types::SendOutcome;
use crate::types::clone_strings;
use crate::types::node_error_message;

verus! {

use vstd::string::StringSliceAdditionalSpecFns;

/// How often a packet is submitted before the send gives up.
pub const MAX_SEND_ATTEMPTS: u32 = 6;

/// Pause between two send attempts, in milliseconds.
pub const SEND_RETRY_DELAY_MS: u64 = 500;

/// Deadline for resolving a destination descriptor, in milliseconds.
pub const RESOLVE_TIMEOUT_MS: u64 = 12000;

/// Deadline for an outbound link to become active, in milliseconds.
pub const LINK_ACTIVE_TIMEOUT_MS: u64 = 20000;

/// Deadline for the hub's reply to a directory request, in milliseconds.
pub const HUB_REPLY_TIMEOUT_MS: u64 = 15000;

/// Pause between two polls while waiting, in milliseconds.
pub const WAIT_POLL_INTERVAL_MS: u64 = 250;

/// The string views of a string vector.
pub open spec fn views(v: Seq<String>) -> Seq<Seq<char>> {
    v.map_values(|s: String| s@)
}

/// Membership of a string among the views.
fn contains_str(v: &Vec<String>, x: &String) -> (r: bool)
    ensures
        r == views(v@).contains(x@),
{
    let mut k: usize = 0;
    while k < v.len()
        invariant
            0 <= k <= v@.len(),
            forall|m: int| 0 <= m < k ==> views(v@)[m] != x@,
        decreases v@.len() - k,
    {
        if v[k].eq(x) {
            proof {
                assert(views(v@)[k as int] == x@);
            }
            return true;
        }
        k = k + 1;
    }
    proof {
        if views(v@).contains(x@) {
            let m = choose|m: int| 0 <= m < views(v@).len() && views(v@)[m] == x@;
            assert(views(v@)[m] != x@);
        }
    }
    false
}

/// Add a string unless an equal one is present.
fn insert_unique(v: &mut Vec<String>, x: String)
    ensures
        views(old(v)@).contains(x@) ==> final(v)@ == old(v)@,
        !views(old(v)@).contains(x@) ==> views(final(v)@) == views(old(v)@).push(x@),
        forall|y: Seq<char>|
            views(final(v)@).contains(y) <==> views(old(v)@).contains(y) || y == x@,
        views(old(v)@).no_duplicates() ==> views(final(v)@).no_duplicates(),
{
    let ghost before = views(v@);
    if !contains_str(v, &x) {
        let ghost xv = x@;
        v.push(x);
        proof {
            assert(views(v@) =~= before.push(xv));
            assert(views(v@)[before.len() as int] == xv);
            assert forall|y: Seq<char>| views(v@).contains(y) implies before.contains(y) || y
                == xv by {
                let m = choose|m: int| 0 <= m < views(v@).len() && views(v@)[m] == y;
                if m < before.len() {
                    assert(before[m] == y);
                }
            }
            assert forall|y: Seq<char>| before.contains(y) implies views(v@).contains(y) by {
                let m = choose|m: int| 0 <= m < before.len() && before[m] == y;
                assert(views(v@)[m] == y);
            }
            if before.no_duplicates() {
                assert(views(v@).no_duplicates()) by {
                    assert(forall|m: int| 0 <= m < before.len() ==> views(v@)[m] == before[m]);
                }
            }
        }
    }
}

/// Remove every string equal to the given one.
fn remove_str(v: &mut Vec<String>, x: &String)
    ensures
        !views(final(v)@).contains(x@),
        forall|y: Seq<char>|
            y != x@ ==> (views(final(v)@).contains(y) <==> views(old(v)@).contains(y)),
        views(old(v)@).no_duplicates() ==> views(final(v)@).no_duplicates(),
{
    let mut out: Vec<String> = Vec::new();
    let ghost before = views(v@);
    let mut k: usize = 0;
    while k < v.len()
        invariant
            0 <= k <= v@.len(),
            before == views(v@),
            !views(out@).contains(x@),
            forall|y: Seq<char>|
                y != x@ ==> (views(out@).contains(y) <==> before.subrange(0, k as int).contains(
                    y,
                )),
            before.no_duplicates() ==> views(out@).no_duplicates(),
            forall|y: Seq<char>| views(out@).contains(y) ==> before.contains(y),
        decreases v@.len() - k,
    {
        let ghost outs = views(out@);
        let ghost prefix = before.subrange(0, k as int);
        let ghost next = before.subrange(0, k + 1 as int);
        proof {
            assert(next =~= prefix.push(before[k as int]));
            assert forall|y: Seq<char>| next.contains(y) implies prefix.contains(y) || y
                == before[k as int] by {
                let m = choose|m: int| 0 <= m < next.len() && next[m] == y;
                if m < prefix.len() {
                    assert(prefix[m] == y);
                }
            }
            assert forall|y: Seq<char>| prefix.contains(y) implies next.contains(y) by {
                let m = choose|m: int| 0 <= m < prefix.len() && prefix[m] == y;
                assert(next[m] == y);
            }
            assert(next[k as int] == before[k as int]);
            assert(next.contains(before[k as int]));
        }
        if !v[k].eq(x) {
            let item = v[k].clone();
            proof {
                assert(views(v@)[k as int] == v@[k as int]@);
                assert(before[k as int] != x@);
            }
            out.push(item);
            proof {
                assert(views(out@) =~= outs.push(before[k as int]));
                assert(views(out@)[outs.len() as int] == before[k as int]);
                assert forall|y: Seq<char>| views(out@).contains(y) implies outs.contains(y) || y
                    == before[k as int] by {
                    let m = choose|m: int| 0 <= m < views(out@).len() && views(out@)[m] == y;
                    if m < outs.len() {
                        assert(outs[m] == y);
                    }
                }
                assert forall|y: Seq<char>| outs.contains(y) implies views(out@).contains(y) by {
                    let m = choose|m: int| 0 <= m < outs.len() && outs[m] == y;
                    assert(views(out@)[m] == y);
                }
                if before.no_duplicates() {
                    assert(!outs.contains(before[k as int])) by {
                        if outs.contains(before[k as int]) {
                            assert(prefix.contains(before[k as int]));
                            let m = choose|m: int|
                                0 <= m < prefix.len() && prefix[m] == before[k as int];
                            assert(before[m] == before[k as int]);
                        }
                    }
                    assert(views(out@).no_duplicates()) by {
                        assert(forall|m: int| 0 <= m < outs.len() ==> views(out@)[m] == outs[m]);
                        assert forall|p: int, q: int|
                            0 <= p < q < views(out@).len() implies views(out@)[p] != views(
                            out@,
                        )[q] by {
                            if q == outs.len() {
                                if views(out@)[p] == before[k as int] {
                                    assert(outs[p] == before[k as int]);
                                    assert(outs.contains(before[k as int]));
                                }
                            }
                        }
                    }
                }
                assert forall|y: Seq<char>| y != x@ implies (views(out@).contains(y)
                    <==> next.contains(y)) by {
                    if views(out@).contains(y) {
                        assert(outs.contains(y) || y == before[k as int]);
                        if outs.contains(y) {
                            assert(prefix.contains(y));
                        }
                        assert(next.contains(y));
                    }
                    if next.contains(y) {
                        assert(prefix.contains(y) || y == before[k as int]);
                        if prefix.contains(y) {
                            assert(outs.contains(y));
                            assert(views(out@).contains(y));
                        } else {
                            assert(views(out@).contains(before[k as int]));
                        }
                    }
                }
            }
        } else {
            proof {
                assert(views(v@)[k as int] == v@[k as int]@);
                assert(before[k as int] == x@);
                assert forall|y: Seq<char>| y != x@ implies (views(out@).contains(y) <==> next.contains(
                    y,
                )) by {
                    if next.contains(y) {
                        assert(prefix.contains(y) || y == before[k as int]);
                    }
                    if prefix.contains(y) {
                        assert(next.contains(y));
                    }
                }
            }
        }
        k = k + 1;
    }
    proof {
        assert(before.subrange(0, before.len() as int) =~= before);
    }
    *v = out;
}

/// Everything the runtime core remembers between commands.
pub struct RuntimeCore {
    pub config: NodeConfig,
    pub announce_capabilities: String,
    pub known_destinations: Vec<String>,
    pub out_links: Vec<String>,
    pub connected_peers: Vec<String>,
}

/// A command as the host queues it towards the core.
pub enum Command {
    Stop,
    SetLogLevel { level: LogLevel },
    SetAnnounceCapabilities { capability_string: String },
    ConnectPeer { destination_hex: String },
    DisconnectPeer { destination_hex: String },
    SendBytes { destination_hex: String, bytes: Vec<u8> },
    BroadcastBytes { bytes: Vec<u8> },
    RefreshHubDirectory,
}

/// Which refresh path a hub mode selects.
#[derive(Debug, Clone, Copy, PartialEq, Eq, Structural)]
pub enum HubPath {
    Http {},
    Lxmf {},
}

/// What the transport reported about one outbound link.
#[derive(Debug, Clone, Copy, PartialEq, Eq, Structural)]
pub enum LinkEventKind {
    Activated {},
    Closed {},
    Data {},
}

/// Whether a send attempt is over or asks for a path request and retry.
#[derive(Debug, Clone, Copy, PartialEq, Eq, Structural)]
pub enum RetryStep {
    Done {},
    RetryAfterPathRequest {},
}

impl RuntimeCore {
    /// The addresses broadcasts go to.
    pub open spec fn peers(&self) -> Seq<Seq<char>> {
        views(self.connected_peers@)
    }

    /// The addresses whose descriptors were seen in announces.
    pub open spec fn known(&self) -> Seq<Seq<char>> {
        views(self.known_destinations@)
    }

    /// The addresses with a tracked outbound link.
    pub open spec fn links(&self) -> Seq<Seq<char>> {
        views(self.out_links@)
    }

    /// Each address list holds an address at most once.
    pub open spec fn wf(&self) -> bool {
        self.peers().no_duplicates() && self.known().no_duplicates()
            && self.links().no_duplicates()
    }

    /// A fresh core for one session, before any command.
    pub fn new(config: NodeConfig) -> (r: RuntimeCore)
        ensures
            r.wf(),
            r.announce_capabilities@ == config.announce_capabilities@,
            r.peers() == Seq::<Seq<char>>::empty(),
            r.known() == Seq::<Seq<char>>::empty(),
            r.links() == Seq::<Seq<char>>::empty(),
            r.config == config,
    {
        let caps = config.announce_capabilities.clone();
        let r = RuntimeCore {
            config,
            announce_capabilities: caps,
            known_destinations: Vec::new(),
            out_links: Vec::new(),
            connected_peers: Vec::new(),
        };
        proof {
            assert(views(Seq::<String>::empty()) =~= Seq::<Seq<char>>::empty());
        }
        r
    }

    /// The endpoints the startup spawns one TCP driver for: blank entries
    /// are skipped.
    pub fn startup_endpoints(&self) -> (r: Vec<String>)
        ensures
            views(r@) == spec_endpoints(views(self.config.tcp_clients@)),
    {
        crate::config::trimmed_endpoints(&self.config.tcp_clients)
    }

    /// The bytes the next app-destination announce carries: the current
    /// capability string.
    pub fn announce_payload(&self) -> (r: Vec<u8>)
        ensures
            r@ == vstd::utf8::encode_utf8(self.announce_capabilities@),
    {
        crate::strutil::str_bytes(self.announce_capabilities.as_str())
    }

    /// Replace the capability string; the caller sends one fresh announce
    /// with exactly the returned bytes.
    pub fn handle_set_announce_capabilities(&mut self, capability_string: String) -> (r: Vec<u8>)
        ensures
            final(self).announce_capabilities@ == capability_string@,
            r@ == vstd::utf8::encode_utf8(capability_string@),
            final(self).peers() == old(self).peers(),
            final(self).known() == old(self).known(),
            final(self).links() == old(self).links(),
            final(self).config == old(self).config,
            final(self).wf() == old(self).wf(),
    {
        self.announce_capabilities = capability_string;
        self.announce_payload()
    }

    /// Connect intent: parse the address, report `Connecting`, remember the
    /// peer for broadcasts, and report `Connected`.  The caller issues one
    /// background path request for the returned address.  A malformed
    /// address changes nothing, reports `Disconnected` with the error text,
    /// and fails with `InvalidConfig`.
    pub fn handle_connect_peer(&mut self, bus: &mut EventBus, destination_hex: String) -> (r:
        Result<AddressHash, NodeError>)
        requires
            old(self).wf(),
        ensures
            final(self).wf(),
            final(self).known() == old(self).known(),
            final(self).links() == old(self).links(),
            final(self).config == old(self).config,
            final(self).announce_capabilities == old(self).announce_capabilities,
            (r is Ok) <==> hex32_accepted(destination_hex@),
            r is Err ==> r->Err_0 == (NodeError::InvalidConfig {}),
            r is Ok ==> r->Ok_0@ == ascii_chars(
                hex32_canonical(destination_hex@),
            ) && r->Ok_0.wf(),
            r is Ok ==> forall|y: Seq<char>|
                final(self).peers().contains(y) <==> old(self).peers().contains(y) || y
                    == ascii_chars(hex32_canonical(destination_hex@)),
            r is Err ==> final(self).peers() == old(self).peers(),
            final(bus).sub_count() == old(bus).sub_count(),
            forall|j: int|
                0 <= j < final(bus).sub_count() ==> final(bus).is_open(j) == old(bus).is_open(j),
            r is Ok ==> forall|j: int|
                0 <= j < final(bus).sub_count() && old(bus).is_open(j) ==> final(bus).queue(j)
                    == old(bus).queue(j) + seq![
                    peer_change_model(destination_hex@, PeerState::Connecting {}, None),
                    peer_change_model(destination_hex@, PeerState::Connected {}, None),
                ],
            r is Err ==> forall|j: int|
                0 <= j < final(bus).sub_count() && old(bus).is_open(j) ==> final(bus).queue(j)
                    == old(bus).queue(j) + seq![
                    peer_change_model(
                        destination_hex@,
                        PeerState::Disconnected {},
                        Some("invalid config"@),
                    ),
                ],
            forall|j: int|
                0 <= j < final(bus).sub_count() && !old(bus).is_open(j) ==> final(bus).queue(j)
                    == old(bus).queue(j),
    {
        match parse_address_hash(destination_hex.as_str()) {
            Ok(addr) => {
                let ghost q0 = *bus;
                bus.emit(
                    NodeEvent::PeerChanged {
                        change: PeerChange {
                            destination_hex: destination_hex.clone(),
                            state: PeerState::Connecting {},
                            last_error: None,
                        },
                    },
                );
                insert_unique(&mut self.connected_peers, addr.to_hex_string());
                bus.emit(
                    NodeEvent::PeerChanged {
                        change: PeerChange {
                            destination_hex,
                            state: PeerState::Connected {},
                            last_error: None,
                        },
                    },
                );
                proof {
                    assert forall|j: int|
                        0 <= j < final(bus).sub_count() && q0.is_open(j) implies bus.queue(j)
                        == q0.queue(j) + seq![
                        peer_change_model(destination_hex@, PeerState::Connecting {}, None),
                        peer_change_model(destination_hex@, PeerState::Connected {}, None),
                    ] by {
                        assert(bus.queue(j) =~= q0.queue(j) + seq![
                            peer_change_model(destination_hex@, PeerState::Connecting {}, None),
                            peer_change_model(destination_hex@, PeerState::Connected {}, None),
                        ]);
                    }
                }
                Ok(addr)
            },
            Err(e) => {
                let message = node_error_message(&e);
                bus.emit(
                    NodeEvent::PeerChanged {
                        change: PeerChange {
                            destination_hex,
                            state: PeerState::Disconnected {},
                            last_error: Some(message.to_owned()),
                        },
                    },
                );
                Err(e)
            },
        }
    }

    /// Disconnect intent: parse the address, forget the peer, and report
    /// `Disconnected`.  When a tracked outbound link existed its address is
    /// returned so the caller closes the real link.  A malformed address
    /// fails with `InvalidConfig` and reports nothing.
    pub fn handle_disconnect_peer(&mut self, bus: &mut EventBus, destination_hex: String) -> (r:
        Result<Option<AddressHash>, NodeError>)
        requires
            old(self).wf(),
        ensures
            final(self).wf(),
            final(self).known() == old(self).known(),
            final(self).config == old(self).config,
            final(self).announce_capabilities == old(self).announce_capabilities,
            (r is Ok) <==> hex32_accepted(destination_hex@),
            r is Err ==> r->Err_0 == (NodeError::InvalidConfig {}) && final(self).peers() == old(
                self,
            ).peers() && final(self).links() == old(self).links(),
            r is Ok ==> !final(self).peers().contains(
                ascii_chars(hex32_canonical(destination_hex@)),
            ),
            r is Ok ==> forall|y: Seq<char>|
                y != ascii_chars(hex32_canonical(destination_hex@))
                    ==> (final(self).peers().contains(y) <==> old(self).peers().contains(y)),
            r is Ok ==> ((r->Ok_0 is Some) <==> old(self).links().contains(
                ascii_chars(hex32_canonical(destination_hex@)),
            )),
            r is Ok && r->Ok_0 is Some ==> r->Ok_0->0@ == ascii_chars(
                hex32_canonical(destination_hex@),
            ) && r->Ok_0->0.wf(),
            r is Ok ==> !final(self).links().contains(
                ascii_chars(hex32_canonical(destination_hex@)),
            ),
            r is Ok ==> forall|y: Seq<char>|
                y != ascii_chars(hex32_canonical(destination_hex@))
                    ==> (final(self).links().contains(y) <==> old(self).links().contains(y)),
            final(bus).sub_count() == old(bus).sub_count(),
            forall|j: int|
                0 <= j < final(bus).sub_count() ==> final(bus).is_open(j) == old(bus).is_open(j),
            r is Ok ==> forall|j: int|
                0 <= j < final(bus).sub_count() && old(bus).is_open(j) ==> final(bus).queue(j)
                    == old(bus).queue(j).push(
                    peer_change_model(destination_hex@, PeerState::Disconnected {}, None),
                ),
            r is Err ==> forall|j: int|
                0 <= j < final(bus).sub_count() ==> final(bus).queue(j) == old(bus).queue(j),
            forall|j: int|
                0 <= j < final(bus).sub_count() && !old(bus).is_open(j) ==> final(bus).queue(j)
                    == old(bus).queue(j),
    {
        match parse_address_hash(destination_hex.as_str()) {
            Ok(addr) => {
                let canonical = addr.to_hex_string();
                remove_str(&mut self.connected_peers, &canonical);
                let had_link = contains_str(&self.out_links, &canonical);
                let link = if had_link {
                    remove_str(&mut self.out_links, &canonical);
                    Some(addr)
                } else {
                    None
                };
                bus.emit(
                    NodeEvent::PeerChanged {
                        change: PeerChange {
                            destination_hex,
                            state: PeerState::Disconnected {},
                            last_error: None,
                        },
                    },
                );
                Ok(link)
            },
            Err(e) => Err(e),
        }
    }

    /// Parse the target of a send; a malformed address fails with
    /// `InvalidConfig` before anything is submitted or reported.
    pub fn begin_send(&self, destination_hex: &str) -> (r: Result<AddressHash, NodeError>)
        ensures
            (r is Ok) <==> hex32_accepted(destination_hex@),
            r is Err ==> r->Err_0 == (NodeError::InvalidConfig {}),
            r is Ok ==> r->Ok_0@ == ascii_chars(hex32_canonical(destination_hex@))
                && r->Ok_0.wf(),
    {
        parse_address_hash(destination_hex)
    }

    /// Record the final outcome of a send: exactly one `PacketSent` event
    /// with the command's own address and bytes, then the reply — success
    /// for a sent packet, `NetworkError` for any drop.
    pub fn finish_send(
        &self,
        bus: &mut EventBus,
        destination_hex: String,
        bytes: Vec<u8>,
        outcome: SendOutcome,
    ) -> (r: Result<(), NodeError>)
        ensures
            (r is Ok) <==> (outcome == (SendOutcome::SentDirect {}) || outcome == (
            SendOutcome::SentBroadcast {})),
            r is Err ==> r->Err_0 == (NodeError::NetworkError {}),
            final(bus).sub_count() == old(bus).sub_count(),
            forall|j: int|
                0 <= j < final(bus).sub_count() ==> final(bus).is_open(j) == old(bus).is_open(j),
            forall|j: int|
                0 <= j < final(bus).sub_count() && old(bus).is_open(j) ==> final(bus).queue(j)
                    == old(bus).queue(j).push(
                    EventModel::PacketSent {
                        destination_hex: destination_hex@,
                        bytes: bytes@,
                        outcome,
                    },
                ),
            forall|j: int|
                0 <= j < final(bus).sub_count() && !old(bus).is_open(j) ==> final(bus).queue(j)
                    == old(bus).queue(j),
    {
        let ok = matches!(outcome, SendOutcome::SentDirect {} | SendOutcome::SentBroadcast {});
        bus.emit(NodeEvent::PacketSent { destination_hex, bytes, outcome });
        if ok {
            Ok(())
        } else {
            Err(NodeError::NetworkError {})
        }
    }

    /// Snapshot of the peers a broadcast goes to.
    pub fn broadcast_targets(&self) -> (r: Vec<String>)
        ensures
            views(r@) == self.peers(),
    {
        clone_strings(&self.connected_peers)
    }

    /// The reply to a broadcast: success when at least one target took the
    /// packet, `NetworkError` otherwise — also when there was no target.
    pub fn broadcast_reply(&self, outcomes: &Vec<SendOutcome>) -> (r: Result<(), NodeError>)
        ensures
            (r is Ok) <==> exists|i: int|
                0 <= i < outcomes@.len() && ((outcomes@[i] == (SendOutcome::SentDirect {}))
                    || outcomes@[i] == (SendOutcome::SentBroadcast {})),
            r is Err ==> r->Err_0 == (NodeError::NetworkError {}),
    {
        let mut k: usize = 0;
        while k < outcomes.len()
            invariant
                0 <= k <= outcomes@.len(),
                forall|i: int|
                    0 <= i < k ==> !((outcomes@[i] == (SendOutcome::SentDirect {})) || outcomes@[i]
                        == (SendOutcome::SentBroadcast {})),
            decreases outcomes@.len() - k,
        {
            if matches!(outcomes[k], SendOutcome::SentDirect {} | SendOutcome::SentBroadcast {}) {
                return Ok(());
            }
            k = k + 1;
        }
        Err(NodeError::NetworkError {})
    }

    /// Which refresh path the configured hub mode selects; a disabled hub
    /// rejects the refresh with `InvalidConfig`.
    pub fn refresh_hub_dispatch(&self) -> (r: Result<HubPath, NodeError>)
        ensures
            self.config.hub_mode == (HubMode::Disabled {}) <==> r is Err,
            r is Err ==> r->Err_0 == (NodeError::InvalidConfig {}),
            self.config.hub_mode == (HubMode::RchHttp {}) ==> r == Ok::<HubPath, NodeError>(
                HubPath::Http {},
            ),
            self.config.hub_mode == (HubMode::RchLxmf {}) ==> r == Ok::<HubPath, NodeError>(
                HubPath::Lxmf {},
            ),
    {
        match self.config.hub_mode {
            HubMode::Disabled {} => Err(NodeError::InvalidConfig {}),
            HubMode::RchHttp {} => Ok(HubPath::Http {}),
            HubMode::RchLxmf {} => Ok(HubPath::Lxmf {}),
        }
    }

    /// Remember an announced destination and report the announce: text
    /// payloads verbatim, other payloads as hex.
    pub fn record_announce(
        &mut self,
        bus: &mut EventBus,
        destination_hex: String,
        app_data: Vec<u8>,
        hops: u8,
        interface: Vec<u8>,
        received_at_ms: u64,
    )
        requires
            old(self).wf(),
        ensures
            final(self).wf(),
            final(self).peers() == old(self).peers(),
            final(self).links() == old(self).links(),
            final(self).config == old(self).config,
            final(self).announce_capabilities == old(self).announce_capabilities,
            forall|y: Seq<char>|
                final(self).known().contains(y) <==> old(self).known().contains(y) || y
                    == destination_hex@,
            final(bus).sub_count() == old(bus).sub_count(),
            forall|j: int|
                0 <= j < final(bus).sub_count() ==> final(bus).is_open(j) == old(bus).is_open(j),
            forall|j: int|
                0 <= j < final(bus).sub_count() && old(bus).is_open(j) ==> final(bus).queue(j)
                    == old(bus).queue(j).push(
                    EventModel::AnnounceReceived {
                        destination_hex: destination_hex@,
                        app_data: spec_announce_text(app_data@),
                        hops,
                        interface_hex: ascii_chars(spec_hex_encode(interface@)),
                        received_at_ms,
                    },
                ),
            forall|j: int|
                0 <= j < final(bus).sub_count() && !old(bus).is_open(j) ==> final(bus).queue(j)
                    == old(bus).queue(j),
    {
        insert_unique(&mut self.known_destinations, destination_hex.clone());
        let text = announce_text(&app_data);
        let interface_hex = crate::address::hex_encode(&interface);
        bus.emit(
            NodeEvent::AnnounceReceived {
                destination_hex,
                app_data: text,
                hops,
                interface_hex,
                received_at_ms,
            },
        );
    }

    /// Whether an announced descriptor for the address is already cached.
    pub fn knows_destination(&self, destination_hex: &String) -> (r: bool)
        ensures
            r == self.known().contains(destination_hex@),
    {
        contains_str(&self.known_destinations, destination_hex)
    }

    /// Track an outbound link to the address; reports whether the caller
    /// must create the real link session.
    pub fn track_link(&mut self, destination_hex: String) -> (created: bool)
        requires
            old(self).wf(),
        ensures
            final(self).wf(),
            final(self).peers() == old(self).peers(),
            final(self).known() == old(self).known(),
            final(self).config == old(self).config,
            final(self).announce_capabilities == old(self).announce_capabilities,
            created == !old(self).links().contains(destination_hex@),
            forall|y: Seq<char>|
                final(self).links().contains(y) <==> old(self).links().contains(y) || y
                    == destination_hex@,
    {
        let present = contains_str(&self.out_links, &destination_hex);
        insert_unique(&mut self.out_links, destination_hex);
        !present
    }
}

/// Report one received payload packet.
pub fn record_packet(bus: &mut EventBus, destination_hex: String, bytes: Vec<u8>)
    ensures
        final(bus).sub_count() == old(bus).sub_count(),
        forall|j: int|
            0 <= j < final(bus).sub_count() ==> final(bus).is_open(j) == old(bus).is_open(j),
        forall|j: int|
            0 <= j < final(bus).sub_count() && old(bus).is_open(j) ==> final(bus).queue(j) == old(
                bus,
            ).queue(j).push(
                EventModel::PacketReceived { destination_hex: destination_hex@, bytes: bytes@ },
            ),
        forall|j: int|
            0 <= j < final(bus).sub_count() && !old(bus).is_open(j) ==> final(bus).queue(j) == old(
                bus,
            ).queue(j),
{
    bus.emit(NodeEvent::PacketReceived { destination_hex, bytes });
}

/// Report one outbound-link lifecycle event: an activation means the peer is
/// connected, a close means it is disconnected, and link data is left to the
/// data receiver.
pub fn link_event_update(bus: &mut EventBus, destination_hex: String, kind: LinkEventKind)
    ensures
        final(bus).sub_count() == old(bus).sub_count(),
        forall|j: int|
            0 <= j < final(bus).sub_count() ==> final(bus).is_open(j) == old(bus).is_open(j),
        kind == (LinkEventKind::Activated {}) ==> forall|j: int|
            0 <= j < final(bus).sub_count() && old(bus).is_open(j) ==> final(bus).queue(j) == old(
                bus,
            ).queue(j).push(
                peer_change_model(destination_hex@, PeerState::Connected {}, None),
            ),
        kind == (LinkEventKind::Closed {}) ==> forall|j: int|
            0 <= j < final(bus).sub_count() && old(bus).is_open(j) ==> final(bus).queue(j) == old(
                bus,
            ).queue(j).push(
                peer_change_model(destination_hex@, PeerState::Disconnected {}, None),
            ),
        kind == (LinkEventKind::Data {}) ==> forall|j: int|
            0 <= j < final(bus).sub_count() ==> final(bus).queue(j) == old(bus).queue(j),
        forall|j: int|
            0 <= j < final(bus).sub_count() && !old(bus).is_open(j) ==> final(bus).queue(j) == old(
                bus,
            ).queue(j),
{
    match kind {
        LinkEventKind::Activated {} => {
            bus.emit(
                NodeEvent::PeerChanged {
                    change: PeerChange {
                        destination_hex,
                        state: PeerState::Connected {},
                        last_error: None,
                    },
                },
            );
        },
        LinkEventKind::Closed {} => {
            bus.emit(
                NodeEvent::PeerChanged {
                    change: PeerChange {
                        destination_hex,
                        state: PeerState::Disconnected {},
                        last_error: None,
                    },
                },
            );
        },
        LinkEventKind::Data {} => {},
    }
}

/// The model of a peer-change event.
pub open spec fn peer_change_model(
    destination_hex: Seq<char>,
    state: PeerState,
    last_error: Option<Seq<char>>,
) -> EventModel {
    EventModel::PeerChanged { destination_hex, state, last_error }
}

/// What an announce's payload reads as: the text itself when it is valid
/// text, its hex encoding otherwise.
pub open spec fn spec_announce_text(bytes: Seq<u8>) -> Seq<char> {
    if vstd::utf8::valid_utf8(bytes) {
        vstd::utf8::decode_utf8(bytes)
    } else {
        ascii_chars(spec_hex_encode(bytes))
    }
}

/// The announce payload as shown to hosts.
pub fn announce_text(bytes: &Vec<u8>) -> (r: String)
    ensures
        r@ == spec_announce_text(bytes@),
{
    match crate::strutil::utf8_to_string(bytes) {
        Some(s) => s,
        None => crate::address::hex_encode(bytes),
    }
}

/// One poll of the link-active wait: done when the link reports Active, or
/// when an out-link event with this link's id says Activated.
pub fn link_wait_step(status_active: bool, event: Option<(bool, LinkEventKind)>) -> (done: bool)
    ensures
        done == (status_active || event == Some((true, LinkEventKind::Activated {}))),
{
    if status_active {
        return true;
    }
    match event {
        Some((for_this_link, LinkEventKind::Activated {})) => for_this_link,
        _ => false,
    }
}

/// One poll of the descriptor-resolve wait: done when a cached descriptor
/// appeared or the transport resolved the identity.
pub fn resolve_wait_step(descriptor_cached: bool, identity_resolved: bool) -> (done: bool)
    ensures
        done == (descriptor_cached || identity_resolved),
{
    descriptor_cached || identity_resolved
}

/// One step of the send loop: a sent packet, and any drop other than a
/// missing route or missing destination identity, ends the loop; the two
/// recoverable drops ask the caller to request a path, sleep
/// `SEND_RETRY_DELAY_MS`, and try again — `MAX_SEND_ATTEMPTS` times in all.
pub fn path_retry_step(outcome: SendOutcome) -> (r: RetryStep)
    ensures
        r == (RetryStep::RetryAfterPathRequest {}) <==> (outcome == (
        SendOutcome::DroppedNoRoute {}) || outcome == (
        SendOutcome::DroppedMissingDestinationIdentity {})),
{
    match outcome {
        SendOutcome::DroppedNoRoute {} => RetryStep::RetryAfterPathRequest {},
        SendOutcome::DroppedMissingDestinationIdentity {} => RetryStep::RetryAfterPathRequest {},
        _ => RetryStep::Done {},
    }
}

} // verus!
