//! The node façade: the one handle hosts hold.  It owns the event bus, the
//! status snapshot and — while the node runs — the runtime core.  The host
//! shell adds the threads, channels and timeouts around these transitions;
//! each transition itself is total and proved.

use vstd::prelude::*;

use crate::address::AddressHash;
use crate::address::hex32_accepted;
use crate::address::hex32_canonical;
use crate::bus::EventBus;
use crate::bus::EventSubscription;
use crate::address::is_lower_hex_chars;
use crate::address::spec_hex_encode;
use crate::identity::identity_hash_of;
use crate::identity::destination_hex_of;
use crate::identity::identity_hex_of_name;
use crate::identity::is_identity_hex;
use crate::runtime::HubPath;
use crate::runtime::RuntimeCore;
use crate::runtime::peer_change_model;
use crate::strutil::trim_chars;
use crate::types::EventModel;
use crate::types::LogLevel;
use crate::types::NodeConfig;
use crate::types::NodeError;
use crate::types::NodeEvent;
use crate::types::NodeStatus;
use crate::types::PeerState;
use crate::types::SendOutcome;
use crate::types::StatusModel;
use crate::types::clone_status;
use crate::types::status_model;

verus! {

use vstd::string::StringSliceAdditionalSpecFns;

/// The synchronous handle of one node.
pub struct Node {
    bus: EventBus,
    status: NodeStatus,
    log_filter: LogLevel,
    core: Option<RuntimeCore>,
}

/// The status a fresh node starts with.
pub open spec fn initial_status_model() -> StatusModel {
    StatusModel {
        running: false,
        name: "reticulum-mobile"@,
        identity_hex: Seq::<char>::empty(),
        app_destination_hex: Seq::<char>::empty(),
        lxmf_destination_hex: Seq::<char>::empty(),
    }
}

/// The identity hex a start uses: the loaded one where the host loaded one,
/// the name-derived fallback otherwise.
pub open spec fn start_identity_hex(config: NodeConfig, loaded: Option<String>) -> Seq<char> {
    match loaded {
        Some(h) => h@,
        None => identity_hex_of_name(config.name@),
    }
}

/// The status a successful start installs: not yet running, the configured
/// name, the identity's full hash as 64 hex digits, and the two
/// identity-derived destination addresses.
pub open spec fn started_status_model(config: NodeConfig, loaded: Option<String>) -> StatusModel {
    let ih = start_identity_hex(config, loaded);
    StatusModel {
        running: false,
        name: config.name@,
        identity_hex: crate::strutil::ascii_chars(spec_hex_encode(identity_hash_of(ih))),
        app_destination_hex: destination_hex_of(ih, "r3akt"@, "emergency"@),
        lxmf_destination_hex: destination_hex_of(ih, "lxmf"@, "delivery"@),
    }
}

impl Node {
    /// Whether a runtime core exists, which is what running means.
    pub closed spec fn is_running(&self) -> bool {
        self.core is Some
    }

    /// The model of the current status snapshot.
    pub closed spec fn status_m(&self) -> StatusModel {
        status_model(self.status)
    }

    /// The runtime core, to state what commands did.
    pub closed spec fn core_ref(&self) -> RuntimeCore {
        self.core->0
    }

    /// The configured log filter.
    pub closed spec fn filter(&self) -> LogLevel {
        self.log_filter
    }

    /// How many subscriptions the bus has seen.
    pub closed spec fn sub_count(&self) -> nat {
        self.bus.sub_count()
    }

    /// The undrained events of one subscriber.
    pub closed spec fn queue(&self, j: int) -> Seq<EventModel> {
        self.bus.queue(j)
    }

    /// Whether one subscriber still receives events.
    pub closed spec fn is_open(&self, j: int) -> bool {
        self.bus.is_open(j)
    }

    /// Internal consistency: the core's address lists stay duplicate-free.
    pub closed spec fn wf(&self) -> bool {
        self.core is Some ==> self.core->0.wf()
    }

    /// A stopped node with the default status and no subscribers.
    pub fn new() -> (r: Node)
        ensures
            !r.is_running(),
            r.wf(),
            r.status_m() == initial_status_model(),
            r.sub_count() == 0,
            r.filter() == (LogLevel::Info {}),
    {
        let status = NodeStatus {
            running: false,
            name: String::from_str("reticulum-mobile"),
            identity_hex: String::new(),
            app_destination_hex: String::new(),
            lxmf_destination_hex: String::new(),
        };
        let r = Node {
            bus: EventBus::new(),
            status,
            log_filter: LogLevel::Info {},
            core: None,
        };
        proof {
            assert(r.status_m() =~~= initial_status_model());
        }
        r
    }

    /// Whether a session is in place: what the next start refuses on.
    pub fn running(&self) -> (r: bool)
        ensures
            r == self.is_running(),
    {
        self.core.is_some()
    }

    /// A snapshot of the current status.
    pub fn get_status(&self) -> (r: NodeStatus)
        ensures
            status_model(r) == self.status_m(),
    {
        clone_status(&self.status)
    }

    /// A new cursor over the bus: it sees only what is emitted from now on.
    pub fn subscribe_events(&mut self) -> (r: EventSubscription)
        ensures
            final(self).sub_count() == old(self).sub_count() + 1,
            r.sub_id() == old(self).sub_count(),
            !r.is_closed(),
            final(self).queue(r.sub_id()) == Seq::<EventModel>::empty(),
            final(self).is_open(r.sub_id()),
            forall|j: int| 0 <= j < r.sub_id() ==> final(self).queue(j) == old(self).queue(j),
            forall|j: int| 0 <= j < r.sub_id() ==> final(self).is_open(j) == old(self).is_open(j),
            final(self).is_running() == old(self).is_running(),
            final(self).wf() == old(self).wf(),
            final(self).status_m() == old(self).status_m(),
            final(self).core_ref() == old(self).core_ref(),
            final(self).filter() == old(self).filter(),
    {
        EventSubscription::new(&mut self.bus)
    }

    /// One poll of a cursor: `None` when the cursor is closed or nothing is
    /// buffered, else the oldest buffered event.  Never waits; the host
    /// repeats the call until its own deadline.
    pub fn next_event(&mut self, sub: &EventSubscription, timeout_ms: u32) -> (r: Option<
        NodeEvent,
    >)
        requires
            sub.sub_id() < old(self).sub_count(),
        ensures
            final(self).sub_count() == old(self).sub_count(),
            sub.is_closed() ==> r is None && final(self).queue(sub.sub_id()) == old(self).queue(
                sub.sub_id(),
            ),
            !sub.is_closed() && old(self).queue(sub.sub_id()).len() == 0 ==> r is None && final(self).queue(sub.sub_id()) == old(self).queue(sub.sub_id()),
            !sub.is_closed() && old(self).queue(sub.sub_id()).len() > 0 ==> r is Some
                && crate::types::event_model(r->0) == old(self).queue(sub.sub_id())[0] && final(self).queue(sub.sub_id()) == old(self).queue(sub.sub_id()).drop_first(),
            forall|j: int|
                0 <= j < final(self).sub_count() && j != sub.sub_id() ==> final(self).queue(j)
                    == old(self).queue(j),
            final(self).is_running() == old(self).is_running(),
            final(self).wf() == old(self).wf(),
            final(self).status_m() == old(self).status_m(),
            final(self).core_ref() == old(self).core_ref(),
            final(self).filter() == old(self).filter(),
    {
        sub.next(&mut self.bus, timeout_ms)
    }

    /// Close a cursor: later polls answer `None`.
    pub fn close_subscription(&mut self, sub: &mut EventSubscription)
        requires
            old(sub).sub_id() < old(self).sub_count(),
        ensures
            final(sub).is_closed(),
            final(sub).sub_id() == old(sub).sub_id(),
            final(self).sub_count() == old(self).sub_count(),
            forall|j: int|
                0 <= j < final(self).sub_count() ==> final(self).queue(j) == old(self).queue(j),
            final(self).is_running() == old(self).is_running(),
            final(self).wf() == old(self).wf(),
            final(self).status_m() == old(self).status_m(),
            final(self).core_ref() == old(self).core_ref(),
            final(self).filter() == old(self).filter(),
    {
        sub.close(&mut self.bus);
    }

    /// Change the log filter.  The host mirrors it into its process-wide
    /// logging facility.
    pub fn set_log_level(&mut self, level: LogLevel)
        ensures
            final(self).filter() == level,
            final(self).is_running() == old(self).is_running(),
            final(self).wf() == old(self).wf(),
            final(self).status_m() == old(self).status_m(),
            final(self).core_ref() == old(self).core_ref(),
            final(self).sub_count() == old(self).sub_count(),
            forall|j: int|
                0 <= j < final(self).sub_count() ==> final(self).queue(j) == old(self).queue(j),
            forall|j: int|
                0 <= j < final(self).sub_count() ==> final(self).is_open(j) == old(self).is_open(
                    j,
                ),
    {
        self.log_filter = level;
    }

    /// One log record through the bridge: forwarded as a `Log` event exactly
    /// when its level passes the filter.
    pub fn log_record(&mut self, level: LogLevel, message: String) -> (emitted: bool)
        ensures
            emitted == (crate::types::spec_log_level_rank(level)
                <= crate::types::spec_log_level_rank(old(self).filter())),
            final(self).sub_count() == old(self).sub_count(),
            emitted ==> forall|j: int|
                0 <= j < final(self).sub_count() && old(self).is_open(j) ==> final(self).queue(j)
                    == old(self).queue(j).push(EventModel::Log { level, message: message@ }),
            !emitted ==> forall|j: int|
                0 <= j < final(self).sub_count() ==> final(self).queue(j) == old(self).queue(j),
            forall|j: int|
                0 <= j < final(self).sub_count() && !old(self).is_open(j) ==> final(self).queue(j)
                    == old(self).queue(j),
            forall|j: int|
                0 <= j < final(self).sub_count() ==> final(self).is_open(j) == old(self).is_open(
                    j,
                ),
            final(self).is_running() == old(self).is_running(),
            final(self).wf() == old(self).wf(),
            final(self).status_m() == old(self).status_m(),
            final(self).core_ref() == old(self).core_ref(),
            final(self).filter() == old(self).filter(),
    {
        let pass = crate::types::log_enabled(self.log_filter, level);
        if pass {
            self.bus.emit(NodeEvent::Log { level, message });
        }
        pass
    }

    /// Start the node: refused while it runs (`AlreadyRunning`) and for a
    /// blank name (`InvalidConfig`); a loaded identity that is not a full
    /// identity hex is an I/O fault.  Otherwise the status takes the
    /// configured name and the identity-derived addresses, one
    /// `StatusChanged` is emitted, and a fresh runtime core is installed.
    /// With no loaded identity the node derives one from the name alone.
    pub fn start(&mut self, config: NodeConfig, loaded_identity_hex: Option<String>) -> (r: Result<
        (),
        NodeError,
    >)
        ensures
            (r is Ok) <==> (!old(self).is_running() && trim_chars(config.name@).len() > 0 && (
            loaded_identity_hex is Some ==> is_identity_hex(loaded_identity_hex->0@))),
            old(self).is_running() ==> r == Err::<(), NodeError>(NodeError::AlreadyRunning {}),
            !old(self).is_running() && trim_chars(config.name@).len() == 0 ==> r == Err::<
                (),
                NodeError,
            >(NodeError::InvalidConfig {}),
            !old(self).is_running() && trim_chars(config.name@).len() > 0
                && loaded_identity_hex is Some && !is_identity_hex(loaded_identity_hex->0@) ==> r
                == Err::<(), NodeError>(NodeError::IoError {}),
            r is Err ==> *final(self) == *old(self),
            r is Ok ==> final(self).is_running() && final(self).wf() && final(self).status_m()
                == started_status_model(config, loaded_identity_hex) && final(self).core_ref().config
                == config && final(self).core_ref().announce_capabilities@
                == config.announce_capabilities@ && final(self).core_ref().peers()
                == Seq::<Seq<char>>::empty() && final(self).core_ref().known()
                == Seq::<Seq<char>>::empty() && final(self).core_ref().links()
                == Seq::<Seq<char>>::empty() && final(self).filter() == old(self).filter()
                && final(self).sub_count() == old(self).sub_count(),
            r is Ok ==> is_lower_hex_chars(final(self).status_m().identity_hex, 64)
                && is_lower_hex_chars(final(self).status_m().app_destination_hex, 32)
                && is_lower_hex_chars(final(self).status_m().lxmf_destination_hex, 32),
            r is Ok ==> forall|j: int|
                0 <= j < final(self).sub_count() && old(self).is_open(j) ==> final(self).queue(j)
                    == old(self).queue(j).push(
                    EventModel::StatusChanged {
                        status: started_status_model(config, loaded_identity_hex),
                    },
                ),
            r is Ok ==> forall|j: int|
                0 <= j < final(self).sub_count() && !old(self).is_open(j) ==> final(self).queue(j)
                    == old(self).queue(j),
            r is Ok ==> forall|j: int|
                0 <= j < final(self).sub_count() ==> final(self).is_open(j) == old(self).is_open(
                    j,
                ),
    {
        if self.core.is_some() {
            return Err(NodeError::AlreadyRunning {});
        }
        let trimmed_name = crate::strutil::trim_str(config.name.as_str());
        if trimmed_name.unicode_len() == 0 {
            return Err(NodeError::InvalidConfig {});
        }
        let ih: String = match &loaded_identity_hex {
            Some(h) => {
                if !crate::identity::check_identity_hex(h.as_str()) {
                    return Err(NodeError::IoError {});
                }
                h.clone()
            },
            None => crate::identity::derive_identity_hex(config.name.as_str()),
        };
        let identity_hex = crate::identity::identity_hash_hex(ih.as_str());
        let app_destination_hex = crate::identity::destination_hex(
            ih.as_str(),
            "r3akt",
            "emergency",
        );
        let lxmf_destination_hex = crate::identity::destination_hex(
            ih.as_str(),
            "lxmf",
            "delivery",
        );
        self.status = NodeStatus {
            running: false,
            name: config.name.clone(),
            identity_hex,
            app_destination_hex,
            lxmf_destination_hex,
        };
        let snapshot = clone_status(&self.status);
        proof {
            assert(self.status_m() =~~= started_status_model(config, loaded_identity_hex));
        }
        self.bus.emit(NodeEvent::StatusChanged { status: snapshot });
        self.core = Some(RuntimeCore::new(config));
        Ok(())
    }

    /// The runtime core reports readiness: the status turns running and one
    /// `StatusChanged` says so.
    pub fn mark_running(&mut self)
        requires
            old(self).is_running(),
        ensures
            final(self).is_running(),
            final(self).wf() == old(self).wf(),
            final(self).core_ref() == old(self).core_ref(),
            final(self).filter() == old(self).filter(),
            final(self).sub_count() == old(self).sub_count(),
            final(self).status_m() == (StatusModel { running: true, ..old(self).status_m() }),
            forall|j: int|
                0 <= j < final(self).sub_count() && old(self).is_open(j) ==> final(self).queue(j)
                    == old(self).queue(j).push(
                    EventModel::StatusChanged {
                        status: StatusModel { running: true, ..old(self).status_m() },
                    },
                ),
            forall|j: int|
                0 <= j < final(self).sub_count() && !old(self).is_open(j) ==> final(self).queue(j)
                    == old(self).queue(j),
            forall|j: int|
                0 <= j < final(self).sub_count() ==> final(self).is_open(j) == old(self).is_open(
                    j,
                ),
    {
        self.status.running = true;
        let snapshot = clone_status(&self.status);
        self.bus.emit(NodeEvent::StatusChanged { status: snapshot });
    }

    /// Stop the node.  Stopping a stopped node succeeds and does nothing.
    /// Otherwise the core acknowledges the stop and the façade drops it,
    /// each reporting `StatusChanged` with `running` false.
    pub fn stop(&mut self) -> (r: Result<(), NodeError>)
        ensures
            r is Ok,
            !final(self).is_running(),
            final(self).wf(),
            !old(self).is_running() ==> *final(self) == *old(self),
            final(self).filter() == old(self).filter(),
            final(self).sub_count() == old(self).sub_count(),
            old(self).is_running() ==> final(self).status_m() == (StatusModel {
                running: false,
                ..old(self).status_m()
            }),
            old(self).is_running() ==> forall|j: int|
                0 <= j < final(self).sub_count() && old(self).is_open(j) ==> final(self).queue(j)
                    == old(self).queue(j).push(
                    EventModel::StatusChanged {
                        status: StatusModel { running: false, ..old(self).status_m() },
                    },
                ).push(
                    EventModel::StatusChanged {
                        status: StatusModel { running: false, ..old(self).status_m() },
                    },
                ),
            forall|j: int|
                0 <= j < final(self).sub_count() && !old(self).is_open(j) ==> final(self).queue(j)
                    == old(self).queue(j),
            forall|j: int|
                0 <= j < final(self).sub_count() ==> final(self).is_open(j) == old(self).is_open(
                    j,
                ),
    {
        if self.core.is_none() {
            return Ok(());
        }
        self.status.running = false;
        let first = clone_status(&self.status);
        self.bus.emit(NodeEvent::StatusChanged { status: first });
        self.core = None;
        let second = clone_status(&self.status);
        self.bus.emit(NodeEvent::StatusChanged { status: second });
        Ok(())
    }

    /// Stop, then start with the given configuration.
    pub fn restart(&mut self, config: NodeConfig, loaded_identity_hex: Option<String>) -> (r:
        Result<(), NodeError>)
        ensures
            (r is Ok) <==> (trim_chars(config.name@).len() > 0 && (loaded_identity_hex is Some
                ==> is_identity_hex(loaded_identity_hex->0@))),
            r is Ok ==> final(self).is_running() && final(self).wf() && final(self).status_m()
                == started_status_model(config, loaded_identity_hex),
            r is Err ==> !final(self).is_running(),
    {
        let stopped = self.stop();
        match stopped {
            Ok(_) => {},
            Err(e) => {
                return Err(e);
            },
        }
        self.start(config, loaded_identity_hex)
    }


    /// Connect intent towards a peer.  Refused with `NotRunning` while the
    /// node is stopped.  Otherwise: `Connecting` then `Connected` are
    /// reported and the peer joins the broadcast set, or a malformed address
    /// reports `Disconnected` with the error text and fails with
    /// `InvalidConfig`.  The host issues one background path request for the
    /// address.
    pub fn connect_peer(&mut self, destination_hex: String) -> (r: Result<(), NodeError>)
        requires
            old(self).wf(),
        ensures
            final(self).wf(),
            final(self).is_running() == old(self).is_running(),
            final(self).status_m() == old(self).status_m(),
            final(self).filter() == old(self).filter(),
            final(self).sub_count() == old(self).sub_count(),
            forall|j: int|
                0 <= j < final(self).sub_count() ==> final(self).is_open(j) == old(self).is_open(
                    j,
                ),
            !old(self).is_running() ==> r == Err::<(), NodeError>(NodeError::NotRunning {})
                && *final(self) == *old(self),
            old(self).is_running() ==> ((r is Ok) <==> hex32_accepted(destination_hex@)),
            old(self).is_running() && (r is Err) ==> r == Err::<(), NodeError>(
                NodeError::InvalidConfig {},
            ),
            old(self).is_running() && (r is Ok) ==> (forall|y: Seq<char>|
                final(self).core_ref().peers().contains(y) <==> old(self).core_ref().peers().contains(y) || y == crate::strutil::ascii_chars(
                    hex32_canonical(destination_hex@),
                )),
            old(self).is_running() && (r is Ok) ==> forall|j: int|
                0 <= j < final(self).sub_count() && old(self).is_open(j) ==> final(self).queue(j)
                    == old(self).queue(j) + seq![
                    peer_change_model(destination_hex@, PeerState::Connecting {}, None),
                    peer_change_model(destination_hex@, PeerState::Connected {}, None),
                ],
            old(self).is_running() && (r is Err) ==> forall|j: int|
                0 <= j < final(self).sub_count() && old(self).is_open(j) ==> final(self).queue(j)
                    == old(self).queue(j) + seq![
                    peer_change_model(
                        destination_hex@,
                        PeerState::Disconnected {},
                        Some("invalid config"@),
                    ),
                ],
            forall|j: int|
                0 <= j < final(self).sub_count() && !old(self).is_open(j) ==> final(self).queue(j)
                    == old(self).queue(j),
    {
        match &mut self.core {
            Some(core) => {
                match core.handle_connect_peer(&mut self.bus, destination_hex) {
                    Ok(_) => Ok(()),
                    Err(e) => Err(e),
                }
            },
            None => Err(NodeError::NotRunning {}),
        }
    }

    /// Disconnect intent: the peer leaves the broadcast set and one
    /// `Disconnected` is reported.  Any tracked outbound link is forgotten
    /// and its address handed back, so the host closes the real session.
    /// `NotRunning` while stopped, `InvalidConfig` for a malformed address.
    pub fn disconnect_peer(&mut self, destination_hex: String) -> (r: Result<
        Option<AddressHash>,
        NodeError,
    >)
        requires
            old(self).wf(),
        ensures
            final(self).wf(),
            final(self).is_running() == old(self).is_running(),
            final(self).status_m() == old(self).status_m(),
            final(self).filter() == old(self).filter(),
            final(self).sub_count() == old(self).sub_count(),
            forall|j: int|
                0 <= j < final(self).sub_count() ==> final(self).is_open(j) == old(self).is_open(
                    j,
                ),
            !old(self).is_running() ==> r is Err && r->Err_0 == (NodeError::NotRunning {})
                && *final(self) == *old(self),
            old(self).is_running() ==> ((r is Ok) <==> hex32_accepted(destination_hex@)),
            old(self).is_running() && (r is Err) ==> r->Err_0 == (NodeError::InvalidConfig {}),
            old(self).is_running() && (r is Ok) ==> !final(self).core_ref().peers().contains(
                crate::strutil::ascii_chars(hex32_canonical(destination_hex@)),
            ),
            old(self).is_running() && (r is Ok) ==> ((r->Ok_0 is Some) <==> old(
                self,
            ).core_ref().links().contains(
                crate::strutil::ascii_chars(hex32_canonical(destination_hex@)),
            )),
            old(self).is_running() && (r is Ok) && (r->Ok_0 is Some) ==> r->Ok_0->0@
                == crate::strutil::ascii_chars(hex32_canonical(destination_hex@))
                && r->Ok_0->0.wf(),
            old(self).is_running() && (r is Ok) ==> !final(self).core_ref().links().contains(
                crate::strutil::ascii_chars(hex32_canonical(destination_hex@)),
            ),
            old(self).is_running() && (r is Ok) ==> forall|j: int|
                0 <= j < final(self).sub_count() && old(self).is_open(j) ==> final(self).queue(j)
                    == old(self).queue(j).push(
                    peer_change_model(destination_hex@, PeerState::Disconnected {}, None),
                ),
            old(self).is_running() && (r is Err) ==> forall|j: int|
                0 <= j < final(self).sub_count() ==> final(self).queue(j) == old(self).queue(j),
            forall|j: int|
                0 <= j < final(self).sub_count() && !old(self).is_open(j) ==> final(self).queue(j)
                    == old(self).queue(j),
    {
        match &mut self.core {
            Some(core) => core.handle_disconnect_peer(&mut self.bus, destination_hex),
            None => Err(NodeError::NotRunning {}),
        }
    }

    /// Parse the target of a send.  `NotRunning` while stopped; a malformed
    /// address fails with `InvalidConfig` before anything is submitted or
    /// reported.
    pub fn begin_send(&self, destination_hex: &str) -> (r: Result<AddressHash, NodeError>)
        ensures
            !self.is_running() ==> r == Err::<AddressHash, NodeError>(NodeError::NotRunning {}),
            self.is_running() ==> ((r is Ok) <==> hex32_accepted(destination_hex@)),
            self.is_running() && (r is Err) ==> r == Err::<AddressHash, NodeError>(
                NodeError::InvalidConfig {},
            ),
            r is Ok ==> r->Ok_0@ == crate::strutil::ascii_chars(
                hex32_canonical(destination_hex@),
            ) && r->Ok_0.wf(),
    {
        match &self.core {
            Some(core) => core.begin_send(destination_hex),
            None => Err(NodeError::NotRunning {}),
        }
    }

    /// Record the transport's final outcome for one send: exactly one
    /// `PacketSent` with the command's address and bytes, then the reply —
    /// success for a sent packet, `NetworkError` for any drop.
    pub fn finish_send(
        &mut self,
        destination_hex: String,
        bytes: Vec<u8>,
        outcome: SendOutcome,
    ) -> (r: Result<(), NodeError>)
        ensures
            final(self).is_running() == old(self).is_running(),
            final(self).wf() == old(self).wf(),
            final(self).status_m() == old(self).status_m(),
            final(self).core_ref() == old(self).core_ref(),
            final(self).filter() == old(self).filter(),
            final(self).sub_count() == old(self).sub_count(),
            forall|j: int|
                0 <= j < final(self).sub_count() ==> final(self).is_open(j) == old(self).is_open(
                    j,
                ),
            !old(self).is_running() ==> r == Err::<(), NodeError>(NodeError::NotRunning {})
                && *final(self) == *old(self),
            old(self).is_running() ==> ((r is Ok) <==> (outcome == (SendOutcome::SentDirect {})
                || outcome == (SendOutcome::SentBroadcast {}))),
            old(self).is_running() && (r is Err) ==> r == Err::<(), NodeError>(
                NodeError::NetworkError {},
            ),
            old(self).is_running() ==> forall|j: int|
                0 <= j < final(self).sub_count() && old(self).is_open(j) ==> final(self).queue(j)
                    == old(self).queue(j).push(
                    EventModel::PacketSent {
                        destination_hex: destination_hex@,
                        bytes: bytes@,
                        outcome,
                    },
                ),
            forall|j: int|
                0 <= j < final(self).sub_count() && !old(self).is_open(j) ==> final(self).queue(j)
                    == old(self).queue(j),
    {
        match &self.core {
            Some(core) => core.finish_send(&mut self.bus, destination_hex, bytes, outcome),
            None => Err(NodeError::NotRunning {}),
        }
    }

    /// Snapshot of the peers a broadcast goes to.
    pub fn broadcast_targets(&self) -> (r: Result<Vec<String>, NodeError>)
        ensures
            !self.is_running() ==> r == Err::<Vec<String>, NodeError>(NodeError::NotRunning {}),
            self.is_running() ==> r is Ok && crate::runtime::views(r->Ok_0@)
                == self.core_ref().peers(),
    {
        match &self.core {
            Some(core) => Ok(core.broadcast_targets()),
            None => Err(NodeError::NotRunning {}),
        }
    }

    /// The reply to a broadcast: success when at least one target took the
    /// packet, `NetworkError` otherwise — also when there was no target.
    pub fn broadcast_reply(&self, outcomes: &Vec<SendOutcome>) -> (r: Result<(), NodeError>)
        ensures
            !self.is_running() ==> r == Err::<(), NodeError>(NodeError::NotRunning {}),
            self.is_running() ==> ((r is Ok) <==> exists|i: int|
                0 <= i < outcomes@.len() && ((outcomes@[i] == (SendOutcome::SentDirect {}))
                    || outcomes@[i] == (SendOutcome::SentBroadcast {}))),
            self.is_running() && (r is Err) ==> r == Err::<(), NodeError>(
                NodeError::NetworkError {},
            ),
    {
        match &self.core {
            Some(core) => core.broadcast_reply(outcomes),
            None => Err(NodeError::NotRunning {}),
        }
    }

    /// Replace the capability string.  On success the returned bytes are the
    /// new string's, and the host sends one fresh app-destination announce
    /// carrying exactly them.
    pub fn set_announce_capabilities(&mut self, capability_string: String) -> (r: Result<
        Vec<u8>,
        NodeError,
    >)
        ensures
            final(self).is_running() == old(self).is_running(),
            final(self).wf() == old(self).wf(),
            final(self).status_m() == old(self).status_m(),
            final(self).filter() == old(self).filter(),
            final(self).sub_count() == old(self).sub_count(),
            forall|j: int|
                0 <= j < final(self).sub_count() ==> final(self).queue(j) == old(self).queue(j),
            !old(self).is_running() ==> r == Err::<Vec<u8>, NodeError>(NodeError::NotRunning {})
                && *final(self) == *old(self),
            old(self).is_running() ==> r is Ok && r->Ok_0@ == vstd::utf8::encode_utf8(
                capability_string@,
            ) && final(self).core_ref().announce_capabilities@ == capability_string@ && final(self).core_ref().peers() == old(self).core_ref().peers() && final(self).core_ref().known() == old(self).core_ref().known() && final(self).core_ref().links() == old(self).core_ref().links() && final(self).core_ref().config == old(self).core_ref().config,
    {
        match &mut self.core {
            Some(core) => Ok(core.handle_set_announce_capabilities(capability_string)),
            None => Err(NodeError::NotRunning {}),
        }
    }

    /// The bytes the next periodic app-destination announce carries: the
    /// current capability string.
    pub fn announce_payload(&self) -> (r: Result<Vec<u8>, NodeError>)
        ensures
            !self.is_running() ==> r == Err::<Vec<u8>, NodeError>(NodeError::NotRunning {}),
            self.is_running() ==> r is Ok && r->Ok_0@ == vstd::utf8::encode_utf8(
                self.core_ref().announce_capabilities@,
            ),
    {
        match &self.core {
            Some(core) => Ok(core.announce_payload()),
            None => Err(NodeError::NotRunning {}),
        }
    }

    /// Which refresh path the configured hub mode selects; a disabled hub
    /// rejects the refresh with `InvalidConfig`.
    pub fn refresh_hub_path(&self) -> (r: Result<HubPath, NodeError>)
        ensures
            !self.is_running() ==> r == Err::<HubPath, NodeError>(NodeError::NotRunning {}),
            self.is_running() ==> ((r is Err) <==> self.core_ref().config.hub_mode == (
            crate::types::HubMode::Disabled {})),
            self.is_running() && (r is Err) ==> r == Err::<HubPath, NodeError>(
                NodeError::InvalidConfig {},
            ),
            self.is_running() && self.core_ref().config.hub_mode == (
            crate::types::HubMode::RchHttp {}) ==> r == Ok::<HubPath, NodeError>(HubPath::Http {}),
            self.is_running() && self.core_ref().config.hub_mode == (
            crate::types::HubMode::RchLxmf {}) ==> r == Ok::<HubPath, NodeError>(HubPath::Lxmf {}),
    {
        match &self.core {
            Some(core) => core.refresh_hub_dispatch(),
            None => Err(NodeError::NotRunning {}),
        }
    }

    /// Report a refreshed hub directory.
    pub fn finish_hub_refresh(&mut self, destinations: Vec<String>, received_at_ms: u64)
        ensures
            final(self).is_running() == old(self).is_running(),
            final(self).wf() == old(self).wf(),
            final(self).status_m() == old(self).status_m(),
            final(self).core_ref() == old(self).core_ref(),
            final(self).filter() == old(self).filter(),
            final(self).sub_count() == old(self).sub_count(),
            forall|j: int|
                0 <= j < final(self).sub_count() ==> final(self).is_open(j) == old(self).is_open(
                    j,
                ),
            forall|j: int|
                0 <= j < final(self).sub_count() && old(self).is_open(j) ==> final(self).queue(j)
                    == old(self).queue(j).push(
                    EventModel::HubDirectoryUpdated {
                        destinations: crate::runtime::views(destinations@),
                        received_at_ms,
                    },
                ),
            forall|j: int|
                0 <= j < final(self).sub_count() && !old(self).is_open(j) ==> final(self).queue(j)
                    == old(self).queue(j),
    {
        self.bus.emit(NodeEvent::HubDirectoryUpdated { destinations, received_at_ms });
    }

    /// Remember an announced destination and report the announce.  On a
    /// stopped node there is no session to record into and nothing happens.
    pub fn record_announce(
        &mut self,
        destination_hex: String,
        app_data: Vec<u8>,
        hops: u8,
        interface: Vec<u8>,
        received_at_ms: u64,
    )
        requires
            old(self).wf(),
        ensures
            final(self).wf(),
            final(self).is_running() == old(self).is_running(),
            !old(self).is_running() ==> *final(self) == *old(self),
            final(self).status_m() == old(self).status_m(),
            final(self).filter() == old(self).filter(),
            final(self).sub_count() == old(self).sub_count(),
            old(self).is_running() ==> (forall|y: Seq<char>|
                final(self).core_ref().known().contains(y) <==> old(self).core_ref().known().contains(y) || y == destination_hex@),
            old(self).is_running() ==> final(self).core_ref().peers() == old(self).core_ref().peers(),
            old(self).is_running() ==> final(self).core_ref().links() == old(self).core_ref().links(),
            old(self).is_running() ==> final(self).core_ref().config == old(self).core_ref().config,
            forall|j: int|
                0 <= j < final(self).sub_count() ==> final(self).is_open(j) == old(self).is_open(
                    j,
                ),
            old(self).is_running() ==> forall|j: int|
                0 <= j < final(self).sub_count() && old(self).is_open(j) ==> final(self).queue(j)
                    == old(self).queue(j).push(
                    EventModel::AnnounceReceived {
                        destination_hex: destination_hex@,
                        app_data: crate::runtime::spec_announce_text(app_data@),
                        hops,
                        interface_hex: crate::strutil::ascii_chars(
                            crate::address::spec_hex_encode(interface@),
                        ),
                        received_at_ms,
                    },
                ),
            forall|j: int|
                0 <= j < final(self).sub_count() && !old(self).is_open(j) ==> final(self).queue(j)
                    == old(self).queue(j),
    {
        match &mut self.core {
            Some(core) => {
                core.record_announce(
                    &mut self.bus,
                    destination_hex,
                    app_data,
                    hops,
                    interface,
                    received_at_ms,
                );
            },
            None => {},
        }
    }

    /// Report one received payload packet.
    pub fn record_packet_received(&mut self, destination_hex: String, bytes: Vec<u8>)
        ensures
            final(self).is_running() == old(self).is_running(),
            final(self).wf() == old(self).wf(),
            final(self).status_m() == old(self).status_m(),
            final(self).core_ref() == old(self).core_ref(),
            final(self).filter() == old(self).filter(),
            final(self).sub_count() == old(self).sub_count(),
            forall|j: int|
                0 <= j < final(self).sub_count() ==> final(self).is_open(j) == old(self).is_open(
                    j,
                ),
            forall|j: int|
                0 <= j < final(self).sub_count() && old(self).is_open(j) ==> final(self).queue(j)
                    == old(self).queue(j).push(
                    EventModel::PacketReceived {
                        destination_hex: destination_hex@,
                        bytes: bytes@,
                    },
                ),
            forall|j: int|
                0 <= j < final(self).sub_count() && !old(self).is_open(j) ==> final(self).queue(j)
                    == old(self).queue(j),
    {
        crate::runtime::record_packet(&mut self.bus, destination_hex, bytes);
    }

    /// Report one outbound-link lifecycle event.
    pub fn record_link_event(
        &mut self,
        destination_hex: String,
        kind: crate::runtime::LinkEventKind,
    )
        ensures
            final(self).is_running() == old(self).is_running(),
            final(self).wf() == old(self).wf(),
            final(self).status_m() == old(self).status_m(),
            final(self).core_ref() == old(self).core_ref(),
            final(self).filter() == old(self).filter(),
            final(self).sub_count() == old(self).sub_count(),
            forall|j: int|
                0 <= j < final(self).sub_count() ==> final(self).is_open(j) == old(self).is_open(
                    j,
                ),
            kind == (crate::runtime::LinkEventKind::Activated {}) ==> forall|j: int|
                0 <= j < final(self).sub_count() && old(self).is_open(j) ==> final(self).queue(j)
                    == old(self).queue(j).push(
                    peer_change_model(destination_hex@, PeerState::Connected {}, None),
                ),
            kind == (crate::runtime::LinkEventKind::Closed {}) ==> forall|j: int|
                0 <= j < final(self).sub_count() && old(self).is_open(j) ==> final(self).queue(j)
                    == old(self).queue(j).push(
                    peer_change_model(destination_hex@, PeerState::Disconnected {}, None),
                ),
            kind == (crate::runtime::LinkEventKind::Data {}) ==> forall|j: int|
                0 <= j < final(self).sub_count() ==> final(self).queue(j) == old(self).queue(j),
            forall|j: int|
                0 <= j < final(self).sub_count() && !old(self).is_open(j) ==> final(self).queue(j)
                    == old(self).queue(j),
    {
        crate::runtime::link_event_update(&mut self.bus, destination_hex, kind);
    }

    /// Whether an announced descriptor for the address is already cached.
    pub fn knows_destination(&self, destination_hex: &String) -> (r: Result<bool, NodeError>)
        ensures
            !self.is_running() ==> r == Err::<bool, NodeError>(NodeError::NotRunning {}),
            self.is_running() ==> r == Ok::<bool, NodeError>(
                self.core_ref().known().contains(destination_hex@),
            ),
    {
        match &self.core {
            Some(core) => Ok(core.knows_destination(destination_hex)),
            None => Err(NodeError::NotRunning {}),
        }
    }

    /// Track an outbound link to the address; true asks the host to create
    /// the real link session.
    pub fn track_link(&mut self, destination_hex: String) -> (r: Result<bool, NodeError>)
        requires
            old(self).wf(),
        ensures
            final(self).wf(),
            final(self).is_running() == old(self).is_running(),
            final(self).status_m() == old(self).status_m(),
            final(self).filter() == old(self).filter(),
            final(self).sub_count() == old(self).sub_count(),
            forall|j: int|
                0 <= j < final(self).sub_count() ==> final(self).queue(j) == old(self).queue(j),
            !old(self).is_running() ==> r == Err::<bool, NodeError>(NodeError::NotRunning {})
                && *final(self) == *old(self),
            old(self).is_running() ==> r == Ok::<bool, NodeError>(
                !old(self).core_ref().links().contains(destination_hex@),
            ) && (forall|y: Seq<char>|
                final(self).core_ref().links().contains(y) <==> old(self).core_ref().links().contains(y) || y == destination_hex@) && final(self).core_ref().peers() == old(self).core_ref().peers() && final(self).core_ref().known() == old(self).core_ref().known() && final(self).core_ref().config == old(self).core_ref().config,
    {
        match &mut self.core {
            Some(core) => Ok(core.track_link(destination_hex)),
            None => Err(NodeError::NotRunning {}),
        }
    }

    /// The endpoints the startup spawns one TCP driver for: blank entries
    /// are skipped.
    pub fn startup_endpoints(&self) -> (r: Result<Vec<String>, NodeError>)
        ensures
            !self.is_running() ==> r == Err::<Vec<String>, NodeError>(NodeError::NotRunning {}),
            self.is_running() ==> r is Ok && crate::runtime::views(r->Ok_0@)
                == crate::config::spec_endpoints(
                crate::runtime::views(self.core_ref().config.tcp_clients@),
            ),
    {
        match &self.core {
            Some(core) => Ok(core.startup_endpoints()),
            None => Err(NodeError::NotRunning {}),
        }
    }

    /// The running session's configuration.
    pub fn current_config(&self) -> (r: Result<&NodeConfig, NodeError>)
        ensures
            !self.is_running() ==> r is Err && r->Err_0 == (NodeError::NotRunning {}),
            self.is_running() ==> r is Ok && *r->Ok_0 == self.core_ref().config,
    {
        match &self.core {
            Some(core) => Ok(&core.config),
            None => Err(NodeError::NotRunning {}),
        }
    }

}

/// With no storage directory the identity is derived from the name alone:
/// two starts with the same name install the same identity and destination
/// addresses.
pub proof fn lemma_derived_identity_deterministic(c1: NodeConfig, c2: NodeConfig)
    requires
        c1.name@ == c2.name@,
    ensures
        started_status_model(c1, None) == started_status_model(c2, None),
{
}

} // verus!
