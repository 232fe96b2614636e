//! Normalization of raw host-supplied configuration into a `NodeConfig`:
//! defaults, trimming, blank-to-absent collapsing and interval clamping.

use vstd::prelude::*;

use crate::strutil::bytes_eq_str;
use crate::strutil::lower_bytes;
use crate::strutil::spec_lower;
use crate::strutil::str_bytes;
use crate::strutil::trim_chars;
use crate::strutil::trim_str;
use crate::types::HubMode;
use crate::types::LogLevel;
use crate::types::NodeConfig;

verus! {

use vstd::string::StringSliceAdditionalSpecFns;

/// Raw configuration as the host hands it over, before defaults apply.
#[derive(Debug, Clone)]
pub struct NodeConfigInput {
    pub name: Option<String>,
    pub storage_dir: Option<String>,
    pub tcp_clients: Option<Vec<String>>,
    pub broadcast: Option<bool>,
    pub announce_interval_seconds: Option<u32>,
    pub announce_capabilities: Option<String>,
    pub hub_mode: Option<String>,
    pub hub_identity_hash: Option<String>,
    pub hub_api_base_url: Option<String>,
    pub hub_api_key: Option<String>,
    pub hub_refresh_interval_seconds: Option<u32>,
}

/// The hub mode a raw string denotes: trimmed, case-insensitive; unknown
/// values fold to disabled.
pub open spec fn spec_hub_mode(s: Seq<char>) -> HubMode {
    let l = spec_lower(vstd::utf8::encode_utf8(trim_chars(s)));
    if l == "rchlxmf".spec_bytes() || l == "rch_lxmf".spec_bytes() {
        HubMode::RchLxmf {}
    } else if l == "rchhttp".spec_bytes() || l == "rch_http".spec_bytes() {
        HubMode::RchHttp {}
    } else {
        HubMode::Disabled {}
    }
}

/// Parse a hub-mode name; absent or unrecognized values give `Disabled`.
pub fn parse_hub_mode(value: Option<&str>) -> (r: HubMode)
    ensures
        value is Some ==> r == spec_hub_mode(value->0@),
        value is None ==> r == (HubMode::Disabled {}),
{
    match value {
        None => HubMode::Disabled {},
        Some(v) => {
            let kept = trim_str(v);
            let l = lower_bytes(&str_bytes(kept.as_str()));
            if bytes_eq_str(&l, "rchlxmf") || bytes_eq_str(&l, "rch_lxmf") {
                HubMode::RchLxmf {}
            } else if bytes_eq_str(&l, "rchhttp") || bytes_eq_str(&l, "rch_http") {
                HubMode::RchHttp {}
            } else {
                HubMode::Disabled {}
            }
        },
    }
}

/// The log level a raw string denotes: trimmed, case-insensitive; unknown
/// values fold to `Info`.
pub open spec fn spec_log_level(s: Seq<char>) -> LogLevel {
    let l = spec_lower(vstd::utf8::encode_utf8(trim_chars(s)));
    if l == "trace".spec_bytes() {
        LogLevel::Trace {}
    } else if l == "debug".spec_bytes() {
        LogLevel::Debug {}
    } else if l == "warn".spec_bytes() {
        LogLevel::Warn {}
    } else if l == "error".spec_bytes() {
        LogLevel::Error {}
    } else {
        LogLevel::Info {}
    }
}

/// Parse a log-level name; absent or unrecognized values give `Info`.
pub fn parse_log_level(value: Option<&str>) -> (r: LogLevel)
    ensures
        value is Some ==> r == spec_log_level(value->0@),
        value is None ==> r == (LogLevel::Info {}),
{
    match value {
        None => LogLevel::Info {},
        Some(v) => {
            let kept = trim_str(v);
            let l = lower_bytes(&str_bytes(kept.as_str()));
            if bytes_eq_str(&l, "trace") {
                LogLevel::Trace {}
            } else if bytes_eq_str(&l, "debug") {
                LogLevel::Debug {}
            } else if bytes_eq_str(&l, "warn") {
                LogLevel::Warn {}
            } else if bytes_eq_str(&l, "error") {
                LogLevel::Error {}
            } else {
                LogLevel::Info {}
            }
        },
    }
}

/// A trimmed string, or the default where the input is absent or blank.
pub open spec fn spec_text_or(v: Option<Seq<char>>, default: Seq<char>) -> Seq<char> {
    match v {
        Some(s) => if trim_chars(s).len() > 0 {
            trim_chars(s)
        } else {
            default
        },
        None => default,
    }
}

/// A trimmed string, or absent where the input is absent or blank.
pub open spec fn spec_opt_text(v: Option<Seq<char>>) -> Option<Seq<char>> {
    match v {
        Some(s) => if trim_chars(s).len() > 0 {
            Some(trim_chars(s))
        } else {
            None
        },
        None => None,
    }
}

/// The non-blank endpoints, each trimmed, in order.
pub open spec fn spec_endpoints(v: Seq<Seq<char>>) -> Seq<Seq<char>>
    decreases v.len(),
{
    if v.len() == 0 {
        Seq::empty()
    } else {
        let rest = spec_endpoints(v.drop_last());
        let t = trim_chars(v.last());
        if t.len() > 0 {
            rest.push(t)
        } else {
            rest
        }
    }
}

/// An interval clamped to at least one second.
pub open spec fn spec_clamp_interval(v: u32) -> u32 {
    if v == 0 {
        1
    } else {
        v
    }
}

/// The view of an optional string.
pub open spec fn view_opt(v: Option<String>) -> Option<Seq<char>> {
    match v {
        Some(s) => Some(s@),
        None => None,
    }
}

fn text_or(v: &Option<String>, default: &str) -> (r: String)
    ensures
        r@ == spec_text_or(
            match v {
                Some(s) => Some(s@),
                None => None::<Seq<char>>,
            },
            default@,
        ),
{
    match v {
        Some(s) => {
            let t = trim_str(s.as_str());
            if t.unicode_len() > 0 {
                t
            } else {
                default.to_owned()
            }
        },
        None => default.to_owned(),
    }
}

fn opt_text(v: &Option<String>) -> (r: Option<String>)
    ensures
        view_opt(r) == spec_opt_text(
            match v {
                Some(s) => Some(s@),
                None => None::<Seq<char>>,
            },
        ),
{
    match v {
        Some(s) => {
            let t = trim_str(s.as_str());
            if t.unicode_len() > 0 {
                Some(t)
            } else {
                None
            }
        },
        None => None,
    }
}

fn clamp_interval(v: u32) -> (r: u32)
    ensures
        r == spec_clamp_interval(v),
{
    if v == 0 {
        1
    } else {
        v
    }
}

/// The non-blank endpoints of a raw list, each trimmed, in order.
pub fn trimmed_endpoints(v: &Vec<String>) -> (r: Vec<String>)
    ensures
        r@.map_values(|s: String| s@) == spec_endpoints(v@.map_values(|s: String| s@)),
{
    let ghost views = v@.map_values(|s: String| s@);
    let mut out: Vec<String> = Vec::new();
    let mut k: usize = 0;
    while k < v.len()
        invariant
            0 <= k <= v@.len(),
            views == v@.map_values(|s: String| s@),
            out@.map_values(|s: String| s@) == spec_endpoints(views.subrange(0, k as int)),
        decreases v@.len() - k,
    {
        let ghost before = out@.map_values(|s: String| s@);
        let t = trim_str(v[k].as_str());
        proof {
            let next = views.subrange(0, k + 1 as int);
            assert(next.drop_last() =~= views.subrange(0, k as int));
            assert(next.last() == views[k as int]);
        }
        if t.unicode_len() > 0 {
            out.push(t);
            proof {
                assert(out@.map_values(|s: String| s@) =~= before.push(trim_chars(
                    views[k as int],
                )));
            }
        }
        k = k + 1;
    }
    proof {
        assert(views.subrange(0, views.len() as int) =~= views);
    }
    out
}

/// Fill a raw configuration in: default name, trimmed fields, blank
/// optionals collapsed to absent, blank endpoints skipped, hub mode parsed,
/// and both intervals clamped to at least one second.
pub fn parse_node_config(input: NodeConfigInput) -> (r: NodeConfig)
    ensures
        r.name@ == spec_text_or(view_opt(input.name), "emergency-ops-mobile"@),
        view_opt(r.storage_dir) == spec_opt_text(view_opt(input.storage_dir)),
        r.tcp_clients@.map_values(|s: String| s@) == spec_endpoints(
            match input.tcp_clients {
                Some(v) => v@.map_values(|s: String| s@),
                None => Seq::<Seq<char>>::empty(),
            },
        ),
        r.broadcast == (match input.broadcast {
            Some(b) => b,
            None => true,
        }),
        r.announce_interval_seconds == spec_clamp_interval(
            match input.announce_interval_seconds {
                Some(v) => v,
                None => 1800,
            },
        ),
        r.announce_capabilities@ == spec_text_or(
            view_opt(input.announce_capabilities),
            "R3AKT,EMergencyMessages"@,
        ),
        r.hub_mode == (match input.hub_mode {
            Some(ref s) => spec_hub_mode(s@),
            None => HubMode::Disabled {},
        }),
        view_opt(r.hub_identity_hash) == spec_opt_text(view_opt(input.hub_identity_hash)),
        view_opt(r.hub_api_base_url) == spec_opt_text(view_opt(input.hub_api_base_url)),
        view_opt(r.hub_api_key) == spec_opt_text(view_opt(input.hub_api_key)),
        r.hub_refresh_interval_seconds == spec_clamp_interval(
            match input.hub_refresh_interval_seconds {
                Some(v) => v,
                None => 3600,
            },
        ),
{
    let name = text_or(&input.name, "emergency-ops-mobile");
    let storage_dir = opt_text(&input.storage_dir);
    let tcp_clients = match &input.tcp_clients {
        Some(v) => trimmed_endpoints(v),
        None => {
            proof {
                assert(Seq::<Seq<char>>::empty().map_values(|s: Seq<char>| trim_chars(s))
                    =~= Seq::<Seq<char>>::empty());
                assert(spec_endpoints(Seq::<Seq<char>>::empty())
                    =~= Seq::<Seq<char>>::empty());
            }
            Vec::new()
        },
    };
    let broadcast = match input.broadcast {
        Some(b) => b,
        None => true,
    };
    let announce_interval_seconds = clamp_interval(
        match input.announce_interval_seconds {
            Some(v) => v,
            None => 1800,
        },
    );
    let announce_capabilities = text_or(&input.announce_capabilities, "R3AKT,EMergencyMessages");
    let hub_mode = parse_hub_mode(
        match &input.hub_mode {
            Some(s) => Some(s.as_str()),
            None => None,
        },
    );
    let hub_identity_hash = opt_text(&input.hub_identity_hash);
    let hub_api_base_url = opt_text(&input.hub_api_base_url);
    let hub_api_key = opt_text(&input.hub_api_key);
    let hub_refresh_interval_seconds = clamp_interval(
        match input.hub_refresh_interval_seconds {
            Some(v) => v,
            None => 3600,
        },
    );
    NodeConfig {
        name,
        storage_dir,
        tcp_clients,
        broadcast,
        announce_interval_seconds,
        announce_capabilities,
        hub_mode,
        hub_identity_hash,
        hub_api_base_url,
        hub_api_key,
        hub_refresh_interval_seconds,
    }
}

} // verus!
