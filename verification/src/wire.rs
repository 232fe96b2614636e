//! The wire form of events: one compact JSON object per event, shape
//! `{"event":<name>,"payload":{...}}`, keys in alphabetical order, strings
//! escaped as JSON asks, packet bytes as standard base64.

use vstd::prelude::*;

use crate::address::hex_digit_of;
use crate::types::EventModel;
use crate::types::NodeError;
use crate::types::NodeEvent;
use crate::types::NodeStatus;
use crate::types::StatusModel;
use crate::types::event_model;
use crate::types::spec_log_level_str;
use crate::types::spec_peer_state_str;
use crate::types::spec_send_outcome_str;
use crate::types::status_model;

verus! {

use vstd::string::StrSliceExecFns;
use vstd::string::StringExecFns;

/// The standard base64 alphabet's character for a six-bit value.
pub open spec fn base64_char(v: u8) -> char {
    if v < 26 {
        ((65 + v) as u8) as char
    } else if v < 52 {
        ((71 + v) as u8) as char
    } else if v < 62 {
        ((v - 4) as u8) as char
    } else if v == 62 {
        '+'
    } else {
        '/'
    }
}

/// The standard base64 encoding with padding: three bytes into four
/// characters, the last group padded with `=`.
pub open spec fn base64_of(bytes: Seq<u8>) -> Seq<char>
    decreases bytes.len(),
{
    if bytes.len() == 0 {
        Seq::empty()
    } else if bytes.len() == 1 {
        let b0 = bytes[0];
        seq![base64_char(b0 / 4), base64_char(((b0 % 4) * 16) as u8), '=', '=']
    } else if bytes.len() == 2 {
        let b0 = bytes[0];
        let b1 = bytes[1];
        seq![
            base64_char(b0 / 4),
            base64_char(((b0 % 4) * 16 + b1 / 16) as u8),
            base64_char(((b1 % 16) * 4) as u8),
            '=',
        ]
    } else {
        let b0 = bytes[0];
        let b1 = bytes[1];
        let b2 = bytes[2];
        seq![
            base64_char(b0 / 4),
            base64_char(((b0 % 4) * 16 + b1 / 16) as u8),
            base64_char(((b1 % 16) * 4 + b2 / 64) as u8),
            base64_char((b2 % 64) as u8),
        ] + base64_of(bytes.skip(3))
    }
}

/// Relies on `base64`'s standard engine: the standard alphabet with padding,
/// group by group over the bytes.
#[verifier::external_body]
pub fn base64_encode(bytes: &Vec<u8>) -> (r: String)
    ensures
        r@ == base64_of(bytes@),
{
    base64::Engine::encode(&base64::engine::general_purpose::STANDARD, bytes.as_slice())
}

/// Relies on `base64`'s standard engine decode, which requires canonical
/// padding and rejects set trailing bits: it accepts exactly the texts the
/// encoding produces, and returns the bytes that produce them.
#[verifier::external_body]
fn base64_decode(text: &str) -> (r: Option<Vec<u8>>)
    ensures
        r is Some ==> base64_of(r->0@) == text@,
        r is None ==> forall|b: Seq<u8>| base64_of(b) != text@,
{
    match base64::Engine::decode(&base64::engine::general_purpose::STANDARD, text.as_bytes()) {
        Ok(bytes) => Some(bytes),
        Err(_) => None,
    }
}

/// Decode a host-supplied base64 payload; text that is not a standard
/// padded encoding is a configuration fault.
pub fn parse_base64_payload(text: &str) -> (r: Result<Vec<u8>, NodeError>)
    ensures
        (r is Ok) <==> (exists|b: Seq<u8>| base64_of(b) == text@),
        r is Ok ==> base64_of(r->Ok_0@) == text@,
        r is Err ==> r->Err_0 == (NodeError::InvalidConfig {}),
{
    match base64_decode(text) {
        Some(bytes) => {
            proof {
                assert(base64_of(bytes@) == text@);
            }
            Ok(bytes)
        },
        None => Err(NodeError::InvalidConfig {}),
    }
}

/// The decimal text of a number.
pub open spec fn dec_bytes(n: nat) -> Seq<u8>
    decreases n,
{
    if n < 10 {
        seq![(48 + n) as u8]
    } else {
        dec_bytes(n / 10).push((48 + n % 10) as u8)
    }
}

/// The decimal text of a number, as characters.
pub open spec fn dec_chars(n: nat) -> Seq<char> {
    crate::strutil::ascii_chars(dec_bytes(n))
}

proof fn lemma_dec_bytes_ascii(n: nat)
    ensures
        crate::strutil::is_ascii_bytes(dec_bytes(n)),
    decreases n,
{
    if n >= 10 {
        lemma_dec_bytes_ascii(n / 10);
        assert forall|i: int| 0 <= i < dec_bytes(n).len() implies dec_bytes(n)[i] < 128 by {
            if i < dec_bytes(n / 10).len() {
                assert(dec_bytes(n)[i] == dec_bytes(n / 10)[i]);
            }
        }
    }
}

/// The decimal text of a 64-bit number.
pub fn u64_to_string(n: u64) -> (r: String)
    ensures
        r@ == dec_chars(n as nat),
{
    let mut digits: Vec<u8> = Vec::new();
    let mut m: u64 = n;
    digits.push(48 + (m % 10) as u8);
    m = m / 10;
    proof {
        if m > 0 {
            assert(dec_bytes(n as nat) =~= dec_bytes(m as nat) + digits@);
        } else {
            assert(dec_bytes(n as nat) =~= digits@);
        }
    }
    while m > 0
        invariant
            m > 0 ==> dec_bytes(n as nat) == dec_bytes(m as nat) + digits@,
            m == 0 ==> dec_bytes(n as nat) == digits@,
        decreases m,
    {
        let ghost before = digits@;
        let d: u8 = 48 + (m % 10) as u8;
        digits.insert(0, d);
        proof {
            assert(digits@ =~= seq![d] + before);
            if m >= 10 {
                assert(dec_bytes(m as nat) == dec_bytes((m / 10) as nat).push(d));
                assert(dec_bytes((m / 10) as nat) + digits@ =~= dec_bytes(m as nat) + before);
            } else {
                assert(dec_bytes(m as nat) =~= seq![d]);
                assert(digits@ =~= dec_bytes(m as nat) + before);
            }
        }
        m = m / 10;
    }
    proof {
        lemma_dec_bytes_ascii(n as nat);
    }
    crate::strutil::ascii_to_string(digits)
}

/// The JSON text of a boolean.
pub open spec fn bool_chars(b: bool) -> Seq<char> {
    if b {
        "true"@
    } else {
        "false"@
    }
}

fn bool_to_str(b: bool) -> (r: &'static str)
    ensures
        r@ == bool_chars(b),
{
    if b {
        "true"
    } else {
        "false"
    }
}

/// How one character appears inside a JSON string: quote and backslash are
/// escaped, the five short control escapes are used, any other control
/// character takes the four-digit form, everything else stands as it is.
pub open spec fn json_escape_char(c: char) -> Seq<char> {
    if c == '"' {
        seq!['\\', '"']
    } else if c == '\\' {
        seq!['\\', '\\']
    } else if c == '\u{8}' {
        seq!['\\', 'b']
    } else if c == '\t' {
        seq!['\\', 't']
    } else if c == '\n' {
        seq!['\\', 'n']
    } else if c == '\u{c}' {
        seq!['\\', 'f']
    } else if c == '\r' {
        seq!['\\', 'r']
    } else if (c as u32) < 32 {
        seq!['\\', 'u', '0', '0'] + seq![
            hex_digit_of(((c as u32) / 16) as u8) as char,
            hex_digit_of(((c as u32) % 16) as u8) as char,
        ]
    } else {
        seq![c]
    }
}

/// A character sequence escaped for JSON.
pub open spec fn json_escape(s: Seq<char>) -> Seq<char>
    decreases s.len(),
{
    if s.len() == 0 {
        Seq::empty()
    } else {
        json_escape(s.drop_last()) + json_escape_char(s.last())
    }
}

/// A JSON string: quotes around the escaped text.
pub open spec fn json_string(s: Seq<char>) -> Seq<char> {
    seq!['"'] + json_escape(s) + seq!['"']
}

fn append_hex_digit_char(out: &mut String, v: u8)
    requires
        v < 16,
    ensures
        final(out)@ == old(out)@ + seq![hex_digit_of(v) as char],
{
    let table = "0123456789abcdef";
    proof {
        reveal_strlit("0123456789abcdef");
    }
    let piece = table.substring_char(v as usize, v as usize + 1);
    out.append(piece);
    proof {
        assert(piece@ =~= seq![table@[v as int]]);
        assert(table@[v as int] == hex_digit_of(v) as char);
    }
}

/// Append the JSON string form of a text.
#[verifier::rlimit(50)]
fn append_json_string(out: &mut String, s: &str)
    ensures
        final(out)@ == old(out)@ + json_string(s@),
{
    out.append("\"");
    proof {
        reveal_strlit("\"");
        assert("\""@ =~= seq!['"']);
    }
    let n = s.unicode_len();
    let mut i: usize = 0;
    while i < n
        invariant
            0 <= i <= n,
            n == s@.len(),
            out@ == old(out)@ + seq!['"'] + json_escape(s@.subrange(0, i as int)),
        decreases n - i,
    {
        let ghost sofar = out@;
        let c = s.get_char(i);
        proof {
            assert(s@.subrange(0, i + 1 as int).drop_last() =~= s@.subrange(0, i as int));
            assert(s@.subrange(0, i + 1 as int).last() == c);
        }
        if c == '"' {
            out.append("\\\"");
            proof {
                reveal_strlit("\\\"");
                assert("\\\""@ =~= seq!['\\', '"']);
            }
        } else if c == '\\' {
            out.append("\\\\");
            proof {
                reveal_strlit("\\\\");
                assert("\\\\"@ =~= seq!['\\', '\\']);
            }
        } else if c == '\u{8}' {
            out.append("\\b");
            proof {
                reveal_strlit("\\b");
                assert("\\b"@ =~= seq!['\\', 'b']);
            }
        } else if c == '\t' {
            out.append("\\t");
            proof {
                reveal_strlit("\\t");
                assert("\\t"@ =~= seq!['\\', 't']);
            }
        } else if c == '\n' {
            out.append("\\n");
            proof {
                reveal_strlit("\\n");
                assert("\\n"@ =~= seq!['\\', 'n']);
            }
        } else if c == '\u{c}' {
            out.append("\\f");
            proof {
                reveal_strlit("\\f");
                assert("\\f"@ =~= seq!['\\', 'f']);
            }
        } else if c == '\r' {
            out.append("\\r");
            proof {
                reveal_strlit("\\r");
                assert("\\r"@ =~= seq!['\\', 'r']);
            }
        } else if (c as u32) < 32 {
            out.append("\\u00");
            proof {
                reveal_strlit("\\u00");
                assert("\\u00"@ =~= seq!['\\', 'u', '0', '0']);
            }
            let code = c as u32;
            append_hex_digit_char(out, (code / 16) as u8);
            append_hex_digit_char(out, (code % 16) as u8);
            proof {
                assert(out@ =~= sofar + (seq!['\\', 'u', '0', '0'] + seq![
                    hex_digit_of(((c as u32) / 16) as u8) as char,
                    hex_digit_of(((c as u32) % 16) as u8) as char,
                ]));
            }
        } else {
            let piece = s.substring_char(i, i + 1);
            out.append(piece);
            proof {
                assert(piece@ =~= seq![c]);
            }
        }
        proof {
            assert(out@ =~= sofar + json_escape_char(c));
            assert(out@ =~= old(out)@ + seq!['"'] + json_escape(s@.subrange(0, i + 1 as int)));
        }
        i = i + 1;
    }
    out.append("\"");
    proof {
        assert(s@.subrange(0, n as int) =~= s@);
        assert(out@ =~= old(out)@ + json_string(s@));
    }
}

/// The JSON text of either a string or null.
pub open spec fn json_opt_string(s: Option<Seq<char>>) -> Seq<char> {
    match s {
        Some(t) => json_string(t),
        None => "null"@,
    }
}

fn append_json_opt_string(out: &mut String, s: &Option<String>)
    ensures
        final(out)@ == old(out)@ + json_opt_string(crate::config::view_opt(*s)),
{
    match s {
        Some(t) => {
            append_json_string(out, t.as_str());
        },
        None => {
            out.append("null");
        },
    }
}

/// The JSON array of strings.
pub open spec fn json_string_items(items: Seq<Seq<char>>) -> Seq<char>
    decreases items.len(),
{
    if items.len() == 0 {
        Seq::empty()
    } else if items.len() == 1 {
        json_string(items[0])
    } else {
        json_string_items(items.drop_last()) + seq![','] + json_string(items.last())
    }
}

pub open spec fn json_string_array(items: Seq<Seq<char>>) -> Seq<char> {
    seq!['['] + json_string_items(items) + seq![']']
}

fn append_json_string_array(out: &mut String, items: &Vec<String>)
    ensures
        final(out)@ == old(out)@ + json_string_array(crate::runtime::views(items@)),
{
    let ghost views = crate::runtime::views(items@);
    out.append("[");
    proof {
        reveal_strlit("[");
        reveal_strlit("]");
        reveal_strlit(",");
        assert("["@ =~= seq!['[']);
        assert("]"@ =~= seq![']']);
        assert(","@ =~= seq![',']);
    }
    let mut q: usize = 0;
    while q < items.len()
        invariant
            0 <= q <= items@.len(),
            views == crate::runtime::views(items@),
            out@ == old(out)@ + seq!['['] + json_string_items(views.subrange(0, q as int)),
            ","@ == seq![','],
        decreases items@.len() - q,
    {
        let ghost sofar = out@;
        proof {
            assert(views.subrange(0, q + 1 as int).drop_last() =~= views.subrange(0, q as int));
            assert(views.subrange(0, q + 1 as int).last() == views[q as int]);
            assert(views[q as int] == items@[q as int]@);
        }
        if q > 0 {
            out.append(",");
        }
        append_json_string(out, items[q].as_str());
        proof {
            if q == 0 {
                assert(views.subrange(0, 1).len() == 1);
                assert(out@ =~= old(out)@ + seq!['['] + json_string_items(
                    views.subrange(0, q + 1 as int),
                ));
            } else {
                assert(out@ =~= old(out)@ + seq!['['] + json_string_items(
                    views.subrange(0, q + 1 as int),
                ));
            }
        }
        q = q + 1;
    }
    out.append("]");
    proof {
        assert(views.subrange(0, views.len() as int) =~= views);
        assert(out@ =~= old(out)@ + json_string_array(views));
    }
}

/// The JSON object of a status, keys in alphabetical order.
pub open spec fn spec_status_json(s: StatusModel) -> Seq<char> {
    "{\"appDestinationHex\":"@ + json_string(s.app_destination_hex) + ",\"identityHex\":"@
        + json_string(s.identity_hex) + ",\"lxmfDestinationHex\":"@ + json_string(
        s.lxmf_destination_hex,
    ) + ",\"name\":"@ + json_string(s.name) + ",\"running\":"@ + bool_chars(s.running) + "}"@
}

fn append_status_json(out: &mut String, status: &NodeStatus)
    ensures
        final(out)@ == old(out)@ + spec_status_json(status_model(*status)),
{
    out.append("{\"appDestinationHex\":");
    append_json_string(out, status.app_destination_hex.as_str());
    out.append(",\"identityHex\":");
    append_json_string(out, status.identity_hex.as_str());
    out.append(",\"lxmfDestinationHex\":");
    append_json_string(out, status.lxmf_destination_hex.as_str());
    out.append(",\"name\":");
    append_json_string(out, status.name.as_str());
    out.append(",\"running\":");
    let b = bool_to_str(status.running);
    out.append(b);
    out.append("}");
    proof {
        assert(out@ =~= old(out)@ + spec_status_json(status_model(*status)));
    }
}

/// The status snapshot as hosts read it over the embedding surface.
pub fn status_to_json(status: &NodeStatus) -> (r: String)
    ensures
        r@ == spec_status_json(status_model(*status)),
{
    let mut out = String::new();
    append_status_json(&mut out, status);
    proof {
        assert(out@ =~= spec_status_json(status_model(*status)));
    }
    out
}

/// The wire JSON of one event: `{"event":<name>,"payload":{...}}` with the
/// payload keys in alphabetical order, packet bytes as base64.
pub open spec fn spec_event_json(e: EventModel) -> Seq<char> {
    match e {
        EventModel::StatusChanged { status } => "{\"event\":\"statusChanged\",\"payload\":{\"status\":"@
            + spec_status_json(status) + "}}"@,
        EventModel::AnnounceReceived {
            destination_hex,
            app_data,
            hops,
            interface_hex,
            received_at_ms,
        } => "{\"event\":\"announceReceived\",\"payload\":{\"appData\":"@ + json_string(app_data)
            + ",\"destinationHex\":"@ + json_string(destination_hex) + ",\"hops\":"@ + dec_chars(
            hops as nat,
        ) + ",\"interfaceHex\":"@ + json_string(interface_hex) + ",\"receivedAtMs\":"@ + dec_chars(
            received_at_ms as nat,
        ) + "}}"@,
        EventModel::PeerChanged { destination_hex, state, last_error } => (
        "{\"event\":\"peerChanged\",\"payload\":{\"change\":{\"destinationHex\":"@ + json_string(
            destination_hex,
        ) + ",\"lastError\":"@ + json_opt_string(last_error) + ",\"state\":"@ + json_string(
            spec_peer_state_str(state),
        ) + "}}}"@),
        EventModel::PacketReceived { destination_hex, bytes } => (
        "{\"event\":\"packetReceived\",\"payload\":{\"bytesBase64\":"@ + json_string(
            base64_of(bytes),
        ) + ",\"destinationHex\":"@ + json_string(destination_hex) + "}}"@),
        EventModel::PacketSent { destination_hex, bytes, outcome } => (
        "{\"event\":\"packetSent\",\"payload\":{\"bytesBase64\":"@ + json_string(base64_of(bytes))
            + ",\"destinationHex\":"@ + json_string(destination_hex) + ",\"outcome\":"@
            + json_string(spec_send_outcome_str(outcome)) + "}}"@),
        EventModel::HubDirectoryUpdated { destinations, received_at_ms } => (
        "{\"event\":\"hubDirectoryUpdated\",\"payload\":{\"destinations\":"@ + json_string_array(
            destinations,
        ) + ",\"receivedAtMs\":"@ + dec_chars(received_at_ms as nat) + "}}"@),
        EventModel::Log { level, message } => "{\"event\":\"log\",\"payload\":{\"level\":"@
            + json_string(spec_log_level_str(level)) + ",\"message\":"@ + json_string(message)
            + "}}"@,
        EventModel::Error { code, message } => "{\"event\":\"error\",\"payload\":{\"code\":"@
            + json_string(code) + ",\"message\":"@ + json_string(message) + "}}"@,
    }
}

/// Serialize one event for the embedding surface.
pub fn event_to_wire_json(event: &NodeEvent) -> (r: String)
    ensures
        r@ == spec_event_json(event_model(*event)),
{
    let mut out = String::new();
    match event {
        NodeEvent::StatusChanged { status } => {
            out.append("{\"event\":\"statusChanged\",\"payload\":{\"status\":");
            append_status_json(&mut out, status);
            out.append("}}");
        },
        NodeEvent::AnnounceReceived {
            destination_hex,
            app_data,
            hops,
            interface_hex,
            received_at_ms,
        } => {
            out.append("{\"event\":\"announceReceived\",\"payload\":{\"appData\":");
            append_json_string(&mut out, app_data.as_str());
            out.append(",\"destinationHex\":");
            append_json_string(&mut out, destination_hex.as_str());
            out.append(",\"hops\":");
            let hops_text = u64_to_string(*hops as u64);
            out.append(hops_text.as_str());
            out.append(",\"interfaceHex\":");
            append_json_string(&mut out, interface_hex.as_str());
            out.append(",\"receivedAtMs\":");
            let at_text = u64_to_string(*received_at_ms);
            out.append(at_text.as_str());
            out.append("}}");
        },
        NodeEvent::PeerChanged { change } => {
            out.append("{\"event\":\"peerChanged\",\"payload\":{\"change\":{\"destinationHex\":");
            append_json_string(&mut out, change.destination_hex.as_str());
            out.append(",\"lastError\":");
            append_json_opt_string(&mut out, &change.last_error);
            out.append(",\"state\":");
            let state_name = crate::types::peer_state_to_str(change.state);
            append_json_string(&mut out, state_name);
            out.append("}}}");
        },
        NodeEvent::PacketReceived { destination_hex, bytes } => {
            out.append("{\"event\":\"packetReceived\",\"payload\":{\"bytesBase64\":");
            let encoded = base64_encode(bytes);
            append_json_string(&mut out, encoded.as_str());
            out.append(",\"destinationHex\":");
            append_json_string(&mut out, destination_hex.as_str());
            out.append("}}");
        },
        NodeEvent::PacketSent { destination_hex, bytes, outcome } => {
            out.append("{\"event\":\"packetSent\",\"payload\":{\"bytesBase64\":");
            let encoded = base64_encode(bytes);
            append_json_string(&mut out, encoded.as_str());
            out.append(",\"destinationHex\":");
            append_json_string(&mut out, destination_hex.as_str());
            out.append(",\"outcome\":");
            let outcome_name = crate::types::send_outcome_to_str(*outcome);
            append_json_string(&mut out, outcome_name);
            out.append("}}");
        },
        NodeEvent::HubDirectoryUpdated { destinations, received_at_ms } => {
            out.append("{\"event\":\"hubDirectoryUpdated\",\"payload\":{\"destinations\":");
            append_json_string_array(&mut out, destinations);
            out.append(",\"receivedAtMs\":");
            let at_text = u64_to_string(*received_at_ms);
            out.append(at_text.as_str());
            out.append("}}");
        },
        NodeEvent::Log { level, message } => {
            out.append("{\"event\":\"log\",\"payload\":{\"level\":");
            let level_name = crate::types::log_level_to_str(*level);
            append_json_string(&mut out, level_name);
            out.append(",\"message\":");
            append_json_string(&mut out, message.as_str());
            out.append("}}");
        },
        NodeEvent::Error { code, message } => {
            out.append("{\"event\":\"error\",\"payload\":{\"code\":");
            append_json_string(&mut out, code.as_str());
            out.append(",\"message\":");
            append_json_string(&mut out, message.as_str());
            out.append("}}");
        },
    }
    proof {
        assert(out@ =~= spec_event_json(event_model(*event)));
    }
    out
}

} // verus!
