//! Refreshing the hub-published directory of destinations, over plain HTTP
//! or over a message exchange on an outbound link.  The host performs the
//! request and hands the raw reply back; everything decided about it —
//! URL, headers, request bytes, reply acceptance — is decided here.

use vstd::prelude::*;

use crate::address::AddressHash;
use crate::address::hex32_accepted;
use crate::address::hex32_canonical;
use crate::address::parse_address_hash;
use crate::scan::spec_extract;
use crate::strutil::ascii_chars;
use crate::strutil::trim_chars;
use crate::types::NodeConfig;
use crate::types::NodeError;
use crate::types::SendOutcome;
use crate::urls::join_url;
use crate::urls::spec_join_url;

verus! {

use vstd::string::StrSliceExecFns;
use vstd::string::StringExecFns;

/// The identity type of the mesh library, opaque here: the hub request is
/// signed with it.
#[verifier::external_type_specification]
#[verifier::external_body]
pub struct ExPrivateIdentity(rns_core::identity::PrivateIdentity);

/// One planned HTTP directory request.
pub struct HttpPlan {
    pub url: String,
    pub api_key: Option<String>,
}

/// Plan the HTTP refresh: the request goes to `<base>/Client`, and carries
/// credentials exactly when a non-blank API key is configured.  Without a
/// base URL the refresh is refused.
pub fn hub_http_plan(config: &NodeConfig) -> (r: Result<HttpPlan, NodeError>)
    ensures
        (r is Ok) <==> (config.hub_api_base_url is Some && trim_chars(
            config.hub_api_base_url->0@,
        ).len() > 0),
        r is Err ==> r->Err_0 == (NodeError::InvalidConfig {}),
        r is Ok ==> r->Ok_0.url@ == spec_join_url(config.hub_api_base_url->0@, "/Client"@),
        r is Ok ==> crate::config::view_opt(r->Ok_0.api_key) == crate::config::spec_opt_text(
            crate::config::view_opt(config.hub_api_key),
        ),
{
    let base = match &config.hub_api_base_url {
        Some(b) => b,
        None => {
            return Err(NodeError::InvalidConfig {});
        },
    };
    let url = match join_url(base.as_str(), "/Client") {
        Ok(u) => u,
        Err(e) => {
            return Err(e);
        },
    };
    let api_key = match &config.hub_api_key {
        Some(k) => {
            let t = crate::strutil::trim_str(k.as_str());
            if t.unicode_len() > 0 {
                Some(t)
            } else {
                None
            }
        },
        None => None,
    };
    Ok(HttpPlan { url, api_key })
}

/// The headers a planned request carries: none without a key, and with one
/// both `X-API-Key` and the bearer form of `Authorization`.
pub fn auth_headers(plan: &HttpPlan) -> (r: Vec<(String, String)>)
    ensures
        plan.api_key is None ==> r@.len() == 0,
        plan.api_key is Some ==> r@.len() == 2 && r@[0].0@ == "X-API-Key"@ && r@[0].1@
            == plan.api_key->0@ && r@[1].0@ == "Authorization"@ && r@[1].1@ == "Bearer "@
            + plan.api_key->0@,
{
    let mut out: Vec<(String, String)> = Vec::new();
    match &plan.api_key {
        Some(key) => {
            let mut bearer = String::from_str("Bearer ");
            bearer.append(key.as_str());
            out.push((String::from_str("X-API-Key"), key.clone()));
            out.push((String::from_str("Authorization"), bearer));
        },
        None => {},
    }
    out
}

/// The title of the hub directory request.
pub fn hub_request_title() -> (r: &'static str)
    ensures
        r@ == "ListClients"@,
{
    "ListClients"
}

/// The exact content bytes of the hub directory request.
pub fn hub_request_content() -> (r: Vec<u8>)
    ensures
        r@ == vstd::utf8::encode_utf8("\\{\"Command\":\"ListClients\"}"@),
{
    crate::strutil::str_bytes("\\{\"Command\":\"ListClients\"}")
}

/// The address the message-based refresh talks to: the configured hub
/// identity hash, which must be present and well-formed.
pub fn hub_lxmf_target(config: &NodeConfig) -> (r: Result<AddressHash, NodeError>)
    ensures
        (r is Ok) <==> (config.hub_identity_hash is Some && hex32_accepted(config.hub_identity_hash->0@)),
        r is Err ==> r->Err_0 == (NodeError::InvalidConfig {}),
        r is Ok ==> r->Ok_0@ == ascii_chars(
            hex32_canonical(config.hub_identity_hash->0@),
        ) && r->Ok_0.wf(),
{
    match &config.hub_identity_hash {
        Some(h) => parse_address_hash(h.as_str()),
        None => Err(NodeError::InvalidConfig {}),
    }
}

/// The reply to submitting the request on the link: any drop is a network
/// fault.
pub fn hub_submit_check(outcome: SendOutcome) -> (r: Result<(), NodeError>)
    ensures
        (r is Ok) <==> (outcome == (SendOutcome::SentDirect {}) || outcome == (
        SendOutcome::SentBroadcast {})),
        r is Err ==> r->Err_0 == (NodeError::NetworkError {}),
{
    if matches!(outcome, SendOutcome::SentDirect {} | SendOutcome::SentBroadcast {}) {
        Ok(())
    } else {
        Err(NodeError::NetworkError {})
    }
}

/// What a decoded hub reply carries.
pub struct HubReplyParts {
    pub title: Vec<u8>,
    pub content: Vec<u8>,
    pub fields_debug: Option<String>,
}

/// What replacement-character decoding yields for arbitrary bytes.
pub uninterp spec fn utf8_lossy_of(bytes: Seq<u8>) -> Seq<char>;

/// Relies on `String::from_utf8_lossy`: the decoding depends on the bytes
/// alone, and well-formed text comes back verbatim.
#[verifier::external_body]
fn utf8_lossy(bytes: &Vec<u8>) -> (r: String)
    ensures
        r@ == utf8_lossy_of(bytes@),
        vstd::utf8::valid_utf8(bytes@) ==> r@ == vstd::utf8::decode_utf8(bytes@),
{
    String::from_utf8_lossy(bytes.as_slice()).into_owned()
}

/// The single text blob a reply folds into: title and content as text, one
/// line each when present, then the fields' debug text.
pub open spec fn spec_fold_reply(
    title: Seq<u8>,
    content: Seq<u8>,
    fields_debug: Option<Seq<char>>,
) -> Seq<char> {
    (if title.len() > 0 {
        utf8_lossy_of(title) + seq!['\n']
    } else {
        Seq::<char>::empty()
    }) + (if content.len() > 0 {
        utf8_lossy_of(content) + seq!['\n']
    } else {
        Seq::<char>::empty()
    }) + (match fields_debug {
        Some(d) => d,
        None => Seq::<char>::empty(),
    })
}

/// Fold a decoded reply into one text blob.
pub fn fold_hub_reply(parts: &HubReplyParts) -> (r: String)
    ensures
        r@ == spec_fold_reply(
            parts.title@,
            parts.content@,
            crate::config::view_opt(parts.fields_debug),
        ),
{
    let mut out = String::new();
    if parts.title.len() > 0 {
        let t = utf8_lossy(&parts.title);
        out.append(t.as_str());
        out.append("\n");
    }
    if parts.content.len() > 0 {
        let c = utf8_lossy(&parts.content);
        out.append(c.as_str());
        out.append("\n");
    }
    match &parts.fields_debug {
        Some(d) => {
            out.append(d.as_str());
        },
        None => {},
    }
    proof {
        reveal_strlit("\n");
        assert("\n"@ =~= seq!['\n']);
        assert(out@ =~= spec_fold_reply(
            parts.title@,
            parts.content@,
            crate::config::view_opt(parts.fields_debug),
        ));
    }
    out
}

/// Judge one incoming data event while waiting for the hub's reply: only
/// events from the hub's own address count, and the first whose folded text
/// holds any destination ends the wait with that list.
pub fn hub_reply_destinations(
    hub_hex: &String,
    from_hex: &String,
    parts: &HubReplyParts,
) -> (r: Option<Vec<String>>)
    ensures
        from_hex@ != hub_hex@ ==> r is None,
        from_hex@ == hub_hex@ ==> {
            let text = spec_fold_reply(
                parts.title@,
                parts.content@,
                crate::config::view_opt(parts.fields_debug),
            );
            let found = spec_extract(vstd::utf8::encode_utf8(text));
            &&& (r is Some <==> found.len() > 0)
            &&& r is Some ==> r->0@.len() == found.len()
            &&& r is Some ==> forall|q: int|
                0 <= q < found.len() ==> (#[trigger] r->0@[q])@ == ascii_chars(found[q])
        },
{
    if !from_hex.eq(hub_hex) {
        return None;
    }
    let text = fold_hub_reply(parts);
    let destinations = crate::scan::extract_hex_destinations(text.as_str());
    if destinations.len() == 0 {
        None
    } else {
        Some(destinations)
    }
}

/// Relies on `lxmf::Message::to_wire`: serializes a message with the given
/// source, destination, title and content, signed by the identity.  Nothing
/// is assumed of the bytes; the core hands them to the link unread.
#[verifier::external_body]
pub fn lxmf_request_wire(
    source: &Vec<u8>,
    destination: &Vec<u8>,
    title: &str,
    content: &Vec<u8>,
    signer: &rns_core::identity::PrivateIdentity,
) -> (r: Result<Vec<u8>, NodeError>)
    requires
        source@.len() == 16,
        destination@.len() == 16,
    ensures
        r is Err ==> r->Err_0 == (NodeError::InternalError {}),
{
    let mut src = [0u8; 16];
    src.copy_from_slice(source.as_slice());
    let mut dst = [0u8; 16];
    dst.copy_from_slice(destination.as_slice());
    let mut message = lxmf::Message::new();
    message.source_hash = Some(src);
    message.destination_hash = Some(dst);
    message.set_title_from_string(title);
    message.set_content_from_bytes(content.as_slice());
    match message.to_wire(Some(signer)) {
        Ok(wire) => Ok(wire),
        Err(_) => Err(NodeError::InternalError {}),
    }
}

/// Relies on `lxmf::Message::from_wire`: decodes a wire message into title,
/// content and fields; the fields are kept only as their debug text.  An
/// undecodable event yields nothing and the wait goes on.
#[verifier::external_body]
pub fn lxmf_parse_reply(bytes: &Vec<u8>) -> (r: Option<HubReplyParts>)
{
    match lxmf::Message::from_wire(bytes.as_slice()) {
        Ok(reply) => {
            let fields_debug = match &reply.fields {
                Some(f) => Some(format!("{f:?}")),
                None => None,
            };
            Some(HubReplyParts { title: reply.title, content: reply.content, fields_debug })
        },
        Err(_) => None,
    }
}

} // verus!
