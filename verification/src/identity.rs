//! The node's private identity: the deterministic fallback derived from the
//! node name, the hex form persisted under the storage directory, and the
//! destination addresses derived from identity and name.

use vstd::prelude::*;

use crate::types::NodeError;

verus! {

use vstd::string::StrSliceExecFns;

/// A hex character, either case.
pub open spec fn is_hex_char(c: char) -> bool {
    ('0' <= c && c <= '9') || ('a' <= c && c <= 'f') || ('A' <= c && c <= 'F')
}

/// The serialized form of a private identity: both key halves, 128 hex
/// digits in all.
pub open spec fn is_identity_hex(s: Seq<char>) -> bool {
    s.len() == 128 && forall|i: int| 0 <= i < 128 ==> is_hex_char(#[trigger] s[i])
}

/// The identity hex that hashing a node name yields.
pub uninterp spec fn identity_hex_of_name(name: Seq<char>) -> Seq<char>;

/// The full 32-byte identity hash of the identity a hex text denotes.
pub uninterp spec fn identity_hash_of(identity_hex: Seq<char>) -> Seq<u8>;

/// The address hash, as hex, of the destination an identity forms under an
/// application name and aspect.
pub uninterp spec fn destination_hex_of(
    identity_hex: Seq<char>,
    app_name: Seq<char>,
    aspect: Seq<char>,
) -> Seq<char>;

/// Relies on `rns_core::identity::PrivateIdentity::new_from_name` and
/// `to_hex_string`: the identity is derived by hashing the name bytes alone,
/// and its hex form writes both 32-byte keys as 128 lowercase hex digits.
#[verifier::external_body]
pub fn derive_identity_hex(name: &str) -> (r: String)
    ensures
        r@ == identity_hex_of_name(name@),
        is_identity_hex(r@),
{
    rns_core::identity::PrivateIdentity::new_from_name(name).to_hex_string()
}

/// Relies on `rns_core::identity::PrivateIdentity::new_from_hex_string` and
/// `Hash::new_from_slice`: `Identity::new` derives the identity hash as the
/// sha256 digest over the public key then the verifying key, and keeps only
/// its 16-byte truncation as the address hash; hashing the concatenated key
/// bytes yields the same full 32-byte digest, a function of the text alone.
#[verifier::external_body]
fn identity_hash_bytes(identity_hex: &str) -> (r: Vec<u8>)
    requires
        is_identity_hex(identity_hex@),
    ensures
        r@ == identity_hash_of(identity_hex@),
        r@.len() == 32,
{
    match rns_core::identity::PrivateIdentity::new_from_hex_string(identity_hex) {
        Ok(identity) => {
            let mut keys = Vec::with_capacity(64);
            keys.extend_from_slice(identity.as_identity().public_key_bytes());
            keys.extend_from_slice(identity.as_identity().verifying_key_bytes());
            rns_core::hash::Hash::new_from_slice(&keys).as_slice().to_vec()
        },
        Err(_) => Vec::new(),
    }
}

/// The identity's full hash, as 64 lowercase hex digits: what the status
/// reports as the identity identifier.
pub fn identity_hash_hex(identity_hex: &str) -> (r: String)
    requires
        is_identity_hex(identity_hex@),
    ensures
        r@ == crate::strutil::ascii_chars(
            crate::address::spec_hex_encode(identity_hash_of(identity_hex@)),
        ),
        crate::address::is_lower_hex_chars(r@, 64),
{
    let digest = identity_hash_bytes(identity_hex);
    let r = crate::address::hex_encode(&digest);
    proof {
        crate::address::lemma_hex_encode_lower(identity_hash_of(identity_hex@));
    }
    r
}

/// Relies on `rns_core::identity::PrivateIdentity::new_from_hex_string`,
/// `DestinationName::new`, `SingleInputDestination::new` and
/// `AddressHash::to_hex_string`: the destination's address hash is computed
/// from the identity and the two name parts alone, and `hex::encode` prints
/// its 16 bytes as 32 lowercase hex digits.
#[verifier::external_body]
pub fn destination_hex(identity_hex: &str, app_name: &str, aspect: &str) -> (r: String)
    requires
        is_identity_hex(identity_hex@),
    ensures
        r@ == destination_hex_of(identity_hex@, app_name@, aspect@),
        crate::address::is_lower_hex_chars(r@, 32),
{
    match rns_core::identity::PrivateIdentity::new_from_hex_string(identity_hex) {
        Ok(identity) => {
            let destination = rns_core::destination::SingleInputDestination::new(
                identity,
                rns_core::destination::DestinationName::new(app_name, aspect),
            );
            destination.desc.address_hash.to_hex_string()
        },
        Err(_) => String::new(),
    }
}

fn char_is_hex(c: char) -> (r: bool)
    ensures
        r == is_hex_char(c),
{
    ('0' <= c && c <= '9') || ('a' <= c && c <= 'f') || ('A' <= c && c <= 'F')
}

/// Whether a string is a full identity hex.
pub fn check_identity_hex(s: &str) -> (r: bool)
    ensures
        r == is_identity_hex(s@),
{
    let n = s.unicode_len();
    if n != 128 {
        return false;
    }
    let mut i: usize = 0;
    while i < 128
        invariant
            0 <= i <= 128,
            s@.len() == 128,
            forall|k: int| 0 <= k < i ==> is_hex_char(#[trigger] s@[k]),
        decreases 128 - i,
    {
        if !char_is_hex(s.get_char(i)) {
            return false;
        }
        i = i + 1;
    }
    true
}

/// Validate the text read from the identity file: trimmed, it must be a
/// full identity hex; anything else is an I/O-level fault.
pub fn parse_identity_file(contents: &str) -> (r: Result<String, NodeError>)
    ensures
        (r is Ok) <==> is_identity_hex(crate::strutil::trim_chars(contents@)),
        r is Ok ==> r->Ok_0@ == crate::strutil::trim_chars(contents@),
        r is Err ==> r->Err_0 == (NodeError::IoError {}),
{
    let trimmed = crate::strutil::trim_str(contents);
    let n = trimmed.unicode_len();
    if n != 128 {
        return Err(NodeError::IoError {});
    }
    let mut i: usize = 0;
    while i < 128
        invariant
            0 <= i <= 128,
            trimmed@.len() == 128,
            trimmed@ == crate::strutil::trim_chars(contents@),
            forall|k: int| 0 <= k < i ==> is_hex_char(#[trigger] trimmed@[k]),
        decreases 128 - i,
    {
        if !char_is_hex(trimmed.as_str().get_char(i)) {
            return Err(NodeError::IoError {});
        }
        i = i + 1;
    }
    Ok(trimmed)
}

/// Where the identity comes from: the trimmed storage directory when one is
/// configured, and no directory — hence the name-derived identity — when it
/// is absent or blank.
pub fn identity_storage_dir(storage_dir: &Option<String>) -> (r: Option<String>)
    ensures
        crate::config::view_opt(r) == crate::config::spec_opt_text(
            crate::config::view_opt(*storage_dir),
        ),
{
    match storage_dir {
        Some(dir) => {
            let t = crate::strutil::trim_str(dir.as_str());
            if t.unicode_len() > 0 {
                Some(t)
            } else {
                None
            }
        },
        None => None,
    }
}

/// Where a file lives under a directory: one slash between the two, none
/// doubled.
pub open spec fn spec_child_path(dir: Seq<char>, file: Seq<char>) -> Seq<char> {
    if dir.len() > 0 && dir.last() == '/' {
        dir + file
    } else {
        dir + seq!['/'] + file
    }
}

fn child_path(dir: &str, file: &str) -> (r: String)
    ensures
        r@ == spec_child_path(dir@, file@),
{
    let n = dir.unicode_len();
    let mut out = dir.to_owned();
    if n == 0 || !(dir.get_char(n - 1) == '/') {
        out.append("/");
        proof {
            reveal_strlit("/");
            assert("/"@ =~= seq!['/']);
        }
    }
    out.append(file);
    proof {
        assert(out@ =~= spec_child_path(dir@, file@));
    }
    out
}

/// The identity file of a storage directory.
pub fn identity_path(storage_dir: &str) -> (r: String)
    ensures
        r@ == spec_child_path(storage_dir@, "identity.hex"@),
{
    child_path(storage_dir, "identity.hex")
}

/// The ratchet store of a storage directory.
pub fn ratchet_path(storage_dir: &str) -> (r: String)
    ensures
        r@ == spec_child_path(storage_dir@, "ratchets.dat"@),
{
    child_path(storage_dir, "ratchets.dat")
}

} // verus!
