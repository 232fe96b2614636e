//! Destination addresses.  A destination is identified by a 16-byte address
//! hash, serialized as exactly 32 hex digits; the canonical text form is
//! lowercase.

use vstd::prelude::*;

use crate::strutil::ascii_chars;
use crate::strutil::ascii_to_string;
use crate::strutil::byte_is_hex_digit;
use crate::strutil::is_ascii_bytes;
use crate::strutil::is_hex_digit;
use crate::strutil::lower_bytes;
use crate::strutil::spec_lower;
use crate::strutil::str_bytes;
use crate::strutil::trim_chars;
use crate::strutil::trim_str;
use crate::types::NodeError;

verus! {

use vstd::string::StringSliceAdditionalSpecFns;

/// Exactly 32 hex digits, any case.
pub open spec fn is_hex32(s: Seq<u8>) -> bool {
    s.len() == 32 && forall|i: int| 0 <= i < 32 ==> is_hex_digit(#[trigger] s[i])
}

/// Exactly 32 lowercase hex digits: the canonical form of an address.
pub open spec fn is_canonical_hex32(s: Seq<u8>) -> bool {
    is_hex32(s) && spec_lower(s) == s
}

/// Whether a raw string normalizes to an address: stripped of leading and
/// trailing whitespace it is exactly 32 hex digits.
pub open spec fn hex32_accepted(s: Seq<char>) -> bool {
    is_hex32(vstd::utf8::encode_utf8(trim_chars(s)))
}

/// The canonical form of an accepted raw string.
pub open spec fn hex32_canonical(s: Seq<char>) -> Seq<u8> {
    spec_lower(vstd::utf8::encode_utf8(trim_chars(s)))
}

pub proof fn lemma_lower_hex32(s: Seq<u8>)
    requires
        is_hex32(s),
    ensures
        is_canonical_hex32(spec_lower(s)),
        is_ascii_bytes(spec_lower(s)),
{
    let l = spec_lower(s);
    assert forall|i: int| 0 <= i < 32 implies is_hex_digit(#[trigger] l[i]) && l[i] < 128
        && crate::strutil::spec_lower_byte(l[i]) == l[i] by {
        assert(is_hex_digit(s[i]));
    }
    assert(spec_lower(l) =~= l);
}

/// Trim a hex string and lowercase it; `None` unless the trimmed text is
/// exactly 32 hex digits.
pub fn normalize_hex_32(s: &str) -> (r: Option<String>)
    ensures
        r is Some <==> hex32_accepted(s@),
        r is Some ==> r->0@ == ascii_chars(hex32_canonical(s@)),
        r is Some ==> is_canonical_hex32(hex32_canonical(s@)),
{
    let kept = trim_str(s);
    let trimmed = str_bytes(kept.as_str());
    proof {
        assert(trimmed@ == vstd::utf8::encode_utf8(trim_chars(s@)));
    }
    if trimmed.len() != 32 {
        proof {
            assert(!is_hex32(vstd::utf8::encode_utf8(trim_chars(s@))));
        }
        return None;
    }
    let mut k: usize = 0;
    while k < 32
        invariant
            0 <= k <= 32,
            trimmed@.len() == 32,
            trimmed@ == vstd::utf8::encode_utf8(trim_chars(s@)),
            forall|i: int| 0 <= i < k ==> is_hex_digit(#[trigger] trimmed@[i]),
        decreases 32 - k,
    {
        if !byte_is_hex_digit(trimmed[k]) {
            proof {
                assert(!is_hex_digit(vstd::utf8::encode_utf8(trim_chars(s@))[k as int]));
                assert(!is_hex32(vstd::utf8::encode_utf8(trim_chars(s@))));
            }
            return None;
        }
        k = k + 1;
    }
    let lowered = lower_bytes(&trimmed);
    proof {
        lemma_lower_hex32(trimmed@);
    }
    Some(ascii_to_string(lowered))
}

/// A 16-byte destination address, held in its canonical text form.
#[derive(Debug)]
pub struct AddressHash {
    hex: String,
}

impl AddressHash {
    /// The canonical text form is what this type guards.
    pub closed spec fn wf(&self) -> bool {
        is_canonical_hex32(self.hex@.map_values(|c: char| c as u8)) && self.hex@.len() == 32
            && vstd::utf8::is_ascii_chars(self.hex@)
    }

    /// The canonical 32 lowercase hex digits, as characters.
    pub closed spec fn view(&self) -> Seq<char> {
        self.hex@
    }

    /// What the canonical form guarantees of the text.
    pub proof fn lemma_wf(&self)
        requires
            self.wf(),
        ensures
            is_canonical_hex32(self@.map_values(|c: char| c as u8)),
            self@.len() == 32,
            vstd::utf8::is_ascii_chars(self@),
    {
    }

    /// Canonical hex text of the address.
    pub fn to_hex_string(&self) -> (r: String)
        ensures
            r@ == self@,
    {
        let r = self.hex.clone();
        r
    }
}

/// Parse a destination address: the whitespace-trimmed text must be exactly
/// 32 hex digits, and the result is its lowercase form.
pub fn parse_address_hash(hex_32: &str) -> (r: Result<AddressHash, NodeError>)
    ensures
        r is Ok <==> hex32_accepted(hex_32@),
        r is Err ==> r->Err_0 == (NodeError::InvalidConfig {}),
        r is Ok ==> r->Ok_0@ == ascii_chars(hex32_canonical(hex_32@)),
        r is Ok ==> r->Ok_0.wf(),
{
    match normalize_hex_32(hex_32) {
        Some(hex) => {
            proof {
                lemma_lower_hex32(vstd::utf8::encode_utf8(trim_chars(hex_32@)));
                crate::strutil::lemma_ascii_chars_ascii(hex32_canonical(hex_32@));
            }
            Ok(AddressHash { hex })
        },
        None => Err(NodeError::InvalidConfig {}),
    }
}

/// Numeric value of a hex digit byte.
pub open spec fn hex_val(b: u8) -> u8 {
    if 48 <= b && b <= 57 {
        (b - 48) as u8
    } else if 97 <= b && b <= 102 {
        (b - 87) as u8
    } else if 65 <= b && b <= 70 {
        (b - 55) as u8
    } else {
        0
    }
}

/// The bytes a hex text of even length denotes.
pub open spec fn spec_hex_decode(s: Seq<u8>) -> Seq<u8> {
    Seq::new(s.len() / 2, |i: int| (hex_val(s[2 * i]) * 16 + hex_val(s[2 * i + 1])) as u8)
}

/// Lowercase hex digit of a value below 16.
pub open spec fn hex_digit_of(v: u8) -> u8 {
    if v < 10 {
        (v + 48) as u8
    } else {
        (v + 87) as u8
    }
}

/// Exactly `n` lowercase hex digits.
pub open spec fn is_lower_hex_chars(s: Seq<char>, n: int) -> bool {
    s.len() == n && forall|i: int|
        0 <= i < n ==> (('0' <= #[trigger] s[i] && s[i] <= '9') || ('a' <= s[i] && s[i] <= 'f'))
}

/// Lowercase hex text of a byte sequence: two digits per byte.
pub open spec fn spec_hex_encode(s: Seq<u8>) -> Seq<u8> {
    Seq::new(s.len() * 2, |i: int| hex_digit_of(
        if i % 2 == 0 {
            (s[i / 2] / 16) as u8
        } else {
            (s[i / 2] % 16) as u8
        },
    ))
}

fn hex_digit_char(v: u8) -> (r: u8)
    requires
        v < 16,
    ensures
        r == hex_digit_of(v),
        is_hex_digit(r),
        r < 128,
{
    if v < 10 {
        v + 48
    } else {
        v + 87
    }
}

/// Lowercase hex encoding of raw bytes.
pub fn hex_encode(data: &Vec<u8>) -> (r: String)
    ensures
        r@ == ascii_chars(spec_hex_encode(data@)),
{
    let mut out: Vec<u8> = Vec::new();
    let mut k: usize = 0;
    while k < data.len()
        invariant
            0 <= k <= data@.len(),
            out@ == spec_hex_encode(data@.subrange(0, k as int)),
            is_ascii_bytes(out@),
        decreases data@.len() - k,
    {
        out.push(hex_digit_char(data[k] / 16));
        out.push(hex_digit_char(data[k] % 16));
        proof {
            assert(out@ =~= spec_hex_encode(data@.subrange(0, k + 1 as int)));
        }
        k = k + 1;
    }
    proof {
        assert(data@.subrange(0, data@.len() as int) =~= data@);
    }
    ascii_to_string(out)
}

/// Hex encodings read as lowercase hex digits.
pub proof fn lemma_hex_encode_lower(b: Seq<u8>)
    ensures
        is_lower_hex_chars(ascii_chars(spec_hex_encode(b)), 2 * b.len() as int),
{
    let h = ascii_chars(spec_hex_encode(b));
    assert forall|i: int| 0 <= i < 2 * b.len() as int implies (('0' <= #[trigger] h[i] && h[i] <= '9')
        || ('a' <= h[i] && h[i] <= 'f')) by {
        let d = spec_hex_encode(b)[i];
        assert(h[i] == d as char);
        assert((48 <= d && d <= 57) || (97 <= d && d <= 102));
    }
}

fn hex_val_exec(b: u8) -> (r: u8)
    ensures
        r == hex_val(b),
        r < 16,
{
    if 48 <= b && b <= 57 {
        b - 48
    } else if 97 <= b && b <= 102 {
        b - 87
    } else if 65 <= b && b <= 70 {
        b - 55
    } else {
        0
    }
}

impl AddressHash {
    /// The 16 raw bytes of the address.
    pub fn bytes(&self) -> (r: Vec<u8>)
        requires
            self.wf(),
        ensures
            r@ == spec_hex_decode(self@.map_values(|c: char| c as u8)),
            r@.len() == 16,
    {
        let st = self.hex.as_str();
        let digits = str_bytes(st);
        proof {
            assert(st@ == self.hex@);
            assert(vstd::string::is_ascii(st));
            vstd::string::is_ascii_spec_bytes(st);
            assert(digits@ =~= self@.map_values(|c: char| c as u8));
        }
        let mut out: Vec<u8> = Vec::new();
        let mut k: usize = 0;
        while k < 16
            invariant
                0 <= k <= 16,
                digits@.len() == 32,
                out@ == spec_hex_decode(digits@).subrange(0, k as int),
            decreases 16 - k,
        {
            let hi = hex_val_exec(digits[2 * k]);
            let lo = hex_val_exec(digits[2 * k + 1]);
            out.push(hi * 16 + lo);
            proof {
                assert(out@ =~= spec_hex_decode(digits@).subrange(0, k + 1 as int));
            }
            k = k + 1;
        }
        proof {
            assert(out@ =~= spec_hex_decode(digits@));
        }
        out
    }
}

} // verus!
