//! Text helpers shared by the parsing modules: whitespace trimming, ASCII
//! lowercasing, hex digits, and the bridge from ASCII byte vectors back to
//! `String`.

use vstd::prelude::*;

verus! {

use vstd::string::StrSliceExecFns;
use vstd::string::StringSliceAdditionalSpecFns;

pub open spec fn is_hex_digit(b: u8) -> bool {
    (48 <= b && b <= 57) || (97 <= b && b <= 102) || (65 <= b && b <= 70)
}

/// ASCII lowercase of one byte.
pub open spec fn spec_lower_byte(b: u8) -> u8 {
    if 65 <= b && b <= 90 {
        (b + 32) as u8
    } else {
        b
    }
}

/// ASCII lowercase of a byte sequence.
pub open spec fn spec_lower(s: Seq<u8>) -> Seq<u8> {
    s.map_values(|b: u8| spec_lower_byte(b))
}

pub open spec fn is_ascii_bytes(s: Seq<u8>) -> bool {
    forall|i: int| 0 <= i < s.len() ==> s[i] < 128
}

/// The characters an ASCII byte sequence decodes to.
pub open spec fn ascii_chars(s: Seq<u8>) -> Seq<char> {
    s.map_values(|b: u8| b as char)
}

/// ASCII bytes decode to ASCII characters, and the decoding is reversible.
pub proof fn lemma_ascii_chars_ascii(s: Seq<u8>)
    requires
        is_ascii_bytes(s),
    ensures
        vstd::utf8::is_ascii_chars(ascii_chars(s)),
        ascii_chars(s).map_values(|c: char| c as u8) =~= s,
{
    assert forall|i: int| 0 <= i < s.len() implies '\0' <= (#[trigger] ascii_chars(s)[i])
        <= '\u{7f}' by {
        assert(ascii_chars(s)[i] == s[i] as char);
        assert(s[i] < 128);
    }
    assert forall|i: int| 0 <= i < s.len() implies #[trigger] (ascii_chars(s)[i] as u8)
        == s[i] by {
        assert(ascii_chars(s)[i] == s[i] as char);
    }
}

pub fn byte_is_hex_digit(b: u8) -> (r: bool)
    ensures
        r == is_hex_digit(b),
{
    (48 <= b && b <= 57) || (97 <= b && b <= 102) || (65 <= b && b <= 70)
}

pub fn lower_byte(b: u8) -> (r: u8)
    ensures
        r == spec_lower_byte(b),
{
    if 65 <= b && b <= 90 {
        b + 32
    } else {
        b
    }
}

/// ASCII lowercase of a byte vector.
pub fn lower_bytes(s: &Vec<u8>) -> (r: Vec<u8>)
    ensures
        r@ == spec_lower(s@),
{
    let mut out: Vec<u8> = Vec::new();
    let mut k: usize = 0;
    while k < s.len()
        invariant
            0 <= k <= s@.len(),
            out@ == spec_lower(s@.subrange(0, k as int)),
        decreases s@.len() - k,
    {
        out.push(lower_byte(s[k]));
        proof {
            assert(out@ =~= spec_lower(s@.subrange(0, k + 1 as int)));
        }
        k = k + 1;
    }
    proof {
        assert(s@.subrange(0, s@.len() as int) =~= s@);
    }
    out
}

/// The bytes of a string, as a vector.
pub fn str_bytes(s: &str) -> (r: Vec<u8>)
    ensures
        r@ == s.spec_bytes(),
{
    s.as_bytes_vec()
}

/// Relies on `String::from_utf8`: ASCII bytes decode to the string of
/// exactly those characters.
#[verifier::external_body]
pub fn ascii_to_string(v: Vec<u8>) -> (r: String)
    requires
        is_ascii_bytes(v@),
    ensures
        r@ == ascii_chars(v@),
        r.is_ascii(),
{
    match String::from_utf8(v) {
        Ok(s) => s,
        Err(_) => String::new(),
    }
}

/// The characters `char::is_whitespace` recognizes: the Unicode
/// `White_Space` property.
pub open spec fn is_ws_char(c: char) -> bool {
    c == ' ' || c == '\t' || c == '\n' || c == '\u{b}' || c == '\u{c}' || c == '\r' || c
        == '\u{85}' || c == '\u{a0}' || c == '\u{1680}' || ('\u{2000}' <= c && c <= '\u{200a}')
        || c == '\u{2028}' || c == '\u{2029}' || c == '\u{202f}' || c == '\u{205f}' || c
        == '\u{3000}'
}

pub open spec fn trim_chars_front(s: Seq<char>) -> Seq<char>
    decreases s.len(),
{
    if s.len() > 0 && is_ws_char(s[0]) {
        trim_chars_front(s.drop_first())
    } else {
        s
    }
}

pub open spec fn trim_chars_back(s: Seq<char>) -> Seq<char>
    decreases s.len(),
{
    if s.len() > 0 && is_ws_char(s.last()) {
        trim_chars_back(s.drop_last())
    } else {
        s
    }
}

/// A character sequence with whitespace removed at both ends.
pub open spec fn trim_chars(s: Seq<char>) -> Seq<char> {
    trim_chars_back(trim_chars_front(s))
}

pub proof fn lemma_trim_chars_front_subrange(s: Seq<char>, i: int)
    requires
        0 <= i <= s.len(),
        forall|k: int| 0 <= k < i ==> is_ws_char(s[k]),
    ensures
        trim_chars_front(s) == trim_chars_front(s.subrange(i, s.len() as int)),
    decreases i,
{
    if i > 0 {
        let t = s.drop_first();
        assert(t == s.subrange(1, s.len() as int));
        lemma_trim_chars_front_subrange(t, i - 1);
        assert(t.subrange(i - 1, t.len() as int) =~= s.subrange(i, s.len() as int));
    } else {
        assert(s.subrange(0, s.len() as int) =~= s);
    }
}

pub proof fn lemma_trim_chars_back_subrange(s: Seq<char>, j: int)
    requires
        0 <= j <= s.len(),
        forall|k: int| j <= k < s.len() ==> is_ws_char(s[k]),
    ensures
        trim_chars_back(s) == trim_chars_back(s.subrange(0, j)),
    decreases s.len() - j,
{
    if j < s.len() {
        let t = s.drop_last();
        assert(t == s.subrange(0, s.len() - 1));
        lemma_trim_chars_back_subrange(t, j);
        assert(t.subrange(0, j) =~= s.subrange(0, j));
    } else {
        assert(s.subrange(0, s.len() as int) =~= s);
    }
}

pub fn char_is_ws(c: char) -> (r: bool)
    ensures
        r == is_ws_char(c),
{
    let u = c as u32;
    u == 0x20 || u == 0x9 || u == 0xa || u == 0xb || u == 0xc || u == 0xd || u == 0x85 || u
        == 0xa0 || u == 0x1680 || (0x2000 <= u && u <= 0x200a) || u == 0x2028 || u == 0x2029 || u
        == 0x202f || u == 0x205f || u == 0x3000
}


/// Leading and trailing whitespace removed from a string.
pub fn trim_str(s: &str) -> (r: String)
    ensures
        r@ == trim_chars(s@),
{
    let n = s.unicode_len();
    let mut i: usize = 0;
    while i < n && char_is_ws(s.get_char(i))
        invariant
            0 <= i <= n,
            n == s@.len(),
            forall|k: int| 0 <= k < i ==> is_ws_char(s@[k]),
        decreases n - i,
    {
        i = i + 1;
    }
    proof {
        lemma_trim_chars_front_subrange(s@, i as int);
    }
    let mut j: usize = n;
    while j > i && char_is_ws(s.get_char(j - 1))
        invariant
            i <= j <= n,
            n == s@.len(),
            forall|k: int| 0 <= k < i ==> is_ws_char(s@[k]),
            forall|k: int| j <= k < n ==> is_ws_char(s@[k]),
        decreases j,
    {
        j = j - 1;
    }
    let ghost front = s@.subrange(i as int, n as int);
    proof {
        if i < n {
            assert(front[0] == s@[i as int]);
            assert(trim_chars_front(front) == front);
        } else {
            assert(front =~= Seq::<char>::empty());
        }
        assert(trim_chars_front(s@) == front);
        assert(forall|k: int| j <= k < n ==> is_ws_char(#[trigger] front[k - i]));
        lemma_trim_chars_back_subrange(front, j - i);
        let cut = front.subrange(0, j - i);
        if j > i {
            assert(cut.last() == s@[j - 1]);
            assert(trim_chars_back(cut) == cut);
        } else {
            assert(cut =~= Seq::<char>::empty());
        }
        assert(trim_chars(s@) == cut);
        assert(cut =~= s@.subrange(i as int, j as int));
    }
    let piece = s.substring_char(i, j);
    let r = piece.to_owned();
    r
}

/// Relies on `String::from_utf8`: well-formed text decodes to exactly its
/// characters; anything else is refused.
#[verifier::external_body]
pub fn utf8_to_string(v: &Vec<u8>) -> (r: Option<String>)
    ensures
        (r is Some) <==> vstd::utf8::valid_utf8(v@),
        r is Some ==> r->0@ == vstd::utf8::decode_utf8(v@),
{
    match String::from_utf8(v.clone()) {
        Ok(s) => Some(s),
        Err(_) => None,
    }
}

/// Bytes equality, byte for byte.
pub fn bytes_eq(a: &Vec<u8>, b: &Vec<u8>) -> (r: bool)
    ensures
        r == (a@ == b@),
{
    if a.len() != b.len() {
        proof {
            assert(a@.len() != b@.len());
        }
        return false;
    }
    let mut k: usize = 0;
    while k < a.len()
        invariant
            0 <= k <= a@.len(),
            a@.len() == b@.len(),
            forall|i: int| 0 <= i < k ==> a@[i] == b@[i],
        decreases a@.len() - k,
    {
        if a[k] != b[k] {
            return false;
        }
        k = k + 1;
    }
    proof {
        assert(a@ =~= b@);
    }
    true
}

/// True when the byte vector holds exactly the bytes of the given string.
pub fn bytes_eq_str(a: &Vec<u8>, s: &str) -> (r: bool)
    ensures
        r == (a@ == s.spec_bytes()),
{
    let b = str_bytes(s);
    bytes_eq(a, &b)
}

} // verus!

