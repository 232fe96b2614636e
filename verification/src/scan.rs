//! Extraction of destination addresses from free-form hub text: every run
//! of exactly 32 hex digits bounded by non-hex text, scanned left to right
//! with the bounding byte consumed, lowercased and kept once each in order
//! of first appearance.

use vstd::prelude::*;

use crate::address::is_canonical_hex32;
use crate::address::is_hex32;
use crate::address::lemma_lower_hex32;
use crate::strutil::ascii_chars;
use crate::strutil::ascii_to_string;
use crate::strutil::byte_is_hex_digit;
use crate::strutil::bytes_eq;
use crate::strutil::is_ascii_bytes;
use crate::strutil::is_hex_digit;
use crate::strutil::lower_bytes;
use crate::strutil::spec_lower;
use crate::strutil::str_bytes;

verus! {

use vstd::string::StringSliceAdditionalSpecFns;

/// 32 hex digits start at position `i`.
pub open spec fn hex_run_at(t: Seq<u8>, i: int) -> bool {
    0 <= i && i + 32 <= t.len() && forall|k: int| i <= k < i + 32 ==> is_hex_digit(#[trigger] t[k])
}

/// A run at the very start of the text, closed off by the end or a non-hex
/// byte.
pub open spec fn match_at_start(t: Seq<u8>, i: int) -> bool {
    i == 0 && hex_run_at(t, 0) && (t.len() == 32 || !is_hex_digit(t[32]))
}

/// A run opened by a non-hex byte at `i` and closed off by the end or a
/// non-hex byte.
pub open spec fn match_after_boundary(t: Seq<u8>, i: int) -> bool {
    0 <= i && i + 33 <= t.len() && !is_hex_digit(t[i]) && hex_run_at(t, i + 1) && (t.len() == i + 33
        || !is_hex_digit(t[i + 33]))
}

pub open spec fn match_at(t: Seq<u8>, i: int) -> bool {
    match_at_start(t, i) || match_after_boundary(t, i)
}

/// The 32 hex digits of a match at `i`.
pub open spec fn capture(t: Seq<u8>, i: int) -> Seq<u8> {
    if match_at_start(t, i) {
        t.subrange(0, 32)
    } else {
        t.subrange(i + 1, i + 33)
    }
}

/// Where scanning resumes after a match at `i`: past the closing non-hex
/// byte when there is one.
pub open spec fn match_end(t: Seq<u8>, i: int) -> int {
    if match_at_start(t, i) {
        if t.len() == 32 {
            32
        } else {
            33
        }
    } else {
        if t.len() == i + 33 {
            i + 33
        } else {
            i + 34
        }
    }
}

/// All runs found scanning left to right from `i`, leftmost match first,
/// resuming after each match.
pub open spec fn scan_from(t: Seq<u8>, i: int) -> Seq<Seq<u8>>
    decreases t.len() - i,
    when 0 <= i <= t.len()
{
    if i >= t.len() {
        Seq::empty()
    } else if match_at(t, i) {
        seq![capture(t, i)] + scan_from(t, match_end(t, i))
    } else {
        scan_from(t, i + 1)
    }
}

/// Keep the first occurrence of each element, in order.
pub open spec fn spec_dedup(s: Seq<Seq<u8>>) -> Seq<Seq<u8>>
    decreases s.len(),
{
    if s.len() == 0 {
        Seq::empty()
    } else {
        let rest = spec_dedup(s.drop_last());
        if rest.contains(s.last()) {
            rest
        } else {
            rest.push(s.last())
        }
    }
}

/// What `extract_hex_destinations` returns, over the text's bytes.
pub open spec fn spec_extract(t: Seq<u8>) -> Seq<Seq<u8>> {
    spec_dedup(scan_from(t, 0).map_values(|c: Seq<u8>| spec_lower(c)))
}

/// Index of the first occurrence of `x` in `s`.
pub open spec fn first_idx<A>(s: Seq<A>, x: A) -> int
    decreases s.len(),
{
    if s.len() == 0 {
        0
    } else if s[0] == x {
        0
    } else {
        1 + first_idx(s.drop_first(), x)
    }
}

proof fn lemma_first_idx_in<A>(s: Seq<A>, x: A)
    requires
        s.contains(x),
    ensures
        0 <= first_idx(s, x) < s.len(),
        s[first_idx(s, x)] == x,
    decreases s.len(),
{
    if s.len() > 0 && s[0] != x {
        let i = choose|i: int| 0 <= i < s.len() && s[i] == x;
        assert(s.drop_first()[i - 1] == x);
        lemma_first_idx_in(s.drop_first(), x);
    }
}

proof fn lemma_first_idx_push<A>(s: Seq<A>, x: A, y: A)
    requires
        s.contains(x),
    ensures
        first_idx(s.push(y), x) == first_idx(s, x),
    decreases s.len(),
{
    if s.len() > 0 && s[0] == x {
        assert(s.push(y)[0] == x);
    } else {
        let i = choose|i: int| 0 <= i < s.len() && s[i] == x;
        assert(s.drop_first()[i - 1] == x);
        assert(s.push(y).drop_first() =~= s.drop_first().push(y));
        lemma_first_idx_push(s.drop_first(), x, y);
    }
}

proof fn lemma_first_idx_push_new<A>(s: Seq<A>, x: A)
    requires
        !s.contains(x),
    ensures
        first_idx(s.push(x), x) == s.len(),
    decreases s.len(),
{
    if s.len() == 0 {
        assert(s.push(x)[0] == x);
    } else {
        assert(s[0] != x);
        assert(s.push(x)[0] != x);
        assert(!s.drop_first().contains(x)) by {
            if s.drop_first().contains(x) {
                let i = choose|i: int| 0 <= i < s.drop_first().len() && s.drop_first()[i] == x;
                assert(s[i + 1] == x);
            }
        }
        assert(s.push(x).drop_first() =~= s.drop_first().push(x));
        lemma_first_idx_push_new(s.drop_first(), x);
    }
}

/// Deduplication keeps no duplicates, exactly the members of the input,
/// and the order of first occurrences.
pub proof fn lemma_dedup_properties(s: Seq<Seq<u8>>)
    ensures
        spec_dedup(s).no_duplicates(),
        forall|x: Seq<u8>| spec_dedup(s).contains(x) <==> s.contains(x),
        forall|p: int, q: int|
            0 <= p < q < spec_dedup(s).len() ==> first_idx(s, spec_dedup(s)[p]) < first_idx(
                s,
                spec_dedup(s)[q],
            ),
    decreases s.len(),
{
    if s.len() > 0 {
        let prefix = s.drop_last();
        let x = s.last();
        lemma_dedup_properties(prefix);
        let d0 = spec_dedup(prefix);
        let d = spec_dedup(s);
        assert(s =~= prefix.push(x));
        assert forall|y: Seq<u8>| s.contains(y) implies prefix.contains(y) || y == x by {
            let i = choose|i: int| 0 <= i < s.len() && s[i] == y;
            if i < prefix.len() {
                assert(prefix[i] == y);
            }
        }
        assert forall|y: Seq<u8>| prefix.contains(y) implies s.contains(y) by {
            let i = choose|i: int| 0 <= i < prefix.len() && prefix[i] == y;
            assert(s[i] == y);
        }
        assert(s[s.len() - 1] == x);
        if d0.contains(x) {
            assert(d == d0);
            assert forall|y: Seq<u8>| d.contains(y) implies s.contains(y) by {
                assert(prefix.contains(y));
            }
            assert forall|y: Seq<u8>| s.contains(y) implies d.contains(y) by {
                if y == x {
                } else {
                    assert(prefix.contains(y));
                }
            }
            assert forall|p: int, q: int| 0 <= p < q < d.len() implies first_idx(s, d[p])
                < first_idx(s, d[q]) by {
                assert(d0.contains(d[p]) && d0.contains(d[q]));
                assert(prefix.contains(d[p]) && prefix.contains(d[q]));
                lemma_first_idx_push(prefix, d[p], x);
                lemma_first_idx_push(prefix, d[q], x);
            }
        } else {
            assert(d == d0.push(x));
            assert(!prefix.contains(x));
            assert forall|y: Seq<u8>| d.contains(y) implies s.contains(y) by {
                let i = choose|i: int| 0 <= i < d.len() && d[i] == y;
                if i < d0.len() {
                    assert(d0[i] == y);
                    assert(prefix.contains(y));
                } else {
                    assert(y == x);
                }
            }
            assert forall|y: Seq<u8>| s.contains(y) implies d.contains(y) by {
                if y == x {
                    assert(d[d0.len() as int] == x);
                } else {
                    assert(prefix.contains(y));
                    let i = choose|i: int| 0 <= i < d0.len() && d0[i] == y;
                    assert(d[i] == y);
                }
            }
            assert(d.no_duplicates()) by {
                assert(forall|p: int| 0 <= p < d0.len() ==> d[p] == d0[p]);
                assert(d[d0.len() as int] == x);
            }
            lemma_first_idx_push_new(prefix, x);
            assert forall|p: int, q: int| 0 <= p < q < d.len() implies first_idx(s, d[p])
                < first_idx(s, d[q]) by {
                if q < d0.len() {
                    assert(prefix.contains(d[p]) && prefix.contains(d[q]));
                    lemma_first_idx_push(prefix, d[p], x);
                    lemma_first_idx_push(prefix, d[q], x);
                } else {
                    assert(d[q] == x);
                    assert(prefix.contains(d[p]));
                    lemma_first_idx_push(prefix, d[p], x);
                    lemma_first_idx_in(prefix, d[p]);
                    assert(first_idx(s, x) == prefix.len());
                }
            }
        }
    }
}

/// Every capture of the scan is exactly 32 hex digits.
pub proof fn lemma_scan_captures_hex(t: Seq<u8>, i: int)
    requires
        0 <= i <= t.len(),
    ensures
        forall|k: int|
            0 <= k < scan_from(t, i).len() ==> is_hex32(#[trigger] scan_from(t, i)[k]),
    decreases t.len() - i,
{
    if i >= t.len() {
    } else if match_at(t, i) {
        lemma_scan_captures_hex(t, match_end(t, i));
        assert(is_hex32(capture(t, i)));
        let rest = scan_from(t, match_end(t, i));
        let whole = scan_from(t, i);
        assert(whole == seq![capture(t, i)] + rest);
        assert forall|k: int| 0 <= k < whole.len() implies is_hex32(#[trigger] whole[k]) by {
            if k == 0 {
                assert(whole[0] == capture(t, i));
            } else {
                assert(whole[k] == rest[k - 1]);
            }
        }
    } else {
        lemma_scan_captures_hex(t, i + 1);
        assert(scan_from(t, i) == scan_from(t, i + 1));
    }
}

fn hex_run(t: &Vec<u8>, i: usize) -> (r: bool)
    requires
        i + 32 <= t@.len(),
    ensures
        r == hex_run_at(t@, i as int),
{
    let n = t.len();
    let mut k: usize = 0;
    while k < 32
        invariant
            0 <= k <= 32,
            i + 32 <= n,
            n == t@.len(),
            forall|m: int| i <= m < i + k ==> is_hex_digit(#[trigger] t@[m]),
        decreases 32 - k,
    {
        if !byte_is_hex_digit(t[i + k]) {
            return false;
        }
        k = k + 1;
    }
    true
}

fn copy_range(t: &Vec<u8>, a: usize, b: usize) -> (r: Vec<u8>)
    requires
        a <= b <= t@.len(),
    ensures
        r@ == t@.subrange(a as int, b as int),
{
    let mut out: Vec<u8> = Vec::new();
    let mut k: usize = a;
    while k < b
        invariant
            a <= k <= b <= t@.len(),
            out@ == t@.subrange(a as int, k as int),
        decreases b - k,
    {
        out.push(t[k]);
        proof {
            assert(out@ =~= t@.subrange(a as int, k + 1 as int));
        }
        k = k + 1;
    }
    out
}

fn vecs_contain(v: &Vec<Vec<u8>>, x: &Vec<u8>) -> (r: bool)
    ensures
        r == v@.map_values(|e: Vec<u8>| e@).contains(x@),
{
    let ghost view = v@.map_values(|e: Vec<u8>| e@);
    let mut k: usize = 0;
    while k < v.len()
        invariant
            0 <= k <= v@.len(),
            view == v@.map_values(|e: Vec<u8>| e@),
            forall|m: int| 0 <= m < k ==> view[m] != x@,
        decreases v@.len() - k,
    {
        if bytes_eq(&v[k], x) {
            proof {
                assert(view[k as int] == x@);
            }
            return true;
        }
        k = k + 1;
    }
    proof {
        if view.contains(x@) {
            let m = choose|m: int| 0 <= m < view.len() && view[m] == x@;
            assert(view[m] != x@);
        }
    }
    false
}

/// Every maximal 32-hex run in the text, lowercased, kept once each in
/// order of first appearance.
pub fn extract_hex_destinations(text: &str) -> (r: Vec<String>)
    ensures
        r@.len() == spec_extract(text.spec_bytes()).len(),
        forall|q: int|
            0 <= q < r@.len() ==> (#[trigger] r@[q])@ == ascii_chars(
                spec_extract(text.spec_bytes())[q],
            ),
{
    let t = str_bytes(text);
    let n = t.len();
    let mut caps: Vec<Vec<u8>> = Vec::new();
    let mut i: usize = 0;
    while i < n
        invariant
            0 <= i <= n,
            n == t@.len(),
            t@ == text.spec_bytes(),
            scan_from(t@, 0) == caps@.map_values(|e: Vec<u8>| e@) + scan_from(t@, i as int),
        decreases n - i,
    {
        let ghost caps_view = caps@.map_values(|e: Vec<u8>| e@);
        if i == 0 && n >= 32 && hex_run(&t, 0) && (n == 32 || !byte_is_hex_digit(t[32])) {
            let cap = copy_range(&t, 0, 32);
            let end: usize = if n == 32 {
                32
            } else {
                33
            };
            proof {
                assert(match_at_start(t@, 0));
                assert(capture(t@, 0) == cap@);
                assert(match_end(t@, 0) == end as int);
                assert(caps@.push(cap).map_values(|e: Vec<u8>| e@) =~= caps_view.push(cap@));
                assert(caps_view.push(cap@) + scan_from(t@, end as int) =~= caps_view + (seq![
                    capture(t@, 0),
                ] + scan_from(t@, end as int)));
            }
            caps.push(cap);
            i = end;
        } else if n - i >= 33 && !byte_is_hex_digit(t[i]) && hex_run(&t, i + 1) && (n - i == 33
            || !byte_is_hex_digit(t[i + 33])) {
            let cap = copy_range(&t, i + 1, i + 33);
            let end: usize = if n - i == 33 {
                i + 33
            } else {
                i + 34
            };
            proof {
                assert(match_after_boundary(t@, i as int));
                assert(!match_at_start(t@, i as int));
                assert(capture(t@, i as int) == cap@);
                assert(match_end(t@, i as int) == end as int);
                assert(caps@.push(cap).map_values(|e: Vec<u8>| e@) =~= caps_view.push(cap@));
                assert(caps_view.push(cap@) + scan_from(t@, end as int) =~= caps_view + (seq![
                    capture(t@, i as int),
                ] + scan_from(t@, end as int)));
            }
            caps.push(cap);
            i = end;
        } else {
            proof {
                assert(!match_at_start(t@, i as int));
                assert(!match_after_boundary(t@, i as int));
            }
            i = i + 1;
        }
    }
    proof {
        assert(scan_from(t@, n as int) =~= Seq::<Seq<u8>>::empty());
        assert(caps@.map_values(|e: Vec<u8>| e@) + scan_from(t@, n as int) =~= caps@.map_values(
            |e: Vec<u8>| e@,
        ));
        lemma_scan_captures_hex(t@, 0);
    }
    let ghost all_caps = scan_from(t@, 0);
    let ghost lowered_caps = all_caps.map_values(|c: Seq<u8>| spec_lower(c));
    let mut out_bytes: Vec<Vec<u8>> = Vec::new();
    let mut out: Vec<String> = Vec::new();
    let mut q: usize = 0;
    while q < caps.len()
        invariant
            0 <= q <= caps@.len(),
            caps@.map_values(|e: Vec<u8>| e@) == all_caps,
            lowered_caps == all_caps.map_values(|c: Seq<u8>| spec_lower(c)),
            forall|k: int| 0 <= k < all_caps.len() ==> is_hex32(#[trigger] all_caps[k]),
            out_bytes@.map_values(|e: Vec<u8>| e@) == spec_dedup(
                lowered_caps.subrange(0, q as int),
            ),
            out@.len() == out_bytes@.len(),
            forall|k: int|
                0 <= k < out@.len() ==> (#[trigger] out@[k])@ == ascii_chars(
                    out_bytes@.map_values(|e: Vec<u8>| e@)[k],
                ),
        decreases caps@.len() - q,
    {
        let lowered = lower_bytes(&caps[q]);
        proof {
            assert(caps@.map_values(|e: Vec<u8>| e@)[q as int] == caps@[q as int]@);
            assert(lowered@ == lowered_caps[q as int]);
            assert(lowered_caps.subrange(0, q + 1 as int).drop_last() =~= lowered_caps.subrange(
                0,
                q as int,
            ));
            assert(lowered_caps.subrange(0, q + 1 as int).last() == lowered@);
        }
        let ghost prev = out_bytes@.map_values(|e: Vec<u8>| e@);
        if !vecs_contain(&out_bytes, &lowered) {
            proof {
                assert(is_hex32(all_caps[q as int]));
                lemma_lower_hex32(all_caps[q as int]);
                assert(is_ascii_bytes(lowered@));
                assert(out_bytes@.push(lowered).map_values(|e: Vec<u8>| e@) =~= prev.push(
                    lowered@,
                ));
            }
            let shown = ascii_to_string(lowered.clone());
            out_bytes.push(lowered);
            out.push(shown);
        }
        q = q + 1;
    }
    proof {
        assert(lowered_caps.subrange(0, lowered_caps.len() as int) =~= lowered_caps);
    }
    out
}

/// Taken together: the extracted destinations hold each 32-hex run at most
/// once, lowercased, in order of first appearance among the scanned runs.
pub proof fn lemma_extract_properties(t: Seq<u8>)
    ensures
        spec_extract(t).no_duplicates(),
        forall|x: Seq<u8>|
            spec_extract(t).contains(x) <==> scan_from(t, 0).map_values(
                |c: Seq<u8>| spec_lower(c),
            ).contains(x),
        forall|k: int|
            0 <= k < spec_extract(t).len() ==> is_canonical_hex32(#[trigger] spec_extract(t)[k]),
        forall|p: int, q: int|
            0 <= p < q < spec_extract(t).len() ==> first_idx(
                scan_from(t, 0).map_values(|c: Seq<u8>| spec_lower(c)),
                spec_extract(t)[p],
            ) < first_idx(
                scan_from(t, 0).map_values(|c: Seq<u8>| spec_lower(c)),
                spec_extract(t)[q],
            ),
{
    let lowered = scan_from(t, 0).map_values(|c: Seq<u8>| spec_lower(c));
    lemma_dedup_properties(lowered);
    lemma_scan_captures_hex(t, 0);
    assert forall|k: int| 0 <= k < spec_extract(t).len() implies is_canonical_hex32(
        #[trigger] spec_extract(t)[k],
    ) by {
        assert(spec_extract(t).contains(spec_extract(t)[k]));
        assert(lowered.contains(spec_extract(t)[k]));
        let m = choose|m: int| 0 <= m < lowered.len() && lowered[m] == spec_extract(t)[k];
        assert(is_hex32(scan_from(t, 0)[m]));
        lemma_lower_hex32(scan_from(t, 0)[m]);
    }
}

} // verus!
