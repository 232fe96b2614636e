//! Joining the hub base URL with a request path without doubling or losing
//! the separating slash.

use vstd::prelude::*;

use crate::strutil::char_is_ws;
use crate::strutil::is_ws_char;
use crate::strutil::lemma_trim_chars_back_subrange;
use crate::strutil::lemma_trim_chars_front_subrange;
use crate::strutil::trim_chars;
use crate::strutil::trim_chars_back;
use crate::strutil::trim_chars_front;
use crate::types::NodeError;

verus! {

use vstd::string::StrSliceExecFns;

pub open spec fn strip_slash_back(s: Seq<char>) -> Seq<char>
    decreases s.len(),
{
    if s.len() > 0 && s.last() == '/' {
        strip_slash_back(s.drop_last())
    } else {
        s
    }
}

pub open spec fn strip_slash_front(s: Seq<char>) -> Seq<char>
    decreases s.len(),
{
    if s.len() > 0 && s[0] == '/' {
        strip_slash_front(s.drop_first())
    } else {
        s
    }
}

/// The joined URL: trimmed base without trailing slashes, one slash, path
/// without leading slashes.
pub open spec fn spec_join_url(base: Seq<char>, path: Seq<char>) -> Seq<char> {
    strip_slash_back(trim_chars(base)) + seq!['/'] + strip_slash_front(path)
}

proof fn lemma_strip_slash_back_subrange(s: Seq<char>, j: int)
    requires
        0 <= j <= s.len(),
        forall|k: int| j <= k < s.len() ==> s[k] == '/',
    ensures
        strip_slash_back(s) == strip_slash_back(s.subrange(0, j)),
    decreases s.len() - j,
{
    if j < s.len() {
        let t = s.drop_last();
        assert(t == s.subrange(0, s.len() - 1));
        lemma_strip_slash_back_subrange(t, j);
        assert(t.subrange(0, j) =~= s.subrange(0, j));
    } else {
        assert(s.subrange(0, s.len() as int) =~= s);
    }
}

proof fn lemma_strip_slash_front_subrange(s: Seq<char>, i: int)
    requires
        0 <= i <= s.len(),
        forall|k: int| 0 <= k < i ==> s[k] == '/',
    ensures
        strip_slash_front(s) == strip_slash_front(s.subrange(i, s.len() as int)),
    decreases i,
{
    if i > 0 {
        let t = s.drop_first();
        assert(t == s.subrange(1, s.len() as int));
        lemma_strip_slash_front_subrange(t, i - 1);
        assert(t.subrange(i - 1, t.len() as int) =~= s.subrange(i, s.len() as int));
    } else {
        assert(s.subrange(0, s.len() as int) =~= s);
    }
}

/// Compose `<base>/<path>` with exactly one slash between the two parts.
/// A base that is blank after trimming is rejected.
pub fn join_url(base: &str, path: &str) -> (r: Result<String, NodeError>)
    ensures
        (r is Ok) <==> trim_chars(base@).len() > 0,
        r is Err ==> r->Err_0 == (NodeError::InvalidConfig {}),
        r is Ok ==> r->Ok_0@ == spec_join_url(base@, path@),
{
    let n = base.unicode_len();
    let mut i: usize = 0;
    while i < n && char_is_ws(base.get_char(i))
        invariant
            0 <= i <= n,
            n == base@.len(),
            forall|k: int| 0 <= k < i ==> is_ws_char(base@[k]),
        decreases n - i,
    {
        i = i + 1;
    }
    proof {
        lemma_trim_chars_front_subrange(base@, i as int);
    }
    let mut j: usize = n;
    while j > i && char_is_ws(base.get_char(j - 1))
        invariant
            i <= j <= n,
            n == base@.len(),
            forall|k: int| 0 <= k < i ==> is_ws_char(base@[k]),
            forall|k: int| j <= k < n ==> is_ws_char(base@[k]),
        decreases j,
    {
        j = j - 1;
    }
    let ghost front = base@.subrange(i as int, n as int);
    proof {
        if i < n {
            assert(front[0] == base@[i as int]);
            assert(trim_chars_front(front) == front);
        } else {
            assert(front =~= Seq::<char>::empty());
        }
        assert(trim_chars_front(base@) == front);
        assert(forall|k: int| j <= k < n ==> is_ws_char(#[trigger] front[k - i]));
        lemma_trim_chars_back_subrange(front, j - i);
        let cut = front.subrange(0, j - i);
        if j > i {
            assert(cut.last() == base@[j - 1]);
            assert(trim_chars_back(cut) == cut);
        } else {
            assert(cut =~= Seq::<char>::empty());
        }
        assert(trim_chars(base@) == cut);
        assert(cut =~= base@.subrange(i as int, j as int));
    }
    if j == i {
        return Err(NodeError::InvalidConfig {});
    }
    let mut j2: usize = j;
    while j2 > i && base.get_char(j2 - 1) == '/'
        invariant
            i <= j2 <= j <= n,
            n == base@.len(),
            forall|k: int| j2 <= k < j ==> base@[k] == '/',
        decreases j2,
    {
        j2 = j2 - 1;
    }
    let ghost trimmed = base@.subrange(i as int, j as int);
    proof {
        assert(forall|k: int| j2 - i <= k < trimmed.len() ==> #[trigger] trimmed[k] == '/');
        lemma_strip_slash_back_subrange(trimmed, j2 - i);
        let cut = trimmed.subrange(0, j2 - i);
        if j2 > i {
            assert(cut.last() == base@[j2 - 1]);
            assert(strip_slash_back(cut) == cut);
        } else {
            assert(cut =~= Seq::<char>::empty());
        }
        assert(strip_slash_back(trim_chars(base@)) == cut);
        assert(cut =~= base@.subrange(i as int, j2 as int));
    }
    let m = path.unicode_len();
    let mut k: usize = 0;
    while k < m && path.get_char(k) == '/'
        invariant
            0 <= k <= m,
            m == path@.len(),
            forall|t: int| 0 <= t < k ==> path@[t] == '/',
        decreases m - k,
    {
        k = k + 1;
    }
    proof {
        lemma_strip_slash_front_subrange(path@, k as int);
        let rest = path@.subrange(k as int, m as int);
        if k < m {
            assert(rest[0] == path@[k as int]);
            assert(strip_slash_front(rest) == rest);
        } else {
            assert(rest =~= Seq::<char>::empty());
        }
        assert(strip_slash_front(path@) == rest);
    }
    let head = base.substring_char(i, j2);
    let tail = path.substring_char(k, m);
    let mut out = head.to_owned();
    out.append("/");
    out.append(tail);
    proof {
        reveal_strlit("/");
        assert("/"@ =~= seq!['/']);
        assert(out@ =~= spec_join_url(base@, path@));
    }
    Ok(out)
}

/// The joined URL never doubles the slash between base and path and never
/// loses the path's own first segment: one slash stands at the junction,
/// what precedes it does not end in a slash, and everything after it is the
/// path with only its leading slashes removed.
pub proof fn lemma_join_url_single_slash(base: Seq<char>, path: Seq<char>)
    ensures
        ({
            let joined = spec_join_url(base, path);
            let cut = strip_slash_back(trim_chars(base)).len() as int;
            &&& joined[cut] == '/'
            &&& cut > 0 ==> joined[cut - 1] != '/'
            &&& cut + 1 < joined.len() ==> joined[cut + 1] != '/'
            &&& joined.subrange(cut + 1, joined.len() as int) == strip_slash_front(path)
        }),
{
    let head = strip_slash_back(trim_chars(base));
    let hlen = head.len() as int;
    let tail = strip_slash_front(path);
    let joined = spec_join_url(base, path);
    if head.len() > 0 {
        lemma_strip_slash_back_last(trim_chars(base));
        assert(joined[hlen - 1] == head.last());
    }
    if tail.len() > 0 {
        lemma_strip_slash_front_first(path);
        assert(joined[hlen + 1] == tail[0]);
    }
    assert(joined.subrange(hlen + 1, joined.len() as int) =~= tail);
}

proof fn lemma_strip_slash_back_last(s: Seq<char>)
    ensures
        strip_slash_back(s).len() > 0 ==> strip_slash_back(s).last() != '/',
    decreases s.len(),
{
    if s.len() > 0 && s.last() == '/' {
        lemma_strip_slash_back_last(s.drop_last());
    }
}

proof fn lemma_strip_slash_front_first(s: Seq<char>)
    ensures
        strip_slash_front(s).len() > 0 ==> strip_slash_front(s)[0] != '/',
    decreases s.len(),
{
    if s.len() > 0 && s[0] == '/' {
        lemma_strip_slash_front_first(s.drop_first());
    }
}

} // verus!
