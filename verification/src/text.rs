//! Verified character-level string operations: pattern replacement,
//! whitespace trimming, prefix tests and path joining.

use vstd::prelude::*;
use vstd::string::*;

verus! {

/// Replacement of every leftmost, non-overlapping occurrence of `pat` in `s`
/// by `rep`; an empty pattern leaves `s` unchanged.
pub open spec fn spec_replace_all(s: Seq<char>, pat: Seq<char>, rep: Seq<char>) -> Seq<char>
    decreases s.len(),
{
    if pat.len() == 0 || s.len() < pat.len() {
        s
    } else if s.subrange(0, pat.len() as int) == pat {
        rep + spec_replace_all(s.skip(pat.len() as int), pat, rep)
    } else {
        s.subrange(0, 1) + spec_replace_all(s.skip(1), pat, rep)
    }
}

/// Whether `pat` occurs in `s` at position `i`.
fn pattern_at(s: &str, i: usize, pat: &str) -> (r: bool)
    requires
        i + pat@.len() <= s@.len(),
        s@.len() <= usize::MAX,
    ensures
        r <==> (forall|k: int| 0 <= k < pat@.len() ==> s@[i + k] == pat@[k]),
{
    let m = pat.unicode_len();
    let mut j: usize = 0;
    while j < m
        invariant
            m == pat@.len(),
            i + m <= s@.len() <= usize::MAX,
            0 <= j <= m,
            forall|k: int| 0 <= k < j ==> s@[i + k] == pat@[k],
        decreases m - j,
    {
        if s.get_char(i + j) != pat.get_char(j) {
            return false;
        }
        j = j + 1;
    }
    true
}

/// Replaces every leftmost occurrence of `pat` in `s` by `rep`.
pub fn replace_all(s: &str, pat: &str, rep: &str) -> (r: String)
    requires
        pat@.len() > 0,
    ensures
        r@ == spec_replace_all(s@, pat@, rep@),
{
    let n = s.unicode_len();
    let m = pat.unicode_len();
    let mut out = String::new();
    let mut i: usize = 0;
    proof {
        assert(s@.skip(0) =~= s@);
        assert(Seq::<char>::empty() + spec_replace_all(s@, pat@, rep@)
            =~= spec_replace_all(s@, pat@, rep@));
    }
    while i < n
        invariant
            n == s@.len(),
            m == pat@.len(),
            m > 0,
            0 <= i <= n,
            spec_replace_all(s@, pat@, rep@)
                == out@ + spec_replace_all(s@.skip(i as int), pat@, rep@),
        decreases n - i,
    {
        let ghost t = s@.skip(i as int);
        if m <= n - i && pattern_at(s, i, pat) {
            out.append(rep);
            proof {
                assert(t.subrange(0, m as int) =~= pat@) by {
                    assert(forall|k: int| 0 <= k < m ==> t[k] == s@[i + k]);
                }
                assert(t.skip(m as int) =~= s@.skip(i + m));
                assert(out@ + spec_replace_all(s@.skip(i + m), pat@, rep@)
                    =~= spec_replace_all(s@, pat@, rep@));
            }
            i = i + m;
        } else {
            let piece = s.substring_char(i, i + 1);
            out.append(piece);
            proof {
                assert(t.len() == n - i);
                if m <= n - i {
                    let k = choose|k: int| 0 <= k < pat@.len() && s@[i + k] != pat@[k];
                    assert(t.subrange(0, m as int)[k] == s@[i + k]);
                    assert(t.subrange(0, m as int) != pat@);
                } else {
                    assert(spec_replace_all(t, pat@, rep@) == t);
                    assert(t.skip(1) =~= s@.skip(i + 1));
                    assert(spec_replace_all(t.skip(1), pat@, rep@) == t.skip(1));
                    assert(t =~= t.subrange(0, 1) + t.skip(1));
                }
                assert(t.subrange(0, 1) =~= s@.subrange(i as int, i + 1));
                assert(t.skip(1) =~= s@.skip(i + 1));
                assert(out@ + spec_replace_all(s@.skip(i + 1), pat@, rep@)
                    =~= spec_replace_all(s@, pat@, rep@));
            }
            i = i + 1;
        }
    }
    proof {
        assert(s@.skip(n as int) =~= Seq::<char>::empty());
        assert(out@ + Seq::<char>::empty() =~= out@);
    }
    out
}

/// The whitespace characters the trim below removes.
pub open spec fn is_space(c: char) -> bool {
    c == ' ' || c == '\n' || c == '\r' || c == '\t'
}

fn is_space_char(c: char) -> (r: bool)
    ensures
        r == is_space(c),
{
    c == ' ' || c == '\n' || c == '\r' || c == '\t'
}

/// `s` without its leading whitespace.
pub open spec fn spec_trim_front(s: Seq<char>) -> Seq<char>
    decreases s.len(),
{
    if s.len() > 0 && is_space(s[0]) {
        spec_trim_front(s.skip(1))
    } else {
        s
    }
}

/// `s` without its trailing whitespace.
pub open spec fn spec_trim_back(s: Seq<char>) -> Seq<char>
    decreases s.len(),
{
    if s.len() > 0 && is_space(s.last()) {
        spec_trim_back(s.drop_last())
    } else {
        s
    }
}

/// `s` without leading and trailing whitespace.
pub open spec fn spec_trim(s: Seq<char>) -> Seq<char> {
    spec_trim_back(spec_trim_front(s))
}

proof fn lemma_trim_front_skip(s: Seq<char>, k: int)
    requires
        0 <= k <= s.len(),
        forall|j: int| 0 <= j < k ==> is_space(s[j]),
        k < s.len() ==> !is_space(s[k]),
    ensures
        spec_trim_front(s) == s.skip(k),
    decreases k,
{
    if k == 0 {
        assert(s.skip(0) =~= s);
    } else {
        assert(is_space(s[0]));
        let t = s.skip(1);
        assert(forall|j: int| 0 <= j < k - 1 ==> t[j] == s[j + 1] && is_space(t[j]));
        assert(k - 1 < t.len() ==> !is_space(t[k - 1]));
        lemma_trim_front_skip(t, k - 1);
        assert(t.skip(k - 1) =~= s.skip(k));
    }
}

proof fn lemma_trim_back_take(s: Seq<char>, e: int)
    requires
        0 <= e <= s.len(),
        forall|j: int| e <= j < s.len() ==> is_space(s[j]),
        e > 0 ==> !is_space(s[e - 1]),
    ensures
        spec_trim_back(s) == s.take(e),
    decreases s.len() - e,
{
    if e == s.len() {
        assert(s.take(e) =~= s);
    } else {
        assert(is_space(s.last()));
        let t = s.drop_last();
        assert(forall|j: int| e <= j < t.len() ==> t[j] == s[j] && is_space(t[j]));
        assert(e > 0 ==> t[e - 1] == s[e - 1]);
        lemma_trim_back_take(t, e);
        assert(t.take(e) =~= s.take(e));
    }
}

/// `s` with leading and trailing whitespace removed.
pub fn trimmed(s: &str) -> (r: String)
    ensures
        r@ == spec_trim(s@),
{
    let n = s.unicode_len();
    let mut a: usize = 0;
    while a < n && is_space_char(s.get_char(a))
        invariant
            n == s@.len(),
            0 <= a <= n,
            forall|j: int| 0 <= j < a ==> is_space(s@[j]),
        decreases n - a,
    {
        a = a + 1;
    }
    let mut b: usize = n;
    while b > a && is_space_char(s.get_char(b - 1))
        invariant
            n == s@.len(),
            a <= b <= n,
            forall|j: int| b <= j < n ==> is_space(s@[j]),
        decreases b,
    {
        b = b - 1;
    }
    let t = s.substring_char(a, b);
    proof {
        lemma_trim_front_skip(s@, a as int);
        let u = s@.skip(a as int);
        assert(forall|j: int| b - a <= j < u.len() ==> u[j] == s@[a + j] && is_space(u[j]));
        assert(b > a ==> u[b - a - 1] == s@[b - 1]);
        lemma_trim_back_take(u, b - a);
        assert(u.take(b - a) =~= s@.subrange(a as int, b as int));
    }
    String::from_str(t)
}

/// Whether `s` begins with the URL scheme prefix.
pub open spec fn starts_with_http(s: Seq<char>) -> bool {
    s.len() >= 4 && s[0] == 'h' && s[1] == 't' && s[2] == 't' && s[3] == 'p'
}

/// Tests for the URL scheme prefix.
pub fn has_http_prefix(s: &str) -> (r: bool)
    ensures
        r == starts_with_http(s@),
{
    let n = s.unicode_len();
    if n < 4 {
        return false;
    }
    s.get_char(0) == 'h' && s.get_char(1) == 't' && s.get_char(2) == 't' && s.get_char(3) == 'p'
}

/// How the daemon's relative paths are resolved against the music directory:
/// an absolute `rel` stands alone; otherwise the two are joined with exactly
/// one separator between them.
pub open spec fn spec_join_path(base: Seq<char>, rel: Seq<char>) -> Seq<char> {
    if rel.len() > 0 && rel[0] == '/' {
        rel
    } else if base.len() == 0 {
        rel
    } else if base[base.len() - 1] == '/' {
        base + rel
    } else {
        base + seq!['/'] + rel
    }
}

/// Joins the music directory and a track's relative path.
pub fn join_path(base: &str, rel: &str) -> (r: String)
    ensures
        r@ == spec_join_path(base@, rel@),
{
    let bn = base.unicode_len();
    let rn = rel.unicode_len();
    if rn > 0 && rel.get_char(0) == '/' {
        return String::from_str(rel);
    }
    if bn == 0 {
        return String::from_str(rel);
    }
    let mut out = String::from_str(base);
    if base.get_char(bn - 1) != '/' {
        out.append("/");
        proof {
            reveal_strlit("/");
            assert(out@ =~= base@ + seq!['/']);
        }
    }
    out.append(rel);
    out
}

} // verus!
