//! Plain-text substitution: the template placeholder engine and the URL
//! file-name helper, with their mathematical models.

use vstd::prelude::*;

verus! {

/// True when `pat` occurs as a contiguous substring of `s`.
pub open spec fn occurs_in(s: Seq<char>, pat: Seq<char>) -> bool {
    exists|i: int|
        0 <= i && i + pat.len() <= s.len() && #[trigger] s.subrange(i, i + pat.len() as int)
            == pat
}

/// The result of replacing every occurrence of `pat` in `s` with `rep`,
/// scanning left to right over non-overlapping occurrences. An empty `pat`
/// leaves `s` unchanged.
pub open spec fn replace_all(s: Seq<char>, pat: Seq<char>, rep: Seq<char>) -> Seq<char>
    decreases s.len(),
{
    if pat.len() == 0 || s.len() < pat.len() {
        s
    } else if s.subrange(0, pat.len() as int) == pat {
        rep + replace_all(s.skip(pat.len() as int), pat, rep)
    } else {
        seq![s[0]] + replace_all(s.skip(1), pat, rep)
    }
}

/// A rule template after both placeholder tokens are filled in from the
/// owning rule group, the mirror host first, then the namespace.
pub open spec fn spec_substitute(template: Seq<char>, host: Seq<char>, namespace: Seq<char>) -> Seq<char> {
    replace_all(
        replace_all(template, "${mirror_host}"@, host),
        "${mirror_namespace}"@,
        namespace,
    )
}

/// The part of `s` after its last '/'; all of `s` when it has none.
pub open spec fn last_segment(s: Seq<char>) -> Seq<char>
    decreases s.len(),
{
    if s.len() == 0 {
        s
    } else if s.last() == '/' {
        Seq::<char>::empty()
    } else {
        last_segment(s.drop_last()) + seq![s.last()]
    }
}

/// Whether `pat` occurs in `s` starting at character index `at`.
fn matches_at(s: &str, at: usize, pat: &str, pat_len: usize) -> (b: bool)
    requires
        pat@.len() == pat_len,
        at + pat_len <= s@.len(),
        s@.len() <= usize::MAX,
    ensures
        b == (s@.subrange(at as int, at + pat_len) == pat@),
{
    let mut k: usize = 0;
    while k < pat_len
        invariant
            k <= pat_len,
            pat@.len() == pat_len,
            at + pat_len <= s@.len(),
            s@.len() <= usize::MAX,
            forall|j: int| 0 <= j < k ==> s@[at + j] == pat@[j],
        decreases pat_len - k,
    {
        if s.get_char(at + k) != pat.get_char(k) {
            assert(s@.subrange(at as int, at + pat_len)[k as int] == s@[at + k]);
            return false;
        }
        k = k + 1;
    }
    assert(s@.subrange(at as int, at + pat_len) =~= pat@);
    true
}

/// Replaces every occurrence of `pat` in `s` with `rep`, scanning left to
/// right; occurrences do not overlap. An empty `pat` returns `s` unchanged.
pub fn replace_all_str(s: &str, pat: &str, rep: &str) -> (r: String)
    ensures
        r@ == replace_all(s@, pat@, rep@),
{
    let s_len = s.unicode_len();
    let pat_len = pat.unicode_len();
    if pat_len == 0 {
        return String::from_str(s);
    }
    let mut out = String::new();
    let mut i: usize = 0;
    proof {
        assert(s@.skip(0) =~= s@);
        assert(out@ + replace_all(s@, pat@, rep@) =~= replace_all(s@, pat@, rep@));
    }
    while i < s_len
        invariant
            i <= s_len,
            s@.len() == s_len,
            pat@.len() == pat_len,
            0 < pat_len,
            out@ + replace_all(s@.skip(i as int), pat@, rep@) == replace_all(s@, pat@, rep@),
        decreases s_len - i,
    {
        let ghost tail = s@.skip(i as int);
        if pat_len <= s_len - i && matches_at(s, i, pat, pat_len) {
            proof {
                assert(tail.subrange(0, pat_len as int) =~= s@.subrange(i as int, i + pat_len));
                assert(tail.skip(pat_len as int) =~= s@.skip(i + pat_len));
            }
            out.append(rep);
            i = i + pat_len;
        } else {
            proof {
                if pat_len <= s_len - i {
                    assert(tail.subrange(0, pat_len as int) =~= s@.subrange(i as int, i + pat_len));
                    assert(replace_all(tail, pat@, rep@) == seq![tail[0]] + replace_all(tail.skip(1), pat@, rep@));
                } else {
                    assert(replace_all(tail, pat@, rep@) == tail);
                    assert(replace_all(tail.skip(1), pat@, rep@) == tail.skip(1));
                }
                assert(seq![tail[0]] + tail.skip(1) =~= tail);
                assert(tail.skip(1) =~= s@.skip(i + 1));
                assert(tail[0] == s@[i as int]);
                assert(s@.subrange(i as int, i + 1) =~= seq![s@[i as int]]);
            }
            let piece = s.substring_char(i, i + 1);
            out.append(piece);
            i = i + 1;
        }
    }
    proof {
        assert(s@.skip(s_len as int) =~= Seq::<char>::empty());
        assert(replace_all(Seq::<char>::empty(), pat@, rep@) == Seq::<char>::empty());
        assert(out@ + Seq::<char>::empty() =~= out@);
    }
    out
}

/// Fills the two placeholder tokens of a rule template with the owning
/// group's mirror host and namespace, the host token first.
pub fn substitute_mirror_tokens(template: &str, host: &str, namespace: &str) -> (r: String)
    ensures
        r@ == spec_substitute(template@, host@, namespace@),
{
    let step = replace_all_str(template, "${mirror_host}", host);
    replace_all_str(step.as_str(), "${mirror_namespace}", namespace)
}

/// Fills the release-URL placeholder of a release-mirror template.
pub fn substitute_release_url(template: &str, url: &str) -> (r: String)
    ensures
        r@ == replace_all(template@, "${release_url}"@, url@),
{
    replace_all_str(template, "${release_url}", url)
}

proof fn lemma_last_segment_from(s: Seq<char>, i: int)
    requires
        0 <= i <= s.len(),
        forall|k: int| i <= k < s.len() ==> s[k] != '/',
        i == 0 || s[i - 1] == '/',
    ensures
        last_segment(s) == s.skip(i),
    decreases s.len(),
{
    if s.len() == 0 {
        assert(s.skip(i) =~= s);
    } else if i == s.len() {
        assert(s.last() == '/');
        assert(s.skip(i) =~= Seq::<char>::empty());
    } else {
        assert(s.last() != '/');
        lemma_last_segment_from(s.drop_last(), i);
        assert(s.drop_last().skip(i) + seq![s.last()] =~= s.skip(i));
    }
}

/// The file name an artifact URL designates: the text after its last '/'.
pub fn last_url_segment(s: &str) -> (r: String)
    ensures
        r@ == last_segment(s@),
{
    let len = s.unicode_len();
    let mut j = len;
    while j > 0
        invariant
            j <= len,
            s@.len() == len,
            forall|k: int| j <= k < len ==> s@[k] != '/',
        decreases j,
    {
        if s.get_char(j - 1) == '/' {
            proof {
                lemma_last_segment_from(s@, j as int);
                assert(s@.subrange(j as int, len as int) =~= s@.skip(j as int));
            }
            return String::from_str(s.substring_char(j, len));
        }
        j = j - 1;
    }
    proof {
        lemma_last_segment_from(s@, 0);
        assert(s@.skip(0) =~= s@);
    }
    String::from_str(s)
}

/// Replacement is the identity on a string in which the pattern does not
/// occur; in particular, replacing a second time can change nothing once the
/// first pass has left no occurrence behind.
pub proof fn lemma_replace_all_absent(s: Seq<char>, pat: Seq<char>, rep: Seq<char>)
    requires
        pat.len() > 0,
        !occurs_in(s, pat),
    ensures
        replace_all(s, pat, rep) == s,
    decreases s.len(),
{
    if s.len() >= pat.len() {
        if s.subrange(0, pat.len() as int) == pat {
            assert(occurs_in(s, pat)) by {
                assert(0 <= 0 && 0 + pat.len() <= s.len() && s.subrange(0, 0 + pat.len() as int) == pat);
            }
        } else {
            assert(!occurs_in(s.skip(1), pat)) by {
                if occurs_in(s.skip(1), pat) {
                    let i = choose|i: int|
                        0 <= i && i + pat.len() <= s.skip(1).len() && #[trigger] s.skip(
                            1,
                        ).subrange(i, i + pat.len() as int) == pat;
                    assert(s.subrange(i + 1, i + 1 + pat.len() as int) =~= s.skip(1).subrange(
                        i,
                        i + pat.len() as int,
                    ));
                    assert(occurs_in(s, pat));
                }
            }
            lemma_replace_all_absent(s.skip(1), pat, rep);
            assert(seq![s[0]] + s.skip(1) =~= s);
        }
    }
}

/// Template substitution is idempotent on the placeholder tokens: filling
/// `${mirror_host}` and `${mirror_namespace}` a second time gives the same
/// string as once, for host and namespace values free of both tokens,
/// whenever the first pass left no occurrence of either token behind.
pub proof fn lemma_substitute_idempotent(template: Seq<char>, host: Seq<char>, namespace: Seq<char>)
    requires
        !occurs_in(host, "${mirror_host}"@),
        !occurs_in(host, "${mirror_namespace}"@),
        !occurs_in(namespace, "${mirror_host}"@),
        !occurs_in(namespace, "${mirror_namespace}"@),
        !occurs_in(spec_substitute(template, host, namespace), "${mirror_host}"@),
        !occurs_in(spec_substitute(template, host, namespace), "${mirror_namespace}"@),
    ensures
        spec_substitute(spec_substitute(template, host, namespace), host, namespace)
            == spec_substitute(template, host, namespace),
{
    reveal_strlit("${mirror_host}");
    reveal_strlit("${mirror_namespace}");
    let once = spec_substitute(template, host, namespace);
    lemma_replace_all_absent(once, "${mirror_host}"@, host);
    lemma_replace_all_absent(once, "${mirror_namespace}"@, namespace);
}

} // verus!
