//! Literal substitution of placeholders in a text.
use vstd::prelude::*;
use vstd::string::*;

verus! {

/// Whether the non-empty pattern `p` occurs in `s` starting at position `i`.
pub open spec fn occurs_at(s: Seq<char>, p: Seq<char>, i: int) -> bool {
    p.len() > 0 && 0 <= i && i + p.len() <= s.len() && s.subrange(i, i + p.len()) == p
}

/// `s` with every occurrence of `p` replaced by `r`, scanning from the left;
/// occurrences do not overlap, and an empty pattern leaves `s` as it is.
pub open spec fn replace_all(s: Seq<char>, p: Seq<char>, r: Seq<char>) -> Seq<char>
    decreases s.len(),
{
    if s.len() == 0 {
        seq![]
    } else if occurs_at(s, p, 0) {
        r + replace_all(s.skip(p.len() as int), p, r)
    } else {
        seq![s[0]] + replace_all(s.skip(1), p, r)
    }
}

/// A text in which the pattern never occurs is left as it is.
pub proof fn lemma_replace_all_no_occurrence(s: Seq<char>, p: Seq<char>, r: Seq<char>)
    requires
        forall|i: int| 0 <= i < s.len() ==> !occurs_at(s, p, i),
    ensures
        replace_all(s, p, r) == s,
    decreases s.len(),
{
    if s.len() > 0 {
        let t = s.skip(1);
        assert forall|i: int| 0 <= i < t.len() implies !occurs_at(t, p, i) by {
            if occurs_at(t, p, i) {
                assert(s.subrange(i + 1, i + 1 + p.len()) =~= t.subrange(i, i + p.len()));
                assert(occurs_at(s, p, i + 1));
            }
        }
        lemma_replace_all_no_occurrence(t, p, r);
        assert(s =~= seq![s[0]] + t);
    }
}

/// Whether `pat` occurs in `s` at character position `i`.
fn occurs_at_exec(s: &str, pat: &str, i: usize, s_len: usize, p_len: usize) -> (b: bool)
    requires
        s_len == s@.len(),
        p_len == pat@.len(),
        i <= s_len,
    ensures
        b == occurs_at(s@, pat@, i as int),
{
    if p_len == 0 || p_len > s_len - i {
        return false;
    }
    let mut j: usize = 0;
    while j < p_len
        invariant
            0 < p_len <= s_len - i,
            s_len == s@.len(),
            p_len == pat@.len(),
            j <= p_len,
            forall|k: int| 0 <= k < j ==> s@[i + k] == pat@[k],
        decreases p_len - j,
    {
        if s.get_char(i + j) != pat.get_char(j) {
            assert(s@.subrange(i as int, i + p_len)[j as int] != pat@[j as int]);
            return false;
        }
        j += 1;
    }
    assert(s@.subrange(i as int, i + p_len) =~= pat@);
    true
}

/// Replaces every occurrence of `pat` in `s` by `rep`, from left to right.
pub fn replace_text(s: &str, pat: &str, rep: &str) -> (r: String)
    ensures
        r@ == replace_all(s@, pat@, rep@),
{
    let s_len = s.unicode_len();
    let p_len = pat.unicode_len();
    let mut out = String::new();
    let mut i: usize = 0;
    assert(s@.skip(0) =~= s@);
    while i < s_len
        invariant
            s_len == s@.len(),
            p_len == pat@.len(),
            i <= s_len,
            out@ + replace_all(s@.skip(i as int), pat@, rep@) == replace_all(s@, pat@, rep@),
        decreases s_len - i,
    {
        let ghost rest = s@.skip(i as int);
        if occurs_at_exec(s, pat, i, s_len, p_len) {
            proof {
                assert(rest.subrange(0, p_len as int) =~= s@.subrange(i as int, i + p_len));
                assert(rest.skip(p_len as int) =~= s@.skip(i + p_len));
                assert(occurs_at(rest, pat@, 0));
            }
            out.append(rep);
            i = i + p_len;
            assert(out@ + replace_all(s@.skip(i as int), pat@, rep@) =~= replace_all(s@, pat@, rep@));
        } else {
            proof {
                if occurs_at(rest, pat@, 0) {
                    assert(rest.subrange(0, p_len as int) =~= s@.subrange(i as int, i + p_len));
                }
                assert(rest.skip(1) =~= s@.skip(i + 1));
            }
            out.append(s.substring_char(i, i + 1));
            i = i + 1;
            assert(out@ + replace_all(s@.skip(i as int), pat@, rep@) =~= replace_all(s@, pat@, rep@));
        }
    }
    assert(s@.skip(i as int).len() == 0);
    assert(out@ =~= replace_all(s@, pat@, rep@));
    out
}

} // verus!
