use vstd::prelude::*;
use vstd::string::StrSliceExecFns;

verus! {

/// `p` is an exact prefix of `s`: `s` begins with all of `p`'s characters.
/// This is the relation the event router uses to tie a hit-test id to the
/// widget parts it drives, so `"start"` matches `"start_background"` but
/// not `"restart_background"`.
pub open spec fn is_id_prefix(p: Seq<char>, s: Seq<char>) -> bool {
    p.len() <= s.len() && s.subrange(0, p.len() as int) == p
}

/// Law: prefix matching is exact-prefix, not substring — an id `s` matches
/// a resolved id `p` exactly when `s` is `p` followed by some (possibly
/// empty) suffix, never when `p` merely occurs inside `s`.
pub proof fn lemma_prefix_is_exact(p: Seq<char>, s: Seq<char>)
    ensures
        is_id_prefix(p, s) <==> exists|t: Seq<char>| s == p + t,
{
    if is_id_prefix(p, s) {
        let t = s.skip(p.len() as int);
        assert(s =~= p + t);
    }
    if exists|t: Seq<char>| s == p + t {
        let t = choose|t: Seq<char>| s == p + t;
        assert(s.subrange(0, p.len() as int) =~= p);
    }
}

/// Character-for-character string equality.
pub fn str_eq(a: &str, b: &str) -> (r: bool)
    ensures
        r == (a@ == b@),
{
    let la = a.unicode_len();
    let lb = b.unicode_len();
    if la != lb {
        return false;
    }
    let mut i: usize = 0;
    while i < la
        invariant
            la == a@.len(),
            lb == b@.len(),
            la == lb,
            i <= la,
            forall|j: int| 0 <= j < i ==> a@[j] == b@[j],
        decreases la - i,
    {
        if a.get_char(i) != b.get_char(i) {
            return false;
        }
        i = i + 1;
    }
    proof {
        assert(a@ =~= b@);
    }
    true
}

/// Whether `s` starts with the prefix `p`.
pub fn str_starts_with(s: &str, p: &str) -> (r: bool)
    ensures
        r == is_id_prefix(p@, s@),
{
    let lp = p.unicode_len();
    let ls = s.unicode_len();
    if lp > ls {
        return false;
    }
    let mut i: usize = 0;
    while i < lp
        invariant
            lp == p@.len(),
            ls == s@.len(),
            lp <= ls,
            i <= lp,
            forall|j: int| 0 <= j < i ==> s@[j] == p@[j],
        decreases lp - i,
    {
        if s.get_char(i) != p.get_char(i) {
            proof {
                assert(s@.subrange(0, p@.len() as int)[i as int] == s@[i as int]);
            }
            return false;
        }
        i = i + 1;
    }
    proof {
        assert(s@.subrange(0, p@.len() as int) =~= p@);
    }
    true
}

} // verus!
