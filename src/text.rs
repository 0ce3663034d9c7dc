use vstd::prelude::*;

verus! {

/// `p` occurs in `s` starting at index `i`.
pub open spec fn starts_at(s: Seq<char>, i: int, p: Seq<char>) -> bool {
    0 <= i && i + p.len() <= s.len() && s.subrange(i, i + p.len()) == p
}

/// `s` from index `i` on, with each occurrence of `pat` replaced by `rep`,
/// scanning left to right without overlap.
pub open spec fn replaced_from(s: Seq<char>, pat: Seq<char>, rep: Seq<char>, i: int) -> Seq<char>
    decreases s.len() - i,
{
    if pat.len() == 0 || i + pat.len() > s.len() {
        s.subrange(i, s.len() as int)
    } else if s.subrange(i, i + pat.len()) == pat {
        rep + replaced_from(s, pat, rep, i + pat.len())
    } else {
        seq![s[i]] + replaced_from(s, pat, rep, i + 1)
    }
}

/// `s` with every occurrence of `pat` replaced by `rep`, left to right and
/// without overlap; `s` itself when `pat` is empty.
pub open spec fn replace_spec(s: Seq<char>, pat: Seq<char>, rep: Seq<char>) -> Seq<char> {
    replaced_from(s, pat, rep, 0)
}

/// The characters of `s` in order.
pub fn chars_of(s: &str) -> (v: Vec<char>)
    ensures
        v@ == s@,
{
    let mut v: Vec<char> = Vec::new();
    for c in it: s.chars()
        invariant
            it.seq() == s@,
            v@ == it.seq().take(it.index() as int),
    {
        v.push(c);
    }
    v
}

/// Whether `p` occurs in `v` at index `i`.
pub fn matches_at(v: &Vec<char>, i: usize, p: &Vec<char>) -> (r: bool)
    ensures
        r == starts_at(v@, i as int, p@),
{
    if i > v.len() || p.len() > v.len() - i {
        return false;
    }
    let mut k: usize = 0;
    while k < p.len()
        invariant
            i + p.len() <= v.len(),
            k <= p.len(),
            forall|j: int| 0 <= j < k ==> v@[i + j] == p@[j],
        decreases p.len() - k,
    {
        if v[i + k] != p[k] {
            assert(v@.subrange(i as int, i + p.len())[k as int] != p@[k as int]);
            return false;
        }
        k = k + 1;
    }
    assert(v@.subrange(i as int, i + p.len()) =~= p@);
    true
}

/// Replaces every occurrence of `pat` in `s` by `rep`, left to right and
/// without overlap, as `str::replace` does for a non-empty pattern.
pub fn replace_all(s: &str, pat: &str, rep: &str) -> (r: String)
    requires
        pat@.len() > 0,
    ensures
        r@ == replace_spec(s@, pat@, rep@),
{
    let v = chars_of(s);
    let p = chars_of(pat);
    let n = v.len();
    let plen = p.len();
    let mut out = String::new();
    let mut last: usize = 0;
    let mut i: usize = 0;
    while i < n && plen <= n - i
        invariant
            v@ == s@,
            p@ == pat@,
            n == v.len(),
            plen == p.len(),
            plen > 0,
            last <= i <= n,
            out@ + s@.subrange(last as int, i as int) + replaced_from(s@, pat@, rep@, i as int)
                == replace_spec(s@, pat@, rep@),
        decreases n - i,
    {
        if matches_at(&v, i, &p) {
            let ghost before = out@ + s@.subrange(last as int, i as int);
            out.append(s.substring_char(last, i));
            out.append(rep);
            assert(out@ == before + rep@);
            i = i + plen;
            last = i;
            assert(out@ + s@.subrange(last as int, i as int) + replaced_from(s@, pat@, rep@, i as int)
                =~= before + (rep@ + replaced_from(s@, pat@, rep@, i as int)));
        } else {
            assert(s@.subrange(last as int, i + 1) =~= s@.subrange(last as int, i as int) + seq![s@[i as int]]);
            i = i + 1;
        }
    }
    assert(replaced_from(s@, pat@, rep@, i as int) == s@.subrange(i as int, n as int));
    assert(s@.subrange(last as int, i as int) + s@.subrange(i as int, n as int) =~= s@.subrange(last as int, n as int));
    out.append(s.substring_char(last, n));
    out
}

} // verus!
