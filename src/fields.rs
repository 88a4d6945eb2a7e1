//! Comma-separated replies: picking one field out of a delimited reply.
use vstd::prelude::*;
use crate::text::text_of;

verus! {

/// The part of `t` before the first `sep` (all of `t` when there is none).
pub open spec fn head(t: Seq<char>, sep: char) -> Seq<char>
    decreases t.len(),
{
    if t.len() == 0 {
        t
    } else if t[0] == sep {
        Seq::empty()
    } else {
        seq![t[0]] + head(t.drop_first(), sep)
    }
}

/// The part of `t` after the first `sep`, if there is one.
pub open spec fn rest(t: Seq<char>, sep: char) -> Option<Seq<char>>
    decreases t.len(),
{
    if t.len() == 0 {
        None
    } else if t[0] == sep {
        Some(t.drop_first())
    } else {
        rest(t.drop_first(), sep)
    }
}

/// Field `k` (counting from zero) of `t` split at every `sep`, if `t` has
/// that many fields.
pub open spec fn field(t: Seq<char>, sep: char, k: nat) -> Option<Seq<char>>
    decreases k,
{
    if k == 0 {
        Some(head(t, sep))
    } else {
        match rest(t, sep) {
            Some(r) => field(r, sep, (k - 1) as nat),
            None => None,
        }
    }
}

proof fn lemma_scan(t: Seq<char>, sep: char, j: int)
    requires
        0 <= j <= t.len(),
        forall|i: int| 0 <= i < j ==> t[i] != sep,
        j == t.len() || t[j] == sep,
    ensures
        head(t, sep) == t.subrange(0, j),
        rest(t, sep) == if j == t.len() { None } else { Some(t.subrange(j + 1, t.len() as int)) },
    decreases j,
{
    if j == 0 {
        if t.len() > 0 {
            assert(t.drop_first() =~= t.subrange(1, t.len() as int));
        }
        assert(t.subrange(0, 0) =~= Seq::<char>::empty());
        if t.len() == 0 {
            assert(t =~= Seq::<char>::empty());
        }
    } else {
        let u = t.drop_first();
        lemma_scan(u, sep, j - 1);
        assert(seq![t[0]] + u.subrange(0, j - 1) =~= t.subrange(0, j));
        if j < t.len() {
            assert(u.subrange(j, u.len() as int) =~= t.subrange(j + 1, t.len() as int));
        }
    }
}

/// Field `k` of `s` split at every `sep`; `None` when `s` has `k` or fewer
/// separators.
pub fn nth_field(s: &str, sep: char, k: usize) -> (r: Option<String>)
    ensures
        match field(s@, sep, k as nat) {
            Some(f) => r is Some && r->Some_0@ == f,
            None => r is None,
        },
    decreases k,
{
    let n = s.unicode_len();
    let mut j: usize = 0;
    while j < n && s.get_char(j) != sep
        invariant
            n == s@.len(),
            j <= n,
            forall|i: int| 0 <= i < j ==> s@[i] != sep,
        decreases n - j,
    {
        j = j + 1;
    }
    proof {
        lemma_scan(s@, sep, j as int);
    }
    if k == 0 {
        Some(text_of(s.substring_char(0, j)))
    } else if j == n {
        None
    } else {
        nth_field(s.substring_char(j + 1, n), sep, k - 1)
    }
}

} // verus!
