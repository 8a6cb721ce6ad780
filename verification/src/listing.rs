//! Ordering and construction of directory listings.
//!
//! A listing is an ordered snapshot of one directory's entry names: the
//! parent marker `".."` first, then the children sorted ascending by name
//! (lexicographic by character code point).

use vstd::prelude::*;

verus! {

/// Lexicographic "less than or equal" on character sequences, comparing
/// characters by code point.
pub open spec fn lex_le(a: Seq<char>, b: Seq<char>) -> bool
    decreases a.len(),
{
    if a.len() == 0 {
        true
    } else if b.len() == 0 {
        false
    } else if (a[0] as u32) < (b[0] as u32) {
        true
    } else if (b[0] as u32) < (a[0] as u32) {
        false
    } else {
        lex_le(a.skip(1), b.skip(1))
    }
}

/// `lex_le` is total: any two names are comparable.
pub proof fn lemma_lex_le_total(a: Seq<char>, b: Seq<char>)
    ensures
        lex_le(a, b) || lex_le(b, a),
    decreases a.len(),
{
    if a.len() == 0 || b.len() == 0 {
    } else if (a[0] as u32) == (b[0] as u32) {
        lemma_lex_le_total(a.skip(1), b.skip(1));
    }
}

/// `lex_le` is transitive.
pub proof fn lemma_lex_le_trans(a: Seq<char>, b: Seq<char>, c: Seq<char>)
    requires
        lex_le(a, b),
        lex_le(b, c),
    ensures
        lex_le(a, c),
    decreases a.len(),
{
    if a.len() == 0 {
    } else if (a[0] as u32) == (b[0] as u32) && (b[0] as u32) == (c[0] as u32) {
        lemma_lex_le_trans(a.skip(1), b.skip(1), c.skip(1));
    }
}

/// Compares two names lexicographically by code point, matching `lex_le`.
pub fn str_le(a: &str, b: &str) -> (r: bool)
    ensures
        r == lex_le(a@, b@),
{
    let a_len: usize = a.unicode_len();
    let b_len: usize = b.unicode_len();
    let mut i: usize = 0;
    proof {
        assert(a@.skip(0) =~= a@);
        assert(b@.skip(0) =~= b@);
    }
    loop
        invariant
            i <= a_len,
            i <= b_len,
            a_len == a@.len(),
            b_len == b@.len(),
            lex_le(a@, b@) == lex_le(a@.skip(i as int), b@.skip(i as int)),
        decreases a_len - i,
    {
        if i >= a_len {
            return true;
        }
        if i >= b_len {
            return false;
        }
        let ca = a.get_char(i) as u32;
        let cb = b.get_char(i) as u32;
        if ca < cb {
            return true;
        }
        if cb < ca {
            return false;
        }
        proof {
            assert(a@.skip(i as int).skip(1) =~= a@.skip(i as int + 1));
            assert(b@.skip(i as int).skip(1) =~= b@.skip(i as int + 1));
        }
        i = i + 1;
    }
}

/// The names in `s` are in ascending lexicographic order.
pub open spec fn sorted_strings(s: Seq<String>) -> bool {
    forall|i: int, j: int| 0 <= i < j < s.len() ==> lex_le(s[i]@, s[j]@)
}

/// Sorts names ascending by `lex_le`; the result is a permutation of the
/// input (insertion sort).
pub fn sort_names(v: Vec<String>) -> (r: Vec<String>)
    ensures
        r@.len() == v@.len(),
        sorted_strings(r@),
        r@.to_multiset() == v@.to_multiset(),
{
    let mut r: Vec<String> = Vec::new();
    let mut k: usize = 0;
    proof {
        assert(r@ =~= v@.take(0));
    }
    while k < v.len()
        invariant
            k <= v.len(),
            r@.len() == k,
            sorted_strings(r@),
            r@.to_multiset() == v@.take(k as int).to_multiset(),
        decreases v.len() - k,
    {
        let x = v[k].clone();
        let mut pos: usize = 0;
        while pos < r.len() && str_le(r[pos].as_str(), x.as_str())
            invariant
                pos <= r@.len(),
                forall|q: int| 0 <= q < pos ==> lex_le(r@[q]@, x@),
            decreases r@.len() - pos,
        {
            pos = pos + 1;
        }
        proof {
            if pos < r@.len() {
                lemma_lex_le_total(r@[pos as int]@, x@);
                assert forall|q: int| pos <= q < r@.len() implies lex_le(x@, r@[q]@) by {
                    if q > pos {
                        lemma_lex_le_trans(x@, r@[pos as int]@, r@[q]@);
                    }
                }
            }
            vstd::seq_lib::to_multiset_insert(r@, pos as int, x);
            vstd::seq_lib::to_multiset_build(v@.take(k as int), v@[k as int]);
            assert(v@.take(k as int).push(v@[k as int]) =~= v@.take(k as int + 1));
        }
        r.insert(pos, x);
        k = k + 1;
    }
    proof {
        assert(v@.take(v@.len() as int) =~= v@);
    }
    r
}

/// Builds the listing for one directory from its raw child names: the
/// parent marker `".."` first, then the children sorted ascending.
pub fn build_listing(children: Vec<String>) -> (r: Vec<String>)
    ensures
        r@.len() == children@.len() + 1,
        r@[0]@ == ".."@,
        sorted_strings(r@.skip(1)),
        r@.skip(1).to_multiset() == children@.to_multiset(),
{
    let mut r = sort_names(children);
    let ghost sorted_view = r@;
    r.insert(0, String::from_str(".."));
    proof {
        assert(r@.skip(1) =~= sorted_view);
    }
    r
}

/// A well-formed listing: never empty, the parent marker first, the
/// remainder sorted ascending by name.
pub open spec fn listing_wf(l: Seq<String>) -> bool {
    &&& l.len() >= 1
    &&& l[0]@ == ".."@
    &&& sorted_strings(l.skip(1))
}

} // verus!
