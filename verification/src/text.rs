//! Verified string helpers: character-wise equality and case-sensitive
//! substring search on `&str`.

use vstd::prelude::*;
use vstd::string::StrSliceExecFns;

verus! {

/// `needle` occurs in `hay` as the run of characters starting at position `i`.
pub open spec fn occurs_at(hay: Seq<char>, needle: Seq<char>, i: int) -> bool {
    &&& 0 <= i
    &&& i + needle.len() <= hay.len()
    &&& hay.subrange(i, i + needle.len()) == needle
}

/// `needle` occurs somewhere in `hay` as a contiguous run of characters.
/// This is plain case-sensitive containment: no normalization, no patterns.
pub open spec fn occurs_in(hay: Seq<char>, needle: Seq<char>) -> bool {
    exists|i: int| occurs_at(hay, needle, i)
}

/// An empty needle occurs in every string.
pub proof fn lemma_empty_needle_occurs(hay: Seq<char>)
    ensures
        occurs_in(hay, Seq::<char>::empty()),
{
    assert(hay.subrange(0, 0) =~= Seq::<char>::empty());
    assert(occurs_at(hay, Seq::<char>::empty(), 0));
}

/// Law: containment is infix: the needle occurs in every string that
/// carries it somewhere in the middle, whatever stands before and after.
pub proof fn lemma_infix_occurs(prefix: Seq<char>, needle: Seq<char>, suffix: Seq<char>)
    ensures
        occurs_in(prefix + needle + suffix, needle),
{
    let hay = prefix + needle + suffix;
    assert(hay.subrange(prefix.len() as int, prefix.len() + needle.len() as int) =~= needle);
    assert(occurs_at(hay, needle, prefix.len() as int));
}

/// Character-wise equality of two string slices.
pub fn str_eq(a: &str, b: &str) -> (r: bool)
    ensures
        r == (a@ == b@),
{
    let alen = a.unicode_len();
    let blen = b.unicode_len();
    if alen != blen {
        return false;
    }
    for i in 0..alen
        invariant
            alen == a@.len(),
            alen == b@.len(),
            forall|j: int| 0 <= j < i ==> a@[j] == b@[j],
    {
        if a.get_char(i) != b.get_char(i) {
            return false;
        }
    }
    proof {
        assert(a@ =~= b@);
    }
    true
}

/// Case-sensitive substring search: does `needle` occur anywhere in `hay`?
pub fn contains_substring(hay: &str, needle: &str) -> (r: bool)
    ensures
        r == occurs_in(hay@, needle@),
{
    let h = hay.unicode_len();
    let n = needle.unicode_len();
    if n == 0 {
        proof {
            assert(hay@.subrange(0, 0) =~= needle@);
            assert(occurs_at(hay@, needle@, 0));
        }
        return true;
    }
    if n > h {
        proof {
            assert(!occurs_in(hay@, needle@)) by {
                if occurs_in(hay@, needle@) {
                    let i = choose|i: int| occurs_at(hay@, needle@, i);
                    assert(i + needle@.len() <= hay@.len());
                }
            }
        }
        return false;
    }
    for i in 0..(h - n + 1)
        invariant
            h == hay@.len(),
            n == needle@.len(),
            0 < n <= h,
            forall|k: int| 0 <= k < i ==> !occurs_at(hay@, needle@, k),
    {
        let part = hay.substring_char(i, i + n);
        if str_eq(part, needle) {
            proof {
                assert(occurs_at(hay@, needle@, i as int));
            }
            return true;
        }
    }
    proof {
        assert(!occurs_in(hay@, needle@)) by {
            if occurs_in(hay@, needle@) {
                let i = choose|i: int| occurs_at(hay@, needle@, i);
                assert(0 <= i < h - n + 1);
            }
        }
    }
    false
}

} // verus!
