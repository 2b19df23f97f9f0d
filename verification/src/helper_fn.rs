//! Byte-sequence search used by the output selector: does one byte string
//! occur inside another?

use vstd::prelude::*;

verus! {

/// `needle` occurs in `haystack` starting at index `i`.
pub open spec fn is_match_at(haystack: Seq<u8>, needle: Seq<u8>, i: int) -> bool {
    &&& 0 <= i
    &&& i + needle.len() <= haystack.len()
    &&& haystack.subrange(i, i + needle.len() as int) == needle
}

/// `needle` occurs somewhere in `haystack` as a contiguous run of bytes.
pub open spec fn contains_bytes(haystack: Seq<u8>, needle: Seq<u8>) -> bool {
    exists|i: int| is_match_at(haystack, needle, i)
}

/// Compares `needle` against the bytes of `haystack` starting at `at`.
fn slice_match_at(haystack: &[u8], needle: &[u8], at: usize) -> (r: bool)
    requires
        at + needle@.len() <= haystack@.len(),
    ensures
        r == is_match_at(haystack@, needle@, at as int),
{
    let h_len: usize = haystack.len();
    let n_len: usize = needle.len();
    let mut j: usize = 0;
    while j < n_len
        invariant
            h_len == haystack@.len(),
            n_len == needle@.len(),
            at + n_len <= h_len,
            j <= n_len,
            forall|k: int| 0 <= k < j ==> haystack@[at + k] == needle@[k],
        decreases n_len - j,
    {
        if haystack[at + j] != needle[j] {
            proof {
                let w = haystack@.subrange(at as int, at + needle@.len() as int);
                assert(w[j as int] == haystack@[at + j]);
            }
            return false;
        }
        j += 1;
    }
    proof {
        assert(haystack@.subrange(at as int, at + needle@.len() as int) =~= needle@);
    }
    true
}

/// Reports whether `needle` occurs anywhere in `haystack`.
pub fn slice_contains(haystack: &[u8], needle: &[u8]) -> (r: bool)
    ensures
        r == contains_bytes(haystack@, needle@),
{
    let h_len: usize = haystack.len();
    let n_len: usize = needle.len();
    if n_len > h_len {
        assert(forall|i: int| !is_match_at(haystack@, needle@, i));
        return false;
    }
    let last: usize = h_len - n_len;
    let mut i: usize = 0;
    loop
        invariant_except_break
            h_len == haystack@.len(),
            n_len == needle@.len(),
            n_len <= h_len,
            last == h_len - n_len,
            i <= last,
            forall|k: int| 0 <= k < i ==> !is_match_at(haystack@, needle@, k),
        ensures
            forall|k: int| !is_match_at(haystack@, needle@, k),
        decreases last - i,
    {
        if slice_match_at(haystack, needle, i) {
            return true;
        }
        if i == last {
            proof {
                assert(forall|k: int| 0 <= k <= last ==> !is_match_at(haystack@, needle@, k));
                assert(forall|k: int| k > last ==> !is_match_at(haystack@, needle@, k));
            }
            break;
        }
        i += 1;
    }
    false
}

} // verus!
