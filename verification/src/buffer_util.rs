//! Finding a delimiter in a byte buffer.

use vstd::prelude::*;
use vstd::slice::{slice_index_get, slice_subrange};

verus! {

/// The needle occurs in the haystack starting at position `i`.
pub open spec fn is_match_at(haystack: Seq<u8>, needle: Seq<u8>, i: int) -> bool {
    0 <= i && i + needle.len() <= haystack.len() && haystack.subrange(i, i + needle.len())
        == needle
}

/// Relies on memchr::memchr: the index of the first occurrence of the
/// byte in the slice, or nothing when the byte does not occur.
pub assume_specification [ memchr::memchr ](needle: u8, haystack: &[u8]) -> (r: Option<usize>)
    ensures
        match r {
            Some(i) => i < haystack@.len() && haystack@[i as int] == needle && forall|j: int|
                0 <= j < i ==> haystack@[j] != needle,
            None => forall|j: int| 0 <= j < haystack@.len() ==> haystack@[j] != needle,
        },
;

/// Whether two byte slices hold the same bytes.
fn bytes_equal(a: &[u8], b: &[u8]) -> (r: bool)
    ensures
        r == (a@ =~= b@),
{
    if a.len() != b.len() {
        return false;
    }
    let n = a.len();
    let mut k: usize = 0;
    while k < n
        invariant
            k <= n,
            n == a@.len() == b@.len(),
            forall|j: int| 0 <= j < k ==> a@[j] == b@[j],
        decreases n - k,
    {
        if *slice_index_get(a, k) != *slice_index_get(b, k) {
            return false;
        }
        k = k + 1;
    }
    true
}

/// The position of the first occurrence of `needle` inside `haystack`,
/// or nothing when it does not occur.
///
/// The candidate positions are found by searching for the needle's first
/// byte, and each candidate is confirmed by comparing the bytes.
pub fn find_substr(haystack: &[u8], needle: &[u8]) -> (r: Option<usize>)
    requires
        needle@.len() > 0,
    ensures
        match r {
            Some(i) => is_match_at(haystack@, needle@, i as int) && forall|j: int|
                0 <= j < i ==> !is_match_at(haystack@, needle@, j),
            None => forall|j: int| !is_match_at(haystack@, needle@, j),
        },
{
    if needle.len() > haystack.len() {
        proof {
            assert forall|j: int| !is_match_at(haystack@, needle@, j) by {}
        }
        return None;
    }
    let first = *slice_index_get(needle, 0);
    let end = haystack.len() - needle.len() + 1;
    let mut offset: usize = 0;
    loop
        invariant
            needle@.len() > 0,
            needle@.len() <= haystack@.len(),
            haystack@.len() <= usize::MAX,
            needle@[0] == first,
            end == haystack@.len() - needle@.len() + 1,
            offset <= end,
            forall|j: int| 0 <= j < offset ==> !is_match_at(haystack@, needle@, j),
        decreases end - offset,
    {
        let window = slice_subrange(haystack, offset, end);
        match memchr::memchr(first, window) {
            Some(x) => {
                let cand = offset + x;
                proof {
                    assert forall|j: int| offset <= j < cand implies !is_match_at(
                        haystack@,
                        needle@,
                        j,
                    ) by {
                        if is_match_at(haystack@, needle@, j) {
                            assert(haystack@.subrange(j, j + needle@.len())[0] == needle@[0]);
                            assert(haystack@[j] == needle@[0]);
                            assert(window@[j - offset] == needle@[0]);
                        }
                    }
                }
                proof {
                    assert(x < window@.len());
                    assert(cand < end);
                    assert(cand + needle@.len() <= haystack@.len());
                }
                let tail = slice_subrange(haystack, cand, cand + needle.len());
                if bytes_equal(tail, needle) {
                    return Some(cand);
                }
                proof {
                    assert(!is_match_at(haystack@, needle@, cand as int));
                }
                offset = cand + 1;
            },
            None => {
                proof {
                    assert forall|j: int| !is_match_at(haystack@, needle@, j) by {
                        if is_match_at(haystack@, needle@, j) {
                            assert(haystack@.subrange(j, j + needle@.len())[0] == needle@[0]);
                            assert(haystack@[j] == needle@[0]);
                            if j >= offset {
                                assert(j < end);
                                assert(window@[j - offset] == needle@[0]);
                            }
                        }
                    }
                }
                return None;
            },
        }
    }
}

} // verus!
