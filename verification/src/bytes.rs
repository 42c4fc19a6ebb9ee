//! Searching and copying bytes, and the spec functions the contracts of the
//! backends are written with.
use vstd::prelude::*;

verus! {

/// The byte that ends a line.
pub const NEWLINE: u8 = 0x0a;

/// How many bytes a scan for `delim` takes from the front of `s`: all bytes up
/// to and including the first `delim`, or all of `s` if it holds none.
pub open spec fn delimited_len(s: Seq<u8>, delim: u8) -> nat {
    match s.index_of_first(delim) {
        Some(i) => (i + 1) as nat,
        None => s.len(),
    }
}

/// `n` bytes from the front of `s` end a scan for `delim`: the first `n - 1`
/// hold no `delim`, and the scan stopped either on a `delim` or at the end of `s`.
pub open spec fn ends_scan(s: Seq<u8>, delim: u8, n: int) -> bool {
    &&& 0 <= n <= s.len()
    &&& forall|i: int| 0 <= i < n - 1 ==> s[i] != delim
    &&& n < s.len() ==> n > 0 && s[n - 1] == delim
}

/// `delimited_len` is the one length that ends a scan.
pub proof fn lemma_delimited_len(s: Seq<u8>, delim: u8, n: int)
    ensures
        ends_scan(s, delim, n) <==> n == delimited_len(s, delim),
{
    s.index_of_first_ensures(delim);
}

/// The position of the first `needle` in `haystack`, if there is one.
pub fn find_byte(needle: u8, haystack: &[u8]) -> (found: Option<usize>)
    ensures
        match found {
            Some(i) => i < haystack.len() && haystack@.index_of_first(needle) == Some(i as int),
            None => haystack@.index_of_first(needle) is None,
        },
{
    let mut i: usize = 0;
    while i < haystack.len()
        invariant
            i <= haystack@.len(),
            forall|j: int| 0 <= j < i ==> haystack@[j] != needle,
        decreases haystack@.len() - i,
    {
        if haystack[i] == needle {
            proof {
                haystack@.index_of_first_ensures(needle);
            }
            return Some(i);
        }
        i += 1;
    }
    proof {
        haystack@.index_of_first_ensures(needle);
    }
    None
}

/// Copies the first `amt` bytes of `src` over the first `amt` bytes of `dst`
/// and leaves the rest of `dst` as it was.
pub fn copy_front(dst: &mut [u8], src: &[u8], amt: usize)
    requires
        amt <= old(dst)@.len(),
        amt <= src@.len(),
    ensures
        final(dst)@ == src@.take(amt as int) + old(dst)@.skip(amt as int),
{
    let mut i: usize = 0;
    while i < amt
        invariant
            i <= amt,
            amt <= src@.len(),
            amt <= dst@.len(),
            dst@.len() == old(dst)@.len(),
            dst@ == src@.take(i as int) + old(dst)@.skip(i as int),
        decreases amt - i,
    {
        dst[i] = src[i];
        i += 1;
    }
}

} // verus!
