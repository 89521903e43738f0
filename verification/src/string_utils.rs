//! Plain text and buffer helpers shared by the resource loader and the
//! shader compiler.

use vstd::prelude::*;

verus! {

/// A sequence ends with the given suffix.
pub open spec fn seq_ends_with(s: Seq<char>, suffix: Seq<char>) -> bool {
    &&& suffix.len() <= s.len()
    &&& s.subrange(s.len() - suffix.len(), s.len() as int) == suffix
}

/// Whether `s` ends with `suffix`, compared character by character.
pub fn str_ends_with(s: &str, suffix: &str) -> (r: bool)
    ensures
        r == seq_ends_with(s@, suffix@),
{
    let n = s.unicode_len();
    let m = suffix.unicode_len();
    if m > n {
        return false;
    }
    let mut i: usize = 0;
    while i < m
        invariant
            i <= m,
            m <= n,
            n == s@.len(),
            m == suffix@.len(),
            forall|j: int| 0 <= j < i ==> s@[n - m + j] == suffix@[j],
        decreases m - i,
    {
        if s.get_char(n - m + i) != suffix.get_char(i) {
            proof {
                assert(s@.subrange(n - m, n as int)[i as int] != suffix@[i as int]);
            }
            return false;
        }
        i += 1;
    }
    proof {
        assert(s@.subrange(n - m, n as int) =~= suffix@);
    }
    true
}

/// Builds the buffer handed to the driver to receive a diagnostic log:
/// `len` space bytes followed by one terminating NUL, as a C string of
/// length `len` would be laid out.
pub fn create_whitespace_cstring_with_len(len: usize) -> (buffer: Vec<u8>)
    requires
        len < usize::MAX,
    ensures
        buffer@.len() == len + 1,
        forall|i: int| 0 <= i < len ==> buffer@[i] == 32u8,
        buffer@[len as int] == 0u8,
{
    let mut buffer: Vec<u8> = Vec::new();
    let mut i: usize = 0;
    while i < len
        invariant
            i <= len,
            buffer@.len() == i,
            forall|j: int| 0 <= j < i ==> buffer@[j] == 32u8,
        decreases len - i,
    {
        buffer.push(32u8);
        i += 1;
    }
    buffer.push(0u8);
    buffer
}

} // verus!
