//! Decoding of the driver's info logs. The driver writes a diagnostic into a
//! caller-supplied byte buffer as a C string; the message is the bytes up to
//! the first NUL, decoded as UTF-8 with invalid sequences replaced.

use vstd::prelude::*;
use vstd::slice::slice_subrange;

verus! {

/// A driver log buffer cut at its first NUL terminator; a buffer without one
/// is kept whole.
pub open spec fn nul_truncated(bytes: Seq<u8>) -> Seq<u8> {
    match bytes.index_of_first(0u8) {
        Some(i) => bytes.subrange(0, i),
        None => bytes,
    }
}

/// What `String::from_utf8_lossy` returns for the given bytes.
pub uninterp spec fn lossy_utf8(bytes: Seq<u8>) -> Seq<char>;

/// Relies on `String::from_utf8_lossy`: the decoding is a function of the
/// bytes alone; valid UTF-8 passes through unchanged (so the empty input
/// decodes to the empty string) and invalid sequences are replaced with
/// replacement characters rather than dropped, so a non-empty input decodes
/// to a non-empty string.
#[verifier::external_body]
fn decode_utf8_lossy(bytes: &[u8]) -> (r: String)
    ensures
        r@ == lossy_utf8(bytes@),
        bytes@.len() == 0 ==> r@.len() == 0,
        bytes@.len() > 0 ==> r@.len() > 0,
{
    String::from_utf8_lossy(bytes).into_owned()
}

/// The message carried by a driver info log.
pub open spec fn spec_log_message(log: Seq<u8>) -> Seq<char> {
    lossy_utf8(nul_truncated(log))
}

/// The index of the first NUL in the buffer, or its length if there is none.
fn first_nul_index(log: &Vec<u8>) -> (k: usize)
    ensures
        k <= log@.len(),
        nul_truncated(log@) == log@.subrange(0, k as int),
{
    let n = log.len();
    let mut i: usize = 0;
    while i < n
        invariant
            i <= n,
            n == log@.len(),
            forall|j: int| 0 <= j < i ==> log@[j] != 0u8,
        decreases n - i,
    {
        if log[i] == 0u8 {
            proof {
                log@.index_of_first_ensures(0u8);
                assert(log@.contains(0u8)) by {
                    assert(log@[i as int] == 0u8);
                }
                let f = log@.index_of_first(0u8)->Some_0;
                assert(f == i) by {
                    if f < i {
                        assert(log@[f] != 0u8);
                    }
                    if f > i {
                        assert(log@[i as int] != 0u8);
                    }
                }
            }
            return i;
        }
        i += 1;
    }
    proof {
        log@.index_of_first_ensures(0u8);
        if log@.contains(0u8) {
            let j = choose|j: int| 0 <= j < log@.len() && log@[j] == 0u8;
            assert(log@[j] != 0u8);
        }
        assert(log@.subrange(0, n as int) =~= log@);
    }
    n
}

/// Decodes a driver info log: the bytes up to the first NUL terminator,
/// read as UTF-8 with invalid sequences replaced.
pub fn info_log_message(log: &Vec<u8>) -> (r: String)
    ensures
        r@ == spec_log_message(log@),
        nul_truncated(log@).len() > 0 ==> r@.len() > 0,
{
    let k = first_nul_index(log);
    let prefix = slice_subrange(log.as_slice(), 0, k);
    decode_utf8_lossy(prefix)
}

} // verus!
