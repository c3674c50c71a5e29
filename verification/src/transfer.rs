use vstd::prelude::*;
use crate::error::Error;

verus! {

/// The total number of bytes across a sequence of buffers.
pub open spec fn sum_of_lens(s: Seq<Seq<u8>>) -> nat
    decreases s.len(),
{
    if s.len() == 0 {
        0
    } else {
        sum_of_lens(s.drop_last()) + s.last().len()
    }
}

/// A prefix of a buffer sequence never holds more bytes than the whole.
pub proof fn lemma_sum_of_lens_take_le(s: Seq<Seq<u8>>, j: int)
    requires
        0 <= j <= s.len(),
    ensures
        sum_of_lens(s.take(j)) <= sum_of_lens(s),
    decreases s.len() - j,
{
    if j == s.len() {
        assert(s.take(j) =~= s);
    } else {
        assert(s.take(j + 1).drop_last() =~= s.take(j));
        assert(s.take(j + 1).last() == s[j]);
        lemma_sum_of_lens_take_le(s, j + 1);
    }
}

/// The total length of a gather/scatter buffer list, as the interface
/// reports it: the exact sum of the slice lengths when it fits the
/// interface's byte-count type, and a reported overflow otherwise.
pub fn total_len(bufs: &Vec<Vec<u8>>) -> (r: Result<u64, Error>)
    ensures
        r matches Ok(t) ==> t == sum_of_lens(bufs@.map_values(|b: Vec<u8>| b@)),
        r is Err ==> r == Err::<u64, Error>(Error::Overflow) && sum_of_lens(
            bufs@.map_values(|b: Vec<u8>| b@),
        ) > u64::MAX,
{
    let ghost s = bufs@.map_values(|b: Vec<u8>| b@);
    let mut total: u64 = 0;
    let mut i: usize = 0;
    while i < bufs.len()
        invariant
            0 <= i <= bufs.len(),
            s == bufs@.map_values(|b: Vec<u8>| b@),
            s.len() == bufs@.len(),
            total == sum_of_lens(s.take(i as int)),
        decreases bufs.len() - i,
    {
        let len = bufs[i].len();
        proof {
            assert(s.take(i + 1).drop_last() =~= s.take(i as int));
            assert(s.take(i + 1).last() == s[i as int]);
            assert(s[i as int] == bufs@[i as int]@);
        }
        if len as u64 > u64::MAX - total {
            proof {
                lemma_sum_of_lens_take_le(s, i + 1);
            }
            return Err(Error::Overflow);
        }
        total = total + len as u64;
        i = i + 1;
    }
    proof {
        assert(s.take(s.len() as int) =~= s);
    }
    Ok(total)
}

/// Validate and widen a native transfer count before it is returned to the
/// caller: the count the OS reported is accepted exactly when it does not
/// exceed the total capacity of the buffers handed to the call, and the
/// widening to the interface's byte-count type is checked, never a silent
/// truncation. Every count this function returns is the native count
/// itself and is at most `limit`.
pub fn checked_transfer_count(n: usize, limit: u64) -> (r: Result<u64, Error>)
    ensures
        n as u64 <= limit ==> r == Ok::<u64, Error>(n as u64),
        n as u64 > limit ==> r == Err::<u64, Error>(Error::Overflow),
        r matches Ok(c) ==> c == n as u64 && c <= limit,
{
    let c = n as u64;
    if c <= limit {
        Ok(c)
    } else {
        Err(Error::Overflow)
    }
}

} // verus!
