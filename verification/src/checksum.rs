//! The rolling integrity checksum over snapshot bytes: a 16-bit running
//! sum-of-sums, two accumulators mod 255 combined as high and low byte. The
//! session compares peers' checksums to detect desynchronisation; the core's
//! only duty is that the sum is a deterministic function of the bytes.

use vstd::prelude::*;

verus! {

/// Both accumulators after the first `i` bytes: the plain sum and the
/// sum-of-sums, each reduced mod 255 at every step.
pub open spec fn spec_fletcher_sums(data: Seq<u8>, i: int) -> (int, int)
    decreases i,
{
    if i <= 0 {
        (0, 0)
    } else {
        let prior = spec_fletcher_sums(data, i - 1);
        let sum1 = (prior.0 + data[i - 1]) % 255;
        let sum2 = (prior.1 + sum1) % 255;
        (sum1, sum2)
    }
}

/// The checksum of a byte string: the sum-of-sums in the high byte, the
/// plain sum in the low byte.
pub open spec fn spec_fletcher16(data: Seq<u8>) -> int {
    let sums = spec_fletcher_sums(data, data.len() as int);
    sums.1 * 256 + sums.0
}

/// The 16-bit running sum-of-sums over `data`.
pub fn fletcher16(data: &Vec<u8>) -> (r: u16)
    ensures
        r == spec_fletcher16(data@),
{
    let mut sum1: u16 = 0;
    let mut sum2: u16 = 0;
    let mut index: usize = 0;
    while index < data.len()
        invariant
            index <= data@.len(),
            sum1 == spec_fletcher_sums(data@, index as int).0,
            sum2 == spec_fletcher_sums(data@, index as int).1,
            sum1 < 255,
            sum2 < 255,
        decreases data@.len() - index,
    {
        sum1 = (sum1 + data[index] as u16) % 255;
        sum2 = (sum2 + sum1) % 255;
        index = index + 1;
    }
    sum2 * 256 + sum1
}

} // verus!
