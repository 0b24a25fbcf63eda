//! Integer half of the temperature pipeline: averaging of raw ADC sample
//! batches. The thermistor and on-die formulas themselves are floating-point
//! physics and live with the platform layer.

use vstd::prelude::*;

verus! {

/// Sum of a sequence of raw samples.
pub open spec fn spec_sum(s: Seq<u16>) -> int
    decreases s.len(),
{
    if s.len() == 0 {
        0
    } else {
        spec_sum(s.drop_last()) + s.last()
    }
}

/// Rounded arithmetic mean of a sample batch, saturated at `u16::MAX`;
/// an empty batch averages to zero.
pub open spec fn spec_average(s: Seq<u16>) -> int {
    if s.len() == 0 {
        0
    } else {
        let avg = (spec_sum(s) + s.len() / 2) / s.len() as int;
        if avg <= 65535 {
            avg
        } else {
            65535
        }
    }
}

/// A prefix of a batch never sums to more than the whole batch.
proof fn lemma_sum_take_bound(s: Seq<u16>, j: int)
    requires
        0 <= j <= s.len(),
    ensures
        spec_sum(s.take(j)) <= spec_sum(s),
    decreases s.len() - j,
{
    if j == s.len() {
        assert(s.take(j) =~= s);
    } else {
        lemma_sum_take_bound(s, j + 1);
        assert(s.take(j + 1).drop_last() =~= s.take(j));
        assert(s.take(j + 1).last() == s[j]);
    }
}

/// Rounded average of the raw samples, saturating at the type maximum. The
/// preconditions are the machine limits of the 32-bit accumulator: the count
/// must fit it, and so must the rounded sum.
pub fn average(numbers: &[u16]) -> (r: u16)
    requires
        numbers@.len() <= u32::MAX,
        spec_sum(numbers@) + numbers@.len() / 2 <= u32::MAX,
    ensures
        r == spec_average(numbers@),
{
    let len = numbers.len();
    if len == 0 {
        return 0;
    }
    let mut sum: u32 = 0;
    let mut i: usize = 0;
    while i < len
        invariant
            i <= len,
            len == numbers@.len() <= u32::MAX,
            spec_sum(numbers@) + numbers@.len() / 2 <= u32::MAX,
            sum == spec_sum(numbers@.take(i as int)),
        decreases len - i,
    {
        proof {
            lemma_sum_take_bound(numbers@, i as int + 1);
            assert(numbers@.take(i as int + 1).drop_last() =~= numbers@.take(i as int));
            assert(numbers@.take(i as int + 1).last() == numbers@[i as int]);
        }
        sum = sum + numbers[i] as u32;
        i = i + 1;
    }
    proof {
        assert(numbers@.take(len as int) =~= numbers@);
    }
    let count: u32 = len as u32;
    let avg: u32 = (sum + count / 2) / count;
    if avg > 65535 {
        65535
    } else {
        avg as u16
    }
}

} // verus!
