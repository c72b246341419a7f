//! Totals over integer sensor readings.

use vstd::prelude::*;

verus! {

/// The sum of a sequence of readings.
pub open spec fn total(s: Seq<i32>) -> int
    decreases s.len(),
{
    if s.len() == 0 {
        0
    } else {
        total(s.drop_last()) + s.last()
    }
}

/// The exact sum of the readings, which cannot overflow an `i128`.
pub fn reading_sum(values: &Vec<i32>) -> (r: i128)
    ensures
        r == total(values@),
{
    let mut sum: i128 = 0;
    let mut i: usize = 0;
    while i < values.len()
        invariant
            i <= values@.len(),
            sum == total(values@.subrange(0, i as int)),
            -(i as int) * 0x8000_0000 <= sum <= (i as int) * 0x8000_0000,
        decreases values@.len() - i,
    {
        assert(values@.subrange(0, i + 1).drop_last() =~= values@.subrange(0, i as int));
        assert((i as int) < 0x1_0000_0000_0000_0000) by {
            assert(i <= usize::MAX);
        }
        assert(-(i as int) * 0x8000_0000 >= -0x8000_0000_0000_0000_0000_0000) by (nonlinear_arith)
            requires
                (i as int) < 0x1_0000_0000_0000_0000,
                i >= 0,
        ;
        assert((i as int) * 0x8000_0000 <= 0x8000_0000_0000_0000_0000_0000) by (nonlinear_arith)
            requires
                (i as int) < 0x1_0000_0000_0000_0000,
                i >= 0,
        ;
        sum = sum + values[i] as i128;
        i = i + 1;
    }
    assert(values@.subrange(0, values@.len() as int) =~= values@);
    sum
}

} // verus!
