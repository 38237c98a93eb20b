//! The header checksum: a byte sum modulo 65536 that leaves out one range of
//! indices.
use vstd::prelude::*;

verus! {

/// The sum of the bytes of `s` whose index is outside `[skip_lo, skip_hi)`.
pub open spec fn sum_outside(s: Seq<u8>, skip_lo: int, skip_hi: int) -> int
    decreases s.len(),
{
    if s.len() == 0 {
        0
    } else {
        let i = s.len() - 1;
        sum_outside(s.drop_last(), skip_lo, skip_hi) + if skip_lo <= i < skip_hi {
            0
        } else {
            s.last() as int
        }
    }
}

/// A byte sum is never negative.
proof fn lemma_sum_outside_nonneg(s: Seq<u8>, skip_lo: int, skip_hi: int)
    ensures
        sum_outside(s, skip_lo, skip_hi) >= 0,
    decreases s.len(),
{
    if s.len() > 0 {
        lemma_sum_outside_nonneg(s.drop_last(), skip_lo, skip_hi);
    }
}

/// Adding a value to an accumulator kept modulo 65536 with a wrapping
/// addition keeps it equal to the exact sum modulo 65536.
proof fn lemma_wrapping_step(acc: u16, total: int, b: u16)
    requires
        total >= 0,
        acc == total % 0x10000,
    ensures
        acc.wrapping_add(b) == (total + b) % 0x10000,
{
    assert(acc.wrapping_add(b) == (total + b) % 0x10000) by (nonlinear_arith)
        requires
            acc == total % 0x10000,
            total >= 0,
            0 <= b < 0x10000,
            acc.wrapping_add(b) == (if acc + b > 0xFFFF { acc + b - 0x10000 } else { acc + b }),
    ;
}

/// The byte sum of `bytes` modulo 65536, leaving out the indices in
/// `[skip_lo, skip_hi)`.
pub fn sum_skipping(bytes: &[u8], skip_lo: usize, skip_hi: usize) -> (r: u16)
    ensures
        r == sum_outside(bytes@, skip_lo as int, skip_hi as int) % 0x10000,
{
    let mut sum: u16 = 0;
    let n = bytes.len();
    for i in 0..n
        invariant
            n == bytes@.len(),
            sum == sum_outside(bytes@.subrange(0, i as int), skip_lo as int, skip_hi as int)
                % 0x10000,
    {
        let ghost before = bytes@.subrange(0, i as int);
        let ghost after = bytes@.subrange(0, i + 1);
        assert(after.drop_last() =~= before);
        if i < skip_lo || i >= skip_hi {
            proof {
                lemma_sum_outside_nonneg(before, skip_lo as int, skip_hi as int);
                lemma_wrapping_step(
                    sum,
                    sum_outside(before, skip_lo as int, skip_hi as int),
                    bytes@[i as int] as u16,
                );
            }
            sum = sum.wrapping_add(bytes[i] as u16);
        }
    }
    assert(bytes@.subrange(0, n as int) =~= bytes@);
    sum
}

} // verus!
