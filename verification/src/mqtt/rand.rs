//! A fast pseudo-random number generator (xorshift64+: two 32-bit xorshift
//! sequences added together), used to pick where to start polling.

use vstd::prelude::*;

verus! {

/// The generator's state after one step from `(one, two)`: the new `(one, two)`.
pub open spec fn xorshift_next(one: u32, two: u32) -> (u32, u32) {
    let s0 = two;
    let a = one ^ (one << 17u32);
    let s1 = a ^ s0 ^ (a >> 7u32) ^ (s0 >> 16u32);
    (s0, s1)
}

/// The number produced by one step from `(one, two)`.
pub open spec fn xorshift_output(one: u32, two: u32) -> u32 {
    let (s0, s1) = xorshift_next(one, two);
    ((s0 as int + s1 as int) % 0x1_0000_0000) as u32
}

/// Maps a 32-bit random number onto `0..n`: the top 32 bits of `r * n`.
pub open spec fn scale_to(r: u32, n: u32) -> u32 {
    ((r as int * n as int) / 0x1_0000_0000) as u32
}

/// The state of the generator.
#[derive(Debug)]
pub struct FastRand {
    pub one: u32,
    pub two: u32,
}

impl FastRand {
    /// A generator seeded with `seed`: its high half and its low half, the
    /// low half replaced by 1 when it is 0.
    pub fn new(seed: u64) -> (res: FastRand)
        ensures
            res.one == seed / 0x1_0000_0000,
            res.two == (if seed % 0x1_0000_0000 == 0 { 1 } else { seed % 0x1_0000_0000 }),
            res.two != 0,
    {
        let one = (seed >> 32) as u32;
        let mut two = (seed & 0xffff_ffff) as u32;
        assert(seed >> 32 == seed / 0x1_0000_0000) by (bit_vector);
        assert(seed & 0xffff_ffff == seed % 0x1_0000_0000) by (bit_vector);
        if two == 0 {
            two = 1;
        }
        FastRand { one, two }
    }

    /// The next pseudo-random number.
    pub fn fastrand(&mut self) -> (res: u32)
        ensures
            (final(self).one, final(self).two) == xorshift_next(old(self).one, old(self).two),
            res == xorshift_output(old(self).one, old(self).two),
    {
        let mut s1 = self.one;
        let s0 = self.two;
        s1 ^= s1 << 17;
        s1 = s1 ^ s0 ^ s1 >> 7 ^ s0 >> 16;
        self.one = s0;
        self.two = s1;
        s0.wrapping_add(s1)
    }

    /// A pseudo-random number in `0..n` (0 when `n` is 0).
    pub fn fastrand_n(&mut self, n: u32) -> (res: u32)
        ensures
            (final(self).one, final(self).two) == xorshift_next(old(self).one, old(self).two),
            res == scale_to(xorshift_output(old(self).one, old(self).two), n),
            n > 0 ==> res < n,
            n == 0 ==> res == 0,
    {
        let r = self.fastrand();
        let mul = (r as u64).wrapping_mul(n as u64);
        proof {
            lemma_scale_bound(r, n);
        }
        assert(mul == r as int * n as int);
        let res = (mul >> 32) as u32;
        assert(mul >> 32 == mul / 0x1_0000_0000) by (bit_vector);
        res
    }
}

/// The product of two 32-bit numbers fits in 64 bits, and its top 32 bits are
/// below the second factor (when it is not 0).
proof fn lemma_scale_bound(r: u32, n: u32)
    ensures
        (r as int) * (n as int) <= u64::MAX,
        n > 0 ==> (r as int * n as int) / 0x1_0000_0000 < n,
        n == 0 ==> (r as int * n as int) / 0x1_0000_0000 == 0,
{
    assert((r as int) * (n as int) <= 0xffff_ffff * 0xffff_ffff) by (nonlinear_arith)
        requires
            r <= 0xffff_ffff,
            n <= 0xffff_ffff,
            0 <= r,
            0 <= n,
    ;
    assert(n > 0 ==> (r as int) * (n as int) < 0x1_0000_0000 * n) by (nonlinear_arith)
        requires
            r < 0x1_0000_0000,
            0 <= n,
    ;
    assert(n > 0 ==> (r as int * n as int) / 0x1_0000_0000 < n) by (nonlinear_arith)
        requires
            n > 0 ==> (r as int) * (n as int) < 0x1_0000_0000 * n,
            0 <= r as int * n as int,
    ;
}

/// Every number the generator draws for `n > 0` lies in `0..n`, whatever its state.
pub proof fn law_scaled_below_bound(one: u32, two: u32, n: u32)
    requires
        n > 0,
    ensures
        scale_to(xorshift_output(one, two), n) < n,
{
    lemma_scale_bound(xorshift_output(one, two), n);
}

} // verus!
