//! The xorshift64 pseudo-random generator that drives all sampling
//! decisions of the renderer (one generator per worker thread).

use vstd::prelude::*;

verus! {

/// The seed used when the clock reading is zero (xorshift must not start
/// from the all-zero state, which it never leaves).
pub const FALLBACK_SEED: u64 = 0x9E37_79B9_7F4A_7C15;

/// One xorshift64 step (shifts 13, 7, 17).
pub open spec fn xorshift64(x: u64) -> u64 {
    let a: u64 = x ^ (x << 13u64);
    let b: u64 = a ^ (a >> 7u64);
    b ^ (b << 17u64)
}

/// A xorshift64 generator; its state is never zero.
pub struct Xorshift64 {
    state: u64,
}

impl Xorshift64 {
    #[verifier::type_invariant]
    spec fn inv(self) -> bool {
        self.state != 0
    }

    /// The current state.
    pub closed spec fn state(self) -> u64 {
        self.state
    }

    /// A generator seeded from a clock reading (in nanoseconds); a zero
    /// reading is replaced by `FALLBACK_SEED`.
    pub fn from_clock(nanos: u64) -> (g: Self)
        ensures
            g.state() == if nanos == 0 { FALLBACK_SEED } else { nanos },
            g.state() != 0,
    {
        let state: u64 = if nanos == 0 { FALLBACK_SEED } else { nanos };
        Xorshift64 { state }
    }

    /// Advances the generator one step and returns the new state.
    pub fn next_u64(&mut self) -> (r: u64)
        ensures
            r == xorshift64(old(self).state()),
            final(self).state() == r,
            r != 0,
    {
        proof {
            use_type_invariant(&*self);
            lemma_xorshift64_nonzero(self.state);
        }
        let x: u64 = self.state;
        let a: u64 = x ^ (x << 13u64);
        let b: u64 = a ^ (a >> 7u64);
        let c: u64 = b ^ (b << 17u64);
        self.state = c;
        c
    }
}

/// The top 53 bits of a generator output: an integer `m < 2^53` such that
/// `m / 2^53` is a uniformly spread sample of `[0, 1)`.
pub fn unit_mantissa(r: u64) -> (m: u64)
    ensures
        m == r >> 11u64,
        m < 0x20_0000_0000_0000,
{
    assert(r >> 11u64 < 0x20_0000_0000_0000u64) by (bit_vector);
    r >> 11u64
}

/// A xorshift64 step never maps a nonzero state to zero, so a generator
/// seeded with a nonzero value never gets stuck.
pub proof fn lemma_xorshift64_nonzero(x: u64)
    requires
        x != 0,
    ensures
        xorshift64(x) != 0,
{
    let a: u64 = x ^ (x << 13u64);
    assert(a != 0) by (bit_vector)
        requires
            x != 0,
            a == x ^ (x << 13u64),
    ;
    let b: u64 = a ^ (a >> 7u64);
    assert(b != 0) by (bit_vector)
        requires
            a != 0,
            b == a ^ (a >> 7u64),
    ;
    let c: u64 = b ^ (b << 17u64);
    assert(c != 0) by (bit_vector)
        requires
            b != 0,
            c == b ^ (b << 17u64),
    ;
}

} // verus!
