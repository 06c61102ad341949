//! The Mulberry32 stream the persona generator samples with.

use vstd::prelude::*;

verus! {

/// `x` reduced modulo 2^32.
pub open spec fn wrap32(x: int) -> u32 {
    (x % 0x1_0000_0000) as u32
}

/// The output Mulberry32 derives from its advanced state `s`.
pub open spec fn mulberry_mix(s: u32) -> u32 {
    let t1 = wrap32((s ^ (s >> 15u32)) as int * (1u32 | s) as int);
    let t2 = wrap32(t1 as int + wrap32((t1 ^ (t1 >> 7u32)) as int * (61u32 | t1) as int) as int)
        ^ t1;
    t2 ^ (t2 >> 14u32)
}

/// Mulberry32: a tiny deterministic 32-bit generator.
#[derive(Debug, Clone, Copy, PartialEq, Eq, Structural)]
pub struct Mulberry32 {
    pub state: u32,
}

impl Mulberry32 {
    /// A stream seeded with `seed`.
    pub fn new(seed: u32) -> (r: Self)
        ensures
            r.state == seed,
    {
        Mulberry32 { state: seed }
    }

    /// Advance the stream and return its next 32-bit output; dividing it by
    /// 2^32 gives the next value in `[0, 1)`.
    pub fn next_u32(&mut self) -> (r: u32)
        ensures
            final(self).state == wrap32(old(self).state as int + 0x6D2B_79F5),
            r == mulberry_mix(final(self).state),
    {
        self.state = self.state.wrapping_add(0x6D2B_79F5);
        let mut t = self.state;
        t = (t ^ (t >> 15)).wrapping_mul(1 | t);
        t = t.wrapping_add((t ^ (t >> 7)).wrapping_mul(61 | t)) ^ t;
        t ^ (t >> 14)
    }
}

} // verus!
