//! The pseudo-random generator: a 64-bit xorshift with the shift triple
//! (13, 17, 43).

use vstd::prelude::*;

verus! {

/// The state that follows `s` in the xorshift stream.
pub open spec fn xorshift(s: u64) -> u64 {
    let a = s ^ (s << 13);
    let b = a ^ (a >> 17);
    b ^ (b << 43)
}

/// The state reached from `s` after `n` draws.
pub open spec fn rng_after(s: u64, n: nat) -> u64
    decreases n,
{
    if n == 0 {
        s
    } else {
        xorshift(rng_after(s, (n - 1) as nat))
    }
}

/// The sample that a draw from state `s` gives in `[0, n)`: the state itself,
/// reduced modulo `n`.
pub open spec fn pick(s: u64, n: int) -> int {
    (s as int) % n
}

/// The byte that a draw from state `s` gives.
pub open spec fn pick_byte(s: u64) -> u8 {
    (s % 256) as u8
}

/// Advances a generator state by one draw.
pub fn advance(s: u64) -> (r: u64)
    ensures
        r == xorshift(s),
{
    let a: u64 = s ^ (s << 13);
    let b: u64 = a ^ (a >> 17);
    b ^ (b << 43)
}

/// Reduces a drawn value into `[0, n)`.
pub fn reduce(v: u64, n: usize) -> (r: usize)
    requires
        n > 0,
    ensures
        r == pick(v, n as int),
        r < n,
{
    (v % (n as u64)) as usize
}

/// A sample lies in the range it was drawn for.
pub proof fn lemma_pick_in_range(s: u64, n: int)
    requires
        n > 0,
    ensures
        0 <= pick(s, n) < n,
{
}

/// A xorshift step never turns a nonzero state into zero.
pub proof fn lemma_xorshift_nonzero(s: u64)
    requires
        s != 0,
    ensures
        xorshift(s) != 0,
{
    assert(s != 0 ==> ((s ^ (s << 13)) ^ ((s ^ (s << 13)) >> 17)) ^ (((s ^ (s << 13)) ^ ((s ^ (s
        << 13)) >> 17)) << 43) != 0) by (bit_vector);
}

/// A generator that starts nonzero is nonzero after any number of draws.
pub proof fn lemma_rng_never_zero(s: u64, n: nat)
    requires
        s != 0,
    ensures
        rng_after(s, n) != 0,
    decreases n,
{
    if n > 0 {
        lemma_rng_never_zero(s, (n - 1) as nat);
        lemma_xorshift_nonzero(rng_after(s, (n - 1) as nat));
    }
}

} // verus!
