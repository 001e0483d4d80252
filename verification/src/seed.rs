//! Seeds for the generator: given by the caller, or derived from a reading of
//! the processor's time-stamp counter, which the caller takes. Either way the
//! generator never starts in state zero, where it would stay.

use vstd::prelude::*;
use vstd::std_specs::hash::DefaultHasherAdditionalSpecFns;
use std::collections::hash_map::DefaultHasher;
use std::hash::Hasher;
use crate::magic::{bytes_between, le_bytes};

verus! {

/// The hash of the eight bytes of `v`, least significant first, as the
/// standard library's default hasher gives it.
pub open spec fn hash_of(v: u64) -> u64 {
    DefaultHasher::spec_finish(seq![le_bytes(v)])
}

/// The generator state that a seed value `s` gives: `s` itself, or one
/// where `s` is zero, since a generator in state zero stays there.
pub open spec fn state_of(s: u64) -> u64 {
    if s == 0 {
        1
    } else {
        s
    }
}

/// The seed that a counter reading `tsc` gives: the state that its hash
/// gives.
pub open spec fn seed_of(tsc: u64) -> u64 {
    state_of(hash_of(tsc))
}

/// The state in which a generator starts: that of the given seed, or,
/// without one, that of the counter reading `tsc`.
pub open spec fn initial_state(seed: Option<u64>, tsc: u64) -> u64 {
    match seed {
        Some(s) => state_of(s),
        None => seed_of(tsc),
    }
}

/// Whatever the seed and the counter reading, a generator does not start in
/// state zero.
pub proof fn lemma_initial_state_nonzero(seed: Option<u64>, tsc: u64)
    ensures
        initial_state(seed, tsc) != 0,
{
}

/// Turns a seed value into a generator state, which is never zero.
pub fn seed_state(s: u64) -> (state: u64)
    ensures
        state == state_of(s),
        state != 0,
{
    if s == 0 {
        1
    } else {
        s
    }
}

/// Hashes `v` into 64 bits.
pub fn hash_u64(v: u64) -> (h: u64)
    ensures
        h == hash_of(v),
{
    let bytes: Vec<u8> = bytes_between(v, 0, 8);
    let mut hasher = DefaultHasher::new();
    hasher.write(bytes.as_slice());
    assert(bytes@ =~= le_bytes(v));
    assert(hasher@ =~= seq![le_bytes(v)]);
    hasher.finish()
}

/// Turns a counter reading into a seed, which is never zero.
pub fn seed_from_tsc(tsc: u64) -> (seed: u64)
    ensures
        seed == seed_of(tsc),
        seed != 0,
{
    seed_state(hash_u64(tsc))
}

} // verus!
