//! The mutator itself: generator state, working buffer, size limit and the
//! record of the operators that the last call applied.

use vstd::prelude::*;
use crate::buffer::refill;
use crate::rng::{advance, lemma_xorshift_nonzero, pick, pick_byte, reduce, xorshift};
use crate::seed::{initial_state, seed_from_tsc, seed_of, seed_state, state_of};

verus! {

/// The most operators that one call stacks.
pub const MAX_STACK: usize = 6;

/// The operators, in the order in which the scheduler indexes them.
#[derive(Clone, Copy, Debug, PartialEq, Eq)]
pub enum MutationTypes {
    ByteInsert,
    ByteOverwrite,
    ByteDelete,
    BlockInsert,
    BlockOverwrite,
    BlockDelete,
    BitFlip,
    Grow,
    Truncate,
    MagicByteInsert,
    MagicByteOverwrite,
    Splice,
}

/// A mutator: one generator, one working buffer, owned by one caller.
#[derive(Clone)]
pub struct Mutator {
    /// Generator state; the next draw returns it.
    pub rng: u64,
    /// The working buffer.
    pub input: Vec<u8>,
    /// Upper bound on the length of `input` after a mutation.
    pub max_size: usize,
    /// The operators that the most recent `mutate_input` applied, in order.
    pub last_mutation: Vec<MutationTypes>,
}

impl Default for Mutator {
    /// A mutator with an empty buffer and size limit zero: a placeholder,
    /// to be replaced before any mutation. Its generator starts where seed
    /// zero starts, which is not state zero.
    fn default() -> (m: Mutator)
        ensures
            m.rng == state_of(0),
            m.rng != 0,
            m.max_size == 0,
            m.input@.len() == 0,
            m.last_mutation@.len() == 0,
    {
        Mutator { rng: seed_state(0), input: Vec::new(), max_size: 0, last_mutation: Vec::new() }
    }
}

/// What an operator reads and changes: the generator state and the buffer.
pub struct State {
    pub rng: u64,
    pub buf: Seq<u8>,
}

impl Mutator {
    /// The generator state and buffer contents of this mutator.
    pub open spec fn state(&self) -> State {
        State { rng: self.rng, buf: self.input@ }
    }

    /// The buffer is non-empty and within the size limit.
    pub open spec fn fits(&self) -> bool {
        1 <= self.input@.len() <= self.max_size
    }

    /// `self` may follow `before` in the course of an operator: the size
    /// limit and the operator record are the same, and a generator that was
    /// not zero is not zero now.
    pub open spec fn follows(&self, before: &Mutator) -> bool {
        &&& self.max_size == before.max_size
        &&& self.last_mutation == before.last_mutation
        &&& before.rng != 0 ==> self.rng != 0
    }

    /// A mutator with an empty buffer and the size limit `max_size`. A given
    /// seed becomes the generator state, with one in place of zero. Without
    /// a seed the state is derived from `tsc`, a reading of the time-stamp
    /// counter. Either way the generator does not start in state zero.
    pub fn new(seed: Option<u64>, max_size: usize, tsc: u64) -> (m: Mutator)
        ensures
            m.rng == initial_state(seed, tsc),
            m.rng != 0,
            m.max_size == max_size,
            m.input@.len() == 0,
            m.last_mutation@.len() == 0,
    {
        let rng: u64 = match seed {
            Some(seed_val) => seed_state(seed_val),
            None => seed_from_tsc(tsc),
        };
        Mutator {
            rng,
            input: Vec::with_capacity(max_size),
            max_size,
            last_mutation: Vec::with_capacity(MAX_STACK),
        }
    }

    /// Replaces the generator state by the seed derived from `tsc`, a fresh
    /// reading of the time-stamp counter, and returns it. The new state is
    /// never zero.
    pub fn reseed(&mut self, tsc: u64) -> (seed: u64)
        ensures
            seed == seed_of(tsc),
            seed != 0,
            final(self).rng == seed,
            final(self).input == old(self).input,
            final(self).follows(old(self)),
    {
        self.rng = seed_from_tsc(tsc);
        self.rng
    }

    /// Replaces the buffer by a copy of `slice`. The generator and the
    /// operator record stay as they are.
    pub fn memcpy_input(&mut self, slice: &[u8])
        ensures
            final(self).input@ == slice@,
            final(self).rng == old(self).rng,
            final(self).follows(old(self)),
    {
        refill(&mut self.input, slice);
    }

    /// Draws one value: returns the current state and advances the generator.
    pub fn rand(&mut self) -> (r: u64)
        ensures
            r == old(self).rng,
            final(self).rng == xorshift(old(self).rng),
            final(self).input == old(self).input,
            final(self).follows(old(self)),
    {
        let curr: u64 = self.rng;
        self.rng = advance(curr);
        proof {
            if curr != 0 {
                lemma_xorshift_nonzero(curr);
            }
        }
        curr
    }

    /// Draws an index in `[0, n)`.
    pub fn below(&mut self, n: usize) -> (r: usize)
        requires
            n > 0,
        ensures
            r == pick(old(self).rng, n as int),
            r < n,
            final(self).rng == xorshift(old(self).rng),
            final(self).input == old(self).input,
            final(self).follows(old(self)),
    {
        let v: u64 = self.rand();
        reduce(v, n)
    }

    /// Draws a byte.
    pub fn rand_byte(&mut self) -> (r: u8)
        ensures
            r == pick_byte(old(self).rng),
            final(self).rng == xorshift(old(self).rng),
            final(self).input == old(self).input,
            final(self).follows(old(self)),
    {
        let v: u64 = self.rand();
        (v % 256) as u8
    }
}

} // verus!
