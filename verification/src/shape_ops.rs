//! The shape operators: flip bits, grow the buffer by a run of one byte, cut
//! it short; and the generation of a buffer from nothing.

use vstd::prelude::*;
use crate::buffer::{insert_at, least};
use crate::mutator::{Mutator, State};
use crate::rng::{lemma_pick_in_range, pick, pick_byte, rng_after, xorshift};

verus! {

/// The most bits that a bit flip toggles.
pub const MAX_BIT_CORRUPTION: usize = 64;

/// `b` with bit `bit` toggled.
pub open spec fn flip(b: u8, bit: int) -> u8 {
    b ^ (1u8 << (bit as u8))
}

/// One flip: a bit position drawn among all bits of the buffer, bit `p % 8`
/// of byte `p / 8` toggled.
pub open spec fn bit_flip_step(st: State) -> State {
    let p = pick(st.rng, 8 * (st.buf.len() as int));
    State { rng: xorshift(st.rng), buf: st.buf.update(p / 8, flip(st.buf[p / 8], p % 8)) }
}

/// `n` flips in a row.
pub open spec fn bit_flip_steps(st: State, n: nat) -> State
    decreases n,
{
    if n == 0 {
        st
    } else {
        bit_flip_steps(bit_flip_step(st), (n - 1) as nat)
    }
}

/// What a bit flip makes of `st`: it draws a count up to the number of bits
/// and the bit limit, and makes that many flips.
pub open spec fn bit_flip_model(st: State) -> State {
    let count = pick(st.rng, least(8 * (st.buf.len() as int), 64)) + 1;
    bit_flip_steps(State { rng: xorshift(st.rng), buf: st.buf }, count as nat)
}

/// `n` copies of `b`.
pub open spec fn run(b: u8, n: nat) -> Seq<u8> {
    Seq::new(n, |j: int| b)
}

/// What a grow makes of `st` with size limit `max`. With no room left
/// nothing changes. Otherwise it draws a size up to the room, an index and a
/// byte, and inserts a run of that byte, of that size, at that index.
pub open spec fn grow_model(st: State, max: int) -> State {
    let len = st.buf.len() as int;
    let slack = max - len;
    if slack == 0 {
        st
    } else {
        let size = pick(st.rng, slack) + 1;
        let r1 = xorshift(st.rng);
        let at = pick(r1, len);
        let r2 = xorshift(r1);
        State { rng: xorshift(r2), buf: insert_at(st.buf, at, run(pick_byte(r2), size as nat)) }
    }
}

/// What a truncate makes of `st`. A buffer of one byte stays as it is and
/// nothing is drawn. Otherwise it draws how many bytes stay, at least one and
/// fewer than all.
pub open spec fn truncate_model(st: State) -> State {
    let len = st.buf.len() as int;
    if len <= 1 {
        st
    } else {
        State { rng: xorshift(st.rng), buf: st.buf.subrange(0, pick(st.rng, len - 1) + 1) }
    }
}

/// The bytes that `n` draws from state `rng` give, one byte per draw.
pub open spec fn random_bytes(rng: u64, n: nat) -> Seq<u8> {
    Seq::new(n, |k: int| pick_byte(rng_after(rng, k as nat)))
}

/// A buffer generated from nothing with size limit `max`: a drawn size
/// between one and the limit, then one drawn byte for each place.
pub open spec fn generate_model(rng: u64, max: int) -> State {
    let size = (pick(rng, max) + 1) as nat;
    let r1 = xorshift(rng);
    State { rng: rng_after(r1, size), buf: random_bytes(r1, size) }
}

/// Flips keep the length.
pub proof fn lemma_bit_flip_steps_len(st: State, n: nat)
    requires
        st.buf.len() >= 1,
    ensures
        bit_flip_steps(st, n).buf.len() == st.buf.len(),
    decreases n,
{
    if n > 0 {
        lemma_pick_in_range(st.rng, 8 * (st.buf.len() as int));
        lemma_bit_flip_steps_len(bit_flip_step(st), (n - 1) as nat);
    }
}

/// Finds the bit that a drawn value `v` selects in a buffer of `len` bytes:
/// the index of its byte, and its place within that byte.
pub fn locate_bit(v: u64, len: usize) -> (r: (usize, u8))
    requires
        len >= 1,
    ensures
        r.0 == pick(v, 8 * len) / 8,
        r.1 == pick(v, 8 * len) % 8,
        r.0 < len,
        r.1 < 8,
{
    let num_bits: u128 = (len as u128) * 8;
    let p: u128 = (v as u128) % num_bits;
    ((p / 8) as usize, (p % 8) as u8)
}

/// Toggles bit `bit` of `b`.
pub fn flip_bit(b: u8, bit: u8) -> (r: u8)
    requires
        bit < 8,
    ensures
        r == flip(b, bit as int),
{
    b ^ (1u8 << bit)
}

impl Mutator {
    /// Toggles bits at drawn positions. The length stays.
    pub fn bit_flip(&mut self)
        requires
            old(self).input@.len() >= 1,
        ensures
            final(self).state() == bit_flip_model(old(self).state()),
            final(self).input@.len() == old(self).input@.len(),
            final(self).follows(old(self)),
    {
        let len: usize = self.input.len();
        let ceiling: usize = if len >= 8 {
            MAX_BIT_CORRUPTION
        } else {
            len * 8
        };
        let num_flips: usize = self.below(ceiling) + 1;
        let ghost goal = bit_flip_model(old(self).state());
        let mut k: usize = 0;
        while k < num_flips
            invariant
                k <= num_flips,
                len >= 1,
                self.input@.len() == len,
                self.follows(old(self)),
                bit_flip_steps(self.state(), (num_flips - k) as nat) == goal,
            decreases num_flips - k,
        {
            let v: u64 = self.rand();
            let (byte_index, bit_index) = locate_bit(v, len);
            let b: u8 = self.input[byte_index];
            self.input[byte_index] = flip_bit(b, bit_index);
            k += 1;
        }
    }

    /// Inserts a run of one drawn byte at a drawn index, within the size
    /// limit.
    pub fn grow(&mut self)
        requires
            old(self).fits(),
        ensures
            final(self).state() == grow_model(old(self).state(), old(self).max_size as int),
            final(self).fits(),
            final(self).input@.len() >= old(self).input@.len(),
            final(self).follows(old(self)),
    {
        let ghost before = self.input@;
        let slack: usize = self.max_size - self.input.len();
        if slack == 0 {
            return ;
        }
        let size: usize = self.below(slack) + 1;
        let idx: usize = self.below(self.input.len());
        let byte: u8 = self.rand_byte();
        let mut k: usize = 0;
        assert(self.input@ =~= insert_at(before, idx as int, run(byte, 0)));
        while k < size
            invariant
                k <= size,
                idx < before.len(),
                before.len() + size <= self.max_size,
                self.input@ == insert_at(before, idx as int, run(byte, k as nat)),
                self.follows(old(self)),
                self.rng == grow_model(old(self).state(), old(self).max_size as int).rng,
            decreases size - k,
        {
            self.input.insert(idx, byte);
            k += 1;
            assert(self.input@ =~= insert_at(before, idx as int, run(byte, k as nat)));
        }
    }

    /// Cuts the buffer short at a drawn length; of a buffer that is not
    /// empty at least one byte stays.
    pub fn truncate(&mut self)
        ensures
            final(self).state() == truncate_model(old(self).state()),
            final(self).input@.len() <= old(self).input@.len(),
            old(self).input@.len() >= 1 ==> final(self).input@.len() >= 1,
            final(self).follows(old(self)),
    {
        let len: usize = self.input.len();
        if len <= 1 {
            return ;
        }
        let slack: usize = len - 1;
        let idx: usize = self.below(slack) + 1;
        self.input.truncate(idx);
    }

    /// Replaces the buffer by drawn bytes, of a drawn length between one and
    /// the size limit. What the buffer held before plays no part.
    pub fn generate_random_input(&mut self)
        requires
            old(self).max_size >= 1,
        ensures
            final(self).state() == generate_model(old(self).rng, old(self).max_size as int),
            final(self).fits(),
            final(self).follows(old(self)),
    {
        let input_size: usize = self.below(self.max_size) + 1;
        let ghost start = self.rng;
        self.input.clear();
        let mut i: usize = 0;
        assert(self.input@ =~= random_bytes(start, 0));
        while i < input_size
            invariant
                i <= input_size,
                input_size <= self.max_size,
                self.rng == rng_after(start, i as nat),
                self.input@ == random_bytes(start, i as nat),
                self.follows(old(self)),
            decreases input_size - i,
        {
            let byte: u8 = self.rand_byte();
            self.input.push(byte);
            i += 1;
            assert(self.input@ =~= random_bytes(start, i as nat));
        }
    }
}

} // verus!
