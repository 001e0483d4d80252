//! The magic operators: insert or overwrite with byte sequences drawn from
//! the catalogue of interesting integers.

use vstd::prelude::*;
use crate::buffer::{insert_at, insert_block, least, overwrite_at, overwrite_block, smaller};
use crate::byte_ops::MAX_BYTE_CORRUPTION;
use crate::magic::{lemma_magic_width, magic_bytes_model};
use crate::mutator::{Mutator, State};
use crate::rng::{lemma_pick_in_range, pick, xorshift};

verus! {

/// One magic insertion: a drawn index, then a drawn magic byte sequence
/// inserted there.
pub open spec fn magic_insert_step(st: State) -> State {
    let at = pick(st.rng, st.buf.len() as int);
    let drawn = magic_bytes_model(xorshift(st.rng));
    State { rng: drawn.0, buf: insert_at(st.buf, at, drawn.1) }
}

/// `n` magic insertions in a row.
pub open spec fn magic_insert_steps(st: State, n: nat) -> State
    decreases n,
{
    if n == 0 {
        st
    } else {
        magic_insert_steps(magic_insert_step(st), (n - 1) as nat)
    }
}

/// What a magic insert makes of `st` with size limit `max`. With no room
/// left nothing changes. Otherwise it draws a byte count up to the room and
/// the byte limit, and makes one insertion for each whole eight bytes of it:
/// mostly none.
pub open spec fn magic_byte_insert_model(st: State, max: int) -> State {
    let slack = max - st.buf.len();
    if slack == 0 {
        st
    } else {
        let count = pick(st.rng, least(slack, 64)) + 1;
        magic_insert_steps(State { rng: xorshift(st.rng), buf: st.buf }, (count / 8) as nat)
    }
}

/// One magic overwrite: a drawn index at least eight bytes before the end,
/// then a drawn magic byte sequence written there.
pub open spec fn magic_overwrite_step(st: State) -> State {
    let at = pick(st.rng, st.buf.len() - 7);
    let drawn = magic_bytes_model(xorshift(st.rng));
    State { rng: drawn.0, buf: overwrite_at(st.buf, at, drawn.1) }
}

/// `n` magic overwrites in a row.
pub open spec fn magic_overwrite_steps(st: State, n: nat) -> State
    decreases n,
{
    if n == 0 {
        st
    } else {
        magic_overwrite_steps(magic_overwrite_step(st), (n - 1) as nat)
    }
}

/// What a magic overwrite makes of `st`. A buffer shorter than eight bytes
/// stays as it is and nothing is drawn. Otherwise it draws a byte count up to
/// the length and the byte limit, and makes one overwrite for each whole
/// eight bytes of it.
pub open spec fn magic_byte_overwrite_model(st: State) -> State {
    let len = st.buf.len() as int;
    if len < 8 {
        st
    } else {
        let count = pick(st.rng, least(len, 64)) + 1;
        magic_overwrite_steps(State { rng: xorshift(st.rng), buf: st.buf }, (count / 8) as nat)
    }
}

/// `n` magic insertions make a non-empty buffer longer by at most eight
/// bytes each.
pub proof fn lemma_magic_insert_steps_len(st: State, n: nat)
    requires
        st.buf.len() >= 1,
    ensures
        st.buf.len() <= magic_insert_steps(st, n).buf.len() <= st.buf.len() + 8 * n,
    decreases n,
{
    if n > 0 {
        lemma_pick_in_range(st.rng, st.buf.len() as int);
        lemma_magic_width(xorshift(st.rng), 0);
        lemma_magic_insert_steps_len(magic_insert_step(st), (n - 1) as nat);
    }
}

/// Magic overwrites keep the length of a buffer of eight bytes or more.
pub proof fn lemma_magic_overwrite_steps_len(st: State, n: nat)
    requires
        st.buf.len() >= 8,
    ensures
        magic_overwrite_steps(st, n).buf.len() == st.buf.len(),
    decreases n,
{
    if n > 0 {
        lemma_pick_in_range(st.rng, st.buf.len() - 7);
        lemma_magic_width(xorshift(st.rng), 0);
        lemma_magic_overwrite_steps_len(magic_overwrite_step(st), (n - 1) as nat);
    }
}

impl Mutator {
    /// Inserts magic byte sequences at drawn indices, as far as the size
    /// limit leaves room for whole eight-byte values.
    pub fn magic_byte_insert(&mut self)
        requires
            old(self).fits(),
        ensures
            final(self).state() == magic_byte_insert_model(
                old(self).state(),
                old(self).max_size as int,
            ),
            final(self).fits(),
            final(self).input@.len() >= old(self).input@.len(),
            final(self).follows(old(self)),
    {
        let slack: usize = self.max_size - self.input.len();
        if slack == 0 {
            return ;
        }
        let ceiling: usize = smaller(slack, MAX_BYTE_CORRUPTION);
        let insert_num: usize = self.below(ceiling) + 1;
        let num_u64: usize = insert_num / 8;
        let ghost goal = magic_byte_insert_model(old(self).state(), old(self).max_size as int);
        let mut k: usize = 0;
        while k < num_u64
            invariant
                k <= num_u64,
                1 <= old(self).input@.len() <= self.input@.len(),
                self.input@.len() + 8 * (num_u64 - k) <= self.max_size,
                self.follows(old(self)),
                magic_insert_steps(self.state(), (num_u64 - k) as nat) == goal,
            decreases num_u64 - k,
        {
            let idx: usize = self.below(self.input.len());
            let magic_bytes: Vec<u8> = self.magic_bytes();
            insert_block(&mut self.input, idx, magic_bytes.as_slice());
            k += 1;
        }
    }

    /// Overwrites with magic byte sequences at drawn indices. A buffer
    /// shorter than eight bytes is left alone; the length never changes.
    pub fn magic_byte_overwrite(&mut self)
        ensures
            final(self).state() == magic_byte_overwrite_model(old(self).state()),
            old(self).input@.len() < 8 ==> final(self).state() == old(self).state(),
            final(self).input@.len() == old(self).input@.len(),
            final(self).follows(old(self)),
    {
        let len: usize = self.input.len();
        if len < 8 {
            return ;
        }
        let ceiling: usize = smaller(len, MAX_BYTE_CORRUPTION);
        let overwrite_num: usize = self.below(ceiling) + 1;
        let num_u64: usize = overwrite_num / 8;
        let max_overwrite: usize = len - 8;
        let ghost goal = magic_byte_overwrite_model(old(self).state());
        let mut k: usize = 0;
        while k < num_u64
            invariant
                k <= num_u64,
                len >= 8,
                max_overwrite == len - 8,
                self.input@.len() == len,
                self.follows(old(self)),
                magic_overwrite_steps(self.state(), (num_u64 - k) as nat) == goal,
            decreases num_u64 - k,
        {
            let idx: usize = self.below(max_overwrite + 1);
            let magic_bytes: Vec<u8> = self.magic_bytes();
            overwrite_block(&mut self.input, idx, magic_bytes.as_slice());
            k += 1;
        }
    }
}

} // verus!
