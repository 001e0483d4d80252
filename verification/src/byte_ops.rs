//! The byte operators: insert, overwrite or delete single bytes at drawn
//! indices.

use vstd::prelude::*;
use crate::buffer::{least, smaller};
use crate::mutator::{Mutator, State};
use crate::rng::{lemma_pick_in_range, pick, pick_byte, xorshift};

verus! {

/// The most bytes that a byte operator touches.
pub const MAX_BYTE_CORRUPTION: usize = 64;

/// One insertion: a drawn index, then a drawn byte inserted there.
pub open spec fn byte_insert_step(st: State) -> State {
    let r1 = xorshift(st.rng);
    State {
        rng: xorshift(r1),
        buf: st.buf.insert(pick(st.rng, st.buf.len() as int), pick_byte(r1)),
    }
}

/// `n` insertions in a row, each index drawn against the length at that time.
pub open spec fn byte_insert_steps(st: State, n: nat) -> State
    decreases n,
{
    if n == 0 {
        st
    } else {
        byte_insert_steps(byte_insert_step(st), (n - 1) as nat)
    }
}

/// What a byte insert makes of `st` with size limit `max`. With no room left
/// nothing changes. Otherwise it draws a count up to the room and the byte
/// limit, and makes that many insertions.
pub open spec fn byte_insert_model(st: State, max: int) -> State {
    let slack = max - st.buf.len();
    if slack == 0 {
        st
    } else {
        let count = pick(st.rng, least(slack, 64)) + 1;
        byte_insert_steps(State { rng: xorshift(st.rng), buf: st.buf }, count as nat)
    }
}

/// One overwrite: a drawn index, then a drawn byte written there.
pub open spec fn byte_overwrite_step(st: State) -> State {
    let r1 = xorshift(st.rng);
    State {
        rng: xorshift(r1),
        buf: st.buf.update(pick(st.rng, st.buf.len() as int), pick_byte(r1)),
    }
}

/// `n` overwrites in a row.
pub open spec fn byte_overwrite_steps(st: State, n: nat) -> State
    decreases n,
{
    if n == 0 {
        st
    } else {
        byte_overwrite_steps(byte_overwrite_step(st), (n - 1) as nat)
    }
}

/// What a byte overwrite makes of `st`. An empty buffer stays as it is and
/// nothing is drawn. Otherwise it draws a count up to the length and the
/// byte limit, and makes that many overwrites.
pub open spec fn byte_overwrite_model(st: State) -> State {
    if st.buf.len() == 0 {
        st
    } else {
        let count = pick(st.rng, least(st.buf.len() as int, 64)) + 1;
        byte_overwrite_steps(State { rng: xorshift(st.rng), buf: st.buf }, count as nat)
    }
}

/// One deletion: the byte at a drawn index goes.
pub open spec fn byte_delete_step(st: State) -> State {
    State { rng: xorshift(st.rng), buf: st.buf.remove(pick(st.rng, st.buf.len() as int)) }
}

/// `n` deletions in a row, each index drawn against the length at that time.
pub open spec fn byte_delete_steps(st: State, n: nat) -> State
    decreases n,
{
    if n == 0 {
        st
    } else {
        byte_delete_steps(byte_delete_step(st), (n - 1) as nat)
    }
}

/// What a byte delete makes of `st`. A buffer of one byte stays as it is and
/// nothing is drawn. Otherwise it draws a count that leaves at least one
/// byte, and makes that many deletions.
pub open spec fn byte_delete_model(st: State) -> State {
    let len = st.buf.len() as int;
    if len <= 1 {
        st
    } else {
        let count = pick(st.rng, least(len - 1, 64)) + 1;
        byte_delete_steps(State { rng: xorshift(st.rng), buf: st.buf }, count as nat)
    }
}

/// `n` insertions make a non-empty buffer `n` bytes longer.
pub proof fn lemma_byte_insert_steps_len(st: State, n: nat)
    requires
        st.buf.len() >= 1,
    ensures
        byte_insert_steps(st, n).buf.len() == st.buf.len() + n,
    decreases n,
{
    if n > 0 {
        lemma_pick_in_range(st.rng, st.buf.len() as int);
        lemma_byte_insert_steps_len(byte_insert_step(st), (n - 1) as nat);
    }
}

/// Overwrites keep the length.
pub proof fn lemma_byte_overwrite_steps_len(st: State, n: nat)
    requires
        st.buf.len() >= 1,
    ensures
        byte_overwrite_steps(st, n).buf.len() == st.buf.len(),
    decreases n,
{
    if n > 0 {
        lemma_pick_in_range(st.rng, st.buf.len() as int);
        lemma_byte_overwrite_steps_len(byte_overwrite_step(st), (n - 1) as nat);
    }
}

/// `n` deletions make a buffer of more than `n` bytes `n` bytes shorter.
pub proof fn lemma_byte_delete_steps_len(st: State, n: nat)
    requires
        st.buf.len() > n,
    ensures
        byte_delete_steps(st, n).buf.len() == st.buf.len() - n,
    decreases n,
{
    if n > 0 {
        lemma_pick_in_range(st.rng, st.buf.len() as int);
        lemma_byte_delete_steps_len(byte_delete_step(st), (n - 1) as nat);
    }
}

impl Mutator {
    /// Inserts drawn bytes at drawn indices, within the size limit.
    pub fn byte_insert(&mut self)
        requires
            old(self).fits(),
        ensures
            final(self).state() == byte_insert_model(old(self).state(), old(self).max_size as int),
            final(self).fits(),
            final(self).input@.len() >= old(self).input@.len(),
            final(self).follows(old(self)),
    {
        let slack: usize = self.max_size - self.input.len();
        if slack == 0 {
            return ;
        }
        let ceiling: usize = smaller(slack, MAX_BYTE_CORRUPTION);
        let insert_num: usize = self.below(ceiling) + 1;
        let ghost goal = byte_insert_model(old(self).state(), old(self).max_size as int);
        let mut k: usize = 0;
        while k < insert_num
            invariant
                k <= insert_num,
                1 <= old(self).input@.len() <= self.input@.len(),
                self.input@.len() + (insert_num - k) <= self.max_size,
                self.follows(old(self)),
                byte_insert_steps(self.state(), (insert_num - k) as nat) == goal,
            decreases insert_num - k,
        {
            let curr_idx: usize = self.below(self.input.len());
            let byte: u8 = self.rand_byte();
            self.input.insert(curr_idx, byte);
            k += 1;
        }
    }

    /// Overwrites bytes at drawn indices with drawn bytes. The length stays;
    /// an empty buffer is left alone.
    pub fn byte_overwrite(&mut self)
        ensures
            final(self).state() == byte_overwrite_model(old(self).state()),
            final(self).input@.len() == old(self).input@.len(),
            final(self).follows(old(self)),
    {
        let len: usize = self.input.len();
        if len == 0 {
            return ;
        }
        let ceiling: usize = smaller(len, MAX_BYTE_CORRUPTION);
        let overwrite_num: usize = self.below(ceiling) + 1;
        let ghost goal = byte_overwrite_model(old(self).state());
        let mut k: usize = 0;
        while k < overwrite_num
            invariant
                k <= overwrite_num,
                len >= 1,
                self.input@.len() == len,
                self.follows(old(self)),
                byte_overwrite_steps(self.state(), (overwrite_num - k) as nat) == goal,
            decreases overwrite_num - k,
        {
            let curr_idx: usize = self.below(len);
            let byte: u8 = self.rand_byte();
            self.input[curr_idx] = byte;
            k += 1;
        }
    }

    /// Deletes bytes at drawn indices; of a buffer that is not empty at
    /// least one byte stays.
    pub fn byte_delete(&mut self)
        ensures
            final(self).state() == byte_delete_model(old(self).state()),
            final(self).input@.len() <= old(self).input@.len(),
            old(self).input@.len() >= 1 ==> final(self).input@.len() >= 1,
            final(self).follows(old(self)),
    {
        let len: usize = self.input.len();
        if len <= 1 {
            return ;
        }
        let ceiling: usize = smaller(len - 1, MAX_BYTE_CORRUPTION);
        let delete_num: usize = self.below(ceiling) + 1;
        let ghost goal = byte_delete_model(old(self).state());
        let mut k: usize = 0;
        while k < delete_num
            invariant
                k <= delete_num,
                self.input@.len() <= old(self).input@.len(),
                self.input@.len() - (delete_num - k) >= 1,
                self.follows(old(self)),
                byte_delete_steps(self.state(), (delete_num - k) as nat) == goal,
            decreases delete_num - k,
        {
            let curr_idx: usize = self.below(self.input.len());
            self.input.remove(curr_idx);
            k += 1;
        }
    }
}

} // verus!
