//! The block operators: copy a block of the buffer to another place, in
//! between or on top of what is there, or remove one.

use vstd::prelude::*;
use crate::buffer::{
    copy_block,
    insert_at,
    insert_block,
    least,
    overwrite_at,
    overwrite_block,
    remove_at,
    remove_block,
    smaller,
};
use crate::mutator::{Mutator, State};
use crate::rng::{pick, xorshift};

verus! {

/// The longest block that a block operator moves.
pub const MAX_BLOCK_CORRUPTION: usize = 512;

/// What a block insert makes of `st` with size limit `max`. With no room
/// left nothing changes. Otherwise it draws a block size up to the room, the
/// block limit and the length, then where the block is read and where its
/// copy is inserted.
pub open spec fn block_insert_model(st: State, max: int) -> State {
    let len = st.buf.len() as int;
    let slack = max - len;
    if slack == 0 {
        st
    } else {
        let size = pick(st.rng, least(least(slack, 512), len)) + 1;
        let r1 = xorshift(st.rng);
        let from = pick(r1, len - size + 1);
        let r2 = xorshift(r1);
        let to = pick(r2, len);
        State {
            rng: xorshift(r2),
            buf: insert_at(st.buf, to, st.buf.subrange(from, from + size)),
        }
    }
}

/// What a block overwrite makes of `st`. It draws a block size up to the
/// length and the block limit, then where the block is read and where its
/// copy is written; the two ranges may overlap, and the copy is of the bytes
/// as they were.
pub open spec fn block_overwrite_model(st: State) -> State {
    let len = st.buf.len() as int;
    let size = pick(st.rng, least(len, 512)) + 1;
    let r1 = xorshift(st.rng);
    let from = pick(r1, len - size + 1);
    let r2 = xorshift(r1);
    let to = pick(r2, len - size + 1);
    State {
        rng: xorshift(r2),
        buf: overwrite_at(st.buf, to, st.buf.subrange(from, from + size)),
    }
}

/// What a block delete makes of `st`. A buffer of one byte stays as it is.
/// Otherwise it draws a block size that leaves at least one byte, then where
/// the block starts.
pub open spec fn block_delete_model(st: State) -> State {
    let len = st.buf.len() as int;
    if len <= 1 {
        st
    } else {
        let size = pick(st.rng, least(len - 1, 512)) + 1;
        let r1 = xorshift(st.rng);
        let from = pick(r1, len - size + 1);
        State { rng: xorshift(r1), buf: remove_at(st.buf, from, size) }
    }
}

impl Mutator {
    /// Copies a block of the buffer and inserts the copy at a drawn index.
    /// The length grows by the block's size and stays within the limit.
    pub fn block_insert(&mut self)
        requires
            old(self).fits(),
        ensures
            final(self).state() == block_insert_model(
                old(self).state(),
                old(self).max_size as int,
            ),
            final(self).fits(),
            final(self).input@.len() >= old(self).input@.len(),
            final(self).follows(old(self)),
    {
        let len: usize = self.input.len();
        let slack: usize = self.max_size - len;
        if slack == 0 {
            return ;
        }
        let ceiling: usize = smaller(smaller(slack, MAX_BLOCK_CORRUPTION), len);
        let block_size: usize = self.below(ceiling) + 1;
        let max_start: usize = len - block_size;
        let block_start: usize = self.below(max_start + 1);
        let block: Vec<u8> = copy_block(&self.input, block_start, block_size);
        let insert_idx: usize = self.below(len);
        insert_block(&mut self.input, insert_idx, block.as_slice());
    }

    /// Copies a block of the buffer over the bytes at a drawn index. The
    /// length stays.
    pub fn block_overwrite(&mut self)
        requires
            old(self).input@.len() >= 1,
        ensures
            final(self).state() == block_overwrite_model(old(self).state()),
            final(self).input@.len() == old(self).input@.len(),
            final(self).follows(old(self)),
    {
        let len: usize = self.input.len();
        let ceiling: usize = smaller(len, MAX_BLOCK_CORRUPTION);
        let block_size: usize = self.below(ceiling) + 1;
        let max_start: usize = len - block_size;
        let block_start: usize = self.below(max_start + 1);
        let block: Vec<u8> = copy_block(&self.input, block_start, block_size);
        let overwrite_start: usize = self.below(max_start + 1);
        overwrite_block(&mut self.input, overwrite_start, block.as_slice());
    }

    /// Removes a block of the buffer; of a buffer that is not empty at least
    /// one byte stays.
    pub fn block_delete(&mut self)
        ensures
            final(self).state() == block_delete_model(old(self).state()),
            final(self).input@.len() <= old(self).input@.len(),
            old(self).input@.len() >= 1 ==> final(self).input@.len() >= 1,
            final(self).follows(old(self)),
    {
        let len: usize = self.input.len();
        if len <= 1 {
            return ;
        }
        let ceiling: usize = smaller(len - 1, MAX_BLOCK_CORRUPTION);
        let block_size: usize = self.below(ceiling) + 1;
        let max_start: usize = len - block_size;
        let block_start: usize = self.below(max_start + 1);
        remove_block(&mut self.input, block_start, block_size);
    }
}

} // verus!
