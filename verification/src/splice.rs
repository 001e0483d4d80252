//! The splice operator: a block of the working buffer followed by a block of
//! a corpus input. It is the only operator that reads the corpus.

use vstd::prelude::*;
use crate::buffer::{least, remove_block, smaller};
use crate::corpus::{spliceable, Corpus};
use crate::mutator::{Mutator, State};
use crate::rng::{pick, xorshift};

verus! {

/// What a splice makes of `st` with size limit `max`. It draws the start and
/// the length of the block that stays, then a corpus input. Where the block
/// that stays already fills the limit, nothing changes. Otherwise it draws
/// the start and the length of a block of the corpus input, and the buffer
/// becomes the first block followed by the second.
pub open spec fn splice_model(st: State, corpus: Seq<Seq<u8>>, max: int) -> State {
    let len = st.buf.len() as int;
    let old_start = pick(st.rng, len);
    let r1 = xorshift(st.rng);
    let old_len = pick(r1, len - old_start) + 1;
    let r2 = xorshift(r1);
    let other = corpus[pick(r2, corpus.len() as int)];
    let r3 = xorshift(r2);
    let slack = max - old_len;
    if slack == 0 {
        State { rng: r3, buf: st.buf }
    } else {
        let new_start = pick(r3, other.len() as int);
        let r4 = xorshift(r3);
        let new_len = pick(r4, least(other.len() - new_start, slack)) + 1;
        State {
            rng: xorshift(r4),
            buf: st.buf.subrange(old_start, old_start + old_len) + other.subrange(
                new_start,
                new_start + new_len,
            ),
        }
    }
}

impl Mutator {
    /// Replaces the buffer by one of its blocks followed by a block of a
    /// corpus input.
    pub fn splice(&mut self, corpus: &Corpus)
        requires
            old(self).fits(),
            spliceable(corpus@),
        ensures
            final(self).state() == splice_model(
                old(self).state(),
                corpus@,
                old(self).max_size as int,
            ),
            final(self).fits(),
            final(self).follows(old(self)),
    {
        let ghost before = self.input@;
        let len: usize = self.input.len();
        let old_start: usize = self.below(len);
        let old_len: usize = self.below(len - old_start) + 1;
        let new_idx: usize = self.below(corpus.num_inputs());
        let other: &[u8] = match corpus.get_input(new_idx) {
            Some(o) => o,
            None => { return ; },
        };
        let slack: usize = self.max_size - old_len;
        if slack == 0 {
            return ;
        }
        let other_len: usize = other.len();
        let new_start: usize = self.below(other_len);
        let new_ceiling: usize = smaller(other_len - new_start, slack);
        let new_len: usize = self.below(new_ceiling) + 1;

        // The block that stays moves to the front; what lies behind it goes.
        remove_block(&mut self.input, 0, old_start);
        self.input.truncate(old_len);
        assert(self.input@ =~= before.subrange(old_start as int, old_start + old_len));

        // The block of the other input follows it.
        let mut k: usize = 0;
        while k < new_len
            invariant
                k <= new_len,
                new_start + new_len <= other@.len(),
                other@.len() == other_len,
                old_start + old_len <= before.len(),
                old_len + new_len <= self.max_size,
                self.input@ == before.subrange(old_start as int, old_start + old_len)
                    + other@.subrange(new_start as int, new_start + k),
                self.follows(old(self)),
                self.rng == splice_model(
                    old(self).state(),
                    corpus@,
                    old(self).max_size as int,
                ).rng,
            decreases new_len - k,
        {
            self.input.push(other[new_start + k]);
            k += 1;
            assert(self.input@ =~= before.subrange(old_start as int, old_start + old_len)
                + other@.subrange(new_start as int, new_start + k));
        }
    }
}

} // verus!
