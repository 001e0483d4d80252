//! The scheduler: each call either generates a buffer from nothing or copies
//! a corpus input and stacks up to six operators on it.

use vstd::prelude::*;
use crate::block_ops::{block_delete_model, block_insert_model, block_overwrite_model};
use crate::buffer::{least, refill};
use crate::byte_ops::{
    byte_delete_model,
    byte_insert_model,
    byte_overwrite_model,
    lemma_byte_delete_steps_len,
    lemma_byte_insert_steps_len,
    lemma_byte_overwrite_steps_len,
};
use crate::corpus::{spliceable, usable, Corpus};
use crate::magic_ops::{
    lemma_magic_insert_steps_len,
    lemma_magic_overwrite_steps_len,
    magic_byte_insert_model,
    magic_byte_overwrite_model,
};
use crate::mutator::{MutationTypes, Mutator, State, MAX_STACK};
use crate::rng::{lemma_pick_in_range, pick, xorshift};
use crate::shape_ops::{
    bit_flip_model,
    generate_model,
    grow_model,
    lemma_bit_flip_steps_len,
    truncate_model,
};
use crate::splice::splice_model;

verus! {

/// Of a hundred calls, about this many generate a buffer from nothing.
pub const GEN_SCRATCH_RATE: usize = 5;

/// A round opens the pool to the three rare operators when its draw out of a
/// hundred is at most this.
pub const LONGSHOT_MUTATION_RATE: usize = 5;

/// Number of operators.
pub const OPERATOR_COUNT: usize = 12;

/// The operator of index `idx`.
pub open spec fn operator_at(idx: int) -> MutationTypes {
    if idx == 0 {
        MutationTypes::ByteInsert
    } else if idx == 1 {
        MutationTypes::ByteOverwrite
    } else if idx == 2 {
        MutationTypes::ByteDelete
    } else if idx == 3 {
        MutationTypes::BlockInsert
    } else if idx == 4 {
        MutationTypes::BlockOverwrite
    } else if idx == 5 {
        MutationTypes::BlockDelete
    } else if idx == 6 {
        MutationTypes::BitFlip
    } else if idx == 7 {
        MutationTypes::Grow
    } else if idx == 8 {
        MutationTypes::Truncate
    } else if idx == 9 {
        MutationTypes::MagicByteInsert
    } else if idx == 10 {
        MutationTypes::MagicByteOverwrite
    } else {
        MutationTypes::Splice
    }
}

/// What operator `op` makes of `st`, with the corpus and the size limit that
/// some operators read.
pub open spec fn apply_model(op: MutationTypes, st: State, corpus: Seq<Seq<u8>>, max: int) -> State {
    match op {
        MutationTypes::ByteInsert => byte_insert_model(st, max),
        MutationTypes::ByteOverwrite => byte_overwrite_model(st),
        MutationTypes::ByteDelete => byte_delete_model(st),
        MutationTypes::BlockInsert => block_insert_model(st, max),
        MutationTypes::BlockOverwrite => block_overwrite_model(st),
        MutationTypes::BlockDelete => block_delete_model(st),
        MutationTypes::BitFlip => bit_flip_model(st),
        MutationTypes::Grow => grow_model(st, max),
        MutationTypes::Truncate => truncate_model(st),
        MutationTypes::MagicByteInsert => magic_byte_insert_model(st, max),
        MutationTypes::MagicByteOverwrite => magic_byte_overwrite_model(st),
        MutationTypes::Splice => splice_model(st, corpus, max),
    }
}

/// The size of the pool that a round picks from, given its draw out of a
/// hundred: all operators on a long shot, the first nine otherwise.
pub open spec fn pool_size(longshot: int) -> int {
    if longshot <= 5 {
        12
    } else {
        9
    }
}

/// The operator that a round starting in generator state `rng` picks.
pub open spec fn round_operator(rng: u64) -> MutationTypes {
    operator_at(pick(xorshift(rng), pool_size(pick(rng, 100))))
}

/// What one round makes of `st`: two draws pick the operator, which is then
/// applied.
pub open spec fn round_model(st: State, corpus: Seq<Seq<u8>>, max: int) -> State {
    apply_model(
        round_operator(st.rng),
        State { rng: xorshift(xorshift(st.rng)), buf: st.buf },
        corpus,
        max,
    )
}

/// What a call leaves: generator state and buffer, and the operators it
/// applied, in order.
pub struct Outcome {
    pub state: State,
    pub trace: Seq<MutationTypes>,
}

/// `n` rounds in a row, each recorded behind those before it.
pub open spec fn rounds_model(out: Outcome, n: nat, corpus: Seq<Seq<u8>>, max: int) -> Outcome
    decreases n,
{
    if n == 0 {
        out
    } else {
        rounds_model(
            Outcome {
                state: round_model(out.state, corpus, max),
                trace: out.trace.push(round_operator(out.state.rng)),
            },
            (n - 1) as nat,
            corpus,
            max,
        )
    }
}

/// What a call makes from generator state `rng`, with the given corpus and
/// size limit. With an empty corpus, or on a draw below the scratch rate, the
/// buffer is generated from nothing and no operator is recorded. Otherwise a
/// drawn corpus input is copied and a drawn number of rounds, from one to
/// six, is applied to it.
pub open spec fn mutate_model(rng: u64, corpus: Seq<Seq<u8>>, max: int) -> Outcome {
    let r1 = xorshift(rng);
    if corpus.len() == 0 || pick(rng, 100) < 5 {
        Outcome { state: generate_model(r1, max), trace: Seq::empty() }
    } else {
        let chosen = corpus[pick(r1, corpus.len() as int)];
        let r2 = xorshift(r1);
        let rounds = (pick(r2, 6) + 1) as nat;
        rounds_model(
            Outcome { state: State { rng: xorshift(r2), buf: chosen }, trace: Seq::empty() },
            rounds,
            corpus,
            max,
        )
    }
}

/// The operator of index `idx`.
pub fn operator(idx: usize) -> (op: MutationTypes)
    requires
        idx < OPERATOR_COUNT,
    ensures
        op == operator_at(idx as int),
{
    if idx == 0 {
        MutationTypes::ByteInsert
    } else if idx == 1 {
        MutationTypes::ByteOverwrite
    } else if idx == 2 {
        MutationTypes::ByteDelete
    } else if idx == 3 {
        MutationTypes::BlockInsert
    } else if idx == 4 {
        MutationTypes::BlockOverwrite
    } else if idx == 5 {
        MutationTypes::BlockDelete
    } else if idx == 6 {
        MutationTypes::BitFlip
    } else if idx == 7 {
        MutationTypes::Grow
    } else if idx == 8 {
        MutationTypes::Truncate
    } else if idx == 9 {
        MutationTypes::MagicByteInsert
    } else if idx == 10 {
        MutationTypes::MagicByteOverwrite
    } else {
        MutationTypes::Splice
    }
}

/// No operator empties the buffer or takes it over the size limit: from a
/// buffer that is non-empty and within the limit, each leaves one that is.
pub proof fn lemma_operator_keeps_size(
    op: MutationTypes,
    st: State,
    corpus: Seq<Seq<u8>>,
    max: int,
)
    requires
        1 <= st.buf.len() <= max,
        op == MutationTypes::Splice ==> spliceable(corpus),
    ensures
        1 <= apply_model(op, st, corpus, max).buf.len() <= max,
{
    let len = st.buf.len() as int;
    let drawn = State { rng: xorshift(st.rng), buf: st.buf };
    match op {
        MutationTypes::ByteInsert => {
            if max - len > 0 {
                lemma_pick_in_range(st.rng, least(max - len, 64));
                lemma_byte_insert_steps_len(drawn, (pick(st.rng, least(max - len, 64)) + 1) as nat);
            }
        },
        MutationTypes::ByteOverwrite => {
            lemma_pick_in_range(st.rng, least(len, 64));
            lemma_byte_overwrite_steps_len(drawn, (pick(st.rng, least(len, 64)) + 1) as nat);
        },
        MutationTypes::ByteDelete => {
            if len > 1 {
                lemma_pick_in_range(st.rng, least(len - 1, 64));
                lemma_byte_delete_steps_len(drawn, (pick(st.rng, least(len - 1, 64)) + 1) as nat);
            }
        },
        MutationTypes::BlockInsert => {
            if max - len > 0 {
                let size = pick(st.rng, least(least(max - len, 512), len)) + 1;
                lemma_pick_in_range(st.rng, least(least(max - len, 512), len));
                lemma_pick_in_range(xorshift(st.rng), len - size + 1);
                lemma_pick_in_range(xorshift(xorshift(st.rng)), len);
            }
        },
        MutationTypes::BlockOverwrite => {
            let size = pick(st.rng, least(len, 512)) + 1;
            lemma_pick_in_range(st.rng, least(len, 512));
            lemma_pick_in_range(xorshift(st.rng), len - size + 1);
            lemma_pick_in_range(xorshift(xorshift(st.rng)), len - size + 1);
        },
        MutationTypes::BlockDelete => {
            if len > 1 {
                let size = pick(st.rng, least(len - 1, 512)) + 1;
                lemma_pick_in_range(st.rng, least(len - 1, 512));
                lemma_pick_in_range(xorshift(st.rng), len - size + 1);
            }
        },
        MutationTypes::BitFlip => {
            lemma_pick_in_range(st.rng, least(8 * len, 64));
            lemma_bit_flip_steps_len(drawn, (pick(st.rng, least(8 * len, 64)) + 1) as nat);
        },
        MutationTypes::Grow => {
            if max - len > 0 {
                lemma_pick_in_range(st.rng, max - len);
                lemma_pick_in_range(xorshift(st.rng), len);
            }
        },
        MutationTypes::Truncate => {
            if len > 1 {
                lemma_pick_in_range(st.rng, len - 1);
            }
        },
        MutationTypes::MagicByteInsert => {
            if max - len > 0 {
                lemma_pick_in_range(st.rng, least(max - len, 64));
                lemma_magic_insert_steps_len(
                    drawn,
                    ((pick(st.rng, least(max - len, 64)) + 1) / 8) as nat,
                );
            }
        },
        MutationTypes::MagicByteOverwrite => {
            if len >= 8 {
                lemma_pick_in_range(st.rng, least(len, 64));
                lemma_magic_overwrite_steps_len(
                    drawn,
                    ((pick(st.rng, least(len, 64)) + 1) / 8) as nat,
                );
            }
        },
        MutationTypes::Splice => {
            let old_start = pick(st.rng, len);
            let r1 = xorshift(st.rng);
            let old_len = pick(r1, len - old_start) + 1;
            let r2 = xorshift(r1);
            let other = corpus[pick(r2, corpus.len() as int)];
            let r3 = xorshift(r2);
            lemma_pick_in_range(st.rng, len);
            lemma_pick_in_range(r1, len - old_start);
            lemma_pick_in_range(r2, corpus.len() as int);
            if max - old_len != 0 {
                let new_start = pick(r3, other.len() as int);
                lemma_pick_in_range(r3, other.len() as int);
                lemma_pick_in_range(xorshift(r3), least(other.len() - new_start, max - old_len));
            }
        },
    }
}

/// `n` rounds on a buffer that is non-empty and within the limit leave one
/// that is, and record `n` operators more.
pub proof fn lemma_rounds_keep_size(out: Outcome, n: nat, corpus: Seq<Seq<u8>>, max: int)
    requires
        1 <= out.state.buf.len() <= max,
        spliceable(corpus),
    ensures
        1 <= rounds_model(out, n, corpus, max).state.buf.len() <= max,
        rounds_model(out, n, corpus, max).trace.len() == out.trace.len() + n,
    decreases n,
{
    if n > 0 {
        let drawn = State { rng: xorshift(xorshift(out.state.rng)), buf: out.state.buf };
        lemma_operator_keeps_size(round_operator(out.state.rng), drawn, corpus, max);
        lemma_rounds_keep_size(
            Outcome {
                state: round_model(out.state, corpus, max),
                trace: out.trace.push(round_operator(out.state.rng)),
            },
            (n - 1) as nat,
            corpus,
            max,
        );
    }
}

/// Whatever the generator state, a call leaves a buffer that is non-empty
/// and within the size limit, and records at most six operators.
pub proof fn lemma_mutate_keeps_size(rng: u64, corpus: Seq<Seq<u8>>, max: int)
    requires
        max >= 1,
        usable(corpus, max),
    ensures
        1 <= mutate_model(rng, corpus, max).state.buf.len() <= max,
        mutate_model(rng, corpus, max).trace.len() <= 6,
{
    let r1 = xorshift(rng);
    if corpus.len() == 0 || pick(rng, 100) < 5 {
        lemma_pick_in_range(r1, max);
    } else {
        let r2 = xorshift(r1);
        lemma_pick_in_range(r1, corpus.len() as int);
        lemma_pick_in_range(r2, 6);
        lemma_rounds_keep_size(
            Outcome {
                state: State { rng: xorshift(r2), buf: corpus[pick(r1, corpus.len() as int)] },
                trace: Seq::empty(),
            },
            (pick(r2, 6) + 1) as nat,
            corpus,
            max,
        );
    }
}

/// With an empty corpus every call generates its buffer from nothing and
/// records no operator.
pub proof fn lemma_empty_corpus_generates(rng: u64, max: int)
    ensures
        mutate_model(rng, Seq::empty(), max) == (Outcome {
            state: generate_model(xorshift(rng), max),
            trace: Seq::empty(),
        }),
{
}

/// Two mutators with the same generator state and the same size limit, given
/// the same corpus, leave the same buffer, the same operator record and the
/// same generator state, whatever their buffers and records held before.
/// Since generator state and size limit agree again afterwards, the same
/// holds of every later call on the two.
pub proof fn lemma_same_seed_same_output(
    a: Mutator,
    b: Mutator,
    corpus: Seq<Seq<u8>>,
    a_after: Mutator,
    b_after: Mutator,
)
    requires
        a.rng == b.rng,
        a.max_size == b.max_size,
        Mutator::mutated(&a, corpus, &a_after),
        Mutator::mutated(&b, corpus, &b_after),
    ensures
        a_after.input@ == b_after.input@,
        a_after.last_mutation@ == b_after.last_mutation@,
        a_after.rng == b_after.rng,
        a_after.max_size == b_after.max_size,
{
}

impl Mutator {
    /// What `mutate_input` owes: `post` is what a call on `pre` with `corpus`
    /// leaves. Generator state, buffer and operator record are those of the
    /// model, which reads nothing of `pre` but its generator state and size
    /// limit; the size limit stays.
    pub open spec fn mutated(pre: &Mutator, corpus: Seq<Seq<u8>>, post: &Mutator) -> bool {
        let out = mutate_model(pre.rng, corpus, pre.max_size as int);
        &&& post.state() == out.state
        &&& post.last_mutation@ == out.trace
        &&& post.max_size == pre.max_size
    }

    /// Applies operator `op` to the buffer and records it. Only a splice
    /// reads the corpus.
    pub fn apply(&mut self, op: MutationTypes, corpus: &Corpus)
        requires
            old(self).fits(),
            op == MutationTypes::Splice ==> spliceable(corpus@),
        ensures
            final(self).state() == apply_model(
                op,
                old(self).state(),
                corpus@,
                old(self).max_size as int,
            ),
            final(self).fits(),
            final(self).max_size == old(self).max_size,
            final(self).last_mutation@ == old(self).last_mutation@.push(op),
            old(self).rng != 0 ==> final(self).rng != 0,
    {
        match op {
            MutationTypes::ByteInsert => self.byte_insert(),
            MutationTypes::ByteOverwrite => self.byte_overwrite(),
            MutationTypes::ByteDelete => self.byte_delete(),
            MutationTypes::BlockInsert => self.block_insert(),
            MutationTypes::BlockOverwrite => self.block_overwrite(),
            MutationTypes::BlockDelete => self.block_delete(),
            MutationTypes::BitFlip => self.bit_flip(),
            MutationTypes::Grow => self.grow(),
            MutationTypes::Truncate => self.truncate(),
            MutationTypes::MagicByteInsert => self.magic_byte_insert(),
            MutationTypes::MagicByteOverwrite => self.magic_byte_overwrite(),
            MutationTypes::Splice => self.splice(corpus),
        }
        self.last_mutation.push(op);
    }

    /// One round: draws the pool and the operator, applies and records it.
    pub fn round(&mut self, corpus: &Corpus)
        requires
            old(self).fits(),
            spliceable(corpus@),
        ensures
            final(self).state() == round_model(
                old(self).state(),
                corpus@,
                old(self).max_size as int,
            ),
            final(self).fits(),
            final(self).max_size == old(self).max_size,
            final(self).last_mutation@ == old(self).last_mutation@.push(
                round_operator(old(self).rng),
            ),
            old(self).rng != 0 ==> final(self).rng != 0,
    {
        let longshot: usize = self.below(100);
        let pool: usize = if longshot <= LONGSHOT_MUTATION_RATE {
            OPERATOR_COUNT
        } else {
            OPERATOR_COUNT - 3
        };
        let mutation_idx: usize = self.below(pool);
        self.apply(operator(mutation_idx), corpus);
    }

    /// Produces the next candidate in the buffer. What the buffer and the
    /// operator record held before plays no part. The result is never empty
    /// and never longer than the size limit; with an empty corpus it is
    /// generated from nothing and no operator is recorded.
    pub fn mutate_input(&mut self, corpus: &Corpus)
        requires
            old(self).max_size >= 1,
            usable(corpus@, old(self).max_size as int),
        ensures
            Mutator::mutated(old(self), corpus@, final(self)),
            final(self).fits(),
            final(self).last_mutation@.len() <= MAX_STACK,
            corpus@.len() == 0 ==> final(self).last_mutation@.len() == 0 && final(self).state()
                == generate_model(xorshift(old(self).rng), old(self).max_size as int),
            old(self).rng != 0 ==> final(self).rng != 0,
    {
        self.input.clear();
        self.last_mutation.clear();
        let num_inputs: usize = corpus.num_inputs();
        let gen: usize = self.below(100);
        if num_inputs == 0 || gen < GEN_SCRATCH_RATE {
            self.generate_random_input();
            return ;
        }
        let idx: usize = self.below(num_inputs);
        let chosen: &[u8] = match corpus.get_input(idx) {
            Some(c) => c,
            None => { return ; },
        };
        refill(&mut self.input, chosen);
        let rounds: usize = self.below(MAX_STACK) + 1;
        let ghost goal = mutate_model(old(self).rng, corpus@, old(self).max_size as int);
        let mut k: usize = 0;
        while k < rounds
            invariant
                k <= rounds,
                rounds <= MAX_STACK,
                self.fits(),
                self.max_size == old(self).max_size,
                corpus@.len() >= 1,
                usable(corpus@, self.max_size as int),
                self.last_mutation@.len() == k,
                old(self).rng != 0 ==> self.rng != 0,
                rounds_model(
                    Outcome { state: self.state(), trace: self.last_mutation@ },
                    (rounds - k) as nat,
                    corpus@,
                    self.max_size as int,
                ) == goal,
            decreases rounds - k,
        {
            self.round(corpus);
            k += 1;
        }
    }
}

} // verus!
