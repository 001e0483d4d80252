//! The corpus: the inputs that the mutator starts from and splices with. The
//! mutator only reads it.

use vstd::prelude::*;

verus! {

/// A collection of inputs, in the order in which they were added.
pub struct Corpus {
    pub inputs: Vec<Vec<u8>>,
}

impl View for Corpus {
    type V = Seq<Seq<u8>>;

    /// The inputs, each as its sequence of bytes.
    open spec fn view(&self) -> Seq<Seq<u8>> {
        Seq::new(self.inputs@.len(), |i: int| self.inputs@[i]@)
    }
}

/// Every input of `corpus` is non-empty and at most `max_size` bytes long:
/// what a mutator with that limit asks of the corpus it is given.
pub open spec fn usable(corpus: Seq<Seq<u8>>, max_size: int) -> bool {
    forall|i: int| 0 <= i < corpus.len() ==> 1 <= (#[trigger] corpus[i]).len() <= max_size
}

/// `corpus` has an input, and none of its inputs is empty: what a splice
/// asks of the corpus it reads.
pub open spec fn spliceable(corpus: Seq<Seq<u8>>) -> bool {
    &&& corpus.len() >= 1
    &&& forall|i: int| 0 <= i < corpus.len() ==> (#[trigger] corpus[i]).len() >= 1
}

impl Corpus {
    /// An empty corpus.
    pub fn new() -> (c: Corpus)
        ensures
            c@ == Seq::<Seq<u8>>::empty(),
    {
        let c = Corpus { inputs: Vec::new() };
        assert(c@ =~= Seq::<Seq<u8>>::empty());
        c
    }

    /// Appends `input` to the corpus.
    pub fn add_input(&mut self, input: Vec<u8>)
        ensures
            final(self)@ == old(self)@.push(input@),
    {
        self.inputs.push(input);
        assert(self@ =~= old(self)@.push(input@));
    }

    /// The number of inputs.
    pub fn num_inputs(&self) -> (n: usize)
        ensures
            n == self@.len(),
    {
        self.inputs.len()
    }

    /// The input of index `i`, or `None` where the corpus has no such input.
    pub fn get_input(&self, i: usize) -> (r: Option<&[u8]>)
        ensures
            i < self@.len() ==> r.is_some() && r.unwrap()@ == self@[i as int],
            i >= self@.len() ==> r.is_none(),
    {
        if i < self.inputs.len() {
            Some(self.inputs[i].as_slice())
        } else {
            None
        }
    }
}

} // verus!
