//! A stacked, havoc-style input mutator for coverage-guided fuzzing.
//!
//! Every operator is a deterministic function of the generator state, the
//! working buffer and the size limit; the contracts state that function.

pub mod rng;
pub mod mutator;
pub mod magic;
pub mod buffer;
pub mod corpus;
pub mod child;
pub mod scheduler;
pub mod seed;
pub mod shape_ops;
pub mod byte_ops;
pub mod magic_ops;
pub mod block_ops;
pub mod splice;
