use mutator::mutator::Mutator;
use mutator::corpus::Corpus;
use mutator::seed::{hash_u64, seed_from_tsc, seed_state};
use std::collections::hash_map::DefaultHasher;
use std::hash::{Hash, Hasher};

fn std_hash(v: u64) -> u64 {
    let mut hasher = DefaultHasher::new();
    v.hash(&mut hasher);
    hasher.finish()
}

#[test]
fn hash_is_the_default_hash_of_the_value() {
    for v in [0u64, 1, 12345, 0x0123_4567_89AB_CDEF, u64::MAX] {
        assert_eq!(hash_u64(v), std_hash(v));
    }
}

#[test]
fn seed_is_the_hash_and_never_zero() {
    for tsc in 0..10_000u64 {
        let seed = seed_from_tsc(tsc);
        assert_ne!(seed, 0);
        let h = std_hash(tsc);
        assert_eq!(seed, if h == 0 { 1 } else { h });
    }
}

#[test]
fn new_takes_a_given_seed_as_it_is() {
    let m = Mutator::new(Some(0x1234_5678), 16, 999);
    assert_eq!(m.rng, 0x1234_5678);
    assert_eq!(m.max_size, 16);
    assert!(m.input.is_empty());
    assert!(m.last_mutation.is_empty());
    assert_eq!(Mutator::new(Some(1), 16, 999).rng, 1);
    assert_eq!(Mutator::new(Some(u64::MAX), 16, 999).rng, u64::MAX);
}

#[test]
fn new_never_starts_in_state_zero() {
    let z = Mutator::new(Some(0), 16, 999);
    assert_eq!(z.rng, 1);
    for tsc in 0..1000u64 {
        assert_ne!(Mutator::new(Some(0), 4, tsc).rng, 0);
        assert_ne!(Mutator::new(None, 4, tsc).rng, 0);
    }
}

#[test]
fn seed_state_replaces_only_zero() {
    assert_eq!(seed_state(0), 1);
    assert_eq!(seed_state(1), 1);
    assert_eq!(seed_state(2), 2);
    assert_eq!(seed_state(0x1234_5678), 0x1234_5678);
    assert_eq!(seed_state(u64::MAX), u64::MAX);
}

#[test]
fn zero_seed_mutates_like_seed_one() {
    let corpus = Corpus::new();
    let mut z = Mutator::new(Some(0), 16, 0);
    let mut one = Mutator::new(Some(1), 16, 0);
    for _ in 0..100 {
        z.mutate_input(&corpus);
        one.mutate_input(&corpus);
        assert_eq!(z.input, one.input);
        assert_ne!(z.rng, 0);
    }
}

#[test]
fn new_without_seed_derives_one_from_the_counter() {
    let m = Mutator::new(None, 16, 999);
    assert_eq!(m.rng, seed_from_tsc(999));
    assert_ne!(m.rng, 0);
    assert_eq!(m.max_size, 16);
    assert!(m.input.is_empty());
}

#[test]
fn reseed_replaces_the_state_and_returns_it() {
    let mut m = Mutator::new(Some(5), 16, 0);
    m.memcpy_input(&[1, 2, 3]);
    let seed = m.reseed(424242);
    assert_eq!(seed, seed_from_tsc(424242));
    assert_eq!(m.rng, seed);
    assert_ne!(seed, 0);
    assert_eq!(m.input, vec![1, 2, 3]);
    assert_eq!(m.max_size, 16);
}

#[test]
fn default_is_empty() {
    let m = Mutator::default();
    assert_eq!(m.rng, 1);
    assert_eq!(m.max_size, 0);
    assert!(m.input.is_empty());
    assert!(m.last_mutation.is_empty());
}
