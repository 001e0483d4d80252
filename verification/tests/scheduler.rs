use mutator::corpus::Corpus;
use mutator::mutator::{MutationTypes, Mutator, MAX_STACK};
use mutator::scheduler::{operator, GEN_SCRATCH_RATE, LONGSHOT_MUTATION_RATE, OPERATOR_COUNT};

fn corpus_from(inputs: &[&[u8]]) -> Corpus {
    let mut c = Corpus::new();
    for i in inputs {
        c.add_input(i.to_vec());
    }
    c
}

fn three_inputs() -> Corpus {
    corpus_from(&[
        &[0x11, 0x22, 0x33, 0x44],
        &[0xAA, 0xBB, 0xCC, 0xDD, 0xEE],
        &[1, 2, 3, 4, 5, 6, 7, 8, 9, 10, 11, 12],
    ])
}

#[test]
fn constants() {
    assert_eq!(MAX_STACK, 6);
    assert_eq!(GEN_SCRATCH_RATE, 5);
    assert_eq!(LONGSHOT_MUTATION_RATE, 5);
    assert_eq!(OPERATOR_COUNT, 12);
    assert_eq!(mutator::byte_ops::MAX_BYTE_CORRUPTION, 64);
    assert_eq!(mutator::block_ops::MAX_BLOCK_CORRUPTION, 512);
    assert_eq!(mutator::shape_ops::MAX_BIT_CORRUPTION, 64);
}

#[test]
fn operators_in_catalogue_order() {
    let expected = [
        MutationTypes::ByteInsert,
        MutationTypes::ByteOverwrite,
        MutationTypes::ByteDelete,
        MutationTypes::BlockInsert,
        MutationTypes::BlockOverwrite,
        MutationTypes::BlockDelete,
        MutationTypes::BitFlip,
        MutationTypes::Grow,
        MutationTypes::Truncate,
        MutationTypes::MagicByteInsert,
        MutationTypes::MagicByteOverwrite,
        MutationTypes::Splice,
    ];
    for i in 0..12 {
        assert_eq!(operator(i), expected[i]);
    }
}

#[test]
fn scratch_on_empty_corpus() {
    let corpus = Corpus::new();
    let mut m = Mutator::new(Some(0x1234_5678), 16, 0);
    m.mutate_input(&corpus);
    assert!(m.last_mutation.is_empty());
    assert!(1 <= m.input.len() && m.input.len() <= 16);
    assert_eq!(m.input, vec![0x49, 0x2E, 0xA6, 0x88, 0x9C, 0xD6]);
    assert_eq!(m.rng, 0x8649_75B4_4337_4AA3);

    let mut again = Mutator::new(Some(0x1234_5678), 16, 0);
    again.mutate_input(&corpus);
    assert_eq!(again.input, m.input);
    assert_eq!(again.rng, m.rng);
}

#[test]
fn empty_corpus_always_generates() {
    let corpus = Corpus::new();
    for seed in 1..300u64 {
        let mut m = Mutator::new(Some(seed), 33, 0);
        for _ in 0..20 {
            m.mutate_input(&corpus);
            assert!(m.last_mutation.is_empty());
            assert!(1 <= m.input.len() && m.input.len() <= 33);
        }
    }
}

#[test]
fn pure_bit_flip() {
    let corpus = corpus_from(&[&[0u8; 8]]);
    let mut m = Mutator::new(Some(850), 8, 0);
    m.mutate_input(&corpus);
    assert_eq!(m.last_mutation, vec![MutationTypes::BitFlip]);
    assert_eq!(m.input, vec![0x00, 0x00, 0x00, 0x00, 0x02, 0x00, 0x00, 0x00]);
    assert_eq!(m.rng, 0x3BF8_E840_C0C5_173B);
    let changed: Vec<&u8> = m.input.iter().filter(|b| **b != 0).collect();
    assert_eq!(changed.len(), 1);
    assert_eq!(changed[0].count_ones(), 1);
}

#[test]
fn truncate_floor() {
    let corpus = corpus_from(&[&[0xAA]]);
    for seed in 1..200u64 {
        let mut m = Mutator::new(Some(seed), 1, 0);
        for _ in 0..200 {
            m.mutate_input(&corpus);
            assert_eq!(m.input.len(), 1);
        }
    }
}

#[test]
fn stacked_mutations_exact() {
    let corpus = three_inputs();
    let mut m = Mutator::new(Some(0x1234_5678), 24, 0);
    m.mutate_input(&corpus);
    assert_eq!(m.input, vec![0x7F]);
    assert_eq!(
        m.last_mutation,
        vec![
            MutationTypes::ByteInsert,
            MutationTypes::ByteDelete,
            MutationTypes::Truncate,
            MutationTypes::Truncate
        ]
    );
    assert_eq!(m.rng, 0xF9F6_5FDD_F603_1C8E);

    m.mutate_input(&corpus);
    assert_eq!(
        m.input,
        vec![
            0x8B, 0x15, 0x03, 0x56, 0x6C, 0x7C, 0x9F, 0x1D, 0x9F, 0xF5, 0x5C, 0xF1, 0xB1, 0x12,
            0x79, 0xF6, 0x97, 0xA2, 0x08, 0xE9, 0x38, 0xC0, 0x22, 0x0C
        ]
    );
    assert_eq!(
        m.last_mutation,
        vec![
            MutationTypes::Grow,
            MutationTypes::ByteInsert,
            MutationTypes::ByteDelete,
            MutationTypes::ByteInsert,
            MutationTypes::ByteInsert,
            MutationTypes::Grow
        ]
    );
    assert_eq!(m.rng, 0xECF7_561B_C91A_D23B);

    m.mutate_input(&corpus);
    assert_eq!(m.input, vec![0xAA, 0xBB, 0xAA, 0xBB, 0xCC, 0xDD, 0xCC, 0xDD, 0xEE]);
    assert_eq!(m.last_mutation, vec![MutationTypes::BlockInsert]);
    assert_eq!(m.rng, 0xB8CB_D1D6_DD14_4E30);
}

#[test]
fn stacked_mutations_exact_other_seeds() {
    let corpus = three_inputs();
    let mut m = Mutator::new(Some(0xC0_FFEE), 24, 0);
    m.mutate_input(&corpus);
    assert_eq!(
        m.input,
        vec![
            0x37, 0x06, 0xC8, 0x56, 0x78, 0x11, 0xC6, 0x0D, 0x44, 0x2A, 0xF3, 0x9A, 0x9A, 0x2A,
            0xF3, 0x9A, 0x9A, 0xA8, 0x75, 0x61, 0x72, 0xE2, 0xC7, 0x73
        ]
    );
    assert_eq!(
        m.last_mutation,
        vec![
            MutationTypes::ByteInsert,
            MutationTypes::Truncate,
            MutationTypes::ByteInsert,
            MutationTypes::BlockInsert,
            MutationTypes::BlockOverwrite,
            MutationTypes::BlockOverwrite
        ]
    );
    m.mutate_input(&corpus);
    assert_eq!(m.input, vec![0x2F, 0xD7, 0x83, 0x00, 0x09, 0xC6, 0x1A, 0x0C]);
    assert_eq!(
        m.last_mutation,
        vec![
            MutationTypes::BlockInsert,
            MutationTypes::BlockDelete,
            MutationTypes::BitFlip,
            MutationTypes::ByteOverwrite
        ]
    );
    m.mutate_input(&corpus);
    assert_eq!(m.input, vec![0xAA, 0xBB]);
    assert_eq!(m.last_mutation, vec![MutationTypes::Truncate]);
    assert_eq!(m.rng, 0xF324_1875_D144_1F49);

    let mut n = Mutator::new(Some(99), 24, 0);
    n.mutate_input(&corpus);
    assert_eq!(n.input, vec![0x19]);
    assert_eq!(n.last_mutation.len(), 6);
    assert_eq!(n.rng, 0xE81D_8C83_3B00_6891);
}

#[test]
fn ten_thousand_calls_exact() {
    let corpus = three_inputs();
    let mut m = Mutator::new(Some(0xAB_CDEF), 64, 0);
    let mut digest: u64 = 0;
    for _ in 0..10_000 {
        m.mutate_input(&corpus);
        assert!(1 <= m.input.len() && m.input.len() <= 64);
        assert!(m.last_mutation.len() <= 6);
        let sum: u64 = m.input.iter().map(|b| *b as u64).sum();
        digest = digest
            .wrapping_mul(31)
            .wrapping_add(sum)
            .wrapping_add(m.input.len() as u64)
            .wrapping_add(m.last_mutation.len() as u64);
    }
    assert_eq!(digest, 12486780033658103149);
    assert_eq!(m.rng, 0x007F_6FB1_C0A8_6A2C);
}

#[test]
fn reproducibility() {
    let corpus = three_inputs();
    for seed in [1u64, 0x1234_5678, u64::MAX] {
        let mut a = Mutator::new(Some(seed), 48, 1);
        let mut b = Mutator::new(Some(seed), 48, 2);
        b.memcpy_input(&[9, 9, 9]);
        for _ in 0..10_000 {
            a.mutate_input(&corpus);
            b.mutate_input(&corpus);
            assert_eq!(a.input, b.input);
            assert_eq!(a.last_mutation, b.last_mutation);
            assert_eq!(a.rng, b.rng);
        }
    }
}

#[test]
fn generator_stays_alive_across_calls() {
    let corpus = three_inputs();
    let mut m = Mutator::new(Some(3), 20, 0);
    for _ in 0..5000 {
        m.mutate_input(&corpus);
        assert_ne!(m.rng, 0);
    }
}

#[test]
fn round_records_one_operator() {
    let corpus = three_inputs();
    for seed in 1..500u64 {
        let mut m = Mutator::new(Some(seed), 20, 0);
        m.memcpy_input(&[1, 2, 3, 4, 5]);
        m.round(&corpus);
        assert_eq!(m.last_mutation.len(), 1);
        assert!(1 <= m.input.len() && m.input.len() <= 20);
    }
}
