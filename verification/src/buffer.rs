//! Block moves on a byte buffer: the pieces that the operators are made of.

use vstd::prelude::*;

verus! {

/// `buf` with `block` spliced in before index `at`.
pub open spec fn insert_at(buf: Seq<u8>, at: int, block: Seq<u8>) -> Seq<u8> {
    buf.subrange(0, at) + block + buf.subrange(at, buf.len() as int)
}

/// `buf` with the bytes from index `at` on replaced by `block`.
pub open spec fn overwrite_at(buf: Seq<u8>, at: int, block: Seq<u8>) -> Seq<u8> {
    buf.subrange(0, at) + block + buf.subrange(at + block.len(), buf.len() as int)
}

/// `buf` without the `n` bytes from index `at` on.
pub open spec fn remove_at(buf: Seq<u8>, at: int, n: int) -> Seq<u8> {
    buf.subrange(0, at) + buf.subrange(at + n, buf.len() as int)
}

/// The smaller of two integers.
pub open spec fn least(a: int, b: int) -> int {
    if a < b {
        a
    } else {
        b
    }
}

/// The smaller of two sizes.
pub fn smaller(a: usize, b: usize) -> (r: usize)
    ensures
        r == least(a as int, b as int),
{
    if a < b {
        a
    } else {
        b
    }
}

/// Copies `n` bytes of `buf`, from index `at` on, into a buffer of their own.
pub fn copy_block(buf: &Vec<u8>, at: usize, n: usize) -> (block: Vec<u8>)
    requires
        at + n <= buf@.len(),
    ensures
        block@ == buf@.subrange(at as int, at + n),
{
    let len: usize = buf.len();
    let mut block: Vec<u8> = Vec::with_capacity(n);
    let mut k: usize = 0;
    while k < n
        invariant
            k <= n,
            at + n <= buf@.len(),
            buf@.len() == len,
            block@ == buf@.subrange(at as int, at + k),
        decreases n - k,
    {
        block.push(buf[at + k]);
        k += 1;
        assert(block@ =~= buf@.subrange(at as int, at + k));
    }
    block
}

/// Replaces the contents of `buf` by a copy of `bytes`.
pub fn refill(buf: &mut Vec<u8>, bytes: &[u8])
    ensures
        final(buf)@ == bytes@,
{
    buf.clear();
    buf.extend_from_slice(bytes);
    assert(buf@ =~= bytes@);
}

/// Inserts `block` into `buf` before index `at`, keeping its order.
pub fn insert_block(buf: &mut Vec<u8>, at: usize, block: &[u8])
    requires
        at <= old(buf)@.len(),
        old(buf)@.len() + block@.len() <= usize::MAX,
    ensures
        final(buf)@ == insert_at(old(buf)@, at as int, block@),
        final(buf)@.len() == old(buf)@.len() + block@.len(),
{
    let ghost before = buf@;
    let mut k: usize = 0;
    while k < block.len()
        invariant
            k <= block@.len(),
            at <= before.len(),
            before.len() + block@.len() <= usize::MAX,
            buf@ == insert_at(before, at as int, block@.subrange(0, k as int)),
        decreases block@.len() - k,
    {
        buf.insert(at + k, block[k]);
        k += 1;
        assert(buf@ =~= insert_at(before, at as int, block@.subrange(0, k as int)));
    }
    assert(block@.subrange(0, k as int) =~= block@);
}

/// Overwrites the bytes of `buf` from index `at` on with `block`.
pub fn overwrite_block(buf: &mut Vec<u8>, at: usize, block: &[u8])
    requires
        at + block@.len() <= old(buf)@.len(),
    ensures
        final(buf)@ == overwrite_at(old(buf)@, at as int, block@),
        final(buf)@.len() == old(buf)@.len(),
{
    let ghost before = buf@;
    let len: usize = buf.len();
    let mut k: usize = 0;
    while k < block.len()
        invariant
            k <= block@.len(),
            at + block@.len() <= before.len(),
            before.len() == len,
            buf@ == overwrite_at(before, at as int, block@.subrange(0, k as int)),
        decreases block@.len() - k,
    {
        buf[at + k] = block[k];
        k += 1;
        assert(buf@ =~= overwrite_at(before, at as int, block@.subrange(0, k as int)));
    }
    assert(block@.subrange(0, k as int) =~= block@);
}

/// Removes `n` bytes of `buf` from index `at` on: the tail moves down and the
/// buffer is cut to its new length.
pub fn remove_block(buf: &mut Vec<u8>, at: usize, n: usize)
    requires
        at + n <= old(buf)@.len(),
    ensures
        final(buf)@ == remove_at(old(buf)@, at as int, n as int),
        final(buf)@.len() == old(buf)@.len() - n,
{
    let ghost before = buf@;
    let len: usize = buf.len();
    let mut k: usize = at;
    while k + n < len
        invariant
            at <= k,
            at + n <= len,
            k + n <= len,
            len == before.len(),
            buf@.len() == len,
            forall|j: int| 0 <= j < at ==> buf@[j] == before[j],
            forall|j: int| at <= j < k ==> buf@[j] == before[j + n],
            forall|j: int| k + n <= j < len ==> buf@[j] == before[j],
        decreases len - k,
    {
        let b: u8 = buf[k + n];
        buf[k] = b;
        k += 1;
    }
    buf.truncate(len - n);
    assert(buf@ =~= remove_at(before, at as int, n as int));
}

} // verus!
