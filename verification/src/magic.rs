//! The catalogue of interesting integers, and the transformer that derives a
//! short byte sequence from one of them.

use vstd::prelude::*;
use crate::mutator::Mutator;
use crate::rng::{pick, xorshift};

verus! {

/// Number of entries in the catalogue.
pub const MAGIC_COUNT: usize = 35;

/// Number of value transforms.
pub const TRANSFORM_COUNT: usize = 14;

/// Number of byte slices that can be cut from a value.
pub const SLICE_COUNT: usize = 15;

/// The catalogue: zero, the unsigned and signed extremes of each width, the
/// top bit of each width and its complement, and the powers of two from 2
/// through 16384.
pub open spec fn magic_at(i: int) -> u64 {
    if i == 0 {
        0
    } else if i == 1 {
        0xFFFF_FFFF_FFFF_FFFF
    } else if i == 2 {
        0xFFFF_FFFF
    } else if i == 3 {
        0xFFFF
    } else if i == 4 {
        0xFF
    } else if i == 5 || i == 17 {
        0x7FFF_FFFF_FFFF_FFFF
    } else if i == 6 || i == 18 {
        0x7FFF_FFFF
    } else if i == 7 || i == 19 {
        0x7FFF
    } else if i == 8 || i == 20 {
        0x7F
    } else if i == 9 || i == 13 {
        0x8000_0000_0000_0000
    } else if i == 10 {
        0xFFFF_FFFF_8000_0000
    } else if i == 11 {
        0xFFFF_FFFF_FFFF_8000
    } else if i == 12 {
        0xFFFF_FFFF_FFFF_FF80
    } else if i == 14 {
        0x8000_0000
    } else if i == 15 {
        0x8000
    } else if i == 16 {
        0x80
    } else if 21 <= i < 35 {
        1u64 << ((i - 20) as u64)
    } else {
        0
    }
}

/// Byte `k` of `v`, counted from the least significant.
pub open spec fn byte_of(v: u64, k: int) -> u8 {
    ((v >> ((8 * k) as u64)) & 0xff) as u8
}

/// The eight bytes of `v`, least significant first.
pub open spec fn le_bytes(v: u64) -> Seq<u8> {
    Seq::new(8, |k: int| byte_of(v, k))
}

/// `m` rotated left by eight bits.
pub open spec fn rotl8(m: u64) -> u64 {
    (m << 8) | (m >> 56)
}

/// `m` rotated right by eight bits.
pub open spec fn rotr8(m: u64) -> u64 {
    (m >> 8) | (m << 56)
}

/// `m` with the order of its eight bytes reversed.
pub open spec fn swap8(m: u64) -> u64 {
    ((m & 0xff) << 56) | ((m & 0xff00) << 40) | ((m & 0xff_0000) << 24) | ((m & 0xff00_0000) << 8)
        | ((m >> 8) & 0xff00_0000) | ((m >> 24) & 0xff_0000) | ((m >> 40) & 0xff00) | ((m >> 56)
        & 0xff)
}

/// `m` minus one, wrapping at zero.
pub open spec fn wrapping_dec(m: u64) -> u64 {
    if m == 0 {
        0xFFFF_FFFF_FFFF_FFFF
    } else {
        (m - 1) as u64
    }
}

/// `m` plus one, wrapping at the maximum.
pub open spec fn wrapping_inc(m: u64) -> u64 {
    if m == 0xFFFF_FFFF_FFFF_FFFF {
        0
    } else {
        (m + 1) as u64
    }
}

/// The transform of index `kind` applied to `m`, for the thirteen transforms
/// that draw nothing.
pub open spec fn transform(m: u64, kind: int) -> u64 {
    if kind == 1 {
        m & 0xFF
    } else if kind == 2 {
        m & 0xFFFF
    } else if kind == 3 {
        m & 0xFFFF_FFFF
    } else if kind == 4 {
        wrapping_dec(m)
    } else if kind == 5 {
        wrapping_inc(m)
    } else if kind == 6 {
        !m
    } else if kind == 7 {
        m << 1
    } else if kind == 8 {
        m >> 1
    } else if kind == 9 {
        rotl8(m)
    } else if kind == 10 {
        rotr8(m)
    } else if kind == 11 {
        m ^ 0xFFFF_FFFF
    } else if kind == 12 {
        swap8(m)
    } else {
        m
    }
}

/// `m` with bit `bit` toggled.
pub open spec fn toggle(m: u64, bit: int) -> u64 {
    m ^ (1u64 << (bit as u64))
}

/// First byte of the slice of index `which`.
pub open spec fn slice_lo(which: int) -> int {
    if which == 0 || which == 1 || which == 3 {
        0
    } else if which == 2 || which == 5 {
        4
    } else if which == 4 {
        2
    } else if which == 6 {
        6
    } else {
        which - 7
    }
}

/// Length of the slice of index `which`: the whole value, a half, a quarter
/// or a single byte.
pub open spec fn slice_len(which: int) -> int {
    if which == 0 {
        8
    } else if which <= 2 {
        4
    } else if which <= 6 {
        2
    } else {
        1
    }
}

/// The slice of index `which` of the bytes of `v`.
pub open spec fn slice_of(v: u64, which: int) -> Seq<u8> {
    le_bytes(v).subrange(slice_lo(which), slice_lo(which) + slice_len(which))
}

/// What the transformer makes of `m` from generator state `rng`: the state it
/// leaves and the bytes it returns. It draws a transform, for the bit toggle
/// a bit position, and then a slice.
pub open spec fn mutate_magic_model(rng: u64, m: u64) -> (u64, Seq<u8>) {
    let kind = pick(rng, 14);
    let r1 = xorshift(rng);
    let v = if kind == 13 {
        toggle(m, pick(r1, 64))
    } else {
        transform(m, kind)
    };
    let r2 = if kind == 13 {
        xorshift(r1)
    } else {
        r1
    };
    (xorshift(r2), slice_of(v, pick(r2, 15)))
}

/// What drawing a magic byte sequence from state `rng` gives: a catalogue
/// entry, then on an even draw its transformed bytes, on an odd one its
/// eight bytes as they are.
pub open spec fn magic_bytes_model(rng: u64) -> (u64, Seq<u8>) {
    let m = magic_at(pick(rng, 35));
    let r1 = xorshift(rng);
    let r2 = xorshift(r1);
    if pick(r1, 2) == 0 {
        mutate_magic_model(r2, m)
    } else {
        (r2, le_bytes(m))
    }
}

/// The catalogue entry of index `i`.
pub fn magic_number(i: usize) -> (m: u64)
    requires
        i < MAGIC_COUNT,
    ensures
        m == magic_at(i as int),
{
    if i == 0 {
        0
    } else if i == 1 {
        0xFFFF_FFFF_FFFF_FFFF
    } else if i == 2 {
        0xFFFF_FFFF
    } else if i == 3 {
        0xFFFF
    } else if i == 4 {
        0xFF
    } else if i == 5 || i == 17 {
        0x7FFF_FFFF_FFFF_FFFF
    } else if i == 6 || i == 18 {
        0x7FFF_FFFF
    } else if i == 7 || i == 19 {
        0x7FFF
    } else if i == 8 || i == 20 {
        0x7F
    } else if i == 9 || i == 13 {
        0x8000_0000_0000_0000
    } else if i == 10 {
        0xFFFF_FFFF_8000_0000
    } else if i == 11 {
        0xFFFF_FFFF_FFFF_8000
    } else if i == 12 {
        0xFFFF_FFFF_FFFF_FF80
    } else if i == 14 {
        0x8000_0000
    } else if i == 15 {
        0x8000
    } else if i == 16 {
        0x80
    } else {
        1u64 << ((i - 20) as u64)
    }
}

/// Applies one of the thirteen transforms that draw nothing.
pub fn apply_transform(m: u64, kind: usize) -> (r: u64)
    requires
        kind < 13,
    ensures
        r == transform(m, kind as int),
{
    if kind == 1 {
        m & 0xFF
    } else if kind == 2 {
        m & 0xFFFF
    } else if kind == 3 {
        m & 0xFFFF_FFFF
    } else if kind == 4 {
        if m == 0 {
            0xFFFF_FFFF_FFFF_FFFF
        } else {
            m - 1
        }
    } else if kind == 5 {
        if m == 0xFFFF_FFFF_FFFF_FFFF {
            0
        } else {
            m + 1
        }
    } else if kind == 6 {
        !m
    } else if kind == 7 {
        m << 1
    } else if kind == 8 {
        m >> 1
    } else if kind == 9 {
        (m << 8) | (m >> 56)
    } else if kind == 10 {
        (m >> 8) | (m << 56)
    } else if kind == 11 {
        m ^ 0xFFFF_FFFF
    } else if kind == 12 {
        ((m & 0xff) << 56) | ((m & 0xff00) << 40) | ((m & 0xff_0000) << 24) | ((m & 0xff00_0000)
            << 8) | ((m >> 8) & 0xff00_0000) | ((m >> 24) & 0xff_0000) | ((m >> 40) & 0xff00) | ((m
            >> 56) & 0xff)
    } else {
        m
    }
}

/// Toggles one bit of `m`.
pub fn toggle_bit(m: u64, bit: usize) -> (r: u64)
    requires
        bit < 64,
    ensures
        r == toggle(m, bit as int),
{
    m ^ (1u64 << (bit as u64))
}

/// The bytes `lo .. lo + len` of `v`, least significant first.
pub fn bytes_between(v: u64, lo: usize, len: usize) -> (r: Vec<u8>)
    requires
        lo + len <= 8,
    ensures
        r@ == le_bytes(v).subrange(lo as int, lo + len),
{
    let mut out: Vec<u8> = Vec::with_capacity(len);
    let mut k: usize = 0;
    while k < len
        invariant
            k <= len,
            lo + len <= 8,
            out@ == le_bytes(v).subrange(lo as int, lo + k),
        decreases len - k,
    {
        let b: u8 = ((v >> ((8 * (lo + k)) as u64)) & 0xff) as u8;
        out.push(b);
        k += 1;
        assert(out@ =~= le_bytes(v).subrange(lo as int, lo + k));
    }
    out
}

/// Cuts the slice of index `which` from the bytes of `v`.
pub fn slice_bytes(v: u64, which: usize) -> (r: Vec<u8>)
    requires
        which < SLICE_COUNT,
    ensures
        r@ == slice_of(v, which as int),
        r@.len() == 1 || r@.len() == 2 || r@.len() == 4 || r@.len() == 8,
{
    if which == 0 {
        bytes_between(v, 0, 8)
    } else if which == 1 {
        bytes_between(v, 0, 4)
    } else if which == 2 {
        bytes_between(v, 4, 4)
    } else if which == 3 {
        bytes_between(v, 0, 2)
    } else if which == 4 {
        bytes_between(v, 2, 2)
    } else if which == 5 {
        bytes_between(v, 4, 2)
    } else if which == 6 {
        bytes_between(v, 6, 2)
    } else {
        bytes_between(v, which - 7, 1)
    }
}

/// Reversing the byte order sends byte `k` to place `7 - k`.
pub proof fn lemma_swap8_reverses_bytes(m: u64)
    ensures
        forall|k: int| 0 <= k < 8 ==> #[trigger] byte_of(swap8(m), k) == byte_of(m, 7 - k),
        le_bytes(swap8(m)) == le_bytes(m).reverse(),
{
    let s = swap8(m);
    assert(((s >> 0u64) & 0xff) == ((m >> 56u64) & 0xff) && ((s >> 8u64) & 0xff) == ((m >> 48u64)
        & 0xff) && ((s >> 16u64) & 0xff) == ((m >> 40u64) & 0xff) && ((s >> 24u64) & 0xff) == ((m
        >> 32u64) & 0xff) && ((s >> 32u64) & 0xff) == ((m >> 24u64) & 0xff) && ((s >> 40u64)
        & 0xff) == ((m >> 16u64) & 0xff) && ((s >> 48u64) & 0xff) == ((m >> 8u64) & 0xff) && ((s
        >> 56u64) & 0xff) == ((m >> 0u64) & 0xff)) by (bit_vector)
        requires
            s == swap8(m),
    ;
    assert forall|k: int| 0 <= k < 8 implies #[trigger] byte_of(s, k) == byte_of(m, 7 - k) by {
        if k == 0 {
        } else if k == 1 {
        } else if k == 2 {
        } else if k == 3 {
        } else if k == 4 {
        } else if k == 5 {
        } else if k == 6 {
        } else {
        }
    }
    assert(le_bytes(s) =~= le_bytes(m).reverse());
}

/// Rotating left by eight bits moves every byte one place up, the top byte
/// to the bottom; rotating right moves every byte one place down.
pub proof fn lemma_rotations_move_bytes(m: u64)
    ensures
        forall|k: int| 0 <= k < 8 ==> #[trigger] byte_of(rotl8(m), k) == byte_of(m, (k + 7) % 8),
        forall|k: int| 0 <= k < 8 ==> #[trigger] byte_of(rotr8(m), k) == byte_of(m, (k + 1) % 8),
{
    let l = rotl8(m);
    let r = rotr8(m);
    assert(((l >> 0u64) & 0xff) == ((m >> 56u64) & 0xff) && ((l >> 8u64) & 0xff) == ((m >> 0u64)
        & 0xff) && ((l >> 16u64) & 0xff) == ((m >> 8u64) & 0xff) && ((l >> 24u64) & 0xff) == ((m
        >> 16u64) & 0xff) && ((l >> 32u64) & 0xff) == ((m >> 24u64) & 0xff) && ((l >> 40u64)
        & 0xff) == ((m >> 32u64) & 0xff) && ((l >> 48u64) & 0xff) == ((m >> 40u64) & 0xff) && ((l
        >> 56u64) & 0xff) == ((m >> 48u64) & 0xff)) by (bit_vector)
        requires
            l == rotl8(m),
    ;
    assert(((r >> 0u64) & 0xff) == ((m >> 8u64) & 0xff) && ((r >> 8u64) & 0xff) == ((m >> 16u64)
        & 0xff) && ((r >> 16u64) & 0xff) == ((m >> 24u64) & 0xff) && ((r >> 24u64) & 0xff) == ((m
        >> 32u64) & 0xff) && ((r >> 32u64) & 0xff) == ((m >> 40u64) & 0xff) && ((r >> 40u64)
        & 0xff) == ((m >> 48u64) & 0xff) && ((r >> 48u64) & 0xff) == ((m >> 56u64) & 0xff) && ((r
        >> 56u64) & 0xff) == ((m >> 0u64) & 0xff)) by (bit_vector)
        requires
            r == rotr8(m),
    ;
    assert forall|k: int| 0 <= k < 8 implies #[trigger] byte_of(l, k) == byte_of(m, (k + 7) % 8) by {
        if k == 0 {
        } else if k == 1 {
        } else if k == 2 {
        } else if k == 3 {
        } else if k == 4 {
        } else if k == 5 {
        } else if k == 6 {
        } else {
        }
    }
    assert forall|k: int| 0 <= k < 8 implies #[trigger] byte_of(r, k) == byte_of(m, (k + 1) % 8) by {
        if k == 0 {
        } else if k == 1 {
        } else if k == 2 {
        } else if k == 3 {
        } else if k == 4 {
        } else if k == 5 {
        } else if k == 6 {
        } else {
        }
    }
}

/// Every slice that the transformer can return is one, two, four or eight
/// bytes long.
pub proof fn lemma_magic_width(rng: u64, m: u64)
    ensures
        ({
            let n = mutate_magic_model(rng, m).1.len();
            n == 1 || n == 2 || n == 4 || n == 8
        }),
        ({
            let n = magic_bytes_model(rng).1.len();
            n == 1 || n == 2 || n == 4 || n == 8
        }),
{
}

impl Mutator {
    /// Derives a short byte sequence from `magic`: one drawn transform of the
    /// value, then one drawn slice of its bytes.
    pub fn mutate_magic(&mut self, magic: u64) -> (r: Vec<u8>)
        ensures
            (final(self).rng, r@) == mutate_magic_model(old(self).rng, magic),
            r@.len() == 1 || r@.len() == 2 || r@.len() == 4 || r@.len() == 8,
            final(self).input == old(self).input,
            final(self).follows(old(self)),
    {
        let kind: usize = self.below(TRANSFORM_COUNT);
        let v: u64 = if kind == 13 {
            let bit: usize = self.below(64);
            toggle_bit(magic, bit)
        } else {
            apply_transform(magic, kind)
        };
        let which: usize = self.below(SLICE_COUNT);
        slice_bytes(v, which)
    }

    /// Draws a catalogue entry and returns its bytes, transformed on an even
    /// draw and whole otherwise.
    pub fn magic_bytes(&mut self) -> (r: Vec<u8>)
        ensures
            (final(self).rng, r@) == magic_bytes_model(old(self).rng),
            r@.len() == 1 || r@.len() == 2 || r@.len() == 4 || r@.len() == 8,
            final(self).input == old(self).input,
            final(self).follows(old(self)),
    {
        let i: usize = self.below(MAGIC_COUNT);
        let magic: u64 = magic_number(i);
        let coin: usize = self.below(2);
        if coin == 0 {
            self.mutate_magic(magic)
        } else {
            bytes_between(magic, 0, 8)
        }
    }
}

} // verus!
