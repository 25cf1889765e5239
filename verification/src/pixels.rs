//! Low-level pixel primitives.
//!
//! Rasterizers produce pixels in a compact encoding; the transfer engine
//! consumes one byte per pixel. These routines bridge the two: [`unpack_1bpp`]
//! expands a packed one-bit-per-pixel bitmap into wire-format bytes,
//! [`pack_1bpp`] re-encodes such bytes, and [`copy_words`] moves bytes in
//! whole words. To keep the hot path branch-free, each routine rounds a
//! length that is not a multiple of its natural unit down rather than
//! faulting: the trailing remainder is simply not transferred.

use vstd::prelude::*;

verus! {

/// Whether bit `i` of `b` is set, counting from the least significant bit.
/// Bit `i` of source byte `j` encodes pixel `8 * j + i`.
pub open spec fn bit_of(b: u8, i: u8) -> bool {
    (b >> i) & 1u8 == 1u8
}

/// The wire-format byte for pixel `k` of the packed bitmap `src`: `on` where
/// the bit is set, `off` where it is clear.
pub open spec fn unpack_pixel(src: Seq<u8>, k: int, off: u8, on: u8) -> u8 {
    if bit_of(src[k / 8], (k % 8) as u8) {
        on
    } else {
        off
    }
}

/// The full unpacking of `src`: eight wire-format bytes per source byte.
pub open spec fn unpack_spec(src: Seq<u8>, off: u8, on: u8) -> Seq<u8> {
    Seq::new(src.len() * 8, |k: int| unpack_pixel(src, k, off, on))
}

/// The byte that re-encodes the eight pixels `p[base .. base + 8]`, where a
/// pixel counts as set exactly when it equals `on`.
pub open spec fn pack_byte(p: Seq<u8>, base: int, on: u8) -> u8 {
    (if p[base] == on { 1u8 } else { 0u8 })
        | (if p[base + 1] == on { 2u8 } else { 0u8 })
        | (if p[base + 2] == on { 4u8 } else { 0u8 })
        | (if p[base + 3] == on { 8u8 } else { 0u8 })
        | (if p[base + 4] == on { 16u8 } else { 0u8 })
        | (if p[base + 5] == on { 32u8 } else { 0u8 })
        | (if p[base + 6] == on { 64u8 } else { 0u8 })
        | (if p[base + 7] == on { 128u8 } else { 0u8 })
}

/// The full re-encoding of the wire-format bytes `p`: one packed byte per
/// eight pixels, a trailing remainder of fewer than eight dropped.
pub open spec fn pack_spec(p: Seq<u8>, on: u8) -> Seq<u8> {
    Seq::new(p.len() / 8, |j: int| pack_byte(p, 8 * j, on))
}

/// Expands the first `length` pixels of the packed bitmap `src` into `dest`,
/// writing `on` for a set bit and `off` for a clear bit.
///
/// `length` counts pixels and is rounded down to a multiple of eight, the
/// natural unit of the packed encoding; bytes of `dest` past the rounded
/// length keep their old contents.
pub fn unpack_1bpp(src: &Vec<u8>, dest: &mut Vec<u8>, length: usize, off: u8, on: u8)
    requires
        length <= old(dest).len(),
        length as int / 8 <= src.len(),
    ensures
        final(dest).len() == old(dest).len(),
        forall|k: int|
            0 <= k < 8 * (length as int / 8) ==> final(dest)@[k] == unpack_pixel(
                src@,
                k,
                off,
                on,
            ),
        forall|k: int|
            8 * (length as int / 8) <= k < old(dest).len() ==> final(dest)@[k] == old(dest)@[k],
{
    let bytes: usize = length / 8;
    assert(8 * (length as int / 8) <= length as int);
    let mut j: usize = 0;
    while j < bytes
        invariant
            j <= bytes,
            bytes == length as int / 8,
            8 * bytes <= length <= dest.len(),
            bytes <= src.len(),
            dest.len() == old(dest).len(),
            forall|k: int| 0 <= k < 8 * j ==> dest@[k] == unpack_pixel(src@, k, off, on),
            forall|k: int| 8 * j <= k < old(dest).len() ==> dest@[k] == old(dest)@[k],
        decreases bytes - j,
    {
        let b = src[j];
        let base: usize = 8 * j;
        dest[base] = if (b >> 0u8) & 1u8 == 1u8 { on } else { off };
        dest[base + 1] = if (b >> 1u8) & 1u8 == 1u8 { on } else { off };
        dest[base + 2] = if (b >> 2u8) & 1u8 == 1u8 { on } else { off };
        dest[base + 3] = if (b >> 3u8) & 1u8 == 1u8 { on } else { off };
        dest[base + 4] = if (b >> 4u8) & 1u8 == 1u8 { on } else { off };
        dest[base + 5] = if (b >> 5u8) & 1u8 == 1u8 { on } else { off };
        dest[base + 6] = if (b >> 6u8) & 1u8 == 1u8 { on } else { off };
        dest[base + 7] = if (b >> 7u8) & 1u8 == 1u8 { on } else { off };
        proof {
            assert forall|k: int| 0 <= k < 8 * (j + 1) implies dest@[k] == unpack_pixel(
                src@,
                k,
                off,
                on,
            ) by {
                if 8 * j <= k {
                    assert(k / 8 == j && k % 8 == k - 8 * j) by (nonlinear_arith)
                        requires
                            8 * j <= k < 8 * (j + 1),
                    ;
                }
            }
        }
        j = j + 1;
    }
}

/// Re-encodes the first `length` wire-format bytes of `pixels` as a packed
/// one-bit-per-pixel bitmap: a bit is set exactly where the pixel equals
/// `on`.
///
/// `length` counts pixels and is rounded down to a multiple of eight; a
/// trailing remainder of fewer than eight pixels is not encoded.
pub fn pack_1bpp(pixels: &Vec<u8>, length: usize, on: u8) -> (out: Vec<u8>)
    requires
        length <= pixels.len(),
    ensures
        out@ == pack_spec(pixels@.take(length as int), on),
{
    let bytes: usize = length / 8;
    let ghost taken = pixels@.take(length as int);
    assert(taken.len() / 8 == bytes);
    let mut out: Vec<u8> = Vec::new();
    let mut j: usize = 0;
    while j < bytes
        invariant
            j <= bytes,
            bytes == length as int / 8,
            length <= pixels.len(),
            taken == pixels@.take(length as int),
            out@.len() == j,
            forall|i: int| 0 <= i < j ==> out@[i] == pack_byte(taken, 8 * i, on),
        decreases bytes - j,
    {
        let base: usize = 8 * j;
        assert(8 * (j + 1) <= 8 * bytes <= length);
        let b0: u8 = if pixels[base] == on { 1 } else { 0 };
        let b1: u8 = if pixels[base + 1] == on { 2 } else { 0 };
        let b2: u8 = if pixels[base + 2] == on { 4 } else { 0 };
        let b3: u8 = if pixels[base + 3] == on { 8 } else { 0 };
        let b4: u8 = if pixels[base + 4] == on { 16 } else { 0 };
        let b5: u8 = if pixels[base + 5] == on { 32 } else { 0 };
        let b6: u8 = if pixels[base + 6] == on { 64 } else { 0 };
        let b7: u8 = if pixels[base + 7] == on { 128 } else { 0 };
        let byte: u8 = b0 | b1 | b2 | b3 | b4 | b5 | b6 | b7;
        assert(byte == pack_byte(taken, 8 * j as int, on));
        out.push(byte);
        j = j + 1;
    }
    proof {
        assert(out@ =~= pack_spec(taken, on));
    }
    out
}

/// Copies the first `length` bytes of `src` into `dest`, rounded down to a
/// multiple of the word size of four bytes; bytes of `dest` past the rounded
/// length keep their old contents.
pub fn copy_words(src: &Vec<u8>, dest: &mut Vec<u8>, length: usize)
    requires
        4 * (length as int / 4) <= src.len(),
        4 * (length as int / 4) <= old(dest).len(),
    ensures
        final(dest).len() == old(dest).len(),
        forall|k: int| 0 <= k < 4 * (length as int / 4) ==> final(dest)@[k] == src@[k],
        forall|k: int|
            4 * (length as int / 4) <= k < old(dest).len() ==> final(dest)@[k] == old(dest)@[k],
{
    let words: usize = length / 4;
    let mut j: usize = 0;
    while j < words
        invariant
            j <= words,
            words == length as int / 4,
            4 * words <= src.len(),
            4 * words <= dest.len(),
            dest.len() == old(dest).len(),
            forall|k: int| 0 <= k < 4 * j ==> dest@[k] == src@[k],
            forall|k: int| 4 * j <= k < old(dest).len() ==> dest@[k] == old(dest)@[k],
        decreases words - j,
    {
        let base: usize = 4 * j;
        dest[base] = src[base];
        dest[base + 1] = src[base + 1];
        dest[base + 2] = src[base + 2];
        dest[base + 3] = src[base + 3];
        j = j + 1;
    }
}

/// Law: unpacking a packed bitmap into wire-format pixels and re-encoding
/// the result reproduces the original bitmap exactly, for any distinct pair
/// of `off` and `on` bytes.
pub proof fn lemma_unpack_pack_round_trip(src: Seq<u8>, off: u8, on: u8)
    requires
        off != on,
    ensures
        pack_spec(unpack_spec(src, off, on), on) == src,
{
    let up = unpack_spec(src, off, on);
    assert(up.len() == src.len() * 8);
    assert(up.len() / 8 == src.len()) by (nonlinear_arith)
        requires up.len() == src.len() * 8;
    assert forall|j: int| 0 <= j < src.len() implies pack_byte(up, 8 * j, on) == src[j] by {
        let b = src[j];
        assert(0 <= 8 * j && 8 * j + 7 < up.len()) by (nonlinear_arith)
            requires
                0 <= j < src.len(),
                up.len() == src.len() * 8,
        ;
        assert((8 * j + 0) / 8 == j && (8 * j + 0) % 8 == 0 && (8 * j + 1) / 8 == j && (8 * j + 1)
            % 8 == 1 && (8 * j + 2) / 8 == j && (8 * j + 2) % 8 == 2 && (8 * j + 3) / 8 == j && (8
            * j + 3) % 8 == 3 && (8 * j + 4) / 8 == j && (8 * j + 4) % 8 == 4 && (8 * j + 5) / 8
            == j && (8 * j + 5) % 8 == 5 && (8 * j + 6) / 8 == j && (8 * j + 6) % 8 == 6 && (8 * j
            + 7) / 8 == j && (8 * j + 7) % 8 == 7) by (nonlinear_arith)
            requires
                0 <= j,
        ;
        assert(pack_byte(up, 8 * j, on) == ((if bit_of(b, 0) { 1u8 } else { 0u8 })
            | (if bit_of(b, 1) { 2u8 } else { 0u8 })
            | (if bit_of(b, 2) { 4u8 } else { 0u8 })
            | (if bit_of(b, 3) { 8u8 } else { 0u8 })
            | (if bit_of(b, 4) { 16u8 } else { 0u8 })
            | (if bit_of(b, 5) { 32u8 } else { 0u8 })
            | (if bit_of(b, 6) { 64u8 } else { 0u8 })
            | (if bit_of(b, 7) { 128u8 } else { 0u8 })));
        assert(((if (b >> 0u8) & 1u8 == 1u8 { 1u8 } else { 0u8 })
            | (if (b >> 1u8) & 1u8 == 1u8 { 2u8 } else { 0u8 })
            | (if (b >> 2u8) & 1u8 == 1u8 { 4u8 } else { 0u8 })
            | (if (b >> 3u8) & 1u8 == 1u8 { 8u8 } else { 0u8 })
            | (if (b >> 4u8) & 1u8 == 1u8 { 16u8 } else { 0u8 })
            | (if (b >> 5u8) & 1u8 == 1u8 { 32u8 } else { 0u8 })
            | (if (b >> 6u8) & 1u8 == 1u8 { 64u8 } else { 0u8 })
            | (if (b >> 7u8) & 1u8 == 1u8 { 128u8 } else { 0u8 })) == b) by (bit_vector);
    }
    assert(pack_spec(up, on) =~= src);
}

} // verus!
