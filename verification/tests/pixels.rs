//! Pixel primitives: exact expansion, round trips and defined truncation.

use m4vga::pixels::{copy_words, pack_1bpp, unpack_1bpp};

#[test]
fn unpack_expands_bits_lsb_first() {
    let src = vec![0b1010_0101u8];
    let mut dest = vec![0xEEu8; 8];
    unpack_1bpp(&src, &mut dest, 8, 0, 7);
    assert_eq!(dest, vec![7, 0, 7, 0, 0, 7, 0, 7]);
}

#[test]
fn unpack_pack_round_trip_reproduces_bitmap() {
    let src = vec![0b1010_0101u8, 0xFF, 0x00, 0x3C, 0x81];
    let mut pixels = vec![0u8; 40];
    unpack_1bpp(&src, &mut pixels, 40, 0x10, 0xEF);
    let packed = pack_1bpp(&pixels, 40, 0xEF);
    assert_eq!(packed, src);
}

#[test]
fn unpack_truncates_partial_byte() {
    let src = vec![0xFFu8, 0xFF, 0xFF];
    let mut dest = vec![9u8; 24];
    // 20 pixels rounds down to 16: the last byte of source is not used and
    // the tail of the destination keeps its old contents.
    unpack_1bpp(&src, &mut dest, 20, 0, 1);
    assert_eq!(&dest[0..16], &[1u8; 16]);
    assert_eq!(&dest[16..24], &[9u8; 8]);
}

#[test]
fn pack_truncates_partial_byte() {
    let pixels = vec![1u8; 15];
    // 15 pixels rounds down to one whole byte of output.
    let packed = pack_1bpp(&pixels, 15, 1);
    assert_eq!(packed, vec![0xFF]);
}

#[test]
fn copy_words_zero_length_copies_nothing() {
    let src = vec![1u8, 2, 3, 4];
    let mut dest = vec![0u8; 4];
    copy_words(&src, &mut dest, 0);
    assert_eq!(dest, vec![0u8; 4]);
}

#[test]
fn copy_words_whole_buffer_is_byte_identical() {
    let src: Vec<u8> = (0..32).collect();
    let mut dest = vec![0u8; 32];
    copy_words(&src, &mut dest, 32);
    assert_eq!(dest, src);
}

#[test]
fn copy_words_truncates_non_multiple_length() {
    let src: Vec<u8> = (10..26).collect();
    let mut dest = vec![0u8; 16];
    // 10 bytes rounds down to two whole words: eight bytes move, the rest
    // of the destination keeps its old contents.
    copy_words(&src, &mut dest, 10);
    assert_eq!(&dest[0..8], &src[0..8]);
    assert_eq!(&dest[8..16], &[0u8; 8]);
}
