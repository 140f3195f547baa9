use vstd::prelude::*;

verus! {

/// Masks, right shifts and complements of a byte, in arithmetic terms.
pub proof fn lemma_byte_bits()
    by (bit_vector)
    ensures
        forall|v: u8| #[trigger] (v & 0x80) != 0 <==> v >= 0x80,
        forall|v: u8| #[trigger] (v & 1) == v % 2,
        forall|v: u8| #[trigger] (v & 3) == v % 4,
        forall|v: u8| #[trigger] (v & 7) == v % 8,
        forall|v: u8| #[trigger] (v & 0x0F) == v % 16,
        forall|v: u8| #[trigger] (v & 0x1F) == v % 32,
        forall|v: u8| #[trigger] (v & 0x3F) == v % 64,
        forall|v: u8| #[trigger] (v & 0x7F) == v % 128,
        forall|v: u8| #[trigger] (v & 0x08) != 0 <==> (v / 8) % 2 == 1,
        forall|v: u8| #[trigger] (v & 0x10) != 0 <==> (v / 16) % 2 == 1,
        forall|v: u8| #[trigger] (v & 0x20) != 0 <==> (v / 32) % 2 == 1,
        forall|v: u8| #[trigger] (v >> 1u8) == v / 2,
        forall|v: u8| #[trigger] (v >> 2u8) == v / 4,
        forall|v: u8| #[trigger] (v >> 0u8) == v,
        forall|v: u8| #[trigger] (v >> 3u8) == v / 8,
        forall|v: u8| #[trigger] (v >> 4u8) == v / 16,
        forall|v: u8| #[trigger] (v >> 6u8) == v / 64,
        forall|v: u8| #[trigger] (v >> 7u8) == v / 128,
        forall|v: u8| #[trigger] (v ^ 0xFF) == 255 - v,
        forall|v: u8, c: u8| c < 2 ==> #[trigger] ((v >> 1u8) | (c << 7u8)) == v / 2 + c * 128,
        forall|v: u8, n: u8| n < 8 ==> #[trigger] ((v >> n) & 1) <= 1,
{
}

/// A left shift by one doubles a byte, dropping the carry out.
pub proof fn lemma_byte_shl()
    by (bit_vector)
    ensures
        forall|v: u8| #[trigger] (v << 1u8) == (v * 2) % 256,
{
}

/// A left rotate through carry: the carry in becomes bit 0.
pub proof fn lemma_byte_rol()
    by (bit_vector)
    ensures
        forall|v: u8, c: u8| c < 2 ==> #[trigger] ((v << 1u8) | c) == (v * 2 + c) % 256,
{
}

/// Masks and shifts of a 16-bit word, in arithmetic terms.
pub proof fn lemma_word_bits()
    by (bit_vector)
    ensures
        forall|w: u16| #[trigger] (w >> 8u16) == w / 256,
        forall|w: u16| #[trigger] (w & 7) == w % 8,
        forall|w: u16| #[trigger] (w & 0xFF) == w % 256,
        forall|w: u16| #[trigger] (w & 0xFF00) == w - w % 256,
        forall|w: u16| #[trigger] (w & 0x07FF) == w % 0x800,
        forall|w: u16| #[trigger] (w & 0x0FFF) == w % 0x1000,
        forall|w: u16| #[trigger] (w & 0x1FFF) == w % 0x2000,
        forall|w: u16| #[trigger] (w & 0x3FFF) == w % 0x4000,
        forall|lo: u16, hi: u16|
            lo < 256 && hi < 256 ==> #[trigger] ((hi << 8u16) | lo) == hi * 256 + lo,
        forall|w: u16, v: u8| #[trigger] ((w & 0xFF00) | (v as u16)) == w - w % 256 + (v as u16),
        forall|w: u16, v: u8| #[trigger] ((w & 0x00FF) | ((v as u16) << 8u16)) == w % 256 + (v as u16) * 256,
        forall|w: u16, v: u8|
            #[trigger] ((w & 0x00FF) | (((v as u16) & 7) << 8u16)) == w % 256 + ((v as u16) % 8) * 256,
        forall|v: u8| #[trigger] (0x0100u16 | (v as u16)) == 0x0100 + (v as u16),
{
}

} // verus!
