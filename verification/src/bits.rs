use vstd::prelude::*;

verus! {

/// The little-endian word made of four bytes, lowest address first.
pub open spec fn le_word(b0: u8, b1: u8, b2: u8, b3: u8) -> u32 {
    (b0 as u32) | ((b1 as u32) << 8) | ((b2 as u32) << 16) | ((b3 as u32) << 24)
}

/// Byte `lane` (0 is the lowest address) of a word stored little-endian.
pub open spec fn le_byte(word: u32, lane: u32) -> u8 {
    ((word >> (8 * lane) as u32) & 0xFF) as u8
}

/// The little-endian half-word made of two bytes, lowest address first.
pub open spec fn le_half(b0: u8, b1: u8) -> u16 {
    (b0 as u16) | ((b1 as u16) << 8)
}

/// `value` rotated right by `amount` bit positions, `amount` taken modulo 32.
pub open spec fn rotr32(value: u32, amount: u32) -> u32 {
    if amount % 32 == 0 {
        value
    } else {
        (value >> (amount % 32)) | (value << ((32 - amount % 32) as u32))
    }
}

/// Masking never yields more than the mask.
pub proof fn lemma_mask_bound(x: u32, mask: u32)
    by (bit_vector)
    ensures
        (x & mask) <= mask,
{
}

/// Splitting a word into its four lanes and joining them again is the identity,
/// and each lane of a joined word is the byte it was made from.
pub proof fn lemma_le_roundtrip()
    by (bit_vector)
    ensures
        forall|w: u32| #[trigger]
            le_word(le_byte(w, 0), le_byte(w, 1), le_byte(w, 2), le_byte(w, 3)) == w,
        forall|b0: u8, b1: u8, b2: u8, b3: u8|
            #![trigger le_word(b0, b1, b2, b3)]
            le_byte(le_word(b0, b1, b2, b3), 0) == b0 && le_byte(le_word(b0, b1, b2, b3), 1) == b1
                && le_byte(le_word(b0, b1, b2, b3), 2) == b2 && le_byte(le_word(b0, b1, b2, b3), 3)
                == b3,
{
}

pub fn make_le_word(b0: u8, b1: u8, b2: u8, b3: u8) -> (word: u32)
    ensures
        word == le_word(b0, b1, b2, b3),
{
    (b0 as u32) | ((b1 as u32) << 8) | ((b2 as u32) << 16) | ((b3 as u32) << 24)
}

pub fn take_le_byte(word: u32, lane: u32) -> (byte: u8)
    requires
        lane < 4,
    ensures
        byte == le_byte(word, lane),
{
    proof {
        lemma_mask_bound(word >> (8 * lane) as u32, 0xFF);
    }
    ((word >> (8 * lane)) & 0xFF) as u8
}

pub fn make_le_half(b0: u8, b1: u8) -> (half: u16)
    ensures
        half == le_half(b0, b1),
{
    (b0 as u16) | ((b1 as u16) << 8)
}

/// The bit field of `word` that starts at bit `shift` and is selected by `mask`.
pub open spec fn field(word: u32, shift: u32, mask: u32) -> u32 {
    (word >> shift) & mask
}

pub fn take_field(word: u32, shift: u32, mask: u32) -> (value: u32)
    requires
        shift < 32,
    ensures
        value == field(word, shift, mask),
        value <= mask,
{
    proof {
        lemma_mask_bound(word >> shift, mask);
    }
    (word >> shift) & mask
}

pub fn rotate_right32(value: u32, amount: u32) -> (rotated: u32)
    ensures
        rotated == rotr32(value, amount),
{
    let n: u32 = amount % 32;
    if n == 0 {
        value
    } else {
        (value >> n) | (value << (32 - n))
    }
}

} // verus!
