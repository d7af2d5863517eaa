use vstd::prelude::*;
use vstd::utf8::{decode_utf8, valid_utf8};
use crate::bits::{le_word, make_le_word};

verus! {

/// What `String::from_utf8_lossy` makes of bytes: the text they encode, with
/// the replacement character in place of each ill-formed sequence.
pub uninterp spec fn utf8_lossy(bytes: Seq<u8>) -> Seq<char>;

/// The text that bytes are decoded to leniently: the text that they encode where
/// they are well-formed UTF-8, and else what `String::from_utf8_lossy` makes of
/// them.
pub open spec fn lenient_text(bytes: Seq<u8>) -> Seq<char> {
    if valid_utf8(bytes) {
        decode_utf8(bytes)
    } else {
        utf8_lossy(bytes)
    }
}

/// Whether a character has the Unicode property White_Space: the controls from
/// tab to carriage return, the space, next line, the no-break space, the ogham
/// space mark, the spaces from en quad to hair space, the line and the paragraph
/// separator, the narrow no-break space, the medium mathematical space and the
/// ideographic space.
pub open spec fn is_white_space(c: char) -> bool {
    let code = c as u32;
    (0x09 <= code <= 0x0D) || code == 0x20 || code == 0x85 || code == 0xA0 || code == 0x1680 || (
    0x2000 <= code <= 0x200A) || code == 0x2028 || code == 0x2029 || code == 0x202F || code
        == 0x205F || code == 0x3000
}

/// A text without its leading white space.
pub open spec fn trimmed_start(text: Seq<char>) -> Seq<char>
    decreases text.len(),
{
    if text.len() > 0 && is_white_space(text[0]) {
        trimmed_start(text.drop_first())
    } else {
        text
    }
}

/// A text without its trailing white space.
pub open spec fn trimmed_end(text: Seq<char>) -> Seq<char>
    decreases text.len(),
{
    if text.len() > 0 && is_white_space(text.last()) {
        trimmed_end(text.drop_last())
    } else {
        text
    }
}

/// A text without its leading and trailing white space.
pub open spec fn trimmed_text(text: Seq<char>) -> Seq<char> {
    trimmed_end(trimmed_start(text))
}

/// Decodes bytes with `String::from_utf8_lossy` of the standard library. The
/// result depends on the bytes alone, and well-formed UTF-8 is decoded to the
/// text it encodes.
#[verifier::external_body]
pub(crate) fn lossy_string(bytes: &Vec<u8>) -> (text: String)
    ensures
        text@ == utf8_lossy(bytes@),
        valid_utf8(bytes@) ==> text@ == decode_utf8(bytes@),
{
    String::from_utf8_lossy(bytes).into_owned()
}

/// Decodes bytes leniently.
pub(crate) fn decode_lenient(bytes: &Vec<u8>) -> (text: String)
    ensures
        text@ == lenient_text(bytes@),
{
    lossy_string(bytes)
}

/// Trims a text with `str::trim` of the standard library, which removes the
/// leading and the trailing characters that have the Unicode property
/// White_Space.
#[verifier::external_body]
pub(crate) fn trim_text(text: &str) -> (trimmed: String)
    ensures
        trimmed@ == trimmed_text(text@),
{
    text.trim().to_string()
}

/// The little-endian word that starts at `offset`.
pub open spec fn le_word_at(bytes: Seq<u8>, offset: int) -> u32 {
    le_word(bytes[offset], bytes[offset + 1], bytes[offset + 2], bytes[offset + 3])
}

/// The little-endian half-word that starts at `offset`.
pub open spec fn le_half_at(bytes: Seq<u8>, offset: int) -> u16 {
    crate::bits::le_half(bytes[offset], bytes[offset + 1])
}

pub fn read_u32_le(bytes: &[u8], offset: usize) -> (word: u32)
    requires
        offset + 4 <= bytes@.len(),
    ensures
        word == le_word_at(bytes@, offset as int),
{
    make_le_word(bytes[offset], bytes[offset + 1], bytes[offset + 2], bytes[offset + 3])
}

pub fn read_u16_le(bytes: &[u8], offset: usize) -> (half: u16)
    requires
        offset + 2 <= bytes@.len(),
    ensures
        half == le_half_at(bytes@, offset as int),
{
    crate::bits::make_le_half(bytes[offset], bytes[offset + 1])
}

pub fn copy_bytes(bytes: &[u8], from: usize, to: usize) -> (out: Vec<u8>)
    requires
        from <= to <= bytes@.len(),
    ensures
        out@ == bytes@.subrange(from as int, to as int),
{
    let mut out: Vec<u8> = Vec::new();
    let mut i: usize = from;
    while i < to
        invariant
            from <= i <= to,
            to <= bytes@.len(),
            out@ == bytes@.subrange(from as int, i as int),
        decreases to - i,
    {
        out.push(bytes[i]);
        assert(out@ =~= bytes@.subrange(from as int, i + 1));
        i += 1;
    }
    out
}

/// Length of the part of the bytes in front of the first zero byte.
pub open spec fn zero_terminated_len(bytes: Seq<u8>, from: int) -> int
    decreases bytes.len() - from,
{
    if from < 0 || from >= bytes.len() || bytes[from] == 0 {
        from
    } else {
        zero_terminated_len(bytes, from + 1)
    }
}

/// The bytes in front of the first zero byte.
pub open spec fn until_zero(bytes: Seq<u8>) -> Seq<u8> {
    bytes.subrange(0, zero_terminated_len(bytes, 0))
}

/// Whether every byte is zero.
pub open spec fn all_zero(bytes: Seq<u8>) -> bool {
    forall|i: int| 0 <= i < bytes.len() ==> bytes[i] == 0
}

/// The bytes of `bytes[from..to]` in front of the first zero byte.
pub fn take_until_zero(bytes: &[u8], from: usize, to: usize) -> (out: Vec<u8>)
    requires
        from <= to <= bytes@.len(),
    ensures
        out@ == until_zero(bytes@.subrange(from as int, to as int)),
{
    let ghost part = bytes@.subrange(from as int, to as int);
    let mut end: usize = from;
    while end < to && bytes[end] != 0
        invariant
            from <= end <= to,
            to <= bytes@.len(),
            part == bytes@.subrange(from as int, to as int),
            zero_terminated_len(part, 0) == zero_terminated_len(part, end - from),
        decreases to - end,
    {
        assert(part[end - from] == bytes@[end as int]);
        end += 1;
    }
    proof {
        if end < to {
            assert(part[end - from] == bytes@[end as int]);
        }
        assert(part.subrange(0, end - from) =~= bytes@.subrange(from as int, end as int));
    }
    copy_bytes(bytes, from, end)
}

/// Whether every byte of `bytes[from..to]` is zero.
pub fn is_all_zero(bytes: &[u8], from: usize, to: usize) -> (zero: bool)
    requires
        from <= to <= bytes@.len(),
    ensures
        zero == all_zero(bytes@.subrange(from as int, to as int)),
{
    let ghost part = bytes@.subrange(from as int, to as int);
    let mut i: usize = from;
    while i < to
        invariant
            from <= i <= to,
            to <= bytes@.len(),
            part == bytes@.subrange(from as int, to as int),
            forall|k: int| 0 <= k < i - from ==> part[k] == 0,
        decreases to - i,
    {
        if bytes[i] != 0 {
            assert(part[i - from] == bytes@[i as int]);
            return false;
        }
        assert(part[i - from] == bytes@[i as int]);
        i += 1;
    }
    true
}

/// Whether the four bytes at `offset` are the given ones.
pub open spec fn magic_at(bytes: Seq<u8>, offset: int, m0: u8, m1: u8, m2: u8, m3: u8) -> bool {
    bytes[offset] == m0 && bytes[offset + 1] == m1 && bytes[offset + 2] == m2 && bytes[offset + 3]
        == m3
}

pub fn has_magic(bytes: &[u8], offset: usize, m0: u8, m1: u8, m2: u8, m3: u8) -> (found: bool)
    requires
        offset + 4 <= bytes@.len(),
    ensures
        found == magic_at(bytes@, offset as int, m0, m1, m2, m3),
{
    bytes[offset] == m0 && bytes[offset + 1] == m1 && bytes[offset + 2] == m2 && bytes[offset + 3]
        == m3
}

} // verus!
