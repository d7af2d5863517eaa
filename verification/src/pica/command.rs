use vstd::prelude::*;
use crate::bits::{field, take_field};

verus! {

/// One write of a value to a GPU register.
#[derive(Debug, Clone, Copy, PartialEq, Eq, Structural)]
pub struct PicaRegisterWrite {
    pub reg: u16,
    pub value: u32,
}

/// Header of a FIFO packet: the first register, the number of payload words, and
/// whether consecutive payload words go to consecutive registers.
#[derive(Debug, Clone, Copy, PartialEq, Eq, Structural)]
pub struct PicaCommandBufferPacket {
    pub reg: u16,
    pub count: u8,
    pub sequential: bool,
}

/// The header that a FIFO word encodes.
pub open spec fn decode_header(word: u32) -> PicaCommandBufferPacket {
    PicaCommandBufferPacket {
        reg: (word & 0xFFFF) as u16,
        count: field(word, 16, 0x7F) as u8,
        sequential: field(word, 23, 1) != 0,
    }
}

/// The FIFO word of a header: `register | (count << 16) | (sequential << 23)`.
pub open spec fn encode_header(reg: u16, count: u8, sequential: bool) -> u32 {
    (reg as u32) | ((count as u32) << 16u32) | ((if sequential {
        1u32
    } else {
        0u32
    }) << 23u32)
}

/// Number of payload words that follow a header: its count, but at least one.
pub open spec fn payload_len(packet: PicaCommandBufferPacket) -> int {
    if packet.count == 0 {
        1
    } else {
        packet.count as int
    }
}

/// The register that payload word `i` of a packet is written to.
pub open spec fn payload_target(packet: PicaCommandBufferPacket, i: int) -> u16 {
    if packet.sequential {
        packet.reg.wrapping_add(i as u16)
    } else {
        packet.reg
    }
}

/// The first `n` register writes of the packet whose header is at `cursor`.
pub open spec fn packet_writes(words: Seq<u32>, cursor: int, n: int) -> Seq<PicaRegisterWrite> {
    Seq::new(
        n as nat,
        |i: int|
            PicaRegisterWrite {
                reg: payload_target(decode_header(words[cursor]), i),
                value: words[cursor + 1 + i],
            },
    )
}

/// The register writes that the FIFO words from `cursor` on encode. A packet whose
/// payload is cut short by the end of the words yields the writes that are there.
pub open spec fn decode_from(words: Seq<u32>, cursor: int) -> Seq<PicaRegisterWrite>
    decreases words.len() - cursor,
{
    if cursor < 0 || cursor >= words.len() {
        Seq::empty()
    } else {
        let n = payload_len(decode_header(words[cursor]));
        if words.len() - cursor - 1 < n {
            packet_writes(words, cursor, words.len() - cursor - 1)
        } else {
            packet_writes(words, cursor, n) + decode_from(words, cursor + 1 + n)
        }
    }
}

/// The register writes that a sequence of FIFO words encodes.
pub open spec fn decode_words(words: Seq<u32>) -> Seq<PicaRegisterWrite> {
    decode_from(words, 0)
}

impl PicaCommandBufferPacket {
    pub fn decode(word: u32) -> (packet: Self)
        ensures
            packet == decode_header(word),
    {
        proof {
            crate::bits::lemma_mask_bound(word, 0xFFFF);
        }
        PicaCommandBufferPacket {
            reg: (word & 0xFFFF) as u16,
            count: take_field(word, 16, 0x7F) as u8,
            sequential: take_field(word, 23, 1) != 0,
        }
    }

    pub fn encode(reg: u16, count: u8, sequential: bool) -> (word: u32)
        ensures
            word == encode_header(reg, count, sequential),
    {
        (reg as u32) | ((count as u32) << 16u32) | ((if sequential {
            1u32
        } else {
            0u32
        }) << 23u32)
    }
}

/// Decoder of FIFO words into register writes.
#[derive(Debug, Default, Clone, Copy)]
pub struct PicaCommandProcessor;

impl PicaCommandProcessor {
    /// Decodes FIFO words, packet by packet, into the register writes they encode.
    pub fn decode_command_words(&self, words: &[u32]) -> (out: Vec<PicaRegisterWrite>)
        ensures
            out@ == decode_words(words@),
    {
        let mut out: Vec<PicaRegisterWrite> = Vec::new();
        let mut cursor: usize = 0;
        while cursor < words.len()
            invariant
                cursor <= words@.len(),
                out@ + decode_from(words@, cursor as int) == decode_words(words@),
            decreases words@.len() - cursor,
        {
            let packet = PicaCommandBufferPacket::decode(words[cursor]);
            let payload_words: usize = if packet.count == 0 {
                1
            } else {
                packet.count as usize
            };
            let ghost before = out@;
            let header = cursor;
            let available = words.len() - cursor - 1;
            let mut i: usize = 0;
            while i < payload_words && i < available
                invariant
                    i <= payload_words,
                    i <= available,
                    available == words@.len() - header - 1,
                    header < words@.len(),
                    words@.len() <= usize::MAX,
                    packet == decode_header(words@[header as int]),
                    payload_words <= 255,
                    out@ == before + packet_writes(words@, header as int, i as int),
                decreases payload_words - i,
            {
                let reg = if packet.sequential {
                    packet.reg.wrapping_add(i as u16)
                } else {
                    packet.reg
                };
                out.push(PicaRegisterWrite { reg, value: words[header + 1 + i] });
                assert(out@ =~= before + packet_writes(words@, header as int, i + 1));
                i += 1;
            }
            if i < payload_words {
                assert(before + packet_writes(words@, header as int, i as int) == decode_words(
                    words@,
                ));
                return out;
            }
            cursor = header + 1 + payload_words;
            assert(out@ + decode_from(words@, cursor as int) =~= before + (packet_writes(
                words@,
                header as int,
                payload_words as int,
            ) + decode_from(words@, cursor as int)));
        }
        assert(out@ + Seq::<PicaRegisterWrite>::empty() =~= out@);
        out
    }
}

/// The FIFO words that replay register writes one by one: for each write a header
/// with count one and the value.
pub open spec fn replay_words(writes: Seq<PicaRegisterWrite>) -> Seq<u32> {
    Seq::new(
        2 * writes.len(),
        |i: int|
            if i % 2 == 0 {
                encode_header(writes[i / 2].reg, 1, false)
            } else {
                writes[i / 2].value
            },
    )
}

/// A header is decoded to the fields it was encoded from, as far as the count fits
/// its seven bits.
pub proof fn law_header_roundtrip(reg: u16, count: u8, sequential: bool)
    requires
        count < 0x80,
    ensures
        decode_header(encode_header(reg, count, sequential)) == (PicaCommandBufferPacket {
            reg,
            count,
            sequential,
        }),
{
    let r = reg as u32;
    let c = count as u32;
    assert(r <= 0xFFFF && c < 0x80 ==> ((r | (c << 16u32) | (1u32 << 23u32)) & 0xFFFF) == r && (((r
        | (c << 16u32) | (1u32 << 23u32)) >> 16u32) & 0x7F) == c && (((r | (c << 16u32) | (1u32
        << 23u32)) >> 23u32) & 1) == 1 && ((r | (c << 16u32) | (0u32 << 23u32)) & 0xFFFF) == r
        && (((r | (c << 16u32) | (0u32 << 23u32)) >> 16u32) & 0x7F) == c && (((r | (c << 16u32) | (
    0u32 << 23u32)) >> 23u32) & 1) == 0) by (bit_vector);
}

/// Decoding the replay words of register writes yields those writes.
pub proof fn lemma_replay_decodes(writes: Seq<PicaRegisterWrite>, from: int)
    requires
        0 <= from <= writes.len(),
    ensures
        decode_from(replay_words(writes), 2 * from) == writes.subrange(from, writes.len() as int),
    decreases writes.len() - from,
{
    let words = replay_words(writes);
    if from < writes.len() {
        lemma_replay_decodes(writes, from + 1);
        law_header_roundtrip(writes[from].reg, 1, false);
        assert(words[2 * from] == encode_header(writes[(2 * from) / 2].reg, 1, false));
        assert(words[2 * from + 1] == writes[(2 * from + 1) / 2].value);
        assert(packet_writes(words, 2 * from, 1) =~= seq![writes[from]]);
        assert(seq![writes[from]] + writes.subrange(from + 1, writes.len() as int)
            =~= writes.subrange(from, writes.len() as int));
    } else {
        assert(writes.subrange(from, writes.len() as int) =~= Seq::<PicaRegisterWrite>::empty());
    }
}

/// Register writes survive being encoded one per packet and decoded again.
pub proof fn law_replay_roundtrip(writes: Seq<PicaRegisterWrite>)
    ensures
        decode_words(replay_words(writes)) == writes,
{
    lemma_replay_decodes(writes, 0);
    assert(writes.subrange(0, writes.len() as int) =~= writes);
}

} // verus!
