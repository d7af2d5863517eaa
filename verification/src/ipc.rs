use vstd::prelude::*;
use vstd::utf8::{decode_utf8, encode_utf8, valid_utf8};
use vstd::string::StringSliceAdditionalSpecFns;
use crate::bits::{field, le_byte, le_word, make_le_word, take_field, take_le_byte};
use crate::text::{decode_lenient, lenient_text};

verus! {

pub type Handle = u32;

pub type ProcessId = u32;

pub const RESULT_OK: u32 = 0;

pub const RESULT_NOT_FOUND: u32 = 0xD8A1_83F8;

pub const RESULT_INVALID_HANDLE: u32 = 0xD8A1_83FA;

pub const RESULT_INVALID_COMMAND: u32 = 0xD8A1_8404;

#[derive(Debug, Clone, Copy, PartialEq, Eq, Structural)]
pub enum KernelObjectType {
    Port,
    Session,
    Event,
    Archive,
    File,
}

#[derive(Debug, Clone, PartialEq, Eq)]
pub struct IpcPort {
    pub name: String,
    pub max_sessions: u32,
}

#[derive(Debug, Clone, PartialEq, Eq)]
pub struct IpcSession {
    pub service: String,
    pub server_port: Handle,
}

#[derive(Debug, Clone, PartialEq, Eq)]
pub struct IpcEvent {
    pub name: String,
    pub signaled: bool,
}

/// Header of an IPC command: the command, the number of normal payload words
/// and the number of translate words.
#[derive(Debug, Clone, Copy, PartialEq, Eq, Structural)]
pub struct CommandHeader {
    pub command_id: u16,
    pub normal_words: u16,
    pub translate_words: u8,
}

/// The header that a word encodes: sixteen bits of command, ten bits of normal
/// count at bit 16, six bits of translate count at bit 26.
pub open spec fn parsed_header(raw: u32) -> CommandHeader {
    CommandHeader {
        command_id: (raw & 0xFFFF) as u16,
        normal_words: field(raw, 16, 0x3FF) as u16,
        translate_words: field(raw, 26, 0x3F) as u8,
    }
}

/// The word of a header: `command_id | (normal_words << 16) | (translate_words << 26)`.
pub open spec fn encoded_header(header: CommandHeader) -> u32 {
    (header.command_id as u32) | ((header.normal_words as u32) << 16u32) | ((
    header.translate_words as u32) << 26u32)
}

impl CommandHeader {
    pub fn parse(raw: u32) -> (header: Self)
        ensures
            header == parsed_header(raw),
    {
        proof {
            crate::bits::lemma_mask_bound(raw, 0xFFFF);
        }
        CommandHeader {
            command_id: (raw & 0xFFFF) as u16,
            normal_words: take_field(raw, 16, 0x3FF) as u16,
            translate_words: take_field(raw, 26, 0x3F) as u8,
        }
    }

    pub fn encode(self) -> (raw: u32)
        ensures
            raw == encoded_header(self),
    {
        (self.command_id as u32) | ((self.normal_words as u32) << 16u32) | ((
        self.translate_words as u32) << 26u32)
    }
}

/// A header and the normal payload words that follow it.
#[derive(Debug, Clone, PartialEq, Eq)]
pub struct CommandBuffer {
    pub header: CommandHeader,
    pub words: Vec<u32>,
}

/// A translate descriptor of an IPC message.
#[derive(Debug, Clone, Copy, PartialEq, Eq, Structural)]
pub enum IpcDescriptor {
    CopyHandle(Handle),
    MoveHandle(Handle),
    StaticBuffer { index: u8, address: u32, size: u32 },
}

/// An IPC message: the command, its normal payload, and its translate
/// descriptors.
#[derive(Debug, Clone, PartialEq, Eq)]
pub struct IpcMessage {
    pub command_id: u16,
    pub normal_words: Vec<u32>,
    pub descriptors: Vec<IpcDescriptor>,
}

/// Mathematical model of an IPC message.
pub struct MessageModel {
    pub command_id: u16,
    pub normal_words: Seq<u32>,
    pub descriptors: Seq<IpcDescriptor>,
}

impl View for IpcMessage {
    type V = MessageModel;

    open spec fn view(&self) -> MessageModel {
        MessageModel {
            command_id: self.command_id,
            normal_words: self.normal_words@,
            descriptors: self.descriptors@,
        }
    }
}

/// Number of translate words that a descriptor takes.
pub open spec fn descriptor_width(d: IpcDescriptor) -> int {
    match d {
        IpcDescriptor::StaticBuffer { .. } => 2,
        _ => 1,
    }
}

/// Number of translate words that descriptors take.
pub open spec fn translate_width(ds: Seq<IpcDescriptor>) -> int
    decreases ds.len(),
{
    if ds.len() == 0 {
        0
    } else {
        translate_width(ds.drop_last()) + descriptor_width(ds.last())
    }
}

/// The translate count that the header of a message carries: the number of
/// translate words, modulo 256.
pub open spec fn header_width(ds: Seq<IpcDescriptor>) -> u8
    decreases ds.len(),
{
    if ds.len() == 0 {
        0
    } else {
        header_width(ds.drop_last()).wrapping_add(descriptor_width(ds.last()) as u8)
    }
}

/// The translate words of one descriptor: a handle behind the tag `0x8` or
/// `0x9`, or the tag `0xA` with index and size followed by the address.
pub open spec fn descriptor_words(d: IpcDescriptor) -> Seq<u32> {
    match d {
        IpcDescriptor::CopyHandle(handle) => seq![0x8000_0000u32 | (handle & 0x0FFF_FFFF)],
        IpcDescriptor::MoveHandle(handle) => seq![0x9000_0000u32 | (handle & 0x0FFF_FFFF)],
        IpcDescriptor::StaticBuffer { index, address, size } => seq![
            0xA000_0000u32 | (((index & 0xF) as u32) << 24u32) | (size & 0x00FF_FFFF),
            address,
        ],
    }
}

/// The translate words of descriptors, in order.
pub open spec fn translate_words(ds: Seq<IpcDescriptor>) -> Seq<u32>
    decreases ds.len(),
{
    if ds.len() == 0 {
        Seq::empty()
    } else {
        translate_words(ds.drop_last()) + descriptor_words(ds.last())
    }
}

/// The words of a message: header, normal words, translate words.
pub open spec fn encoded_message(m: MessageModel) -> Seq<u32> {
    seq![
        encoded_header(
            CommandHeader {
                command_id: m.command_id,
                normal_words: m.normal_words.len() as u16,
                translate_words: header_width(m.descriptors),
            },
        ),
    ] + m.normal_words + translate_words(m.descriptors)
}

/// The descriptor that starts at `offset`, if the tag is known and its words are
/// there.
pub open spec fn descriptor_at(words: Seq<u32>, offset: int) -> Option<IpcDescriptor> {
    if offset < 0 || offset >= words.len() {
        None
    } else {
        let tag = words[offset];
        let kind = field(tag, 28, 0xF);
        if kind == 0x8 {
            Some(IpcDescriptor::CopyHandle(tag & 0x0FFF_FFFF))
        } else if kind == 0x9 {
            Some(IpcDescriptor::MoveHandle(tag & 0x0FFF_FFFF))
        } else if kind == 0xA && offset + 1 < words.len() {
            Some(
                IpcDescriptor::StaticBuffer {
                    index: field(tag, 24, 0xF) as u8,
                    address: words[offset + 1],
                    size: tag & 0x00FF_FFFF,
                },
            )
        } else {
            None
        }
    }
}

/// The descriptors that take up `remaining` translate words from `offset` on, or
/// nothing where a tag is unknown or the words end early.
pub open spec fn parsed_descriptors(words: Seq<u32>, offset: int, remaining: int) -> Option<
    Seq<IpcDescriptor>,
>
    decreases remaining,
{
    if remaining <= 0 {
        Some(Seq::empty())
    } else {
        match descriptor_at(words, offset) {
            None => None,
            Some(d) => {
                let width: int = if d is StaticBuffer {
                    2
                } else {
                    1
                };
                let left: int = if remaining < width {
                    0
                } else {
                    remaining - width
                };
                match parsed_descriptors(words, offset + width, left) {
                    None => None,
                    Some(rest) => Some(seq![d] + rest),
                }
            },
        }
    }
}

/// The command buffer that words hold, if the normal words that the header
/// announces are there.
pub open spec fn parsed_buffer(words: Seq<u32>) -> Option<(CommandHeader, Seq<u32>)> {
    if words.len() == 0 {
        None
    } else if words.len() - 1 < parsed_header(words[0]).normal_words {
        None
    } else {
        Some(
            (
                parsed_header(words[0]),
                words.subrange(1, 1 + parsed_header(words[0]).normal_words as int),
            ),
        )
    }
}

/// The message that words hold.
pub open spec fn parsed_message(words: Seq<u32>) -> Option<MessageModel> {
    match parsed_buffer(words) {
        None => None,
        Some(buffer) => match parsed_descriptors(
            words,
            1 + buffer.0.normal_words as int,
            buffer.0.translate_words as int,
        ) {
            None => None,
            Some(descriptors) => Some(
                MessageModel {
                    command_id: buffer.0.command_id,
                    normal_words: buffer.1,
                    descriptors,
                },
            ),
        },
    }
}

/// A message that the wire format can hold: counts that fit the header's
/// fields, handles of 28 bits, buffer indices of four bits and sizes of 24 bits.
pub open spec fn valid_message(m: MessageModel) -> bool {
    &&& m.normal_words.len() < 0x400
    &&& translate_width(m.descriptors) < 0x40
    &&& forall|i: int|
        0 <= i < m.descriptors.len() ==> match #[trigger] m.descriptors[i] {
            IpcDescriptor::CopyHandle(handle) => handle <= 0x0FFF_FFFF,
            IpcDescriptor::MoveHandle(handle) => handle <= 0x0FFF_FFFF,
            IpcDescriptor::StaticBuffer { index, address, size } => index < 16 && size
                <= 0x00FF_FFFF,
        }
}

fn copy_range(words: &[u32], from: usize, to: usize) -> (out: Vec<u32>)
    requires
        from <= to <= words@.len(),
    ensures
        out@ == words@.subrange(from as int, to as int),
{
    let mut out: Vec<u32> = Vec::new();
    let mut i: usize = from;
    while i < to
        invariant
            from <= i <= to,
            to <= words@.len(),
            out@ == words@.subrange(from as int, i as int),
        decreases to - i,
    {
        out.push(words[i]);
        assert(out@ =~= words@.subrange(from as int, i + 1));
        i += 1;
    }
    out
}

impl CommandBuffer {
    /// Parses a header and the normal words it announces; fails where the words
    /// are fewer.
    pub fn parse(raw_words: &[u32]) -> (buffer: Option<Self>)
        ensures
            match buffer {
                Some(b) => parsed_buffer(raw_words@) == Some((b.header, b.words@)),
                None => parsed_buffer(raw_words@) is None,
            },
    {
        if raw_words.len() == 0 {
            return None;
        }
        let header = CommandHeader::parse(raw_words[0]);
        let count = header.normal_words as usize;
        if raw_words.len() - 1 < count {
            return None;
        }
        Some(CommandBuffer { header, words: copy_range(raw_words, 1, 1 + count) })
    }

    /// The words of the buffer: the header with the actual number of normal
    /// words, then the words.
    pub fn into_words(self) -> (out: Vec<u32>)
        ensures
            out@ == seq![
                encoded_header(
                    CommandHeader { normal_words: self.words@.len() as u16, ..self.header },
                ),
            ] + self.words@,
    {
        let mut out: Vec<u32> = Vec::new();
        #[verifier::truncate]
        let count = self.words.len() as u16;
        out.push(
            (CommandHeader {
                command_id: self.header.command_id,
                normal_words: count,
                translate_words: self.header.translate_words,
            }).encode(),
        );
        let mut words = self.words;
        let ghost head = out@;
        let ghost all = words@;
        out.append(&mut words);
        assert(out@ =~= head + all);
        out
    }
}

impl IpcMessage {
    /// Parses a message; fails where the normal words are missing, a descriptor
    /// tag is unknown, or the translate words end early.
    pub fn parse(raw_words: &[u32]) -> (message: Option<Self>)
        ensures
            match message {
                Some(m) => parsed_message(raw_words@) == Some(m@),
                None => parsed_message(raw_words@) is None,
            },
    {
        let cmd = match CommandBuffer::parse(raw_words) {
            Some(cmd) => cmd,
            None => {
                return None;
            },
        };
        let start = 1 + cmd.header.normal_words as usize;
        let total = cmd.header.translate_words as usize;
        let mut offset: usize = start;
        let mut consumed: usize = 0;
        let mut descriptors: Vec<IpcDescriptor> = Vec::new();
        while consumed < total
            invariant
                total < 0x100,
                parsed_buffer(raw_words@) == Some((cmd.header, cmd.words@)),
                start == 1 + cmd.header.normal_words,
                total == cmd.header.translate_words,
                consumed <= total + 1,
                offset <= raw_words@.len() + 1,
                offset <= start + consumed,
                start <= 0x10000,
                parsed_descriptors(raw_words@, start as int, total as int) == match parsed_descriptors(
                    raw_words@,
                    offset as int,
                    if consumed > total {
                        0
                    } else {
                        total - consumed
                    },
                ) {
                    Some(rest) => Some(descriptors@ + rest),
                    None => None,
                },
            decreases total + 1 - consumed,
        {
            if offset >= raw_words.len() {
                return None;
            }
            let tag = raw_words[offset];
            let kind = take_field(tag, 28, 0xF);
            let ghost before = descriptors@;
            if kind == 0x8 {
                descriptors.push(IpcDescriptor::CopyHandle(tag & 0x0FFF_FFFF));
                offset += 1;
                consumed += 1;
            } else if kind == 0x9 {
                descriptors.push(IpcDescriptor::MoveHandle(tag & 0x0FFF_FFFF));
                offset += 1;
                consumed += 1;
            } else if kind == 0xA {
                if offset + 1 >= raw_words.len() {
                    return None;
                }
                let address = raw_words[offset + 1];
                descriptors.push(
                    IpcDescriptor::StaticBuffer {
                        index: take_field(tag, 24, 0xF) as u8,
                        address,
                        size: tag & 0x00FF_FFFF,
                    },
                );
                offset += 2;
                consumed += 2;
            } else {
                return None;
            }
            proof {
                let d = descriptors@.last();
                match parsed_descriptors(
                    raw_words@,
                    offset as int,
                    if consumed > total {
                        0
                    } else {
                        total - consumed
                    },
                ) {
                    Some(rest) => {
                        assert(before + (seq![d] + rest) =~= descriptors@ + rest);
                    },
                    None => {},
                }
            }
        }
        proof {
            assert(descriptors@ + Seq::<IpcDescriptor>::empty() =~= descriptors@);
        }
        Some(IpcMessage { command_id: cmd.header.command_id, normal_words: cmd.words, descriptors })
    }

    /// The words of the message.
    pub fn into_words(self) -> (out: Vec<u32>)
        ensures
            out@ == encoded_message(self@),
    {
        let mut width: u8 = 0;
        let mut k: usize = 0;
        while k < self.descriptors.len()
            invariant
                k <= self.descriptors@.len(),
                width == header_width(self.descriptors@.subrange(0, k as int)),
            decreases self.descriptors@.len() - k,
        {
            let step: u8 = match self.descriptors[k] {
                IpcDescriptor::StaticBuffer { .. } => 2,
                _ => 1,
            };
            proof {
                let prefix = self.descriptors@.subrange(0, k + 1);
                assert(prefix.drop_last() =~= self.descriptors@.subrange(0, k as int));
            }
            width = width.wrapping_add(step);
            k += 1;
        }
        assert(self.descriptors@.subrange(0, self.descriptors@.len() as int) =~= self.descriptors@);
        #[verifier::truncate]
        let count = self.normal_words.len() as u16;
        let mut out: Vec<u32> = Vec::new();
        out.push(
            (CommandHeader {
                command_id: self.command_id,
                normal_words: count,
                translate_words: width,
            }).encode(),
        );
        let ghost head = out@;
        let mut i: usize = 0;
        while i < self.normal_words.len()
            invariant
                i <= self.normal_words@.len(),
                out@ == head + self.normal_words@.subrange(0, i as int),
            decreases self.normal_words@.len() - i,
        {
            out.push(self.normal_words[i]);
            assert(out@ =~= head + self.normal_words@.subrange(0, i + 1));
            i += 1;
        }
        assert(self.normal_words@.subrange(0, self.normal_words@.len() as int)
            =~= self.normal_words@);
        let ghost body = out@;
        let mut j: usize = 0;
        while j < self.descriptors.len()
            invariant
                j <= self.descriptors@.len(),
                out@ == body + translate_words(self.descriptors@.subrange(0, j as int)),
            decreases self.descriptors@.len() - j,
        {
            let ghost prefix = self.descriptors@.subrange(0, j + 1);
            assert(prefix.drop_last() =~= self.descriptors@.subrange(0, j as int));
            let ghost so_far = translate_words(self.descriptors@.subrange(0, j as int));
            match self.descriptors[j] {
                IpcDescriptor::CopyHandle(handle) => {
                    out.push(0x8000_0000u32 | (handle & 0x0FFF_FFFF));
                    assert(out@ =~= body + (so_far + descriptor_words(prefix.last())));
                },
                IpcDescriptor::MoveHandle(handle) => {
                    out.push(0x9000_0000u32 | (handle & 0x0FFF_FFFF));
                    assert(out@ =~= body + (so_far + descriptor_words(prefix.last())));
                },
                IpcDescriptor::StaticBuffer { index, address, size } => {
                    out.push(
                        0xA000_0000u32 | (((index & 0xF) as u32) << 24u32) | (size & 0x00FF_FFFF),
                    );
                    out.push(address);
                    assert(out@ =~= body + (so_far + descriptor_words(prefix.last())));
                },
            }
            j += 1;
        }
        out
    }
}

/// Name of a service as two little-endian words: the first eight bytes of the
/// name, padded with zeros.
pub open spec fn name_byte(bytes: Seq<u8>, i: int) -> u8 {
    if i < bytes.len() {
        bytes[i]
    } else {
        0
    }
}

pub open spec fn name_words(bytes: Seq<u8>) -> Seq<u32> {
    seq![
        le_word(name_byte(bytes, 0), name_byte(bytes, 1), name_byte(bytes, 2), name_byte(bytes, 3)),
        le_word(name_byte(bytes, 4), name_byte(bytes, 5), name_byte(bytes, 6), name_byte(bytes, 7)),
    ]
}

/// Byte `i` of the eight bytes that the first two words hold; a missing word
/// counts as zero.
pub open spec fn packed_byte(words: Seq<u32>, i: int) -> u8 {
    if i / 4 < words.len() {
        le_byte(words[i / 4], (i % 4) as u32)
    } else {
        0
    }
}

/// The bytes of a packed name: those in front of the first zero byte, at most
/// eight.
pub open spec fn packed_name(words: Seq<u32>, upto: int) -> Seq<u8>
    decreases upto,
{
    if upto <= 0 {
        Seq::empty()
    } else {
        let front = packed_name(words, upto - 1);
        if front.len() < upto - 1 || packed_byte(words, upto - 1) == 0 {
            front
        } else {
            front.push(packed_byte(words, upto - 1))
        }
    }
}

/// The service name packed in the first two words: the bytes in front of the
/// first zero byte, decoded leniently. Where those bytes are well-formed UTF-8,
/// the name is the text that they encode.
pub fn service_name_from_words(words: &[u32]) -> (name: String)
    ensures
        name@ == lenient_text(packed_name(words@, 8)),
        valid_utf8(packed_name(words@, 8)) ==> name@ == decode_utf8(packed_name(words@, 8)),
{
    let mut bytes: Vec<u8> = Vec::new();
    let mut i: usize = 0;
    let mut ended = false;
    while i < 8
        invariant
            i <= 8,
            bytes@ == packed_name(words@, i as int),
            !ended <==> bytes@.len() == i,
            bytes@.len() <= i,
        decreases 8 - i,
    {
        let byte = if i / 4 < words.len() {
            take_le_byte(words[i / 4], (i % 4) as u32)
        } else {
            0
        };
        if !ended {
            if byte == 0 {
                ended = true;
            } else {
                bytes.push(byte);
            }
        }
        i += 1;
    }
    decode_lenient(&bytes)
}

/// Packs a service name into two little-endian words.
pub fn service_name_words(name: &str) -> (words: [u32; 2])
    ensures
        words@ == name_words(name.spec_bytes()),
{
    let src = name.as_bytes();
    let b0 = if 0 < src.len() {
        src[0]
    } else {
        0
    };
    let b1 = if 1 < src.len() {
        src[1]
    } else {
        0
    };
    let b2 = if 2 < src.len() {
        src[2]
    } else {
        0
    };
    let b3 = if 3 < src.len() {
        src[3]
    } else {
        0
    };
    let b4 = if 4 < src.len() {
        src[4]
    } else {
        0
    };
    let b5 = if 5 < src.len() {
        src[5]
    } else {
        0
    };
    let b6 = if 6 < src.len() {
        src[6]
    } else {
        0
    };
    let b7 = if 7 < src.len() {
        src[7]
    } else {
        0
    };
    let words = [make_le_word(b0, b1, b2, b3), make_le_word(b4, b5, b6, b7)];
    assert(words@ =~= name_words(name.spec_bytes()));
    words
}

/// A header whose counts fit their fields is parsed to what it was encoded from.
pub proof fn law_header_roundtrip(header: CommandHeader)
    requires
        header.normal_words < 0x400,
        header.translate_words < 0x40,
    ensures
        parsed_header(encoded_header(header)) == header,
{
    let c = header.command_id as u32;
    let n = header.normal_words as u32;
    let t = header.translate_words as u32;
    assert(c <= 0xFFFF && n < 0x400 && t < 0x40 ==> ((c | (n << 16u32) | (t << 26u32)) & 0xFFFF) == c
        && (((c | (n << 16u32) | (t << 26u32)) >> 16u32) & 0x3FF) == n && (((c | (n << 16u32) | (t
        << 26u32)) >> 26u32) & 0x3F) == t) by (bit_vector);
}

/// The words and the width of descriptors, taken from the front.
pub proof fn lemma_translate_front(ds: Seq<IpcDescriptor>)
    requires
        ds.len() > 0,
    ensures
        translate_words(ds) == descriptor_words(ds[0]) + translate_words(ds.drop_first()),
        translate_width(ds) == descriptor_width(ds[0]) + translate_width(ds.drop_first()),
        translate_words(ds).len() == translate_width(ds),
        translate_width(ds.drop_first()) >= 0,
    decreases ds.len(),
{
    if ds.len() == 1 {
        assert(ds.drop_last() =~= Seq::<IpcDescriptor>::empty());
        assert(ds.drop_first() =~= Seq::<IpcDescriptor>::empty());
        assert(translate_words(ds) =~= descriptor_words(ds[0]) + translate_words(ds.drop_first()));
    } else {
        lemma_translate_front(ds.drop_last());
        assert(ds.drop_last().drop_first() =~= ds.drop_first().drop_last());
        assert(ds.drop_first().last() == ds.last());
        assert(ds.drop_last()[0] == ds[0]);
        lemma_translate_front(ds.drop_first());
        assert(translate_words(ds) =~= descriptor_words(ds[0]) + translate_words(ds.drop_first()));
    }
}

/// The tag of an encoded descriptor is parsed to the descriptor.
pub proof fn lemma_descriptor_roundtrip(words: Seq<u32>, offset: int, d: IpcDescriptor)
    requires
        0 <= offset,
        offset + descriptor_width(d) <= words.len(),
        words.subrange(offset, offset + descriptor_width(d)) == descriptor_words(d),
        match d {
            IpcDescriptor::CopyHandle(handle) => handle <= 0x0FFF_FFFF,
            IpcDescriptor::MoveHandle(handle) => handle <= 0x0FFF_FFFF,
            IpcDescriptor::StaticBuffer { index, address, size } => index < 16 && size
                <= 0x00FF_FFFF,
        },
    ensures
        descriptor_at(words, offset) == Some(d),
{
    let part = words.subrange(offset, offset + descriptor_width(d));
    assert(part[0] == words[offset]);
    assert(forall|h: u32|
        h <= 0x0FFF_FFFF ==> (((#[trigger] (0x8000_0000u32 | (h & 0x0FFF_FFFF))) >> 28u32) & 0xF)
            == 0x8 && ((0x8000_0000u32 | (h & 0x0FFF_FFFF)) & 0x0FFF_FFFF) == h) by (bit_vector);
    assert(forall|h: u32|
        h <= 0x0FFF_FFFF ==> (((#[trigger] (0x9000_0000u32 | (h & 0x0FFF_FFFF))) >> 28u32) & 0xF)
            == 0x9 && ((0x9000_0000u32 | (h & 0x0FFF_FFFF)) & 0x0FFF_FFFF) == h) by (bit_vector);
    match d {
        IpcDescriptor::StaticBuffer { index, address, size } => {
            assert(part[1] == words[offset + 1]);
            let i = (index & 0xF) as u32;
            assert(index < 16 ==> (index & 0xF) == index) by (bit_vector);
            assert(i < 16 && size <= 0x00FF_FFFF ==> (((0xA000_0000u32 | (i << 24u32) | (size
                & 0x00FF_FFFF)) >> 28u32) & 0xF) == 0xA && (((0xA000_0000u32 | (i << 24u32) | (size
                & 0x00FF_FFFF)) >> 24u32) & 0xF) == i && ((0xA000_0000u32 | (i << 24u32) | (size
                & 0x00FF_FFFF)) & 0x00FF_FFFF) == size) by (bit_vector);
        },
        _ => {},
    }
}

/// Encoded descriptors that stand at `offset` are parsed back, when exactly
/// their width is asked for.
pub proof fn lemma_descriptors_roundtrip(words: Seq<u32>, offset: int, ds: Seq<IpcDescriptor>)
    requires
        0 <= offset,
        offset + translate_words(ds).len() <= words.len(),
        words.subrange(offset, offset + translate_words(ds).len()) == translate_words(ds),
        forall|i: int|
            0 <= i < ds.len() ==> match #[trigger] ds[i] {
                IpcDescriptor::CopyHandle(handle) => handle <= 0x0FFF_FFFF,
                IpcDescriptor::MoveHandle(handle) => handle <= 0x0FFF_FFFF,
                IpcDescriptor::StaticBuffer { index, address, size } => index < 16 && size
                    <= 0x00FF_FFFF,
            },
    ensures
        parsed_descriptors(words, offset, translate_width(ds)) == Some(ds),
    decreases ds.len(),
{
    if ds.len() == 0 {
    } else {
        lemma_translate_front(ds);
        let d = ds[0];
        let rest = ds.drop_first();
        let w = descriptor_width(d);
        let all = translate_words(ds);
        assert(words.subrange(offset, offset + w) =~= descriptor_words(d)) by {
            assert forall|k: int| 0 <= k < w implies words.subrange(offset, offset + w)[k]
                == descriptor_words(d)[k] by {
                assert(words.subrange(offset, offset + all.len())[k] == all[k]);
            }
        }
        lemma_descriptor_roundtrip(words, offset, d);
        if rest.len() > 0 {
            lemma_translate_front(rest);
        }
        assert(words.subrange(offset + w, offset + w + translate_words(rest).len())
            =~= translate_words(rest)) by {
            assert forall|k: int| 0 <= k < translate_words(rest).len() implies words.subrange(
                offset + w,
                offset + w + translate_words(rest).len(),
            )[k] == translate_words(rest)[k] by {
                assert(words.subrange(offset, offset + all.len())[w + k] == all[w + k]);
            }
        }
        assert forall|i: int| 0 <= i < rest.len() implies match #[trigger] rest[i] {
            IpcDescriptor::CopyHandle(handle) => handle <= 0x0FFF_FFFF,
            IpcDescriptor::MoveHandle(handle) => handle <= 0x0FFF_FFFF,
            IpcDescriptor::StaticBuffer { index, address, size } => index < 16 && size
                <= 0x00FF_FFFF,
        } by {
            assert(rest[i] == ds[i + 1]);
        }
        lemma_descriptors_roundtrip(words, offset + w, rest);
        assert(seq![d] + rest =~= ds);
    }
}

/// While the translate words number fewer than 256, the count in the header is
/// their number.
pub proof fn lemma_header_width(ds: Seq<IpcDescriptor>)
    ensures
        translate_width(ds) >= 0,
        translate_width(ds) < 256 ==> header_width(ds) == translate_width(ds),
    decreases ds.len(),
{
    if ds.len() > 0 {
        lemma_header_width(ds.drop_last());
    }
}

/// Every valid message is parsed from its encoding to itself.
pub proof fn law_message_roundtrip(m: MessageModel)
    requires
        valid_message(m),
    ensures
        parsed_message(encoded_message(m)) == Some(m),
{
    let words = encoded_message(m);
    let n = m.normal_words.len();
    let header = CommandHeader {
        command_id: m.command_id,
        normal_words: n as u16,
        translate_words: header_width(m.descriptors),
    };
    lemma_header_width(m.descriptors);
    law_header_roundtrip(header);
    if m.descriptors.len() > 0 {
        lemma_translate_front(m.descriptors);
    }
    assert(words[0] == encoded_header(header));
    assert(words.subrange(1, 1 + n as int) =~= m.normal_words);
    assert(words.subrange(1 + n as int, 1 + n as int + translate_words(m.descriptors).len() as int)
        =~= translate_words(m.descriptors));
    lemma_descriptors_roundtrip(words, 1 + n as int, m.descriptors);
}

/// The first `upto` bytes of a name without a zero byte, packed into words and
/// unpacked again, are the bytes of the name, as far as it has that many.
pub proof fn lemma_packed_prefix(bytes: Seq<u8>, upto: int)
    requires
        0 <= upto <= 8,
        bytes.len() <= 8,
        forall|i: int| 0 <= i < bytes.len() ==> bytes[i] != 0,
    ensures
        packed_name(name_words(bytes), upto) == if upto <= bytes.len() {
            bytes.subrange(0, upto)
        } else {
            bytes
        },
    decreases upto,
{
    if upto > 0 {
        lemma_packed_prefix(bytes, upto - 1);
        crate::bits::lemma_le_roundtrip();
        let i = upto - 1;
        assert(packed_byte(name_words(bytes), i) == name_byte(bytes, i));
        if upto <= bytes.len() {
            assert(bytes.subrange(0, upto - 1).push(bytes[i]) =~= bytes.subrange(0, upto));
        } else if upto - 1 == bytes.len() {
            assert(bytes.subrange(0, upto - 1) =~= bytes);
        }
    } else {
        assert(bytes.subrange(0, 0) =~= Seq::<u8>::empty());
    }
}

/// A service name whose encoding has at most eight bytes and no zero byte is
/// unpacked from the words it was packed into as itself.
pub proof fn law_service_name_roundtrip(name: Seq<char>)
    requires
        encode_utf8(name).len() <= 8,
        forall|i: int| 0 <= i < encode_utf8(name).len() ==> encode_utf8(name)[i] != 0,
    ensures
        packed_name(name_words(encode_utf8(name)), 8) == encode_utf8(name),
        valid_utf8(packed_name(name_words(encode_utf8(name)), 8)),
        decode_utf8(packed_name(name_words(encode_utf8(name)), 8)) == name,
{
    lemma_packed_prefix(encode_utf8(name), 8);
    if encode_utf8(name).len() == 8 {
        assert(encode_utf8(name).subrange(0, 8) =~= encode_utf8(name));
    }
    vstd::utf8::encode_utf8_valid_utf8(name);
    vstd::utf8::encode_utf8_decode_utf8(name);
}

} // verus!
