use vstd::prelude::*;
use vstd::slice::slice_to_vec;
use crate::bits::{le_byte, le_word, make_le_word, take_le_byte};
use crate::error::EmulatorError;

verus! {

pub const FCRAM_START: u32 = 0x0000_0000;

pub const FCRAM_SIZE: usize = 0x0800_0000;

pub const VRAM_START: u32 = 0x1F00_0000;

pub const VRAM_SIZE: usize = 0x0010_0000;

pub const IO_START: u32 = 0x1010_0000;

pub const IO_SIZE: usize = 0x0010_0000;

pub const BIOS_START: u32 = 0x1FFF_0000;

pub const BIOS_SIZE: usize = 0x0001_0000;

pub const ROM_START: u32 = 0x0800_0000;

/// What a mapped range of the physical address space is backed by.
#[derive(Debug, Clone, Copy, PartialEq, Eq, Structural)]
pub enum SegmentKind {
    Fcram,
    Vram,
    Io,
    Bios,
    Rom,
}

struct Segment {
    kind: SegmentKind,
    start: u32,
    end_exclusive: u32,
    writable: bool,
    data: Vec<u8>,
}

/// Mathematical model of one mapped segment.
pub struct SegmentModel {
    pub kind: SegmentKind,
    pub start: u32,
    pub end_exclusive: u32,
    pub writable: bool,
    pub data: Seq<u8>,
}

impl SegmentModel {
    pub open spec fn contains(self, addr: u32) -> bool {
        self.start <= addr && addr < self.end_exclusive
    }

    pub open spec fn offset_of(self, addr: u32) -> int {
        addr - self.start
    }

    /// The backing store covers the whole address range of the segment.
    pub open spec fn covered(self) -> bool {
        self.end_exclusive - self.start <= self.data.len()
    }
}

impl View for Segment {
    type V = SegmentModel;

    closed spec fn view(&self) -> SegmentModel {
        SegmentModel {
            kind: self.kind,
            start: self.start,
            end_exclusive: self.end_exclusive,
            writable: self.writable,
            data: self.data@,
        }
    }
}

/// The model of the whole bus: its segments in lookup order.
pub type MemoryModel = Seq<SegmentModel>;

/// Segments are ordered by origin and each one is fully backed.
pub open spec fn well_formed(m: MemoryModel) -> bool {
    &&& forall|i: int| 0 <= i < m.len() ==> (#[trigger] m[i]).covered()
    &&& forall|i: int, j: int| 0 <= i < j < m.len() ==> (#[trigger] m[i]).start <= (#[trigger] m[j]).start
}

/// Index of the first segment at or after `from` that contains `addr`.
pub open spec fn find_segment_from(m: MemoryModel, addr: u32, from: int) -> Option<int>
    decreases m.len() - from,
{
    if from < 0 || from >= m.len() {
        None
    } else if m[from].contains(addr) {
        Some(from)
    } else {
        find_segment_from(m, addr, from + 1)
    }
}

/// Index of the segment that serves `addr`: the first one that contains it.
pub open spec fn find_segment(m: MemoryModel, addr: u32) -> Option<int> {
    find_segment_from(m, addr, 0)
}

/// Whether some segment contains `addr`.
pub open spec fn is_mapped(m: MemoryModel, addr: u32) -> bool {
    find_segment(m, addr) is Some
}

/// Whether `addr` is served by a writable segment.
pub open spec fn is_writable(m: MemoryModel, addr: u32) -> bool {
    find_segment(m, addr) matches Some(i) && m[i].writable
}

/// Result of a checked byte read.
pub open spec fn read_byte(m: MemoryModel, addr: u32) -> Result<u8, EmulatorError> {
    match find_segment(m, addr) {
        None => Err(EmulatorError::MemoryOutOfBounds { address: addr }),
        Some(i) => if m[i].offset_of(addr) < m[i].data.len() {
            Ok(m[i].data[m[i].offset_of(addr)])
        } else {
            Err(EmulatorError::MemoryOutOfBounds { address: addr })
        },
    }
}

/// Result of a checked byte write: it fails only where nothing is mapped.
pub open spec fn write_byte_result(m: MemoryModel, addr: u32) -> Result<(), EmulatorError> {
    match find_segment(m, addr) {
        None => Err(EmulatorError::MemoryOutOfBounds { address: addr }),
        Some(i) => if !m[i].writable || m[i].offset_of(addr) < m[i].data.len() {
            Ok(())
        } else {
            Err(EmulatorError::MemoryOutOfBounds { address: addr })
        },
    }
}

/// The bus after a byte write: only a writable segment's store changes.
pub open spec fn write_byte(m: MemoryModel, addr: u32, value: u8) -> MemoryModel {
    match find_segment(m, addr) {
        None => m,
        Some(i) => if m[i].writable && m[i].offset_of(addr) < m[i].data.len() {
            m.update(
                i,
                SegmentModel { data: m[i].data.update(m[i].offset_of(addr), value), ..m[i] },
            )
        } else {
            m
        },
    }
}

/// Result of a checked little-endian word read: four byte reads at wrapping addresses.
pub open spec fn read_word(m: MemoryModel, addr: u32) -> Result<u32, EmulatorError> {
    match read_byte(m, addr) {
        Err(e) => Err(e),
        Ok(b0) => match read_byte(m, addr.wrapping_add(1)) {
            Err(e) => Err(e),
            Ok(b1) => match read_byte(m, addr.wrapping_add(2)) {
                Err(e) => Err(e),
                Ok(b2) => match read_byte(m, addr.wrapping_add(3)) {
                    Err(e) => Err(e),
                    Ok(b3) => Ok(le_word(b0, b1, b2, b3)),
                },
            },
        },
    }
}

/// The bus after the first `count` byte lanes of a word write have been attempted,
/// stopping at the first lane that fails.
pub open spec fn write_word_lanes(m: MemoryModel, addr: u32, value: u32, count: nat) -> MemoryModel
    decreases count,
{
    if count == 0 {
        m
    } else {
        let before = write_word_lanes(m, addr, value, (count - 1) as nat);
        let lane = (count - 1) as u32;
        if write_word_lanes_result(m, addr, value, (count - 1) as nat) is Err {
            before
        } else {
            write_byte(before, addr.wrapping_add(lane), le_byte(value, lane))
        }
    }
}

/// Result of attempting the first `count` byte lanes of a word write.
pub open spec fn write_word_lanes_result(
    m: MemoryModel,
    addr: u32,
    value: u32,
    count: nat,
) -> Result<(), EmulatorError>
    decreases count,
{
    if count == 0 {
        Ok(())
    } else {
        let lane = (count - 1) as u32;
        match write_word_lanes_result(m, addr, value, (count - 1) as nat) {
            Err(e) => Err(e),
            Ok(_) => write_byte_result(
                write_word_lanes(m, addr, value, (count - 1) as nat),
                addr.wrapping_add(lane),
            ),
        }
    }
}

/// The bus after a checked little-endian word write.
pub open spec fn write_word(m: MemoryModel, addr: u32, value: u32) -> MemoryModel {
    write_word_lanes(m, addr, value, 4)
}

/// Result of a checked little-endian word write.
pub open spec fn write_word_result(m: MemoryModel, addr: u32, value: u32) -> Result<
    (),
    EmulatorError,
> {
    write_word_lanes_result(m, addr, value, 4)
}

/// Value of a tolerant byte read: zero where the checked read fails.
pub open spec fn read_byte_or_zero(m: MemoryModel, addr: u32) -> u8 {
    match read_byte(m, addr) {
        Ok(b) => b,
        Err(_) => 0,
    }
}

/// Value of a tolerant word read: zero where the checked read fails.
pub open spec fn read_word_or_zero(m: MemoryModel, addr: u32) -> u32 {
    match read_word(m, addr) {
        Ok(w) => w,
        Err(_) => 0,
    }
}

/// Where a segment with origin `start` is inserted: behind every segment at or after `from`
/// whose origin is not greater.
pub open spec fn insert_position(m: MemoryModel, start: u32, from: int) -> int
    decreases m.len() - from,
{
    if from < 0 || from >= m.len() {
        m.len() as int
    } else if m[from].start > start {
        from
    } else {
        insert_position(m, start, from + 1)
    }
}

/// A segment of `len` zero bytes.
pub open spec fn zeroed_segment(kind: SegmentKind, start: u32, len: nat, writable: bool) -> SegmentModel {
    SegmentModel {
        kind,
        start,
        end_exclusive: (start + len) as u32,
        writable,
        data: Seq::new(len, |i: int| 0u8),
    }
}

/// The address space of a freshly created bus.
pub open spec fn initial_layout() -> MemoryModel {
    seq![
        zeroed_segment(SegmentKind::Fcram, FCRAM_START, FCRAM_SIZE as nat, true),
        zeroed_segment(SegmentKind::Io, IO_START, IO_SIZE as nat, true),
        zeroed_segment(SegmentKind::Vram, VRAM_START, VRAM_SIZE as nat, true),
        zeroed_segment(SegmentKind::Bios, BIOS_START, BIOS_SIZE as nat, false),
    ]
}

/// The segments of `m` that are not the ROM image, in order.
pub open spec fn without_rom(m: MemoryModel) -> MemoryModel
    decreases m.len(),
{
    if m.len() == 0 {
        m
    } else if m.last().kind == SegmentKind::Rom {
        without_rom(m.drop_last())
    } else {
        without_rom(m.drop_last()).push(m.last())
    }
}

/// The read-only segment that holds a ROM image.
pub open spec fn rom_segment(image: Seq<u8>) -> SegmentModel {
    SegmentModel {
        kind: SegmentKind::Rom,
        start: ROM_START,
        end_exclusive: if ROM_START + (image.len() as u32) > u32::MAX {
            u32::MAX
        } else {
            (ROM_START + (image.len() as u32)) as u32
        },
        writable: false,
        data: image,
    }
}

/// The bus after a ROM image was installed in place of any earlier one.
pub open spec fn with_rom(m: MemoryModel, image: Seq<u8>) -> MemoryModel {
    let rest = without_rom(m);
    rest.insert(insert_position(rest, ROM_START, 0), rom_segment(image))
}

/// The bus after every writable backing store was zeroed.
pub open spec fn cleared(m: MemoryModel) -> MemoryModel {
    Seq::new(
        m.len(),
        |i: int|
            if m[i].writable {
                SegmentModel { data: Seq::new(m[i].data.len(), |j: int| 0u8), ..m[i] }
            } else {
                m[i]
            },
    )
}

/// Sum of the backing-store lengths of the first `count` segments.
pub open spec fn mapped_bytes(m: MemoryModel, count: int) -> int
    decreases count,
{
    if count <= 0 {
        0
    } else {
        mapped_bytes(m, count - 1) + m[count - 1].data.len()
    }
}

/// Segmented physical address space: an ordered list of mapped ranges, each with its own
/// backing store.
pub struct Memory {
    segments: Vec<Segment>,
}

impl View for Memory {
    type V = MemoryModel;

    closed spec fn view(&self) -> MemoryModel {
        Seq::new(self.segments@.len(), |i: int| self.segments@[i]@)
    }
}

pub proof fn lemma_without_rom_sorted(m: MemoryModel)
    requires
        well_formed(m),
    ensures
        well_formed(without_rom(m)),
        forall|k: int|
            0 <= k < without_rom(m).len() ==> exists|j: int|
                0 <= j < m.len() && m[j] == #[trigger] without_rom(m)[k],
        m.len() > 0 ==> forall|k: int|
            0 <= k < without_rom(m).len() ==> (#[trigger] without_rom(m)[k]).start <= m.last().start,
        forall|k: int| 0 <= k < without_rom(m).len() ==> (#[trigger] without_rom(m)[k]).kind != SegmentKind::Rom,
    decreases m.len(),
{
    if m.len() > 0 {
        let front = m.drop_last();
        lemma_without_rom_sorted(front);
        let w = without_rom(front);
        assert forall|k: int| 0 <= k < w.len() implies (#[trigger] w[k]).start <= m.last().start by {
            let j = choose|j: int| 0 <= j < front.len() && front[j] == w[k];
            assert(m[j] == front[j]);
        }
        assert forall|k: int| 0 <= k < without_rom(m).len() implies exists|j: int|
            0 <= j < m.len() && m[j] == #[trigger] without_rom(m)[k] by {
            if k < w.len() {
                let j = choose|j: int| 0 <= j < front.len() && front[j] == w[k];
                assert(m[j] == front[j]);
            } else {
                assert(m[m.len() - 1] == without_rom(m)[k]);
            }
        }
    }
}

/// Inserting at the computed position keeps the segments ordered.
pub proof fn lemma_insert_position(m: MemoryModel, start: u32, from: int)
    requires
        0 <= from <= m.len(),
        forall|i: int, j: int| 0 <= i < j < m.len() ==> (#[trigger] m[i]).start <= (#[trigger] m[j]).start,
        forall|i: int| 0 <= i < from ==> (#[trigger] m[i]).start <= start,
    ensures
        from <= insert_position(m, start, from) <= m.len(),
        forall|i: int| 0 <= i < insert_position(m, start, from) ==> (#[trigger] m[i]).start <= start,
        forall|i: int| insert_position(m, start, from) <= i < m.len() ==> (#[trigger] m[i]).start > start,
    decreases m.len() - from,
{
    if from < m.len() {
        if m[from].start > start {
            assert forall|i: int| from <= i < m.len() implies (#[trigger] m[i]).start > start by {
                if i > from {
                    assert(m[from].start <= m[i].start);
                }
            }
        } else {
            lemma_insert_position(m, start, from + 1);
        }
    }
}

impl Memory {
    /// Every memory bus is well formed.
    #[verifier::type_invariant]
    pub open spec fn inv(&self) -> bool {
        well_formed(self@)
    }

    /// A bus with main RAM, the MMIO window, video RAM and the BIOS mapped, all zeroed.
    pub fn new() -> (memory: Self)
        ensures
            memory@ == initial_layout(),
    {
        let mut segments: Vec<Segment> = Vec::new();
        segments.push(Self::fixed_segment(SegmentKind::Fcram, FCRAM_START, FCRAM_SIZE, true));
        segments.push(Self::fixed_segment(SegmentKind::Io, IO_START, IO_SIZE, true));
        segments.push(Self::fixed_segment(SegmentKind::Vram, VRAM_START, VRAM_SIZE, true));
        segments.push(Self::fixed_segment(SegmentKind::Bios, BIOS_START, BIOS_SIZE, false));
        let memory = Memory { segments };
        assert(memory@ =~= initial_layout());
        memory
    }

    fn fixed_segment(kind: SegmentKind, start: u32, size: usize, writable: bool) -> (segment:
        Segment)
        requires
            start + size <= u32::MAX,
        ensures
            segment@ == zeroed_segment(kind, start, size as nat, writable),
    {
        let data: Vec<u8> = vec![0u8; size];
        assert(data@ =~= Seq::new(size as nat, |i: int| 0u8));
        Segment { kind, start, end_exclusive: start + size as u32, writable, data }
    }

    /// Installs a ROM image as a read-only segment at the ROM base, replacing any
    /// image installed before.
    pub fn map_rom(&mut self, rom_bytes: &[u8])
        ensures
            final(self)@ == with_rom(old(self)@, rom_bytes@),
    {
        proof {
            use_type_invariant(&*self);
        }
        let ghost before = self@;
        let mut kept: Vec<Segment> = Vec::new();
        let mut segments: Vec<Segment> = Vec::new();
        std::mem::swap(&mut segments, &mut self.segments);
        let ghost all = segments@;
        let mut taken: usize = 0;
        let total = segments.len();
        // Walk the old list from the back, so that each segment can be moved out.
        let mut reversed: Vec<Segment> = Vec::new();
        while segments.len() > 0
            invariant
                segments@.len() + reversed@.len() == all.len(),
                forall|i: int| 0 <= i < segments@.len() ==> segments@[i] == all[i],
                forall|i: int|
                    0 <= i < reversed@.len() ==> reversed@[i] == all[all.len() - 1 - i],
            decreases segments.len(),
        {
            let segment = segments.pop().unwrap();
            reversed.push(segment);
        }
        while reversed.len() > 0
            invariant
                reversed@.len() <= all.len(),
                forall|i: int|
                    0 <= i < reversed@.len() ==> reversed@[i] == all[all.len() - 1 - i],
                Seq::new(kept@.len(), |i: int| kept@[i]@) == without_rom(
                    before.subrange(0, all.len() - reversed@.len()),
                ),
                before == Seq::new(all.len(), |i: int| all[i]@),
            decreases reversed.len(),
        {
            let ghost done = all.len() - reversed@.len();
            let segment = reversed.pop().unwrap();
            assert(segment == all[done]);
            assert(before.subrange(0, done + 1).drop_last() =~= before.subrange(0, done));
            assert(before.subrange(0, done + 1).last() == segment@);
            if segment.kind != SegmentKind::Rom {
                kept.push(segment);
            }
            assert(Seq::new(kept@.len(), |i: int| kept@[i]@) =~= without_rom(
                before.subrange(0, done + 1),
            ));
        }
        assert(before.subrange(0, all.len() as int) =~= before);
        let ghost rest = without_rom(before);
        proof {
            lemma_without_rom_sorted(before);
        }
        let length = rom_bytes.len();
        let image = slice_to_vec(rom_bytes);
        #[verifier::truncate]
        let length32 = length as u32;
        let rom = Segment {
            kind: SegmentKind::Rom,
            start: ROM_START,
            end_exclusive: ROM_START.saturating_add(length32),
            writable: false,
            data: image,
        };
        assert(rom@ == rom_segment(rom_bytes@));
        let mut position: usize = 0;
        while position < kept.len() && kept[position].start <= ROM_START
            invariant
                position <= kept@.len(),
                rest == Seq::new(kept@.len(), |i: int| kept@[i]@),
                insert_position(rest, ROM_START, 0) == insert_position(
                    rest,
                    ROM_START,
                    position as int,
                ),
                forall|i: int| 0 <= i < position ==> (#[trigger] rest[i]).start <= ROM_START,
            decreases kept@.len() - position,
        {
            position += 1;
        }
        proof {
            lemma_insert_position(rest, ROM_START, position as int);
            assert(rom@.covered()) by {
                assert(length32 <= length) by {
                    assert(length32 == length as u32);
                    assert((length as u32) <= length) by (bit_vector);
                }
            }
        }
        kept.insert(position, rom);
        assert(Seq::new(kept@.len(), |i: int| kept@[i]@) =~= rest.insert(
            position as int,
            rom_segment(rom_bytes@),
        ));
        self.segments = kept;
    }

    fn find_segment_index(&self, addr: u32) -> (index: Option<usize>)
        ensures
            match index {
                Some(i) => find_segment(self@, addr) == Some(i as int) && i < self@.len()
                    && self@[i as int].contains(addr),
                None => find_segment(self@, addr) is None,
            },
    {
        let mut i: usize = 0;
        while i < self.segments.len()
            invariant
                i <= self.segments@.len(),
                find_segment(self@, addr) == find_segment_from(self@, addr, i as int),
            decreases self.segments@.len() - i,
        {
            let segment = &self.segments[i];
            if segment.start <= addr && addr < segment.end_exclusive {
                return Some(i);
            }
            i += 1;
        }
        None
    }

    /// Reads one byte; fails where no segment contains the address.
    pub fn read_u8_checked(&self, addr: u32) -> (result: Result<u8, EmulatorError>)
        ensures
            result == read_byte(self@, addr),
            result is Ok <==> is_mapped(self@, addr),
    {
        proof {
            use_type_invariant(self);
        }
        match self.find_segment_index(addr) {
            None => Err(EmulatorError::MemoryOutOfBounds { address: addr }),
            Some(idx) => {
                let segment = &self.segments[idx];
                assert(self@[idx as int].covered());
                let offset = (addr - segment.start) as usize;
                if offset < segment.data.len() {
                    Ok(segment.data[offset])
                } else {
                    Err(EmulatorError::MemoryOutOfBounds { address: addr })
                }
            },
        }
    }

    /// Writes one byte. A write into a read-only segment succeeds and changes nothing;
    /// a write where nothing is mapped fails.
    pub fn write_u8_checked(&mut self, addr: u32, value: u8) -> (result: Result<(), EmulatorError>)
        ensures
            result == write_byte_result(old(self)@, addr),
            final(self)@ == write_byte(old(self)@, addr, value),
            result is Ok <==> is_mapped(old(self)@, addr),
    {
        proof {
            use_type_invariant(&*self);
        }
        match self.find_segment_index(addr) {
            None => Err(EmulatorError::MemoryOutOfBounds { address: addr }),
            Some(idx) => {
                assert(self@[idx as int].covered());
                if !self.segments[idx].writable {
                    return Ok(());
                }
                let offset = (addr - self.segments[idx].start) as usize;
                if offset >= self.segments[idx].data.len() {
                    return Err(EmulatorError::MemoryOutOfBounds { address: addr });
                }
                let ghost before = self@;
                let mut segments: Vec<Segment> = Vec::new();
                std::mem::swap(&mut segments, &mut self.segments);
                segments[idx].data[offset] = value;
                let ghost after = write_byte(before, addr, value);
                assert(Seq::new(segments@.len(), |k: int| segments@[k]@) =~= after);
                assert(well_formed(after)) by {
                    assert forall|k: int| 0 <= k < after.len() implies (#[trigger] after[k]).covered() by {
                        assert(before[k].covered());
                    }
                    assert forall|a: int, b: int| 0 <= a < b < after.len() implies (#[trigger] after[a]).start
                        <= (#[trigger] after[b]).start by {
                        assert(before[a].start <= before[b].start);
                    }
                }
                self.segments = segments;
                Ok(())
            },
        }
    }

    /// Reads one byte; zero where nothing is mapped.
    pub fn read_u8(&self, addr: u32) -> (value: u8)
        ensures
            value == read_byte_or_zero(self@, addr),
    {
        match self.read_u8_checked(addr) {
            Ok(value) => value,
            Err(_) => 0,
        }
    }

    /// Writes one byte; silently dropped where nothing is mapped or the segment is
    /// read-only.
    pub fn write_u8(&mut self, addr: u32, value: u8)
        ensures
            final(self)@ == write_byte(old(self)@, addr, value),
    {
        let _ = self.write_u8_checked(addr, value);
    }

    /// Reads a little-endian word as four byte reads at `addr`, `addr+1`, `addr+2`,
    /// `addr+3`, wrapping in the 32-bit address space.
    pub fn read_u32_checked(&self, addr: u32) -> (result: Result<u32, EmulatorError>)
        ensures
            result == read_word(self@, addr),
    {
        let b0 = match self.read_u8_checked(addr) {
            Ok(b) => b,
            Err(e) => return Err(e),
        };
        let b1 = match self.read_u8_checked(addr.wrapping_add(1)) {
            Ok(b) => b,
            Err(e) => return Err(e),
        };
        let b2 = match self.read_u8_checked(addr.wrapping_add(2)) {
            Ok(b) => b,
            Err(e) => return Err(e),
        };
        let b3 = match self.read_u8_checked(addr.wrapping_add(3)) {
            Ok(b) => b,
            Err(e) => return Err(e),
        };
        Ok(make_le_word(b0, b1, b2, b3))
    }

    /// Writes a little-endian word as four byte writes at wrapping addresses, stopping
    /// at the first one that fails.
    pub fn write_u32_checked(&mut self, addr: u32, value: u32) -> (result: Result<
        (),
        EmulatorError,
    >)
        ensures
            result == write_word_result(old(self)@, addr, value),
            final(self)@ == write_word(old(self)@, addr, value),
    {
        reveal_with_fuel(write_word_lanes, 5);
        reveal_with_fuel(write_word_lanes_result, 5);
        let mut lane: u32 = 0;
        while lane < 4
            invariant
                lane <= 4,
                self@ == write_word_lanes(old(self)@, addr, value, lane as nat),
                write_word_lanes_result(old(self)@, addr, value, lane as nat) is Ok,
            decreases 4 - lane,
        {
            let byte = take_le_byte(value, lane);
            match self.write_u8_checked(addr.wrapping_add(lane), byte) {
                Ok(_) => {},
                Err(e) => {
                    proof {
                        lemma_failed_lane_is_final(old(self)@, addr, value, (lane + 1) as nat, 4);
                    }
                    return Err(e);
                },
            }
            lane += 1;
        }
        Ok(())
    }

    /// Reads a little-endian word; zero where any of its bytes is unmapped.
    pub fn read_u32(&self, addr: u32) -> (value: u32)
        ensures
            value == read_word_or_zero(self@, addr),
    {
        match self.read_u32_checked(addr) {
            Ok(value) => value,
            Err(_) => 0,
        }
    }

    /// Writes a little-endian word; bytes that cannot be written are dropped.
    pub fn write_u32(&mut self, addr: u32, value: u32)
        ensures
            final(self)@ == write_word(old(self)@, addr, value),
    {
        let _ = self.write_u32_checked(addr, value);
    }

    /// Zeroes the backing store of every writable segment.
    pub fn clear_writable(&mut self)
        ensures
            final(self)@ == cleared(old(self)@),
    {
        proof {
            use_type_invariant(&*self);
        }
        let ghost before = self@;
        let mut segments: Vec<Segment> = Vec::new();
        std::mem::swap(&mut segments, &mut self.segments);
        let mut i: usize = 0;
        while i < segments.len()
            invariant
                i <= segments@.len(),
                segments@.len() == before.len(),
                forall|k: int| 0 <= k < i ==> (#[trigger] segments@[k])@ == cleared(before)[k],
                forall|k: int| i <= k < segments@.len() ==> (#[trigger] segments@[k])@ == before[k],
            decreases segments@.len() - i,
        {
            if segments[i].writable {
                let len = segments[i].data.len();
                let zeros: Vec<u8> = vec![0u8; len];
                assert(zeros@ =~= Seq::new(len as nat, |j: int| 0u8));
                segments[i].data = zeros;
            }
            i += 1;
        }
        assert(Seq::new(segments@.len(), |k: int| segments@[k]@) =~= cleared(before));
        assert(well_formed(cleared(before))) by {
            assert forall|k: int| 0 <= k < before.len() implies (#[trigger] cleared(before)[k]).covered() by {
                assert(before[k].covered());
            }
            assert forall|a: int, b: int| 0 <= a < b < before.len() implies (#[trigger] cleared(
                before,
            )[a]).start <= (#[trigger] cleared(before)[b]).start by {
                assert(before[a].start <= before[b].start);
            }
        }
        self.segments = segments;
    }

    /// Total length of all backing stores, saturating at `usize::MAX`.
    pub fn len_mapped_bytes(&self) -> (total: usize)
        ensures
            total == if mapped_bytes(self@, self@.len() as int) > usize::MAX {
                usize::MAX as int
            } else {
                mapped_bytes(self@, self@.len() as int)
            },
    {
        let mut total: usize = 0;
        let mut i: usize = 0;
        while i < self.segments.len()
            invariant
                i <= self.segments@.len(),
                mapped_bytes(self@, i as int) >= 0,
                total == if mapped_bytes(self@, i as int) > usize::MAX {
                    usize::MAX as int
                } else {
                    mapped_bytes(self@, i as int)
                },
            decreases self.segments@.len() - i,
        {
            total = total.saturating_add(self.segments[i].data.len());
            i += 1;
        }
        total
    }
}

/// Once a lane of a word write has failed, no later lane is attempted.
pub proof fn lemma_failed_lane_is_final(m: MemoryModel, addr: u32, value: u32, failed: nat, count: nat)
    requires
        failed <= count,
        write_word_lanes_result(m, addr, value, failed) is Err,
    ensures
        write_word_lanes_result(m, addr, value, count) == write_word_lanes_result(
            m,
            addr,
            value,
            failed,
        ),
        write_word_lanes(m, addr, value, count) == write_word_lanes(m, addr, value, failed),
    decreases count,
{
    if failed < count {
        lemma_failed_lane_is_final(m, addr, value, failed, (count - 1) as nat);
    }
}

/// A byte write moves no segment: every address is served by the same segment as before.
pub proof fn lemma_write_keeps_lookup(m: MemoryModel, addr: u32, value: u8, probe: u32, from: int)
    ensures
        find_segment_from(write_byte(m, addr, value), probe, from) == find_segment_from(
            m,
            probe,
            from,
        ),
        write_byte(m, addr, value).len() == m.len(),
    decreases m.len() - from,
{
    lemma_find_segment(m, addr, 0);
    if 0 <= from < m.len() {
        lemma_write_keeps_lookup(m, addr, value, probe, from + 1);
    }
}

/// The segment found for an address contains it and is the first to do so.
pub proof fn lemma_find_segment(m: MemoryModel, addr: u32, from: int)
    requires
        0 <= from,
    ensures
        match find_segment_from(m, addr, from) {
            Some(i) => from <= i < m.len() && m[i].contains(addr),
            None => forall|k: int| from <= k < m.len() ==> !(#[trigger] m[k]).contains(addr),
        },
    decreases m.len() - from,
{
    if from < m.len() && !m[from].contains(addr) {
        lemma_find_segment(m, addr, from + 1);
    }
}

/// A byte write keeps the bus well formed.
pub proof fn lemma_write_byte_well_formed(m: MemoryModel, addr: u32, value: u8)
    requires
        well_formed(m),
    ensures
        well_formed(write_byte(m, addr, value)),
{
    let after = write_byte(m, addr, value);
    lemma_find_segment(m, addr, 0);
    assert forall|k: int| 0 <= k < after.len() implies (#[trigger] after[k]).covered() by {
        assert(m[k].covered());
    }
    assert forall|a: int, b: int| 0 <= a < b < after.len() implies (#[trigger] after[a]).start <= (
    #[trigger] after[b]).start by {
        assert(m[a].start <= m[b].start);
    }
}

/// A checked byte write at a writable address is read back, and no other address
/// changes its value, its mapping or its protection.
pub proof fn law_byte_write_then_read(m: MemoryModel, addr: u32, value: u8, other: u32)
    requires
        well_formed(m),
        is_writable(m, addr),
    ensures
        write_byte_result(m, addr) is Ok,
        read_byte(write_byte(m, addr, value), addr) == Ok::<u8, EmulatorError>(value),
        other != addr ==> read_byte(write_byte(m, addr, value), other) == read_byte(m, other),
        is_writable(write_byte(m, addr, value), other) == is_writable(m, other),
        is_mapped(write_byte(m, addr, value), other) == is_mapped(m, other),
        well_formed(write_byte(m, addr, value)),
{
    lemma_find_segment(m, addr, 0);
    lemma_find_segment(m, other, 0);
    lemma_write_keeps_lookup(m, addr, value, addr, 0);
    lemma_write_keeps_lookup(m, addr, value, other, 0);
    lemma_write_byte_well_formed(m, addr, value);
    let i = find_segment(m, addr)->Some_0;
    assert(m[i].covered());
}

/// A word read succeeds exactly where its four byte reads do, and is then the
/// little-endian concatenation of the four bytes read.
pub proof fn law_word_read_is_little_endian(m: MemoryModel, addr: u32)
    ensures
        read_word(m, addr) is Ok <==> read_byte(m, addr) is Ok && read_byte(
            m,
            addr.wrapping_add(1),
        ) is Ok && read_byte(m, addr.wrapping_add(2)) is Ok && read_byte(
            m,
            addr.wrapping_add(3),
        ) is Ok,
        read_word(m, addr) matches Ok(word) ==> word == le_word(
            read_byte(m, addr)->Ok_0,
            read_byte(m, addr.wrapping_add(1))->Ok_0,
            read_byte(m, addr.wrapping_add(2))->Ok_0,
            read_byte(m, addr.wrapping_add(3))->Ok_0,
        ),
{
}

/// A checked word write whose four bytes lie at writable addresses succeeds and is
/// read back, as a word and byte by byte.
pub proof fn law_word_write_then_read(m: MemoryModel, addr: u32, value: u32)
    requires
        well_formed(m),
        is_writable(m, addr),
        is_writable(m, addr.wrapping_add(1)),
        is_writable(m, addr.wrapping_add(2)),
        is_writable(m, addr.wrapping_add(3)),
    ensures
        write_word_result(m, addr, value) is Ok,
        read_word(write_word(m, addr, value), addr) == Ok::<u32, EmulatorError>(value),
        forall|lane: u32|
            lane < 4 ==> read_byte(write_word(m, addr, value), addr.wrapping_add(lane)) == Ok::<
                u8,
                EmulatorError,
            >(#[trigger] le_byte(value, lane)),
        well_formed(write_word(m, addr, value)),
{
    reveal_with_fuel(write_word_lanes, 5);
    reveal_with_fuel(write_word_lanes_result, 5);
    let a0 = addr;
    let a1 = addr.wrapping_add(1);
    let a2 = addr.wrapping_add(2);
    let a3 = addr.wrapping_add(3);
    let m1 = write_byte(m, a0, le_byte(value, 0));
    let m2 = write_byte(m1, a1, le_byte(value, 1));
    let m3 = write_byte(m2, a2, le_byte(value, 2));
    let m4 = write_byte(m3, a3, le_byte(value, 3));
    assert(addr.wrapping_add(0) == addr);
    law_byte_write_then_read(m, a0, le_byte(value, 0), a1);
    law_byte_write_then_read(m, a0, le_byte(value, 0), a2);
    law_byte_write_then_read(m, a0, le_byte(value, 0), a3);
    law_byte_write_then_read(m1, a1, le_byte(value, 1), a0);
    law_byte_write_then_read(m1, a1, le_byte(value, 1), a2);
    law_byte_write_then_read(m1, a1, le_byte(value, 1), a3);
    law_byte_write_then_read(m2, a2, le_byte(value, 2), a0);
    law_byte_write_then_read(m2, a2, le_byte(value, 2), a1);
    law_byte_write_then_read(m2, a2, le_byte(value, 2), a3);
    law_byte_write_then_read(m3, a3, le_byte(value, 3), a0);
    law_byte_write_then_read(m3, a3, le_byte(value, 3), a1);
    law_byte_write_then_read(m3, a3, le_byte(value, 3), a2);
    assert(write_word(m, addr, value) == m4);
    crate::bits::lemma_le_roundtrip();
    assert forall|lane: u32| lane < 4 implies read_byte(m4, addr.wrapping_add(lane)) == Ok::<
        u8,
        EmulatorError,
    >(#[trigger] le_byte(value, lane)) by {
        if lane == 0 {
        } else if lane == 1 {
        } else if lane == 2 {
        } else {
            assert(lane == 3);
        }
    }
}

/// The bus after a sequence of byte writes, applied first to last.
pub open spec fn write_bytes(m: MemoryModel, writes: Seq<(u32, u8)>) -> MemoryModel
    decreases writes.len(),
{
    if writes.len() == 0 {
        m
    } else {
        write_byte(write_bytes(m, writes.drop_last()), writes.last().0, writes.last().1)
    }
}

/// The value most recently written to `addr` by a sequence of byte writes.
pub open spec fn last_written(writes: Seq<(u32, u8)>, addr: u32) -> Option<u8>
    decreases writes.len(),
{
    if writes.len() == 0 {
        None
    } else if writes.last().0 == addr {
        Some(writes.last().1)
    } else {
        last_written(writes.drop_last(), addr)
    }
}

/// After any sequence of checked byte writes at writable addresses, a read returns
/// the value written last to its address, or what the bus held before where none
/// was written.
pub proof fn law_writes_then_read(m: MemoryModel, writes: Seq<(u32, u8)>, addr: u32)
    requires
        well_formed(m),
        forall|k: int| 0 <= k < writes.len() ==> is_writable(m, (#[trigger] writes[k]).0),
    ensures
        well_formed(write_bytes(m, writes)),
        is_writable(write_bytes(m, writes), addr) == is_writable(m, addr),
        read_byte(write_bytes(m, writes), addr) == match last_written(writes, addr) {
            Some(value) => Ok::<u8, EmulatorError>(value),
            None => read_byte(m, addr),
        },
    decreases writes.len(),
{
    if writes.len() > 0 {
        let front = writes.drop_last();
        let target = writes.last().0;
        assert forall|k: int| 0 <= k < front.len() implies is_writable(m, (#[trigger] front[k]).0) by {
            assert(front[k] == writes[k]);
        }
        law_writes_then_read(m, front, addr);
        law_writes_then_read(m, front, target);
        assert(is_writable(m, writes[writes.len() - 1].0));
        law_byte_write_then_read(write_bytes(m, front), target, writes.last().1, addr);
    }
}

/// Result of writing the first `count` of `bytes` to consecutive wrapping
/// addresses from `addr` on, stopping at the first write that fails.
pub open spec fn store_result(m: MemoryModel, addr: u32, bytes: Seq<u8>, count: nat) -> Result<
    (),
    EmulatorError,
>
    decreases count,
{
    if count == 0 {
        Ok(())
    } else {
        match store_result(m, addr, bytes, (count - 1) as nat) {
            Err(e) => Err(e),
            Ok(_) => write_byte_result(
                stored(m, addr, bytes, (count - 1) as nat),
                addr.wrapping_add((count - 1) as u32),
            ),
        }
    }
}

/// The bus after the first `count` of `bytes` were written to consecutive
/// wrapping addresses from `addr` on, stopping at the first write that fails.
pub open spec fn stored(m: MemoryModel, addr: u32, bytes: Seq<u8>, count: nat) -> MemoryModel
    decreases count,
{
    if count == 0 {
        m
    } else {
        let before = stored(m, addr, bytes, (count - 1) as nat);
        if store_result(m, addr, bytes, (count - 1) as nat) is Err {
            before
        } else {
            write_byte(before, addr.wrapping_add((count - 1) as u32), bytes[count - 1])
        }
    }
}

/// Once a write of a run has failed, no later one is attempted.
pub proof fn lemma_failed_store_is_final(
    m: MemoryModel,
    addr: u32,
    bytes: Seq<u8>,
    failed: nat,
    count: nat,
)
    requires
        failed <= count,
        store_result(m, addr, bytes, failed) is Err,
    ensures
        store_result(m, addr, bytes, count) == store_result(m, addr, bytes, failed),
        stored(m, addr, bytes, count) == stored(m, addr, bytes, failed),
    decreases count,
{
    if failed < count {
        lemma_failed_store_is_final(m, addr, bytes, failed, (count - 1) as nat);
    }
}

impl Memory {
    /// Writes bytes to consecutive addresses from `addr` on, wrapping in the
    /// 32-bit address space, and stops at the first address where nothing is
    /// mapped.
    pub fn store_bytes(&mut self, addr: u32, bytes: &[u8]) -> (result: Result<(), EmulatorError>)
        ensures
            result == store_result(old(self)@, addr, bytes@, bytes@.len()),
            final(self)@ == stored(old(self)@, addr, bytes@, bytes@.len()),
    {
        let mut i: usize = 0;
        while i < bytes.len()
            invariant
                i <= bytes@.len(),
                self@ == stored(old(self)@, addr, bytes@, i as nat),
                store_result(old(self)@, addr, bytes@, i as nat) is Ok,
            decreases bytes@.len() - i,
        {
            #[verifier::truncate]
            let offset = i as u32;
            match self.write_u8_checked(addr.wrapping_add(offset), bytes[i]) {
                Ok(_) => {},
                Err(e) => {
                    proof {
                        lemma_failed_store_is_final(
                            old(self)@,
                            addr,
                            bytes@,
                            (i + 1) as nat,
                            bytes@.len(),
                        );
                    }
                    return Err(e);
                },
            }
            i += 1;
        }
        let result: Result<(), EmulatorError> = Ok(());
        assert(result == store_result(old(self)@, addr, bytes@, bytes@.len()));
        result
    }

    /// Writes `count` zero bytes to consecutive addresses from `addr` on,
    /// wrapping in the 32-bit address space, and stops at the first address where
    /// nothing is mapped.
    pub fn zero_fill(&mut self, addr: u32, count: u32) -> (result: Result<(), EmulatorError>)
        ensures
            result == store_result(
                old(self)@,
                addr,
                Seq::new(count as nat, |i: int| 0u8),
                count as nat,
            ),
            final(self)@ == stored(
                old(self)@,
                addr,
                Seq::new(count as nat, |i: int| 0u8),
                count as nat,
            ),
    {
        let ghost zeros = Seq::new(count as nat, |i: int| 0u8);
        let mut i: u32 = 0;
        while i < count
            invariant
                i <= count,
                zeros == Seq::new(count as nat, |k: int| 0u8),
                self@ == stored(old(self)@, addr, zeros, i as nat),
                store_result(old(self)@, addr, zeros, i as nat) is Ok,
            decreases count - i,
        {
            match self.write_u8_checked(addr.wrapping_add(i), 0) {
                Ok(_) => {},
                Err(e) => {
                    proof {
                        lemma_failed_store_is_final(
                            old(self)@,
                            addr,
                            zeros,
                            (i + 1) as nat,
                            count as nat,
                        );
                    }
                    return Err(e);
                },
            }
            i += 1;
        }
        let result: Result<(), EmulatorError> = Ok(());
        assert(result == store_result(old(self)@, addr, zeros, count as nat));
        result
    }
}

} // verus!
