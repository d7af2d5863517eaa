use vstd::prelude::*;
use vstd::slice::slice_to_vec;
use crate::error::EmulatorError;
use crate::loader::ncch::{parse_ncch_program, parsed_ncch, NcchModel, NcchProgram, RomRegion};
use crate::text::{has_magic, le_word_at, magic_at, read_u32_le};

verus! {

pub const NCSD_MAGIC_OFFSET: usize = 0x100;

pub const NCSD_HEADER_SIZE: usize = 0x200;

pub const NCSD_TABLE_OFFSET: usize = 0x120;

pub const NCSD_PARTITIONS: usize = 8;

/// A partition of the image and the program it holds.
#[derive(Debug, Clone, PartialEq, Eq)]
pub struct NcsdPartition {
    pub index: usize,
    pub region: RomRegion,
    pub program: NcchProgram,
}

/// Mathematical model of a partition.
pub struct PartitionModel {
    pub index: usize,
    pub region: RomRegion,
    pub program: NcchModel,
}

impl View for NcsdPartition {
    type V = PartitionModel;

    open spec fn view(&self) -> PartitionModel {
        PartitionModel { index: self.index, region: self.region, program: self.program@ }
    }
}

impl NcsdPartition {
    /// A copy of the partition.
    pub fn duplicate(&self) -> (copy: Self)
        ensures
            copy@ == self@,
    {
        NcsdPartition {
            index: self.index,
            region: self.region,
            program: self.program.duplicate(),
        }
    }
}

/// A parsed ROM image: its bytes and its partitions.
#[derive(Debug, Clone)]
pub struct RomImage {
    bytes: Vec<u8>,
    partitions: Vec<NcsdPartition>,
}

/// Mathematical model of a ROM image.
pub struct RomImageModel {
    pub bytes: Seq<u8>,
    pub partitions: Seq<PartitionModel>,
}

impl View for RomImage {
    type V = RomImageModel;

    closed spec fn view(&self) -> RomImageModel {
        RomImageModel {
            bytes: self.bytes@,
            partitions: Seq::new(self.partitions@.len(), |i: int| self.partitions@[i]@),
        }
    }
}

/// Offset of partition `index` in bytes, as its table entry gives it.
pub open spec fn partition_offset(raw: Seq<u8>, index: int) -> int {
    le_word_at(raw, NCSD_TABLE_OFFSET + 8 * index) * 0x200
}

/// Size of partition `index` in bytes, as its table entry gives it.
pub open spec fn partition_size(raw: Seq<u8>, index: int) -> int {
    le_word_at(raw, NCSD_TABLE_OFFSET + 8 * index + 4) * 0x200
}

/// The first `count` entries of the partition table, parsed in order: an entry
/// with an offset or a size of zero is passed over, one that reaches beyond the
/// image is an error, and so is a program that does not parse.
pub open spec fn parsed_partitions(raw: Seq<u8>, count: int) -> Result<
    Seq<PartitionModel>,
    EmulatorError,
>
    decreases count,
{
    if count <= 0 {
        Ok(Seq::empty())
    } else {
        let offset = partition_offset(raw, count - 1);
        let size = partition_size(raw, count - 1);
        match parsed_partitions(raw, count - 1) {
            Err(e) => Err(e),
            Ok(front) => if offset == 0 || size == 0 {
                Ok(front)
            } else if offset + size > raw.len() {
                Err(EmulatorError::InvalidNcsdHeader)
            } else {
                match parsed_ncch(raw, offset, size) {
                    Err(e) => Err(e),
                    Ok(program) => Ok(
                        front.push(
                            PartitionModel {
                                index: (count - 1) as usize,
                                region: RomRegion { offset: offset as usize, size: size as usize },
                                program,
                            },
                        ),
                    ),
                }
            },
        }
    }
}

/// The image that bytes hold, where they are no more than `max_size`.
pub open spec fn parsed_rom(raw: Seq<u8>, max_size: usize) -> Result<RomImageModel, EmulatorError> {
    if raw.len() < NCSD_HEADER_SIZE {
        Err(EmulatorError::RomTooSmall)
    } else if raw.len() > max_size {
        Err(EmulatorError::RomTooLarge { size: raw.len() as usize, capacity: max_size })
    } else if !magic_at(raw, NCSD_MAGIC_OFFSET as int, 0x4E, 0x43, 0x53, 0x44) {
        Err(EmulatorError::InvalidRomMagic)
    } else {
        match parsed_partitions(raw, NCSD_PARTITIONS as int) {
            Err(e) => Err(e),
            Ok(partitions) => if partitions.len() == 0 {
                Err(EmulatorError::InvalidNcsdHeader)
            } else {
                Ok(RomImageModel { bytes: raw, partitions })
            },
        }
    }
}

impl RomImageModel {
    /// Every region that a partition names lies inside the image.
    pub open spec fn well_formed(self) -> bool {
        forall|i: int|
            0 <= i < self.partitions.len() ==> {
                let program = (#[trigger] self.partitions[i]).program;
                &&& program.exefs_region.offset + program.exefs_region.size <= self.bytes.len()
                &&& (program.romfs_region matches Some(region) ==> region.offset + region.size
                    <= self.bytes.len())
            }
    }
}

impl RomImage {
    /// Parses a ROM image of at most `max_size` bytes.
    pub fn parse(raw: &[u8], max_size: usize) -> (result: Result<Self, EmulatorError>)
        ensures
            match result {
                Ok(image) => parsed_rom(raw@, max_size) == Ok::<RomImageModel, EmulatorError>(
                    image@,
                ) && image@.well_formed() && image@.partitions.len() > 0,
                Err(e) => parsed_rom(raw@, max_size) == Err::<RomImageModel, EmulatorError>(e),
            },
    {
        if raw.len() < NCSD_HEADER_SIZE {
            return Err(EmulatorError::RomTooSmall);
        }
        if raw.len() > max_size {
            return Err(EmulatorError::RomTooLarge { size: raw.len(), capacity: max_size });
        }
        if !has_magic(raw, NCSD_MAGIC_OFFSET, 0x4E, 0x43, 0x53, 0x44) {
            return Err(EmulatorError::InvalidRomMagic);
        }
        let mut partitions: Vec<NcsdPartition> = Vec::new();
        let mut idx: usize = 0;
        assert(Seq::new(partitions@.len(), |i: int| partitions@[i]@) =~= Seq::<
            PartitionModel,
        >::empty());
        while idx < NCSD_PARTITIONS
            invariant
                idx <= NCSD_PARTITIONS,
                raw@.len() >= NCSD_HEADER_SIZE,
                raw@.len() <= max_size,
                magic_at(raw@, NCSD_MAGIC_OFFSET as int, 0x4E, 0x43, 0x53, 0x44),
                parsed_partitions(raw@, idx as int) == Ok::<Seq<PartitionModel>, EmulatorError>(
                    Seq::new(partitions@.len(), |i: int| partitions@[i]@),
                ),
                forall|i: int|
                    0 <= i < partitions@.len() ==> {
                        let program = (#[trigger] partitions@[i]).program;
                        &&& program.exefs_region.offset + program.exefs_region.size <= raw@.len()
                        &&& (program.romfs_region matches Some(region) ==> region.offset
                            + region.size <= raw@.len())
                    },
            decreases NCSD_PARTITIONS - idx,
        {
            let entry = NCSD_TABLE_OFFSET + idx * 8;
            let offset: u64 = read_u32_le(raw, entry) as u64 * 0x200;
            let size: u64 = read_u32_le(raw, entry + 4) as u64 * 0x200;
            if offset != 0 && size != 0 {
                if offset + size > raw.len() as u64 {
                    proof {
                        lemma_partition_error_is_final(raw@, idx + 1, NCSD_PARTITIONS as int);
                    }
                    return Err(EmulatorError::InvalidNcsdHeader);
                }
                let program = match parse_ncch_program(raw, offset as usize, size as usize) {
                    Ok(program) => program,
                    Err(e) => {
                        proof {
                            lemma_partition_error_is_final(raw@, idx + 1, NCSD_PARTITIONS as int);
                        }
                        return Err(e);
                    },
                };
                let ghost before = Seq::new(partitions@.len(), |i: int| partitions@[i]@);
                let partition = NcsdPartition {
                    index: idx,
                    region: RomRegion { offset: offset as usize, size: size as usize },
                    program,
                };
                partitions.push(partition);
                assert(Seq::new(partitions@.len(), |i: int| partitions@[i]@) =~= before.push(
                    partitions@.last()@,
                ));
            }
            idx += 1;
        }
        if partitions.len() == 0 {
            return Err(EmulatorError::InvalidNcsdHeader);
        }
        let image = RomImage { bytes: slice_to_vec(raw), partitions };
        assert(image@.well_formed()) by {
            assert forall|i: int| 0 <= i < image@.partitions.len() implies {
                let program = (#[trigger] image@.partitions[i]).program;
                &&& program.exefs_region.offset + program.exefs_region.size <= image@.bytes.len()
                &&& (program.romfs_region matches Some(region) ==> region.offset + region.size
                    <= image@.bytes.len())
            } by {
                assert(image@.partitions[i] == image.partitions@[i]@);
            }
        }
        Ok(image)
    }

    pub fn bytes(&self) -> (bytes: &[u8])
        ensures
            bytes@ == self@.bytes,
    {
        self.bytes.as_slice()
    }

    pub fn partitions(&self) -> (partitions: &[NcsdPartition])
        ensures
            partitions@.len() == self@.partitions.len(),
            forall|i: int| 0 <= i < partitions@.len() ==> (#[trigger] partitions@[i])@ == self@.partitions[i],
    {
        self.partitions.as_slice()
    }
}

/// Once an entry of the partition table has failed, the table has failed.
pub proof fn lemma_partition_error_is_final(raw: Seq<u8>, failed: int, count: int)
    requires
        failed <= count,
        parsed_partitions(raw, failed) is Err,
    ensures
        parsed_partitions(raw, count) == parsed_partitions(raw, failed),
    decreases count,
{
    if failed < count {
        lemma_partition_error_is_final(raw, failed, count - 1);
    }
}

} // verus!
