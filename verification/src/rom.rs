use vstd::prelude::*;
use vstd::slice::{slice_subrange, slice_to_vec};
use crate::error::EmulatorError;
use crate::loader::exheader::{service_names, EXHEADER_SIZE, SERVICE_LIST_OFFSET, SERVICE_SLOTS};
use crate::text::{
    decode_lenient, has_magic, is_all_zero, le_word_at, magic_at, read_u32_le, take_until_zero,
    trim_text,
};

pub use crate::loader::ncch::RomRegion;

verus! {

/// The extended header of a program, with the page counts of its sections.
#[derive(Debug, Clone, PartialEq, Eq)]
pub struct ExHeader {
    pub text_address: u32,
    pub text_size: u32,
    pub text_pages: u32,
    pub ro_address: u32,
    pub ro_size: u32,
    pub ro_pages: u32,
    pub data_address: u32,
    pub data_size: u32,
    pub data_pages: u32,
    pub bss_size: u32,
    pub stack_size: u32,
    pub heap_size: u32,
    pub service_access: Vec<String>,
}

/// Mathematical model of an extended header.
pub struct HeaderModel {
    pub text_address: u32,
    pub text_size: u32,
    pub text_pages: u32,
    pub ro_address: u32,
    pub ro_size: u32,
    pub ro_pages: u32,
    pub data_address: u32,
    pub data_size: u32,
    pub data_pages: u32,
    pub bss_size: u32,
    pub stack_size: u32,
    pub heap_size: u32,
    pub service_access: Seq<Seq<char>>,
}

impl View for ExHeader {
    type V = HeaderModel;

    open spec fn view(&self) -> HeaderModel {
        HeaderModel {
            text_address: self.text_address,
            text_size: self.text_size,
            text_pages: self.text_pages,
            ro_address: self.ro_address,
            ro_size: self.ro_size,
            ro_pages: self.ro_pages,
            data_address: self.data_address,
            data_size: self.data_size,
            data_pages: self.data_pages,
            bss_size: self.bss_size,
            stack_size: self.stack_size,
            heap_size: self.heap_size,
            service_access: Seq::new(
                self.service_access@.len(),
                |i: int| self.service_access@[i]@,
            ),
        }
    }
}

/// A program of the image: its entry point, its extended header, and where its
/// three sections lie in the image.
#[derive(Debug, Clone, PartialEq, Eq)]
pub struct NcchProgram {
    pub entrypoint: u32,
    pub exheader: ExHeader,
    pub text_region: RomRegion,
    pub ro_region: RomRegion,
    pub data_region: RomRegion,
}

/// Mathematical model of a program.
pub struct ProgramModel {
    pub entrypoint: u32,
    pub exheader: HeaderModel,
    pub text_region: RomRegion,
    pub ro_region: RomRegion,
    pub data_region: RomRegion,
}

impl View for NcchProgram {
    type V = ProgramModel;

    open spec fn view(&self) -> ProgramModel {
        ProgramModel {
            entrypoint: self.entrypoint,
            exheader: self.exheader@,
            text_region: self.text_region,
            ro_region: self.ro_region,
            data_region: self.data_region,
        }
    }
}

#[derive(Debug, Clone, PartialEq, Eq)]
pub struct NcsdPartition {
    pub index: usize,
    pub region: RomRegion,
    pub program: NcchProgram,
}

/// Mathematical model of a partition.
pub struct PartitionView {
    pub index: usize,
    pub region: RomRegion,
    pub program: ProgramModel,
}

impl View for NcsdPartition {
    type V = PartitionView;

    open spec fn view(&self) -> PartitionView {
        PartitionView { index: self.index, region: self.region, program: self.program@ }
    }
}

/// A ROM image with the section regions of its programs.
#[derive(Debug, Clone)]
pub struct RomImage {
    bytes: Vec<u8>,
    partitions: Vec<NcsdPartition>,
}

/// Mathematical model of a ROM image.
pub struct ImageModel {
    pub bytes: Seq<u8>,
    pub partitions: Seq<PartitionView>,
}

impl View for RomImage {
    type V = ImageModel;

    closed spec fn view(&self) -> ImageModel {
        ImageModel {
            bytes: self.bytes@,
            partitions: Seq::new(self.partitions@.len(), |i: int| self.partitions@[i]@),
        }
    }
}

/// The extended header that bytes hold.
pub open spec fn header_of(raw: Seq<u8>) -> Result<HeaderModel, EmulatorError> {
    if raw.len() < EXHEADER_SIZE {
        Err(EmulatorError::InvalidExHeader)
    } else {
        Ok(
            HeaderModel {
                text_address: le_word_at(raw, 0x10),
                text_pages: le_word_at(raw, 0x14),
                text_size: le_word_at(raw, 0x18),
                stack_size: le_word_at(raw, 0x1C),
                ro_address: le_word_at(raw, 0x20),
                ro_pages: le_word_at(raw, 0x24),
                ro_size: le_word_at(raw, 0x28),
                data_address: le_word_at(raw, 0x30),
                data_pages: le_word_at(raw, 0x34),
                data_size: le_word_at(raw, 0x38),
                bss_size: le_word_at(raw, 0x3C),
                heap_size: le_word_at(raw, 0x40),
                service_access: service_names(raw, SERVICE_SLOTS as int),
            },
        )
    }
}

/// The region that a program header names at `field`, in media units relative
/// to the start of the program.
pub open spec fn region_of(header: Seq<u8>, ncch_offset: int, ncch_end: int, field: int) -> Result<
    RomRegion,
    EmulatorError,
> {
    let offset = ncch_offset + le_word_at(header, field) * 0x200;
    let size = le_word_at(header, field + 4) * 0x200;
    if size == 0 || offset + size > ncch_end {
        Err(EmulatorError::InvalidRomLayout)
    } else {
        Ok(RomRegion { offset: offset as usize, size: size as usize })
    }
}

/// The program that lies at `ncch_offset` and spans `ncch_size` bytes.
pub open spec fn program_of(raw: Seq<u8>, ncch_offset: int, ncch_size: int) -> Result<
    ProgramModel,
    EmulatorError,
> {
    let header = raw.subrange(ncch_offset, ncch_offset + 0x200);
    let exheader_size = le_word_at(header, 0x180) as int;
    let exheader_offset = ncch_offset + 0x200;
    let exheader_bytes = raw.subrange(exheader_offset, exheader_offset + exheader_size);
    let ncch_end = ncch_offset + ncch_size;
    if ncch_size < 0x200 || ncch_offset + 0x200 > raw.len() {
        Err(EmulatorError::InvalidRomLayout)
    } else if !magic_at(header, 0x100, 0x4E, 0x43, 0x43, 0x48) {
        Err(EmulatorError::InvalidRomLayout)
    } else if exheader_size == 0 {
        Err(EmulatorError::InvalidRomLayout)
    } else if exheader_offset + exheader_size > ncch_end || exheader_offset + exheader_size
        > raw.len() {
        Err(EmulatorError::InvalidRomLayout)
    } else {
        match header_of(exheader_bytes) {
            Err(e) => Err(e),
            Ok(exheader) => match region_of(header, ncch_offset, ncch_end, 0x190) {
                Err(e) => Err(e),
                Ok(text_region) => match region_of(header, ncch_offset, ncch_end, 0x198) {
                    Err(e) => Err(e),
                    Ok(ro_region) => match region_of(header, ncch_offset, ncch_end, 0x1A0) {
                        Err(e) => Err(e),
                        Ok(data_region) => Ok(
                            ProgramModel {
                                entrypoint: le_word_at(exheader_bytes, 0),
                                exheader,
                                text_region,
                                ro_region,
                                data_region,
                            },
                        ),
                    },
                },
            },
        }
    }
}

/// The first `count` entries of the partition table, parsed in order.
pub open spec fn partitions_of(raw: Seq<u8>, count: int) -> Result<Seq<PartitionView>, EmulatorError>
    decreases count,
{
    if count <= 0 {
        Ok(Seq::empty())
    } else {
        let offset = le_word_at(raw, 0x120 + 8 * (count - 1)) * 0x200;
        let size = le_word_at(raw, 0x120 + 8 * (count - 1) + 4) * 0x200;
        match partitions_of(raw, count - 1) {
            Err(e) => Err(e),
            Ok(front) => if offset == 0 || size == 0 {
                Ok(front)
            } else if offset + size > raw.len() {
                Err(EmulatorError::InvalidRomLayout)
            } else {
                match program_of(raw, offset, size) {
                    Err(e) => Err(e),
                    Ok(program) => Ok(
                        front.push(
                            PartitionView {
                                index: (count - 1) as usize,
                                region: RomRegion { offset: offset as usize, size: size as usize },
                                program,
                            },
                        ),
                    ),
                }
            },
        }
    }
}

/// The image that bytes hold, where they are no more than `max_size`.
pub open spec fn image_of(raw: Seq<u8>, max_size: usize) -> Result<ImageModel, EmulatorError> {
    if raw.len() < 0x200 {
        Err(EmulatorError::RomTooSmall)
    } else if raw.len() > max_size {
        Err(EmulatorError::RomTooLarge { size: raw.len() as usize, capacity: max_size })
    } else if !magic_at(raw, 0x100, 0x4E, 0x43, 0x53, 0x44) {
        Err(EmulatorError::InvalidRomMagic)
    } else {
        match partitions_of(raw, 8) {
            Err(e) => Err(e),
            Ok(partitions) => if partitions.len() == 0 {
                Err(EmulatorError::InvalidRomLayout)
            } else {
                Ok(ImageModel { bytes: raw, partitions })
            },
        }
    }
}

/// Once an entry of the partition table has failed, the table has failed.
pub proof fn lemma_partition_failure_is_final(raw: Seq<u8>, failed: int, count: int)
    requires
        failed <= count,
        partitions_of(raw, failed) is Err,
    ensures
        partitions_of(raw, count) == partitions_of(raw, failed),
    decreases count,
{
    if failed < count {
        lemma_partition_failure_is_final(raw, failed, count - 1);
    }
}

fn parse_exheader(raw: &[u8]) -> (result: Result<ExHeader, EmulatorError>)
    ensures
        match result {
            Ok(header) => header_of(raw@) == Ok::<HeaderModel, EmulatorError>(header@),
            Err(e) => header_of(raw@) == Err::<HeaderModel, EmulatorError>(e),
        },
{
    if raw.len() < EXHEADER_SIZE {
        return Err(EmulatorError::InvalidExHeader);
    }
    let mut service_access: Vec<String> = Vec::new();
    let mut idx: usize = 0;
    while idx < SERVICE_SLOTS
        invariant
            idx <= SERVICE_SLOTS,
            raw@.len() >= EXHEADER_SIZE,
            Seq::new(service_access@.len(), |i: int| service_access@[i]@) == service_names(
                raw@,
                idx as int,
            ),
        decreases SERVICE_SLOTS - idx,
    {
        let start = SERVICE_LIST_OFFSET + idx * 8;
        if !is_all_zero(raw, start, start + 8) {
            let decoded = decode_lenient(&take_until_zero(raw, start, start + 8));
            let name = trim_text(decoded.as_str());
            if !name.as_str().is_empty() {
                let ghost before = Seq::new(service_access@.len(), |i: int| service_access@[i]@);
                let ghost added = name@;
                service_access.push(name);
                assert(Seq::new(service_access@.len(), |i: int| service_access@[i]@)
                    =~= before.push(added));
            }
        }
        idx += 1;
    }
    Ok(
        ExHeader {
            text_address: read_u32_le(raw, 0x10),
            text_pages: read_u32_le(raw, 0x14),
            text_size: read_u32_le(raw, 0x18),
            stack_size: read_u32_le(raw, 0x1C),
            ro_address: read_u32_le(raw, 0x20),
            ro_pages: read_u32_le(raw, 0x24),
            ro_size: read_u32_le(raw, 0x28),
            data_address: read_u32_le(raw, 0x30),
            data_pages: read_u32_le(raw, 0x34),
            data_size: read_u32_le(raw, 0x38),
            bss_size: read_u32_le(raw, 0x3C),
            heap_size: read_u32_le(raw, 0x40),
            service_access,
        },
    )
}

fn parse_section_region(header: &[u8], ncch_offset: usize, ncch_end: usize, field: usize) -> (result:
    Result<RomRegion, EmulatorError>)
    requires
        header@.len() == 0x200,
        field + 8 <= 0x200,
        ncch_offset <= ncch_end,
    ensures
        result == region_of(header@, ncch_offset as int, ncch_end as int, field as int),
{
    let offset_units = read_u32_le(header, field) as u128;
    let size_units = read_u32_le(header, field + 4) as u128;
    let offset: u128 = ncch_offset as u128 + offset_units * 0x200;
    let size: u128 = size_units * 0x200;
    if size == 0 || offset + size > ncch_end as u128 {
        return Err(EmulatorError::InvalidRomLayout);
    }
    Ok(RomRegion { offset: offset as usize, size: size as usize })
}

fn parse_ncch_program(raw: &[u8], ncch_offset: usize, ncch_size: usize) -> (result: Result<
    NcchProgram,
    EmulatorError,
>)
    requires
        ncch_offset + ncch_size <= usize::MAX,
    ensures
        match result {
            Ok(program) => program_of(raw@, ncch_offset as int, ncch_size as int) == Ok::<
                ProgramModel,
                EmulatorError,
            >(program@),
            Err(e) => program_of(raw@, ncch_offset as int, ncch_size as int) == Err::<
                ProgramModel,
                EmulatorError,
            >(e),
        },
{
    if ncch_size < 0x200 || ncch_offset > raw.len() || raw.len() - ncch_offset < 0x200 {
        return Err(EmulatorError::InvalidRomLayout);
    }
    let header = slice_subrange(raw, ncch_offset, ncch_offset + 0x200);
    if !has_magic(header, 0x100, 0x4E, 0x43, 0x43, 0x48) {
        return Err(EmulatorError::InvalidRomLayout);
    }
    let exheader_size = read_u32_le(header, 0x180) as u64;
    if exheader_size == 0 {
        return Err(EmulatorError::InvalidRomLayout);
    }
    let exheader_offset = ncch_offset + 0x200;
    let ncch_end = ncch_offset + ncch_size;
    let exheader_end: u128 = exheader_offset as u128 + exheader_size as u128;
    if exheader_end > ncch_end as u128 || exheader_end > raw.len() as u128 {
        return Err(EmulatorError::InvalidRomLayout);
    }
    let exheader_bytes = slice_subrange(raw, exheader_offset, exheader_end as usize);
    let exheader = match parse_exheader(exheader_bytes) {
        Ok(exheader) => exheader,
        Err(e) => {
            return Err(e);
        },
    };
    let entrypoint = read_u32_le(exheader_bytes, 0);
    let text_region = match parse_section_region(header, ncch_offset, ncch_end, 0x190) {
        Ok(region) => region,
        Err(e) => {
            return Err(e);
        },
    };
    let ro_region = match parse_section_region(header, ncch_offset, ncch_end, 0x198) {
        Ok(region) => region,
        Err(e) => {
            return Err(e);
        },
    };
    let data_region = match parse_section_region(header, ncch_offset, ncch_end, 0x1A0) {
        Ok(region) => region,
        Err(e) => {
            return Err(e);
        },
    };
    Ok(NcchProgram { entrypoint, exheader, text_region, ro_region, data_region })
}

impl RomImage {
    /// Parses a ROM image of at most `max_size` bytes.
    pub fn parse(raw: &[u8], max_size: usize) -> (result: Result<Self, EmulatorError>)
        ensures
            match result {
                Ok(image) => image_of(raw@, max_size) == Ok::<ImageModel, EmulatorError>(image@),
                Err(e) => image_of(raw@, max_size) == Err::<ImageModel, EmulatorError>(e),
            },
    {
        if raw.len() < 0x200 {
            return Err(EmulatorError::RomTooSmall);
        }
        if raw.len() > max_size {
            return Err(EmulatorError::RomTooLarge { size: raw.len(), capacity: max_size });
        }
        if !has_magic(raw, 0x100, 0x4E, 0x43, 0x53, 0x44) {
            return Err(EmulatorError::InvalidRomMagic);
        }
        let mut partitions: Vec<NcsdPartition> = Vec::new();
        let mut idx: usize = 0;
        assert(Seq::new(partitions@.len(), |i: int| partitions@[i]@) =~= Seq::<
            PartitionView,
        >::empty());
        while idx < 8
            invariant
                idx <= 8,
                raw@.len() >= 0x200,
                raw@.len() <= max_size,
                magic_at(raw@, 0x100, 0x4E, 0x43, 0x53, 0x44),
                partitions_of(raw@, idx as int) == Ok::<Seq<PartitionView>, EmulatorError>(
                    Seq::new(partitions@.len(), |i: int| partitions@[i]@),
                ),
            decreases 8 - idx,
        {
            let entry = 0x120 + idx * 8;
            let offset: u64 = read_u32_le(raw, entry) as u64 * 0x200;
            let size: u64 = read_u32_le(raw, entry + 4) as u64 * 0x200;
            if offset != 0 && size != 0 {
                if offset + size > raw.len() as u64 {
                    proof {
                        lemma_partition_failure_is_final(raw@, idx + 1, 8);
                    }
                    return Err(EmulatorError::InvalidRomLayout);
                }
                let program = match parse_ncch_program(raw, offset as usize, size as usize) {
                    Ok(program) => program,
                    Err(e) => {
                        proof {
                            lemma_partition_failure_is_final(raw@, idx + 1, 8);
                        }
                        return Err(e);
                    },
                };
                let ghost before = Seq::new(partitions@.len(), |i: int| partitions@[i]@);
                partitions.push(
                    NcsdPartition {
                        index: idx,
                        region: RomRegion { offset: offset as usize, size: size as usize },
                        program,
                    },
                );
                assert(Seq::new(partitions@.len(), |i: int| partitions@[i]@) =~= before.push(
                    partitions@.last()@,
                ));
            }
            idx += 1;
        }
        if partitions.len() == 0 {
            return Err(EmulatorError::InvalidRomLayout);
        }
        Ok(RomImage { bytes: slice_to_vec(raw), partitions })
    }

    pub fn bytes(&self) -> (bytes: &[u8])
        ensures
            bytes@ == self@.bytes,
    {
        self.bytes.as_slice()
    }

    pub fn partitions(&self) -> (partitions: &[NcsdPartition])
        ensures
            partitions@.len() == self@.partitions.len(),
            forall|i: int| 0 <= i < partitions@.len() ==> (#[trigger] partitions@[i])@ == self@.partitions[i],
    {
        self.partitions.as_slice()
    }

    /// The program of the first partition.
    pub fn first_program(&self) -> (program: Option<&NcchProgram>)
        ensures
            match program {
                Some(p) => self@.partitions.len() > 0 && p@ == self@.partitions[0].program,
                None => self@.partitions.len() == 0,
            },
    {
        if self.partitions.len() == 0 {
            None
        } else {
            assert(self@.partitions[0] == self.partitions@[0]@);
            Some(&self.partitions[0].program)
        }
    }
}

} // verus!
