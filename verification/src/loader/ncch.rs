use vstd::prelude::*;
use vstd::slice::slice_subrange;
use crate::error::EmulatorError;
use crate::loader::exheader::{parsed_exheader, ExHeader, ExHeaderModel};
use crate::text::{has_magic, le_word_at, magic_at, read_u32_le};

verus! {

pub const NCCH_HEADER_SIZE: usize = 0x200;

pub const MEDIA_UNIT_SIZE: usize = 0x200;

/// A range of bytes of the ROM image.
#[derive(Debug, Clone, Copy, PartialEq, Eq, Structural)]
pub struct RomRegion {
    pub offset: usize,
    pub size: usize,
}

/// A program of the image: its entry point, its extended header, and where its
/// executable file system and its read-only file system lie.
#[derive(Debug, Clone, PartialEq, Eq)]
pub struct NcchProgram {
    pub entrypoint: u32,
    pub exheader: ExHeader,
    pub exefs_region: RomRegion,
    pub romfs_region: Option<RomRegion>,
}

/// Mathematical model of a program.
pub struct NcchModel {
    pub entrypoint: u32,
    pub exheader: ExHeaderModel,
    pub exefs_region: RomRegion,
    pub romfs_region: Option<RomRegion>,
}

impl View for NcchProgram {
    type V = NcchModel;

    open spec fn view(&self) -> NcchModel {
        NcchModel {
            entrypoint: self.entrypoint,
            exheader: self.exheader@,
            exefs_region: self.exefs_region,
            romfs_region: self.romfs_region,
        }
    }
}

impl NcchProgram {
    /// A copy of the program.
    pub fn duplicate(&self) -> (copy: Self)
        ensures
            copy@ == self@,
    {
        NcchProgram {
            entrypoint: self.entrypoint,
            exheader: self.exheader.duplicate(),
            exefs_region: self.exefs_region,
            romfs_region: self.romfs_region,
        }
    }
}

/// The region that the header names at `field`, in media units relative to the
/// start of the program. It must not be empty nor reach beyond the program.
pub open spec fn section_region(header: Seq<u8>, ncch_offset: int, ncch_end: int, field: int) -> Result<
    RomRegion,
    EmulatorError,
> {
    let offset = ncch_offset + le_word_at(header, field) * MEDIA_UNIT_SIZE;
    let size = le_word_at(header, field + 4) * MEDIA_UNIT_SIZE;
    if size == 0 || offset + size > ncch_end {
        Err(EmulatorError::InvalidNcchHeader)
    } else {
        Ok(RomRegion { offset: offset as usize, size: size as usize })
    }
}

/// A region that may be absent: an offset or a size of zero units means that
/// there is none.
pub open spec fn optional_section_region(
    header: Seq<u8>,
    ncch_offset: int,
    ncch_end: int,
    field: int,
) -> Result<Option<RomRegion>, EmulatorError> {
    if le_word_at(header, field) == 0 || le_word_at(header, field + 4) == 0 {
        Ok(None)
    } else {
        match section_region(header, ncch_offset, ncch_end, field) {
            Ok(region) => Ok(Some(region)),
            Err(e) => Err(e),
        }
    }
}

/// Whether the flags of the header ask for a decryption that is not provided.
pub open spec fn needs_crypto(header: Seq<u8>) -> bool {
    header[0x18F] & 0x04 != 0 || header[0x18F] & 0x20 != 0
}

/// The program that lies at `ncch_offset` and spans `ncch_size` bytes.
pub open spec fn parsed_ncch(raw: Seq<u8>, ncch_offset: int, ncch_size: int) -> Result<
    NcchModel,
    EmulatorError,
> {
    let header = raw.subrange(ncch_offset, ncch_offset + NCCH_HEADER_SIZE);
    let exheader_size = le_word_at(header, 0x180) as int;
    let exheader_offset = ncch_offset + NCCH_HEADER_SIZE;
    let exheader_bytes = raw.subrange(exheader_offset, exheader_offset + exheader_size);
    let ncch_end = ncch_offset + ncch_size;
    if ncch_size < NCCH_HEADER_SIZE || ncch_offset + NCCH_HEADER_SIZE > raw.len() {
        Err(EmulatorError::InvalidNcchHeader)
    } else if !magic_at(header, 0x100, 0x4E, 0x43, 0x43, 0x48) {
        Err(EmulatorError::InvalidNcchHeader)
    } else if needs_crypto(header) {
        Err(EmulatorError::UnsupportedNcchCrypto)
    } else if exheader_size < 0x200 {
        Err(EmulatorError::InvalidExHeader)
    } else if exheader_offset + exheader_size > ncch_end || exheader_offset + exheader_size
        > raw.len() {
        Err(EmulatorError::InvalidNcchHeader)
    } else {
        match parsed_exheader(exheader_bytes) {
            Err(e) => Err(e),
            Ok(exheader) => match section_region(header, ncch_offset, ncch_end, 0x1A8) {
                Err(e) => Err(e),
                Ok(exefs_region) => match optional_section_region(
                    header,
                    ncch_offset,
                    ncch_end,
                    0x1B0,
                ) {
                    Err(e) => Err(e),
                    Ok(romfs_region) => Ok(
                        NcchModel {
                            entrypoint: le_word_at(exheader_bytes, 0),
                            exheader,
                            exefs_region,
                            romfs_region,
                        },
                    ),
                },
            },
        }
    }
}

fn parse_section_region(header: &[u8], ncch_offset: usize, ncch_end: usize, field: usize) -> (result:
    Result<RomRegion, EmulatorError>)
    requires
        header@.len() == NCCH_HEADER_SIZE,
        field + 8 <= NCCH_HEADER_SIZE,
        ncch_offset <= ncch_end,
    ensures
        result == section_region(header@, ncch_offset as int, ncch_end as int, field as int),
        result matches Ok(region) ==> region.offset + region.size <= ncch_end && region.size > 0
            && region.offset >= ncch_offset,
{
    let offset_units = read_u32_le(header, field) as u128;
    let size_units = read_u32_le(header, field + 4) as u128;
    let offset: u128 = ncch_offset as u128 + offset_units * 0x200;
    let size: u128 = size_units * 0x200;
    if size == 0 || offset + size > ncch_end as u128 {
        return Err(EmulatorError::InvalidNcchHeader);
    }
    Ok(RomRegion { offset: offset as usize, size: size as usize })
}

fn parse_optional_section_region(
    header: &[u8],
    ncch_offset: usize,
    ncch_end: usize,
    field: usize,
) -> (result: Result<Option<RomRegion>, EmulatorError>)
    requires
        header@.len() == NCCH_HEADER_SIZE,
        field + 8 <= NCCH_HEADER_SIZE,
        ncch_offset <= ncch_end,
    ensures
        result == optional_section_region(
            header@,
            ncch_offset as int,
            ncch_end as int,
            field as int,
        ),
        result matches Ok(Some(region)) ==> region.offset + region.size <= ncch_end && region.size
            > 0 && region.offset >= ncch_offset,
{
    if read_u32_le(header, field) == 0 || read_u32_le(header, field + 4) == 0 {
        return Ok(None);
    }
    match parse_section_region(header, ncch_offset, ncch_end, field) {
        Ok(region) => Ok(Some(region)),
        Err(e) => Err(e),
    }
}

/// Parses the program that lies at `ncch_offset` and spans `ncch_size` bytes.
pub fn parse_ncch_program(raw: &[u8], ncch_offset: usize, ncch_size: usize) -> (result: Result<
    NcchProgram,
    EmulatorError,
>)
    requires
        ncch_offset + ncch_size <= usize::MAX,
    ensures
        match result {
            Ok(program) => parsed_ncch(raw@, ncch_offset as int, ncch_size as int) == Ok::<
                NcchModel,
                EmulatorError,
            >(program@) && program.exefs_region.offset + program.exefs_region.size <= ncch_offset
                + ncch_size && (program.romfs_region matches Some(region) ==> region.offset
                + region.size <= ncch_offset + ncch_size),
            Err(e) => parsed_ncch(raw@, ncch_offset as int, ncch_size as int) == Err::<
                NcchModel,
                EmulatorError,
            >(e),
        },
{
    if ncch_size < NCCH_HEADER_SIZE || ncch_offset > raw.len() || raw.len() - ncch_offset
        < NCCH_HEADER_SIZE {
        return Err(EmulatorError::InvalidNcchHeader);
    }
    let header = slice_subrange(raw, ncch_offset, ncch_offset + NCCH_HEADER_SIZE);
    if !has_magic(header, 0x100, 0x4E, 0x43, 0x43, 0x48) {
        return Err(EmulatorError::InvalidNcchHeader);
    }
    let flags = header[0x188 + 7];
    if flags & 0x04 != 0 || flags & 0x20 != 0 {
        return Err(EmulatorError::UnsupportedNcchCrypto);
    }
    let exheader_size = read_u32_le(header, 0x180) as u64;
    if exheader_size < 0x200 {
        return Err(EmulatorError::InvalidExHeader);
    }
    let exheader_offset = ncch_offset + NCCH_HEADER_SIZE;
    let ncch_end = ncch_offset + ncch_size;
    let exheader_end: u128 = exheader_offset as u128 + exheader_size as u128;
    if exheader_end > ncch_end as u128 || exheader_end > raw.len() as u128 {
        return Err(EmulatorError::InvalidNcchHeader);
    }
    let exheader_bytes = slice_subrange(raw, exheader_offset, exheader_end as usize);
    let exheader = match ExHeader::parse(exheader_bytes) {
        Ok(exheader) => exheader,
        Err(e) => {
            return Err(e);
        },
    };
    let entrypoint = read_u32_le(exheader_bytes, 0);
    let exefs_region = match parse_section_region(header, ncch_offset, ncch_end, 0x1A8) {
        Ok(region) => region,
        Err(e) => {
            return Err(e);
        },
    };
    let romfs_region = match parse_optional_section_region(header, ncch_offset, ncch_end, 0x1B0) {
        Ok(region) => region,
        Err(e) => {
            return Err(e);
        },
    };
    Ok(NcchProgram { entrypoint, exheader, exefs_region, romfs_region })
}

} // verus!
