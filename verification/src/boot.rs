use vstd::prelude::*;
use vstd::slice::slice_subrange;
use crate::error::EmulatorError;
use crate::fs::{VfsModel, VirtualFileSystem};
use crate::loader::exefs::{parsed_exefs, ExeFs, ExeFsFile, ExeFsFileModel};
use crate::loader::exheader::{ExHeader, ExHeaderModel};
use crate::loader::ncch::RomRegion;
use crate::loader::ncsd::{parsed_rom, NcsdPartition, PartitionModel, RomImage, RomImageModel};
use crate::loader::process::code_file_name;
use crate::loader::romfs::{parsed_romfs, RomFs};
use crate::memory::{write_byte, write_word, Memory, MemoryModel};
use crate::text::{copy_bytes, le_word_at, read_u32_le};

verus! {

/// A section of a boot image: where it is mapped and what it holds.
#[derive(Debug, Clone, PartialEq, Eq)]
pub struct MappedSegment {
    pub virtual_address: u32,
    pub size: u32,
    pub bytes: Vec<u8>,
}

/// Mathematical model of a mapped section.
pub struct MappedModel {
    pub virtual_address: u32,
    pub size: u32,
    pub bytes: Seq<u8>,
}

impl View for MappedSegment {
    type V = MappedModel;

    open spec fn view(&self) -> MappedModel {
        MappedModel { virtual_address: self.virtual_address, size: self.size, bytes: self.bytes@ }
    }
}

/// What is mapped to boot a title, with the hints that its header gives.
#[derive(Debug, Clone, PartialEq, Eq)]
pub struct BootImage {
    pub entrypoint: u32,
    pub code_segment: MappedSegment,
    pub ro_segment: MappedSegment,
    pub data_segment: MappedSegment,
    pub bss_size: u32,
    pub stack_size_hint: u32,
    pub heap_size_hint: u32,
    pub required_service_access: Vec<String>,
}

/// Mathematical model of a boot image.
pub struct BootModel {
    pub entrypoint: u32,
    pub code_segment: MappedModel,
    pub ro_segment: MappedModel,
    pub data_segment: MappedModel,
    pub bss_size: u32,
    pub stack_size_hint: u32,
    pub heap_size_hint: u32,
    pub required_service_access: Seq<Seq<char>>,
}

impl View for BootImage {
    type V = BootModel;

    open spec fn view(&self) -> BootModel {
        BootModel {
            entrypoint: self.entrypoint,
            code_segment: self.code_segment@,
            ro_segment: self.ro_segment@,
            data_segment: self.data_segment@,
            bss_size: self.bss_size,
            stack_size_hint: self.stack_size_hint,
            heap_size_hint: self.heap_size_hint,
            required_service_access: Seq::new(
                self.required_service_access@.len(),
                |i: int| self.required_service_access@[i]@,
            ),
        }
    }
}

#[derive(Debug, Clone, PartialEq, Eq)]
pub struct NcchMetadata {
    pub entrypoint: u32,
    pub exheader: ExHeader,
    pub exefs_region: RomRegion,
    pub romfs_region: Option<RomRegion>,
}

#[derive(Debug, Clone, PartialEq, Eq)]
pub struct ExeFsMetadata {
    pub entries: Vec<ExeFsFile>,
}

#[derive(Debug, Clone, Copy, PartialEq, Eq, Structural)]
pub struct RomFsMetadata {
    pub file_count: usize,
}

/// What the image of a title is laid out as.
#[derive(Debug, Clone, PartialEq, Eq)]
pub struct TitleImageLayout {
    pub partitions: Vec<NcsdPartition>,
    pub ncch: NcchMetadata,
    pub exefs: ExeFsMetadata,
    pub romfs: Option<RomFsMetadata>,
}

/// Mathematical model of the layout of a title.
pub struct LayoutModel {
    pub partitions: Seq<PartitionModel>,
    pub entrypoint: u32,
    pub exheader: ExHeaderModel,
    pub exefs_region: RomRegion,
    pub romfs_region: Option<RomRegion>,
    pub exefs_entries: Seq<ExeFsFileModel>,
    pub romfs: Option<RomFsMetadata>,
}

impl View for TitleImageLayout {
    type V = LayoutModel;

    open spec fn view(&self) -> LayoutModel {
        LayoutModel {
            partitions: Seq::new(self.partitions@.len(), |i: int| self.partitions@[i]@),
            entrypoint: self.ncch.entrypoint,
            exheader: self.ncch.exheader@,
            exefs_region: self.ncch.exefs_region,
            romfs_region: self.ncch.romfs_region,
            exefs_entries: Seq::new(self.exefs.entries@.len(), |i: int| self.exefs.entries@[i]@),
            romfs: self.romfs,
        }
    }
}

/// What a title loads to: its layout, its boot image, and the files it brings.
#[derive(Debug, Clone)]
pub struct LoadedProcessImage {
    pub layout: TitleImageLayout,
    pub boot: BootImage,
    pub vfs: VirtualFileSystem,
}

/// Mathematical model of a loaded title.
pub struct LoadedTitle {
    pub layout: LayoutModel,
    pub boot: BootModel,
    pub vfs: VfsModel,
}

impl View for LoadedProcessImage {
    type V = LoadedTitle;

    open spec fn view(&self) -> LoadedTitle {
        LoadedTitle { layout: self.layout@, boot: self.boot@, vfs: self.vfs@ }
    }
}

/// The section of `size` bytes at `file_offset` of the code file: an empty
/// section has no bytes, wherever it is said to lie.
pub open spec fn mapped_section(code: Seq<u8>, file_offset: int, size: u32, address: u32) -> Result<
    MappedModel,
    EmulatorError,
> {
    if size == 0 {
        Ok(MappedModel { virtual_address: address, size: 0, bytes: Seq::empty() })
    } else if file_offset + size > code.len() {
        Err(EmulatorError::InvalidRomLayout)
    } else {
        Ok(
            MappedModel {
                virtual_address: address,
                size,
                bytes: code.subrange(file_offset, file_offset + size),
            },
        )
    }
}

/// The entry point to boot at: the one the header names where it lies in the
/// code section, else the start of the code section.
pub open spec fn selected_entrypoint(entrypoint: u32, code: MappedModel) -> u32 {
    if entrypoint >= code.virtual_address && entrypoint < code.virtual_address.wrapping_add(
        code.size,
    ) {
        entrypoint
    } else {
        code.virtual_address
    }
}

/// The three sections of a program whose code file is given.
pub open spec fn sections_of(exheader: ExHeaderModel, code: Seq<u8>) -> Result<
    (MappedModel, MappedModel, MappedModel),
    EmulatorError,
> {
    match mapped_section(code, 0, exheader.text_size, exheader.text_address) {
        Err(e) => Err(e),
        Ok(text) => match mapped_section(
            code,
            exheader.text_size as int,
            exheader.ro_size,
            exheader.ro_address,
        ) {
            Err(e) => Err(e),
            Ok(ro) => match mapped_section(
                code,
                exheader.text_size.wrapping_add(exheader.ro_size) as int,
                exheader.data_size,
                exheader.data_address,
            ) {
                Err(e) => Err(e),
                Ok(data) => Ok((text, ro, data)),
            },
        },
    }
}

/// What the first program of an image loads to. The entry point falls back to
/// the start of the code where it lies outside of it.
pub open spec fn title_from(image: RomImageModel) -> Result<LoadedTitle, EmulatorError> {
    if image.partitions.len() == 0 {
        Err(EmulatorError::InvalidRomLayout)
    } else {
        let program = image.partitions[0].program;
        let region = program.exefs_region;
        if region.offset + region.size > image.bytes.len() {
            Err(EmulatorError::InvalidRomLayout)
        } else {
            match parsed_exefs(image.bytes.subrange(region.offset as int, region.offset + region.size)) {
                Err(e) => Err(e),
                Ok(exefs) => match exefs.file(code_file_name()) {
                    None => Err(EmulatorError::InvalidRomLayout),
                    Some(code) => match sections_of(program.exheader, code) {
                        Err(e) => Err(e),
                        Ok(sections) => match title_files(image) {
                            Err(e) => Err(e),
                            Ok(files) => Ok(
                                LoadedTitle {
                                    layout: LayoutModel {
                                        partitions: image.partitions,
                                        entrypoint: program.entrypoint,
                                        exheader: program.exheader,
                                        exefs_region: program.exefs_region,
                                        romfs_region: program.romfs_region,
                                        exefs_entries: exefs.entries,
                                        romfs: files.0,
                                    },
                                    boot: BootModel {
                                        entrypoint: selected_entrypoint(
                                            program.entrypoint,
                                            sections.0,
                                        ),
                                        code_segment: sections.0,
                                        ro_segment: sections.1,
                                        data_segment: sections.2,
                                        bss_size: program.exheader.bss_size,
                                        stack_size_hint: program.exheader.stack_size,
                                        heap_size_hint: program.exheader.heap_size,
                                        required_service_access: program.exheader.service_access,
                                    },
                                    vfs: files.1,
                                },
                            ),
                        },
                    },
                },
            }
        }
    }
}

/// The read-only file system of the first program, where it has one: how many
/// files it holds, and the file system mounted.
pub open spec fn title_files(image: RomImageModel) -> Result<
    (Option<RomFsMetadata>, VfsModel),
    EmulatorError,
> {
    match image.partitions[0].program.romfs_region {
        None => Ok((None, VfsModel { romfs: None })),
        Some(region) => if region.offset + region.size > image.bytes.len() {
            Err(EmulatorError::InvalidRomLayout)
        } else {
            match parsed_romfs(image.bytes.subrange(region.offset as int, region.offset + region.size)) {
                Err(e) => Err(e),
                Ok(romfs) => Ok(
                    (
                        Some(RomFsMetadata { file_count: romfs.files.len() as usize }),
                        VfsModel { romfs: Some(romfs) },
                    ),
                ),
            }
        },
    }
}

/// What the bytes of a ROM image load to.
pub open spec fn title_from_rom(rom: Seq<u8>) -> Result<LoadedTitle, EmulatorError> {
    match parsed_rom(rom, usize::MAX) {
        Err(e) => Err(e),
        Ok(image) => title_from(image),
    }
}

/// The memory after the first `count` bytes were written, tolerantly, to
/// consecutive wrapping addresses from `addr` on.
pub open spec fn poked(m: MemoryModel, addr: u32, bytes: Seq<u8>, count: nat) -> MemoryModel
    decreases count,
{
    if count == 0 {
        m
    } else {
        write_byte(
            poked(m, addr, bytes, (count - 1) as nat),
            addr.wrapping_add((count - 1) as u32),
            bytes[count - 1],
        )
    }
}

/// The memory after a section was mapped: its bytes are written one by one, and
/// its first word once more as a word.
pub open spec fn section_mapped(m: MemoryModel, section: MappedModel) -> MemoryModel {
    let written = poked(m, section.virtual_address, section.bytes, section.bytes.len());
    if section.bytes.len() >= 4 {
        write_word(written, section.virtual_address, le_word_at(section.bytes, 0))
    } else {
        written
    }
}

/// The memory after a boot image was installed: the three sections are mapped
/// and the zeroed data is filled in behind the data section. What cannot be
/// written is dropped.
pub open spec fn booted_memory(m: MemoryModel, boot: BootModel) -> MemoryModel {
    poked(
        section_mapped(
            section_mapped(section_mapped(m, boot.code_segment), boot.ro_segment),
            boot.data_segment,
        ),
        boot.data_segment.virtual_address.wrapping_add(boot.data_segment.size),
        Seq::new(boot.bss_size as nat, |i: int| 0u8),
        boot.bss_size as nat,
    )
}

fn read_segment(code: &[u8], file_offset: usize, size: u32, address: u32) -> (result: Result<
    MappedSegment,
    EmulatorError,
>)
    ensures
        match result {
            Ok(segment) => mapped_section(code@, file_offset as int, size, address) == Ok::<
                MappedModel,
                EmulatorError,
            >(segment@),
            Err(e) => mapped_section(code@, file_offset as int, size, address) == Err::<
                MappedModel,
                EmulatorError,
            >(e),
        },
{
    if size == 0 {
        return Ok(MappedSegment { virtual_address: address, size: 0, bytes: Vec::new() });
    }
    if file_offset > code.len() || size as u64 > (code.len() - file_offset) as u64 {
        return Err(EmulatorError::InvalidRomLayout);
    }
    Ok(
        MappedSegment {
            virtual_address: address,
            size,
            bytes: copy_bytes(code, file_offset, file_offset + size as usize),
        },
    )
}

fn select_entrypoint(entrypoint: u32, code_segment: &MappedSegment) -> (selected: u32)
    ensures
        selected == selected_entrypoint(entrypoint, code_segment@),
{
    if entrypoint >= code_segment.virtual_address && entrypoint
        < code_segment.virtual_address.wrapping_add(code_segment.size) {
        entrypoint
    } else {
        code_segment.virtual_address
    }
}

fn copy_entries(entries: &[ExeFsFile]) -> (copies: Vec<ExeFsFile>)
    ensures
        copies@.len() == entries@.len(),
        forall|k: int| 0 <= k < copies@.len() ==> (#[trigger] copies@[k])@ == entries@[k]@,
{
    let mut copies: Vec<ExeFsFile> = Vec::new();
    let mut i: usize = 0;
    while i < entries.len()
        invariant
            i <= entries@.len(),
            copies@.len() == i,
            forall|k: int| 0 <= k < i ==> (#[trigger] copies@[k])@ == entries@[k]@,
        decreases entries@.len() - i,
    {
        copies.push(
            ExeFsFile {
                name: entries[i].name.clone(),
                offset: entries[i].offset,
                size: entries[i].size,
            },
        );
        i += 1;
    }
    copies
}

/// Loads the first program of the ROM image that the bytes hold.
pub fn parse_process_image_from_rom(rom: &[u8]) -> (result: Result<LoadedProcessImage, EmulatorError>)
    ensures
        match result {
            Ok(loaded) => title_from_rom(rom@) == Ok::<LoadedTitle, EmulatorError>(loaded@),
            Err(e) => title_from_rom(rom@) == Err::<LoadedTitle, EmulatorError>(e),
        },
{
    let image = match RomImage::parse(rom, usize::MAX) {
        Ok(image) => image,
        Err(e) => {
            return Err(e);
        },
    };
    parse_process_image(&image)
}

/// Loads the first program of a ROM image.
pub fn parse_process_image(image: &RomImage) -> (result: Result<LoadedProcessImage, EmulatorError>)
    ensures
        match result {
            Ok(loaded) => title_from(image@) == Ok::<LoadedTitle, EmulatorError>(loaded@),
            Err(e) => title_from(image@) == Err::<LoadedTitle, EmulatorError>(e),
        },
{
    let partitions = image.partitions();
    if partitions.len() == 0 {
        return Err(EmulatorError::InvalidRomLayout);
    }
    let program = &partitions[0].program;
    let bytes = image.bytes();
    let region = program.exefs_region;
    if region.offset > bytes.len() || region.size > bytes.len() - region.offset {
        return Err(EmulatorError::InvalidRomLayout);
    }
    let exefs = match ExeFs::parse(
        slice_subrange(bytes, region.offset, region.offset + region.size),
    ) {
        Ok(exefs) => exefs,
        Err(e) => {
            return Err(e);
        },
    };
    proof {
        reveal_strlit(".code");
    }
    let code = match exefs.file(".code") {
        Some(code) => code,
        None => {
            return Err(EmulatorError::InvalidRomLayout);
        },
    };
    let exheader = &program.exheader;
    let code_segment = match read_segment(code, 0, exheader.text_size, exheader.text_address) {
        Ok(segment) => segment,
        Err(e) => {
            return Err(e);
        },
    };
    let ro_segment = match read_segment(
        code,
        exheader.text_size as usize,
        exheader.ro_size,
        exheader.ro_address,
    ) {
        Ok(segment) => segment,
        Err(e) => {
            return Err(e);
        },
    };
    let data_segment = match read_segment(
        code,
        exheader.text_size.wrapping_add(exheader.ro_size) as usize,
        exheader.data_size,
        exheader.data_address,
    ) {
        Ok(segment) => segment,
        Err(e) => {
            return Err(e);
        },
    };
    let mut vfs = VirtualFileSystem::new();
    let mut romfs_meta: Option<RomFsMetadata> = None;
    match program.romfs_region {
        None => {},
        Some(romfs_region) => {
            if romfs_region.offset > bytes.len() || romfs_region.size > bytes.len()
                - romfs_region.offset {
                return Err(EmulatorError::InvalidRomLayout);
            }
            let romfs = match RomFs::parse(
                slice_subrange(
                    bytes,
                    romfs_region.offset,
                    romfs_region.offset + romfs_region.size,
                ),
            ) {
                Ok(romfs) => romfs,
                Err(e) => {
                    return Err(e);
                },
            };
            romfs_meta = Some(RomFsMetadata { file_count: romfs.file_count() });
            vfs.mount_romfs(romfs);
        },
    }
    let mut copies: Vec<NcsdPartition> = Vec::new();
    let mut i: usize = 0;
    while i < partitions.len()
        invariant
            i <= partitions@.len(),
            copies@.len() == i,
            forall|k: int| 0 <= k < i ==> (#[trigger] copies@[k])@ == partitions@[k]@,
        decreases partitions@.len() - i,
    {
        copies.push(partitions[i].duplicate());
        i += 1;
    }
    let entrypoint = select_entrypoint(program.entrypoint, &code_segment);
    let loaded = LoadedProcessImage {
        layout: TitleImageLayout {
            partitions: copies,
            ncch: NcchMetadata {
                entrypoint: program.entrypoint,
                exheader: exheader.duplicate(),
                exefs_region: program.exefs_region,
                romfs_region: program.romfs_region,
            },
            exefs: ExeFsMetadata { entries: copy_entries(exefs.entries()) },
            romfs: romfs_meta,
        },
        boot: BootImage {
            entrypoint,
            code_segment,
            ro_segment,
            data_segment,
            bss_size: exheader.bss_size,
            stack_size_hint: exheader.stack_size,
            heap_size_hint: exheader.heap_size,
            required_service_access: exheader.duplicate().service_access,
        },
        vfs,
    };
    proof {
        assert(loaded@.layout.partitions =~= image@.partitions);
        assert(loaded@.layout.exefs_entries =~= exefs@.entries);
        assert(loaded@.boot.required_service_access
            =~= image@.partitions[0].program.exheader.service_access);
    }
    Ok(loaded)
}

fn poke_bytes(memory: &mut Memory, addr: u32, bytes: &[u8])
    ensures
        final(memory)@ == poked(old(memory)@, addr, bytes@, bytes@.len()),
{
    let mut i: usize = 0;
    while i < bytes.len()
        invariant
            i <= bytes@.len(),
            memory@ == poked(old(memory)@, addr, bytes@, i as nat),
        decreases bytes@.len() - i,
    {
        #[verifier::truncate]
        let offset = i as u32;
        memory.write_u8(addr.wrapping_add(offset), bytes[i]);
        i += 1;
    }
}

fn map_segment(memory: &mut Memory, segment: &MappedSegment)
    ensures
        final(memory)@ == section_mapped(old(memory)@, segment@),
{
    poke_bytes(memory, segment.virtual_address, segment.bytes.as_slice());
    if segment.bytes.len() >= 4 {
        let first_word = read_u32_le(segment.bytes.as_slice(), 0);
        memory.write_u32(segment.virtual_address, first_word);
    }
}

/// Installs a boot image in memory.
pub fn install_process_image(memory: &mut Memory, boot: &BootImage)
    ensures
        final(memory)@ == booted_memory(old(memory)@, boot@),
{
    map_segment(memory, &boot.code_segment);
    map_segment(memory, &boot.ro_segment);
    map_segment(memory, &boot.data_segment);
    let bss_start = boot.data_segment.virtual_address.wrapping_add(boot.data_segment.size);
    let ghost zeros = Seq::new(boot.bss_size as nat, |i: int| 0u8);
    let ghost start = memory@;
    let mut offset: u32 = 0;
    while offset < boot.bss_size
        invariant
            offset <= boot.bss_size,
            zeros == Seq::new(boot.bss_size as nat, |i: int| 0u8),
            memory@ == poked(start, bss_start, zeros, offset as nat),
        decreases boot.bss_size - offset,
    {
        memory.write_u8(bss_start.wrapping_add(offset), 0);
        offset += 1;
    }
}

} // verus!
