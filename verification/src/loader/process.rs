use vstd::prelude::*;
use vstd::slice::slice_subrange;
use crate::error::EmulatorError;
use crate::fs::{VfsModel, VirtualFileSystem};
use crate::loader::exefs::{parsed_exefs, ExeFs};
use crate::loader::exheader::ExHeaderModel;
use crate::loader::ncsd::{parsed_rom, NcsdPartition, PartitionModel, RomImage, RomImageModel};
use crate::loader::romfs::{parsed_romfs, RomFs};
use crate::memory::{store_result, stored, Memory, MemoryModel};
use crate::text::copy_bytes;

verus! {

/// A section of a process: where it is loaded and what it holds.
#[derive(Debug, Clone, PartialEq, Eq)]
pub struct ProcessSegment {
    pub virtual_address: u32,
    pub size: u32,
    pub bytes: Vec<u8>,
}

/// Mathematical model of a section.
pub struct SegmentImage {
    pub virtual_address: u32,
    pub size: u32,
    pub bytes: Seq<u8>,
}

impl View for ProcessSegment {
    type V = SegmentImage;

    open spec fn view(&self) -> SegmentImage {
        SegmentImage { virtual_address: self.virtual_address, size: self.size, bytes: self.bytes@ }
    }
}

/// An installable process: three sections, the length of the zeroed data behind
/// them, hints for stack and heap, the services it may use, and its entry point.
#[derive(Debug, Clone, PartialEq, Eq)]
pub struct ProcessImage {
    pub entrypoint: u32,
    pub text: ProcessSegment,
    pub ro: ProcessSegment,
    pub data: ProcessSegment,
    pub bss_size: u32,
    pub stack_size: u32,
    pub heap_size: u32,
    pub service_access: Vec<String>,
}

/// Mathematical model of a process image.
pub struct ProcessModel {
    pub entrypoint: u32,
    pub text: SegmentImage,
    pub ro: SegmentImage,
    pub data: SegmentImage,
    pub bss_size: u32,
    pub stack_size: u32,
    pub heap_size: u32,
    pub service_access: Seq<Seq<char>>,
}

impl View for ProcessImage {
    type V = ProcessModel;

    open spec fn view(&self) -> ProcessModel {
        ProcessModel {
            entrypoint: self.entrypoint,
            text: self.text@,
            ro: self.ro@,
            data: self.data@,
            bss_size: self.bss_size,
            stack_size: self.stack_size,
            heap_size: self.heap_size,
            service_access: Seq::new(
                self.service_access@.len(),
                |i: int| self.service_access@[i]@,
            ),
        }
    }
}

#[derive(Debug, Clone, PartialEq, Eq)]
pub struct TitleImageLayout {
    pub partitions: Vec<NcsdPartition>,
}

/// What a ROM image loads to: its layout, the process to install, and the files
/// it brings.
#[derive(Debug, Clone)]
pub struct LoadedProcessImage {
    pub layout: TitleImageLayout,
    pub process: ProcessImage,
    pub vfs: VirtualFileSystem,
}

/// Mathematical model of a loaded image.
pub struct LoadedModel {
    pub partitions: Seq<PartitionModel>,
    pub process: ProcessModel,
    pub vfs: VfsModel,
}

impl View for LoadedProcessImage {
    type V = LoadedModel;

    open spec fn view(&self) -> LoadedModel {
        LoadedModel {
            partitions: Seq::new(
                self.layout.partitions@.len(),
                |i: int| self.layout.partitions@[i]@,
            ),
            process: self.process@,
            vfs: self.vfs@,
        }
    }
}

/// Name of the file that holds the code of a program.
pub open spec fn code_file_name() -> Seq<char> {
    ".code"@
}

/// The section of `size` bytes at `file_offset` of the code file.
pub open spec fn segment_of(code: Seq<u8>, file_offset: int, size: u32, address: u32) -> Result<
    SegmentImage,
    EmulatorError,
> {
    if file_offset + size > code.len() {
        Err(EmulatorError::InvalidSectionLayout)
    } else {
        Ok(
            SegmentImage {
                virtual_address: address,
                size,
                bytes: code.subrange(file_offset, file_offset + size),
            },
        )
    }
}

/// The files that a program brings: its read-only file system, where it has one.
pub open spec fn files_of(image: RomImageModel) -> Result<VfsModel, EmulatorError> {
    match image.partitions[0].program.romfs_region {
        None => Ok(VfsModel { romfs: None }),
        Some(region) => if region.offset + region.size > image.bytes.len() {
            Err(EmulatorError::InvalidRomFs)
        } else {
            match parsed_romfs(image.bytes.subrange(region.offset as int, region.offset + region.size)) {
                Err(e) => Err(e),
                Ok(romfs) => Ok(VfsModel { romfs: Some(romfs) }),
            }
        },
    }
}

/// The process of a program whose code file is given: the sections lie one after
/// the other in the code file, must fit it and must not overlap in memory, and
/// the entry point must lie in the text section.
pub open spec fn process_of(entrypoint: u32, exheader: ExHeaderModel, code: Seq<u8>) -> Result<
    ProcessModel,
    EmulatorError,
> {
    if !exheader.layout_valid(code.len() as usize) {
        Err(EmulatorError::InvalidSectionLayout)
    } else if entrypoint < exheader.text_address || entrypoint >= exheader.text_address
        + exheader.text_size {
        Err(EmulatorError::EntrypointOutsideText)
    } else {
        Ok(
            ProcessModel {
                entrypoint,
                text: SegmentImage {
                    virtual_address: exheader.text_address,
                    size: exheader.text_size,
                    bytes: code.subrange(0, exheader.text_size as int),
                },
                ro: SegmentImage {
                    virtual_address: exheader.ro_address,
                    size: exheader.ro_size,
                    bytes: code.subrange(
                        exheader.text_size as int,
                        exheader.text_size + exheader.ro_size,
                    ),
                },
                data: SegmentImage {
                    virtual_address: exheader.data_address,
                    size: exheader.data_size,
                    bytes: code.subrange(
                        exheader.text_size + exheader.ro_size,
                        exheader.text_size + exheader.ro_size + exheader.data_size,
                    ),
                },
                bss_size: exheader.bss_size,
                stack_size: exheader.stack_size,
                heap_size: exheader.heap_size,
                service_access: exheader.service_access,
            },
        )
    }
}

/// What the first program of an image loads to.
pub open spec fn loaded_from(image: RomImageModel) -> Result<LoadedModel, EmulatorError> {
    if image.partitions.len() == 0 {
        Err(EmulatorError::InvalidNcsdHeader)
    } else {
        let program = image.partitions[0].program;
        let region = program.exefs_region;
        if region.offset + region.size > image.bytes.len() {
            Err(EmulatorError::InvalidExeFs)
        } else {
            match parsed_exefs(image.bytes.subrange(region.offset as int, region.offset + region.size)) {
                Err(e) => Err(e),
                Ok(exefs) => match exefs.file(code_file_name()) {
                    None => Err(EmulatorError::MissingCodeSection),
                    Some(code) => match process_of(program.entrypoint, program.exheader, code) {
                        Err(e) => Err(e),
                        Ok(process) => match files_of(image) {
                            Err(e) => Err(e),
                            Ok(vfs) => Ok(
                                LoadedModel { partitions: image.partitions, process, vfs },
                            ),
                        },
                    },
                },
            }
        }
    }
}

/// What the bytes of a ROM image load to.
pub open spec fn loaded_from_rom(rom: Seq<u8>) -> Result<LoadedModel, EmulatorError> {
    match parsed_rom(rom, usize::MAX) {
        Err(e) => Err(e),
        Ok(image) => loaded_from(image),
    }
}

/// Outcome of an installation: its result and the memory afterwards.
pub struct Installed {
    pub result: Result<(), EmulatorError>,
    pub memory: MemoryModel,
}

/// One step of an installation: `bytes` are stored at `addr` unless an earlier
/// step has failed.
pub open spec fn install_step(before: Installed, addr: u32, bytes: Seq<u8>) -> Installed {
    if before.result is Err {
        before
    } else {
        Installed {
            result: store_result(before.memory, addr, bytes, bytes.len()),
            memory: stored(before.memory, addr, bytes, bytes.len()),
        }
    }
}

/// Installation of a process: text, read-only data and data are copied byte by
/// byte to their addresses, then the zeroed data is filled in behind the data
/// section. The first address where nothing is mapped ends the installation.
pub open spec fn installed(m: MemoryModel, image: ProcessModel) -> Installed {
    let text = install_step(
        Installed { result: Ok(()), memory: m },
        image.text.virtual_address,
        image.text.bytes,
    );
    let ro = install_step(text, image.ro.virtual_address, image.ro.bytes);
    let data = install_step(ro, image.data.virtual_address, image.data.bytes);
    install_step(
        data,
        image.data.virtual_address.wrapping_add(image.data.size),
        Seq::new(image.bss_size as nat, |i: int| 0u8),
    )
}

/// Loads the first program of the ROM image that the bytes hold.
pub fn parse_process_image_from_rom(rom: &[u8]) -> (result: Result<LoadedProcessImage, EmulatorError>)
    ensures
        match result {
            Ok(loaded) => loaded_from_rom(rom@) == Ok::<LoadedModel, EmulatorError>(loaded@),
            Err(e) => loaded_from_rom(rom@) == Err::<LoadedModel, EmulatorError>(e),
        },
{
    let image = match RomImage::parse(rom, usize::MAX) {
        Ok(image) => image,
        Err(e) => {
            return Err(e);
        },
    };
    parse_process_image(&image)
}

fn read_segment(code: &[u8], file_offset: usize, size: u32, address: u32) -> (result: Result<
    ProcessSegment,
    EmulatorError,
>)
    ensures
        match result {
            Ok(segment) => segment_of(code@, file_offset as int, size, address) == Ok::<
                SegmentImage,
                EmulatorError,
            >(segment@),
            Err(e) => segment_of(code@, file_offset as int, size, address) == Err::<
                SegmentImage,
                EmulatorError,
            >(e),
        },
{
    if file_offset > code.len() || size as u64 > (code.len() - file_offset) as u64 {
        return Err(EmulatorError::InvalidSectionLayout);
    }
    Ok(
        ProcessSegment {
            virtual_address: address,
            size,
            bytes: copy_bytes(code, file_offset, file_offset + size as usize),
        },
    )
}

/// Loads the first program of a ROM image.
pub fn parse_process_image(image: &RomImage) -> (result: Result<LoadedProcessImage, EmulatorError>)
    ensures
        match result {
            Ok(loaded) => loaded_from(image@) == Ok::<LoadedModel, EmulatorError>(loaded@),
            Err(e) => loaded_from(image@) == Err::<LoadedModel, EmulatorError>(e),
        },
{
    let partitions = image.partitions();
    if partitions.len() == 0 {
        return Err(EmulatorError::InvalidNcsdHeader);
    }
    let program = &partitions[0].program;
    let bytes = image.bytes();
    let region = program.exefs_region;
    if region.offset > bytes.len() || region.size > bytes.len() - region.offset {
        return Err(EmulatorError::InvalidExeFs);
    }
    let exefs = match ExeFs::parse(
        slice_subrange(bytes, region.offset, region.offset + region.size),
    ) {
        Ok(exefs) => exefs,
        Err(e) => {
            return Err(e);
        },
    };
    let code = match exefs.file(".code") {
        Some(code) => code,
        None => {
            return Err(EmulatorError::MissingCodeSection);
        },
    };
    let exheader = &program.exheader;
    match exheader.validate_layout(code.len()) {
        Ok(_) => {},
        Err(e) => {
            return Err(e);
        },
    }
    let text = match read_segment(code, 0, exheader.text_size, exheader.text_address) {
        Ok(segment) => segment,
        Err(e) => {
            return Err(e);
        },
    };
    let ro = match read_segment(
        code,
        exheader.text_size as usize,
        exheader.ro_size,
        exheader.ro_address,
    ) {
        Ok(segment) => segment,
        Err(e) => {
            return Err(e);
        },
    };
    let data = match read_segment(
        code,
        (exheader.text_size + exheader.ro_size) as usize,
        exheader.data_size,
        exheader.data_address,
    ) {
        Ok(segment) => segment,
        Err(e) => {
            return Err(e);
        },
    };
    if program.entrypoint < text.virtual_address || program.entrypoint as u64
        >= text.virtual_address as u64 + text.size as u64 {
        return Err(EmulatorError::EntrypointOutsideText);
    }
    let mut vfs = VirtualFileSystem::new();
    match program.romfs_region {
        None => {},
        Some(romfs_region) => {
            if romfs_region.offset > bytes.len() || romfs_region.size > bytes.len()
                - romfs_region.offset {
                return Err(EmulatorError::InvalidRomFs);
            }
            let romfs = match RomFs::parse(
                slice_subrange(
                    bytes,
                    romfs_region.offset,
                    romfs_region.offset + romfs_region.size,
                ),
            ) {
                Ok(romfs) => romfs,
                Err(e) => {
                    return Err(e);
                },
            };
            vfs.mount_romfs(romfs);
        },
    }
    let mut copies: Vec<NcsdPartition> = Vec::new();
    let mut i: usize = 0;
    while i < partitions.len()
        invariant
            i <= partitions@.len(),
            copies@.len() == i,
            forall|k: int| 0 <= k < i ==> copies@[k]@ == partitions@[k]@,
        decreases partitions@.len() - i,
    {
        copies.push(partitions[i].duplicate());
        i += 1;
    }
    let service_access = exheader.duplicate().service_access;
    let loaded = LoadedProcessImage {
        layout: TitleImageLayout { partitions: copies },
        process: ProcessImage {
            entrypoint: program.entrypoint,
            text,
            ro,
            data,
            bss_size: exheader.bss_size,
            stack_size: exheader.stack_size,
            heap_size: exheader.heap_size,
            service_access,
        },
        vfs,
    };
    proof {
        assert(loaded@.partitions =~= image@.partitions);
        assert(loaded@.process.service_access =~= image@.partitions[0].program.exheader.service_access);
        reveal_strlit(".code");
    }
    Ok(loaded)
}

/// Installs a process in memory.
pub fn install_process_image(memory: &mut Memory, image: &ProcessImage) -> (result: Result<
    (),
    EmulatorError,
>)
    ensures
        result == installed(old(memory)@, image@).result,
        final(memory)@ == installed(old(memory)@, image@).memory,
{
    match memory.store_bytes(image.text.virtual_address, image.text.bytes.as_slice()) {
        Ok(_) => {},
        Err(e) => {
            return Err(e);
        },
    }
    match memory.store_bytes(image.ro.virtual_address, image.ro.bytes.as_slice()) {
        Ok(_) => {},
        Err(e) => {
            return Err(e);
        },
    }
    match memory.store_bytes(image.data.virtual_address, image.data.bytes.as_slice()) {
        Ok(_) => {},
        Err(e) => {
            return Err(e);
        },
    }
    let bss_start = image.data.virtual_address.wrapping_add(image.data.size);
    let result = memory.zero_fill(bss_start, image.bss_size);
    assert(result == installed(old(memory)@, image@).result);
    result
}

} // verus!
