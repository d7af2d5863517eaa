use emu3ds::error::{EmulatorError, MemoryAccessKind};
use emu3ds::fs::{ArchiveId, TitlePackage, VirtualFileSystem};
use emu3ds::loader::{
    install_process_image, normalize_path, parse_process_image_from_rom, ExHeader, ExeFs, RomFs,
    RomImage,
};
use emu3ds::memory::Memory;

const NCCH: usize = 0x200;
const EXHEADER: usize = 0x400;
const EXEFS: usize = 0x800;

fn put(rom: &mut [u8], at: usize, word: u32) {
    rom[at..at + 4].copy_from_slice(&word.to_le_bytes());
}

fn image() -> Vec<u8> {
    let mut rom = vec![0u8; 0x6000];
    rom[0x100..0x104].copy_from_slice(b"NCSD");
    put(&mut rom, 0x120, 1);
    put(&mut rom, 0x124, 0x2F);
    rom[NCCH + 0x100..NCCH + 0x104].copy_from_slice(b"NCCH");
    put(&mut rom, NCCH + 0x180, 0x400);
    put(&mut rom, NCCH + 0x1A8, 3);
    put(&mut rom, NCCH + 0x1AC, 2);
    put(&mut rom, EXHEADER, 0x0010_0000);
    put(&mut rom, EXHEADER + 0x10, 0x0010_0000);
    put(&mut rom, EXHEADER + 0x18, 0x20);
    put(&mut rom, EXHEADER + 0x1C, 0x2000);
    put(&mut rom, EXHEADER + 0x20, 0x0010_1000);
    put(&mut rom, EXHEADER + 0x28, 0x20);
    put(&mut rom, EXHEADER + 0x30, 0x0010_2000);
    put(&mut rom, EXHEADER + 0x38, 0x20);
    put(&mut rom, EXHEADER + 0x3C, 0x10);
    put(&mut rom, EXHEADER + 0x40, 0x8000);
    rom[EXEFS..EXEFS + 5].copy_from_slice(b".code");
    put(&mut rom, EXEFS + 8, 0);
    put(&mut rom, EXEFS + 12, 0x60);
    for i in 0..0x60 {
        rom[EXEFS + 0x200 + i] = i as u8 + 1;
    }
    rom
}

fn load_error(rom: &[u8]) -> EmulatorError {
    match parse_process_image_from_rom(rom) {
        Ok(_) => panic!("the image should be refused"),
        Err(e) => e,
    }
}

fn romfs_blob(entries: &[(&[u8], u32, &[u8])], data_start: usize) -> Vec<u8> {
    let mut blob = Vec::new();
    blob.extend_from_slice(b"ROMF");
    blob.extend_from_slice(&(entries.len() as u32).to_le_bytes());
    for (path, offset, data) in entries {
        blob.extend_from_slice(&(path.len() as u16).to_le_bytes());
        blob.extend_from_slice(&offset.to_le_bytes());
        blob.extend_from_slice(&(data.len() as u32).to_le_bytes());
        blob.extend_from_slice(path);
    }
    blob.resize(data_start, 0);
    for (_, offset, data) in entries {
        let end = *offset as usize + data.len();
        if blob.len() < end {
            blob.resize(end, 0);
        }
        blob[*offset as usize..end].copy_from_slice(data);
    }
    blob
}

#[test]
fn messages_of_errors_are_exact() {
    assert_eq!(EmulatorError::RomTooSmall.message(), "ROM is too small to contain an NCSD header");
    assert_eq!(EmulatorError::InvalidRomMagic.message(), "invalid ROM magic; expected NCSD at 0x100");
    assert_eq!(
        EmulatorError::RomTooLarge { size: 1234, capacity: 1000 }.message(),
        "ROM size 1234 exceeds memory capacity 1000"
    );
    assert_eq!(
        EmulatorError::RomTooLarge { size: 0, capacity: usize::MAX }.message(),
        format!("ROM size 0 exceeds memory capacity {}", usize::MAX)
    );
    assert_eq!(
        EmulatorError::MemoryOutOfBounds { address: 0x0900_00AB }.message(),
        "memory access out of bounds at 0x090000ab"
    );
    assert_eq!(
        EmulatorError::InvalidInstruction { pc: 0x10, opcode: 0xFFFF_FFFF }.message(),
        "invalid instruction 0xffffffff at PC=0x00000010"
    );
    assert_eq!(EmulatorError::RomNotLoaded.message(), "cannot execute because no ROM is loaded");
    assert_eq!(EmulatorError::InvalidTitlePackage.message(), "invalid title package format");
    assert_eq!(EmulatorError::InvalidRomLayout.message(), "invalid NCSD/NCCH ROM layout");
    assert_eq!(EmulatorError::InvalidExHeader.message(), "invalid NCCH exheader format");
    assert_eq!(
        EmulatorError::MmuTranslationFault {
            pc: 0x0010_000C,
            va: 0x0010_0008,
            pa: None,
            access: MemoryAccessKind::Execute,
        }
        .message(),
        "MMU translation fault at PC=0x0010000c, VA=0x00100008, PA=None (Execute)"
    );
    assert_eq!(
        EmulatorError::MmuDomainFault {
            pc: 1,
            va: 2,
            pa: Some(0x30),
            domain: 15,
            access: MemoryAccessKind::Read,
        }
        .message(),
        "MMU domain fault at PC=0x00000001, VA=0x00000002, PA=Some(48), domain=15 (Read)"
    );
    assert_eq!(
        EmulatorError::MmuPermissionFault {
            pc: 0,
            va: 0xFFFF_FFFF,
            pa: Some(u32::MAX),
            access: MemoryAccessKind::Write,
        }
        .message(),
        "MMU permission fault at PC=0x00000000, VA=0xffffffff, PA=Some(4294967295) (Write)"
    );
    assert_eq!(
        EmulatorError::AlignmentFault { pc: 4, va: 3, pa: Some(3), access: MemoryAccessKind::Read }
            .message(),
        "alignment fault at PC=0x00000004, VA=0x00000003, PA=Some(3) (Read)"
    );
    assert_eq!(
        EmulatorError::ServiceCallError {
            pc: 0x0010_0004,
            service_command_id: 0x00AB,
            handle_id: 2457,
            result_code: 0xD8A1_83FA,
        }
        .message(),
        "service call failure at PC=0x00100004, cmd=0x00ab, handle=2457, result=0xd8a183fa"
    );
}

#[test]
fn image_header_errors_name_what_is_wrong() {
    assert_eq!(load_error(&[]), EmulatorError::RomTooSmall);
    assert_eq!(load_error(&vec![0u8; 0x1FF]), EmulatorError::RomTooSmall);
    assert_eq!(load_error(&vec![0u8; 0x200]), EmulatorError::InvalidRomMagic);
    let rom = image();
    assert!(parse_process_image_from_rom(&rom).is_ok());
    assert!(RomImage::parse(&rom, 0x6000).is_ok());
    assert_eq!(
        RomImage::parse(&rom, 0x5FFF).err(),
        Some(EmulatorError::RomTooLarge { size: 0x6000, capacity: 0x5FFF })
    );
    // Size is looked at before the magic.
    assert_eq!(
        RomImage::parse(&vec![0u8; 0x300], 0x2FF).err(),
        Some(EmulatorError::RomTooLarge { size: 0x300, capacity: 0x2FF })
    );
    let mut no_partition = image();
    put(&mut no_partition, 0x120, 0);
    assert_eq!(load_error(&no_partition), EmulatorError::InvalidNcsdHeader);
    let mut too_long = image();
    put(&mut too_long, 0x124, 0x30);
    assert_eq!(load_error(&too_long), EmulatorError::InvalidNcsdHeader);
    // An entry behind the first is parsed too.
    let mut second = image();
    put(&mut second, 0x128, 0x10);
    put(&mut second, 0x12C, 1);
    assert_eq!(load_error(&second), EmulatorError::InvalidNcchHeader);
}

#[test]
fn program_header_errors_name_what_is_wrong() {
    let mut encrypted = image();
    encrypted[NCCH + 0x18F] = 0x04;
    assert_eq!(load_error(&encrypted), EmulatorError::UnsupportedNcchCrypto);
    encrypted[NCCH + 0x18F] = 0x20;
    assert_eq!(load_error(&encrypted), EmulatorError::UnsupportedNcchCrypto);
    encrypted[NCCH + 0x18F] = 0xDB;
    assert!(parse_process_image_from_rom(&encrypted).is_ok());
    let mut short_header = image();
    put(&mut short_header, NCCH + 0x180, 0x1FF);
    assert_eq!(load_error(&short_header), EmulatorError::InvalidExHeader);
    let mut long_header = image();
    put(&mut long_header, NCCH + 0x180, 0x5C01);
    assert_eq!(load_error(&long_header), EmulatorError::InvalidNcchHeader);
    put(&mut long_header, NCCH + 0x180, 0x5C00);
    assert!(parse_process_image_from_rom(&long_header).is_ok());
    let mut no_exefs = image();
    put(&mut no_exefs, NCCH + 0x1AC, 0);
    assert_eq!(load_error(&no_exefs), EmulatorError::InvalidNcchHeader);
    let mut exefs_outside = image();
    put(&mut exefs_outside, NCCH + 0x1A8, 0x2E);
    assert_eq!(load_error(&exefs_outside), EmulatorError::InvalidNcchHeader);
    assert_eq!(ExHeader::parse(&vec![0u8; 0x1FF]).err(), Some(EmulatorError::InvalidExHeader));
}

#[test]
fn executable_file_system_errors_name_what_is_wrong() {
    let mut empty_file = image();
    put(&mut empty_file, EXEFS + 12, 0);
    assert_eq!(load_error(&empty_file), EmulatorError::InvalidExeFs);
    let mut outside = image();
    put(&mut outside, EXEFS + 12, 0x201);
    assert_eq!(load_error(&outside), EmulatorError::InvalidExeFs);
    let mut renamed = image();
    renamed[EXEFS..EXEFS + 5].copy_from_slice(b".text");
    assert_eq!(load_error(&renamed), EmulatorError::MissingCodeSection);
    assert_eq!(ExeFs::parse(&vec![0u8; 0x1FF]).err(), Some(EmulatorError::InvalidExeFs));
    let none = ExeFs::parse(&vec![0u8; 0x200]).expect("no entries");
    assert!(none.entries().is_empty());
    assert!(none.file(".code").is_none());
    // Ten entries fit the header; the first of two with one name is found.
    let mut full = vec![0u8; 0x200 + 20];
    for i in 0..10 {
        full[16 * i..16 * i + 4].copy_from_slice(if i < 2 { b"same" } else { b"file" });
        full[16 * i + 4] = if i < 2 { 0 } else { b'0' + i as u8 };
        put(&mut full, 16 * i + 8, 2 * i as u32);
        put(&mut full, 16 * i + 12, 2);
    }
    for i in 0..20 {
        full[0x200 + i] = i as u8;
    }
    let parsed = ExeFs::parse(&full).expect("ten entries");
    assert_eq!(parsed.entries().len(), 10);
    assert_eq!(parsed.entries()[9].name, "file9");
    assert_eq!(parsed.entries()[9].offset, 0x200 + 18);
    assert_eq!(parsed.file("same"), Some(&[0u8, 1][..]));
    assert_eq!(parsed.file("file9"), Some(&[18u8, 19][..]));
    assert_eq!(parsed.file("file"), None);
}

#[test]
fn section_layout_and_entry_point_are_checked() {
    let mut too_much = image();
    put(&mut too_much, EXHEADER + 0x38, 0x21);
    assert_eq!(load_error(&too_much), EmulatorError::InvalidSectionLayout);
    let mut overlap = image();
    put(&mut overlap, EXHEADER + 0x20, 0x0010_001F);
    assert_eq!(load_error(&overlap), EmulatorError::InvalidSectionLayout);
    put(&mut overlap, EXHEADER + 0x20, 0x0010_0020);
    assert!(parse_process_image_from_rom(&overlap).is_ok());
    let mut data_overlap = image();
    put(&mut data_overlap, EXHEADER + 0x30, 0x0010_101F);
    assert_eq!(load_error(&data_overlap), EmulatorError::InvalidSectionLayout);
    let mut wraps = image();
    put(&mut wraps, EXHEADER + 0x10, 0xFFFF_FFF0);
    assert_eq!(load_error(&wraps), EmulatorError::InvalidSectionLayout);
    let mut behind = image();
    put(&mut behind, EXHEADER, 0x0010_0020);
    assert_eq!(load_error(&behind), EmulatorError::EntrypointOutsideText);
    put(&mut behind, EXHEADER, 0x000F_FFFF);
    assert_eq!(load_error(&behind), EmulatorError::EntrypointOutsideText);
    put(&mut behind, EXHEADER, 0x0010_001F);
    let loaded = parse_process_image_from_rom(&behind).expect("last byte of text");
    assert_eq!(loaded.process.entrypoint, 0x0010_001F);
    assert_eq!(loaded.process.text.bytes, (1..=0x20).collect::<Vec<u8>>());
    assert_eq!(loaded.process.ro.bytes, (0x21..=0x40).collect::<Vec<u8>>());
    assert_eq!(loaded.process.data.bytes, (0x41..=0x60).collect::<Vec<u8>>());
    assert_eq!(loaded.process.bss_size, 0x10);
    assert_eq!(loaded.process.stack_size, 0x2000);
    assert_eq!(loaded.process.heap_size, 0x8000);
    assert!(loaded.process.service_access.is_empty());
    assert!(loaded.vfs.open_archive(2).is_none());
    let header = ExHeader::parse(&behind[EXHEADER..EXHEADER + 0x200]).expect("header");
    assert_eq!(header.validate_layout(0x60), Ok(()));
    assert_eq!(header.validate_layout(0x5F), Err(EmulatorError::InvalidSectionLayout));
}

#[test]
fn service_names_are_decoded_and_trimmed() {
    let mut rom = image();
    rom[EXHEADER + 0x100..EXHEADER + 0x108].copy_from_slice(b" ndm:u  ");
    rom[EXHEADER + 0x108..EXHEADER + 0x110].copy_from_slice(b"        ");
    rom[EXHEADER + 0x110..EXHEADER + 0x118].copy_from_slice(b"fs\0USER!");
    rom[EXHEADER + 0x118..EXHEADER + 0x120].copy_from_slice(b"\0hidden!");
    rom[EXHEADER + 0x120..EXHEADER + 0x128].copy_from_slice(b"a\xFFb\0\0\0\0\0");
    rom[EXHEADER + 0x1F8..EXHEADER + 0x200].copy_from_slice(b"hid:USER");
    let loaded = parse_process_image_from_rom(&rom).expect("valid image");
    assert_eq!(loaded.process.service_access, vec!["ndm:u", "fs", "a\u{FFFD}b", "hid:USER"]);
}

#[test]
fn installation_stops_at_the_first_unmapped_address() {
    let mut rom = image();
    put(&mut rom, EXHEADER, 0x07FF_FFF0);
    put(&mut rom, EXHEADER + 0x10, 0x07FF_FFF0);
    put(&mut rom, EXHEADER + 0x20, 0x0900_1000);
    put(&mut rom, EXHEADER + 0x30, 0x0900_2000);
    let loaded = parse_process_image_from_rom(&rom).expect("layout is fine");
    let mut memory = Memory::new();
    assert_eq!(
        install_process_image(&mut memory, &loaded.process),
        Err(EmulatorError::MemoryOutOfBounds { address: 0x0800_0000 })
    );
    // What was written before the failure stays.
    assert_eq!(memory.read_u8(0x07FF_FFF0), 1);
    assert_eq!(memory.read_u8(0x07FF_FFFF), 0x10);
    let mut in_bios = image();
    put(&mut in_bios, EXHEADER + 0x30, 0x1FFF_0000);
    let loaded = parse_process_image_from_rom(&in_bios).expect("layout is fine");
    let mut memory = Memory::new();
    // Writes into a read-only segment succeed and change nothing.
    assert_eq!(install_process_image(&mut memory, &loaded.process), Ok(()));
    assert_eq!(memory.read_u8(0x1FFF_0000), 0);
    assert_eq!(memory.read_u8(0x0010_1000), 0x21);
    // The zeroed data lies behind the data section.
    let loaded = parse_process_image_from_rom(&image()).expect("valid");
    let mut memory = Memory::new();
    for offset in 0..0x40 {
        memory.write_u8(0x0010_2000 + offset, 0xEE);
    }
    assert_eq!(install_process_image(&mut memory, &loaded.process), Ok(()));
    assert_eq!(memory.read_u8(0x0010_201F), 0x60);
    assert_eq!(memory.read_u8(0x0010_2020), 0);
    assert_eq!(memory.read_u8(0x0010_202F), 0);
    assert_eq!(memory.read_u8(0x0010_2030), 0xEE);
}

#[test]
fn read_only_file_system_of_an_image_is_mounted() {
    let mut rom = image();
    put(&mut rom, NCCH + 0x1B0, 6);
    put(&mut rom, NCCH + 0x1B4, 2);
    assert_eq!(load_error(&rom), EmulatorError::InvalidRomFs);
    // The entry point is looked at before the files.
    put(&mut rom, EXHEADER, 0);
    assert_eq!(load_error(&rom), EmulatorError::EntrypointOutsideText);
    put(&mut rom, EXHEADER, 0x0010_0000);
    let blob = romfs_blob(&[(b"a\\b/../c.bin", 0x40, &[5, 6, 7])], 0x40);
    rom[0xE00..0xE00 + blob.len()].copy_from_slice(&blob);
    let loaded = parse_process_image_from_rom(&rom).expect("with files");
    let archive = loaded.vfs.open_archive(2).expect("mounted");
    assert_eq!(archive.archive, ArchiveId::RomFs);
    let file = loaded.vfs.open_file(archive, "/a/./c.bin").expect("file");
    assert_eq!(loaded.vfs.read_file(&file, 1, 10), Some(vec![6, 7]));
    assert_eq!(loaded.vfs.read_file(&file.duplicate(), 0, 2), Some(vec![5, 6]));
    assert!(loaded.vfs.open_file(archive, "/a/b/c.bin").is_none());
    // A region of zero units means that there is none.
    put(&mut rom, NCCH + 0x1B4, 0);
    let loaded = parse_process_image_from_rom(&rom).expect("without files");
    assert!(loaded.vfs.open_archive(2).is_none());
    put(&mut rom, NCCH + 0x1B4, 0x2A);
    assert_eq!(load_error(&rom), EmulatorError::InvalidNcchHeader);
}

#[test]
fn read_only_file_system_errors_and_duplicates() {
    assert_eq!(RomFs::parse(b"ROMF").err(), Some(EmulatorError::InvalidRomFs));
    assert_eq!(RomFs::parse(b"ROMX\0\0\0\0").err(), Some(EmulatorError::InvalidRomFs));
    assert_eq!(RomFs::parse(b"ROMF\x01\0\0\0").err(), Some(EmulatorError::InvalidRomFs));
    assert_eq!(RomFs::parse(b"ROMF\0\0\0\0").expect("empty").file_count(), 0);
    let mut cut = romfs_blob(&[(b"/x", 0x20, &[1, 2])], 0x20);
    cut.truncate(0x21);
    assert_eq!(RomFs::parse(&cut).err(), Some(EmulatorError::InvalidRomFs));
    let mut long_path = romfs_blob(&[(b"/x", 0, &[])], 0x14);
    long_path[8] = 3;
    assert_eq!(RomFs::parse(&long_path).err(), Some(EmulatorError::InvalidRomFs));
    // The empty path is the root; a later entry takes the place of an earlier one.
    let twice = romfs_blob(
        &[(b"/dir/f", 0x40, &[1, 1]), (b"", 0x48, &[9]), (b"dir//f", 0x50, &[2, 2, 2])],
        0x40,
    );
    let romfs = RomFs::parse(&twice).expect("three entries, two paths");
    assert_eq!(romfs.file_count(), 2);
    assert_eq!(romfs.lookup("/dir/f").map(|f| (f.offset, f.size)), Some((0x50, 3)));
    assert_eq!(romfs.lookup("dir/f").map(|f| f.path.clone()), Some("/dir/f".to_string()));
    assert_eq!(romfs.lookup("/").map(|f| f.size), Some(1));
    assert_eq!(romfs.read_file("..", 0, 5), Some(vec![9]));
    assert_eq!(romfs.read_file("/dir/f", 0, 0), Some(vec![]));
    assert_eq!(romfs.read_file("/dir/f", 2, usize::MAX), Some(vec![2]));
    assert_eq!(romfs.read_file("/dir/f", 3, 1), Some(vec![]));
    assert_eq!(romfs.read_file("/dir/g", 0, 1), None);
}

#[test]
fn paths_are_normalised() {
    assert_eq!(normalize_path(""), "/");
    assert_eq!(normalize_path("/"), "/");
    assert_eq!(normalize_path("."), "/");
    assert_eq!(normalize_path("a//b"), "/a/b");
    assert_eq!(normalize_path("/a/./b/../c"), "/a/c");
    assert_eq!(normalize_path("../../x"), "/x");
    assert_eq!(normalize_path("a\\b\\..\\c/"), "/a/c");
    assert_eq!(normalize_path("/a/.."), "/");
    assert_eq!(normalize_path("..."), "/...");
    assert_eq!(normalize_path("/données/ü.bin"), "/données/ü.bin");
    assert_eq!(normalize_path("/a/b/c/../../d"), "/a/d");
}

#[test]
fn archives_are_mounted_under_their_prefix() {
    let mut vfs = VirtualFileSystem::new();
    assert_eq!(ArchiveId::from_raw(0), Some(ArchiveId::Sdmc));
    assert_eq!(ArchiveId::from_raw(1), Some(ArchiveId::Save));
    assert_eq!(ArchiveId::from_raw(2), Some(ArchiveId::RomFs));
    assert_eq!(ArchiveId::from_raw(3), Some(ArchiveId::ExtData));
    assert_eq!(ArchiveId::from_raw(4), None);
    assert_eq!(ArchiveId::ExtData.raw(), 3);
    assert_eq!(vfs.translate_path(ArchiveId::Sdmc, "a/../b\\c"), "/sdmc/b/c");
    assert_eq!(vfs.translate_path(ArchiveId::Save, ""), "/save/");
    assert_eq!(vfs.translate_path(ArchiveId::RomFs, "/x"), "/romfs/x");
    assert_eq!(vfs.translate_path(ArchiveId::ExtData, "x/."), "/extdata/x");
    assert!(vfs.open_archive(2).is_none());
    assert!(vfs.open_archive(9).is_none());
    let save = vfs.open_archive(1).expect("always there");
    let file = vfs.open_file(save, "any/thing").expect("opens any path");
    assert_eq!(vfs.read_file(&file, 0, 100), Some(vec![]));
    vfs.mount_romfs(RomFs::parse(&romfs_blob(&[(b"/f", 0x20, &[7, 8, 9])], 0x20)).expect("romfs"));
    let romfs = vfs.open_archive(2).expect("mounted");
    assert!(vfs.open_file(romfs, "/g").is_none());
    let file = vfs.open_file(romfs, "x/../f").expect("file");
    assert_eq!(vfs.read_file(&file, 0, 2), Some(vec![7, 8]));
    // A handle outlives the file system that it was opened in.
    let other = VirtualFileSystem::default();
    assert_eq!(other.read_file(&file, 0, 2), None);
}

#[test]
fn title_packages_list_their_contents() {
    let mut package = Vec::new();
    package.extend_from_slice(b"3DST");
    package.extend_from_slice(&3u32.to_le_bytes());
    for (id, offset, size) in [(7u32, 44u32, 3u32), (9, 47, 2), (7, 49, 0)] {
        package.extend_from_slice(&id.to_le_bytes());
        package.extend_from_slice(&offset.to_le_bytes());
        package.extend_from_slice(&size.to_le_bytes());
    }
    package.extend_from_slice(&[1, 2, 3, 4, 5]);
    let title = TitlePackage::parse(&package).expect("valid package");
    assert_eq!(title.contents().len(), 3);
    assert_eq!(title.contents()[1].id, 9);
    assert_eq!(title.content_bytes(7), Some(&[1u8, 2, 3][..]));
    assert_eq!(title.content_bytes(9), Some(&[4u8, 5][..]));
    assert_eq!(title.content_bytes(8), None);
    assert_eq!(title.primary_rom(), Some(&[1u8, 2, 3][..]));
    let mut outside = package.clone();
    outside[8 + 12 + 8] = 3;
    assert_eq!(TitlePackage::parse(&outside).err(), Some(EmulatorError::InvalidTitlePackage));
    let mut too_many = package.clone();
    too_many[4] = 4;
    assert_eq!(TitlePackage::parse(&too_many).err(), Some(EmulatorError::InvalidTitlePackage));
    assert_eq!(TitlePackage::parse(b"3DST\0\0\0").err(), Some(EmulatorError::InvalidTitlePackage));
    assert_eq!(TitlePackage::parse(b"3DSX\0\0\0\0").err(), Some(EmulatorError::InvalidTitlePackage));
    let empty = TitlePackage::parse(b"3DST\0\0\0\0").expect("no contents");
    assert!(empty.contents().is_empty());
    assert_eq!(empty.primary_rom(), None);
}

#[test]
fn lenient_image_parser_reports_layout_errors() {
    let mut rom = vec![0u8; 0x4000];
    assert_eq!(emu3ds::rom::RomImage::parse(&rom[..0x1FF], usize::MAX).err(), Some(EmulatorError::RomTooSmall));
    assert_eq!(emu3ds::rom::RomImage::parse(&rom, usize::MAX).err(), Some(EmulatorError::InvalidRomMagic));
    rom[0x100..0x104].copy_from_slice(b"NCSD");
    assert_eq!(
        emu3ds::rom::RomImage::parse(&rom, 0x3FFF).err(),
        Some(EmulatorError::RomTooLarge { size: 0x4000, capacity: 0x3FFF })
    );
    assert_eq!(emu3ds::rom::RomImage::parse(&rom, usize::MAX).err(), Some(EmulatorError::InvalidRomLayout));
    put(&mut rom, 0x120, 1);
    put(&mut rom, 0x124, 0x18);
    assert_eq!(emu3ds::rom::RomImage::parse(&rom, usize::MAX).err(), Some(EmulatorError::InvalidRomLayout));
    rom[NCCH + 0x100..NCCH + 0x104].copy_from_slice(b"NCCH");
    assert_eq!(emu3ds::rom::RomImage::parse(&rom, usize::MAX).err(), Some(EmulatorError::InvalidRomLayout));
    put(&mut rom, NCCH + 0x180, 0x100);
    assert_eq!(emu3ds::rom::RomImage::parse(&rom, usize::MAX).err(), Some(EmulatorError::InvalidExHeader));
    put(&mut rom, NCCH + 0x180, 0x200);
    assert_eq!(emu3ds::rom::RomImage::parse(&rom, usize::MAX).err(), Some(EmulatorError::InvalidRomLayout));
    for (field, offset) in [(0x190, 3), (0x198, 4), (0x1A0, 5)] {
        put(&mut rom, NCCH + field, offset);
        put(&mut rom, NCCH + field + 4, 1);
    }
    let parsed = emu3ds::rom::RomImage::parse(&rom, usize::MAX).expect("complete");
    assert_eq!(parsed.bytes().len(), 0x4000);
    assert_eq!(parsed.partitions()[0].index, 0);
    assert_eq!(parsed.partitions()[0].region.size, 0x3000);
    put(&mut rom, NCCH + 0x1A4, 0x14);
    assert_eq!(emu3ds::rom::RomImage::parse(&rom, usize::MAX).err(), Some(EmulatorError::InvalidRomLayout));
}
