use emu3ds::boot::{install_process_image, parse_process_image_from_rom};
use emu3ds::memory::Memory;

fn make_valid_rom() -> Vec<u8> {
    let mut rom = vec![0u8; 0x6000];
    rom[0x100..0x104].copy_from_slice(b"NCSD");
    rom[0x120..0x124].copy_from_slice(&1u32.to_le_bytes());
    rom[0x124..0x128].copy_from_slice(&0x2Fu32.to_le_bytes());

    let ncch = 0x200;
    rom[ncch + 0x100..ncch + 0x104].copy_from_slice(b"NCCH");
    rom[ncch + 0x180..ncch + 0x184].copy_from_slice(&0x400u32.to_le_bytes());
    rom[ncch + 0x1A8..ncch + 0x1AC].copy_from_slice(&3u32.to_le_bytes());
    rom[ncch + 0x1AC..ncch + 0x1B0].copy_from_slice(&2u32.to_le_bytes());
    rom[ncch + 0x1B0..ncch + 0x1B4].copy_from_slice(&6u32.to_le_bytes());
    rom[ncch + 0x1B4..ncch + 0x1B8].copy_from_slice(&2u32.to_le_bytes());

    let ex = ncch + 0x200;
    rom[ex..ex + 4].copy_from_slice(&0x0010_0004u32.to_le_bytes());
    rom[ex + 0x10..ex + 0x14].copy_from_slice(&0x0010_0000u32.to_le_bytes());
    rom[ex + 0x18..ex + 0x1C].copy_from_slice(&0x20u32.to_le_bytes());
    rom[ex + 0x20..ex + 0x24].copy_from_slice(&0x0010_1000u32.to_le_bytes());
    rom[ex + 0x28..ex + 0x2C].copy_from_slice(&0x20u32.to_le_bytes());
    rom[ex + 0x30..ex + 0x34].copy_from_slice(&0x0010_2000u32.to_le_bytes());
    rom[ex + 0x38..ex + 0x3C].copy_from_slice(&0x20u32.to_le_bytes());
    rom[ex + 0x3C..ex + 0x40].copy_from_slice(&0x10u32.to_le_bytes());
    rom[ex + 0x1C..ex + 0x20].copy_from_slice(&0x2000u32.to_le_bytes());
    rom[ex + 0x40..ex + 0x44].copy_from_slice(&0x8000u32.to_le_bytes());
    rom[ex + 0x100..ex + 0x105].copy_from_slice(b"ndm:u");

    let exefs = 0x800;
    rom[exefs..exefs + 5].copy_from_slice(b".code");
    rom[exefs + 8..exefs + 12].copy_from_slice(&0u32.to_le_bytes());
    rom[exefs + 12..exefs + 16].copy_from_slice(&0x60u32.to_le_bytes());
    rom[exefs + 0x200..exefs + 0x220].copy_from_slice(&[0x11; 0x20]);
    rom[exefs + 0x220..exefs + 0x240].copy_from_slice(&[0x22; 0x20]);
    rom[exefs + 0x240..exefs + 0x260].copy_from_slice(&[0x33; 0x20]);

    let romfs = 0xE00;
    let mut romfs_blob = Vec::new();
    romfs_blob.extend_from_slice(b"ROMF");
    romfs_blob.extend_from_slice(&1u32.to_le_bytes());
    let path = b"/boot.bin";
    romfs_blob.extend_from_slice(&(path.len() as u16).to_le_bytes());
    romfs_blob.extend_from_slice(&48u32.to_le_bytes());
    romfs_blob.extend_from_slice(&4u32.to_le_bytes());
    romfs_blob.extend_from_slice(path);
    romfs_blob.resize(48, 0);
    romfs_blob.extend_from_slice(&[9, 8, 7, 6]);
    rom[romfs..romfs + romfs_blob.len()].copy_from_slice(&romfs_blob);

    rom
}

#[test]
fn parses_title_metadata_and_boot_image() {
    let rom = make_valid_rom();
    let loaded = parse_process_image_from_rom(&rom)
        .unwrap_or_else(|e| panic!("fixture should parse: {e:?}"));

    assert_eq!(loaded.layout.partitions.len(), 1);
    assert_eq!(loaded.layout.ncch.entrypoint, 0x0010_0004);
    assert_eq!(loaded.layout.exefs.entries.len(), 1);
    assert_eq!(loaded.layout.romfs.as_ref().map(|r| r.file_count), Some(1));

    assert_eq!(loaded.boot.entrypoint, 0x0010_0004);
    assert_eq!(loaded.boot.code_segment.virtual_address, 0x0010_0000);
    assert_eq!(loaded.boot.code_segment.size, 0x20);
    assert_eq!(loaded.boot.ro_segment.virtual_address, 0x0010_1000);
    assert_eq!(loaded.boot.ro_segment.size, 0x20);
    assert_eq!(loaded.boot.data_segment.virtual_address, 0x0010_2000);
    assert_eq!(loaded.boot.data_segment.size, 0x20);
}

#[test]
fn installs_segments_and_zeroes_bss() {
    let rom = make_valid_rom();
    let loaded = parse_process_image_from_rom(&rom)
        .unwrap_or_else(|e| panic!("fixture should parse: {e:?}"));
    let mut memory = Memory::new();

    install_process_image(&mut memory, &loaded.boot);

    assert_eq!(memory.read_u8(0x0010_0000), 0x11);
    assert_eq!(memory.read_u8(0x0010_1000), 0x22);
    assert_eq!(memory.read_u8(0x0010_2000), 0x33);
    assert_eq!(memory.read_u8(0x0010_2020), 0x00);
}

#[test]
fn rejects_malformed_layouts() {
    let mut bad_magic = make_valid_rom();
    bad_magic[0x200 + 0x100..0x200 + 0x104].copy_from_slice(b"BAD!");

    let mut bad_exefs = make_valid_rom();
    bad_exefs[0x800 + 12..0x800 + 16].copy_from_slice(&0xFFFFu32.to_le_bytes());

    assert!(parse_process_image_from_rom(&bad_magic).is_err());
    assert!(parse_process_image_from_rom(&bad_exefs).is_err());
}

#[test]
fn falls_back_to_text_base_when_entrypoint_is_outside_code() {
    let mut rom = make_valid_rom();
    let exheader = 0x400;
    rom[exheader..exheader + 4].copy_from_slice(&0x0040_0000u32.to_le_bytes());

    let loaded = parse_process_image_from_rom(&rom)
        .unwrap_or_else(|e| panic!("fixture should parse with fallback: {e:?}"));
    assert_eq!(loaded.boot.entrypoint, 0x0010_0000);
}
