use emu3ds::fs::{ExeFs, RomFs};

const EXEFS_HEADER_SIZE: usize = 0x200;

fn romfs_fixture() -> Vec<u8> {
    let mut romfs = Vec::new();
    romfs.extend_from_slice(b"ROMF");
    romfs.extend_from_slice(&1u32.to_le_bytes());
    let path = b"/data/config.bin";
    let data_offset = 64u32;
    let data = [1u8, 2, 3, 4, 5, 6];
    romfs.extend_from_slice(&(path.len() as u16).to_le_bytes());
    romfs.extend_from_slice(&data_offset.to_le_bytes());
    romfs.extend_from_slice(&(data.len() as u32).to_le_bytes());
    romfs.extend_from_slice(path);
    romfs.resize(data_offset as usize, 0);
    romfs.extend_from_slice(&data);
    romfs
}

#[test]
fn romfs_path_lookup_and_read_boundaries() {
    let romfs = RomFs::parse(&romfs_fixture()).expect("valid romfs");
    let file = romfs.lookup("data/./config.bin").expect("path lookup");
    assert_eq!(file.size, 6);

    let slice = romfs
        .read_file("/data/config.bin", 2, 8)
        .expect("read works");
    assert_eq!(slice, vec![3, 4, 5, 6]);

    let empty = romfs
        .read_file("/data/config.bin", 100, 4)
        .expect("out of range returns empty");
    assert!(empty.is_empty());
}

#[test]
fn exefs_section_extraction() {
    let mut exefs = vec![0u8; EXEFS_HEADER_SIZE + 16];
    exefs[0..5].copy_from_slice(b".code");
    exefs[8..12].copy_from_slice(&0u32.to_le_bytes());
    exefs[12..16].copy_from_slice(&16u32.to_le_bytes());
    exefs[EXEFS_HEADER_SIZE..EXEFS_HEADER_SIZE + 16].copy_from_slice(&[0xAA; 16]);

    let parsed = ExeFs::parse(&exefs).expect("valid exefs");
    let code = parsed.file(".code").expect(".code exists");
    assert_eq!(code, &[0xAA; 16]);
}
