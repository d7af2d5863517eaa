use emu3ds::rom::RomImage;

fn build_test_rom() -> Vec<u8> {
    let mut rom = vec![0u8; 0x4000];
    rom[0x100..0x104].copy_from_slice(b"NCSD");

    rom[0x120..0x124].copy_from_slice(&1u32.to_le_bytes());
    rom[0x124..0x128].copy_from_slice(&0x18u32.to_le_bytes());

    let ncch_base = 0x200;
    rom[ncch_base + 0x100..ncch_base + 0x104].copy_from_slice(b"NCCH");
    rom[ncch_base + 0x180..ncch_base + 0x184].copy_from_slice(&0x400u32.to_le_bytes());
    rom[ncch_base + 0x190..ncch_base + 0x194].copy_from_slice(&3u32.to_le_bytes());
    rom[ncch_base + 0x194..ncch_base + 0x198].copy_from_slice(&1u32.to_le_bytes());
    rom[ncch_base + 0x198..ncch_base + 0x19C].copy_from_slice(&4u32.to_le_bytes());
    rom[ncch_base + 0x19C..ncch_base + 0x1A0].copy_from_slice(&1u32.to_le_bytes());
    rom[ncch_base + 0x1A0..ncch_base + 0x1A4].copy_from_slice(&5u32.to_le_bytes());
    rom[ncch_base + 0x1A4..ncch_base + 0x1A8].copy_from_slice(&1u32.to_le_bytes());

    let exheader = ncch_base + 0x200;
    rom[exheader..exheader + 4].copy_from_slice(&0x0010_1000u32.to_le_bytes());
    rom[exheader + 0x10..exheader + 0x14].copy_from_slice(&0x0010_0000u32.to_le_bytes());
    rom[exheader + 0x14..exheader + 0x18].copy_from_slice(&1u32.to_le_bytes());
    rom[exheader + 0x18..exheader + 0x1C].copy_from_slice(&0x200u32.to_le_bytes());
    rom[exheader + 0x1C..exheader + 0x20].copy_from_slice(&0x8000u32.to_le_bytes());
    rom[exheader + 0x20..exheader + 0x24].copy_from_slice(&0x0010_2000u32.to_le_bytes());
    rom[exheader + 0x24..exheader + 0x28].copy_from_slice(&1u32.to_le_bytes());
    rom[exheader + 0x28..exheader + 0x2C].copy_from_slice(&0x100u32.to_le_bytes());
    rom[exheader + 0x30..exheader + 0x34].copy_from_slice(&0x0010_3000u32.to_le_bytes());
    rom[exheader + 0x34..exheader + 0x38].copy_from_slice(&1u32.to_le_bytes());
    rom[exheader + 0x38..exheader + 0x3C].copy_from_slice(&0x180u32.to_le_bytes());
    rom[exheader + 0x3C..exheader + 0x40].copy_from_slice(&0x200u32.to_le_bytes());
    rom[exheader + 0x40..exheader + 0x44].copy_from_slice(&0x20000u32.to_le_bytes());
    rom[exheader + 0x100..exheader + 0x107].copy_from_slice(b"fs:USER");

    rom
}

#[test]
fn parse_valid_rom_with_ncch_metadata() {
    let rom = build_test_rom();
    let parsed = RomImage::parse(&rom, usize::MAX)
        .unwrap_or_else(|e| panic!("valid ROM should parse: {e:?}"));

    assert_eq!(parsed.partitions().len(), 1);
    let program = parsed
        .first_program()
        .unwrap_or_else(|| panic!("program should exist"));
    assert_eq!(program.entrypoint, 0x0010_1000);
    assert_eq!(program.exheader.text_address, 0x0010_0000);
    assert_eq!(program.exheader.service_access, vec!["fs:USER".to_string()]);
    assert_eq!(program.text_region.offset, 0x800);
    assert_eq!(program.ro_region.offset, 0xA00);
    assert_eq!(program.data_region.offset, 0xC00);
}
