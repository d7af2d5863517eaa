use emu3ds::bus::{Bus, BusDevice, SystemBus};
use emu3ds::error::EmulatorError;
use emu3ds::memory::{
    Memory, BIOS_SIZE, BIOS_START, FCRAM_SIZE, FCRAM_START, IO_SIZE, IO_START, ROM_START,
    VRAM_SIZE, VRAM_START,
};

#[test]
fn checked_byte_write_is_read_back() {
    let mut memory = Memory::new();
    assert_eq!(memory.write_u8_checked(0x0000_1234, 0x5A), Ok(()));
    assert_eq!(memory.read_u8_checked(0x0000_1234), Ok(0x5A));
    assert_eq!(memory.read_u8_checked(0x0000_1235), Ok(0));
}

#[test]
fn word_is_little_endian_concatenation_of_its_bytes() {
    let mut memory = Memory::new();
    assert_eq!(memory.write_u32_checked(0x100, 0x1122_3344), Ok(()));
    assert_eq!(memory.read_u8(0x100), 0x44);
    assert_eq!(memory.read_u8(0x101), 0x33);
    assert_eq!(memory.read_u8(0x102), 0x22);
    assert_eq!(memory.read_u8(0x103), 0x11);
    assert_eq!(memory.read_u32_checked(0x100), Ok(0x1122_3344));
    assert_eq!(memory.read_u32_checked(0x101), Ok(0x0011_2233));
}

#[test]
fn unmapped_addresses_read_zero_and_fail_checked_access() {
    let mut memory = Memory::new();
    assert_eq!(memory.read_u8(0x9000_0000), 0);
    assert_eq!(memory.read_u32(0x9000_0000), 0);
    assert_eq!(
        memory.read_u8_checked(0x9000_0000),
        Err(EmulatorError::MemoryOutOfBounds { address: 0x9000_0000 })
    );
    assert_eq!(
        memory.write_u8_checked(0x9000_0000, 1),
        Err(EmulatorError::MemoryOutOfBounds { address: 0x9000_0000 })
    );
    memory.write_u8(0x9000_0000, 1);
    memory.write_u32(0x9000_0000, 0xFFFF_FFFF);
    assert_eq!(memory.read_u32(0x9000_0000), 0);
}

#[test]
fn word_access_wraps_around_the_address_space() {
    let mut memory = Memory::new();
    // Bytes 0xFFFF_FFFD..0xFFFF_FFFF are unmapped, byte 0 is main RAM.
    assert_eq!(
        memory.read_u32_checked(0xFFFF_FFFD),
        Err(EmulatorError::MemoryOutOfBounds { address: 0xFFFF_FFFD })
    );
    assert_eq!(memory.read_u32(0xFFFF_FFFD), 0);
    assert_eq!(
        memory.write_u32_checked(0xFFFF_FFFD, 0xAABB_CCDD),
        Err(EmulatorError::MemoryOutOfBounds { address: 0xFFFF_FFFD })
    );
    assert_eq!(memory.read_u8(0), 0);
}

#[test]
fn failing_word_write_keeps_the_bytes_written_before_the_failure() {
    let mut memory = Memory::new();
    let last = FCRAM_START + (FCRAM_SIZE as u32) - 2;
    assert_eq!(
        memory.write_u32_checked(last, 0x4433_2211),
        Err(EmulatorError::MemoryOutOfBounds { address: ROM_START })
    );
    assert_eq!(memory.read_u8(last), 0x11);
    assert_eq!(memory.read_u8(last + 1), 0x22);
    assert_eq!(memory.read_u32(last), 0);
}

#[test]
fn bios_is_read_only_and_writes_succeed_silently() {
    let mut memory = Memory::new();
    assert_eq!(memory.write_u8_checked(BIOS_START, 0x77), Ok(()));
    assert_eq!(memory.read_u8_checked(BIOS_START), Ok(0));
    assert_eq!(memory.write_u32_checked(BIOS_START + 4, 0x1234_5678), Ok(()));
    assert_eq!(memory.read_u32(BIOS_START + 4), 0);
    assert_eq!(
        memory.read_u8_checked(BIOS_START + BIOS_SIZE as u32),
        Err(EmulatorError::MemoryOutOfBounds { address: 0x2000_0000 })
    );
}

#[test]
fn physical_address_map_has_the_documented_regions() {
    assert_eq!(FCRAM_START, 0x0000_0000);
    assert_eq!(FCRAM_SIZE, 128 * 1024 * 1024);
    assert_eq!(IO_START, 0x1010_0000);
    assert_eq!(IO_SIZE, 1024 * 1024);
    assert_eq!(VRAM_START, 0x1F00_0000);
    assert_eq!(VRAM_SIZE, 1024 * 1024);
    assert_eq!(BIOS_START, 0x1FFF_0000);
    assert_eq!(BIOS_SIZE, 64 * 1024);
    assert_eq!(ROM_START, 0x0800_0000);
    let mut memory = Memory::new();
    assert_eq!(memory.len_mapped_bytes(), FCRAM_SIZE + IO_SIZE + VRAM_SIZE + BIOS_SIZE);
    assert_eq!(memory.write_u8_checked(VRAM_START + 0xF_FFFF, 9), Ok(()));
    assert_eq!(memory.read_u8(VRAM_START + 0xF_FFFF), 9);
    assert_eq!(memory.write_u8_checked(IO_START, 3), Ok(()));
    assert_eq!(memory.read_u8(IO_START), 3);
}

#[test]
fn rom_image_is_mapped_read_only_and_replaces_the_previous_one() {
    let mut memory = Memory::new();
    assert_eq!(
        memory.read_u8_checked(ROM_START),
        Err(EmulatorError::MemoryOutOfBounds { address: ROM_START })
    );
    memory.map_rom(&[1, 2, 3, 4, 5]);
    assert_eq!(memory.read_u8_checked(ROM_START + 4), Ok(5));
    assert_eq!(memory.read_u32(ROM_START), 0x0403_0201);
    assert_eq!(
        memory.read_u8_checked(ROM_START + 5),
        Err(EmulatorError::MemoryOutOfBounds { address: ROM_START + 5 })
    );
    assert_eq!(memory.write_u8_checked(ROM_START, 0xFF), Ok(()));
    assert_eq!(memory.read_u8(ROM_START), 1);
    let mapped = memory.len_mapped_bytes();
    memory.map_rom(&[9, 8]);
    assert_eq!(memory.len_mapped_bytes(), mapped - 3);
    assert_eq!(memory.read_u8(ROM_START), 9);
    assert_eq!(memory.read_u8(ROM_START + 2), 0);
}

#[test]
fn clear_writable_zeroes_ram_but_not_rom() {
    let mut memory = Memory::new();
    memory.map_rom(&[7, 7, 7]);
    memory.write_u32(0x2000, 0xDEAD_BEEF);
    memory.write_u8(VRAM_START, 0x42);
    memory.clear_writable();
    assert_eq!(memory.read_u32(0x2000), 0);
    assert_eq!(memory.read_u8(VRAM_START), 0);
    assert_eq!(memory.read_u8(ROM_START), 7);
}

#[test]
fn store_bytes_stops_at_the_first_unmapped_address() {
    let mut memory = Memory::new();
    assert_eq!(memory.store_bytes(0x300, &[1, 2, 3]), Ok(()));
    assert_eq!(memory.read_u8(0x302), 3);
    let last = FCRAM_SIZE as u32 - 1;
    assert_eq!(
        memory.store_bytes(last, &[5, 6]),
        Err(EmulatorError::MemoryOutOfBounds { address: ROM_START })
    );
    assert_eq!(memory.read_u8(last), 5);
    assert_eq!(memory.zero_fill(0x300, 2), Ok(()));
    assert_eq!(memory.read_u8(0x300), 0);
    assert_eq!(memory.read_u8(0x301), 0);
    assert_eq!(memory.read_u8(0x302), 3);
}

struct Latch {
    word: u32,
    reads: u32,
}

impl BusDevice for Latch {
    type Model = (u32, u32);

    fn model(&self) -> (u32, u32) {
        (self.word, self.reads)
    }

    fn read_value(m: (u32, u32), _addr: u32) -> u32 {
        m.0
    }

    fn after_read(m: (u32, u32), _addr: u32) -> (u32, u32) {
        (m.0, m.1 + 1)
    }

    fn after_write(m: (u32, u32), _addr: u32, value: u32) -> (u32, u32) {
        (value, m.1)
    }

    fn read_u32(&mut self, _addr: u32) -> u32 {
        self.reads += 1;
        self.word
    }

    fn write_u32(&mut self, _addr: u32, value: u32) {
        self.word = value;
    }
}

#[test]
fn bus_trait_on_plain_memory_matches_the_memory() {
    let mut memory = Memory::new();
    assert_eq!(Bus::write_u32_checked(&mut memory, 0x40, 0x0102_0304), Ok(()));
    assert_eq!(Bus::read_u32_checked(&mut memory, 0x40), Ok(0x0102_0304));
    assert_eq!(Bus::read_u8(&mut memory, 0x43), 1);
    Bus::write_u8(&mut memory, 0x9000_0000, 1);
    assert_eq!(Bus::read_u8(&mut memory, 0x9000_0000), 0);
    assert_eq!(emu3ds::bus::bus_read_u32(&mut memory, 0x40), 0x0102_0304);
    emu3ds::bus::bus_write_u32(&mut memory, 0x44, 7);
    assert_eq!(memory.read_u32(0x44), 7);
}

#[test]
fn mmio_byte_access_is_read_modify_write_of_the_containing_word() {
    let mut bus: SystemBus<Latch> = SystemBus::new();
    bus.map_mmio_device(0x1010_1000, Latch { word: 0xAABB_CCDD, reads: 0 });
    assert_eq!(bus.read_u8_checked(0x1010_1000), Ok(0xDD));
    assert_eq!(bus.read_u8_checked(0x1010_1002), Ok(0xBB));
    assert_eq!(bus.read_u8_checked(0x1010_1FFF), Ok(0xAA));
    assert_eq!(bus.write_u8_checked(0x1010_1001, 0x11), Ok(()));
    assert_eq!(bus.read_u32_checked(0x1010_1000), Ok(0xAABB_11DD));
    // The neighbouring page is plain memory.
    assert_eq!(bus.read_u8_checked(0x1010_2000), Ok(0));
    assert_eq!(bus.write_u8_checked(0x1010_2000, 5), Ok(()));
    assert_eq!(bus.memory().read_u8(0x1010_2000), 5);
    bus.memory_mut().write_u8(0x10, 0x99);
    assert_eq!(bus.read_u8_checked(0x10), Ok(0x99));
    assert_eq!(SystemBus::<Latch>::mmio_base(0x1010_1ABC), 0x1010_1000);
    // A second device at the same base replaces the first.
    bus.map_mmio_device(0x1010_1000, Latch { word: 5, reads: 0 });
    assert_eq!(bus.read_u8_checked(0x1010_1000), Ok(5));
}
