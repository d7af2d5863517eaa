use emu3ds::cpu::ExceptionKind;
use emu3ds::emulator::Emulator3ds;
use emu3ds::irq::IrqLine;
use emu3ds::pica::{PicaCommandBufferPacket, PicaGpu};
use emu3ds::scheduler::ScheduledDeviceEvent;

fn valid_rom() -> Vec<u8> {
    let mut rom = vec![0_u8; 0x5000];
    rom[0x100..0x104].copy_from_slice(b"NCSD");
    rom[0x120..0x124].copy_from_slice(&1u32.to_le_bytes());
    rom[0x124..0x128].copy_from_slice(&0x20u32.to_le_bytes());

    let ncch = 0x200;
    rom[ncch + 0x100..ncch + 0x104].copy_from_slice(b"NCCH");
    rom[ncch + 0x180..ncch + 0x184].copy_from_slice(&0x400u32.to_le_bytes());
    rom[ncch + 0x1A8..ncch + 0x1AC].copy_from_slice(&3u32.to_le_bytes());
    rom[ncch + 0x1AC..ncch + 0x1B0].copy_from_slice(&2u32.to_le_bytes());

    let ex = ncch + 0x200;
    rom[ex..ex + 4].copy_from_slice(&0x0010_0000u32.to_le_bytes());
    rom[ex + 0x10..ex + 0x14].copy_from_slice(&0x0010_0000u32.to_le_bytes());
    rom[ex + 0x18..ex + 0x1C].copy_from_slice(&0x20u32.to_le_bytes());
    rom[ex + 0x20..ex + 0x24].copy_from_slice(&0x0010_1000u32.to_le_bytes());
    rom[ex + 0x28..ex + 0x2C].copy_from_slice(&0x20u32.to_le_bytes());
    rom[ex + 0x30..ex + 0x34].copy_from_slice(&0x0010_2000u32.to_le_bytes());
    rom[ex + 0x38..ex + 0x3C].copy_from_slice(&0x20u32.to_le_bytes());
    rom[ex + 0x3C..ex + 0x40].copy_from_slice(&0x10u32.to_le_bytes());
    rom[ex + 0x1C..ex + 0x20].copy_from_slice(&0x2000u32.to_le_bytes());
    rom[ex + 0x40..ex + 0x44].copy_from_slice(&0x8000u32.to_le_bytes());

    let exefs = 0x800;
    rom[exefs..exefs + 5].copy_from_slice(b".code");
    rom[exefs + 8..exefs + 12].copy_from_slice(&0u32.to_le_bytes());
    rom[exefs + 12..exefs + 16].copy_from_slice(&0x60u32.to_le_bytes());
    rom[exefs + 0x200..exefs + 0x260].fill(0);

    rom
}

fn write_insn(rom: &mut [u8], offset: usize, opcode: u32) {
    rom[offset..offset + 4].copy_from_slice(&opcode.to_le_bytes());
}

#[test]
fn wasm_memory_mapping_handles_high_rom_addresses() {
    let mut emu = Emulator3ds::new();
    let mut rom = valid_rom();
    write_insn(&mut rom, 0xA00, 0xE320_F003);
    emu.load_rom(&rom)
        .unwrap_or_else(|e| panic!("load works: {e:?}"));
    emu.run_cycles(1)
        .unwrap_or_else(|e| panic!("run works: {e:?}"));
    let state = emu.state();
    assert_eq!(state.pc, 0x0010_0004);
}

#[test]
fn timer_event_triggers_irq_entry() {
    let mut emu = Emulator3ds::new();
    let mut rom = valid_rom();
    write_insn(&mut rom, 0xA00, 0xE1A0_0000); // NOP
    write_insn(&mut rom, 0xA18, 0xE320_F003); // HALT in IRQ vector
    emu.load_rom(&rom)
        .unwrap_or_else(|e| panic!("load works: {e:?}"));

    emu.scheduler
        .schedule_in(1, ScheduledDeviceEvent::TimerExpiry);

    emu.run_cycles(8)
        .unwrap_or_else(|e| panic!("run works: {e:?}"));

    let state = emu.state();
    let exception = state
        .last_exception
        .unwrap_or_else(|| panic!("expected IRQ exception"));
    assert!(matches!(
        exception.kind,
        ExceptionKind::Interrupt(IrqLine::Timer0)
    ));
    assert_eq!(exception.vector, 0x0010_0018);
    assert_eq!(state.pc, 0x0010_001C);
}

#[test]
fn dma_completion_signals_irq_and_copies_memory() {
    let mut emu = Emulator3ds::new();
    let mut rom = valid_rom();
    write_insn(&mut rom, 0xA00, 0xE1A0_0000); // NOP
    write_insn(&mut rom, 0xA18, 0xE320_F003); // HALT in IRQ vector
    emu.load_rom(&rom)
        .unwrap_or_else(|e| panic!("load works: {e:?}"));

    emu.write_phys_u32(0x0000_0080, 0x1122_3344);
    emu.write_phys_u32(0x0000_0084, 0x5566_7788);
    emu.queue_dma_memcpy(0, 0x0000_0080, 0x0000_0100, 2);

    emu.run_cycles(8)
        .unwrap_or_else(|e| panic!("run works: {e:?}"));

    assert_eq!(emu.read_phys_u32(0x0000_0100), 0x1122_3344);
    assert_eq!(emu.read_phys_u32(0x0000_0104), 0x5566_7788);
    let exception = emu
        .state()
        .last_exception
        .unwrap_or_else(|| panic!("expected DMA IRQ"));
    assert!(matches!(
        exception.kind,
        ExceptionKind::Interrupt(IrqLine::Dma0)
    ));
}

#[test]
fn gpu_kernel_timing_and_fs_pipeline_work() {
    let mut emu = Emulator3ds::new();
    let mut rom = valid_rom();
    write_insn(&mut rom, 0xA00, 0xEF00_0000);
    write_insn(&mut rom, 0xA04, 0xE320_F003);

    emu.load_title_package(&rom)
        .unwrap_or_else(|e| panic!("load title works: {e:?}"));
    emu.enqueue_gpu_fifo_words(&[
        PicaCommandBufferPacket::encode(0x0301, 1, false),
        0x0000_00FF,
        PicaCommandBufferPacket::encode(0x0200, 1, false),
        0xFF11_2233,
        PicaCommandBufferPacket::encode(0x0201, 1, false),
        (1 << 16) | 1,
        PicaCommandBufferPacket::encode(0x0202, 1, false),
        0xFF44_5566,
    ]);
    emu.run_cycles(8)
        .unwrap_or_else(|e| panic!("run works: {e:?}"));

    let timing = emu.timing_snapshot();
    assert!(timing.cpu_cycles > 0);
    assert!(emu.last_service_call().is_some());
    let frame = emu.frame_rgba();
    assert_eq!(frame.len(), PicaGpu::WIDTH * PicaGpu::HEIGHT * 4);
}
