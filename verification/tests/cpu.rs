use emu3ds::cpu::{
    Arm11Cpu, ExceptionKind, FaultKind, FLAG_T, LR_INDEX, MODE_IRQ, MODE_USR, PC_INDEX, SP_INDEX,
    VECTOR_DABT, VECTOR_PABT, VECTOR_SWI,
};
use emu3ds::error::MemoryAccessKind;
use emu3ds::memory::Memory;

fn mcr_cp15(crn: u32, rd: usize, crm: u32, opc2: u32) -> u32 {
    0xEE00_0010 | (crn << 16) | ((rd as u32) << 12) | (15 << 8) | (opc2 << 5) | crm
}

#[test]
fn instruction_fetch_fault_routes_to_prefetch_abort() {
    let mut cpu = Arm11Cpu::new();
    let mut memory = Memory::new();

    cpu.regs[0] = 0x0000_4000;
    assert!(cpu.exec_coprocessor(mcr_cp15(2, 0, 0, 0), &mut memory));
    cpu.regs[0] = 0b01;
    assert!(cpu.exec_coprocessor(mcr_cp15(3, 0, 0, 0), &mut memory));
    cpu.regs[0] = 1;
    assert!(cpu.exec_coprocessor(mcr_cp15(1, 0, 0, 0), &mut memory));

    cpu.regs[PC_INDEX] = 0x0010_0000;
    cpu.step(&mut memory).expect("step must handle abort");
    let ex = cpu.last_exception().expect("prefetch abort raised");
    assert_eq!(ex.kind, ExceptionKind::PrefetchAbort(FaultKind::Translation));
    assert_eq!(ex.vector, VECTOR_PABT);
}

#[test]
fn mcr_ttbr_write_invalidates_cached_translation() {
    let mut cpu = Arm11Cpu::new();
    let mut memory = Memory::new();
    memory
        .write_u32_checked(0x0000_4000, 0x0800_0000 | (0b11 << 10) | 0b10)
        .unwrap_or_else(|e| panic!("descriptor write: {e:?}"));

    cpu.regs[0] = 0x0000_4000;
    cpu.exec_coprocessor(mcr_cp15(2, 0, 0, 0), &mut memory);
    cpu.regs[0] = 0b01;
    cpu.exec_coprocessor(mcr_cp15(3, 0, 0, 0), &mut memory);
    cpu.regs[0] = 1;
    cpu.exec_coprocessor(mcr_cp15(1, 0, 0, 0), &mut memory);

    cpu.mmu
        .translate(&mut memory, 0x0000_1000, MemoryAccessKind::Read, true)
        .unwrap_or_else(|e| panic!("initial translation: {e:?}"));
    assert_eq!(cpu.mmu.tlb_len(), 1);

    cpu.regs[0] = 0x0000_8000;
    cpu.exec_coprocessor(mcr_cp15(2, 0, 0, 0), &mut memory);
    assert_eq!(cpu.mmu.tlb_len(), 0);
}

#[test]
fn write_to_apx_read_only_section_routes_to_data_abort() {
    let mut cpu = Arm11Cpu::new();
    let mut memory = Memory::new();
    memory
        .write_u32_checked(0x0000_4000, (1 << 15) | (0b11 << 10) | 0b10)
        .unwrap_or_else(|e| panic!("descriptor write: {e:?}"));
    memory
        .write_u32_checked(0x0000_4004, 0x0010_0000 | (0b11 << 10) | 0b10)
        .unwrap_or_else(|e| panic!("descriptor write: {e:?}"));
    memory.write_u32(0x0010_0000, 0xE5801000); // str r1, [r0]

    cpu.regs[0] = 0x0000_4000;
    cpu.exec_coprocessor(mcr_cp15(2, 0, 0, 0), &mut memory);
    cpu.regs[0] = 0b01;
    cpu.exec_coprocessor(mcr_cp15(3, 0, 0, 0), &mut memory);
    cpu.regs[0] = 1;
    cpu.exec_coprocessor(mcr_cp15(1, 0, 0, 0), &mut memory);

    cpu.regs[PC_INDEX] = 0x0010_0000;
    cpu.regs[0] = 0;
    cpu.regs[1] = 0x1122_3344;
    cpu.step(&mut memory).expect("step must handle abort");

    let ex = cpu.last_exception().expect("data abort raised");
    assert_eq!(ex.kind, ExceptionKind::DataAbort(FaultKind::Permission));
    assert_eq!(ex.vector, VECTOR_DABT);
}

#[test]
fn execute_never_section_routes_to_prefetch_abort_permission() {
    let mut cpu = Arm11Cpu::new();
    let mut memory = Memory::new();
    memory
        .write_u32_checked(0x0000_4000, 0x0800_0000 | (1 << 4) | (0b11 << 10) | 0b10)
        .unwrap_or_else(|e| panic!("descriptor write: {e:?}"));
    memory.write_u32(0x0800_0000, 0xE1A0_0000); // nop

    cpu.regs[0] = 0x0000_4000;
    cpu.exec_coprocessor(mcr_cp15(2, 0, 0, 0), &mut memory);
    cpu.regs[0] = 0b01;
    cpu.exec_coprocessor(mcr_cp15(3, 0, 0, 0), &mut memory);
    cpu.regs[0] = 1;
    cpu.exec_coprocessor(mcr_cp15(1, 0, 0, 0), &mut memory);

    cpu.regs[PC_INDEX] = 0;
    cpu.step(&mut memory).expect("step must handle abort");

    let ex = cpu.last_exception().expect("prefetch abort raised");
    assert_eq!(ex.kind, ExceptionKind::PrefetchAbort(FaultKind::Permission));
    assert_eq!(ex.vector, VECTOR_PABT);
}

#[test]
fn arm_byte_transfer_and_register_offset_work() {
    let mut cpu = Arm11Cpu::new();
    let mut mem = Memory::new();
    cpu.regs[PC_INDEX] = 0;
    cpu.regs[0] = 0x100;
    cpu.regs[1] = 0xAB;
    cpu.regs[2] = 0x10;

    mem.write_u32(0, 0xE7C0_1002); // strb r1, [r0, r2]
    mem.write_u32(4, 0xE7D0_3002); // ldrb r3, [r0, r2]

    cpu.step(&mut mem).expect("strb executes");
    cpu.step(&mut mem).expect("ldrb executes");

    assert_eq!(mem.read_u8(0x110), 0xAB);
    assert_eq!(cpu.regs[3], 0xAB);
}

#[test]
fn arm_signed_halfword_load_sign_extends() {
    let mut cpu = Arm11Cpu::new();
    let mut mem = Memory::new();
    cpu.regs[PC_INDEX] = 0;
    cpu.regs[0] = 0x200;
    mem.write_u8(0x200, 0x80);
    mem.write_u8(0x201, 0xFF);
    mem.write_u32(0, 0xE1D0_10F0); // ldrsh r1, [r0]

    cpu.step(&mut mem).expect("ldrsh executes");
    assert_eq!(cpu.regs[1], 0xFFFF_FF80);
}

#[test]
fn thumb_data_abort_sets_abort_lr_offset() {
    let mut cpu = Arm11Cpu::new();
    let mut mem = Memory::new();
    cpu.cpsr |= FLAG_T;
    cpu.regs[PC_INDEX] = 0;

    mem.write_u8(0, 0x00);
    mem.write_u8(1, 0x68); // ldr r0, [r0]
    cpu.regs[0] = 1; // unaligned

    cpu.step(&mut mem).expect("thumb step");
    let ex = cpu.last_exception().expect("data abort");
    assert_eq!(ex.kind, ExceptionKind::DataAbort(FaultKind::Alignment));
    assert_eq!(ex.return_address, 8);
    assert_eq!(cpu.regs[LR_INDEX], 8);
}

#[test]
fn movs_pc_lr_restores_mode_and_banked_registers() {
    let mut cpu = Arm11Cpu::new();
    let mut mem = Memory::new();

    cpu.regs[SP_INDEX] = 0x1000;
    cpu.regs[LR_INDEX] = 0x2000;
    cpu.regs[PC_INDEX] = 0;

    mem.write_u32(0, 0xEF00_0000); // swi
    cpu.step(&mut mem).expect("swi");

    cpu.regs[SP_INDEX] = 0x7777;
    cpu.regs[PC_INDEX] = VECTOR_SWI;
    mem.write_u32(VECTOR_SWI, 0xE1B0_F00E); // movs pc, lr
    cpu.step(&mut mem).expect("exception return");

    assert_eq!(cpu.mode(), MODE_USR);
    assert_eq!(cpu.regs[SP_INDEX], 0x1000);
    assert_eq!(cpu.regs[LR_INDEX], 0x2000);
    assert_eq!(cpu.pc(), 4);
}

#[test]
fn banked_sp_lr_switch_between_usr_and_irq() {
    let mut cpu = Arm11Cpu::new();
    cpu.regs[SP_INDEX] = 0x1000;
    cpu.regs[LR_INDEX] = 0x2000;
    cpu.switch_mode(MODE_IRQ);
    cpu.regs[SP_INDEX] = 0x3000;
    cpu.regs[LR_INDEX] = 0x4000;
    cpu.switch_mode(MODE_USR);
    assert_eq!(cpu.regs[SP_INDEX], 0x1000);
    assert_eq!(cpu.regs[LR_INDEX], 0x2000);
}

#[test]
fn thumb_fixture_conformance_sequence() {
    let mut cpu = Arm11Cpu::new();
    let mut mem = Memory::new();
    cpu.cpsr |= FLAG_T;
    cpu.regs[PC_INDEX] = 0x0000_0000;

    // mov r0, #5 ; add r0,#3 ; sub r0,#1 ; b +0
    mem.write_u8(0, 0x05);
    mem.write_u8(1, 0x20);
    mem.write_u8(2, 0x03);
    mem.write_u8(3, 0x30);
    mem.write_u8(4, 0x01);
    mem.write_u8(5, 0x38);
    mem.write_u8(6, 0x00);
    mem.write_u8(7, 0xE0);

    for _ in 0..3 {
        cpu.step(&mut mem).expect("thumb step");
    }

    assert_eq!(cpu.regs[0], 7);
}

#[test]
fn boot_trace_replay_records_first_failure_context() {
    let mut cpu = Arm11Cpu::new();
    let mut mem = Memory::new();
    cpu.enable_instruction_trace(8);
    cpu.regs[PC_INDEX] = 0;

    mem.write_u32(0, 0xE3A00001); // mov r0,#1
    mem.write_u32(4, 0xEF000011); // swi

    cpu.step(&mut mem).expect("mov executes");
    cpu.step(&mut mem).expect("swi executes");

    assert_eq!(cpu.instruction_trace().len(), 2);
    assert_eq!(cpu.instruction_trace()[0].pc, 0);
    assert!(matches!(
        cpu.last_exception().expect("swi exception").kind,
        ExceptionKind::SoftwareInterrupt
    ));
}
