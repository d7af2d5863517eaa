use emu3ds::cpu::alu::{shift_value, Shifted};
use emu3ds::cpu::{
    Arm11Cpu, CpuRunState, ExceptionKind, FaultKind, CP15_DFAR, CP15_DFSR, CP15_IFAR, CP15_IFSR,
    FLAG_C, FLAG_I, FLAG_T, MODE_ABT, MODE_SVC, PC_INDEX, VECTOR_BASE, VECTOR_DABT, VECTOR_IRQ,
    VECTOR_PABT, VECTOR_SWI, VECTOR_UND,
};
use emu3ds::error::{EmulatorError, MemoryAccessKind};
use emu3ds::irq::{IrqController, IrqLine};
use emu3ds::memory::Memory;
use emu3ds::mmu::Mmu;
use emu3ds::scheduler::{ScheduledDeviceEvent, Scheduler};
use emu3ds::timing::{DriftCorrectionPolicy, TimingModel, AUDIO_HZ, CPU_HZ, VIDEO_HZ};

fn descriptor(pa_base: u32, domain: u32, ap: u32, kind: u32) -> u32 {
    (pa_base & 0xFFF0_0000) | (domain << 5) | (ap << 10) | kind
}

fn enabled_mmu(dacr: u32) -> Mmu {
    let mut mmu = Mmu::new();
    mmu.write_ttbr0(0x0000_4000);
    mmu.write_dacr(dacr);
    mmu.write_control(1);
    mmu
}

#[test]
fn disabled_mmu_translates_to_the_identity() {
    let mut memory = Memory::new();
    let mut mmu = Mmu::new();
    assert_eq!(
        mmu.translate(&mut memory, 0xDEAD_BEE0, MemoryAccessKind::Write, false),
        Ok(0xDEAD_BEE0)
    );
    assert_eq!(mmu.tlb_len(), 0);
}

#[test]
fn descriptor_of_any_other_type_is_a_translation_fault() {
    for kind in [0b00u32, 0b01, 0b11] {
        let mut memory = Memory::new();
        memory.write_u32(0x0000_4000 + 3 * 4, descriptor(0x0800_0000, 0, 0b11, kind));
        let mut mmu = enabled_mmu(0b11);
        assert_eq!(
            mmu.translate(&mut memory, 0x0030_0010, MemoryAccessKind::Execute, true),
            Err(EmulatorError::MmuTranslationFault {
                pc: 0,
                va: 0x0030_0010,
                pa: None,
                access: MemoryAccessKind::Execute,
            })
        );
        assert_eq!(mmu.tlb_len(), 0);
    }
}

#[test]
fn no_access_domain_faults_whatever_the_permissions() {
    for ap in 0..4u32 {
        for mode in [0b00u32, 0b10] {
            let mut memory = Memory::new();
            memory.write_u32(0x0000_4000, descriptor(0x0010_0000, 5, ap, 0b10));
            let mut mmu = enabled_mmu(mode << 10);
            assert_eq!(
                mmu.translate(&mut memory, 0x0000_0040, MemoryAccessKind::Read, true),
                Err(EmulatorError::MmuDomainFault {
                    pc: 0,
                    va: 0x0000_0040,
                    pa: None,
                    domain: 5,
                    access: MemoryAccessKind::Read,
                })
            );
        }
    }
}

#[test]
fn manager_domain_translates_whatever_the_permissions() {
    for ap in 0..4u32 {
        let mut memory = Memory::new();
        let xn_apx = (1 << 4) | (1 << 15);
        memory.write_u32(0x0000_4000, descriptor(0x0770_0000, 2, ap, 0b10) | xn_apx);
        let mut mmu = enabled_mmu(0b11 << 4);
        for access in [MemoryAccessKind::Read, MemoryAccessKind::Write, MemoryAccessKind::Execute] {
            assert_eq!(mmu.translate(&mut memory, 0x000A_BCDE, access, false), Ok(0x077A_BCDE));
        }
    }
}

#[test]
fn client_domain_enforces_each_permission_setting() {
    let cases: [(u32, bool, MemoryAccessKind, bool); 8] = [
        (0b00, true, MemoryAccessKind::Read, false),
        (0b01, true, MemoryAccessKind::Write, true),
        (0b01, false, MemoryAccessKind::Read, false),
        (0b10, false, MemoryAccessKind::Read, true),
        (0b10, false, MemoryAccessKind::Execute, true),
        (0b10, false, MemoryAccessKind::Write, false),
        (0b10, true, MemoryAccessKind::Write, true),
        (0b11, false, MemoryAccessKind::Write, true),
    ];
    for (ap, privileged, access, allowed) in cases {
        let mut memory = Memory::new();
        memory.write_u32(0x0000_4000, descriptor(0x0010_0000, 0, ap, 0b10));
        let mut mmu = enabled_mmu(0b01);
        let result = mmu.translate(&mut memory, 0x0000_0100, access, privileged);
        if allowed {
            assert_eq!(result, Ok(0x0010_0100));
        } else {
            assert_eq!(
                result,
                Err(EmulatorError::MmuPermissionFault { pc: 0, va: 0x0000_0100, pa: None, access })
            );
        }
    }
}

#[test]
fn apx_forbids_writes_except_for_privileged_ap_01_and_10() {
    for (ap, privileged, faults) in [
        (0b00u32, true, true),
        (0b00, false, true),
        (0b01, false, true),
        (0b10, false, true),
        (0b11, true, true),
        (0b11, false, true),
        (0b01, true, false),
        (0b10, true, false),
    ] {
        let mut memory = Memory::new();
        memory.write_u32(0x0000_4000, descriptor(0x0010_0000, 0, ap, 0b10) | (1 << 15));
        let mut mmu = enabled_mmu(0b01);
        let result = mmu.translate_write(&mut memory, 0x0000_0200, privileged);
        assert_eq!(result.is_err(), faults);
        if faults {
            assert_eq!(
                result,
                Err(EmulatorError::MmuPermissionFault {
                    pc: 0,
                    va: 0x0000_0200,
                    pa: None,
                    access: MemoryAccessKind::Write,
                })
            );
        }
    }
}

#[test]
fn ttbr0_write_makes_the_next_translation_walk_the_new_table() {
    let mut memory = Memory::new();
    memory.write_u32(0x0000_4000, descriptor(0x0100_0000, 0, 0b11, 0b10));
    memory.write_u32(0x0000_8000, descriptor(0x0200_0000, 0, 0b11, 0b10));
    let mut mmu = enabled_mmu(0b01);
    assert_eq!(mmu.translate_read(&mut memory, 0x0000_0010, false), Ok(0x0100_0010));
    // The cached entry hides a change of the table in memory.
    memory.write_u32(0x0000_4000, descriptor(0x0300_0000, 0, 0b11, 0b10));
    assert_eq!(mmu.translate_read(&mut memory, 0x0000_0010, false), Ok(0x0100_0010));
    mmu.write_ttbr0(0x0000_8123);
    assert_eq!(mmu.tlb_len(), 0);
    assert_eq!(mmu.translate_read(&mut memory, 0x0000_0010, false), Ok(0x0200_0010));
    mmu.write_dacr(0b01);
    assert_eq!(mmu.tlb_len(), 0);
    mmu.translate_read(&mut memory, 0x0000_0010, false).expect("walk");
    mmu.write_control(1);
    assert_eq!(mmu.tlb_len(), 1);
    mmu.write_control(1 | (1 << 2));
    assert_eq!(mmu.tlb_len(), 0);
    mmu.translate_read(&mut memory, 0x0000_0010, false).expect("walk");
    mmu.invalidate_tlb();
    assert_eq!(mmu.tlb_len(), 0);
    mmu.reset();
    assert!(!mmu.mmu_enabled());
}

#[test]
fn descriptor_read_from_unmapped_table_is_a_bus_error() {
    let mut memory = Memory::new();
    let mut mmu = Mmu::new();
    mmu.write_ttbr0(0x9000_0000);
    mmu.write_dacr(0b01);
    mmu.write_control(1);
    assert_eq!(
        mmu.translate_read(&mut memory, 0x0010_0000, false),
        Err(EmulatorError::MemoryOutOfBounds { address: 0x9000_0004 })
    );
}

#[test]
fn scheduler_drains_in_fire_priority_insertion_order_and_only_once() {
    let mut scheduler = Scheduler::new();
    scheduler.schedule_at(5, ScheduledDeviceEvent::ServiceWake { pid: 7 });
    scheduler.schedule_at(5, ScheduledDeviceEvent::DmaCompletion { channel: 2 });
    scheduler.schedule_at(5, ScheduledDeviceEvent::VBlank);
    scheduler.schedule_at(5, ScheduledDeviceEvent::TimerExpiry);
    scheduler.schedule_at(3, ScheduledDeviceEvent::DmaCompletion { channel: 1 });
    scheduler.schedule_at(5, ScheduledDeviceEvent::DmaCompletion { channel: 0 });
    scheduler.schedule_at(9, ScheduledDeviceEvent::TimerExpiry);
    assert_eq!(scheduler.drain_due_events(), vec![]);
    scheduler.tick(5);
    assert_eq!(scheduler.cycles(), 5);
    assert_eq!(
        scheduler.drain_due_events(),
        vec![
            ScheduledDeviceEvent::DmaCompletion { channel: 1 },
            ScheduledDeviceEvent::TimerExpiry,
            ScheduledDeviceEvent::VBlank,
            ScheduledDeviceEvent::DmaCompletion { channel: 2 },
            ScheduledDeviceEvent::DmaCompletion { channel: 0 },
            ScheduledDeviceEvent::ServiceWake { pid: 7 },
        ]
    );
    assert_eq!(scheduler.drain_due_events(), vec![]);
    scheduler.tick(4);
    assert_eq!(scheduler.drain_due_events(), vec![ScheduledDeviceEvent::TimerExpiry]);
}

#[test]
fn schedule_in_is_schedule_at_now_plus_delay() {
    let mut a = Scheduler::new();
    let mut b = Scheduler::new();
    a.tick(10);
    b.tick(10);
    a.schedule_in(6, ScheduledDeviceEvent::VBlank);
    b.schedule_at(16, ScheduledDeviceEvent::VBlank);
    a.tick(5);
    b.tick(5);
    assert_eq!(a.drain_due_events(), b.drain_due_events());
    a.tick(1);
    b.tick(1);
    assert_eq!(a.drain_due_events(), vec![ScheduledDeviceEvent::VBlank]);
    assert_eq!(b.drain_due_events(), vec![ScheduledDeviceEvent::VBlank]);
    a.schedule_in(u64::MAX, ScheduledDeviceEvent::TimerExpiry);
    a.tick(u32::MAX);
    assert_eq!(a.drain_due_events(), vec![]);
    a.reset();
    assert_eq!(a.cycles(), 0);
}

#[test]
fn samples_and_frames_are_the_floor_of_the_accumulated_phase() {
    let mut timing = TimingModel::new();
    let deltas: [u32; 6] = [1, 5_582, 5_583, 1_000_003, 268_000_000, 77];
    let mut cycles: u64 = 0;
    let mut samples: u64 = 0;
    let mut frames: u64 = 0;
    for delta in deltas {
        let tick = timing.tick(delta);
        cycles += u64::from(delta);
        samples += tick.audio_samples;
        frames += tick.video_frames;
        assert_eq!(samples, cycles * AUDIO_HZ / CPU_HZ);
        assert_eq!(frames, cycles * VIDEO_HZ / CPU_HZ);
    }
    let snapshot = timing.snapshot();
    assert_eq!(snapshot.cpu_cycles, cycles);
    assert_eq!(snapshot.audio_samples_due, samples);
    assert_eq!(snapshot.video_frames_due, frames);
    assert_eq!(snapshot.emu_time_us, cycles * 1_000_000 / CPU_HZ);
    assert_eq!(snapshot.av_desync_samples, samples as i64 - frames as i64 * 800);
    // 5583 cycles are the first that hold a whole sample.
    let mut fresh = TimingModel::new();
    assert_eq!(fresh.tick(5_583).audio_samples, 0);
    assert_eq!(fresh.tick(1).audio_samples, 1);
}

#[test]
fn vblank_edges_are_counted_per_screen() {
    let line: u32 = 17_048;
    let mut timing = TimingModel::new();
    let tick = timing.tick(line * 237);
    assert_eq!((tick.top_vblank_edges, tick.bottom_vblank_edges), (0, 0));
    let snapshot = timing.snapshot();
    assert_eq!(snapshot.top.scanline, 237);
    assert_eq!(snapshot.bottom.scanline, 239);
    assert!(!snapshot.top.in_vblank && !snapshot.bottom.in_vblank);
    let tick = timing.tick(line);
    assert_eq!((tick.top_vblank_edges, tick.bottom_vblank_edges), (0, 1));
    let tick = timing.tick(line * 2);
    assert_eq!((tick.top_vblank_edges, tick.bottom_vblank_edges), (1, 0));
    let snapshot = timing.snapshot();
    assert_eq!(snapshot.top.scanline, 240);
    assert!(snapshot.top.in_vblank);
    assert_eq!(snapshot.top.vblank_count, 1);
    assert_eq!(snapshot.bottom.vblank_count, 1);
}

#[test]
fn drift_policy_halves_extends_or_passes_the_budget() {
    let mut timing = TimingModel::new();
    timing.set_drift_policy(DriftCorrectionPolicy { max_frame_lead_us: 100, max_frame_lag_us: 200 });
    timing.set_wall_time_anchor_us(1_000);
    timing.tick(268_000); // 1000 us of emulated time
    // drift = 1000 - (host - 1000)
    assert_eq!(timing.emulated_time_us(), 1_000);
    assert_eq!(timing.recommended_cycle_budget(1_899, 1_000), 500);
    assert_eq!(timing.recommended_cycle_budget(1_900, 1_000), 1_000);
    assert_eq!(timing.recommended_cycle_budget(2_200, 1_000), 1_000);
    assert_eq!(timing.recommended_cycle_budget(2_201, 1_000), 1_500);
    assert_eq!(timing.recommended_cycle_budget(0, 1), 1);
    assert_eq!(timing.recommended_cycle_budget(0, 0), 1);
    assert_eq!(timing.recommended_cycle_budget(1_000_000, u32::MAX), u32::MAX);
    let policy = DriftCorrectionPolicy::default();
    assert_eq!((policy.max_frame_lead_us, policy.max_frame_lag_us), (2_000, 8_000));
}

#[test]
fn irq_controller_serves_lines_in_fixed_priority() {
    let mut irq = IrqController::new();
    assert_eq!(irq.next_pending(), None);
    irq.raise(IrqLine::Dma0);
    irq.raise(IrqLine::VBlank);
    assert_eq!(irq.next_pending(), Some(IrqLine::VBlank));
    irq.raise(IrqLine::Timer0);
    assert_eq!(irq.next_pending(), Some(IrqLine::Timer0));
    irq.set_enabled_mask(0b100);
    assert_eq!(irq.next_pending(), Some(IrqLine::Dma0));
    irq.clear(IrqLine::Dma0);
    assert_eq!(irq.next_pending(), None);
    irq.set_enabled_mask(u32::MAX);
    irq.clear(IrqLine::Timer0);
    assert_eq!(irq.next_pending(), Some(IrqLine::VBlank));
    irq.reset();
    assert_eq!(irq.next_pending(), None);
    assert_eq!(IrqLine::Dma0.bit(), 4);
    assert_eq!(IrqLine::VBlank.number(), 1);
}

#[test]
fn shifter_zero_amounts_have_their_special_meanings() {
    let value = 0x8000_0003;
    for carry in [false, true] {
        assert_eq!(shift_value(value, 0, 0b00, carry), Shifted { value, carry });
        assert_eq!(shift_value(value, 0, 0b01, carry), Shifted { value: 0, carry: true });
        assert_eq!(shift_value(0x7000_0000, 0, 0b01, carry), Shifted { value: 0, carry: false });
        assert_eq!(shift_value(value, 0, 0b10, carry), Shifted { value: u32::MAX, carry: true });
        assert_eq!(shift_value(0x7000_0000, 0, 0b10, carry), Shifted { value: 0, carry: false });
    }
    assert_eq!(shift_value(value, 0, 0b11, true), Shifted { value: 0xC000_0001, carry: true });
    assert_eq!(shift_value(0x0000_0002, 0, 0b11, false), Shifted { value: 1, carry: false });
    assert_eq!(shift_value(0x8000_0001, 1, 0b00, false), Shifted { value: 2, carry: true });
    assert_eq!(shift_value(0x8000_0001, 1, 0b01, false), Shifted { value: 0x4000_0000, carry: true });
    assert_eq!(shift_value(0x8000_0002, 1, 0b10, false), Shifted { value: 0xC000_0001, carry: false });
    assert_eq!(shift_value(0x0000_00F1, 4, 0b11, false), Shifted { value: 0x1000_000F, carry: false });
    assert_eq!(shift_value(0x0000_0008, 4, 0b11, false), Shifted { value: 0x8000_0000, carry: true });
}

#[test]
fn movs_with_zero_shift_amounts_through_the_cpu() {
    let mut cpu = Arm11Cpu::new();
    let mut mem = Memory::new();
    cpu.regs[1] = 0x8000_0001;
    cpu.cpsr |= FLAG_C;
    mem.write_u32(0, 0xE1B0_0001); // movs r0, r1          (LSL #0)
    mem.write_u32(4, 0xE1B0_2021); // movs r2, r1, lsr #32
    mem.write_u32(8, 0xE1B0_3041); // movs r3, r1, asr #32
    mem.write_u32(12, 0xE1B0_4061); // movs r4, r1, rrx
    cpu.step(&mut mem).expect("lsl");
    assert_eq!(cpu.regs[0], 0x8000_0001);
    assert_ne!(cpu.cpsr & FLAG_C, 0);
    cpu.step(&mut mem).expect("lsr");
    assert_eq!(cpu.regs[2], 0);
    assert_ne!(cpu.cpsr & FLAG_C, 0);
    cpu.step(&mut mem).expect("asr");
    assert_eq!(cpu.regs[3], 0xFFFF_FFFF);
    cpu.step(&mut mem).expect("rrx");
    assert_eq!(cpu.regs[4], 0xC000_0000);
    assert_ne!(cpu.cpsr & FLAG_C, 0);
}

#[test]
fn thumb_bx_selects_the_state_by_the_low_bit_of_the_target() {
    let mut cpu = Arm11Cpu::new();
    let mut mem = Memory::new();
    cpu.cpsr |= FLAG_T;
    cpu.regs[3] = 0x0000_0101;
    mem.write_u8(0, 0x18);
    mem.write_u8(1, 0x47); // bx r3
    cpu.step(&mut mem).expect("bx to odd");
    assert_eq!(cpu.pc(), 0x0000_0100);
    assert!(cpu.is_thumb());
    cpu.regs[3] = 0x0000_0200;
    mem.write_u8(0x100, 0x18);
    mem.write_u8(0x101, 0x47); // bx r3
    cpu.step(&mut mem).expect("bx to even");
    assert_eq!(cpu.pc(), 0x0000_0200);
    assert!(!cpu.is_thumb());
}

#[test]
fn unaligned_fetches_raise_alignment_prefetch_aborts() {
    let mut cpu = Arm11Cpu::new();
    let mut mem = Memory::new();
    cpu.regs[PC_INDEX] = 0x0000_0102;
    assert_eq!(cpu.step(&mut mem), Ok(3));
    let ex = cpu.last_exception().expect("prefetch abort");
    assert_eq!(ex.kind, ExceptionKind::PrefetchAbort(FaultKind::Alignment));
    assert_eq!(ex.vector, VECTOR_PABT);
    assert_eq!(ex.return_address, 0x0000_0106);
    assert_eq!(cpu.cp15_regs[CP15_IFAR], 0x0000_0102);
    assert_eq!(cpu.cp15_regs[CP15_IFSR], 0b00001);
    assert_eq!(cpu.pc(), VECTOR_PABT);
    assert_eq!(cpu.mode(), MODE_ABT);
    assert!(!cpu.interrupts_enabled());

    let mut thumb = Arm11Cpu::new();
    thumb.cpsr |= FLAG_T;
    thumb.regs[PC_INDEX] = 0x0000_0101;
    thumb.step(&mut mem).expect("thumb step");
    let ex = thumb.last_exception().expect("prefetch abort");
    assert_eq!(ex.kind, ExceptionKind::PrefetchAbort(FaultKind::Alignment));
    assert!(!thumb.is_thumb());
    // A half-word aligned Thumb fetch is fine.
    let mut aligned = Arm11Cpu::new();
    aligned.cpsr |= FLAG_T;
    aligned.regs[PC_INDEX] = 0x0000_0102;
    mem.write_u8(0x102, 0x05);
    mem.write_u8(0x103, 0x20); // mov r0, #5
    aligned.step(&mut mem).expect("thumb step");
    assert_eq!(aligned.last_exception(), None);
    assert_eq!(aligned.regs[0], 5);
}

#[test]
fn unaligned_word_and_halfword_transfers_raise_alignment_data_aborts() {
    let mut cpu = Arm11Cpu::new();
    let mut mem = Memory::new();
    cpu.regs[0] = 0x0000_0202;
    mem.write_u32(0, 0xE590_1000); // ldr r1, [r0]
    cpu.step(&mut mem).expect("ldr");
    let ex = cpu.last_exception().expect("data abort");
    assert_eq!(ex.kind, ExceptionKind::DataAbort(FaultKind::Alignment));
    assert_eq!(ex.vector, VECTOR_DABT);
    assert_eq!(ex.return_address, 8);
    assert_eq!(cpu.cp15_regs[CP15_DFSR], 0b00001);
    assert_eq!(cpu.cp15_regs[CP15_DFAR], 0);

    let mut cpu = Arm11Cpu::new();
    cpu.regs[0] = 0x0000_0201;
    mem.write_u32(0, 0xE1D0_10B0); // ldrh r1, [r0]
    cpu.step(&mut mem).expect("ldrh");
    assert_eq!(
        cpu.last_exception().expect("data abort").kind,
        ExceptionKind::DataAbort(FaultKind::Alignment)
    );
    // A byte load at the same address is fine.
    let mut cpu = Arm11Cpu::new();
    cpu.regs[0] = 0x0000_0201;
    mem.write_u8(0x201, 0x7E);
    mem.write_u32(0, 0xE5D0_1000); // ldrb r1, [r0]
    cpu.step(&mut mem).expect("ldrb");
    assert_eq!(cpu.last_exception(), None);
    assert_eq!(cpu.regs[1], 0x7E);
}

#[test]
fn apx_store_takes_the_data_abort_vector_and_encodes_permission() {
    let mut cpu = Arm11Cpu::new();
    let mut memory = Memory::new();
    let mcr = |crn: u32| 0xEE00_0010u32 | (crn << 16) | (15 << 8);
    memory.write_u32(0x0000_4000, (1 << 15) | (0b11 << 10) | 0b10);
    memory.write_u32(0x0000_4004, 0x0010_0000 | (0b11 << 10) | 0b10);
    memory.write_u32(0x0010_0000, 0xE580_1000); // str r1, [r0]
    cpu.regs[0] = 0x0000_4000;
    cpu.exec_coprocessor(mcr(2), &mut memory);
    cpu.regs[0] = 0b01;
    cpu.exec_coprocessor(mcr(3), &mut memory);
    cpu.regs[0] = 1;
    cpu.exec_coprocessor(mcr(1), &mut memory);
    cpu.regs[PC_INDEX] = 0x0010_0000;
    cpu.regs[0] = 0x0000_0040;
    cpu.regs[1] = 0x1122_3344;
    assert_eq!(cpu.step(&mut memory), Ok(3));
    assert_eq!(cpu.pc(), VECTOR_DABT);
    assert_eq!(cpu.cp15_regs[CP15_DFSR], 0b01101);
    assert_eq!(cpu.cp15_regs[CP15_DFAR], 0x0000_0040);
    assert_eq!(cpu.mode(), MODE_ABT);
    assert_eq!(memory.read_u32(0x40), 0);
    let fault = cpu.take_last_mmu_fault().expect("fault detail");
    assert_eq!(fault.kind, FaultKind::Permission);
    assert_eq!(fault.va, 0x0000_0040);
    assert_eq!(fault.access, MemoryAccessKind::Write);
    assert_eq!(cpu.take_last_mmu_fault(), None);
    assert_eq!(cpu.step_exception(), cpu.last_exception());
}

#[test]
fn exception_vectors_and_modes_are_the_documented_ones() {
    assert_eq!(VECTOR_BASE, 0x0010_0000);
    assert_eq!(VECTOR_UND, 0x0010_0004);
    assert_eq!(VECTOR_SWI, 0x0010_0008);
    assert_eq!(VECTOR_PABT, 0x0010_000C);
    assert_eq!(VECTOR_DABT, 0x0010_0010);
    assert_eq!(VECTOR_IRQ, 0x0010_0018);
    let mut cpu = Arm11Cpu::new();
    let mut mem = Memory::new();
    cpu.cpsr |= FLAG_T;
    cpu.regs[PC_INDEX] = 0x40;
    cpu.enter_irq(IrqLine::VBlank);
    let ex = cpu.last_exception().expect("irq");
    assert_eq!(ex.kind, ExceptionKind::Interrupt(IrqLine::VBlank));
    assert_eq!((ex.vector, ex.return_address, ex.fault_opcode), (VECTOR_IRQ, 0x44, 1));
    assert_ne!(cpu.cpsr & FLAG_I, 0);
    assert_eq!(cpu.cpsr & FLAG_T, 0);
    // An undefined instruction (a coprocessor other than 15).
    let mut cpu = Arm11Cpu::new();
    mem.write_u32(0, 0xEE00_0A10);
    assert_eq!(cpu.step(&mut mem), Ok(3));
    let ex = cpu.last_exception().expect("undefined");
    assert_eq!(ex.kind, ExceptionKind::UndefinedInstruction);
    assert_eq!((ex.vector, ex.return_address, ex.fault_opcode), (VECTOR_UND, 4, 0xEE00_0A10));
    // A software interrupt enters supervisor mode.
    let mut cpu = Arm11Cpu::new();
    mem.write_u32(0, 0xEF12_3456);
    assert_eq!(cpu.step(&mut mem), Ok(3));
    assert_eq!(cpu.mode(), MODE_SVC);
    assert_eq!(cpu.last_exception().expect("swi").fault_opcode, 0xEF12_3456);
}

#[test]
fn wait_for_interrupt_halts_until_an_irq_wakes_the_cpu() {
    let mut cpu = Arm11Cpu::new();
    let mut mem = Memory::new();
    mem.write_u32(0, 0xE320_F003);
    assert_eq!(cpu.step(&mut mem), Ok(1));
    assert_eq!(cpu.run_state(), CpuRunState::Halted);
    assert_eq!(cpu.pc(), 4);
    assert_eq!(cpu.step(&mut mem), Ok(1));
    assert_eq!(cpu.pc(), 4);
    cpu.enter_irq(IrqLine::Timer0);
    assert_eq!(cpu.run_state(), CpuRunState::Running);
    assert_eq!(cpu.pc(), VECTOR_IRQ);
    cpu.reset(0x80);
    assert_eq!(cpu.pc(), 0x80);
    assert_eq!(cpu.last_exception(), None);
    assert_eq!(cpu.regs(), &{
        let mut regs = [0u32; 16];
        regs[15] = 0x80;
        regs
    });
}
