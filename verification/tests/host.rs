use emu3ds::cpu::{CpuRunState, ExceptionKind, VECTOR_PABT, VECTOR_SWI};
use emu3ds::diagnostics::{
    BootCheckpoint, FaultSnapshot, StructuredError, TraceCategory, TracePayload, TraceRecord,
};
use emu3ds::emulator::{Emulator3ds, EmulatorConfig};
use emu3ds::error::{EmulatorError, MemoryAccessKind};
use emu3ds::ipc::{KernelObjectType, RESULT_INVALID_HANDLE};
use emu3ds::irq::IrqLine;
use emu3ds::kernel::{ServiceCall, ServiceEvent, KERNEL_PROCESS_ID};
use emu3ds::pica::{PicaCommandBufferPacket, REG_COLOR_CLEAR};
use emu3ds::scheduler::ScheduledDeviceEvent;
use emu3ds::timing::{DriftCorrectionPolicy, AUDIO_HZ, CPU_HZ};
use emu3ds::wasm::Wasm3ds;

const ENTRY: u32 = 0x0010_0000;
const CODE: usize = 0xA00;
const NOP: u32 = 0xE1A0_0000;
const WFI: u32 = 0xE320_F003;

fn put(rom: &mut [u8], at: usize, word: u32) {
    rom[at..at + 4].copy_from_slice(&word.to_le_bytes());
}

fn rom_with(code: &[u32]) -> Vec<u8> {
    let mut rom = vec![0u8; 0x5000];
    rom[0x100..0x104].copy_from_slice(b"NCSD");
    put(&mut rom, 0x120, 1);
    put(&mut rom, 0x124, 0x20);
    rom[0x300..0x304].copy_from_slice(b"NCCH");
    put(&mut rom, 0x380, 0x400);
    put(&mut rom, 0x3A8, 3);
    put(&mut rom, 0x3AC, 2);
    put(&mut rom, 0x400, ENTRY);
    put(&mut rom, 0x410, ENTRY);
    put(&mut rom, 0x418, 0x20);
    put(&mut rom, 0x420, 0x0010_1000);
    put(&mut rom, 0x428, 0x20);
    put(&mut rom, 0x430, 0x0010_2000);
    put(&mut rom, 0x438, 0x20);
    put(&mut rom, 0x43C, 0x10);
    rom[0x800..0x805].copy_from_slice(b".code");
    put(&mut rom, 0x808, 0);
    put(&mut rom, 0x80C, 0x60);
    assert!(code.len() <= 8);
    for (i, word) in code.iter().enumerate() {
        put(&mut rom, CODE + 4 * i, *word);
    }
    rom
}

fn loaded(code: &[u32]) -> Emulator3ds {
    let mut emu = Emulator3ds::new();
    assert_eq!(emu.load_rom(&rom_with(code)), Ok(()));
    emu
}

fn state_text(emu: &Emulator3ds) -> String {
    let state = emu.state();
    let registers: Vec<String> = state.registers.iter().map(|r| r.to_string()).collect();
    let exception = match state.last_exception {
        None => "null".to_string(),
        Some(e) => format!(
            "{{\"kind\":\"{:?}\",\"vector\":{},\"return_address\":{},\"fault_opcode\":{}}}",
            e.kind, e.vector, e.return_address, e.fault_opcode
        ),
    };
    format!(
        "{{\"pc\":{},\"cpsr\":{},\"cycles\":{},\"cpu_state\":\"{:?}\",\"audio_samples\":{},\"service_calls\":{},\"registers\":[{}],\"last_exception\":{}}}",
        state.pc,
        state.cpsr,
        state.cycles,
        state.cpu_state,
        state.audio_samples,
        state.service_calls,
        registers.join(","),
        exception
    )
}

fn diagnostics_text(emu: &Emulator3ds) -> String {
    let boot = emu.boot_checkpoint_snapshot();
    format!(
        "{{\"cpu_trace\":{},\"ipc_trace\":{},\"service_trace\":{},\"mmu_fault_trace\":{},\"gpu_trace\":{},\"fault_snapshots\":{},\"boot_events\":{},\"boot_divergence_at\":{}}}",
        emu.recent_trace_slice(TraceCategory::CpuFetchDecode, 32).len(),
        emu.recent_trace_slice(TraceCategory::Ipc, 32).len(),
        emu.recent_trace_slice(TraceCategory::ServiceCall, 32).len(),
        emu.recent_trace_slice(TraceCategory::MmuFault, 32).len(),
        emu.recent_trace_slice(TraceCategory::GpuCommand, 32).len(),
        emu.recent_fault_snapshots(16).len(),
        boot.events.len(),
        match boot.divergence_at {
            Some(index) => index.to_string(),
            None => "null".to_string(),
        }
    )
}

#[test]
fn nothing_runs_before_an_image_is_loaded() {
    let mut emu = Emulator3ds::new();
    assert_eq!(emu.run_cycles(1), Err(EmulatorError::RomNotLoaded));
    assert_eq!(emu.run_cycles(0), Err(EmulatorError::RomNotLoaded));
    assert_eq!(emu.run_cycles_synced(10, 0), Err(EmulatorError::RomNotLoaded));
    assert_eq!(emu.state().cycles, 0);
    assert_eq!(emu.load_rom(&[0u8; 16]), Err(EmulatorError::RomTooSmall));
    assert_eq!(emu.run_cycles(1), Err(EmulatorError::RomNotLoaded));
    assert_eq!(emu.load_rom(&rom_with(&[WFI])), Ok(()));
    assert_eq!(emu.read_phys_u32(ENTRY), WFI);
    assert_eq!(emu.run_cycles(0), Ok(0));
    emu.reset();
    assert_eq!(emu.read_phys_u32(ENTRY), 0);
    assert_eq!(emu.state().pc, 0);
    assert_eq!(emu.run_cycles(1), Err(EmulatorError::RomNotLoaded));
    assert_eq!(emu.mapped_memory_bytes(), 0x0800_0000 + 0x0010_0000 + 0x0010_0000 + 0x0001_0000);
    assert_eq!(Emulator3ds::default().state(), Emulator3ds::new().state());
}

#[test]
fn wait_for_interrupt_at_the_entry_point_halts_the_run() {
    let mut emu = loaded(&[WFI, NOP]);
    emu.cpu.enable_instruction_trace(16);
    assert_eq!(emu.state().pc, ENTRY);
    assert_eq!(emu.state().cpsr, 0x10);
    assert_eq!(emu.run_cycles(100), Ok(1));
    let state = emu.state();
    assert_eq!(state.pc, ENTRY + 4);
    assert_eq!(state.cpu_state, CpuRunState::Halted);
    assert_eq!(state.cycles, 1);
    assert_eq!(state.last_exception, None);
    assert_eq!(state.service_calls, 0);
    let mut registers = [0u32; 16];
    registers[15] = ENTRY + 4;
    assert_eq!(state.registers, registers);
    assert_eq!(
        emu.state_json(),
        "{\"pc\":1048580,\"cpsr\":16,\"cycles\":1,\"cpu_state\":\"Halted\",\"audio_samples\":0,\
         \"service_calls\":0,\"registers\":[0,0,0,0,0,0,0,0,0,0,0,0,0,0,0,1048580],\
         \"last_exception\":null}"
    );
    assert_eq!(
        emu.recent_trace_slice(TraceCategory::CpuFetchDecode, 8),
        vec![TraceRecord {
            cycle: 0,
            payload: TracePayload::CpuFetchDecode { pc: ENTRY, opcode: WFI, thumb: false },
        }]
    );
    let boot = emu.boot_checkpoint_snapshot();
    let reached: Vec<BootCheckpoint> = boot.events.iter().map(|event| event.checkpoint).collect();
    assert_eq!(
        reached,
        vec![BootCheckpoint::RomLoaded, BootCheckpoint::FirstInstruction, BootCheckpoint::CpuHalted]
    );
    assert_eq!(boot.divergence_at, Some(2));
    assert_eq!(
        emu.diagnostics_json(),
        "{\"cpu_trace\":1,\"ipc_trace\":0,\"service_trace\":0,\"mmu_fault_trace\":0,\"gpu_trace\":0,\
         \"fault_snapshots\":0,\"boot_events\":3,\"boot_divergence_at\":2}"
    );
    // A halted CPU consumes one cycle and ends the run again.
    assert_eq!(emu.run_cycles(100), Ok(1));
    assert_eq!(emu.state().pc, ENTRY + 4);
    assert_eq!(emu.state().cycles, 2);
}

#[test]
fn budget_is_capped_by_the_configuration() {
    let mut emu = Emulator3ds::with_config(EmulatorConfig { max_cycle_budget: 3 });
    assert_eq!(emu.load_rom(&rom_with(&[NOP; 8])), Ok(()));
    assert_eq!(emu.run_cycles(10), Ok(3));
    assert_eq!(emu.state().pc, ENTRY + 12);
    assert_eq!(emu.run_cycles(2), Ok(2));
    assert_eq!(emu.state().pc, ENTRY + 20);
    assert_eq!(emu.state().cycles, 5);
    assert_eq!(EmulatorConfig::default().max_cycle_budget, 5_000_000);
}

#[test]
fn software_interrupt_reaches_the_kernel() {
    let mut emu = loaded(&[0xEF00_0023, NOP, WFI]);
    assert_eq!(emu.run_cycles(10), Ok(4));
    let state = emu.state();
    assert_eq!(state.pc, VECTOR_SWI + 4);
    assert_eq!(state.cpu_state, CpuRunState::Halted);
    assert_eq!(state.service_calls, 1);
    let exception = state.last_exception.expect("software interrupt");
    assert_eq!(exception.kind, ExceptionKind::SoftwareInterrupt);
    assert_eq!(exception.vector, VECTOR_SWI);
    assert_eq!(exception.return_address, ENTRY + 4);
    assert_eq!(exception.fault_opcode, 0xEF00_0023);
    assert_eq!(state.cpsr & 0x1F, 0b1_0011);
    assert_eq!(state.registers[14], ENTRY + 4);
    assert_eq!(
        emu.last_service_call(),
        Some(ServiceEvent { call: ServiceCall::CreateEvent, argument: 0x23 })
    );
    assert_eq!(emu.kernel.handle_type(KERNEL_PROCESS_ID, 0x25), Some(KernelObjectType::Event));
    assert_eq!(
        emu.recent_trace_slice(TraceCategory::ServiceCall, 8),
        vec![TraceRecord { cycle: 4, payload: TracePayload::ServiceCall { imm24: 0x23 } }]
    );
    assert_eq!(emu.state_json(), state_text(&emu));
    assert!(emu.state_json().contains("\"kind\":\"SoftwareInterrupt\",\"vector\":1048584"));
    assert_eq!(emu.diagnostics_json(), diagnostics_text(&emu));
}

#[test]
fn blocking_request_schedules_a_wake_up() {
    let mut emu = loaded(&[0xEF00_0032, NOP, NOP, NOP]);
    assert_eq!(emu.run_cycles(1), Ok(3));
    assert_eq!(
        emu.last_service_call(),
        Some(ServiceEvent { call: ServiceCall::SendSyncRequest, argument: 0x32 })
    );
    assert!(emu.kernel.take_pending_schedule_events().is_empty());
    // The wake-up is due 64 cycles after the call; the timer comes first.
    emu.scheduler.tick(66);
    assert_eq!(
        emu.scheduler.drain_due_events(),
        vec![ScheduledDeviceEvent::TimerExpiry, ScheduledDeviceEvent::ServiceWake { pid: 1 }]
    );
    emu.scheduler.tick(1);
    assert!(emu.scheduler.drain_due_events().is_empty());
}

#[test]
fn failed_service_request_ends_the_run() {
    let mut emu = loaded(&[NOP, NOP, WFI]);
    emu.kernel.queue_ipc_command(7, 0x999, vec![0x0000_00AB]);
    let error = EmulatorError::ServiceCallError {
        pc: ENTRY + 4,
        service_command_id: 0x00AB,
        handle_id: 0x999,
        result_code: RESULT_INVALID_HANDLE,
    };
    assert_eq!(emu.run_cycles(10), Err(error));
    assert_eq!(
        error.message(),
        "service call failure at PC=0x00100004, cmd=0x00ab, handle=2457, result=0xd8a183fa"
    );
    let failure = StructuredError::ServiceCallFailure {
        pc: ENTRY + 4,
        service_command_id: 0x00AB,
        handle_id: 0x999,
        result_code: RESULT_INVALID_HANDLE,
    };
    assert_eq!(emu.recent_fault_snapshots(4), vec![FaultSnapshot { cycle: 1, error: failure }]);
    assert_eq!(emu.kernel.take_last_error(), Some(failure));
    assert_eq!(
        emu.recent_trace_slice(TraceCategory::Ipc, 4),
        vec![TraceRecord {
            cycle: 1,
            payload: TracePayload::Ipc {
                command_id: 0x00AB,
                handle_id: 0x999,
                result_code: RESULT_INVALID_HANDLE,
            },
        }]
    );
    assert_eq!(emu.diagnostics_json(), diagnostics_text(&emu));
    // The run can go on afterwards.
    assert_eq!(emu.run_cycles(10), Ok(2));
    assert_eq!(emu.state().cpu_state, CpuRunState::Halted);
}

#[test]
fn fault_of_the_mmu_ends_the_run() {
    // MOV r0, #1, then the coprocessor write of the control word: the MMU is enabled over
    // an empty table.
    let mut emu = loaded(&[0xE3A0_0001, 0xEE01_0F10, NOP, NOP]);
    let error = EmulatorError::MmuTranslationFault {
        pc: VECTOR_PABT,
        va: ENTRY + 8,
        pa: None,
        access: MemoryAccessKind::Execute,
    };
    assert_eq!(emu.run_cycles(10), Err(error));
    let state = emu.state();
    assert_eq!(state.cycles, 1 + 2 + 3);
    assert_eq!(state.pc, VECTOR_PABT);
    assert_eq!(state.registers[0], 1);
    let exception = state.last_exception.expect("prefetch abort");
    assert!(matches!(exception.kind, ExceptionKind::PrefetchAbort(_)));
    assert_eq!(exception.return_address, ENTRY + 12);
    assert_eq!(
        emu.recent_trace_slice(TraceCategory::MmuFault, 4),
        vec![TraceRecord {
            cycle: 6,
            payload: TracePayload::MmuFault {
                va: ENTRY + 8,
                pa: None,
                access: MemoryAccessKind::Execute,
            },
        }]
    );
    assert_eq!(
        emu.recent_fault_snapshots(4),
        vec![FaultSnapshot {
            cycle: 6,
            error: StructuredError::MmuFault {
                pc: VECTOR_PABT,
                va: ENTRY + 8,
                pa: None,
                access: MemoryAccessKind::Execute,
            },
        }]
    );
    assert_eq!(emu.state_json(), state_text(&emu));
    assert!(emu.state_json().contains("\"kind\":\"PrefetchAbort(Translation)\""));
}

#[test]
fn audio_samples_follow_the_cycle_count() {
    let mut emu = loaded(&[NOP; 8]);
    assert_eq!(emu.run_cycles(600_000), Ok(600_000));
    let due = 600_000u64 * AUDIO_HZ / CPU_HZ;
    assert_eq!(due, 107);
    assert_eq!(emu.timing_snapshot().cpu_cycles, 600_000);
    assert_eq!(emu.timing_snapshot().audio_samples_due, due);
    assert_eq!(emu.state().audio_samples, 107);
    assert_eq!(emu.take_audio_sample_count(), due);
    assert_eq!(emu.take_audio_sample_count(), 0);
    let samples = emu.take_audio_samples();
    assert_eq!(samples.len(), 107);
    assert_eq!(samples[0], -4096);
    assert_eq!(samples[106], (106 % 64 - 32) * 128);
    assert!(emu.take_audio_samples().is_empty());
    assert_eq!(emu.take_frame_present_count(), 0);
    assert_eq!(emu.timing_snapshot().video_frames_due, 0);
}

#[test]
fn dma_feeds_the_gpu_and_the_frame_shows_it() {
    let mut emu = loaded(&[NOP; 8]);
    emu.write_phys_u32(0x200, PicaCommandBufferPacket::encode(REG_COLOR_CLEAR, 1, false));
    emu.write_phys_u32(0x204, 0xFF12_3456);
    emu.queue_dma_gpu_feed(1, 0x200, 2);
    assert_eq!(emu.run_cycles(1), Ok(1));
    assert_eq!(&emu.frame_rgba()[0..4], &[0, 0, 0, 0xFF]);
    assert_eq!(emu.run_cycles(2), Ok(2));
    let frame = emu.frame_rgba();
    assert_eq!(&frame[0..4], &[0x56, 0x34, 0x12, 0xFF]);
    assert_eq!(&frame[frame.len() - 4..], &[0x56, 0x34, 0x12, 0xFF]);
    assert_eq!(
        emu.recent_trace_slice(TraceCategory::GpuCommand, 4),
        vec![TraceRecord {
            cycle: 3,
            payload: TracePayload::GpuCommand { reg: REG_COLOR_CLEAR, value: 0xFF12_3456 },
        }]
    );
    // The completion raised the DMA line, and the third cycle began in the IRQ vector.
    let exception = emu.state().last_exception.expect("interrupt");
    assert_eq!(exception.kind, ExceptionKind::Interrupt(IrqLine::Dma0));
    assert_eq!(exception.return_address, ENTRY + 12);
    assert_eq!(emu.state().pc, 0x0010_001C);
}

#[test]
fn checksum_sums_bytes_and_rejects_addresses_beyond_32_bits() {
    let mut emu = Emulator3ds::new();
    emu.write_phys_u32(0x100, 0x0403_02FF);
    emu.write_phys_u8(0x104, 0x80);
    assert_eq!(emu.read_phys_u8(0x100), 0xFF);
    assert_eq!(emu.memory_checksum(0x100, 5), Some(0xFF + 2 + 3 + 4 + 0x80));
    assert_eq!(emu.memory_checksum(0x101, 2), Some(5));
    assert_eq!(emu.memory_checksum(0x100, 0), Some(0));
    // Nothing is mapped at the top of the address space.
    assert_eq!(emu.memory_checksum(0xFFFF_FFFE, 2), Some(0));
    assert_eq!(emu.memory_checksum(0xFFFF_FFFE, 3), None);
    assert_eq!(emu.memory_checksum(0xFFFF_FFFF, 0), Some(0));
}

#[test]
fn synced_run_follows_the_drift_policy() {
    let mut emu = loaded(&[NOP; 8]);
    emu.set_wasm_drift_policy(DriftCorrectionPolicy { max_frame_lead_us: 0, max_frame_lag_us: 5 });
    emu.set_wasm_wall_time_anchor_us(1_000);
    // Host time before the anchor counts as the anchor: no drift, the budget as requested.
    assert_eq!(emu.run_cycles_synced(268, 0), Ok(268));
    // One microsecond emulated, none passed on the host: emulation leads, the budget is halved.
    assert_eq!(emu.run_cycles_synced(100, 1_000), Ok(50));
    assert_eq!(emu.run_cycles_synced(1, 1_000), Ok(1));
    // The host is six microseconds and more ahead: half as much again.
    assert_eq!(emu.run_cycles_synced(100, 1_100), Ok(150));
    // Within the thresholds nothing changes.
    assert_eq!(emu.run_cycles_synced(100, 1_003), Ok(100));
}

#[test]
fn title_package_brings_the_image_of_its_first_content() {
    let rom = rom_with(&[WFI]);
    let mut package = Vec::new();
    package.extend_from_slice(b"3DST");
    package.extend_from_slice(&1u32.to_le_bytes());
    package.extend_from_slice(&0u32.to_le_bytes());
    package.extend_from_slice(&20u32.to_le_bytes());
    package.extend_from_slice(&(rom.len() as u32).to_le_bytes());
    package.extend_from_slice(&rom);
    let mut emu = Emulator3ds::new();
    assert_eq!(emu.load_title_package(&package), Ok(()));
    assert_eq!(emu.run_cycles(5), Ok(1));
    assert_eq!(emu.state().pc, ENTRY + 4);
    // A package without contents, and one whose table is cut short.
    assert_eq!(emu.load_title_package(b"3DST\0\0\0\0"), Err(EmulatorError::InvalidTitlePackage));
    assert_eq!(
        emu.load_title_package(&package[..19]),
        Err(EmulatorError::InvalidTitlePackage)
    );
    // Bytes without the magic of a package are taken as a bare image.
    assert_eq!(emu.load_title_package(b"3DST"), Err(EmulatorError::RomTooSmall));
    assert_eq!(emu.load_title_package(&rom), Ok(()));
    let mut bad = package.clone();
    bad[20 + 0x100] = b'X';
    assert_eq!(emu.load_title_package(&bad), Err(EmulatorError::InvalidRomMagic));
    // A load that fails leaves the writable memory zeroed and the CPU where it was.
    assert_eq!(emu.read_phys_u32(ENTRY), 0);
    assert_eq!(emu.state().pc, ENTRY);
    assert_eq!(emu.run_cycles(1), Ok(1));
}

#[test]
fn host_facade_forwards_and_describes_errors() {
    let mut host = Wasm3ds::new();
    let mut twin = Emulator3ds::new();
    assert_eq!(host.run_cycles(1), Err("cannot execute because no ROM is loaded".to_string()));
    assert_eq!(
        host.load_rom(&[1, 2, 3]),
        Err("ROM is too small to contain an NCSD header".to_string())
    );
    assert_eq!(
        host.load_title_package(b"3DST\x01\0\0\0"),
        Err("invalid title package format".to_string())
    );
    assert_eq!(
        host.run_cycles_synced(1, 0),
        Err("cannot execute because no ROM is loaded".to_string())
    );
    let rom = rom_with(&[0xEF00_0001, NOP, WFI]);
    assert_eq!(host.load_rom(&rom), Ok(()));
    assert_eq!(twin.load_rom(&rom), Ok(()));
    host.enqueue_gpu_fifo_words(&[PicaCommandBufferPacket::encode(REG_COLOR_CLEAR, 1, false), 0xAB]);
    twin.enqueue_gpu_fifo_words(&[PicaCommandBufferPacket::encode(REG_COLOR_CLEAR, 1, false), 0xAB]);
    assert_eq!(host.run_cycles(9), Ok(4));
    assert_eq!(twin.run_cycles(9), Ok(4));
    assert_eq!(host.state_json(), state_text(&twin));
    assert_eq!(host.diagnostics_json(), diagnostics_text(&twin));
    assert_eq!(host.frame_rgba(), twin.frame_rgba());
    assert_eq!(&host.frame_rgba()[0..4], &[0xAB, 0, 0, 0]);
    assert_eq!(host.boot_checkpoint_snapshot(), twin.boot_checkpoint_snapshot());
    assert_eq!(host.recent_fault_snapshots(4), vec![]);
    assert_eq!(host.mapped_memory_bytes(), twin.mapped_memory_bytes());
    host.write_phys_u32(0x40, 0xA1B2_C3D4);
    assert_eq!(host.read_phys_u32(0x40), 0xA1B2_C3D4);
    assert_eq!(host.read_phys_u8(0x43), 0xA1);
    host.write_phys_u8(0x40, 0);
    assert_eq!(host.read_phys_u32(0x40), 0xA1B2_C300);
    assert_eq!(host.take_audio_sample_count(), 0);
    assert!(host.take_audio_samples().is_empty());
    assert_eq!(host.take_frame_present_count(), 0);
    host.set_drift_policy(0, 0);
    host.set_wall_time_anchor_us(0);
    assert_eq!(host.run_cycles_synced(8, u64::MAX), Ok(1));
    host.reset();
    assert_eq!(host.read_phys_u32(0x40), 0);
    assert_eq!(host.run_cycles(1), Err("cannot execute because no ROM is loaded".to_string()));
    assert_eq!(Wasm3ds::default().state_json(), Wasm3ds::new().state_json());
}

#[test]
fn interrupt_wakes_a_halted_cpu() {
    let mut emu = loaded(&[WFI, NOP, NOP, NOP, NOP, NOP, NOP, WFI]);
    for call in 1..=16u64 {
        assert_eq!(emu.run_cycles(5), Ok(1));
        assert_eq!(emu.state().cpu_state, CpuRunState::Halted);
        assert_eq!(emu.state().cycles, call);
        assert_eq!(emu.state().pc, ENTRY + 4);
    }
    // The timer expired in the sixteenth cycle; the next one begins in the IRQ vector.
    assert_eq!(emu.run_cycles(5), Ok(2));
    let state = emu.state();
    assert_eq!(state.cpu_state, CpuRunState::Halted);
    assert_eq!(state.pc, 0x0010_0020);
    let exception = state.last_exception.expect("interrupt");
    assert_eq!(exception.kind, ExceptionKind::Interrupt(IrqLine::Timer0));
    assert_eq!(exception.vector, 0x0010_0018);
    assert_eq!(exception.return_address, ENTRY + 8);
    // Interrupts are disabled inside the handler: the next expiry stays pending.
    for _ in 0..20 {
        assert_eq!(emu.run_cycles(5), Ok(1));
    }
    assert_eq!(emu.state().pc, 0x0010_0020);
    assert_eq!(emu.state().cpsr & 0x80, 0x80);
}
