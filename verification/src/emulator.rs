use vstd::prelude::*;
use crate::pica::FRAME_PIXELS;
use crate::cpu::{Arm11Cpu, CpuException, CpuModel, CpuRunState, ExceptionKind, FaultKind};
use crate::diagnostics::{
    BootCheckpoint, BootCheckpointProfiler, BootCheckpointSnapshot, FaultSnapshot, ProfilerModel,
    RingBuffer, RingModel, StructuredError, TraceCategory, TracePayload, TraceRecord,
};
use crate::dma::{completion, latency, DmaEngine, DmaTransfer, DmaTransferKind};
use crate::dsp::{generated, newest, Dsp, DspState};
use crate::error::EmulatorError;
use crate::fs::{is_package, parsed_package, TitlePackage, VfsModel, VirtualFileSystem};
use crate::irq::{IrqController, IrqLine, IrqModel};
use crate::kernel::{Kernel, KernelModel, PendingWake, ServiceEvent};
use crate::loader::process::{
    install_process_image, installed, loaded_from_rom, parse_process_image_from_rom, LoadedModel,
};
use crate::memory::{
    cleared, read_byte_or_zero, read_word_or_zero, write_byte, write_word, Memory, MemoryModel,
};
use crate::pica::gpu::PicaGpu;
use crate::pica::state::GpuModel;
use crate::scheduler::{ScheduledDeviceEvent, Scheduler, SchedulerModel};
use crate::timing::{DriftCorrectionPolicy, TimingModel, TimingSnapshot, TimingState, TimingTick};

verus! {

/// Cycles between two timer expiries.
pub const TIMER_PERIOD_CYCLES: u64 = 16;

/// Cycles between two scheduled V-blank events.
pub const VBLANK_PERIOD_CYCLES: u64 = 4_000_000;

/// Configuration of the emulator: the hard cap on the cycles of one run.
#[derive(Debug, Clone, Copy, PartialEq, Eq, Structural)]
pub struct EmulatorConfig {
    pub max_cycle_budget: u32,
}

impl Default for EmulatorConfig {
    fn default() -> (config: Self)
        ensures
            config == (EmulatorConfig { max_cycle_budget: 5_000_000 }),
    {
        EmulatorConfig { max_cycle_budget: 5_000_000 }
    }
}

/// The orchestrator: it owns every subsystem and drives them cycle by cycle.
pub struct Emulator3ds {
    pub cpu: Arm11Cpu,
    pub memory: Memory,
    pub gpu: PicaGpu,
    pub dsp: Dsp,
    pub scheduler: Scheduler,
    pub irq: IrqController,
    pub dma: DmaEngine,
    pub kernel: Kernel,
    pub timing: TimingModel,
    pub rom_loaded: bool,
    pub vfs: VirtualFileSystem,
    pub config: EmulatorConfig,
    pub frame_callbacks: u64,
    pub audio_callbacks: u64,
    pub cpu_trace: RingBuffer<TraceRecord>,
    pub ipc_trace: RingBuffer<TraceRecord>,
    pub service_trace: RingBuffer<TraceRecord>,
    pub mmu_fault_trace: RingBuffer<TraceRecord>,
    pub gpu_trace: RingBuffer<TraceRecord>,
    pub fault_snapshots: RingBuffer<FaultSnapshot>,
    pub boot_profiler: BootCheckpointProfiler,
    pub last_gpu_trace_len: usize,
}

/// What the host sees of the emulator's state.
#[derive(Debug, Clone, Copy, PartialEq, Eq)]
pub struct EmulatorState {
    pub pc: u32,
    pub cpsr: u32,
    pub cycles: u64,
    pub cpu_state: CpuRunState,
    pub registers: [u32; 16],
    pub audio_samples: usize,
    pub last_exception: Option<CpuException>,
    pub service_calls: usize,
}

/// Mathematical model of the emulator.
pub struct EmulatorModel {
    pub cpu: CpuModel,
    pub memory: MemoryModel,
    pub gpu: GpuModel,
    pub dsp: DspState,
    pub scheduler: SchedulerModel,
    pub irq: IrqModel,
    pub dma: Seq<DmaTransfer>,
    pub kernel: KernelModel,
    pub timing: TimingState,
    pub rom_loaded: bool,
    pub vfs: VfsModel,
    pub config: EmulatorConfig,
    pub frame_callbacks: u64,
    pub audio_callbacks: u64,
    pub cpu_trace: RingModel<TraceRecord>,
    pub ipc_trace: RingModel<TraceRecord>,
    pub service_trace: RingModel<TraceRecord>,
    pub mmu_fault_trace: RingModel<TraceRecord>,
    pub gpu_trace: RingModel<TraceRecord>,
    pub fault_snapshots: RingModel<FaultSnapshot>,
    pub boot_profiler: ProfilerModel,
    pub last_gpu_trace_len: usize,
}

impl View for Emulator3ds {
    type V = EmulatorModel;

    open spec fn view(&self) -> EmulatorModel {
        EmulatorModel {
            cpu: self.cpu@,
            memory: self.memory@,
            gpu: self.gpu@,
            dsp: self.dsp@,
            scheduler: self.scheduler@,
            irq: self.irq@,
            dma: self.dma@,
            kernel: self.kernel@,
            timing: self.timing@,
            rom_loaded: self.rom_loaded,
            vfs: self.vfs@,
            config: self.config,
            frame_callbacks: self.frame_callbacks,
            audio_callbacks: self.audio_callbacks,
            cpu_trace: self.cpu_trace@,
            ipc_trace: self.ipc_trace@,
            service_trace: self.service_trace@,
            mmu_fault_trace: self.mmu_fault_trace@,
            gpu_trace: self.gpu_trace@,
            fault_snapshots: self.fault_snapshots@,
            boot_profiler: self.boot_profiler@,
            last_gpu_trace_len: self.last_gpu_trace_len,
        }
    }
}

/// A count cut to the largest 64-bit value.
pub open spec fn saturating(value: int) -> u64 {
    if value > u64::MAX {
        u64::MAX
    } else {
        value as u64
    }
}

/// The error that a fault of the MMU surfaces as.
pub open spec fn fault_error(kind: FaultKind, pc: u32, va: u32, pa: Option<u32>, access: crate::error::MemoryAccessKind) -> EmulatorError {
    match kind {
        FaultKind::Translation => EmulatorError::MmuTranslationFault { pc, va, pa, access },
        FaultKind::Domain => EmulatorError::MmuDomainFault { pc, va, pa, domain: 0, access },
        FaultKind::Permission => EmulatorError::MmuPermissionFault { pc, va, pa, access },
        FaultKind::Alignment => EmulatorError::AlignmentFault { pc, va, pa, access },
    }
}

/// An emulator in the middle of a cycle, and the error that ends the run if
/// one was met.
pub struct Phase {
    pub emulator: EmulatorModel,
    pub fatal: Option<EmulatorError>,
}

/// The emulator after a cycle: what the cycle consumed, the error that ends
/// the run if one was met, and whether the CPU halted.
pub struct Cycle {
    pub emulator: EmulatorModel,
    pub consumed: u32,
    pub fatal: Option<EmulatorError>,
    pub halted: bool,
}

/// Outcome of a run.
pub struct Run {
    pub emulator: EmulatorModel,
    pub result: Result<u32, EmulatorError>,
}

/// An empty ring of the given capacity.
pub open spec fn empty_ring<T>(cap: usize) -> RingModel<T> {
    RingModel { cap, values: Seq::empty() }
}

impl EmulatorModel {
    /// The emulator as it is created with a configuration.
    pub open spec fn initial(config: EmulatorConfig) -> EmulatorModel {
        EmulatorModel {
            cpu: CpuModel::at_reset(0, false, 0, Seq::empty()),
            memory: crate::memory::initial_layout(),
            gpu: GpuModel::initial(),
            dsp: DspState { samples: Seq::empty(), phase: 0 },
            scheduler: SchedulerModel::initial(),
            irq: IrqModel { enabled: u32::MAX, pending: 0 },
            dma: Seq::empty(),
            kernel: KernelModel::booted(),
            timing: TimingState::initial(),
            rom_loaded: false,
            vfs: VfsModel { romfs: None },
            config,
            frame_callbacks: 0,
            audio_callbacks: 0,
            cpu_trace: empty_ring(512),
            ipc_trace: empty_ring(256),
            service_trace: empty_ring(256),
            mmu_fault_trace: empty_ring(128),
            gpu_trace: empty_ring(512),
            fault_snapshots: empty_ring(128),
            boot_profiler: ProfilerModel::initial(),
            last_gpu_trace_len: 0,
        }
    }

    /// The emulator with its diagnostics emptied.
    pub open spec fn diagnostics_cleared(self) -> EmulatorModel {
        EmulatorModel {
            cpu_trace: empty_ring(self.cpu_trace.cap),
            ipc_trace: empty_ring(self.ipc_trace.cap),
            service_trace: empty_ring(self.service_trace.cap),
            mmu_fault_trace: empty_ring(self.mmu_fault_trace.cap),
            gpu_trace: empty_ring(self.gpu_trace.cap),
            fault_snapshots: empty_ring(self.fault_snapshots.cap),
            boot_profiler: ProfilerModel::initial(),
            last_gpu_trace_len: 0,
            ..self
        }
    }

    /// The emulator after a reset: memory zeroed, every subsystem in its initial
    /// state, no image installed.
    pub open spec fn reset(self) -> EmulatorModel {
        (EmulatorModel {
            memory: cleared(self.memory),
            scheduler: SchedulerModel::initial(),
            irq: IrqModel { pending: 0, ..self.irq },
            dma: Seq::empty(),
            timing: TimingState::initial(),
            kernel: KernelModel::booted(),
            cpu: CpuModel::at_reset(0, self.cpu.trace_enabled, self.cpu.trace_limit, Seq::empty()),
            rom_loaded: false,
            vfs: VfsModel { romfs: None },
            frame_callbacks: 0,
            audio_callbacks: 0,
            ..self
        }).diagnostics_cleared()
    }

    /// The emulator with a trace record of the current cycle added to the ring of
    /// its category.
    pub open spec fn traced(self, category: TraceCategory, payload: TracePayload) -> EmulatorModel {
        let record = TraceRecord { cycle: self.scheduler.cycles, payload };
        match category {
            TraceCategory::CpuFetchDecode => EmulatorModel {
                cpu_trace: self.cpu_trace.pushed(record),
                ..self
            },
            TraceCategory::Ipc => EmulatorModel { ipc_trace: self.ipc_trace.pushed(record), ..self },
            TraceCategory::ServiceCall => EmulatorModel {
                service_trace: self.service_trace.pushed(record),
                ..self
            },
            TraceCategory::MmuFault => EmulatorModel {
                mmu_fault_trace: self.mmu_fault_trace.pushed(record),
                ..self
            },
            TraceCategory::GpuCommand => EmulatorModel {
                gpu_trace: self.gpu_trace.pushed(record),
                ..self
            },
        }
    }

    /// The emulator with a fault snapshot of the current cycle added.
    pub open spec fn fault_recorded(self, error: StructuredError) -> EmulatorModel {
        EmulatorModel {
            fault_snapshots: self.fault_snapshots.pushed(
                FaultSnapshot { cycle: self.scheduler.cycles, error },
            ),
            ..self
        }
    }

    /// The emulator with a boot checkpoint marked at the current cycle.
    pub open spec fn marked(self, checkpoint: BootCheckpoint) -> EmulatorModel {
        EmulatorModel {
            boot_profiler: self.boot_profiler.marked(checkpoint, self.scheduler.cycles),
            ..self
        }
    }

    /// The emulator with the first timer expiry and the first V-blank scheduled.
    pub open spec fn boot_scheduled(self) -> EmulatorModel {
        EmulatorModel {
            scheduler: self.scheduler.scheduled_in(
                TIMER_PERIOD_CYCLES,
                ScheduledDeviceEvent::TimerExpiry,
            ).scheduled_in(VBLANK_PERIOD_CYCLES, ScheduledDeviceEvent::VBlank),
            ..self
        }
    }

    /// The emulator after an image was loaded and installed.
    pub open spec fn image_installed(self, memory: MemoryModel, loaded: LoadedModel) -> EmulatorModel {
        (EmulatorModel {
            memory,
            vfs: loaded.vfs,
            cpu: CpuModel::at_reset(
                loaded.process.entrypoint,
                self.cpu.trace_enabled,
                self.cpu.trace_limit,
                Seq::empty(),
            ),
            scheduler: SchedulerModel::initial(),
            irq: IrqModel { pending: 0, ..self.irq },
            dma: Seq::empty(),
            timing: TimingState::initial(),
            frame_callbacks: 0,
            audio_callbacks: 0,
            rom_loaded: true,
            ..self
        }).diagnostics_cleared().boot_scheduled().marked(BootCheckpoint::RomLoaded)
    }

    /// Loading of a ROM image: the writable memory is zeroed, the image is parsed
    /// and installed, and the machine is reset to the entry point. An image that
    /// does not parse or does not fit the memory map is an error; the memory is
    /// then left as far as the loading got.
    pub open spec fn rom_loaded(self, rom: Seq<u8>) -> Phase {
        let zeroed = EmulatorModel { memory: cleared(self.memory), ..self };
        match loaded_from_rom(rom) {
            Err(e) => Phase { emulator: zeroed, fatal: Some(e) },
            Ok(loaded) => match installed(zeroed.memory, loaded.process).result {
                Err(e) => Phase {
                    emulator: EmulatorModel {
                        memory: installed(zeroed.memory, loaded.process).memory,
                        ..zeroed
                    },
                    fatal: Some(e),
                },
                Ok(_) => Phase {
                    emulator: zeroed.image_installed(
                        installed(zeroed.memory, loaded.process).memory,
                        loaded,
                    ),
                    fatal: None,
                },
            },
        }
    }

    /// Loading of a title package, or of a bare ROM image where the bytes do not
    /// start with the magic of a package: the first content of a package is its
    /// ROM image.
    pub open spec fn title_loaded(self, package: Seq<u8>) -> Phase {
        if !is_package(package) {
            self.rom_loaded(package)
        } else {
            match parsed_package(package) {
                Err(e) => Phase { emulator: self, fatal: Some(e) },
                Ok(title) => match title.primary() {
                    None => Phase {
                        emulator: self,
                        fatal: Some(EmulatorError::InvalidTitlePackage),
                    },
                    Some(rom) => self.rom_loaded(rom),
                },
            }
        }
    }

    /// The emulator after a transfer was queued: its completion is scheduled
    /// after the latency of the transfer.
    pub open spec fn dma_queued(self, transfer: DmaTransfer) -> EmulatorModel {
        EmulatorModel {
            dma: self.dma.push(transfer),
            scheduler: self.scheduler.scheduled_in(
                latency(transfer),
                ScheduledDeviceEvent::DmaCompletion { channel: transfer.channel },
            ),
            ..self
        }
    }

    /// Start of a cycle: with interrupts enabled, the highest-priority pending
    /// line is cleared and the CPU enters its handler.
    #[verifier::opaque]
    pub open spec fn irq_entered(self) -> EmulatorModel {
        if self.cpu.interrupts_enabled() {
            match self.irq.next() {
                Some(line) => EmulatorModel {
                    irq: IrqModel { pending: self.irq.pending & !line.mask(), ..self.irq },
                    cpu: self.cpu.enter_irq(line),
                    ..self
                },
                None => self,
            }
        } else {
            self
        }
    }

    /// The CPU executes one instruction.
    pub open spec fn cpu_stepped(self) -> EmulatorModel {
        EmulatorModel {
            cpu: self.cpu.step(self.memory).cpu,
            memory: self.cpu.step(self.memory).memory,
            ..self
        }
    }

    /// The fetch that the step recorded is moved to the CPU trace ring.
    #[verifier::opaque]
    pub open spec fn fetch_traced(self) -> EmulatorModel {
        match self.cpu.last_trace_entry {
            None => self,
            Some(entry) => (EmulatorModel {
                cpu: CpuModel { last_trace_entry: None, ..self.cpu },
                ..self
            }).traced(
                TraceCategory::CpuFetchDecode,
                TracePayload::CpuFetchDecode {
                    pc: entry.pc,
                    opcode: entry.opcode,
                    thumb: entry.thumb,
                },
            ).marked(BootCheckpoint::FirstInstruction),
        }
    }

    /// Scheduler, kernel and timing advance by the cycles consumed.
    pub open spec fn clocks_ticked(self, consumed: u32) -> EmulatorModel {
        EmulatorModel {
            scheduler: self.scheduler.ticked(consumed),
            kernel: KernelModel { ticks: saturating(self.kernel.ticks + consumed), ..self.kernel },
            timing: self.timing.ticked(consumed),
            ..self
        }
    }

    /// The kernel pumps one IPC request. A dispatch is traced; one that did not
    /// answer with ok is a fault that ends the run.
    #[verifier::opaque]
    pub open spec fn ipc_pumped(self) -> Phase {
        let pumped = self.kernel.pumped(1);
        let taken = EmulatorModel { kernel: KernelModel { last_ipc: None, ..pumped }, ..self };
        match pumped.last_ipc {
            None => Phase { emulator: taken, fatal: None },
            Some(dispatch) => {
                let traced = taken.traced(
                    TraceCategory::Ipc,
                    TracePayload::Ipc {
                        command_id: dispatch.0,
                        handle_id: dispatch.1,
                        result_code: dispatch.2,
                    },
                ).marked(BootCheckpoint::FirstIpcDispatch);
                if dispatch.2 != 0 {
                    let failure = StructuredError::ServiceCallFailure {
                        pc: traced.cpu.pc(),
                        service_command_id: dispatch.0,
                        handle_id: dispatch.1,
                        result_code: dispatch.2,
                    };
                    let recorded = traced.fault_recorded(failure);
                    Phase {
                        emulator: EmulatorModel {
                            kernel: KernelModel { last_error: Some(failure), ..recorded.kernel },
                            ..recorded
                        },
                        fatal: Some(
                            EmulatorError::ServiceCallError {
                                pc: traced.cpu.pc(),
                                service_command_id: dispatch.0,
                                handle_id: dispatch.1,
                                result_code: dispatch.2,
                            },
                        ),
                    }
                } else {
                    Phase { emulator: traced, fatal: None }
                }
            },
        }
    }

    /// A system call that the kernel remembered is traced.
    #[verifier::opaque]
    pub open spec fn service_traced(self) -> EmulatorModel {
        let taken = EmulatorModel {
            kernel: KernelModel { last_service_imm24: None, ..self.kernel },
            ..self
        };
        match self.kernel.last_service_imm24 {
            None => taken,
            Some(imm24) => taken.traced(
                TraceCategory::ServiceCall,
                TracePayload::ServiceCall { imm24 },
            ).marked(BootCheckpoint::FirstServiceCall),
        }
    }

    /// The GPU FIFO with the first `count` fragments of the hand-off appended.
    pub open spec fn handed_fifo(fifo: Seq<u32>, fragments: Seq<Seq<u32>>, count: int) -> Seq<u32>
        decreases count,
    {
        if count <= 0 {
            fifo
        } else {
            Self::handed_fifo(fifo, fragments, count - 1) + fragments[count - 1]
        }
    }

    /// The FIFO fragments that the kernel queued are handed to the GPU.
    #[verifier::opaque]
    pub open spec fn handed_off(self) -> EmulatorModel {
        EmulatorModel {
            gpu: GpuModel {
                fifo: Self::handed_fifo(
                    self.gpu.fifo,
                    self.kernel.gpu_handoff,
                    self.kernel.gpu_handoff.len() as int,
                ),
                ..self.gpu
            },
            kernel: KernelModel { gpu_handoff: Seq::empty(), ..self.kernel },
            ..self
        }
    }

    /// The GPU drains its FIFO.
    pub open spec fn gpu_ticked(self) -> EmulatorModel {
        EmulatorModel { gpu: self.gpu.ticked(), ..self }
    }

    /// The emulator after the register writes `from..upto` of the GPU trace
    /// were moved to the GPU trace ring.
    pub open spec fn gpu_writes_traced(self, from: int, upto: int) -> EmulatorModel
        decreases upto - from,
    {
        if upto <= from {
            self
        } else {
            self.gpu_writes_traced(from, upto - 1).traced(
                TraceCategory::GpuCommand,
                TracePayload::GpuCommand {
                    reg: self.gpu.trace[upto - 1].reg,
                    value: self.gpu.trace[upto - 1].value,
                },
            ).marked(BootCheckpoint::FirstGpuCommand)
        }
    }

    /// The register writes that the GPU logged since the last cycle are traced.
    #[verifier::opaque]
    pub open spec fn gpu_traced(self) -> EmulatorModel {
        EmulatorModel {
            last_gpu_trace_len: self.gpu.trace.len() as usize,
            ..self.gpu_writes_traced(self.last_gpu_trace_len as int, self.gpu.trace.len() as int)
        }
    }

    /// What a scheduled event does: a timer expiry and a V-blank raise their line
    /// and schedule themselves again, a DMA completion carries out the transfer
    /// and raises the DMA line when there was one, a service wake unblocks the
    /// process.
    #[verifier::opaque]
    pub open spec fn event_handled(self, event: ScheduledDeviceEvent) -> EmulatorModel {
        match event {
            ScheduledDeviceEvent::TimerExpiry => EmulatorModel {
                irq: IrqModel { pending: self.irq.pending | IrqLine::Timer0.mask(), ..self.irq },
                scheduler: self.scheduler.scheduled_in(
                    TIMER_PERIOD_CYCLES,
                    ScheduledDeviceEvent::TimerExpiry,
                ),
                ..self
            },
            ScheduledDeviceEvent::VBlank => EmulatorModel {
                irq: IrqModel { pending: self.irq.pending | IrqLine::VBlank.mask(), ..self.irq },
                scheduler: self.scheduler.scheduled_in(
                    VBLANK_PERIOD_CYCLES,
                    ScheduledDeviceEvent::VBlank,
                ),
                ..self
            },
            ScheduledDeviceEvent::DmaCompletion { channel } => {
                let done = completion(self.dma, channel, self.memory, self.gpu);
                EmulatorModel {
                    dma: done.queue,
                    memory: done.memory,
                    gpu: done.gpu,
                    irq: if done.done {
                        IrqModel { pending: self.irq.pending | IrqLine::Dma0.mask(), ..self.irq }
                    } else {
                        self.irq
                    },
                    ..self
                }
            },
            ScheduledDeviceEvent::ServiceWake { pid } => EmulatorModel {
                kernel: self.kernel.woken(pid),
                ..self
            },
        }
    }

    /// The emulator after the first `count` of the given events were handled.
    pub open spec fn events_handled(self, events: Seq<ScheduledDeviceEvent>, count: int) -> EmulatorModel
        decreases count,
    {
        if count <= 0 {
            self
        } else {
            self.events_handled(events, count - 1).event_handled(events[count - 1])
        }
    }

    /// The scheduled events that are due are drained and handled in delivery
    /// order.
    #[verifier::opaque]
    pub open spec fn events_drained(self) -> EmulatorModel {
        (EmulatorModel { scheduler: self.scheduler.after_drain(), ..self }).events_handled(
            self.scheduler.drained(),
            self.scheduler.drained().len() as int,
        )
    }

    /// Whole frames that the tick produced are presented.
    #[verifier::opaque]
    pub open spec fn presented(self, tick: TimingTick) -> EmulatorModel {
        if tick.video_frames > 0 {
            (EmulatorModel {
                gpu: GpuModel {
                    presents: saturating(self.gpu.presents + tick.video_frames),
                    ..self.gpu
                },
                frame_callbacks: saturating(self.frame_callbacks + tick.video_frames),
                ..self
            }).marked(BootCheckpoint::FirstFramePresent)
        } else {
            self
        }
    }

    /// Whole samples that the tick produced are generated.
    #[verifier::opaque]
    pub open spec fn audio_produced(self, tick: TimingTick) -> EmulatorModel {
        if tick.audio_samples > 0 {
            EmulatorModel {
                dsp: DspState {
                    samples: newest(generated(self.dsp, tick.audio_samples as nat).samples),
                    phase: generated(self.dsp, tick.audio_samples as nat).phase,
                },
                audio_callbacks: saturating(self.audio_callbacks + tick.audio_samples),
                ..self
            }
        } else {
            self
        }
    }

    /// The scheduler with the first `count` of the kernel's wake-ups scheduled.
    pub open spec fn wakes_scheduled(scheduler: SchedulerModel, wakes: Seq<PendingWake>, count: int) -> SchedulerModel
        decreases count,
    {
        if count <= 0 {
            scheduler
        } else {
            Self::wakes_scheduled(scheduler, wakes, count - 1).scheduled_in(
                wakes[count - 1].delay_cycles,
                ScheduledDeviceEvent::ServiceWake { pid: wakes[count - 1].pid },
            )
        }
    }

    /// A software interrupt that the instruction raised is dispatched to the
    /// kernel, and the wake-ups that the kernel asks for are scheduled.
    #[verifier::opaque]
    pub open spec fn swi_processed(self) -> EmulatorModel {
        match self.cpu.step_exception {
            Some(exception) => if exception.kind == ExceptionKind::SoftwareInterrupt {
                let handled = self.kernel.swi_handled(exception.fault_opcode & 0x00FF_FFFF);
                EmulatorModel {
                    kernel: KernelModel { pending_wakes: Seq::empty(), ..handled },
                    scheduler: Self::wakes_scheduled(
                        self.scheduler,
                        handled.pending_wakes,
                        handled.pending_wakes.len() as int,
                    ),
                    ..self
                }
            } else {
                self
            },
            None => self,
        }
    }

    /// A fault that the MMU raised during the step is traced and recorded, and
    /// ends the run.
    #[verifier::opaque]
    pub open spec fn fault_checked(self) -> Phase {
        match self.cpu.last_mmu_fault {
            None => Phase { emulator: self, fatal: None },
            Some(fault) => {
                let taken = EmulatorModel {
                    cpu: CpuModel { last_mmu_fault: None, ..self.cpu },
                    ..self
                };
                Phase {
                    emulator: taken.traced(
                        TraceCategory::MmuFault,
                        TracePayload::MmuFault { va: fault.va, pa: fault.pa, access: fault.access },
                    ).fault_recorded(
                        StructuredError::MmuFault {
                            pc: taken.cpu.pc(),
                            va: fault.va,
                            pa: fault.pa,
                            access: fault.access,
                        },
                    ),
                    fatal: Some(
                        fault_error(fault.kind, taken.cpu.pc(), fault.va, fault.pa, fault.access),
                    ),
                }
            },
        }
    }

    /// The part of a cycle that follows the IPC pump.
    #[verifier::opaque]
    pub open spec fn cycle_finished(self, consumed: u32, tick: TimingTick) -> Cycle {
        let settled = self.service_traced().handed_off().gpu_ticked().gpu_traced().events_drained().presented(
            tick,
        ).audio_produced(tick).swi_processed();
        let checked = settled.fault_checked();
        if checked.fatal is Some {
            Cycle { emulator: checked.emulator, consumed, fatal: checked.fatal, halted: false }
        } else if checked.emulator.cpu.state == CpuRunState::Halted {
            Cycle {
                emulator: checked.emulator.marked(BootCheckpoint::CpuHalted),
                consumed,
                fatal: None,
                halted: true,
            }
        } else {
            Cycle { emulator: checked.emulator, consumed, fatal: None, halted: false }
        }
    }

    /// One emulated cycle: IRQ check, CPU step, trace capture, clocks, IPC pump,
    /// GPU hand-off and tick, scheduled events, frames and audio, and the
    /// post-processing of software interrupts and MMU faults.
    #[verifier::opaque]
    pub open spec fn cycle(self) -> Cycle {
        let ready = self.irq_entered();
        let consumed = ready.cpu.step(ready.memory).cycles;
        let traced = ready.cpu_stepped().fetch_traced();
        let tick = traced.timing.tick_result(consumed);
        let pumped = traced.clocks_ticked(consumed).ipc_pumped();
        if pumped.fatal is Some {
            Cycle { emulator: pumped.emulator, consumed, fatal: pumped.fatal, halted: false }
        } else {
            pumped.emulator.cycle_finished(consumed, tick)
        }
    }

    /// A run of up to `budget` cycles, with `executed` cycles counted so far. The
    /// run ends when the budget is used up, on the first fatal condition, or
    /// when the CPU halts.
    pub open spec fn run(self, budget: nat, executed: u32) -> Run
        decreases budget,
    {
        if budget == 0 {
            Run { emulator: self, result: Ok(executed) }
        } else {
            let cycle = self.cycle();
            let counted = if executed + cycle.consumed > u32::MAX {
                u32::MAX
            } else {
                (executed + cycle.consumed) as u32
            };
            match cycle.fatal {
                Some(e) => Run { emulator: cycle.emulator, result: Err(e) },
                None => if cycle.halted {
                    Run { emulator: cycle.emulator, result: Ok(counted) }
                } else {
                    cycle.emulator.run((budget - 1) as nat, counted)
                },
            }
        }
    }

    /// The smaller of a budget and the configured cap.
    pub open spec fn capped(self, budget: u32) -> u32 {
        if budget < self.config.max_cycle_budget {
            budget
        } else {
            self.config.max_cycle_budget
        }
    }

    /// What a run of a cycle budget does: without an installed image it is an
    /// error and nothing happens.
    pub open spec fn cycles_run(self, budget: u32) -> Run {
        if !self.rom_loaded {
            Run { emulator: self, result: Err(EmulatorError::RomNotLoaded) }
        } else {
            self.run(self.capped(budget) as nat, 0)
        }
    }

    /// Sum of the bytes read at the first `count` addresses from `start` on, or
    /// nothing where an address does not fit 32 bits.
    pub open spec fn checksum(self, start: u32, count: nat) -> Option<u64>
        decreases count,
    {
        if count == 0 {
            Some(0)
        } else {
            match self.checksum(start, (count - 1) as nat) {
                None => None,
                Some(sum) => if start + ((count - 1) as u32) > u32::MAX {
                    None
                } else {
                    Some(
                        sum.wrapping_add(
                            read_byte_or_zero(self.memory, (start + ((count - 1) as u32)) as u32) as u64,
                        ),
                    )
                },
            }
        }
    }
}

impl Emulator3ds {
    /// An emulator with the default configuration and no image installed.
    pub fn new() -> (emulator: Self)
        ensures
            emulator@ == EmulatorModel::initial(EmulatorConfig { max_cycle_budget: 5_000_000 }),
    {
        Emulator3ds::with_config(EmulatorConfig { max_cycle_budget: 5_000_000 })
    }

    /// An emulator with the given configuration and no image installed.
    pub fn with_config(config: EmulatorConfig) -> (emulator: Self)
        ensures
            emulator@ == EmulatorModel::initial(config),
    {
        Emulator3ds {
            cpu: Arm11Cpu::new(),
            memory: Memory::new(),
            gpu: PicaGpu::new(),
            dsp: Dsp::new(),
            scheduler: Scheduler::new(),
            irq: IrqController::new(),
            dma: DmaEngine::new(),
            kernel: Kernel::new(),
            timing: TimingModel::new(),
            rom_loaded: false,
            vfs: VirtualFileSystem::new(),
            config,
            frame_callbacks: 0,
            audio_callbacks: 0,
            cpu_trace: RingBuffer::new(512),
            ipc_trace: RingBuffer::new(256),
            service_trace: RingBuffer::new(256),
            mmu_fault_trace: RingBuffer::new(128),
            gpu_trace: RingBuffer::new(512),
            fault_snapshots: RingBuffer::new(128),
            boot_profiler: BootCheckpointProfiler::new(),
            last_gpu_trace_len: 0,
        }
    }

    /// Resets the machine: memory is zeroed and no image is installed.
    pub fn reset(&mut self)
        ensures
            final(self)@ == old(self)@.reset(),
    {
        self.memory.clear_writable();
        self.scheduler.reset();
        self.irq.reset();
        self.dma.reset();
        self.timing.reset();
        self.kernel.reset_runtime();
        self.cpu.reset(0);
        self.rom_loaded = false;
        self.vfs = VirtualFileSystem::new();
        self.frame_callbacks = 0;
        self.audio_callbacks = 0;
        self.clear_diagnostics();
    }

    /// Loads and installs a ROM image.
    pub fn load_rom(&mut self, rom: &[u8]) -> (result: Result<(), EmulatorError>)
        ensures
            final(self)@ == old(self)@.rom_loaded(rom@).emulator,
            match result {
                Ok(_) => old(self)@.rom_loaded(rom@).fatal is None,
                Err(e) => old(self)@.rom_loaded(rom@).fatal == Some(e),
            },
    {
        self.memory.clear_writable();
        let loaded = match parse_process_image_from_rom(rom) {
            Ok(loaded) => loaded,
            Err(e) => {
                return Err(e);
            },
        };
        match install_process_image(&mut self.memory, &loaded.process) {
            Ok(_) => {},
            Err(e) => {
                return Err(e);
            },
        }
        let entrypoint = loaded.process.entrypoint;
        self.vfs = loaded.vfs;
        self.cpu.reset(entrypoint);
        self.scheduler.reset();
        self.irq.reset();
        self.dma.reset();
        self.timing.reset();
        self.frame_callbacks = 0;
        self.audio_callbacks = 0;
        self.clear_diagnostics();
        self.rom_loaded = true;
        self.schedule_boot_events();
        self.mark(BootCheckpoint::RomLoaded);
        Ok(())
    }

    /// Loads a title package, or a bare ROM image.
    pub fn load_title_package(&mut self, package: &[u8]) -> (result: Result<(), EmulatorError>)
        ensures
            final(self)@ == old(self)@.title_loaded(package@).emulator,
            match result {
                Ok(_) => old(self)@.title_loaded(package@).fatal is None,
                Err(e) => old(self)@.title_loaded(package@).fatal == Some(e),
            },
    {
        match TitlePackage::parse(package) {
            Ok(title) => match title.primary_rom() {
                Some(rom) => self.load_rom(rom),
                None => Err(EmulatorError::InvalidTitlePackage),
            },
            Err(e) => {
                if package.len() >= 8 && crate::text::has_magic(package, 0, 0x33, 0x44, 0x53, 0x54) {
                    return Err(e);
                }
                self.load_rom(package)
            },
        }
    }

    /// Appends raw words to the FIFO of the GPU.
    pub fn enqueue_gpu_fifo_words(&mut self, words: &[u32])
        ensures
            final(self)@ == (EmulatorModel {
                gpu: GpuModel { fifo: old(self)@.gpu.fifo + words@, ..old(self)@.gpu },
                ..old(self)@
            }),
    {
        self.gpu.enqueue_gsp_fifo_words(words);
    }

    fn queue_dma(&mut self, transfer: DmaTransfer)
        ensures
            final(self)@ == old(self)@.dma_queued(transfer),
    {
        let cycles = self.dma.queue_transfer(transfer);
        self.scheduler.schedule_in(
            cycles,
            ScheduledDeviceEvent::DmaCompletion { channel: transfer.channel },
        );
    }

    /// Queues a copy of `words` words from `source` to `destination`.
    pub fn queue_dma_memcpy(&mut self, channel: u8, source: u32, destination: u32, words: u32)
        ensures
            final(self)@ == old(self)@.dma_queued(
                DmaTransfer {
                    channel,
                    source,
                    destination,
                    words,
                    kind: DmaTransferKind::MemoryToMemory,
                },
            ),
    {
        self.queue_dma(
            DmaTransfer { channel, source, destination, words, kind: DmaTransferKind::MemoryToMemory },
        );
    }

    /// Queues a feed of `words` words from `source` into the GPU FIFO.
    pub fn queue_dma_gpu_feed(&mut self, channel: u8, source: u32, words: u32)
        ensures
            final(self)@ == old(self)@.dma_queued(
                DmaTransfer {
                    channel,
                    source,
                    destination: 0,
                    words,
                    kind: DmaTransferKind::GpuQueueFeed,
                },
            ),
    {
        self.queue_dma(
            DmaTransfer { channel, source, destination: 0, words, kind: DmaTransferKind::GpuQueueFeed },
        );
    }

    fn clear_diagnostics(&mut self)
        ensures
            final(self)@ == old(self)@.diagnostics_cleared(),
    {
        self.cpu_trace.clear();
        self.ipc_trace.clear();
        self.service_trace.clear();
        self.mmu_fault_trace.clear();
        self.gpu_trace.clear();
        self.fault_snapshots.clear();
        self.boot_profiler.reset();
        self.last_gpu_trace_len = 0;
    }

    fn record_trace(&mut self, category: TraceCategory, payload: TracePayload)
        ensures
            final(self)@ == old(self)@.traced(category, payload),
    {
        let record = TraceRecord { cycle: self.scheduler.cycles(), payload };
        match category {
            TraceCategory::CpuFetchDecode => self.cpu_trace.push(record),
            TraceCategory::Ipc => self.ipc_trace.push(record),
            TraceCategory::ServiceCall => self.service_trace.push(record),
            TraceCategory::MmuFault => self.mmu_fault_trace.push(record),
            TraceCategory::GpuCommand => self.gpu_trace.push(record),
        }
    }

    fn record_fault(&mut self, error: StructuredError)
        ensures
            final(self)@ == old(self)@.fault_recorded(error),
    {
        let cycle = self.scheduler.cycles();
        self.fault_snapshots.push(FaultSnapshot { cycle, error });
    }

    fn mark(&mut self, checkpoint: BootCheckpoint)
        ensures
            final(self)@ == old(self)@.marked(checkpoint),
    {
        let cycle = self.scheduler.cycles();
        self.boot_profiler.mark(checkpoint, cycle);
    }

    fn schedule_boot_events(&mut self)
        ensures
            final(self)@ == old(self)@.boot_scheduled(),
    {
        self.scheduler.schedule_in(TIMER_PERIOD_CYCLES, ScheduledDeviceEvent::TimerExpiry);
        self.scheduler.schedule_in(VBLANK_PERIOD_CYCLES, ScheduledDeviceEvent::VBlank);
    }

    fn handle_scheduled_event(&mut self, event: ScheduledDeviceEvent)
        ensures
            final(self)@ == old(self)@.event_handled(event),
    {
        reveal(EmulatorModel::event_handled);
        match event {
            ScheduledDeviceEvent::TimerExpiry => {
                self.irq.raise(IrqLine::Timer0);
                self.scheduler.schedule_in(TIMER_PERIOD_CYCLES, ScheduledDeviceEvent::TimerExpiry);
            },
            ScheduledDeviceEvent::VBlank => {
                self.irq.raise(IrqLine::VBlank);
                self.scheduler.schedule_in(VBLANK_PERIOD_CYCLES, ScheduledDeviceEvent::VBlank);
            },
            ScheduledDeviceEvent::DmaCompletion { channel } => {
                if self.dma.complete_transfer(channel, &mut self.memory, &mut self.gpu) {
                    self.irq.raise(IrqLine::Dma0);
                }
            },
            ScheduledDeviceEvent::ServiceWake { pid } => {
                self.kernel.on_scheduler_wake(pid);
            },
        }
    }

    fn enter_pending_irq(&mut self)
        ensures
            final(self)@ == old(self)@.irq_entered(),
    {
        reveal(EmulatorModel::irq_entered);
        if self.cpu.interrupts_enabled() {
            match self.irq.next_pending() {
                Some(line) => {
                    self.irq.clear(line);
                    self.cpu.enter_irq(line);
                },
                None => {},
            }
        }
    }

    fn trace_fetch(&mut self)
        ensures
            final(self)@ == old(self)@.fetch_traced(),
    {
        reveal(EmulatorModel::fetch_traced);
        match self.cpu.take_last_instruction_trace() {
            Some(entry) => {
                self.record_trace(
                    TraceCategory::CpuFetchDecode,
                    TracePayload::CpuFetchDecode {
                        pc: entry.pc,
                        opcode: entry.opcode,
                        thumb: entry.thumb,
                    },
                );
                self.mark(BootCheckpoint::FirstInstruction);
            },
            None => {},
        }
    }

    fn pump_ipc(&mut self) -> (fatal: Option<EmulatorError>)
        ensures
            fatal == old(self)@.ipc_pumped().fatal,
            final(self)@ == old(self)@.ipc_pumped().emulator,
    {
        reveal(EmulatorModel::ipc_pumped);
        self.kernel.pump_ipc_events(1);
        match self.kernel.take_last_ipc_dispatch() {
            None => None,
            Some((command_id, handle_id, result_code)) => {
                self.record_trace(
                    TraceCategory::Ipc,
                    TracePayload::Ipc { command_id, handle_id, result_code },
                );
                self.mark(BootCheckpoint::FirstIpcDispatch);
                if result_code != 0 {
                    let pc = self.cpu.pc();
                    let failure = StructuredError::ServiceCallFailure {
                        pc,
                        service_command_id: command_id,
                        handle_id,
                        result_code,
                    };
                    self.record_fault(failure);
                    self.kernel.report_error(failure);
                    return Some(
                        EmulatorError::ServiceCallError {
                            pc,
                            service_command_id: command_id,
                            handle_id,
                            result_code,
                        },
                    );
                }
                None
            },
        }
    }

    fn trace_service_call(&mut self)
        ensures
            final(self)@ == old(self)@.service_traced(),
    {
        reveal(EmulatorModel::service_traced);
        match self.kernel.take_last_service_imm24() {
            Some(imm24) => {
                self.record_trace(TraceCategory::ServiceCall, TracePayload::ServiceCall { imm24 });
                self.mark(BootCheckpoint::FirstServiceCall);
            },
            None => {},
        }
    }

    fn hand_off(&mut self)
        ensures
            final(self)@ == old(self)@.handed_off(),
    {
        reveal(EmulatorModel::handed_off);
        let fragments = self.kernel.drain_gpu_handoff();
        let ghost taken = self@;
        let ghost queued = old(self)@.kernel.gpu_handoff;
        let mut i: usize = 0;
        while i < fragments.len()
            invariant
                i <= fragments@.len(),
                fragments@.len() == queued.len(),
                forall|k: int| 0 <= k < fragments@.len() ==> (#[trigger] fragments@[k])@ == queued[k],
                self@ == (EmulatorModel {
                    gpu: GpuModel {
                        fifo: EmulatorModel::handed_fifo(taken.gpu.fifo, queued, i as int),
                        ..taken.gpu
                    },
                    ..taken
                }),
            decreases fragments@.len() - i,
        {
            assert(fragments@[i as int]@ == queued[i as int]);
            self.gpu.enqueue_gsp_fifo_words(fragments[i].as_slice());
            i += 1;
        }
    }

    fn trace_gpu(&mut self)
        ensures
            final(self)@ == old(self)@.gpu_traced(),
    {
        reveal(EmulatorModel::gpu_traced);
        let total = self.gpu.trace().len();
        let from = self.last_gpu_trace_len;
        if from >= total {
            self.last_gpu_trace_len = total;
            return ;
        }
        let mut i: usize = from;
        while i < total
            invariant
                from <= i <= total,
                total == old(self)@.gpu.trace.len(),
                self@.gpu == old(self)@.gpu,
                self@ == old(self)@.gpu_writes_traced(from as int, i as int),
            decreases total - i,
        {
            let entry = self.gpu.trace()[i];
            proof {
                lemma_gpu_trace_kept(old(self)@, from as int, i as int);
            }
            self.record_trace(
                TraceCategory::GpuCommand,
                TracePayload::GpuCommand { reg: entry.reg, value: entry.value },
            );
            self.mark(BootCheckpoint::FirstGpuCommand);
            i += 1;
        }
        self.last_gpu_trace_len = total;
    }

    fn drain_events(&mut self)
        ensures
            final(self)@ == old(self)@.events_drained(),
    {
        reveal(EmulatorModel::events_drained);
        let events = self.scheduler.drain_due_events();
        let ghost drained = self@;
        let mut i: usize = 0;
        while i < events.len()
            invariant
                i <= events@.len(),
                self@ == drained.events_handled(events@, i as int),
            decreases events@.len() - i,
        {
            self.handle_scheduled_event(events[i]);
            i += 1;
        }
    }

    fn present(&mut self, tick: TimingTick)
        ensures
            final(self)@ == old(self)@.presented(tick),
    {
        reveal(EmulatorModel::presented);
        if tick.video_frames > 0 {
            self.gpu.present(tick.video_frames);
            self.frame_callbacks = self.frame_callbacks.saturating_add(tick.video_frames);
            self.mark(BootCheckpoint::FirstFramePresent);
        }
    }

    fn produce_audio(&mut self, tick: TimingTick)
        ensures
            final(self)@ == old(self)@.audio_produced(tick),
    {
        reveal(EmulatorModel::audio_produced);
        if tick.audio_samples > 0 {
            self.dsp.produce_samples(tick.audio_samples);
            self.audio_callbacks = self.audio_callbacks.saturating_add(tick.audio_samples);
        }
    }

    fn process_swi(&mut self)
        ensures
            final(self)@ == old(self)@.swi_processed(),
    {
        reveal(EmulatorModel::swi_processed);
        let exception = match self.cpu.step_exception() {
            Some(exception) => exception,
            None => {
                return ;
            },
        };
        if exception.kind != ExceptionKind::SoftwareInterrupt {
            return ;
        }
        self.kernel.handle_swi(exception.fault_opcode & 0x00FF_FFFF);
        let wakes = self.kernel.take_pending_schedule_events();
        let ghost taken = self@;
        let mut i: usize = 0;
        while i < wakes.len()
            invariant
                i <= wakes@.len(),
                self@ == (EmulatorModel {
                    scheduler: EmulatorModel::wakes_scheduled(taken.scheduler, wakes@, i as int),
                    ..taken
                }),
            decreases wakes@.len() - i,
        {
            self.scheduler.schedule_in(
                wakes[i].delay_cycles,
                ScheduledDeviceEvent::ServiceWake { pid: wakes[i].pid },
            );
            i += 1;
        }
    }

    fn check_fault(&mut self) -> (fatal: Option<EmulatorError>)
        ensures
            fatal == old(self)@.fault_checked().fatal,
            final(self)@ == old(self)@.fault_checked().emulator,
    {
        reveal(EmulatorModel::fault_checked);
        let fault = match self.cpu.take_last_mmu_fault() {
            Some(fault) => fault,
            None => {
                return None;
            },
        };
        self.record_trace(
            TraceCategory::MmuFault,
            TracePayload::MmuFault { va: fault.va, pa: fault.pa, access: fault.access },
        );
        let pc = self.cpu.pc();
        self.record_fault(
            StructuredError::MmuFault { pc, va: fault.va, pa: fault.pa, access: fault.access },
        );
        Some(
            match fault.kind {
                FaultKind::Translation => EmulatorError::MmuTranslationFault {
                    pc,
                    va: fault.va,
                    pa: fault.pa,
                    access: fault.access,
                },
                FaultKind::Domain => EmulatorError::MmuDomainFault {
                    pc,
                    va: fault.va,
                    pa: fault.pa,
                    domain: 0,
                    access: fault.access,
                },
                FaultKind::Permission => EmulatorError::MmuPermissionFault {
                    pc,
                    va: fault.va,
                    pa: fault.pa,
                    access: fault.access,
                },
                FaultKind::Alignment => EmulatorError::AlignmentFault {
                    pc,
                    va: fault.va,
                    pa: fault.pa,
                    access: fault.access,
                },
            },
        )
    }

    fn finish_cycle(&mut self, consumed: u32, tick: TimingTick) -> (outcome: (Option<EmulatorError>, bool))
        ensures
            outcome.0 == old(self)@.cycle_finished(consumed, tick).fatal,
            outcome.1 == old(self)@.cycle_finished(consumed, tick).halted,
            consumed == old(self)@.cycle_finished(consumed, tick).consumed,
            final(self)@ == old(self)@.cycle_finished(consumed, tick).emulator,
    {
        reveal(EmulatorModel::cycle_finished);
        self.trace_service_call();
        self.hand_off();
        let cycles = self.scheduler.cycles();
        self.gpu.tick(cycles);
        self.trace_gpu();
        self.drain_events();
        self.present(tick);
        self.produce_audio(tick);
        self.process_swi();
        match self.check_fault() {
            Some(e) => {
                return (Some(e), false);
            },
            None => {},
        }
        if self.cpu.run_state() == CpuRunState::Halted {
            self.mark(BootCheckpoint::CpuHalted);
            return (None, true);
        }
        (None, false)
    }

    fn run_cycle(&mut self) -> (outcome: (u32, Option<EmulatorError>, bool))
        ensures
            outcome.0 == old(self)@.cycle().consumed,
            outcome.1 == old(self)@.cycle().fatal,
            outcome.2 == old(self)@.cycle().halted,
            final(self)@ == old(self)@.cycle().emulator,
    {
        reveal(EmulatorModel::cycle);
        self.enter_pending_irq();
        let consumed = match self.cpu.step(&mut self.memory) {
            Ok(consumed) => consumed,
            Err(_) => 0,
        };
        self.trace_fetch();
        self.scheduler.tick(consumed);
        self.kernel.tick(consumed);
        let tick = self.timing.tick(consumed);
        match self.pump_ipc() {
            Some(e) => {
                return (consumed, Some(e), false);
            },
            None => {},
        }
        let (fatal, halted) = self.finish_cycle(consumed, tick);
        (consumed, fatal, halted)
    }

    /// Runs up to `budget` cycles, capped by the configuration, and returns the
    /// cycles executed, or the first fatal condition.
    pub fn run_cycles(&mut self, budget: u32) -> (result: Result<u32, EmulatorError>)
        ensures
            result == old(self)@.cycles_run(budget).result,
            final(self)@ == old(self)@.cycles_run(budget).emulator,
    {
        if !self.rom_loaded {
            return Err(EmulatorError::RomNotLoaded);
        }
        let capped = if budget < self.config.max_cycle_budget {
            budget
        } else {
            self.config.max_cycle_budget
        };
        let mut executed: u32 = 0;
        let mut remaining: u32 = capped;
        while remaining > 0
            invariant
                old(self)@.cycles_run(budget) == self@.run(remaining as nat, executed),
            decreases remaining,
        {
            let (consumed, fatal, halted) = self.run_cycle();
            executed = executed.saturating_add(consumed);
            match fatal {
                Some(e) => {
                    return Err(e);
                },
                None => {},
            }
            if halted {
                return Ok(executed);
            }
            remaining -= 1;
        }
        Ok(executed)
    }

    /// Sets the drift policy of the timing model.
    pub fn set_wasm_drift_policy(&mut self, policy: DriftCorrectionPolicy)
        ensures
            final(self)@ == (EmulatorModel {
                timing: TimingState { drift_policy: policy, ..old(self)@.timing },
                ..old(self)@
            }),
    {
        self.timing.set_drift_policy(policy);
    }

    /// Sets the host time from which drift is measured, in microseconds.
    pub fn set_wasm_wall_time_anchor_us(&mut self, host_wall_time_us: u64)
        ensures
            final(self)@ == (EmulatorModel {
                timing: TimingState { wall_time_anchor_us: host_wall_time_us, ..old(self)@.timing },
                ..old(self)@
            }),
    {
        self.timing.set_wall_time_anchor_us(host_wall_time_us);
    }

    /// Runs the budget that the drift policy recommends for the host's clock.
    pub fn run_cycles_synced(&mut self, requested_cycles: u32, host_wall_time_us: u64) -> (result:
        Result<u32, EmulatorError>)
        ensures
            result == old(self)@.cycles_run(
                old(self)@.capped(old(self)@.timing.budget(host_wall_time_us, requested_cycles)),
            ).result,
            final(self)@ == old(self)@.cycles_run(
                old(self)@.capped(old(self)@.timing.budget(host_wall_time_us, requested_cycles)),
            ).emulator,
    {
        let recommended = self.timing.recommended_cycle_budget(host_wall_time_us, requested_cycles);
        let adjusted = if recommended < self.config.max_cycle_budget {
            recommended
        } else {
            self.config.max_cycle_budget
        };
        self.run_cycles(adjusted)
    }

    /// Hands out the audio samples produced so far and leaves none behind.
    pub fn take_audio_samples(&mut self) -> (samples: Vec<i16>)
        ensures
            samples@ == old(self)@.dsp.samples,
            final(self)@ == (EmulatorModel {
                dsp: DspState { samples: Seq::empty(), ..old(self)@.dsp },
                ..old(self)@
            }),
    {
        self.dsp.take_samples()
    }

    /// Hands out the number of frames presented since the last call.
    pub fn take_frame_present_count(&mut self) -> (count: u64)
        ensures
            count == old(self)@.frame_callbacks,
            final(self)@ == (EmulatorModel { frame_callbacks: 0, ..old(self)@ }),
    {
        let count = self.frame_callbacks;
        self.frame_callbacks = 0;
        count
    }

    /// Hands out the number of audio samples produced since the last call.
    pub fn take_audio_sample_count(&mut self) -> (count: u64)
        ensures
            count == old(self)@.audio_callbacks,
            final(self)@ == (EmulatorModel { audio_callbacks: 0, ..old(self)@ }),
    {
        let count = self.audio_callbacks;
        self.audio_callbacks = 0;
        count
    }

    /// Reads a byte of physical memory; zero where nothing is mapped.
    pub fn read_phys_u8(&self, addr: u32) -> (value: u8)
        ensures
            value == read_byte_or_zero(self@.memory, addr),
    {
        self.memory.read_u8(addr)
    }

    /// Writes a byte of physical memory; dropped where nothing writable is mapped.
    pub fn write_phys_u8(&mut self, addr: u32, value: u8)
        ensures
            final(self)@ == (EmulatorModel {
                memory: write_byte(old(self)@.memory, addr, value),
                ..old(self)@
            }),
    {
        self.memory.write_u8(addr, value);
    }

    /// Reads a little-endian word of physical memory; unmapped bytes read as zero.
    pub fn read_phys_u32(&self, addr: u32) -> (value: u32)
        ensures
            value == read_word_or_zero(self@.memory, addr),
    {
        self.memory.read_u32(addr)
    }

    /// Writes a little-endian word of physical memory, byte by byte.
    pub fn write_phys_u32(&mut self, addr: u32, value: u32)
        ensures
            final(self)@ == (EmulatorModel {
                memory: write_word(old(self)@.memory, addr, value),
                ..old(self)@
            }),
    {
        self.memory.write_u32(addr, value);
    }

    /// Total length of the mapped segments, saturating.
    pub fn mapped_memory_bytes(&self) -> (total: usize)
        ensures
            total == if crate::memory::mapped_bytes(self@.memory, self@.memory.len() as int)
                > usize::MAX {
                usize::MAX as int
            } else {
                crate::memory::mapped_bytes(self@.memory, self@.memory.len() as int)
            },
    {
        self.memory.len_mapped_bytes()
    }

    /// The framebuffer as little-endian RGBA bytes.
    pub fn frame_rgba(&self) -> (bytes: Vec<u8>)
        ensures
            bytes@ == self@.gpu.frame_bytes(),
            bytes@.len() == 4 * FRAME_PIXELS,
    {
        self.gpu.frame_u8()
    }

    /// What the timing model shows: counters, screens and emulated time.
    pub fn timing_snapshot(&self) -> (snapshot: TimingSnapshot)
        ensures
            snapshot == self@.timing.snapshot(),
    {
        self.timing.snapshot()
    }

    /// The system call that was logged last.
    pub fn last_service_call(&self) -> (event: Option<ServiceEvent>)
        ensures
            event == if self@.kernel.svc_log.len() > 0 {
                Some(self@.kernel.svc_log.last())
            } else {
                None
            },
    {
        self.kernel.last_service_call()
    }

    /// What the host sees of the CPU, the clock, the audio buffer and the call log.
    pub fn state(&self) -> (state: EmulatorState)
        ensures
            state.pc == self@.cpu.pc(),
            state.cpsr == self@.cpu.cpsr,
            state.cycles == self@.scheduler.cycles,
            state.cpu_state == self@.cpu.state,
            state.registers@ == self@.cpu.regs,
            state.audio_samples == self@.dsp.samples.len(),
            state.last_exception == self@.cpu.last_exception,
            state.service_calls == self@.kernel.svc_log.len(),
    {
        EmulatorState {
            pc: self.cpu.pc(),
            cpsr: self.cpu.cpsr(),
            cycles: self.scheduler.cycles(),
            cpu_state: self.cpu.run_state(),
            registers: *self.cpu.regs(),
            audio_samples: self.dsp.samples().len(),
            last_exception: self.cpu.last_exception(),
            service_calls: self.kernel.service_call_count(),
        }
    }

    /// The newest `limit` trace records of a category, oldest first.
    pub fn recent_trace_slice(&self, category: TraceCategory, limit: usize) -> (records: Vec<
        TraceRecord,
    >)
        ensures
            records@ == match category {
                TraceCategory::CpuFetchDecode => self@.cpu_trace.recent(limit),
                TraceCategory::Ipc => self@.ipc_trace.recent(limit),
                TraceCategory::ServiceCall => self@.service_trace.recent(limit),
                TraceCategory::MmuFault => self@.mmu_fault_trace.recent(limit),
                TraceCategory::GpuCommand => self@.gpu_trace.recent(limit),
            },
    {
        match category {
            TraceCategory::CpuFetchDecode => self.cpu_trace.recent(limit),
            TraceCategory::Ipc => self.ipc_trace.recent(limit),
            TraceCategory::ServiceCall => self.service_trace.recent(limit),
            TraceCategory::MmuFault => self.mmu_fault_trace.recent(limit),
            TraceCategory::GpuCommand => self.gpu_trace.recent(limit),
        }
    }

    /// The newest `limit` fault snapshots, oldest first.
    pub fn recent_fault_snapshots(&self, limit: usize) -> (snapshots: Vec<FaultSnapshot>)
        ensures
            snapshots@ == self@.fault_snapshots.recent(limit),
    {
        self.fault_snapshots.recent(limit)
    }

    /// The boot checkpoints reached so far, and where the boot left the expected
    /// order.
    pub fn boot_checkpoint_snapshot(&self) -> (snapshot: BootCheckpointSnapshot)
        ensures
            snapshot.events@ == self@.boot_profiler.observed,
            snapshot.divergence_at == self@.boot_profiler.divergence_at,
    {
        self.boot_profiler.snapshot()
    }

    /// Sum of the `len` bytes from `start` on, modulo 2^64; nothing where an
    /// address does not fit 32 bits.
    pub fn memory_checksum(&self, start: usize, len: usize) -> (sum: Option<u64>)
        ensures
            sum == self@.checksum(start as u32, len as nat),
    {
        #[verifier::truncate]
        let base = start as u32;
        let mut checksum: u64 = 0;
        let mut off: usize = 0;
        while off < len
            invariant
                off <= len,
                base == start as u32,
                self@.checksum(base, off as nat) == Some(checksum),
            decreases len - off,
        {
            #[verifier::truncate]
            let step = off as u32;
            let addr = match base.checked_add(step) {
                Some(addr) => addr,
                None => {
                    proof {
                        lemma_checksum_fails(self@, base, (off + 1) as nat, len as nat);
                    }
                    return None;
                },
            };
            checksum = checksum.wrapping_add(self.memory.read_u8(addr) as u64);
            off += 1;
        }
        Some(checksum)
    }
}

impl Default for Emulator3ds {
    fn default() -> (emulator: Self)
        ensures
            emulator@ == EmulatorModel::initial(EmulatorConfig { max_cycle_budget: 5_000_000 }),
    {
        Emulator3ds::new()
    }
}

/// Moving register writes to the trace ring leaves the GPU as it is.
pub proof fn lemma_gpu_trace_kept(e: EmulatorModel, from: int, upto: int)
    ensures
        e.gpu_writes_traced(from, upto).gpu == e.gpu,
    decreases upto - from,
{
    if upto > from {
        lemma_gpu_trace_kept(e, from, upto - 1);
    }
}

/// Once an address of a checksum does not fit, the checksum has no value.
pub proof fn lemma_checksum_fails(e: EmulatorModel, start: u32, failed: nat, count: nat)
    requires
        failed <= count,
        e.checksum(start, failed) is None,
    ensures
        e.checksum(start, count) is None,
    decreases count,
{
    if failed < count {
        lemma_checksum_fails(e, start, failed, (count - 1) as nat);
    }
}

} // verus!
