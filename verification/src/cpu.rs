use vstd::prelude::*;
use crate::error::MemoryAccessKind;
use crate::irq::IrqLine;
use crate::mmu::{Mmu, MmuModel};

pub mod alu;
pub mod status;
pub mod step;
pub mod thumb;
pub mod transfer;

verus! {

pub const REG_COUNT: usize = 16;

pub const PC_INDEX: usize = 15;

pub const LR_INDEX: usize = 14;

pub const SP_INDEX: usize = 13;

pub const FLAG_N: u32 = 0x8000_0000;

pub const FLAG_Z: u32 = 0x4000_0000;

pub const FLAG_C: u32 = 0x2000_0000;

pub const FLAG_V: u32 = 0x1000_0000;

pub const FLAG_I: u32 = 0x0000_0080;

pub const FLAG_T: u32 = 0x0000_0020;

pub const MODE_MASK: u32 = 0x1F;

pub const MODE_USR: u32 = 0b1_0000;

pub const MODE_IRQ: u32 = 0b1_0010;

pub const MODE_SVC: u32 = 0b1_0011;

pub const MODE_ABT: u32 = 0b1_0111;

pub const MODE_UND: u32 = 0b1_1011;

pub const VECTOR_BASE: u32 = 0x0010_0000;

pub const VECTOR_UND: u32 = 0x0010_0004;

pub const VECTOR_SWI: u32 = 0x0010_0008;

pub const VECTOR_PABT: u32 = 0x0010_000C;

pub const VECTOR_DABT: u32 = 0x0010_0010;

pub const VECTOR_IRQ: u32 = 0x0010_0018;

pub const CP15_DFSR: usize = 5;

pub const CP15_IFSR: usize = 6;

pub const CP15_DFAR: usize = 7;

pub const CP15_IFAR: usize = 8;

/// The wait-for-interrupt opcode, which halts the CPU.
pub const OPCODE_WFI: u32 = 0xE320_F003;

/// Whether the CPU executes instructions or waits for an interrupt.
#[derive(Debug, Clone, Copy, PartialEq, Eq, Structural)]
pub enum CpuRunState {
    Running,
    Halted,
}

/// The four kinds of memory fault.
#[derive(Debug, Clone, Copy, PartialEq, Eq, Structural)]
pub enum FaultKind {
    Translation,
    Domain,
    Permission,
    Alignment,
}

/// The exceptions that the CPU takes.
#[derive(Debug, Clone, Copy, PartialEq, Eq, Structural)]
pub enum ExceptionKind {
    UndefinedInstruction,
    SoftwareInterrupt,
    PrefetchAbort(FaultKind),
    DataAbort(FaultKind),
    Interrupt(IrqLine),
}

/// The record of an exception that was taken.
#[derive(Debug, Clone, Copy, PartialEq, Eq, Structural)]
pub struct CpuException {
    pub kind: ExceptionKind,
    pub vector: u32,
    pub return_address: u32,
    pub fault_opcode: u32,
}

/// One fetched instruction, as recorded by the instruction trace.
#[derive(Debug, Clone, Copy, PartialEq, Eq, Structural)]
pub struct InstructionTraceEntry {
    pub pc: u32,
    pub opcode: u32,
    pub thumb: bool,
}

/// What is known of a fault that the MMU raised during a step.
#[derive(Debug, Clone, Copy, PartialEq, Eq, Structural)]
pub struct MmuFaultDetail {
    pub va: u32,
    pub pa: Option<u32>,
    pub access: MemoryAccessKind,
    pub kind: FaultKind,
}

/// ARM11 register file, status words, banked registers, CP15 registers, MMU and
/// instruction trace.
pub struct Arm11Cpu {
    pub regs: [u32; 16],
    pub cpsr: u32,
    pub spsr_und: u32,
    pub spsr_svc: u32,
    pub spsr_irq: u32,
    pub spsr_abt: u32,
    pub bank_usr_sp: u32,
    pub bank_usr_lr: u32,
    pub bank_svc_sp: u32,
    pub bank_svc_lr: u32,
    pub bank_irq_sp: u32,
    pub bank_irq_lr: u32,
    pub bank_und_sp: u32,
    pub bank_und_lr: u32,
    pub bank_abt_sp: u32,
    pub bank_abt_lr: u32,
    pub state: CpuRunState,
    pub last_exception: Option<CpuException>,
    pub step_exception: Option<CpuException>,
    pub cp15_regs: [u32; 16],
    pub mmu: Mmu,
    pub trace_enabled: bool,
    pub trace_limit: usize,
    pub trace_log: Vec<InstructionTraceEntry>,
    pub last_trace_entry: Option<InstructionTraceEntry>,
    pub last_mmu_fault: Option<MmuFaultDetail>,
}

/// Mathematical model of the CPU.
pub struct CpuModel {
    pub regs: Seq<u32>,
    pub cpsr: u32,
    pub spsr_und: u32,
    pub spsr_svc: u32,
    pub spsr_irq: u32,
    pub spsr_abt: u32,
    pub bank_usr_sp: u32,
    pub bank_usr_lr: u32,
    pub bank_svc_sp: u32,
    pub bank_svc_lr: u32,
    pub bank_irq_sp: u32,
    pub bank_irq_lr: u32,
    pub bank_und_sp: u32,
    pub bank_und_lr: u32,
    pub bank_abt_sp: u32,
    pub bank_abt_lr: u32,
    pub state: CpuRunState,
    pub last_exception: Option<CpuException>,
    pub step_exception: Option<CpuException>,
    pub cp15_regs: Seq<u32>,
    pub mmu: MmuModel,
    pub trace_enabled: bool,
    pub trace_limit: usize,
    pub trace_log: Seq<InstructionTraceEntry>,
    pub last_trace_entry: Option<InstructionTraceEntry>,
    pub last_mmu_fault: Option<MmuFaultDetail>,
}

impl View for Arm11Cpu {
    type V = CpuModel;

    open spec fn view(&self) -> CpuModel {
        CpuModel {
            regs: self.regs@,
            cpsr: self.cpsr,
            spsr_und: self.spsr_und,
            spsr_svc: self.spsr_svc,
            spsr_irq: self.spsr_irq,
            spsr_abt: self.spsr_abt,
            bank_usr_sp: self.bank_usr_sp,
            bank_usr_lr: self.bank_usr_lr,
            bank_svc_sp: self.bank_svc_sp,
            bank_svc_lr: self.bank_svc_lr,
            bank_irq_sp: self.bank_irq_sp,
            bank_irq_lr: self.bank_irq_lr,
            bank_und_sp: self.bank_und_sp,
            bank_und_lr: self.bank_und_lr,
            bank_abt_sp: self.bank_abt_sp,
            bank_abt_lr: self.bank_abt_lr,
            state: self.state,
            last_exception: self.last_exception,
            step_exception: self.step_exception,
            cp15_regs: self.cp15_regs@,
            mmu: self.mmu@,
            trace_enabled: self.trace_enabled,
            trace_limit: self.trace_limit,
            trace_log: self.trace_log@,
            last_trace_entry: self.last_trace_entry,
            last_mmu_fault: self.last_mmu_fault,
        }
    }
}

/// Sixteen zeroed registers.
pub open spec fn zero_registers() -> Seq<u32> {
    Seq::new(16, |i: int| 0u32)
}

/// The trace log cut down to its most recent `limit` entries.
pub open spec fn trimmed(log: Seq<InstructionTraceEntry>, limit: usize) -> Seq<
    InstructionTraceEntry,
> {
    if log.len() > limit {
        log.subrange(log.len() - limit, log.len() as int)
    } else {
        log
    }
}

impl CpuModel {
    /// Both register files hold sixteen registers.
    pub open spec fn well_formed(self) -> bool {
        self.regs.len() == 16 && self.cp15_regs.len() == 16
    }

    /// The program counter.
    pub open spec fn pc(self) -> u32 {
        self.regs[15]
    }

    /// The CPU after reset to `pc`, with the trace settings and the trace log given.
    pub open spec fn at_reset(
        pc: u32,
        trace_enabled: bool,
        trace_limit: usize,
        trace_log: Seq<InstructionTraceEntry>,
    ) -> CpuModel {
        CpuModel {
            regs: zero_registers().update(15, pc),
            cpsr: MODE_USR,
            spsr_und: MODE_USR,
            spsr_svc: MODE_USR,
            spsr_irq: MODE_USR,
            spsr_abt: MODE_USR,
            bank_usr_sp: 0,
            bank_usr_lr: 0,
            bank_svc_sp: 0,
            bank_svc_lr: 0,
            bank_irq_sp: 0,
            bank_irq_lr: 0,
            bank_und_sp: 0,
            bank_und_lr: 0,
            bank_abt_sp: 0,
            bank_abt_lr: 0,
            state: CpuRunState::Running,
            last_exception: None,
            step_exception: None,
            cp15_regs: zero_registers(),
            mmu: MmuModel::initial(),
            trace_enabled,
            trace_limit,
            trace_log,
            last_trace_entry: None,
            last_mmu_fault: None,
        }
    }

    /// The CPU after a fetched instruction was offered to the trace: while tracing is
    /// enabled the entry is appended and remembered, and the log is cut to its limit.
    pub open spec fn traced(self, pc: u32, opcode: u32, thumb: bool) -> CpuModel {
        if !self.trace_enabled {
            self
        } else {
            let entry = InstructionTraceEntry { pc, opcode, thumb };
            CpuModel {
                trace_log: trimmed(self.trace_log.push(entry), self.trace_limit),
                last_trace_entry: Some(entry),
                ..self
            }
        }
    }
}

impl Arm11Cpu {
    /// A CPU in user mode at address zero, running, with tracing off.
    pub fn new() -> (cpu: Self)
        ensures
            cpu@ == CpuModel::at_reset(0, false, 0, Seq::empty()),
    {
        let cpu = Arm11Cpu {
            regs: [0, 0, 0, 0, 0, 0, 0, 0, 0, 0, 0, 0, 0, 0, 0, 0],
            cpsr: MODE_USR,
            spsr_und: MODE_USR,
            spsr_svc: MODE_USR,
            spsr_irq: MODE_USR,
            spsr_abt: MODE_USR,
            bank_usr_sp: 0,
            bank_usr_lr: 0,
            bank_svc_sp: 0,
            bank_svc_lr: 0,
            bank_irq_sp: 0,
            bank_irq_lr: 0,
            bank_und_sp: 0,
            bank_und_lr: 0,
            bank_abt_sp: 0,
            bank_abt_lr: 0,
            state: CpuRunState::Running,
            last_exception: None,
            step_exception: None,
            cp15_regs: [0, 0, 0, 0, 0, 0, 0, 0, 0, 0, 0, 0, 0, 0, 0, 0],
            mmu: Mmu::new(),
            trace_enabled: false,
            trace_limit: 0,
            trace_log: Vec::new(),
            last_trace_entry: None,
            last_mmu_fault: None,
        };
        assert(cpu@.regs =~= zero_registers().update(15, 0));
        assert(cpu@.cp15_regs =~= zero_registers());
        cpu
    }

    /// Resets registers, status words, banks, CP15, the MMU and the trace log; the
    /// trace settings stay.
    pub fn reset(&mut self, pc: u32)
        ensures
            final(self)@ == CpuModel::at_reset(
                pc,
                old(self)@.trace_enabled,
                old(self)@.trace_limit,
                Seq::empty(),
            ),
    {
        self.regs = [0, 0, 0, 0, 0, 0, 0, 0, 0, 0, 0, 0, 0, 0, 0, 0];
        self.regs[PC_INDEX] = pc;
        self.cpsr = MODE_USR;
        self.spsr_und = MODE_USR;
        self.spsr_svc = MODE_USR;
        self.spsr_irq = MODE_USR;
        self.spsr_abt = MODE_USR;
        self.bank_usr_sp = 0;
        self.bank_usr_lr = 0;
        self.bank_svc_sp = 0;
        self.bank_svc_lr = 0;
        self.bank_irq_sp = 0;
        self.bank_irq_lr = 0;
        self.bank_und_sp = 0;
        self.bank_und_lr = 0;
        self.bank_abt_sp = 0;
        self.bank_abt_lr = 0;
        self.state = CpuRunState::Running;
        self.last_exception = None;
        self.step_exception = None;
        self.cp15_regs = [0, 0, 0, 0, 0, 0, 0, 0, 0, 0, 0, 0, 0, 0, 0, 0];
        self.mmu.reset();
        self.trace_log.clear();
        self.last_trace_entry = None;
        self.last_mmu_fault = None;
        assert(self@.regs =~= zero_registers().update(15, pc));
        assert(self@.cp15_regs =~= zero_registers());
    }

    /// Turns tracing on with a ring of `limit` entries, or off when `limit` is zero,
    /// and empties the log.
    pub fn enable_instruction_trace(&mut self, limit: usize)
        ensures
            final(self)@ == (CpuModel {
                trace_enabled: limit > 0,
                trace_limit: limit,
                trace_log: Seq::empty(),
                ..old(self)@
            }),
    {
        self.trace_enabled = limit > 0;
        self.trace_limit = limit;
        self.trace_log.clear();
    }

    /// The traced instructions, oldest first.
    pub fn instruction_trace(&self) -> (log: &[InstructionTraceEntry])
        ensures
            log@ == self@.trace_log,
    {
        self.trace_log.as_slice()
    }

    /// Hands out the instruction that the last step traced, once.
    pub fn take_last_instruction_trace(&mut self) -> (entry: Option<InstructionTraceEntry>)
        ensures
            entry == old(self)@.last_trace_entry,
            final(self)@ == (CpuModel { last_trace_entry: None, ..old(self)@ }),
    {
        let entry = self.last_trace_entry;
        self.last_trace_entry = None;
        entry
    }

    /// Hands out the MMU fault of the last step, once.
    pub fn take_last_mmu_fault(&mut self) -> (fault: Option<MmuFaultDetail>)
        ensures
            fault == old(self)@.last_mmu_fault,
            final(self)@ == (CpuModel { last_mmu_fault: None, ..old(self)@ }),
    {
        let fault = self.last_mmu_fault;
        self.last_mmu_fault = None;
        fault
    }

    /// Whether the CPU runs or is halted.
    pub fn run_state(&self) -> (state: CpuRunState)
        ensures
            state == self@.state,
    {
        self.state
    }

    /// The program counter.
    pub fn pc(&self) -> (pc: u32)
        ensures
            pc == self@.pc(),
    {
        self.regs[PC_INDEX]
    }

    /// The sixteen general registers of the current mode.
    pub fn regs(&self) -> (regs: &[u32; 16])
        ensures
            regs@ == self@.regs,
    {
        &self.regs
    }

    /// The program status word.
    pub fn cpsr(&self) -> (cpsr: u32)
        ensures
            cpsr == self@.cpsr,
    {
        self.cpsr
    }

    /// The exception that was taken last.
    pub fn last_exception(&self) -> (exception: Option<CpuException>)
        ensures
            exception == self@.last_exception,
    {
        self.last_exception
    }

    /// The exception that the instruction of the last step raised, if it raised
    /// one.
    pub fn step_exception(&self) -> (exception: Option<CpuException>)
        ensures
            exception == self@.step_exception,
    {
        self.step_exception
    }

    pub(crate) fn record_trace(&mut self, pc: u32, opcode: u32, thumb: bool)
        ensures
            final(self)@ == old(self)@.traced(pc, opcode, thumb),
    {
        if !self.trace_enabled {
            return ;
        }
        let entry = InstructionTraceEntry { pc, opcode, thumb };
        self.trace_log.push(entry);
        self.last_trace_entry = Some(entry);
        let ghost full = self.trace_log@;
        let ghost pushed = self@;
        if self.trace_log.len() > self.trace_limit {
            let excess = self.trace_log.len() - self.trace_limit;
            let mut dropped: usize = 0;
            while dropped < excess
                invariant
                    dropped <= excess,
                    excess <= full.len(),
                    self.trace_log@ == full.subrange(dropped as int, full.len() as int),
                    self@ == (CpuModel { trace_log: self.trace_log@, ..pushed }),
                decreases excess - dropped,
            {
                self.trace_log.remove(0);
                dropped += 1;
                assert(self.trace_log@ =~= full.subrange(dropped as int, full.len() as int));
            }
        } else {
            assert(full.subrange(0, full.len() as int) =~= full);
        }
    }
}

impl Default for Arm11Cpu {
    fn default() -> (cpu: Self)
        ensures
            cpu@ == CpuModel::at_reset(0, false, 0, Seq::empty()),
    {
        Arm11Cpu::new()
    }
}

} // verus!
