use vstd::prelude::*;
use crate::bits::{field, take_field};
use crate::cpu::status::condition_holds;
use crate::cpu::{
    Arm11Cpu, CpuModel, CpuRunState, ExceptionKind, FaultKind, OPCODE_WFI, PC_INDEX,
};
use crate::error::EmulatorError;
use crate::memory::{Memory, MemoryModel};

verus! {

/// The machine after one step: the CPU, the memory, and the cycles consumed.
pub struct Stepped {
    pub cpu: CpuModel,
    pub memory: MemoryModel,
    pub cycles: u32,
}

impl CpuModel {
    /// Execution of an ARM instruction that was fetched from `pc`, with PC already
    /// advanced. The groups are tried in a fixed order: condition check,
    /// wait-for-interrupt, software interrupt, system instructions, coprocessor 15,
    /// branches, word and byte transfers, multiply, half-word transfers, BX, data
    /// processing. Multiply and BX share their leading bits with the group that
    /// follows each of them, so they are told apart first. What no group accepts
    /// is an undefined instruction.
    pub open spec fn execute_arm(self, memory: MemoryModel, opcode: u32, pc: u32) -> Stepped {
        if !condition_holds(self.cpsr, opcode >> 28u32) {
            Stepped { cpu: self, memory, cycles: 1 }
        } else if opcode == OPCODE_WFI {
            Stepped { cpu: CpuModel { state: CpuRunState::Halted, ..self }, memory, cycles: 1 }
        } else if field(opcode, 24, 0xF) == 0xF {
            Stepped {
                cpu: self.take_exception(ExceptionKind::SoftwareInterrupt, pc, opcode, true),
                memory,
                cycles: 3,
            }
        } else if self.system(opcode).handled {
            Stepped { cpu: self.system(opcode).cpu, memory, cycles: 1 }
        } else if self.coprocessor(opcode).handled {
            Stepped { cpu: self.coprocessor(opcode).cpu, memory, cycles: 2 }
        } else if field(opcode, 25, 0x7) == 0b101 {
            Stepped { cpu: self.branch(opcode, pc), memory, cycles: 2 }
        } else if field(opcode, 26, 0x3) == 0b01 {
            let t = self.single_data_transfer(memory, opcode);
            Stepped {
                cpu: match t.fault {
                    Some(kind) => t.cpu.take_data_abort(kind, pc, opcode),
                    None => t.cpu,
                },
                memory: t.memory,
                cycles: 3,
            }
        } else if Self::is_multiply(opcode) {
            Stepped { cpu: self.multiply(opcode), memory, cycles: 2 }
        } else if field(opcode, 25, 0x7) == 0b000 && (opcode & 0x90) == 0x90 {
            let t = self.halfword_data_transfer(memory, opcode);
            Stepped {
                cpu: match t.fault {
                    Some(kind) => t.cpu.take_data_abort(kind, pc, opcode),
                    None => t.cpu,
                },
                memory: t.memory,
                cycles: if t.handled {
                    3
                } else {
                    1
                },
            }
        } else if Self::is_bx(opcode) {
            Stepped { cpu: self.bx(opcode), memory, cycles: 2 }
        } else if field(opcode, 26, 0x3) == 0b00 {
            Stepped { cpu: self.data_processing(opcode), memory, cycles: 1 }
        } else {
            Stepped {
                cpu: self.take_exception(ExceptionKind::UndefinedInstruction, pc, opcode, true),
                memory,
                cycles: 3,
            }
        }
    }

    /// One step in ARM state: fetch at PC, trace, advance PC by four, execute. A
    /// fetch fault is taken as a prefetch abort.
    pub open spec fn step_arm(self, memory: MemoryModel) -> Stepped {
        let pc = self.pc();
        let fetched = self.fetch_instruction(memory, pc);
        match fetched.result {
            Err(kind) => Stepped {
                cpu: fetched.cpu.take_prefetch_abort(kind, pc, 0),
                memory,
                cycles: 3,
            },
            Ok(opcode) => {
                let traced = fetched.cpu.traced(pc, opcode, false);
                (CpuModel {
                    regs: traced.regs.update(15, pc.wrapping_add(4)),
                    ..traced
                }).execute_arm(memory, opcode, pc)
            },
        }
    }

    /// Execution of a Thumb instruction that was fetched from `pc`, with PC already
    /// advanced: the register instructions, then the memory instructions; what
    /// neither accepts is an undefined instruction.
    pub open spec fn execute_thumb(self, memory: MemoryModel, opcode: u32, pc: u32) -> Stepped {
        if self.thumb_register_ops(opcode).handled {
            Stepped { cpu: self.thumb_register_ops(opcode).cpu, memory, cycles: 1 }
        } else if self.thumb_memory_ops(memory, opcode, pc).handled {
            Stepped {
                cpu: self.thumb_memory_ops(memory, opcode, pc).cpu,
                memory: self.thumb_memory_ops(memory, opcode, pc).memory,
                cycles: 1,
            }
        } else {
            Stepped {
                cpu: self.take_exception(ExceptionKind::UndefinedInstruction, pc, opcode, true),
                memory,
                cycles: 3,
            }
        }
    }

    /// One step in Thumb state: fetch at PC, trace, advance PC by two, execute.
    pub open spec fn step_thumb(self, memory: MemoryModel) -> Stepped {
        let pc = self.pc();
        let fetched = self.fetch_thumb_instruction(memory, pc);
        match fetched.result {
            Err(kind) => Stepped {
                cpu: fetched.cpu.take_prefetch_abort(kind, pc, 0),
                memory,
                cycles: 3,
            },
            Ok(opcode) => {
                let traced = fetched.cpu.traced(pc, opcode, true);
                (CpuModel {
                    regs: traced.regs.update(15, pc.wrapping_add(2)),
                    ..traced
                }).execute_thumb(memory, opcode, pc)
            },
        }
    }

    /// One step of the CPU. The per-step trace entry, MMU fault and exception
    /// are cleared first. A halted CPU does nothing and consumes one cycle.
    #[verifier::opaque]
    pub open spec fn step(self, memory: MemoryModel) -> Stepped {
        let cleared = CpuModel {
            last_trace_entry: None,
            last_mmu_fault: None,
            step_exception: None,
            ..self
        };
        if cleared.state == CpuRunState::Halted {
            Stepped { cpu: cleared, memory, cycles: 1 }
        } else if cleared.is_thumb() {
            cleared.step_thumb(memory)
        } else {
            cleared.step_arm(memory)
        }
    }
}

impl Arm11Cpu {
    /// Executes one instruction in the current state (ARM or Thumb) and returns
    /// the cycles consumed. Faults are not errors of the step: they are taken as
    /// exceptions and recorded on the CPU.
    pub fn step(&mut self, memory: &mut Memory) -> (result: Result<u32, EmulatorError>)
        ensures
            result == Ok::<u32, EmulatorError>(old(self)@.step(old(memory)@).cycles),
            final(self)@ == old(self)@.step(old(memory)@).cpu,
            final(memory)@ == old(self)@.step(old(memory)@).memory,
    {
        reveal(CpuModel::step);
        self.last_trace_entry = None;
        self.last_mmu_fault = None;
        self.step_exception = None;
        if self.state == CpuRunState::Halted {
            return Ok(1);
        }
        if self.is_thumb() {
            Ok(self.step_thumb(memory))
        } else {
            Ok(self.step_arm(memory))
        }
    }

    pub(crate) fn step_arm(&mut self, memory: &mut Memory) -> (cycles: u32)
        ensures
            cycles == old(self)@.step_arm(old(memory)@).cycles,
            final(self)@ == old(self)@.step_arm(old(memory)@).cpu,
            final(memory)@ == old(self)@.step_arm(old(memory)@).memory,
    {
        let pc = self.pc();
        let opcode = match self.fetch_instruction(memory, pc) {
            Ok(opcode) => opcode,
            Err(kind) => {
                self.take_prefetch_abort(kind, pc, 0);
                return 3;
            },
        };
        self.record_trace(pc, opcode, false);
        self.regs[PC_INDEX] = pc.wrapping_add(4);
        self.execute_arm(memory, opcode, pc)
    }

    pub(crate) fn execute_arm(&mut self, memory: &mut Memory, opcode: u32, pc: u32) -> (cycles: u32)
        ensures
            cycles == old(self)@.execute_arm(old(memory)@, opcode, pc).cycles,
            final(self)@ == old(self)@.execute_arm(old(memory)@, opcode, pc).cpu,
            final(memory)@ == old(self)@.execute_arm(old(memory)@, opcode, pc).memory,
    {
        if !self.condition_passed(opcode >> 28u32) {
            return 1;
        }
        if opcode == OPCODE_WFI {
            self.state = CpuRunState::Halted;
            return 1;
        }
        if take_field(opcode, 24, 0xF) == 0xF {
            self.take_exception(ExceptionKind::SoftwareInterrupt, pc, opcode, true);
            return 3;
        }
        if self.exec_system(opcode) {
            return 1;
        }
        if self.exec_coprocessor(opcode, memory) {
            return 2;
        }
        if take_field(opcode, 25, 0x7) == 0b101 {
            self.exec_branch(opcode, pc);
            return 2;
        }
        if take_field(opcode, 26, 0x3) == 0b01 {
            match self.exec_single_data_transfer(opcode, memory) {
                None => {},
                Some(kind) => {
                    self.take_data_abort(kind, pc, opcode);
                },
            }
            return 3;
        }
        if self.exec_multiply(opcode) {
            return 2;
        }
        if take_field(opcode, 25, 0x7) == 0b000 && (opcode & 0x90) == 0x90 {
            let (handled, fault) = self.exec_halfword_data_transfer(opcode, memory);
            match fault {
                None => {},
                Some(kind) => {
                    self.take_data_abort(kind, pc, opcode);
                },
            }
            return if handled {
                3
            } else {
                1
            };
        }
        if self.exec_bx(opcode) {
            return 2;
        }
        if take_field(opcode, 26, 0x3) == 0b00 {
            if self.exec_data_processing(opcode) {
                return 1;
            }
        }
        self.take_exception(ExceptionKind::UndefinedInstruction, pc, opcode, true);
        3
    }

    pub(crate) fn step_thumb(&mut self, memory: &mut Memory) -> (cycles: u32)
        ensures
            cycles == old(self)@.step_thumb(old(memory)@).cycles,
            final(self)@ == old(self)@.step_thumb(old(memory)@).cpu,
            final(memory)@ == old(self)@.step_thumb(old(memory)@).memory,
    {
        let pc = self.pc();
        let opcode = match self.fetch_thumb_instruction(memory, pc) {
            Ok(opcode) => opcode,
            Err(kind) => {
                self.take_prefetch_abort(kind, pc, 0);
                return 3;
            },
        };
        self.record_trace(pc, opcode, true);
        self.regs[PC_INDEX] = pc.wrapping_add(2);
        if self.exec_thumb_shift_imm(opcode) || self.exec_thumb_add_sub(opcode)
            || self.exec_thumb_mov_compare_add_sub_imm(opcode) || self.exec_thumb_hi_reg_bx(opcode)
            || self.exec_thumb_cond_branch(opcode) || self.exec_thumb_uncond_branch(opcode) {
            return 1;
        }
        if self.exec_thumb_ldr_literal(opcode, memory, pc) || self.exec_thumb_load_store_imm(
            opcode,
            memory,
            pc,
        ) {
            return 1;
        }
        self.take_exception(ExceptionKind::UndefinedInstruction, pc, opcode, true);
        3
    }
}

/// An instruction fetch is checked for alignment before anything else: in ARM
/// state a PC that is not a multiple of four, in Thumb state an odd PC, raises a
/// prefetch abort with the alignment kind and leaves the memory untouched.
pub proof fn law_unaligned_fetch_aborts(cpu: CpuModel, memory: MemoryModel)
    requires
        cpu.well_formed(),
    ensures
        cpu.pc() & 3 != 0 ==> cpu.step_arm(memory) == (Stepped {
            cpu: cpu.take_prefetch_abort(FaultKind::Alignment, cpu.pc(), 0),
            memory,
            cycles: 3,
        }),
        cpu.pc() & 1 != 0 ==> cpu.step_thumb(memory) == (Stepped {
            cpu: cpu.take_prefetch_abort(FaultKind::Alignment, cpu.pc(), 0),
            memory,
            cycles: 3,
        }),
{
}

/// The wait-for-interrupt instruction, once its condition passes, advances PC by
/// four and halts the CPU; a halted CPU then stays where it is.
pub proof fn law_wait_for_interrupt_halts(cpu: CpuModel, memory: MemoryModel, pc: u32)
    requires
        cpu.well_formed(),
        cpu.state == CpuRunState::Running,
        condition_holds(cpu.cpsr, OPCODE_WFI >> 28u32),
    ensures
        cpu.execute_arm(memory, OPCODE_WFI, pc).cpu.state == CpuRunState::Halted,
        cpu.execute_arm(memory, OPCODE_WFI, pc).cpu.regs == cpu.regs,
        cpu.execute_arm(memory, OPCODE_WFI, pc).memory == memory,
        (CpuModel { state: CpuRunState::Halted, ..cpu }).step(memory).cpu.regs == cpu.regs,
        (CpuModel { state: CpuRunState::Halted, ..cpu }).step(memory).memory == memory,
{
    reveal(CpuModel::step);
}

/// BX and multiply are reached by a step: an instruction of either form whose
/// condition passes is taken by no group in front of its own, and is executed
/// in two cycles without touching memory.
pub proof fn law_step_reaches_bx_and_multiply(
    cpu: CpuModel,
    memory: MemoryModel,
    opcode: u32,
    pc: u32,
)
    requires
        condition_holds(cpu.cpsr, opcode >> 28u32),
    ensures
        CpuModel::is_bx(opcode) ==> cpu.execute_arm(memory, opcode, pc) == (Stepped {
            cpu: cpu.bx(opcode),
            memory,
            cycles: 2,
        }),
        CpuModel::is_multiply(opcode) ==> cpu.execute_arm(memory, opcode, pc) == (Stepped {
            cpu: cpu.multiply(opcode),
            memory,
            cycles: 2,
        }),
{
    assert(opcode & 0x0FFF_FFF0 == 0x012F_FF10 ==> opcode != 0xE320_F003 && (opcode >> 24u32)
        & 0xF != 0xF && opcode != 0xF57F_F05F && opcode != 0xF57F_F04F && opcode & 0x0FF0_00F0
        != 0x0160_0010 && opcode & 0x0FBF_0FFF != 0x010F_0000 && opcode & 0x0FB0_FFF0
        != 0x0120_F000 && opcode & 0x0F00_0010 != 0x0E00_0010 && (opcode >> 25u32) & 0x7 != 0b101
        && (opcode >> 26u32) & 0x3 != 0b01 && opcode & 0x0FC0_00F0 != 0x0000_0090 && opcode & 0x90
        != 0x90) by (bit_vector);
    assert(opcode & 0x0FC0_00F0 == 0x0000_0090 ==> opcode != 0xE320_F003 && (opcode >> 24u32)
        & 0xF != 0xF && opcode != 0xF57F_F05F && opcode != 0xF57F_F04F && opcode & 0x0FF0_00F0
        != 0x0160_0010 && opcode & 0x0FBF_0FFF != 0x010F_0000 && opcode & 0x0FB0_FFF0
        != 0x0120_F000 && opcode & 0x0F00_0010 != 0x0E00_0010 && (opcode >> 25u32) & 0x7 != 0b101
        && (opcode >> 26u32) & 0x3 != 0b01) by (bit_vector);
}

/// The register that a BX names, as the instruction sees it: PC reads as the
/// address behind the instruction.
pub open spec fn bx_target(cpu: CpuModel, opcode: u32) -> u32 {
    if field(opcode, 0, 0xF) == 15 {
        cpu.pc().wrapping_add(4)
    } else {
        cpu.regs[field(opcode, 0, 0xF) as int]
    }
}

/// BX through a whole step: a CPU that runs in ARM state and fetches a BX whose
/// condition passes is afterwards in Thumb state exactly if the target is odd,
/// with PC at the target without its low bit. The step takes two cycles, leaves
/// the memory as it is and records no exception.
pub proof fn law_step_executes_bx(cpu: CpuModel, memory: MemoryModel, opcode: u32)
    requires
        cpu.well_formed(),
        cpu.state == CpuRunState::Running,
        !cpu.is_thumb(),
        cpu.fetch_instruction(memory, cpu.pc()).result == Ok::<u32, FaultKind>(opcode),
        CpuModel::is_bx(opcode),
        condition_holds(cpu.cpsr, opcode >> 28u32),
    ensures
        cpu.step(memory).cycles == 2,
        cpu.step(memory).memory == memory,
        cpu.step(memory).cpu.is_thumb() == (bx_target(cpu, opcode) % 2 == 1),
        cpu.step(memory).cpu.pc() == bx_target(cpu, opcode) - bx_target(cpu, opcode) % 2,
        cpu.step(memory).cpu.last_exception == cpu.last_exception,
        cpu.step(memory).cpu.step_exception is None,
{
    reveal(CpuModel::step);
    let cleared = CpuModel {
        last_trace_entry: None,
        last_mmu_fault: None,
        step_exception: None,
        ..cpu
    };
    let pc = cleared.pc();
    let fetched = cleared.fetch_instruction(memory, pc);
    assert(fetched.result == cpu.fetch_instruction(memory, cpu.pc()).result);
    let traced = fetched.cpu.traced(pc, opcode, false);
    let advanced = CpuModel { regs: traced.regs.update(15, pc.wrapping_add(4)), ..traced };
    assert(cleared.step_arm(memory) == advanced.execute_arm(memory, opcode, pc));
    law_step_reaches_bx_and_multiply(advanced, memory, opcode, pc);
    crate::cpu::alu::law_bx_selects_state(advanced, opcode);
    crate::bits::lemma_mask_bound(opcode >> 0u32, 0xF);
    assert(advanced.regs[field(opcode, 0, 0xF) as int] == bx_target(cpu, opcode));
}

/// A step records at most one exception: the exception of the step, where the
/// instruction raised one, is the last exception of the CPU.
#[verifier::rlimit(100)]
pub proof fn law_step_records_one_exception(cpu: CpuModel, memory: MemoryModel)
    requires
        cpu.well_formed(),
    ensures
        cpu.step(memory).cpu.step_exception is None || cpu.step(memory).cpu.step_exception
            == cpu.step(memory).cpu.last_exception,
{
    reveal(CpuModel::step);
    let cleared = CpuModel {
        last_trace_entry: None,
        last_mmu_fault: None,
        step_exception: None,
        ..cpu
    };
    if cleared.state == CpuRunState::Halted {
    } else if cleared.is_thumb() {
        lemma_thumb_step_exception(cleared, memory);
    } else {
        lemma_arm_step_exception(cleared, memory);
    }
}

/// An exception that was taken is both the exception of the step and the last
/// exception.
pub open spec fn exception_consistent(cpu: CpuModel) -> bool {
    cpu.step_exception is None || cpu.step_exception == cpu.last_exception
}

pub proof fn lemma_arm_step_exception(cpu: CpuModel, memory: MemoryModel)
    requires
        cpu.step_exception is None,
    ensures
        exception_consistent(cpu.step_arm(memory).cpu),
{
    let pc = cpu.pc();
    let fetched = cpu.fetch_instruction(memory, pc);
    match fetched.result {
        Err(kind) => {},
        Ok(opcode) => {
            let traced = fetched.cpu.traced(pc, opcode, false);
            let advanced = CpuModel { regs: traced.regs.update(15, pc.wrapping_add(4)), ..traced };
            assert(advanced.step_exception is None);
            lemma_execute_arm_exception(advanced, memory, opcode, pc);
        },
    }
}

#[verifier::rlimit(100)]
pub proof fn lemma_execute_arm_exception(cpu: CpuModel, memory: MemoryModel, opcode: u32, pc: u32)
    requires
        cpu.step_exception is None,
    ensures
        exception_consistent(cpu.execute_arm(memory, opcode, pc).cpu),
{
    let single = cpu.single_data_transfer(memory, opcode);
    assert(single.cpu.step_exception is None);
    let half = cpu.halfword_data_transfer(memory, opcode);
    assert(half.cpu.step_exception is None);
    assert(cpu.system(opcode).cpu.step_exception is None);
    assert(cpu.coprocessor(opcode).cpu.step_exception is None);
    assert(cpu.branch(opcode, pc).step_exception is None);
    assert(cpu.data_processing(opcode).step_exception is None);
    assert(cpu.multiply(opcode).step_exception is None);
    assert(cpu.bx(opcode).step_exception is None);
}

#[verifier::rlimit(100)]
pub proof fn lemma_thumb_step_exception(cpu: CpuModel, memory: MemoryModel)
    requires
        cpu.step_exception is None,
    ensures
        exception_consistent(cpu.step_thumb(memory).cpu),
{
    let pc = cpu.pc();
    let fetched = cpu.fetch_thumb_instruction(memory, pc);
    match fetched.result {
        Err(kind) => {},
        Ok(opcode) => {
            let traced = fetched.cpu.traced(pc, opcode, true);
            let advanced = CpuModel { regs: traced.regs.update(15, pc.wrapping_add(2)), ..traced };
            assert(advanced.step_exception is None);
            assert(advanced.thumb_register_ops(opcode).cpu.step_exception is None);
            let access = advanced.thumb_memory_ops(memory, opcode, pc);
            assert(exception_consistent(access.cpu));
        },
    }
}

} // verus!
