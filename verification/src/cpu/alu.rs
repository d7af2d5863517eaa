use vstd::prelude::*;
use crate::bits::{field, rotate_right32, rotr32, take_field};
use crate::cpu::{Arm11Cpu, CpuModel, FLAG_I, FLAG_N, FLAG_T, LR_INDEX, MODE_ABT, MODE_IRQ,
    MODE_MASK, MODE_SVC, MODE_UND, MODE_USR, PC_INDEX};
use crate::memory::Memory;

verus! {

/// A shifted operand and the carry that the shifter puts out.
#[derive(Debug, Clone, Copy, PartialEq, Eq, Structural)]
pub struct Shifted {
    pub value: u32,
    pub carry: bool,
}

/// The barrel shifter with an immediate amount. An amount of zero has a special
/// meaning for each kind of shift: LSL #0 passes the value and the carry through,
/// LSR #0 and ASR #0 shift by 32, and ROR #0 rotates right by one through the
/// carry (RRX).
pub open spec fn shifter(value: u32, shift_imm: u32, shift_type: u32, carry_in: bool) -> Shifted {
    if shift_type == 0b00 {
        if shift_imm == 0 {
            Shifted { value, carry: carry_in }
        } else {
            Shifted {
                value: value << shift_imm,
                carry: ((value >> ((32 - shift_imm) as u32)) & 1) == 1,
            }
        }
    } else if shift_type == 0b01 {
        if shift_imm == 0 {
            Shifted { value: 0, carry: ((value >> 31u32) & 1) == 1 }
        } else {
            Shifted {
                value: value >> shift_imm,
                carry: ((value >> ((shift_imm - 1) as u32)) & 1) == 1,
            }
        }
    } else if shift_type == 0b10 {
        if shift_imm == 0 {
            Shifted {
                value: if value & FLAG_N != 0 {
                    u32::MAX
                } else {
                    0
                },
                carry: ((value >> 31u32) & 1) == 1,
            }
        } else {
            Shifted {
                value: ((value as i32) >> shift_imm) as u32,
                carry: ((value >> ((shift_imm - 1) as u32)) & 1) == 1,
            }
        }
    } else if shift_type == 0b11 {
        if shift_imm == 0 {
            Shifted {
                value: (if carry_in {
                    0x8000_0000u32
                } else {
                    0u32
                }) | (value >> 1u32),
                carry: (value & 1) == 1,
            }
        } else {
            Shifted {
                value: rotr32(value, shift_imm),
                carry: rotr32(value, shift_imm) & FLAG_N != 0,
            }
        }
    } else {
        Shifted { value, carry: carry_in }
    }
}

/// How an operation changes the condition flags.
#[derive(Debug, Clone, Copy, PartialEq, Eq, Structural)]
pub enum FlagUpdate {
    /// N and Z from the result, C from the shifter, V kept.
    Logical { result: u32, carry: bool },
    /// N and Z from the result, C and V from the operation.
    Arithmetic { result: u32, carry: bool, overflow: bool },
}

/// What a data-processing operation computes: the value written to the
/// destination, if it writes one, and the flags it sets when asked to.
#[derive(Debug, Clone, Copy, PartialEq, Eq, Structural)]
pub struct AluOutcome {
    pub write: Option<u32>,
    pub flags: FlagUpdate,
}

/// Flags of `a + b + carry`, the sum taken modulo 2^32.
pub open spec fn add_outcome(a: u32, b: u32, carry_in: bool) -> FlagUpdate {
    let c: u32 = if carry_in {
        1
    } else {
        0
    };
    let result = a.wrapping_add(b).wrapping_add(c);
    FlagUpdate::Arithmetic {
        result,
        carry: a + b + c > u32::MAX,
        overflow: ((!(a ^ b)) & (a ^ result) & FLAG_N) != 0,
    }
}

/// Flags of `a - b - borrow`, the difference taken modulo 2^32. The carry flag is
/// the inverse of the borrow.
pub open spec fn sub_outcome(a: u32, b: u32, borrow_in: bool) -> FlagUpdate {
    let c: u32 = if borrow_in {
        1
    } else {
        0
    };
    let result = a.wrapping_sub(b).wrapping_sub(c);
    FlagUpdate::Arithmetic {
        result,
        carry: a - b - c >= 0,
        overflow: ((a ^ b) & (a ^ result) & FLAG_N) != 0,
    }
}

pub open spec fn flag_result(flags: FlagUpdate) -> u32 {
    match flags {
        FlagUpdate::Logical { result, .. } => result,
        FlagUpdate::Arithmetic { result, .. } => result,
    }
}

/// The sixteen data-processing operations: AND, EOR, SUB, RSB, ADD, ADC, SBC, RSC,
/// TST, TEQ, CMP, CMN, ORR, MOV, BIC, MVN. The four test operations write nothing.
pub open spec fn alu(op: u32, lhs: u32, rhs: u32, carry_in: bool, shifter_carry: bool) -> AluOutcome {
    if op == 0x2 {
        let f = sub_outcome(lhs, rhs, false);
        AluOutcome { write: Some(flag_result(f)), flags: f }
    } else if op == 0x3 {
        let f = sub_outcome(rhs, lhs, false);
        AluOutcome { write: Some(flag_result(f)), flags: f }
    } else if op == 0x4 {
        let f = add_outcome(lhs, rhs, false);
        AluOutcome { write: Some(flag_result(f)), flags: f }
    } else if op == 0x5 {
        let f = add_outcome(lhs, rhs, carry_in);
        AluOutcome { write: Some(flag_result(f)), flags: f }
    } else if op == 0x6 {
        let f = sub_outcome(lhs, rhs, !carry_in);
        AluOutcome { write: Some(flag_result(f)), flags: f }
    } else if op == 0x7 {
        let f = sub_outcome(rhs, lhs, !carry_in);
        AluOutcome { write: Some(flag_result(f)), flags: f }
    } else if op == 0xA {
        AluOutcome { write: None, flags: sub_outcome(lhs, rhs, false) }
    } else if op == 0xB {
        AluOutcome { write: None, flags: add_outcome(lhs, rhs, false) }
    } else {
        let result = if op == 0x0 || op == 0x8 {
            lhs & rhs
        } else if op == 0x1 || op == 0x9 {
            lhs ^ rhs
        } else if op == 0xC {
            lhs | rhs
        } else if op == 0xD {
            rhs
        } else if op == 0xE {
            lhs & !rhs
        } else {
            !rhs
        };
        AluOutcome {
            write: if op == 0x8 || op == 0x9 {
                None
            } else {
                Some(result)
            },
            flags: FlagUpdate::Logical { result, carry: shifter_carry },
        }
    }
}

/// Branch target: the 24-bit offset, shifted left by two and sign-extended, added
/// to the address of the branch plus eight.
pub open spec fn branch_target(opcode: u32, pc: u32) -> u32 {
    let raw = (opcode & 0x00FF_FFFF) << 2u32;
    let offset = if raw & 0x0200_0000 != 0 {
        raw | 0xFC00_0000
    } else {
        raw
    };
    pc.wrapping_add(8).wrapping_add(offset)
}

pub open spec fn is_banked_mode(mode: u32) -> bool {
    mode == MODE_USR || mode == MODE_SVC || mode == MODE_IRQ || mode == MODE_UND || mode
        == MODE_ABT
}

/// The CPU and whether the instruction was one of the group that was tried.
pub struct Handled {
    pub cpu: CpuModel,
    pub handled: bool,
}

impl CpuModel {
    pub open spec fn apply_flags(self, flags: FlagUpdate) -> CpuModel {
        match flags {
            FlagUpdate::Logical { result, carry } => self.with_nzcv_logical(result, carry),
            FlagUpdate::Arithmetic { result, carry, overflow } => self.with_nzcv_arithmetic(
                result,
                carry,
                overflow,
            ),
        }
    }

    /// The second operand of a data-processing instruction: an eight-bit immediate
    /// rotated right by twice the rotate field, or a register shifted by an
    /// immediate amount.
    pub open spec fn operand2(self, opcode: u32) -> Shifted {
        if field(opcode, 25, 1) == 1 {
            let rotate = (field(opcode, 8, 0xF) * 2) as u32;
            let value = rotr32(opcode & 0xFF, rotate);
            Shifted {
                value,
                carry: if rotate == 0 {
                    self.carry()
                } else {
                    value & FLAG_N != 0
                },
            }
        } else {
            shifter(
                self.regs[field(opcode, 0, 0xF) as int],
                field(opcode, 7, 0x1F),
                field(opcode, 5, 0x3),
                self.carry(),
            )
        }
    }

    /// A data-processing instruction. A write to PC with the S flag set returns
    /// from an exception: the status word is restored from the SPSR.
    pub open spec fn data_processing(self, opcode: u32) -> CpuModel {
        let set_flags = field(opcode, 20, 1) == 1;
        let rd = field(opcode, 12, 0xF) as int;
        let operand = self.operand2(opcode);
        let outcome = alu(
            field(opcode, 21, 0xF),
            self.regs[field(opcode, 16, 0xF) as int],
            operand.value,
            self.carry(),
            operand.carry,
        );
        let written = match outcome.write {
            Some(value) => CpuModel { regs: self.regs.update(rd, value), ..self },
            None => self,
        };
        let flagged = if set_flags {
            written.apply_flags(outcome.flags)
        } else {
            written
        };
        if outcome.write is Some && set_flags && rd == 15 {
            flagged.restore_cpsr_from_spsr()
        } else {
            flagged
        }
    }

    /// Whether the instruction is BX.
    pub open spec fn is_bx(opcode: u32) -> bool {
        opcode & 0x0FFF_FFF0 == 0x012F_FF10
    }

    /// BX: the low bit of the target selects Thumb state, and PC takes the target
    /// with the low bit cleared.
    pub open spec fn bx(self, opcode: u32) -> CpuModel {
        let target = self.regs[field(opcode, 0, 0xF) as int];
        let switched = self.set_flag(FLAG_T, (target & 1) != 0);
        CpuModel { regs: switched.regs.update(15, target & !1u32), ..switched }
    }

    pub open spec fn is_multiply(opcode: u32) -> bool {
        opcode & 0x0FC0_00F0 == 0x0000_0090
    }

    /// MUL and MLA: the product modulo 2^32, plus the accumulator for MLA.
    pub open spec fn multiply(self, opcode: u32) -> CpuModel {
        let product = self.regs[field(opcode, 0, 0xF) as int].wrapping_mul(
            self.regs[field(opcode, 8, 0xF) as int],
        );
        let result = if field(opcode, 21, 1) == 1 {
            product.wrapping_add(self.regs[field(opcode, 12, 0xF) as int])
        } else {
            product
        };
        let written = CpuModel {
            regs: self.regs.update(field(opcode, 16, 0xF) as int, result),
            ..self
        };
        if field(opcode, 20, 1) == 1 {
            written.with_nzcv_logical(result, self.carry())
        } else {
            written
        }
    }

    /// B and BL.
    pub open spec fn branch(self, opcode: u32, pc: u32) -> CpuModel {
        let linked = if field(opcode, 24, 1) == 1 {
            CpuModel { regs: self.regs.update(14, pc.wrapping_add(4)), ..self }
        } else {
            self
        };
        CpuModel { regs: linked.regs.update(15, branch_target(opcode, pc)), ..linked }
    }

    /// MSR from a register: the condition flags are always written; mode, Thumb
    /// state and the interrupt mask only in a privileged mode.
    pub open spec fn msr(self, opcode: u32) -> CpuModel {
        let value = self.regs[field(opcode, 0, 0xF) as int];
        let flagged = CpuModel {
            cpsr: (self.cpsr & !0xF000_0000u32) | (value & 0xF000_0000) | (self.cpsr & MODE_MASK),
            ..self
        };
        if flagged.is_privileged() {
            let moded = if is_banked_mode(value & MODE_MASK) {
                flagged.switch_mode(value & MODE_MASK)
            } else {
                flagged
            };
            moded.set_flag(FLAG_T, (value & FLAG_T) != 0).set_flag(FLAG_I, (value & FLAG_I) != 0)
        } else {
            flagged
        }
    }

    /// The system instructions: barriers and CPS are accepted and do nothing, MRS
    /// reads the status word or the saved one, MSR writes the status word.
    pub open spec fn system(self, opcode: u32) -> Handled {
        if opcode == 0xF57F_F05F || opcode == 0xF57F_F04F {
            Handled { cpu: self, handled: true }
        } else if opcode & 0x0FF0_00F0 == 0x0160_0010 {
            Handled { cpu: self, handled: true }
        } else if opcode & 0x0FBF_0FFF == 0x010F_0000 {
            let value = if field(opcode, 22, 1) == 1 {
                match self.current_spsr() {
                    Some(saved) => saved,
                    None => self.cpsr,
                }
            } else {
                self.cpsr
            };
            Handled {
                cpu: CpuModel { regs: self.regs.update(field(opcode, 12, 0xF) as int, value), ..self },
                handled: true,
            }
        } else if opcode & 0x0FB0_FFF0 == 0x0120_F000 {
            Handled { cpu: self.msr(opcode), handled: true }
        } else {
            Handled { cpu: self, handled: false }
        }
    }

    /// Whether the instruction is a register transfer to or from coprocessor 15.
    pub open spec fn is_cp15_transfer(opcode: u32) -> bool {
        (opcode & 0x0F00_0010) == 0x0E00_0010 && field(opcode, 8, 0xF) == 15
    }

    /// MRC and MCR on coprocessor 15. A write of the control word, of TTBR0 or of
    /// the DACR reaches the MMU, and the TLB-invalidate operations flush the TLB.
    pub open spec fn cp15_transfer(self, opcode: u32) -> CpuModel {
        let rd = field(opcode, 12, 0xF) as int;
        let crn = field(opcode, 16, 0xF);
        let crm = field(opcode, 0, 0xF);
        let opc2 = field(opcode, 5, 0x7);
        let direct = crm == 0 && opc2 == 0 && (crn == 1 || crn == 2 || crn == 3);
        if field(opcode, 20, 1) == 1 {
            let value = if direct {
                self.cp15_regs[crn as int]
            } else {
                self.cp15_regs[crm as int]
            };
            CpuModel { regs: self.regs.update(rd, value), ..self }
        } else {
            let value = self.regs[rd];
            let stored = self.cp15_regs.update(crm as int, value);
            if direct {
                CpuModel {
                    cp15_regs: stored.update(crn as int, value),
                    mmu: if crn == 1 {
                        self.mmu.after_control_write(value)
                    } else if crn == 2 {
                        self.mmu.after_ttbr0_write(value)
                    } else {
                        self.mmu.after_dacr_write(value)
                    },
                    ..self
                }
            } else if crn == 8 && opc2 == 0 && (crm == 7 || crm == 5 || crm == 6) {
                CpuModel { cp15_regs: stored, mmu: self.mmu.flushed(), ..self }
            } else {
                CpuModel { cp15_regs: stored, ..self }
            }
        }
    }

    pub open spec fn coprocessor(self, opcode: u32) -> Handled {
        if Self::is_cp15_transfer(opcode) {
            Handled { cpu: self.cp15_transfer(opcode), handled: true }
        } else {
            Handled { cpu: self, handled: false }
        }
    }
}

/// The barrel shifter.
pub fn shift_value(value: u32, shift_imm: u32, shift_type: u32, carry_in: bool) -> (shifted:
    Shifted)
    requires
        shift_imm < 32,
    ensures
        shifted == shifter(value, shift_imm, shift_type, carry_in),
{
    if shift_type == 0b00 {
        if shift_imm == 0 {
            Shifted { value, carry: carry_in }
        } else {
            Shifted { value: value << shift_imm, carry: ((value >> (32 - shift_imm)) & 1) == 1 }
        }
    } else if shift_type == 0b01 {
        if shift_imm == 0 {
            Shifted { value: 0, carry: ((value >> 31u32) & 1) == 1 }
        } else {
            Shifted { value: value >> shift_imm, carry: ((value >> (shift_imm - 1)) & 1) == 1 }
        }
    } else if shift_type == 0b10 {
        if shift_imm == 0 {
            Shifted {
                value: if value & FLAG_N != 0 {
                    u32::MAX
                } else {
                    0
                },
                carry: ((value >> 31u32) & 1) == 1,
            }
        } else {
            Shifted {
                value: ((value as i32) >> shift_imm) as u32,
                carry: ((value >> (shift_imm - 1)) & 1) == 1,
            }
        }
    } else if shift_type == 0b11 {
        if shift_imm == 0 {
            Shifted {
                value: (if carry_in {
                    0x8000_0000u32
                } else {
                    0u32
                }) | (value >> 1u32),
                carry: (value & 1) == 1,
            }
        } else {
            let rotated = rotate_right32(value, shift_imm);
            Shifted { value: rotated, carry: rotated & FLAG_N != 0 }
        }
    } else {
        Shifted { value, carry: carry_in }
    }
}

pub fn add_with_flags(a: u32, b: u32, carry_in: bool) -> (flags: FlagUpdate)
    ensures
        flags == add_outcome(a, b, carry_in),
{
    let c: u32 = if carry_in {
        1
    } else {
        0
    };
    let result = a.wrapping_add(b).wrapping_add(c);
    let wide: u64 = a as u64 + b as u64 + c as u64;
    FlagUpdate::Arithmetic {
        result,
        carry: wide > 0xFFFF_FFFF,
        overflow: ((!(a ^ b)) & (a ^ result) & FLAG_N) != 0,
    }
}

pub fn sub_with_flags(a: u32, b: u32, borrow_in: bool) -> (flags: FlagUpdate)
    ensures
        flags == sub_outcome(a, b, borrow_in),
{
    let c: u32 = if borrow_in {
        1
    } else {
        0
    };
    let result = a.wrapping_sub(b).wrapping_sub(c);
    FlagUpdate::Arithmetic {
        result,
        carry: a as u64 >= b as u64 + c as u64,
        overflow: ((a ^ b) & (a ^ result) & FLAG_N) != 0,
    }
}

pub fn flags_value(flags: FlagUpdate) -> (result: u32)
    ensures
        result == flag_result(flags),
{
    match flags {
        FlagUpdate::Logical { result, .. } => result,
        FlagUpdate::Arithmetic { result, .. } => result,
    }
}

/// Computes one of the sixteen data-processing operations.
pub fn alu_compute(op: u32, lhs: u32, rhs: u32, carry_in: bool, shifter_carry: bool) -> (outcome:
    AluOutcome)
    ensures
        outcome == alu(op, lhs, rhs, carry_in, shifter_carry),
{
    if op == 0x2 {
        let f = sub_with_flags(lhs, rhs, false);
        AluOutcome { write: Some(flags_value(f)), flags: f }
    } else if op == 0x3 {
        let f = sub_with_flags(rhs, lhs, false);
        AluOutcome { write: Some(flags_value(f)), flags: f }
    } else if op == 0x4 {
        let f = add_with_flags(lhs, rhs, false);
        AluOutcome { write: Some(flags_value(f)), flags: f }
    } else if op == 0x5 {
        let f = add_with_flags(lhs, rhs, carry_in);
        AluOutcome { write: Some(flags_value(f)), flags: f }
    } else if op == 0x6 {
        let f = sub_with_flags(lhs, rhs, !carry_in);
        AluOutcome { write: Some(flags_value(f)), flags: f }
    } else if op == 0x7 {
        let f = sub_with_flags(rhs, lhs, !carry_in);
        AluOutcome { write: Some(flags_value(f)), flags: f }
    } else if op == 0xA {
        AluOutcome { write: None, flags: sub_with_flags(lhs, rhs, false) }
    } else if op == 0xB {
        AluOutcome { write: None, flags: add_with_flags(lhs, rhs, false) }
    } else {
        let result = if op == 0x0 || op == 0x8 {
            lhs & rhs
        } else if op == 0x1 || op == 0x9 {
            lhs ^ rhs
        } else if op == 0xC {
            lhs | rhs
        } else if op == 0xD {
            rhs
        } else if op == 0xE {
            lhs & !rhs
        } else {
            !rhs
        };
        AluOutcome {
            write: if op == 0x8 || op == 0x9 {
                None
            } else {
                Some(result)
            },
            flags: FlagUpdate::Logical { result, carry: shifter_carry },
        }
    }
}

impl Arm11Cpu {
    pub(crate) fn apply_flags(&mut self, flags: FlagUpdate)
        ensures
            final(self)@ == old(self)@.apply_flags(flags),
    {
        match flags {
            FlagUpdate::Logical { result, carry } => self.update_nzcv_logical(result, carry),
            FlagUpdate::Arithmetic { result, carry, overflow } => self.update_nzcv_arithmetic(
                result,
                carry,
                overflow,
            ),
        }
    }

    pub(crate) fn operand2(&self, opcode: u32) -> (operand: Shifted)
        ensures
            operand == self@.operand2(opcode),
    {
        if take_field(opcode, 25, 1) == 1 {
            let rotate = take_field(opcode, 8, 0xF) * 2;
            let value = rotate_right32(opcode & 0xFF, rotate);
            Shifted {
                value,
                carry: if rotate == 0 {
                    self.carry_flag()
                } else {
                    value & FLAG_N != 0
                },
            }
        } else {
            let rm = take_field(opcode, 0, 0xF) as usize;
            shift_value(
                self.regs[rm],
                take_field(opcode, 7, 0x1F),
                take_field(opcode, 5, 0x3),
                self.carry_flag(),
            )
        }
    }

    /// Executes a data-processing instruction; every encoding of the group is one
    /// of the sixteen operations.
    pub(crate) fn exec_data_processing(&mut self, opcode: u32) -> (handled: bool)
        ensures
            handled,
            final(self)@ == old(self)@.data_processing(opcode),
    {
        let set_flags = take_field(opcode, 20, 1) == 1;
        let rn = take_field(opcode, 16, 0xF) as usize;
        let rd = take_field(opcode, 12, 0xF) as usize;
        let operand = self.operand2(opcode);
        let outcome = alu_compute(
            take_field(opcode, 21, 0xF),
            self.regs[rn],
            operand.value,
            self.carry_flag(),
            operand.carry,
        );
        match outcome.write {
            Some(value) => {
                self.regs[rd] = value;
            },
            None => {},
        }
        if set_flags {
            self.apply_flags(outcome.flags);
        }
        if outcome.write.is_some() && set_flags && rd == PC_INDEX {
            self.restore_cpsr_from_spsr();
        }
        true
    }

    pub(crate) fn exec_bx(&mut self, opcode: u32) -> (handled: bool)
        ensures
            handled == CpuModel::is_bx(opcode),
            final(self)@ == if handled {
                old(self)@.bx(opcode)
            } else {
                old(self)@
            },
    {
        if opcode & 0x0FFF_FFF0 == 0x012F_FF10 {
            let rm = take_field(opcode, 0, 0xF) as usize;
            let target = self.regs[rm];
            self.set_thumb_state((target & 1) != 0);
            self.regs[PC_INDEX] = target & !1u32;
            true
        } else {
            false
        }
    }

    pub(crate) fn exec_multiply(&mut self, opcode: u32) -> (handled: bool)
        ensures
            handled == CpuModel::is_multiply(opcode),
            final(self)@ == if handled {
                old(self)@.multiply(opcode)
            } else {
                old(self)@
            },
    {
        if opcode & 0x0FC0_00F0 == 0x0000_0090 {
            let accumulate = take_field(opcode, 21, 1) == 1;
            let set_flags = take_field(opcode, 20, 1) == 1;
            let rd = take_field(opcode, 16, 0xF) as usize;
            let rn = take_field(opcode, 12, 0xF) as usize;
            let rs = take_field(opcode, 8, 0xF) as usize;
            let rm = take_field(opcode, 0, 0xF) as usize;
            let mut result = self.regs[rm].wrapping_mul(self.regs[rs]);
            if accumulate {
                result = result.wrapping_add(self.regs[rn]);
            }
            let carry = self.carry_flag();
            self.regs[rd] = result;
            if set_flags {
                self.update_nzcv_logical(result, carry);
            }
            true
        } else {
            false
        }
    }

    pub(crate) fn exec_branch(&mut self, opcode: u32, pc: u32)
        ensures
            final(self)@ == old(self)@.branch(opcode, pc),
    {
        let link = take_field(opcode, 24, 1) == 1;
        let raw = (opcode & 0x00FF_FFFF) << 2u32;
        let offset = if raw & 0x0200_0000 != 0 {
            raw | 0xFC00_0000
        } else {
            raw
        };
        if link {
            self.regs[LR_INDEX] = pc.wrapping_add(4);
        }
        self.regs[PC_INDEX] = pc.wrapping_add(8).wrapping_add(offset);
    }

    pub(crate) fn exec_system(&mut self, opcode: u32) -> (handled: bool)
        ensures
            handled == old(self)@.system(opcode).handled,
            final(self)@ == old(self)@.system(opcode).cpu,
    {
        if opcode == 0xF57F_F05F || opcode == 0xF57F_F04F {
            return true;
        }
        if opcode & 0x0FF0_00F0 == 0x0160_0010 {
            return true;
        }
        if opcode & 0x0FBF_0FFF == 0x010F_0000 {
            let rd = take_field(opcode, 12, 0xF) as usize;
            let value = if take_field(opcode, 22, 1) == 1 {
                match self.current_spsr() {
                    Some(saved) => saved,
                    None => self.cpsr,
                }
            } else {
                self.cpsr
            };
            self.regs[rd] = value;
            return true;
        }
        if opcode & 0x0FB0_FFF0 == 0x0120_F000 {
            let rm = take_field(opcode, 0, 0xF) as usize;
            let value = self.regs[rm];
            self.cpsr = (self.cpsr & !0xF000_0000u32) | (value & 0xF000_0000) | (self.cpsr
                & MODE_MASK);
            if self.is_privileged() {
                let new_mode = value & MODE_MASK;
                if new_mode == MODE_USR || new_mode == MODE_SVC || new_mode == MODE_IRQ
                    || new_mode == MODE_UND || new_mode == MODE_ABT {
                    self.switch_mode(new_mode);
                }
                self.set_thumb_state((value & FLAG_T) != 0);
                self.set_flag(FLAG_I, (value & FLAG_I) != 0);
            }
            return true;
        }
        false
    }

    /// Executes MRC or MCR on coprocessor 15; any other instruction is left alone.
    pub fn exec_coprocessor(&mut self, opcode: u32, memory: &mut Memory) -> (handled: bool)
        ensures
            handled == old(self)@.coprocessor(opcode).handled,
            final(self)@ == old(self)@.coprocessor(opcode).cpu,
            final(memory)@ == old(memory)@,
    {
        if (opcode & 0x0F00_0010) != 0x0E00_0010 {
            return false;
        }
        if take_field(opcode, 8, 0xF) != 15 {
            return false;
        }
        let rd = take_field(opcode, 12, 0xF) as usize;
        let crn = take_field(opcode, 16, 0xF);
        let crm = take_field(opcode, 0, 0xF);
        let opc2 = take_field(opcode, 5, 0x7);
        let direct = crm == 0 && opc2 == 0 && (crn == 1 || crn == 2 || crn == 3);
        if take_field(opcode, 20, 1) == 1 {
            let value = if direct {
                self.cp15_regs[crn as usize]
            } else {
                self.cp15_regs[crm as usize]
            };
            self.regs[rd] = value;
        } else {
            let value = self.regs[rd];
            self.cp15_regs[crm as usize] = value;
            if direct {
                self.cp15_regs[crn as usize] = value;
                if crn == 1 {
                    self.mmu.write_control(value);
                } else if crn == 2 {
                    self.mmu.write_ttbr0(value);
                } else {
                    self.mmu.write_dacr(value);
                }
            } else if crn == 8 && opc2 == 0 && (crm == 7 || crm == 5 || crm == 6) {
                self.mmu.invalidate_tlb();
            }
        }
        true
    }
}

/// LSL by zero passes the operand and the carry flag through; LSR by zero is a
/// shift by 32, which clears the result; ASR by zero is a shift by 32, which fills
/// the result with the sign; both put bit 31 in the carry; ROR by zero is RRX: the
/// carry flag enters at bit 31 and bit 0 leaves into the carry.
pub proof fn law_zero_shift_amounts(value: u32, carry_in: bool)
    ensures
        shifter(value, 0, 0b00, carry_in) == (Shifted { value, carry: carry_in }),
        shifter(value, 0, 0b01, carry_in).value == 0,
        shifter(value, 0, 0b01, carry_in).carry == (value >= 0x8000_0000),
        shifter(value, 0, 0b10, carry_in).value == if value >= 0x8000_0000 {
            0xFFFF_FFFFu32
        } else {
            0u32
        },
        shifter(value, 0, 0b10, carry_in).carry == (value >= 0x8000_0000),
        shifter(value, 0, 0b11, carry_in).value == (value / 2 + if carry_in {
            0x8000_0000int
        } else {
            0int
        }),
        shifter(value, 0, 0b11, carry_in).carry == (value % 2 == 1),
{
    assert(((value >> 31u32) & 1) == 1 <==> value >= 0x8000_0000) by (bit_vector);
    assert(value & 0x8000_0000 != 0 <==> value >= 0x8000_0000) by (bit_vector);
    assert((0x8000_0000u32 | (value >> 1u32)) == value / 2 + 0x8000_0000 && (0u32 | (value >> 1u32))
        == value / 2 && ((value & 1) == 1 <==> value % 2 == 1)) by (bit_vector);
}

/// BX to an odd address enters Thumb state and BX to an even address leaves it;
/// in both cases PC takes the target with its low bit cleared.
pub proof fn law_bx_selects_state(cpu: CpuModel, opcode: u32)
    requires
        cpu.well_formed(),
    ensures
        cpu.bx(opcode).is_thumb() == (cpu.regs[field(opcode, 0, 0xF) as int] % 2 == 1),
        cpu.bx(opcode).pc() == cpu.regs[field(opcode, 0, 0xF) as int] - cpu.regs[field(
            opcode,
            0,
            0xF,
        ) as int] % 2,
        cpu.bx(opcode).pc() % 2 == 0,
{
    let target = cpu.regs[field(opcode, 0, 0xF) as int];
    let cpsr = cpu.cpsr;
    assert(((target & 1) != 0 <==> target % 2 == 1) && (target & !1u32) == target - target % 2)
        by (bit_vector);
    assert((cpsr | 0x20u32) & 0x20u32 != 0 && (cpsr & !0x20u32) & 0x20u32 == 0) by (bit_vector);
}

} // verus!
