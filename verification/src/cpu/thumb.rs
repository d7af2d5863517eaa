use vstd::prelude::*;
use crate::bits::{field, lemma_mask_bound, take_field};
use crate::cpu::alu::{
    add_outcome, add_with_flags, flag_result, flags_value, shift_value, shifter, sub_outcome,
    sub_with_flags, Handled,
};
use crate::cpu::status::condition_holds;
use crate::cpu::transfer::{extend_byte, sign_extend_byte, Transferred};
use crate::cpu::{Arm11Cpu, CpuModel, FaultKind, FLAG_T, PC_INDEX};
use crate::error::MemoryAccessKind;
use crate::memory::{read_word, write_word, write_word_result, Memory, MemoryModel};

verus! {

/// Number of the high or low register that a Thumb instruction names with three
/// bits at `shift` and one more bit at `high`.
pub open spec fn hi_register(opcode: u32, shift: u32, high: u32) -> int {
    field(opcode, shift, 0x7) + 8 * field(opcode, high, 1)
}

/// Offset of an unconditional Thumb branch: eleven bits, doubled and sign-extended.
pub open spec fn thumb_branch_offset(opcode: u32) -> u32 {
    let raw = (opcode & 0x07FF) << 1u32;
    if raw & 0x0800 != 0 {
        raw | 0xFFFF_F000
    } else {
        raw
    }
}

/// Offset of a conditional Thumb branch: eight bits, sign-extended and doubled.
pub open spec fn thumb_cond_offset(opcode: u32) -> u32 {
    sign_extend_byte((opcode & 0xFF) as u8) << 1u32
}

impl CpuModel {
    pub open spec fn is_thumb_shift_imm(opcode: u32) -> bool {
        (opcode >> 13u32) == 0 && field(opcode, 11, 0x3) != 0b11
    }

    /// LSL, LSR and ASR by an immediate, with the zero amounts of the barrel shifter.
    pub open spec fn thumb_shift_imm(self, opcode: u32) -> CpuModel {
        let shifted = shifter(
            self.regs[field(opcode, 3, 0x7) as int],
            field(opcode, 6, 0x1F),
            field(opcode, 11, 0x3),
            self.carry(),
        );
        (CpuModel {
            regs: self.regs.update(field(opcode, 0, 0x7) as int, shifted.value),
            ..self
        }).with_nzcv_logical(shifted.value, shifted.carry)
    }

    pub open spec fn is_thumb_add_sub(opcode: u32) -> bool {
        (opcode & 0xF800) == 0x1800
    }

    /// ADD and SUB of a register or a three-bit immediate; the flags are always set.
    pub open spec fn thumb_add_sub(self, opcode: u32) -> CpuModel {
        let lhs = self.regs[field(opcode, 3, 0x7) as int];
        let rhs = if field(opcode, 10, 1) != 0 {
            field(opcode, 6, 0x7)
        } else {
            self.regs[field(opcode, 6, 0x7) as int]
        };
        let flags = if field(opcode, 9, 1) != 0 {
            sub_outcome(lhs, rhs, false)
        } else {
            add_outcome(lhs, rhs, false)
        };
        (CpuModel {
            regs: self.regs.update(field(opcode, 0, 0x7) as int, flag_result(flags)),
            ..self
        }).apply_flags(flags)
    }

    pub open spec fn is_thumb_immediate(opcode: u32) -> bool {
        (opcode & 0xE000) == 0x2000
    }

    /// MOV, CMP, ADD and SUB of an eight-bit immediate; CMP writes no register.
    pub open spec fn thumb_immediate(self, opcode: u32) -> CpuModel {
        let op = field(opcode, 11, 0x3);
        let rd = field(opcode, 8, 0x7) as int;
        let imm = opcode & 0xFF;
        let lhs = self.regs[rd];
        if op == 0b00 {
            (CpuModel { regs: self.regs.update(rd, imm), ..self }).with_nzcv_logical(
                imm,
                self.carry(),
            )
        } else if op == 0b01 {
            self.apply_flags(sub_outcome(lhs, imm, false))
        } else if op == 0b10 {
            (CpuModel {
                regs: self.regs.update(rd, flag_result(add_outcome(lhs, imm, false))),
                ..self
            }).apply_flags(add_outcome(lhs, imm, false))
        } else {
            (CpuModel {
                regs: self.regs.update(rd, flag_result(sub_outcome(lhs, imm, false))),
                ..self
            }).apply_flags(sub_outcome(lhs, imm, false))
        }
    }

    pub open spec fn is_thumb_hi_reg(opcode: u32) -> bool {
        (opcode & 0xFC00) == 0x4400
    }

    /// ADD, CMP and MOV on the full register file, and BX. Only CMP sets flags.
    pub open spec fn thumb_hi_reg(self, opcode: u32) -> CpuModel {
        let op = field(opcode, 8, 0x3);
        let rs = field(opcode, 3, 0xF) as int;
        let rd = hi_register(opcode, 0, 7);
        if op == 0b00 {
            CpuModel { regs: self.regs.update(rd, self.regs[rd].wrapping_add(self.regs[rs])), ..self }
        } else if op == 0b01 {
            self.apply_flags(sub_outcome(self.regs[rd], self.regs[rs], false))
        } else if op == 0b10 {
            CpuModel { regs: self.regs.update(rd, self.regs[rs]), ..self }
        } else {
            let target = self.regs[rs];
            let switched = self.set_flag(FLAG_T, (target & 1) != 0);
            CpuModel { regs: switched.regs.update(15, target & !1u32), ..switched }
        }
    }

    pub open spec fn is_thumb_cond_branch(opcode: u32) -> bool {
        (opcode & 0xF000) == 0xD000 && (opcode & 0x0F00) != 0x0F00
    }

    /// A conditional branch, relative to the address after the instruction.
    pub open spec fn thumb_cond_branch(self, opcode: u32) -> CpuModel {
        if condition_holds(self.cpsr, field(opcode, 8, 0xF)) {
            CpuModel {
                regs: self.regs.update(15, self.regs[15].wrapping_add(thumb_cond_offset(opcode))),
                ..self
            }
        } else {
            self
        }
    }

    pub open spec fn is_thumb_uncond_branch(opcode: u32) -> bool {
        (opcode & 0xF800) == 0xE000
    }

    pub open spec fn thumb_uncond_branch(self, opcode: u32) -> CpuModel {
        CpuModel {
            regs: self.regs.update(15, self.regs[15].wrapping_add(thumb_branch_offset(opcode))),
            ..self
        }
    }

    /// The Thumb instructions that touch only registers, tried in their order.
    pub open spec fn thumb_register_ops(self, opcode: u32) -> Handled {
        if Self::is_thumb_shift_imm(opcode) {
            Handled { cpu: self.thumb_shift_imm(opcode), handled: true }
        } else if Self::is_thumb_add_sub(opcode) {
            Handled { cpu: self.thumb_add_sub(opcode), handled: true }
        } else if Self::is_thumb_immediate(opcode) {
            Handled { cpu: self.thumb_immediate(opcode), handled: true }
        } else if Self::is_thumb_hi_reg(opcode) {
            Handled { cpu: self.thumb_hi_reg(opcode), handled: true }
        } else if Self::is_thumb_cond_branch(opcode) {
            Handled { cpu: self.thumb_cond_branch(opcode), handled: true }
        } else if Self::is_thumb_uncond_branch(opcode) {
            Handled { cpu: self.thumb_uncond_branch(opcode), handled: true }
        } else {
            Handled { cpu: self, handled: false }
        }
    }

    pub open spec fn is_thumb_ldr_literal(opcode: u32) -> bool {
        (opcode & 0xF800) == 0x4800
    }

    /// A word load or store at `address` for a Thumb instruction at `pc`. Every
    /// fault is taken as a data abort.
    pub open spec fn thumb_word_access(
        self,
        memory: MemoryModel,
        opcode: u32,
        pc: u32,
        address: u32,
        load: bool,
        rd: int,
    ) -> Transferred {
        if address & 3 != 0 {
            Transferred {
                cpu: self.take_data_abort(FaultKind::Alignment, pc, opcode),
                memory,
                fault: None,
                handled: true,
            }
        } else if load {
            let t = self.translate_va(memory, address, MemoryAccessKind::Read);
            match t.result {
                Err(kind) => Transferred {
                    cpu: t.cpu.take_data_abort(kind, pc, opcode),
                    memory,
                    fault: None,
                    handled: true,
                },
                Ok(pa) => match read_word(memory, pa) {
                    Ok(value) => Transferred {
                        cpu: CpuModel { regs: t.cpu.regs.update(rd, value), ..t.cpu },
                        memory,
                        fault: None,
                        handled: true,
                    },
                    Err(_) => Transferred {
                        cpu: t.cpu.take_data_abort(FaultKind::Translation, pc, opcode),
                        memory,
                        fault: None,
                        handled: true,
                    },
                },
            }
        } else {
            let t = self.translate_va(memory, address, MemoryAccessKind::Write);
            match t.result {
                Err(kind) => Transferred {
                    cpu: t.cpu.take_data_abort(kind, pc, opcode),
                    memory,
                    fault: None,
                    handled: true,
                },
                Ok(pa) => Transferred {
                    cpu: if write_word_result(memory, pa, self.regs[rd]) is Err {
                        t.cpu.take_data_abort(FaultKind::Translation, pc, opcode)
                    } else {
                        t.cpu
                    },
                    memory: write_word(memory, pa, self.regs[rd]),
                    fault: None,
                    handled: true,
                },
            }
        }
    }

    /// LDR from the literal pool: the word at PC, aligned down to four, plus the
    /// scaled eight-bit immediate.
    pub open spec fn thumb_ldr_literal(self, memory: MemoryModel, opcode: u32, pc: u32) -> Transferred {
        self.thumb_word_access(
            memory,
            opcode,
            pc,
            (self.regs[15] & !3u32).wrapping_add((opcode & 0xFF) << 2u32),
            true,
            field(opcode, 8, 0x7) as int,
        )
    }

    pub open spec fn is_thumb_load_store_imm(opcode: u32) -> bool {
        (opcode & 0xE000) == 0x6000
    }

    /// LDR and STR with a base register and a scaled five-bit immediate.
    pub open spec fn thumb_load_store_imm(self, memory: MemoryModel, opcode: u32, pc: u32) -> Transferred {
        self.thumb_word_access(
            memory,
            opcode,
            pc,
            self.regs[field(opcode, 3, 0x7) as int].wrapping_add(field(opcode, 6, 0x1F) << 2u32),
            field(opcode, 11, 1) != 0,
            field(opcode, 0, 0x7) as int,
        )
    }

    /// The Thumb instructions that access memory, tried in their order.
    pub open spec fn thumb_memory_ops(self, memory: MemoryModel, opcode: u32, pc: u32) -> Transferred {
        if Self::is_thumb_ldr_literal(opcode) {
            self.thumb_ldr_literal(memory, opcode, pc)
        } else if Self::is_thumb_load_store_imm(opcode) {
            self.thumb_load_store_imm(memory, opcode, pc)
        } else {
            Transferred { cpu: self, memory, fault: None, handled: false }
        }
    }
}

impl Arm11Cpu {
    pub(crate) fn exec_thumb_shift_imm(&mut self, opcode: u32) -> (handled: bool)
        ensures
            handled == CpuModel::is_thumb_shift_imm(opcode),
            final(self)@ == if handled {
                old(self)@.thumb_shift_imm(opcode)
            } else {
                old(self)@
            },
    {
        if (opcode >> 13u32) != 0 {
            return false;
        }
        let op = take_field(opcode, 11, 0x3);
        if op == 0b11 {
            return false;
        }
        let rs = take_field(opcode, 3, 0x7) as usize;
        let rd = take_field(opcode, 0, 0x7) as usize;
        let shifted = shift_value(self.regs[rs], take_field(opcode, 6, 0x1F), op, self.carry_flag());
        self.regs[rd] = shifted.value;
        self.update_nzcv_logical(shifted.value, shifted.carry);
        true
    }

    pub(crate) fn exec_thumb_add_sub(&mut self, opcode: u32) -> (handled: bool)
        ensures
            handled == CpuModel::is_thumb_add_sub(opcode),
            final(self)@ == if handled {
                old(self)@.thumb_add_sub(opcode)
            } else {
                old(self)@
            },
    {
        if (opcode & 0xF800) != 0x1800 {
            return false;
        }
        let rn_or_imm = take_field(opcode, 6, 0x7);
        let rs = take_field(opcode, 3, 0x7) as usize;
        let rd = take_field(opcode, 0, 0x7) as usize;
        let lhs = self.regs[rs];
        let rhs = if take_field(opcode, 10, 1) != 0 {
            rn_or_imm
        } else {
            self.regs[rn_or_imm as usize]
        };
        let flags = if take_field(opcode, 9, 1) != 0 {
            sub_with_flags(lhs, rhs, false)
        } else {
            add_with_flags(lhs, rhs, false)
        };
        self.regs[rd] = flags_value(flags);
        self.apply_flags(flags);
        true
    }

    pub(crate) fn exec_thumb_mov_compare_add_sub_imm(&mut self, opcode: u32) -> (handled: bool)
        ensures
            handled == CpuModel::is_thumb_immediate(opcode),
            final(self)@ == if handled {
                old(self)@.thumb_immediate(opcode)
            } else {
                old(self)@
            },
    {
        if (opcode & 0xE000) != 0x2000 {
            return false;
        }
        let op = take_field(opcode, 11, 0x3);
        let rd = take_field(opcode, 8, 0x7) as usize;
        let imm = opcode & 0xFF;
        let lhs = self.regs[rd];
        if op == 0b00 {
            let carry = self.carry_flag();
            self.regs[rd] = imm;
            self.update_nzcv_logical(imm, carry);
        } else if op == 0b01 {
            self.apply_flags(sub_with_flags(lhs, imm, false));
        } else if op == 0b10 {
            let flags = add_with_flags(lhs, imm, false);
            self.regs[rd] = flags_value(flags);
            self.apply_flags(flags);
        } else {
            let flags = sub_with_flags(lhs, imm, false);
            self.regs[rd] = flags_value(flags);
            self.apply_flags(flags);
        }
        true
    }

    pub(crate) fn exec_thumb_hi_reg_bx(&mut self, opcode: u32) -> (handled: bool)
        ensures
            handled == CpuModel::is_thumb_hi_reg(opcode),
            final(self)@ == if handled {
                old(self)@.thumb_hi_reg(opcode)
            } else {
                old(self)@
            },
    {
        if (opcode & 0xFC00) != 0x4400 {
            return false;
        }
        let op = take_field(opcode, 8, 0x3);
        let rs = take_field(opcode, 3, 0xF) as usize;
        let rd = (take_field(opcode, 0, 0x7) + 8 * take_field(opcode, 7, 1)) as usize;
        if op == 0b00 {
            self.regs[rd] = self.regs[rd].wrapping_add(self.regs[rs]);
        } else if op == 0b01 {
            self.apply_flags(sub_with_flags(self.regs[rd], self.regs[rs], false));
        } else if op == 0b10 {
            self.regs[rd] = self.regs[rs];
        } else {
            let target = self.regs[rs];
            self.set_thumb_state((target & 1) != 0);
            self.regs[PC_INDEX] = target & !1u32;
        }
        true
    }

    pub(crate) fn exec_thumb_cond_branch(&mut self, opcode: u32) -> (handled: bool)
        ensures
            handled == CpuModel::is_thumb_cond_branch(opcode),
            final(self)@ == if handled {
                old(self)@.thumb_cond_branch(opcode)
            } else {
                old(self)@
            },
    {
        if (opcode & 0xF000) != 0xD000 || (opcode & 0x0F00) == 0x0F00 {
            return false;
        }
        if !self.condition_passed(take_field(opcode, 8, 0xF)) {
            return true;
        }
        proof {
            lemma_mask_bound(opcode, 0xFF);
        }
        let offset = extend_byte((opcode & 0xFF) as u8) << 1u32;
        self.regs[PC_INDEX] = self.regs[PC_INDEX].wrapping_add(offset);
        true
    }

    pub(crate) fn exec_thumb_uncond_branch(&mut self, opcode: u32) -> (handled: bool)
        ensures
            handled == CpuModel::is_thumb_uncond_branch(opcode),
            final(self)@ == if handled {
                old(self)@.thumb_uncond_branch(opcode)
            } else {
                old(self)@
            },
    {
        if (opcode & 0xF800) != 0xE000 {
            return false;
        }
        let raw = (opcode & 0x07FF) << 1u32;
        let offset = if raw & 0x0800 != 0 {
            raw | 0xFFFF_F000
        } else {
            raw
        };
        self.regs[PC_INDEX] = self.regs[PC_INDEX].wrapping_add(offset);
        true
    }

    pub(crate) fn thumb_word_access(
        &mut self,
        memory: &mut Memory,
        opcode: u32,
        pc: u32,
        address: u32,
        load: bool,
        rd: usize,
    )
        requires
            rd < 16,
        ensures
            final(self)@ == old(self)@.thumb_word_access(
                old(memory)@,
                opcode,
                pc,
                address,
                load,
                rd as int,
            ).cpu,
            final(memory)@ == old(self)@.thumb_word_access(
                old(memory)@,
                opcode,
                pc,
                address,
                load,
                rd as int,
            ).memory,
    {
        if address & 3 != 0 {
            self.take_data_abort(FaultKind::Alignment, pc, opcode);
            return ;
        }
        if load {
            let pa = match self.translate_va(memory, address, MemoryAccessKind::Read) {
                Ok(pa) => pa,
                Err(kind) => {
                    self.take_data_abort(kind, pc, opcode);
                    return ;
                },
            };
            match memory.read_u32_checked(pa) {
                Ok(value) => {
                    self.regs[rd] = value;
                },
                Err(_) => {
                    self.take_data_abort(FaultKind::Translation, pc, opcode);
                },
            }
        } else {
            let stored = self.regs[rd];
            let pa = match self.translate_va(memory, address, MemoryAccessKind::Write) {
                Ok(pa) => pa,
                Err(kind) => {
                    self.take_data_abort(kind, pc, opcode);
                    return ;
                },
            };
            if memory.write_u32_checked(pa, stored).is_err() {
                self.take_data_abort(FaultKind::Translation, pc, opcode);
            }
        }
    }

    pub(crate) fn exec_thumb_ldr_literal(&mut self, opcode: u32, memory: &mut Memory, pc: u32) -> (handled:
        bool)
        ensures
            handled == CpuModel::is_thumb_ldr_literal(opcode),
            final(self)@ == if handled {
                old(self)@.thumb_ldr_literal(old(memory)@, opcode, pc).cpu
            } else {
                old(self)@
            },
            final(memory)@ == if handled {
                old(self)@.thumb_ldr_literal(old(memory)@, opcode, pc).memory
            } else {
                old(memory)@
            },
    {
        if (opcode & 0xF800) != 0x4800 {
            return false;
        }
        let rd = take_field(opcode, 8, 0x7) as usize;
        let address = (self.regs[PC_INDEX] & !3u32).wrapping_add((opcode & 0xFF) << 2u32);
        self.thumb_word_access(memory, opcode, pc, address, true, rd);
        true
    }

    pub(crate) fn exec_thumb_load_store_imm(&mut self, opcode: u32, memory: &mut Memory, pc: u32) -> (handled:
        bool)
        ensures
            handled == CpuModel::is_thumb_load_store_imm(opcode),
            final(self)@ == if handled {
                old(self)@.thumb_load_store_imm(old(memory)@, opcode, pc).cpu
            } else {
                old(self)@
            },
            final(memory)@ == if handled {
                old(self)@.thumb_load_store_imm(old(memory)@, opcode, pc).memory
            } else {
                old(memory)@
            },
    {
        if (opcode & 0xE000) != 0x6000 {
            return false;
        }
        let load = take_field(opcode, 11, 1) != 0;
        let rb = take_field(opcode, 3, 0x7) as usize;
        let rd = take_field(opcode, 0, 0x7) as usize;
        let address = self.regs[rb].wrapping_add(take_field(opcode, 6, 0x1F) << 2u32);
        self.thumb_word_access(memory, opcode, pc, address, load, rd);
        true
    }
}

/// The Thumb form of BX does what the ARM form does: an odd target keeps the CPU
/// in Thumb state, an even target leaves it, and in both cases PC takes the
/// target with its low bit cleared.
pub proof fn law_thumb_bx_selects_state(cpu: CpuModel, opcode: u32)
    requires
        cpu.well_formed(),
        field(opcode, 8, 0x3) == 0b11,
    ensures
        cpu.thumb_hi_reg(opcode).is_thumb() == (cpu.regs[field(opcode, 3, 0xF) as int] % 2 == 1),
        cpu.thumb_hi_reg(opcode).pc() == cpu.regs[field(opcode, 3, 0xF) as int] - cpu.regs[field(
            opcode,
            3,
            0xF,
        ) as int] % 2,
        cpu.thumb_hi_reg(opcode).pc() % 2 == 0,
{
    let target = cpu.regs[field(opcode, 3, 0xF) as int];
    let cpsr = cpu.cpsr;
    assert(((target & 1) != 0 <==> target % 2 == 1) && (target & !1u32) == target - target % 2)
        by (bit_vector);
    assert((cpsr | 0x20u32) & 0x20u32 != 0 && (cpsr & !0x20u32) & 0x20u32 == 0) by (bit_vector);
}

} // verus!
