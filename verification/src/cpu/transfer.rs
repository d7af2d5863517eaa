use vstd::prelude::*;
use crate::bits::{field, le_byte, le_half, make_le_half, take_field, take_le_byte};
use crate::bus::lemma_memory_bus_read_word;
use crate::cpu::alu::{shift_value, shifter};
use crate::cpu::{Arm11Cpu, CpuModel, FaultKind, MmuFaultDetail};
use crate::error::{EmulatorError, MemoryAccessKind};
use crate::memory::{
    read_byte, read_word, write_byte, write_byte_result, write_word, write_word_result, Memory,
    MemoryModel,
};
use crate::mmu::{translate_model, MmuModel};

verus! {

/// The kind of fault that an error of the MMU or the bus stands for. A bus error
/// counts as a translation fault.
pub open spec fn fault_kind_of(err: EmulatorError) -> FaultKind {
    match err {
        EmulatorError::MmuTranslationFault { .. } => FaultKind::Translation,
        EmulatorError::MmuDomainFault { .. } => FaultKind::Domain,
        EmulatorError::MmuPermissionFault { .. } => FaultKind::Permission,
        EmulatorError::AlignmentFault { .. } => FaultKind::Alignment,
        _ => FaultKind::Translation,
    }
}

/// A byte read as a signed number and widened to a word.
pub open spec fn sign_extend_byte(byte: u8) -> u32 {
    if byte >= 0x80 {
        0xFFFF_FF00u32 | (byte as u32)
    } else {
        byte as u32
    }
}

/// A half-word read as a signed number and widened to a word.
pub open spec fn sign_extend_half(half: u16) -> u32 {
    if half >= 0x8000 {
        0xFFFF_0000u32 | (half as u32)
    } else {
        half as u32
    }
}

/// The CPU after a translation or a fetch, with the address or word obtained or
/// the fault raised.
pub struct Resolved {
    pub cpu: CpuModel,
    pub result: Result<u32, FaultKind>,
}

/// The CPU and the memory after a data transfer, with the fault it raised, if any.
pub struct Transferred {
    pub cpu: CpuModel,
    pub memory: MemoryModel,
    pub fault: Option<FaultKind>,
    pub handled: bool,
}

/// Translation on plain memory reads the table and leaves the memory as it is.
pub proof fn lemma_translate_keeps_memory(
    mmu: MmuModel,
    memory: MemoryModel,
    va: u32,
    access: MemoryAccessKind,
    privileged: bool,
)
    ensures
        translate_model::<Memory>(mmu, memory, va, access, privileged).bus == memory,
{
    lemma_memory_bus_read_word(memory, crate::mmu::descriptor_address(mmu.ttbr0, va));
}

impl CpuModel {
    /// Translation of a data or instruction address in the current privilege. A
    /// fault is remembered as the last MMU fault of the step.
    pub open spec fn translate_va(self, memory: MemoryModel, va: u32, access: MemoryAccessKind) -> Resolved {
        let t = translate_model::<Memory>(self.mmu, memory, va, access, self.is_privileged());
        match t.result {
            Ok(pa) => Resolved { cpu: CpuModel { mmu: t.mmu, ..self }, result: Ok(pa) },
            Err(e) => Resolved {
                cpu: CpuModel {
                    mmu: t.mmu,
                    last_mmu_fault: Some(
                        MmuFaultDetail { va, pa: None, access, kind: fault_kind_of(e) },
                    ),
                    ..self
                },
                result: Err(fault_kind_of(e)),
            },
        }
    }

    /// Fetch of an ARM instruction: an address that is not a multiple of four is an
    /// alignment fault; a word that cannot be read is a translation fault.
    pub open spec fn fetch_instruction(self, memory: MemoryModel, va: u32) -> Resolved {
        if va & 3 != 0 {
            Resolved { cpu: self, result: Err(FaultKind::Alignment) }
        } else {
            let t = self.translate_va(memory, va, MemoryAccessKind::Execute);
            match t.result {
                Err(kind) => t,
                Ok(pa) => Resolved {
                    cpu: t.cpu,
                    result: match read_word(memory, pa) {
                        Ok(word) => Ok(word),
                        Err(_) => Err(FaultKind::Translation),
                    },
                },
            }
        }
    }

    /// Fetch of a Thumb instruction: an odd address is an alignment fault.
    pub open spec fn fetch_thumb_instruction(self, memory: MemoryModel, va: u32) -> Resolved {
        if va & 1 != 0 {
            Resolved { cpu: self, result: Err(FaultKind::Alignment) }
        } else {
            let t = self.translate_va(memory, va, MemoryAccessKind::Execute);
            match t.result {
                Err(kind) => t,
                Ok(pa) => Resolved {
                    cpu: t.cpu,
                    result: match read_byte(memory, pa) {
                        Err(_) => Err(FaultKind::Translation),
                        Ok(lo) => match read_byte(memory, pa.wrapping_add(1)) {
                            Err(_) => Err(FaultKind::Translation),
                            Ok(hi) => Ok(le_half(lo, hi) as u32),
                        },
                    },
                },
            }
        }
    }

    /// The base register after the transfer: written back when the instruction
    /// asks for it or indexes after the access.
    pub open spec fn written_back(self, opcode: u32, effective: u32) -> CpuModel {
        if field(opcode, 21, 1) == 1 || field(opcode, 24, 1) != 1 {
            CpuModel { regs: self.regs.update(field(opcode, 16, 0xF) as int, effective), ..self }
        } else {
            self
        }
    }

    /// The address that a transfer indexes to: the base plus or minus the offset.
    pub open spec fn effective_address(self, opcode: u32, offset: u32) -> u32 {
        let base = self.regs[field(opcode, 16, 0xF) as int];
        if field(opcode, 23, 1) == 1 {
            base.wrapping_add(offset)
        } else {
            base.wrapping_sub(offset)
        }
    }

    /// The address that a transfer accesses: the indexed one with pre-indexing,
    /// else the base.
    pub open spec fn transfer_address(self, opcode: u32, offset: u32) -> u32 {
        if field(opcode, 24, 1) == 1 {
            self.effective_address(opcode, offset)
        } else {
            self.regs[field(opcode, 16, 0xF) as int]
        }
    }

    /// Offset of LDR and STR: a twelve-bit immediate or a shifted register.
    pub open spec fn word_transfer_offset(self, opcode: u32) -> u32 {
        if field(opcode, 25, 1) == 0 {
            opcode & 0xFFF
        } else {
            shifter(
                self.regs[field(opcode, 0, 0xF) as int],
                field(opcode, 7, 0x1F),
                field(opcode, 5, 0x3),
                self.carry(),
            ).value
        }
    }

    /// LDR, LDRB, STR and STRB. A word access at an address that is not a multiple
    /// of four is an alignment fault; a fault leaves the registers unchanged.
    pub open spec fn single_data_transfer(self, memory: MemoryModel, opcode: u32) -> Transferred {
        let rd = field(opcode, 12, 0xF) as int;
        let offset = self.word_transfer_offset(opcode);
        let effective = self.effective_address(opcode, offset);
        let address = self.transfer_address(opcode, offset);
        let is_byte = field(opcode, 22, 1) == 1;
        if !is_byte && address & 3 != 0 {
            Transferred { cpu: self, memory, fault: Some(FaultKind::Alignment), handled: true }
        } else if field(opcode, 20, 1) == 1 {
            let t = self.translate_va(memory, address, MemoryAccessKind::Read);
            match t.result {
                Err(kind) => Transferred { cpu: t.cpu, memory, fault: Some(kind), handled: true },
                Ok(pa) => {
                    let value: Result<u32, EmulatorError> = if is_byte {
                        match read_byte(memory, pa) {
                            Ok(b) => Ok(b as u32),
                            Err(e) => Err(e),
                        }
                    } else {
                        read_word(memory, pa)
                    };
                    match value {
                        Err(_) => Transferred {
                            cpu: t.cpu,
                            memory,
                            fault: Some(FaultKind::Translation),
                            handled: true,
                        },
                        Ok(v) => Transferred {
                            cpu: (CpuModel { regs: t.cpu.regs.update(rd, v), ..t.cpu }).written_back(
                                opcode,
                                effective,
                            ),
                            memory,
                            fault: None,
                            handled: true,
                        },
                    }
                },
            }
        } else {
            let t = self.translate_va(memory, address, MemoryAccessKind::Write);
            match t.result {
                Err(kind) => Transferred { cpu: t.cpu, memory, fault: Some(kind), handled: true },
                Ok(pa) => if is_byte {
                    let stored = write_byte(memory, pa, (self.regs[rd] & 0xFF) as u8);
                    if write_byte_result(memory, pa) is Err {
                        Transferred {
                            cpu: t.cpu,
                            memory: stored,
                            fault: Some(FaultKind::Translation),
                            handled: true,
                        }
                    } else {
                        Transferred {
                            cpu: t.cpu.written_back(opcode, effective),
                            memory: stored,
                            fault: None,
                            handled: true,
                        }
                    }
                } else {
                    let stored = write_word(memory, pa, self.regs[rd]);
                    if write_word_result(memory, pa, self.regs[rd]) is Err {
                        Transferred {
                            cpu: t.cpu,
                            memory: stored,
                            fault: Some(FaultKind::Translation),
                            handled: true,
                        }
                    } else {
                        Transferred {
                            cpu: t.cpu.written_back(opcode, effective),
                            memory: stored,
                            fault: None,
                            handled: true,
                        }
                    }
                },
            }
        }
    }

    /// Offset of the half-word transfers: an eight-bit immediate split over two
    /// nibbles, or a register.
    pub open spec fn halfword_transfer_offset(self, opcode: u32) -> u32 {
        if field(opcode, 22, 1) == 1 {
            ((opcode >> 4u32) & 0xF0) | (opcode & 0xF)
        } else {
            self.regs[field(opcode, 0, 0xF) as int]
        }
    }

    /// The value that LDRH, LDRSH or LDRSB loads from `pa`.
    pub open spec fn halfword_load_value(memory: MemoryModel, opcode: u32, pa: u32) -> Result<
        u32,
        EmulatorError,
    > {
        let signed = field(opcode, 6, 1) == 1;
        if field(opcode, 5, 1) == 1 {
            match read_byte(memory, pa) {
                Err(e) => Err(e),
                Ok(lo) => match read_byte(memory, pa.wrapping_add(1)) {
                    Err(e) => Err(e),
                    Ok(hi) => Ok(
                        if signed {
                            sign_extend_half(le_half(lo, hi))
                        } else {
                            le_half(lo, hi) as u32
                        },
                    ),
                },
            }
        } else {
            match read_byte(memory, pa) {
                Err(e) => Err(e),
                Ok(b) => Ok(
                    if signed {
                        sign_extend_byte(b)
                    } else {
                        b as u32
                    },
                ),
            }
        }
    }

    /// LDRH, STRH, LDRSB and LDRSH. A half-word access at an odd address is an
    /// alignment fault. The signed and the byte store encodings are not transfers
    /// of this group and are left alone.
    pub open spec fn halfword_data_transfer(self, memory: MemoryModel, opcode: u32) -> Transferred {
        let rd = field(opcode, 12, 0xF) as int;
        let offset = self.halfword_transfer_offset(opcode);
        let effective = self.effective_address(opcode, offset);
        let address = self.transfer_address(opcode, offset);
        let signed = field(opcode, 6, 1) == 1;
        let halfword = field(opcode, 5, 1) == 1;
        if (opcode & 0x0E00_0090) != 0x0000_0090 {
            Transferred { cpu: self, memory, fault: None, handled: false }
        } else if halfword && (address & 1 != 0) {
            Transferred { cpu: self, memory, fault: Some(FaultKind::Alignment), handled: true }
        } else if field(opcode, 20, 1) == 1 {
            let t = self.translate_va(memory, address, MemoryAccessKind::Read);
            match t.result {
                Err(kind) => Transferred { cpu: t.cpu, memory, fault: Some(kind), handled: true },
                Ok(pa) => match Self::halfword_load_value(memory, opcode, pa) {
                    Err(_) => Transferred {
                        cpu: t.cpu,
                        memory,
                        fault: Some(FaultKind::Translation),
                        handled: true,
                    },
                    Ok(v) => Transferred {
                        cpu: (CpuModel { regs: t.cpu.regs.update(rd, v), ..t.cpu }).written_back(
                            opcode,
                            effective,
                        ),
                        memory,
                        fault: None,
                        handled: true,
                    },
                },
            }
        } else if signed || !halfword {
            Transferred { cpu: self, memory, fault: None, handled: false }
        } else {
            let t = self.translate_va(memory, address, MemoryAccessKind::Write);
            match t.result {
                Err(kind) => Transferred { cpu: t.cpu, memory, fault: Some(kind), handled: true },
                Ok(pa) => {
                    let first = write_byte(memory, pa, le_byte(self.regs[rd], 0));
                    let second = write_byte(first, pa.wrapping_add(1), le_byte(self.regs[rd], 1));
                    if write_byte_result(memory, pa) is Err {
                        Transferred {
                            cpu: t.cpu,
                            memory: first,
                            fault: Some(FaultKind::Translation),
                            handled: true,
                        }
                    } else if write_byte_result(first, pa.wrapping_add(1)) is Err {
                        Transferred {
                            cpu: t.cpu,
                            memory: second,
                            fault: Some(FaultKind::Translation),
                            handled: true,
                        }
                    } else {
                        Transferred {
                            cpu: t.cpu.written_back(opcode, effective),
                            memory: second,
                            fault: None,
                            handled: true,
                        }
                    }
                },
            }
        }
    }
}

pub fn extend_byte(byte: u8) -> (word: u32)
    ensures
        word == sign_extend_byte(byte),
{
    if byte >= 0x80 {
        0xFFFF_FF00u32 | (byte as u32)
    } else {
        byte as u32
    }
}

pub fn extend_half(half: u16) -> (word: u32)
    ensures
        word == sign_extend_half(half),
{
    if half >= 0x8000 {
        0xFFFF_0000u32 | (half as u32)
    } else {
        half as u32
    }
}

impl Arm11Cpu {
    pub(crate) fn fault_kind_from_error(err: EmulatorError) -> (kind: FaultKind)
        ensures
            kind == fault_kind_of(err),
    {
        match err {
            EmulatorError::MmuTranslationFault { .. } => FaultKind::Translation,
            EmulatorError::MmuDomainFault { .. } => FaultKind::Domain,
            EmulatorError::MmuPermissionFault { .. } => FaultKind::Permission,
            EmulatorError::AlignmentFault { .. } => FaultKind::Alignment,
            _ => FaultKind::Translation,
        }
    }

    pub(crate) fn translate_va(&mut self, memory: &mut Memory, va: u32, access: MemoryAccessKind) -> (result:
        Result<u32, FaultKind>)
        ensures
            result == old(self)@.translate_va(old(memory)@, va, access).result,
            final(self)@ == old(self)@.translate_va(old(memory)@, va, access).cpu,
            final(memory)@ == old(memory)@,
    {
        let privileged = self.is_privileged();
        proof {
            lemma_translate_keeps_memory(self@.mmu, memory@, va, access, privileged);
        }
        match self.mmu.translate(memory, va, access, privileged) {
            Ok(pa) => Ok(pa),
            Err(err) => {
                let kind = Self::fault_kind_from_error(err);
                self.last_mmu_fault = Some(MmuFaultDetail { va, pa: None, access, kind });
                Err(kind)
            },
        }
    }

    pub(crate) fn translate_instruction_va(&mut self, memory: &mut Memory, va: u32) -> (result:
        Result<u32, FaultKind>)
        ensures
            result == old(self)@.translate_va(old(memory)@, va, MemoryAccessKind::Execute).result,
            final(self)@ == old(self)@.translate_va(old(memory)@, va, MemoryAccessKind::Execute).cpu,
            final(memory)@ == old(memory)@,
    {
        self.translate_va(memory, va, MemoryAccessKind::Execute)
    }

    pub(crate) fn fetch_instruction(&mut self, memory: &mut Memory, va: u32) -> (result: Result<
        u32,
        FaultKind,
    >)
        ensures
            result == old(self)@.fetch_instruction(old(memory)@, va).result,
            final(self)@ == old(self)@.fetch_instruction(old(memory)@, va).cpu,
            final(memory)@ == old(memory)@,
            va & 3 != 0 ==> result == Err::<u32, FaultKind>(FaultKind::Alignment),
    {
        if va & 3 != 0 {
            return Err(FaultKind::Alignment);
        }
        let pa = match self.translate_instruction_va(memory, va) {
            Ok(pa) => pa,
            Err(kind) => {
                return Err(kind);
            },
        };
        match memory.read_u32_checked(pa) {
            Ok(word) => Ok(word),
            Err(_) => Err(FaultKind::Translation),
        }
    }

    pub(crate) fn fetch_thumb_instruction(&mut self, memory: &mut Memory, va: u32) -> (result:
        Result<u32, FaultKind>)
        ensures
            result == old(self)@.fetch_thumb_instruction(old(memory)@, va).result,
            final(self)@ == old(self)@.fetch_thumb_instruction(old(memory)@, va).cpu,
            final(memory)@ == old(memory)@,
            va & 1 != 0 ==> result == Err::<u32, FaultKind>(FaultKind::Alignment),
            result matches Ok(opcode) ==> opcode <= 0xFFFF,
    {
        if va & 1 != 0 {
            return Err(FaultKind::Alignment);
        }
        let pa = match self.translate_instruction_va(memory, va) {
            Ok(pa) => pa,
            Err(kind) => {
                return Err(kind);
            },
        };
        let lo = match memory.read_u8_checked(pa) {
            Ok(b) => b,
            Err(_) => {
                return Err(FaultKind::Translation);
            },
        };
        let hi = match memory.read_u8_checked(pa.wrapping_add(1)) {
            Ok(b) => b,
            Err(_) => {
                return Err(FaultKind::Translation);
            },
        };
        Ok(make_le_half(lo, hi) as u32)
    }

    pub(crate) fn write_back(&mut self, opcode: u32, effective: u32)
        ensures
            final(self)@ == old(self)@.written_back(opcode, effective),
    {
        if take_field(opcode, 21, 1) == 1 || take_field(opcode, 24, 1) != 1 {
            let rn = take_field(opcode, 16, 0xF) as usize;
            self.regs[rn] = effective;
        }
    }

    pub(crate) fn effective_address(&self, opcode: u32, offset: u32) -> (address: u32)
        ensures
            address == self@.effective_address(opcode, offset),
    {
        let rn = take_field(opcode, 16, 0xF) as usize;
        let base = self.regs[rn];
        if take_field(opcode, 23, 1) == 1 {
            base.wrapping_add(offset)
        } else {
            base.wrapping_sub(offset)
        }
    }

    pub(crate) fn transfer_address(&self, opcode: u32, offset: u32) -> (address: u32)
        ensures
            address == self@.transfer_address(opcode, offset),
    {
        if take_field(opcode, 24, 1) == 1 {
            self.effective_address(opcode, offset)
        } else {
            let rn = take_field(opcode, 16, 0xF) as usize;
            self.regs[rn]
        }
    }

    /// Executes LDR, LDRB, STR or STRB and reports the fault it raised, if any.
    pub(crate) fn exec_single_data_transfer(&mut self, opcode: u32, memory: &mut Memory) -> (fault:
        Option<FaultKind>)
        ensures
            fault == old(self)@.single_data_transfer(old(memory)@, opcode).fault,
            final(self)@ == old(self)@.single_data_transfer(old(memory)@, opcode).cpu,
            final(memory)@ == old(self)@.single_data_transfer(old(memory)@, opcode).memory,
    {
        let rd = take_field(opcode, 12, 0xF) as usize;
        let offset = if take_field(opcode, 25, 1) == 0 {
            opcode & 0xFFF
        } else {
            let rm = take_field(opcode, 0, 0xF) as usize;
            shift_value(
                self.regs[rm],
                take_field(opcode, 7, 0x1F),
                take_field(opcode, 5, 0x3),
                self.carry_flag(),
            ).value
        };
        let effective = self.effective_address(opcode, offset);
        let address = self.transfer_address(opcode, offset);
        let is_byte = take_field(opcode, 22, 1) == 1;
        if !is_byte && address & 3 != 0 {
            return Some(FaultKind::Alignment);
        }
        if take_field(opcode, 20, 1) == 1 {
            let pa = match self.translate_va(memory, address, MemoryAccessKind::Read) {
                Ok(pa) => pa,
                Err(kind) => {
                    return Some(kind);
                },
            };
            let value = if is_byte {
                match memory.read_u8_checked(pa) {
                    Ok(b) => b as u32,
                    Err(_) => {
                        return Some(FaultKind::Translation);
                    },
                }
            } else {
                match memory.read_u32_checked(pa) {
                    Ok(w) => w,
                    Err(_) => {
                        return Some(FaultKind::Translation);
                    },
                }
            };
            self.regs[rd] = value;
        } else {
            let stored = self.regs[rd];
            let pa = match self.translate_va(memory, address, MemoryAccessKind::Write) {
                Ok(pa) => pa,
                Err(kind) => {
                    return Some(kind);
                },
            };
            if is_byte {
                proof {
                    crate::bits::lemma_mask_bound(stored, 0xFF);
                }
                if memory.write_u8_checked(pa, (stored & 0xFF) as u8).is_err() {
                    return Some(FaultKind::Translation);
                }
            } else {
                if memory.write_u32_checked(pa, stored).is_err() {
                    return Some(FaultKind::Translation);
                }
            }
        }
        self.write_back(opcode, effective);
        None
    }

    /// Executes LDRH, STRH, LDRSB or LDRSH, or leaves the instruction alone where
    /// it is none of them.
    pub(crate) fn exec_halfword_data_transfer(&mut self, opcode: u32, memory: &mut Memory) -> (outcome:
        (bool, Option<FaultKind>))
        ensures
            outcome.0 == old(self)@.halfword_data_transfer(old(memory)@, opcode).handled,
            outcome.1 == old(self)@.halfword_data_transfer(old(memory)@, opcode).fault,
            final(self)@ == old(self)@.halfword_data_transfer(old(memory)@, opcode).cpu,
            final(memory)@ == old(self)@.halfword_data_transfer(old(memory)@, opcode).memory,
    {
        if (opcode & 0x0E00_0090) != 0x0000_0090 {
            return (false, None);
        }
        let rd = take_field(opcode, 12, 0xF) as usize;
        let offset = if take_field(opcode, 22, 1) == 1 {
            ((opcode >> 4u32) & 0xF0) | (opcode & 0xF)
        } else {
            let rm = take_field(opcode, 0, 0xF) as usize;
            self.regs[rm]
        };
        let effective = self.effective_address(opcode, offset);
        let address = self.transfer_address(opcode, offset);
        let signed = take_field(opcode, 6, 1) == 1;
        let halfword = take_field(opcode, 5, 1) == 1;
        if halfword && (address & 1 != 0) {
            return (true, Some(FaultKind::Alignment));
        }
        if take_field(opcode, 20, 1) == 1 {
            let pa = match self.translate_va(memory, address, MemoryAccessKind::Read) {
                Ok(pa) => pa,
                Err(kind) => {
                    return (true, Some(kind));
                },
            };
            let value = if halfword {
                let lo = match memory.read_u8_checked(pa) {
                    Ok(b) => b,
                    Err(_) => {
                        return (true, Some(FaultKind::Translation));
                    },
                };
                let hi = match memory.read_u8_checked(pa.wrapping_add(1)) {
                    Ok(b) => b,
                    Err(_) => {
                        return (true, Some(FaultKind::Translation));
                    },
                };
                let half = make_le_half(lo, hi);
                if signed {
                    extend_half(half)
                } else {
                    half as u32
                }
            } else {
                let byte = match memory.read_u8_checked(pa) {
                    Ok(b) => b,
                    Err(_) => {
                        return (true, Some(FaultKind::Translation));
                    },
                };
                if signed {
                    extend_byte(byte)
                } else {
                    byte as u32
                }
            };
            self.regs[rd] = value;
        } else {
            if signed || !halfword {
                return (false, None);
            }
            let stored = self.regs[rd];
            let pa = match self.translate_va(memory, address, MemoryAccessKind::Write) {
                Ok(pa) => pa,
                Err(kind) => {
                    return (true, Some(kind));
                },
            };
            if memory.write_u8_checked(pa, take_le_byte(stored, 0)).is_err() {
                return (true, Some(FaultKind::Translation));
            }
            if memory.write_u8_checked(pa.wrapping_add(1), take_le_byte(stored, 1)).is_err() {
                return (true, Some(FaultKind::Translation));
            }
        }
        self.write_back(opcode, effective);
        (true, None)
    }
}

/// A word transfer at an address that is not a multiple of four, and a half-word
/// transfer at an odd address, raise an alignment fault before the MMU is asked,
/// and change neither the CPU nor the memory.
pub proof fn law_unaligned_data_access_faults(cpu: CpuModel, memory: MemoryModel, opcode: u32)
    ensures
        field(opcode, 22, 1) != 1 && cpu.transfer_address(opcode, cpu.word_transfer_offset(opcode))
            & 3 != 0 ==> cpu.single_data_transfer(memory, opcode) == (Transferred {
            cpu,
            memory,
            fault: Some(FaultKind::Alignment),
            handled: true,
        }),
        (opcode & 0x0E00_0090) == 0x0000_0090 && field(opcode, 5, 1) == 1 && cpu.transfer_address(
            opcode,
            cpu.halfword_transfer_offset(opcode),
        ) & 1 != 0 ==> cpu.halfword_data_transfer(memory, opcode) == (Transferred {
            cpu,
            memory,
            fault: Some(FaultKind::Alignment),
            handled: true,
        }),
{
}

} // verus!
