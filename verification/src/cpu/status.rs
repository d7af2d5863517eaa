use vstd::prelude::*;
use crate::cpu::{
    Arm11Cpu, CpuException, CpuModel, CpuRunState, ExceptionKind, FaultKind, CP15_DFAR,
    CP15_DFSR, CP15_IFAR, CP15_IFSR, FLAG_C, FLAG_I, FLAG_N, FLAG_T, FLAG_V, FLAG_Z, LR_INDEX,
    MODE_ABT, MODE_IRQ, MODE_MASK, MODE_SVC, MODE_UND, MODE_USR, PC_INDEX, SP_INDEX, VECTOR_DABT,
    VECTOR_IRQ, VECTOR_PABT, VECTOR_SWI, VECTOR_UND,
};
use crate::irq::IrqLine;

verus! {

/// The status word with the bits of `mask` set or cleared.
pub open spec fn with_flag(cpsr: u32, mask: u32, set: bool) -> u32 {
    if set {
        cpsr | mask
    } else {
        cpsr & !mask
    }
}

/// Whether the condition field `cond` of an instruction passes under the flags of
/// `cpsr`. The reserved encoding `0xF` never passes.
pub open spec fn condition_holds(cpsr: u32, cond: u32) -> bool {
    let n = cpsr & FLAG_N != 0;
    let z = cpsr & FLAG_Z != 0;
    let c = cpsr & FLAG_C != 0;
    let v = cpsr & FLAG_V != 0;
    if cond == 0x0 {
        z
    } else if cond == 0x1 {
        !z
    } else if cond == 0x2 {
        c
    } else if cond == 0x3 {
        !c
    } else if cond == 0x4 {
        n
    } else if cond == 0x5 {
        !n
    } else if cond == 0x6 {
        v
    } else if cond == 0x7 {
        !v
    } else if cond == 0x8 {
        c && !z
    } else if cond == 0x9 {
        !c || z
    } else if cond == 0xA {
        n == v
    } else if cond == 0xB {
        n != v
    } else if cond == 0xC {
        !z && (n == v)
    } else if cond == 0xD {
        z || (n != v)
    } else if cond == 0xE {
        true
    } else {
        false
    }
}

/// The five-bit code that the fault status registers hold for a fault.
pub open spec fn fault_status(fault: FaultKind) -> u32 {
    match fault {
        FaultKind::Translation => 0b00101,
        FaultKind::Domain => 0b01001,
        FaultKind::Permission => 0b01101,
        FaultKind::Alignment => 0b00001,
    }
}

/// Vector address of an exception.
pub open spec fn exception_vector(kind: ExceptionKind) -> u32 {
    match kind {
        ExceptionKind::UndefinedInstruction => VECTOR_UND,
        ExceptionKind::SoftwareInterrupt => VECTOR_SWI,
        ExceptionKind::PrefetchAbort(_) => VECTOR_PABT,
        ExceptionKind::DataAbort(_) => VECTOR_DABT,
        ExceptionKind::Interrupt(_) => VECTOR_IRQ,
    }
}

/// Mode that an exception is taken in.
pub open spec fn exception_mode(kind: ExceptionKind) -> u32 {
    match kind {
        ExceptionKind::UndefinedInstruction => MODE_UND,
        ExceptionKind::SoftwareInterrupt => MODE_SVC,
        ExceptionKind::PrefetchAbort(_) => MODE_ABT,
        ExceptionKind::DataAbort(_) => MODE_ABT,
        ExceptionKind::Interrupt(_) => MODE_IRQ,
    }
}

/// Return address saved in the link register: PC+4 for a prefetch abort, PC+8 for
/// a data abort, and for the others PC+4 or PC as the caller asks. The rule is the
/// same in ARM and in Thumb state.
pub open spec fn exception_return_address(kind: ExceptionKind, pc: u32, lr_plus_4: bool) -> u32 {
    match kind {
        ExceptionKind::PrefetchAbort(_) => pc.wrapping_add(4),
        ExceptionKind::DataAbort(_) => pc.wrapping_add(8),
        _ => if lr_plus_4 {
            pc.wrapping_add(4)
        } else {
            pc
        },
    }
}

impl CpuModel {
    pub open spec fn set_flag(self, mask: u32, set: bool) -> CpuModel {
        CpuModel { cpsr: with_flag(self.cpsr, mask, set), ..self }
    }

    /// N and Z from the result, C from the shifter; V is kept.
    pub open spec fn with_nzcv_logical(self, result: u32, carry: bool) -> CpuModel {
        self.set_flag(FLAG_N, result & FLAG_N != 0).set_flag(FLAG_Z, result == 0).set_flag(
            FLAG_C,
            carry,
        )
    }

    /// N and Z from the result, C and V as computed by the operation.
    pub open spec fn with_nzcv_arithmetic(self, result: u32, carry: bool, overflow: bool) -> CpuModel {
        self.set_flag(FLAG_N, result & FLAG_N != 0).set_flag(FLAG_Z, result == 0).set_flag(
            FLAG_C,
            carry,
        ).set_flag(FLAG_V, overflow)
    }

    pub open spec fn carry(self) -> bool {
        self.cpsr & FLAG_C != 0
    }

    pub open spec fn mode(self) -> u32 {
        self.cpsr & MODE_MASK
    }

    pub open spec fn is_privileged(self) -> bool {
        self.mode() != MODE_USR
    }

    pub open spec fn is_thumb(self) -> bool {
        self.cpsr & FLAG_T != 0
    }

    pub open spec fn interrupts_enabled(self) -> bool {
        self.cpsr & FLAG_I == 0
    }

    /// The saved status word of the current mode; user mode has none.
    pub open spec fn current_spsr(self) -> Option<u32> {
        let mode = self.mode();
        if mode == MODE_UND {
            Some(self.spsr_und)
        } else if mode == MODE_SVC {
            Some(self.spsr_svc)
        } else if mode == MODE_IRQ {
            Some(self.spsr_irq)
        } else if mode == MODE_ABT {
            Some(self.spsr_abt)
        } else {
            None
        }
    }

    pub open spec fn with_current_spsr(self, value: u32) -> CpuModel {
        let mode = self.mode();
        if mode == MODE_UND {
            CpuModel { spsr_und: value, ..self }
        } else if mode == MODE_SVC {
            CpuModel { spsr_svc: value, ..self }
        } else if mode == MODE_IRQ {
            CpuModel { spsr_irq: value, ..self }
        } else if mode == MODE_ABT {
            CpuModel { spsr_abt: value, ..self }
        } else {
            self
        }
    }

    /// The banked SP and LR of `mode`; an unknown mode shares the user bank.
    pub open spec fn banked(self, mode: u32) -> (u32, u32) {
        if mode == MODE_SVC {
            (self.bank_svc_sp, self.bank_svc_lr)
        } else if mode == MODE_IRQ {
            (self.bank_irq_sp, self.bank_irq_lr)
        } else if mode == MODE_UND {
            (self.bank_und_sp, self.bank_und_lr)
        } else if mode == MODE_ABT {
            (self.bank_abt_sp, self.bank_abt_lr)
        } else {
            (self.bank_usr_sp, self.bank_usr_lr)
        }
    }

    pub open spec fn with_banked(self, mode: u32, sp: u32, lr: u32) -> CpuModel {
        if mode == MODE_SVC {
            CpuModel { bank_svc_sp: sp, bank_svc_lr: lr, ..self }
        } else if mode == MODE_IRQ {
            CpuModel { bank_irq_sp: sp, bank_irq_lr: lr, ..self }
        } else if mode == MODE_UND {
            CpuModel { bank_und_sp: sp, bank_und_lr: lr, ..self }
        } else if mode == MODE_ABT {
            CpuModel { bank_abt_sp: sp, bank_abt_lr: lr, ..self }
        } else {
            CpuModel { bank_usr_sp: sp, bank_usr_lr: lr, ..self }
        }
    }

    /// The CPU after a change of mode: the visible SP and LR are stored in the bank
    /// of the old mode and loaded from the bank of the new one.
    pub open spec fn switch_mode(self, new_mode: u32) -> CpuModel {
        let old_mode = self.mode();
        if old_mode == new_mode {
            self
        } else {
            let saved = self.with_banked(old_mode, self.regs[13], self.regs[14]);
            let bank = saved.banked(new_mode);
            CpuModel {
                regs: saved.regs.update(13, bank.0).update(14, bank.1),
                cpsr: (saved.cpsr & !MODE_MASK) | new_mode,
                ..saved
            }
        }
    }

    /// Exception return: the saved status word of the current mode becomes the
    /// status word, which switches back to the mode it names.
    pub open spec fn restore_cpsr_from_spsr(self) -> CpuModel {
        match self.current_spsr() {
            Some(saved) => CpuModel { cpsr: saved, ..self.switch_mode(saved & MODE_MASK) },
            None => self,
        }
    }

    /// Exception entry: the banks are switched to the exception's mode, the status
    /// word as it was before the entry is saved in the SPSR of that mode, LR takes
    /// the return address, interrupts are disabled, Thumb state is left, PC jumps
    /// to the vector, and the exception is recorded.
    pub open spec fn take_exception(
        self,
        kind: ExceptionKind,
        pc: u32,
        fault_opcode: u32,
        lr_plus_4: bool,
    ) -> CpuModel {
        let vector = exception_vector(kind);
        let return_address = exception_return_address(kind, pc, lr_plus_4);
        let entered = self.switch_mode(exception_mode(kind)).with_current_spsr(self.cpsr);
        CpuModel {
            regs: entered.regs.update(14, return_address).update(15, vector),
            cpsr: (entered.cpsr | FLAG_I) & !FLAG_T,
            last_exception: Some(CpuException { kind, vector, return_address, fault_opcode }),
            step_exception: Some(CpuException { kind, vector, return_address, fault_opcode }),
            ..entered
        }
    }

    /// Prefetch abort: IFAR takes the faulting address and IFSR the fault code.
    pub open spec fn take_prefetch_abort(self, fault: FaultKind, pc: u32, opcode: u32) -> CpuModel {
        (CpuModel {
            cp15_regs: self.cp15_regs.update(8, pc).update(6, fault_status(fault)),
            ..self
        }).take_exception(ExceptionKind::PrefetchAbort(fault), pc, opcode, true)
    }

    /// Data abort: DFAR takes the faulting virtual address where the MMU reported
    /// one, else the address of the instruction, and DFSR the fault code.
    pub open spec fn take_data_abort(self, fault: FaultKind, pc: u32, opcode: u32) -> CpuModel {
        let address = match self.last_mmu_fault {
            Some(detail) => detail.va,
            None => pc,
        };
        (CpuModel {
            cp15_regs: self.cp15_regs.update(7, address).update(5, fault_status(fault)),
            ..self
        }).take_exception(ExceptionKind::DataAbort(fault), pc, opcode, false)
    }

    /// Entry into the IRQ handler for `line`: a halted CPU wakes up first.
    pub open spec fn enter_irq(self, line: IrqLine) -> CpuModel {
        (CpuModel { state: CpuRunState::Running, ..self }).take_exception(
            ExceptionKind::Interrupt(line),
            self.pc(),
            line.index(),
            true,
        )
    }
}

impl Arm11Cpu {
    pub fn interrupts_enabled(&self) -> (enabled: bool)
        ensures
            enabled == self@.interrupts_enabled(),
    {
        self.cpsr & FLAG_I == 0
    }

    /// Takes the IRQ exception for `line`, waking the CPU if it was halted.
    pub fn enter_irq(&mut self, line: IrqLine)
        ensures
            final(self)@ == old(self)@.enter_irq(line),
    {
        if self.state == CpuRunState::Halted {
            self.state = CpuRunState::Running;
        }
        let pc = self.pc();
        self.take_exception(ExceptionKind::Interrupt(line), pc, line.number(), true);
    }

    pub fn is_privileged(&self) -> (privileged: bool)
        ensures
            privileged == self@.is_privileged(),
    {
        self.mode() != MODE_USR
    }

    pub fn is_thumb(&self) -> (thumb: bool)
        ensures
            thumb == self@.is_thumb(),
    {
        self.cpsr & FLAG_T != 0
    }

    pub fn mode(&self) -> (mode: u32)
        ensures
            mode == self@.mode(),
    {
        self.cpsr & MODE_MASK
    }

    pub(crate) fn carry_flag(&self) -> (carry: bool)
        ensures
            carry == self@.carry(),
    {
        self.cpsr & FLAG_C != 0
    }

    pub(crate) fn set_thumb_state(&mut self, thumb: bool)
        ensures
            final(self)@ == old(self)@.set_flag(FLAG_T, thumb),
    {
        self.set_flag(FLAG_T, thumb);
    }

    pub(crate) fn update_nzcv_logical(&mut self, result: u32, carry: bool)
        ensures
            final(self)@ == old(self)@.with_nzcv_logical(result, carry),
    {
        self.set_flag(FLAG_N, result & FLAG_N != 0);
        self.set_flag(FLAG_Z, result == 0);
        self.set_flag(FLAG_C, carry);
    }

    pub(crate) fn update_nzcv_arithmetic(&mut self, result: u32, carry: bool, overflow: bool)
        ensures
            final(self)@ == old(self)@.with_nzcv_arithmetic(result, carry, overflow),
    {
        self.set_flag(FLAG_N, result & FLAG_N != 0);
        self.set_flag(FLAG_Z, result == 0);
        self.set_flag(FLAG_C, carry);
        self.set_flag(FLAG_V, overflow);
    }

    pub(crate) fn set_flag(&mut self, mask: u32, set: bool)
        ensures
            final(self)@ == old(self)@.set_flag(mask, set),
    {
        if set {
            self.cpsr = self.cpsr | mask;
        } else {
            self.cpsr = self.cpsr & !mask;
        }
    }

    pub(crate) fn current_spsr(&self) -> (spsr: Option<u32>)
        ensures
            spsr == self@.current_spsr(),
    {
        let mode = self.mode();
        if mode == MODE_UND {
            Some(self.spsr_und)
        } else if mode == MODE_SVC {
            Some(self.spsr_svc)
        } else if mode == MODE_IRQ {
            Some(self.spsr_irq)
        } else if mode == MODE_ABT {
            Some(self.spsr_abt)
        } else {
            None
        }
    }

    pub(crate) fn set_current_spsr(&mut self, value: u32)
        ensures
            final(self)@ == old(self)@.with_current_spsr(value),
    {
        let mode = self.mode();
        if mode == MODE_UND {
            self.spsr_und = value;
        } else if mode == MODE_SVC {
            self.spsr_svc = value;
        } else if mode == MODE_IRQ {
            self.spsr_irq = value;
        } else if mode == MODE_ABT {
            self.spsr_abt = value;
        }
    }

    pub(crate) fn banked_sp_lr(&self, mode: u32) -> (bank: (u32, u32))
        ensures
            bank == self@.banked(mode),
    {
        if mode == MODE_SVC {
            (self.bank_svc_sp, self.bank_svc_lr)
        } else if mode == MODE_IRQ {
            (self.bank_irq_sp, self.bank_irq_lr)
        } else if mode == MODE_UND {
            (self.bank_und_sp, self.bank_und_lr)
        } else if mode == MODE_ABT {
            (self.bank_abt_sp, self.bank_abt_lr)
        } else {
            (self.bank_usr_sp, self.bank_usr_lr)
        }
    }

    pub(crate) fn set_banked_sp_lr(&mut self, mode: u32, sp: u32, lr: u32)
        ensures
            final(self)@ == old(self)@.with_banked(mode, sp, lr),
    {
        if mode == MODE_SVC {
            self.bank_svc_sp = sp;
            self.bank_svc_lr = lr;
        } else if mode == MODE_IRQ {
            self.bank_irq_sp = sp;
            self.bank_irq_lr = lr;
        } else if mode == MODE_UND {
            self.bank_und_sp = sp;
            self.bank_und_lr = lr;
        } else if mode == MODE_ABT {
            self.bank_abt_sp = sp;
            self.bank_abt_lr = lr;
        } else {
            self.bank_usr_sp = sp;
            self.bank_usr_lr = lr;
        }
    }

    /// Switches the processor mode, swapping the banked SP and LR.
    pub fn switch_mode(&mut self, new_mode: u32)
        ensures
            final(self)@ == old(self)@.switch_mode(new_mode),
    {
        let old_mode = self.mode();
        if old_mode == new_mode {
            return ;
        }
        let old_sp = self.regs[SP_INDEX];
        let old_lr = self.regs[LR_INDEX];
        self.set_banked_sp_lr(old_mode, old_sp, old_lr);
        let bank = self.banked_sp_lr(new_mode);
        self.regs[SP_INDEX] = bank.0;
        self.regs[LR_INDEX] = bank.1;
        self.cpsr = (self.cpsr & !MODE_MASK) | new_mode;
    }

    pub(crate) fn restore_cpsr_from_spsr(&mut self)
        ensures
            final(self)@ == old(self)@.restore_cpsr_from_spsr(),
    {
        match self.current_spsr() {
            Some(saved) => {
                self.switch_mode(saved & MODE_MASK);
                self.cpsr = saved;
            },
            None => {},
        }
    }

    pub(crate) fn take_prefetch_abort(&mut self, fault: FaultKind, pc: u32, opcode: u32)
        ensures
            final(self)@ == old(self)@.take_prefetch_abort(fault, pc, opcode),
    {
        self.cp15_regs[CP15_IFAR] = pc;
        self.cp15_regs[CP15_IFSR] = Self::encode_fault_status(fault);
        self.take_exception(ExceptionKind::PrefetchAbort(fault), pc, opcode, true);
    }

    pub(crate) fn take_data_abort(&mut self, fault: FaultKind, pc: u32, opcode: u32)
        ensures
            final(self)@ == old(self)@.take_data_abort(fault, pc, opcode),
    {
        let address = match self.last_mmu_fault {
            Some(detail) => detail.va,
            None => pc,
        };
        self.cp15_regs[CP15_DFAR] = address;
        self.cp15_regs[CP15_DFSR] = Self::encode_fault_status(fault);
        self.take_exception(ExceptionKind::DataAbort(fault), pc, opcode, false);
    }

    pub(crate) fn encode_fault_status(fault: FaultKind) -> (code: u32)
        ensures
            code == fault_status(fault),
    {
        match fault {
            FaultKind::Translation => 0b00101,
            FaultKind::Domain => 0b01001,
            FaultKind::Permission => 0b01101,
            FaultKind::Alignment => 0b00001,
        }
    }

    pub(crate) fn take_exception(
        &mut self,
        kind: ExceptionKind,
        pc: u32,
        fault_opcode: u32,
        lr_plus_4: bool,
    )
        ensures
            final(self)@ == old(self)@.take_exception(kind, pc, fault_opcode, lr_plus_4),
    {
        let (vector, mode) = match kind {
            ExceptionKind::UndefinedInstruction => (VECTOR_UND, MODE_UND),
            ExceptionKind::SoftwareInterrupt => (VECTOR_SWI, MODE_SVC),
            ExceptionKind::PrefetchAbort(_) => (VECTOR_PABT, MODE_ABT),
            ExceptionKind::DataAbort(_) => (VECTOR_DABT, MODE_ABT),
            ExceptionKind::Interrupt(_) => (VECTOR_IRQ, MODE_IRQ),
        };
        let return_addr = match kind {
            ExceptionKind::PrefetchAbort(_) => pc.wrapping_add(4),
            ExceptionKind::DataAbort(_) => pc.wrapping_add(8),
            _ => if lr_plus_4 {
                pc.wrapping_add(4)
            } else {
                pc
            },
        };
        let cpsr = self.cpsr;
        self.switch_mode(mode);
        self.set_current_spsr(cpsr);
        self.regs[LR_INDEX] = return_addr;
        self.regs[PC_INDEX] = vector;
        self.cpsr = (self.cpsr | FLAG_I) & !FLAG_T;
        self.last_exception = Some(
            CpuException { kind, vector, return_address: return_addr, fault_opcode },
        );
        self.step_exception = self.last_exception;
    }

    pub(crate) fn condition_passed(&self, cond: u32) -> (passed: bool)
        ensures
            passed == condition_holds(self@.cpsr, cond),
    {
        let n = self.cpsr & FLAG_N != 0;
        let z = self.cpsr & FLAG_Z != 0;
        let c = self.cpsr & FLAG_C != 0;
        let v = self.cpsr & FLAG_V != 0;
        if cond == 0x0 {
            z
        } else if cond == 0x1 {
            !z
        } else if cond == 0x2 {
            c
        } else if cond == 0x3 {
            !c
        } else if cond == 0x4 {
            n
        } else if cond == 0x5 {
            !n
        } else if cond == 0x6 {
            v
        } else if cond == 0x7 {
            !v
        } else if cond == 0x8 {
            c && !z
        } else if cond == 0x9 {
            !c || z
        } else if cond == 0xA {
            n == v
        } else if cond == 0xB {
            n != v
        } else if cond == 0xC {
            !z && (n == v)
        } else if cond == 0xD {
            z || (n != v)
        } else if cond == 0xE {
            true
        } else {
            false
        }
    }
}

/// Every exception is entered in the exception's mode, with interrupts disabled
/// and in ARM state, at the exception's vector, with the return address in LR and
/// the status word from before the entry in the SPSR of the mode entered, so that
/// an exception return brings that status word back, and is recorded as the last
/// exception.
pub proof fn law_exception_entry(
    cpu: CpuModel,
    kind: ExceptionKind,
    pc: u32,
    opcode: u32,
    lr_plus_4: bool,
)
    requires
        cpu.well_formed(),
    ensures
        ({
            let after = cpu.take_exception(kind, pc, opcode, lr_plus_4);
            &&& after.well_formed()
            &&& after.mode() == exception_mode(kind)
            &&& after.current_spsr() == Some(cpu.cpsr)
            &&& after.restore_cpsr_from_spsr().cpsr == cpu.cpsr
            &&& after.pc() == exception_vector(kind)
            &&& after.regs[14] == exception_return_address(kind, pc, lr_plus_4)
            &&& !after.interrupts_enabled()
            &&& !after.is_thumb()
            &&& after.last_exception == Some(
                CpuException {
                    kind,
                    vector: exception_vector(kind),
                    return_address: exception_return_address(kind, pc, lr_plus_4),
                    fault_opcode: opcode,
                },
            )
        }),
{
    let mode = exception_mode(kind);
    let before = cpu.cpsr;
    let switched = cpu.switch_mode(mode);
    let c = switched.cpsr;
    assert(((before & !0x1Fu32) | mode) & 0x1Fu32 == mode) by (bit_vector)
        requires
            mode == 0x1Bu32 || mode == 0x13u32 || mode == 0x17u32 || mode == 0x12u32,
    ;
    assert(switched.mode() == mode);
    assert(((c | 0x80u32) & !0x20u32) & 0x80u32 != 0 && ((c | 0x80u32) & !0x20u32) & 0x20u32 == 0
        && ((c | 0x80u32) & !0x20u32) & 0x1Fu32 == c & 0x1Fu32) by (bit_vector);
}

} // verus!
