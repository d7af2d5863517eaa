use vstd::prelude::*;
use vstd::string::StringExecFns;
use crate::bits::{field, take_field};
use crate::cpu::{CpuException, CpuRunState, ExceptionKind, FaultKind};
use crate::emulator::{Emulator3ds, EmulatorModel};
use crate::error::{EmulatorError, MemoryAccessKind};
use crate::ipc::CommandHeader;
use crate::irq::IrqLine;

verus! {

/// The text of a decimal digit.
pub open spec fn digit_text(digit: nat) -> Seq<char> {
    if digit == 0 {
        "0"@
    } else if digit == 1 {
        "1"@
    } else if digit == 2 {
        "2"@
    } else if digit == 3 {
        "3"@
    } else if digit == 4 {
        "4"@
    } else if digit == 5 {
        "5"@
    } else if digit == 6 {
        "6"@
    } else if digit == 7 {
        "7"@
    } else if digit == 8 {
        "8"@
    } else {
        "9"@
    }
}

/// The digits of a number in decimal, most significant first.
pub open spec fn decimal(value: nat) -> Seq<char>
    decreases value,
{
    if value < 10 {
        digit_text(value)
    } else {
        decimal(value / 10) + digit_text(value % 10)
    }
}

/// The text of a hexadecimal digit, in lower or upper case.
pub open spec fn hex_char(nibble: u32, upper: bool) -> Seq<char> {
    if nibble < 10 {
        digit_text(nibble as nat)
    } else if nibble == 10 {
        if upper {
            "A"@
        } else {
            "a"@
        }
    } else if nibble == 11 {
        if upper {
            "B"@
        } else {
            "b"@
        }
    } else if nibble == 12 {
        if upper {
            "C"@
        } else {
            "c"@
        }
    } else if nibble == 13 {
        if upper {
            "D"@
        } else {
            "d"@
        }
    } else if nibble == 14 {
        if upper {
            "E"@
        } else {
            "e"@
        }
    } else {
        if upper {
            "F"@
        } else {
            "f"@
        }
    }
}

/// The eight lower-case hexadecimal digits of a word.
pub open spec fn hex8(value: u32) -> Seq<char> {
    hex_char(field(value, 28, 0xF), false) + hex_char(field(value, 24, 0xF), false) + hex_char(
        field(value, 20, 0xF),
        false,
    ) + hex_char(field(value, 16, 0xF), false) + hex_char(field(value, 12, 0xF), false)
        + hex_char(field(value, 8, 0xF), false) + hex_char(field(value, 4, 0xF), false)
        + hex_char(field(value, 0, 0xF), false)
}

/// The four hexadecimal digits of a half-word.
pub open spec fn hex4(value: u16, upper: bool) -> Seq<char> {
    hex_char(field(value as u32, 12, 0xF), upper) + hex_char(field(value as u32, 8, 0xF), upper)
        + hex_char(field(value as u32, 4, 0xF), upper) + hex_char(
        field(value as u32, 0, 0xF),
        upper,
    )
}

/// The name of an access kind.
pub open spec fn access_name(access: MemoryAccessKind) -> Seq<char> {
    match access {
        MemoryAccessKind::Read => "Read"@,
        MemoryAccessKind::Write => "Write"@,
        MemoryAccessKind::Execute => "Execute"@,
    }
}

/// The text of an optional physical address: `None`, or `Some(` and the address
/// in decimal and `)`.
pub open spec fn optional_address(pa: Option<u32>) -> Seq<char> {
    match pa {
        None => "None"@,
        Some(address) => "Some("@ + decimal(address as nat) + ")"@,
    }
}

/// The tail that the messages of the four MMU faults share.
pub open spec fn fault_tail(pc: u32, va: u32, pa: Option<u32>, access: MemoryAccessKind) -> Seq<char> {
    " at PC=0x"@ + hex8(pc) + ", VA=0x"@ + hex8(va) + ", PA="@
        + optional_address(pa) + " ("@ + access_name(access) + ")"@
}

/// The message of an error.
pub open spec fn message_text(err: EmulatorError) -> Seq<char> {
    match err {
        EmulatorError::RomTooSmall => "ROM is too small to contain an NCSD header"@,
        EmulatorError::InvalidRomMagic => "invalid ROM magic; expected NCSD at 0x100"@,
        EmulatorError::RomTooLarge { size, capacity } => "ROM size "@ + decimal(
            size as nat,
        ) + " exceeds memory capacity "@ + decimal(capacity as nat),
        EmulatorError::MemoryOutOfBounds { address } => "memory access out of bounds at 0x"@
            + hex8(address),
        EmulatorError::InvalidInstruction { pc, opcode } => "invalid instruction 0x"@
            + hex8(opcode) + " at PC=0x"@ + hex8(pc),
        EmulatorError::RomNotLoaded => "cannot execute because no ROM is loaded"@,
        EmulatorError::InvalidTitlePackage => "invalid title package format"@,
        EmulatorError::InvalidRomLayout => "invalid NCSD/NCCH ROM layout"@,
        EmulatorError::InvalidExHeader => "invalid NCCH exheader format"@,
        EmulatorError::InvalidNcsdHeader => "invalid NCSD header"@,
        EmulatorError::InvalidNcchHeader => "invalid NCCH header"@,
        EmulatorError::UnsupportedNcchCrypto => "unsupported NCCH encryption"@,
        EmulatorError::InvalidExeFs => "invalid ExeFS layout"@,
        EmulatorError::InvalidRomFs => "invalid RomFS layout"@,
        EmulatorError::MissingCodeSection => "ExeFS holds no .code section"@,
        EmulatorError::InvalidSectionLayout => "invalid section layout in exheader"@,
        EmulatorError::EntrypointOutsideText => "entrypoint lies outside the text section"@,
        EmulatorError::MmuTranslationFault { pc, va, pa, access } => "MMU translation fault"@
            + fault_tail(pc, va, pa, access),
        EmulatorError::MmuDomainFault { pc, va, pa, domain, access } => "MMU domain fault at PC=0x"@
            + hex8(pc) + ", VA=0x"@ + hex8(va) + ", PA="@
            + optional_address(pa) + ", domain="@ + decimal(domain as nat)
            + " ("@ + access_name(access) + ")"@,
        EmulatorError::MmuPermissionFault { pc, va, pa, access } => "MMU permission fault"@
            + fault_tail(pc, va, pa, access),
        EmulatorError::AlignmentFault { pc, va, pa, access } => "alignment fault"@
            + fault_tail(pc, va, pa, access),
        EmulatorError::ServiceCallError { pc, service_command_id, handle_id, result_code } => "service call failure at PC=0x"@
            + hex8(pc) + ", cmd=0x"@ + hex4(service_command_id, false)
            + ", handle="@ + decimal(handle_id as nat) + ", result=0x"@
            + hex8(result_code),
    }
}

/// The description of a command header.
pub open spec fn header_text(header: CommandHeader) -> Seq<char> {
    "cmd=0x"@ + hex4(header.command_id, true) + " normal="@ + decimal(
        header.normal_words as nat,
    ) + " translate="@ + decimal(header.translate_words as nat)
}

/// Appends a text.
pub fn push_text(out: &mut String, text: &str)
    ensures
        final(out)@ == old(out)@ + text@,
{
    out.append(text);
}

fn digit_str(digit: u64) -> (text: &'static str)
    requires
        digit < 10,
    ensures
        text@ == digit_text(digit as nat),
{
    if digit == 0 {
        "0"
    } else if digit == 1 {
        "1"
    } else if digit == 2 {
        "2"
    } else if digit == 3 {
        "3"
    } else if digit == 4 {
        "4"
    } else if digit == 5 {
        "5"
    } else if digit == 6 {
        "6"
    } else if digit == 7 {
        "7"
    } else if digit == 8 {
        "8"
    } else {
        "9"
    }
}

/// Appends a number in decimal.
pub fn push_decimal(out: &mut String, value: u64)
    ensures
        final(out)@ == old(out)@ + decimal(value as nat),
    decreases value,
{
    if value >= 10 {
        push_decimal(out, value / 10);
    }
    out.append(digit_str(value % 10));
    proof {
        if value >= 10 {
            assert(out@ =~= old(out)@ + (decimal((value / 10) as nat) + digit_text(
                (value % 10) as nat,
            )));
        }
    }
}

fn hex_str(nibble: u32, upper: bool) -> (text: &'static str)
    requires
        nibble < 16,
    ensures
        text@ == hex_char(nibble, upper),
{
    if nibble < 10 {
        digit_str(nibble as u64)
    } else if nibble == 10 {
        if upper {
            "A"
        } else {
            "a"
        }
    } else if nibble == 11 {
        if upper {
            "B"
        } else {
            "b"
        }
    } else if nibble == 12 {
        if upper {
            "C"
        } else {
            "c"
        }
    } else if nibble == 13 {
        if upper {
            "D"
        } else {
            "d"
        }
    } else if nibble == 14 {
        if upper {
            "E"
        } else {
            "e"
        }
    } else {
        if upper {
            "F"
        } else {
            "f"
        }
    }
}

/// Appending texts one after the other appends their concatenation.
proof fn lemma_appended(head: Seq<char>, a: Seq<char>, b: Seq<char>, c: Seq<char>, d: Seq<char>)
    ensures
        head + a + b + c + d == head + (a + b + c + d),
{
    assert(head + a + b + c + d =~= head + (a + b + c + d));
}

fn push_hex_digit(out: &mut String, value: u32, shift: u32, upper: bool)
    requires
        shift < 32,
    ensures
        final(out)@ == old(out)@ + hex_char(field(value, shift, 0xF), upper),
{
    out.append(hex_str(take_field(value, shift, 0xF), upper));
}

/// Appends a word as eight lower-case hexadecimal digits.
pub fn push_hex8(out: &mut String, value: u32)
    ensures
        final(out)@ == old(out)@ + hex8(value),
{
    push_hex_digit(out, value, 28, false);
    push_hex_digit(out, value, 24, false);
    push_hex_digit(out, value, 20, false);
    push_hex_digit(out, value, 16, false);
    let ghost half = out@;
    push_hex_digit(out, value, 12, false);
    push_hex_digit(out, value, 8, false);
    push_hex_digit(out, value, 4, false);
    push_hex_digit(out, value, 0, false);
    proof {
        let high = hex_char(field(value, 28, 0xF), false) + hex_char(field(value, 24, 0xF), false)
            + hex_char(field(value, 20, 0xF), false) + hex_char(field(value, 16, 0xF), false);
        lemma_appended(
            old(out)@,
            hex_char(field(value, 28, 0xF), false),
            hex_char(field(value, 24, 0xF), false),
            hex_char(field(value, 20, 0xF), false),
            hex_char(field(value, 16, 0xF), false),
        );
        assert(half == old(out)@ + high);
        lemma_appended(
            half,
            hex_char(field(value, 12, 0xF), false),
            hex_char(field(value, 8, 0xF), false),
            hex_char(field(value, 4, 0xF), false),
            hex_char(field(value, 0, 0xF), false),
        );
        lemma_appended(
            high,
            hex_char(field(value, 12, 0xF), false),
            hex_char(field(value, 8, 0xF), false),
            hex_char(field(value, 4, 0xF), false),
            hex_char(field(value, 0, 0xF), false),
        );
        lemma_joined(
            old(out)@,
            high,
            hex_char(field(value, 12, 0xF), false) + hex_char(field(value, 8, 0xF), false)
                + hex_char(field(value, 4, 0xF), false) + hex_char(field(value, 0, 0xF), false),
        );
    }
}

/// Appends a half-word as four hexadecimal digits.
pub fn push_hex4(out: &mut String, value: u16, upper: bool)
    ensures
        final(out)@ == old(out)@ + hex4(value, upper),
{
    let wide = value as u32;
    push_hex_digit(out, wide, 12, upper);
    push_hex_digit(out, wide, 8, upper);
    push_hex_digit(out, wide, 4, upper);
    push_hex_digit(out, wide, 0, upper);
    proof {
        lemma_appended(
            old(out)@,
            hex_char(field(wide, 12, 0xF), upper),
            hex_char(field(wide, 8, 0xF), upper),
            hex_char(field(wide, 4, 0xF), upper),
            hex_char(field(wide, 0, 0xF), upper),
        );
    }
}

/// Concatenation is associative.
proof fn lemma_joined(a: Seq<char>, b: Seq<char>, c: Seq<char>)
    ensures
        a + b + c == a + (b + c),
{
    assert(a + b + c =~= a + (b + c));
}

fn push_access(out: &mut String, access: MemoryAccessKind)
    ensures
        final(out)@ == old(out)@ + access_name(access),
{
    match access {
        MemoryAccessKind::Read => push_text(out, "Read"),
        MemoryAccessKind::Write => push_text(out, "Write"),
        MemoryAccessKind::Execute => push_text(out, "Execute"),
    }
}

fn push_optional_address(out: &mut String, pa: Option<u32>)
    ensures
        final(out)@ == old(out)@ + optional_address(pa),
{
    match pa {
        None => push_text(out, "None"),
        Some(address) => {
            push_text(out, "Some(");
            push_decimal(out, address as u64);
            push_text(out, ")");
            assert(out@ =~= old(out)@ + optional_address(pa));
        },
    }
}

fn push_fault_tail(out: &mut String, pc: u32, va: u32, pa: Option<u32>, access: MemoryAccessKind)
    ensures
        final(out)@ == old(out)@ + fault_tail(pc, va, pa, access),
{
    push_text(out, " at PC=0x");
    push_hex8(out, pc);
    push_text(out, ", VA=0x");
    push_hex8(out, va);
    push_text(out, ", PA=");
    push_optional_address(out, pa);
    push_text(out, " (");
    push_access(out, access);
    push_text(out, ")");
    assert(out@ =~= old(out)@ + fault_tail(pc, va, pa, access));
}

impl EmulatorError {
    /// The message that describes the error.
    pub fn message(&self) -> (text: String)
        ensures
            text@ == message_text(*self),
    {
        let mut out = String::new();
        match *self {
            EmulatorError::RomTooSmall => push_text(
                &mut out,
                "ROM is too small to contain an NCSD header",
            ),
            EmulatorError::InvalidRomMagic => push_text(
                &mut out,
                "invalid ROM magic; expected NCSD at 0x100",
            ),
            EmulatorError::RomTooLarge { size, capacity } => {
                push_text(&mut out, "ROM size ");
                push_decimal(&mut out, size as u64);
                push_text(&mut out, " exceeds memory capacity ");
                push_decimal(&mut out, capacity as u64);
            },
            EmulatorError::MemoryOutOfBounds { address } => {
                push_text(&mut out, "memory access out of bounds at 0x");
                push_hex8(&mut out, address);
            },
            EmulatorError::InvalidInstruction { pc, opcode } => {
                push_text(&mut out, "invalid instruction 0x");
                push_hex8(&mut out, opcode);
                push_text(&mut out, " at PC=0x");
                push_hex8(&mut out, pc);
            },
            EmulatorError::RomNotLoaded => push_text(
                &mut out,
                "cannot execute because no ROM is loaded",
            ),
            EmulatorError::InvalidTitlePackage => push_text(&mut out, "invalid title package format"),
            EmulatorError::InvalidRomLayout => push_text(&mut out, "invalid NCSD/NCCH ROM layout"),
            EmulatorError::InvalidExHeader => push_text(&mut out, "invalid NCCH exheader format"),
            EmulatorError::InvalidNcsdHeader => push_text(&mut out, "invalid NCSD header"),
            EmulatorError::InvalidNcchHeader => push_text(&mut out, "invalid NCCH header"),
            EmulatorError::UnsupportedNcchCrypto => push_text(
                &mut out,
                "unsupported NCCH encryption",
            ),
            EmulatorError::InvalidExeFs => push_text(&mut out, "invalid ExeFS layout"),
            EmulatorError::InvalidRomFs => push_text(&mut out, "invalid RomFS layout"),
            EmulatorError::MissingCodeSection => push_text(
                &mut out,
                "ExeFS holds no .code section",
            ),
            EmulatorError::InvalidSectionLayout => push_text(
                &mut out,
                "invalid section layout in exheader",
            ),
            EmulatorError::EntrypointOutsideText => push_text(
                &mut out,
                "entrypoint lies outside the text section",
            ),
            EmulatorError::MmuTranslationFault { pc, va, pa, access } => {
                push_text(&mut out, "MMU translation fault");
                push_fault_tail(&mut out, pc, va, pa, access);
            },
            EmulatorError::MmuDomainFault { pc, va, pa, domain, access } => {
                push_text(&mut out, "MMU domain fault at PC=0x");
                push_hex8(&mut out, pc);
                push_text(&mut out, ", VA=0x");
                push_hex8(&mut out, va);
                push_text(&mut out, ", PA=");
                push_optional_address(&mut out, pa);
                push_text(&mut out, ", domain=");
                push_decimal(&mut out, domain as u64);
                push_text(&mut out, " (");
                push_access(&mut out, access);
                push_text(&mut out, ")");
            },
            EmulatorError::MmuPermissionFault { pc, va, pa, access } => {
                push_text(&mut out, "MMU permission fault");
                push_fault_tail(&mut out, pc, va, pa, access);
            },
            EmulatorError::AlignmentFault { pc, va, pa, access } => {
                push_text(&mut out, "alignment fault");
                push_fault_tail(&mut out, pc, va, pa, access);
            },
            EmulatorError::ServiceCallError { pc, service_command_id, handle_id, result_code } => {
                push_text(&mut out, "service call failure at PC=0x");
                push_hex8(&mut out, pc);
                push_text(&mut out, ", cmd=0x");
                push_hex4(&mut out, service_command_id, false);
                push_text(&mut out, ", handle=");
                push_decimal(&mut out, handle_id as u64);
                push_text(&mut out, ", result=0x");
                push_hex8(&mut out, result_code);
            },
        }
        assert(out@ =~= message_text(*self));
        out
    }
}

impl CommandHeader {
    /// The header as text: the command in hexadecimal and the two counts.
    pub fn describe(&self) -> (text: String)
        ensures
            text@ == header_text(*self),
    {
        let mut out = String::new();
        push_text(&mut out, "cmd=0x");
        push_hex4(&mut out, self.command_id, true);
        push_text(&mut out, " normal=");
        push_decimal(&mut out, self.normal_words as u64);
        push_text(&mut out, " translate=");
        push_decimal(&mut out, self.translate_words as u64);
        assert(out@ =~= header_text(*self));
        out
    }
}

/// The name of a fault kind.
pub open spec fn fault_name(kind: FaultKind) -> Seq<char> {
    match kind {
        FaultKind::Translation => "Translation"@,
        FaultKind::Domain => "Domain"@,
        FaultKind::Permission => "Permission"@,
        FaultKind::Alignment => "Alignment"@,
    }
}

/// The name of an interrupt line.
pub open spec fn line_name(line: IrqLine) -> Seq<char> {
    match line {
        IrqLine::Timer0 => "Timer0"@,
        IrqLine::VBlank => "VBlank"@,
        IrqLine::Dma0 => "Dma0"@,
    }
}

/// The name of an exception kind, with what it carries in parentheses.
pub open spec fn kind_name(kind: ExceptionKind) -> Seq<char> {
    match kind {
        ExceptionKind::UndefinedInstruction => "UndefinedInstruction"@,
        ExceptionKind::SoftwareInterrupt => "SoftwareInterrupt"@,
        ExceptionKind::PrefetchAbort(fault) => "PrefetchAbort("@ + fault_name(fault)
            + ")"@,
        ExceptionKind::DataAbort(fault) => "DataAbort("@ + fault_name(fault)
            + ")"@,
        ExceptionKind::Interrupt(line) => "Interrupt("@ + line_name(line)
            + ")"@,
    }
}

/// An exception as a JSON object, or `null`.
pub open spec fn exception_json(exception: Option<CpuException>) -> Seq<char> {
    match exception {
        None => "null"@,
        Some(e) => "{\"kind\":\""@ + kind_name(e.kind) + "\",\"vector\":"@
            + decimal(e.vector as nat) + ",\"return_address\":"@ + decimal(
            e.return_address as nat,
        ) + ",\"fault_opcode\":"@ + decimal(e.fault_opcode as nat) + "}"@,
    }
}

/// The first `count` registers in decimal, separated by commas.
pub open spec fn registers_json(regs: Seq<u32>, count: int) -> Seq<char>
    decreases count,
{
    if count <= 0 {
        Seq::empty()
    } else if count == 1 {
        decimal(regs[0] as nat)
    } else {
        registers_json(regs, count - 1) + ","@ + decimal(regs[count - 1] as nat)
    }
}

/// The state of the emulator as a JSON object.
pub open spec fn state_json_text(e: EmulatorModel) -> Seq<char> {
    "{\"pc\":"@ + decimal(e.cpu.pc() as nat) + ",\"cpsr\":"@ + decimal(
        e.cpu.cpsr as nat,
    ) + ",\"cycles\":"@ + decimal(e.scheduler.cycles as nat)
        + ",\"cpu_state\":\""@ + (match e.cpu.state {
        CpuRunState::Running => "Running"@,
        CpuRunState::Halted => "Halted"@,
    }) + "\",\"audio_samples\":"@ + decimal(e.dsp.samples.len())
        + ",\"service_calls\":"@ + decimal(e.kernel.svc_log.len())
        + ",\"registers\":["@ + registers_json(e.cpu.regs, 16)
        + "],\"last_exception\":"@ + exception_json(e.cpu.last_exception)
        + "}"@
}

/// The smaller of a count and a limit.
pub open spec fn at_most(count: nat, limit: nat) -> nat {
    if count < limit {
        count
    } else {
        limit
    }
}

/// The diagnostics of the emulator as a JSON object: how many recent records
/// each ring holds, how many boot checkpoints were reached, and where the boot
/// left the expected order.
pub open spec fn diagnostics_json_text(e: EmulatorModel) -> Seq<char> {
    "{\"cpu_trace\":"@ + decimal(at_most(e.cpu_trace.values.len(), 32))
        + ",\"ipc_trace\":"@ + decimal(at_most(e.ipc_trace.values.len(), 32))
        + ",\"service_trace\":"@ + decimal(at_most(e.service_trace.values.len(), 32))
        + ",\"mmu_fault_trace\":"@ + decimal(
        at_most(e.mmu_fault_trace.values.len(), 32),
    ) + ",\"gpu_trace\":"@ + decimal(at_most(e.gpu_trace.values.len(), 32))
        + ",\"fault_snapshots\":"@ + decimal(
        at_most(e.fault_snapshots.values.len(), 16),
    ) + ",\"boot_events\":"@ + decimal(e.boot_profiler.observed.len())
        + ",\"boot_divergence_at\":"@ + (match e.boot_profiler.divergence_at {
        Some(index) => decimal(index as nat),
        None => "null"@,
    }) + "}"@
}

fn push_kind(out: &mut String, kind: ExceptionKind)
    ensures
        final(out)@ == old(out)@ + kind_name(kind),
{
    match kind {
        ExceptionKind::UndefinedInstruction => push_text(out, "UndefinedInstruction"),
        ExceptionKind::SoftwareInterrupt => push_text(out, "SoftwareInterrupt"),
        ExceptionKind::PrefetchAbort(fault) => {
            push_text(out, "PrefetchAbort(");
            push_fault(out, fault);
            push_text(out, ")");
            assert(out@ =~= old(out)@ + kind_name(kind));
        },
        ExceptionKind::DataAbort(fault) => {
            push_text(out, "DataAbort(");
            push_fault(out, fault);
            push_text(out, ")");
            assert(out@ =~= old(out)@ + kind_name(kind));
        },
        ExceptionKind::Interrupt(line) => {
            push_text(out, "Interrupt(");
            match line {
                IrqLine::Timer0 => push_text(out, "Timer0"),
                IrqLine::VBlank => push_text(out, "VBlank"),
                IrqLine::Dma0 => push_text(out, "Dma0"),
            }
            push_text(out, ")");
            assert(out@ =~= old(out)@ + kind_name(kind));
        },
    }
}

fn push_fault(out: &mut String, fault: FaultKind)
    ensures
        final(out)@ == old(out)@ + fault_name(fault),
{
    match fault {
        FaultKind::Translation => push_text(out, "Translation"),
        FaultKind::Domain => push_text(out, "Domain"),
        FaultKind::Permission => push_text(out, "Permission"),
        FaultKind::Alignment => push_text(out, "Alignment"),
    }
}

fn push_exception(out: &mut String, exception: Option<CpuException>)
    ensures
        final(out)@ == old(out)@ + exception_json(exception),
{
    match exception {
        None => push_text(out, "null"),
        Some(e) => {
            push_text(out, "{\"kind\":\"");
            push_kind(out, e.kind);
            push_text(out, "\",\"vector\":");
            push_decimal(out, e.vector as u64);
            push_text(out, ",\"return_address\":");
            push_decimal(out, e.return_address as u64);
            push_text(out, ",\"fault_opcode\":");
            push_decimal(out, e.fault_opcode as u64);
            push_text(out, "}");
            assert(out@ =~= old(out)@ + exception_json(exception));
        },
    }
}

fn push_count(out: &mut String, count: usize, limit: usize)
    ensures
        final(out)@ == old(out)@ + decimal(at_most(count as nat, limit as nat)),
{
    push_decimal(
        out,
        if count < limit {
            count as u64
        } else {
            limit as u64
        },
    );
}

impl Emulator3ds {
    /// The state of the emulator as JSON text.
    pub fn state_json(&self) -> (text: String)
        ensures
            text@ == state_json_text(self@),
    {
        let state = self.state();
        let mut out = String::new();
        push_text(&mut out, "{\"pc\":");
        push_decimal(&mut out, state.pc as u64);
        push_text(&mut out, ",\"cpsr\":");
        push_decimal(&mut out, state.cpsr as u64);
        push_text(&mut out, ",\"cycles\":");
        push_decimal(&mut out, state.cycles);
        push_text(&mut out, ",\"cpu_state\":\"");
        match state.cpu_state {
            CpuRunState::Running => push_text(&mut out, "Running"),
            CpuRunState::Halted => push_text(&mut out, "Halted"),
        }
        push_text(&mut out, "\",\"audio_samples\":");
        push_decimal(&mut out, state.audio_samples as u64);
        push_text(&mut out, ",\"service_calls\":");
        push_decimal(&mut out, state.service_calls as u64);
        push_text(&mut out, ",\"registers\":[");
        let ghost head = out@;
        let mut i: usize = 0;
        while i < 16
            invariant
                i <= 16,
                state.registers@ == self@.cpu.regs,
                out@ == head + registers_json(self@.cpu.regs, i as int),
            decreases 16 - i,
        {
            if i > 0 {
                push_text(&mut out, ",");
            }
            push_decimal(&mut out, state.registers[i] as u64);
            assert(out@ =~= head + registers_json(self@.cpu.regs, i + 1));
            i += 1;
        }
        push_text(&mut out, "],\"last_exception\":");
        push_exception(&mut out, state.last_exception);
        push_text(&mut out, "}");
        assert(out@ =~= state_json_text(self@));
        out
    }

    /// The diagnostics of the emulator as JSON text.
    pub fn diagnostics_json(&self) -> (text: String)
        ensures
            text@ == diagnostics_json_text(self@),
    {
        let mut out = String::new();
        push_text(&mut out, "{\"cpu_trace\":");
        push_count(&mut out, self.cpu_trace.len(), 32);
        push_text(&mut out, ",\"ipc_trace\":");
        push_count(&mut out, self.ipc_trace.len(), 32);
        push_text(&mut out, ",\"service_trace\":");
        push_count(&mut out, self.service_trace.len(), 32);
        push_text(&mut out, ",\"mmu_fault_trace\":");
        push_count(&mut out, self.mmu_fault_trace.len(), 32);
        push_text(&mut out, ",\"gpu_trace\":");
        push_count(&mut out, self.gpu_trace.len(), 32);
        push_text(&mut out, ",\"fault_snapshots\":");
        push_count(&mut out, self.fault_snapshots.len(), 16);
        push_text(&mut out, ",\"boot_events\":");
        let snapshot = self.boot_checkpoint_snapshot();
        push_decimal(&mut out, snapshot.events.len() as u64);
        push_text(&mut out, ",\"boot_divergence_at\":");
        match snapshot.divergence_at {
            Some(index) => push_decimal(&mut out, index as u64),
            None => push_text(&mut out, "null"),
        }
        push_text(&mut out, "}");
        assert(out@ =~= diagnostics_json_text(self@));
        out
    }
}

} // verus!
