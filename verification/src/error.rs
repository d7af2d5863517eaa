use vstd::prelude::*;

verus! {

/// The kind of access a translation or bus operation is performed for.
#[derive(Debug, Clone, Copy, PartialEq, Eq, Structural)]
pub enum MemoryAccessKind {
    Read,
    Write,
    Execute,
}

/// Every fatal condition the emulator can surface to its host.
#[derive(Debug, Clone, Copy, PartialEq, Eq, Structural)]
pub enum EmulatorError {
    RomTooSmall,
    InvalidRomMagic,
    RomTooLarge { size: usize, capacity: usize },
    MemoryOutOfBounds { address: u32 },
    InvalidInstruction { pc: u32, opcode: u32 },
    RomNotLoaded,
    InvalidTitlePackage,
    InvalidRomLayout,
    InvalidExHeader,
    InvalidNcsdHeader,
    InvalidNcchHeader,
    UnsupportedNcchCrypto,
    InvalidExeFs,
    InvalidRomFs,
    MissingCodeSection,
    InvalidSectionLayout,
    EntrypointOutsideText,
    MmuTranslationFault { pc: u32, va: u32, pa: Option<u32>, access: MemoryAccessKind },
    MmuDomainFault { pc: u32, va: u32, pa: Option<u32>, domain: u8, access: MemoryAccessKind },
    MmuPermissionFault { pc: u32, va: u32, pa: Option<u32>, access: MemoryAccessKind },
    AlignmentFault { pc: u32, va: u32, pa: Option<u32>, access: MemoryAccessKind },
    ServiceCallError { pc: u32, service_command_id: u16, handle_id: u32, result_code: u32 },
}

} // verus!
