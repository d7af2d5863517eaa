use vstd::prelude::*;
use std::collections::HashMap;
use crate::bits::{field, take_field};
use crate::bus::{bus_read_word, Bus};
use crate::error::{EmulatorError, MemoryAccessKind};

verus! {

pub const SECTION_DESCRIPTOR_MASK: u32 = 0b11;

pub const SECTION_DESCRIPTOR_VALUE: u32 = 0b10;

pub const SECTION_BASE_MASK: u32 = 0xFFF0_0000;

pub const SECTION_VA_MASK: u32 = 0xFFF0_0000;

pub const SECTION_OFFSET_MASK: u32 = 0x000F_FFFF;

pub const TTBR0_MASK: u32 = 0xFFFF_C000;

/// A cached section translation.
#[derive(Debug, Clone, Copy, PartialEq, Eq, Structural)]
pub struct TlbEntry {
    pub pa_section: u32,
    pub domain: u8,
    pub ap: u8,
    pub apx: bool,
    pub execute_never: bool,
}

/// Mathematical model of the MMU: its three control words, the cache-enable bits
/// derived from the control word, and the TLB as a map from section key to entry.
pub struct MmuModel {
    pub control: u32,
    pub ttbr0: u32,
    pub dacr: u32,
    pub icache_enabled: bool,
    pub dcache_enabled: bool,
    pub tlb: Map<u32, TlbEntry>,
}

/// Key of the 1 MiB section that contains `va`.
pub open spec fn section_key(va: u32) -> u32 {
    va & SECTION_VA_MASK
}

/// Address of the section descriptor for `va` in the table at `ttbr0`.
pub open spec fn descriptor_address(ttbr0: u32, va: u32) -> u32 {
    ttbr0.wrapping_add((field(va, 20, 0xFFF) * 4) as u32)
}

/// Whether the low two bits mark a section descriptor.
pub open spec fn is_section_descriptor(descriptor: u32) -> bool {
    descriptor & SECTION_DESCRIPTOR_MASK == SECTION_DESCRIPTOR_VALUE
}

/// The fields of a section descriptor.
pub open spec fn decode_descriptor(descriptor: u32) -> TlbEntry {
    TlbEntry {
        pa_section: descriptor & SECTION_BASE_MASK,
        domain: field(descriptor, 5, 0xF) as u8,
        ap: field(descriptor, 10, 0x3) as u8,
        apx: field(descriptor, 15, 1) != 0,
        execute_never: field(descriptor, 4, 1) != 0,
    }
}

/// The two-bit access mode that the domain access control register gives a
/// domain: bits `2 * domain` and `2 * domain + 1`. There are sixteen domains; a
/// larger number counts modulo sixteen.
pub open spec fn domain_mode(dacr: u32, domain: u8) -> u32 {
    (dacr >> ((2 * (domain % 16)) as u32)) & 0b11
}

/// Whether the access permission bits allow an access in a client domain.
pub open spec fn ap_allows(ap: u8, apx: bool, access: MemoryAccessKind, privileged: bool) -> bool {
    if ap == 0b00 {
        false
    } else if ap == 0b01 {
        privileged
    } else if ap == 0b10 {
        privileged || access != MemoryAccessKind::Write
    } else if ap == 0b11 {
        !(apx && access == MemoryAccessKind::Write)
    } else {
        false
    }
}

/// The domain fault of an access.
pub open spec fn domain_fault(va: u32, domain: u8, access: MemoryAccessKind) -> EmulatorError {
    EmulatorError::MmuDomainFault { pc: 0, va, pa: None, domain, access }
}

/// The permission fault of an access.
pub open spec fn permission_fault(va: u32, access: MemoryAccessKind) -> EmulatorError {
    EmulatorError::MmuPermissionFault { pc: 0, va, pa: None, access }
}

/// The translation fault of an access.
pub open spec fn translation_fault(va: u32, access: MemoryAccessKind) -> EmulatorError {
    EmulatorError::MmuTranslationFault { pc: 0, va, pa: None, access }
}

/// The fault that the domain and permission checks raise for an access through
/// `entry`, if any. Domain mode `11` passes unconditionally, `01` enforces the
/// permission bits, and the other two modes raise a domain fault.
pub open spec fn access_fault(
    dacr: u32,
    entry: TlbEntry,
    va: u32,
    access: MemoryAccessKind,
    privileged: bool,
) -> Option<EmulatorError> {
    let mode = domain_mode(dacr, entry.domain);
    if mode == 0b11 {
        None
    } else if mode != 0b01 {
        Some(domain_fault(va, entry.domain, access))
    } else if entry.execute_never && access == MemoryAccessKind::Execute {
        Some(permission_fault(va, access))
    } else if !ap_allows(entry.ap, entry.apx, access, privileged) {
        Some(permission_fault(va, access))
    } else {
        None
    }
}

/// Result of the domain and permission checks for an access through `entry`.
pub open spec fn access_result(
    dacr: u32,
    entry: TlbEntry,
    va: u32,
    access: MemoryAccessKind,
    privileged: bool,
) -> Result<(), EmulatorError> {
    match access_fault(dacr, entry, va, access, privileged) {
        Some(fault) => Err(fault),
        None => Ok(()),
    }
}

/// The physical address that `entry` gives `va`.
pub open spec fn physical_address(entry: TlbEntry, va: u32) -> u32 {
    entry.pa_section | (va & SECTION_OFFSET_MASK)
}

/// Outcome of a translation: the result, and the MMU and the bus afterwards.
pub struct Translation<M> {
    pub result: Result<u32, EmulatorError>,
    pub mmu: MmuModel,
    pub bus: M,
}

impl MmuModel {
    /// Whether the MMU is enabled: the low bit of the control word.
    pub open spec fn enabled(self) -> bool {
        (self.control & 1) != 0
    }

    /// The MMU of a reset machine.
    pub open spec fn initial() -> MmuModel {
        MmuModel {
            control: 0,
            ttbr0: 0,
            dacr: 0,
            icache_enabled: false,
            dcache_enabled: false,
            tlb: Map::empty(),
        }
    }

    /// The MMU after a write of the control word: the TLB is flushed when the
    /// MMU-enable, I-cache or D-cache bit changed.
    pub open spec fn after_control_write(self, value: u32) -> MmuModel {
        let icache = (value & (1u32 << 12)) != 0;
        let dcache = (value & (1u32 << 2)) != 0;
        let changed = self.enabled() != ((value & 1) != 0) || self.icache_enabled != icache
            || self.dcache_enabled != dcache;
        MmuModel {
            control: value,
            icache_enabled: icache,
            dcache_enabled: dcache,
            tlb: if changed {
                Map::empty()
            } else {
                self.tlb
            },
            ..self
        }
    }

    /// The MMU after a write of the translation-table base: the base is aligned and
    /// the TLB flushed.
    pub open spec fn after_ttbr0_write(self, value: u32) -> MmuModel {
        MmuModel { ttbr0: value & TTBR0_MASK, tlb: Map::empty(), ..self }
    }

    /// The MMU after a write of the domain access control register: the TLB is flushed.
    pub open spec fn after_dacr_write(self, value: u32) -> MmuModel {
        MmuModel { dacr: value, tlb: Map::empty(), ..self }
    }

    /// The MMU after an explicit TLB invalidation.
    pub open spec fn flushed(self) -> MmuModel {
        MmuModel { tlb: Map::empty(), ..self }
    }
}

/// Result of the checks on an entry that was found or walked.
pub open spec fn checked_address(
    dacr: u32,
    entry: TlbEntry,
    va: u32,
    access: MemoryAccessKind,
    privileged: bool,
) -> Result<u32, EmulatorError> {
    match access_fault(dacr, entry, va, access, privileged) {
        Some(fault) => Err(fault),
        None => Ok(physical_address(entry, va)),
    }
}

/// Translation by a walk of the table in memory: the descriptor is read from the
/// table at TTBR0; anything but a section descriptor is a translation fault; a
/// section descriptor is decoded, cached, and checked.
pub open spec fn walk_model<B: Bus>(
    mmu: MmuModel,
    bus: B::Model,
    va: u32,
    access: MemoryAccessKind,
    privileged: bool,
) -> Translation<B::Model> {
    let read = bus_read_word::<B>(bus, descriptor_address(mmu.ttbr0, va));
    match read.result {
        Err(e) => Translation { result: Err(e), mmu, bus: read.bus },
        Ok(descriptor) => if !is_section_descriptor(descriptor) {
            Translation { result: Err(translation_fault(va, access)), mmu, bus: read.bus }
        } else {
            let entry = decode_descriptor(descriptor);
            Translation {
                result: checked_address(mmu.dacr, entry, va, access, privileged),
                mmu: MmuModel { tlb: mmu.tlb.insert(section_key(va), entry), ..mmu },
                bus: read.bus,
            }
        },
    }
}

/// Translation of `va`: the identity while the MMU is disabled, the cached entry
/// where the TLB has one, else a table walk.
pub open spec fn translate_model<B: Bus>(
    mmu: MmuModel,
    bus: B::Model,
    va: u32,
    access: MemoryAccessKind,
    privileged: bool,
) -> Translation<B::Model> {
    if !mmu.enabled() {
        Translation { result: Ok(va), mmu, bus }
    } else if mmu.tlb.contains_key(section_key(va)) {
        Translation {
            result: checked_address(mmu.dacr, mmu.tlb[section_key(va)], va, access, privileged),
            mmu,
            bus,
        }
    } else {
        walk_model::<B>(mmu, bus, va, access, privileged)
    }
}

/// Section-mapped MMU with a TLB.
pub struct Mmu {
    control: u32,
    ttbr0: u32,
    dacr: u32,
    icache_enabled: bool,
    dcache_enabled: bool,
    tlb: HashMap<u32, TlbEntry>,
}

impl View for Mmu {
    type V = MmuModel;

    closed spec fn view(&self) -> MmuModel {
        MmuModel {
            control: self.control,
            ttbr0: self.ttbr0,
            dacr: self.dacr,
            icache_enabled: self.icache_enabled,
            dcache_enabled: self.dcache_enabled,
            tlb: self.tlb@,
        }
    }
}

impl Mmu {
    /// An MMU that is disabled, with an empty TLB.
    pub fn new() -> (mmu: Self)
        ensures
            mmu@ == MmuModel::initial(),
    {
        Mmu {
            control: 0,
            ttbr0: 0,
            dacr: 0,
            icache_enabled: false,
            dcache_enabled: false,
            tlb: HashMap::new(),
        }
    }

    /// Back to the state of a new MMU.
    pub fn reset(&mut self)
        ensures
            final(self)@ == MmuModel::initial(),
    {
        self.control = 0;
        self.ttbr0 = 0;
        self.dacr = 0;
        self.icache_enabled = false;
        self.dcache_enabled = false;
        self.tlb.clear();
    }

    /// Writes the control word; the TLB is flushed when the MMU-enable, I-cache or
    /// D-cache bit changes.
    pub fn write_control(&mut self, value: u32)
        ensures
            final(self)@ == old(self)@.after_control_write(value),
    {
        let old_enabled = self.mmu_enabled();
        let old_icache = self.icache_enabled;
        let old_dcache = self.dcache_enabled;
        self.control = value;
        self.icache_enabled = (value & (1u32 << 12)) != 0;
        self.dcache_enabled = (value & (1u32 << 2)) != 0;
        if old_enabled != self.mmu_enabled() || old_icache != self.icache_enabled || old_dcache
            != self.dcache_enabled {
            self.invalidate_tlb();
        }
    }

    /// Writes the translation-table base, aligned to its boundary, and flushes the
    /// TLB.
    pub fn write_ttbr0(&mut self, value: u32)
        ensures
            final(self)@ == old(self)@.after_ttbr0_write(value),
    {
        self.ttbr0 = value & TTBR0_MASK;
        self.invalidate_tlb();
    }

    /// Writes the domain access control register and flushes the TLB.
    pub fn write_dacr(&mut self, value: u32)
        ensures
            final(self)@ == old(self)@.after_dacr_write(value),
    {
        self.dacr = value;
        self.invalidate_tlb();
    }

    /// Flushes the TLB.
    pub fn invalidate_tlb(&mut self)
        ensures
            final(self)@ == old(self)@.flushed(),
    {
        self.tlb.clear();
    }

    /// Number of cached section translations.
    pub fn tlb_len(&self) -> (len: usize)
        ensures
            len == self@.tlb.len(),
    {
        self.tlb.len()
    }

    /// Whether the MMU is enabled.
    pub fn mmu_enabled(&self) -> (enabled: bool)
        ensures
            enabled == self@.enabled(),
    {
        (self.control & 1) != 0
    }

    /// Whether the instruction cache bit of the control word is set.
    pub fn icache_enabled(&self) -> (enabled: bool)
        ensures
            enabled == self@.icache_enabled,
    {
        self.icache_enabled
    }

    /// Whether the data cache bit of the control word is set.
    pub fn dcache_enabled(&self) -> (enabled: bool)
        ensures
            enabled == self@.dcache_enabled,
    {
        self.dcache_enabled
    }

    /// Translates the address of an instruction fetch.
    pub fn translate_instruction<B: Bus>(&mut self, memory: &mut B, va: u32, privileged: bool) -> (result:
        Result<u32, EmulatorError>)
        ensures
            result == translate_model::<B>(
                old(self)@,
                old(memory).model(),
                va,
                MemoryAccessKind::Execute,
                privileged,
            ).result,
            final(self)@ == translate_model::<B>(
                old(self)@,
                old(memory).model(),
                va,
                MemoryAccessKind::Execute,
                privileged,
            ).mmu,
            final(memory).model() == translate_model::<B>(
                old(self)@,
                old(memory).model(),
                va,
                MemoryAccessKind::Execute,
                privileged,
            ).bus,
    {
        self.translate(memory, va, MemoryAccessKind::Execute, privileged)
    }

    /// Translates the address of a data read.
    pub fn translate_read<B: Bus>(&mut self, memory: &mut B, va: u32, privileged: bool) -> (result:
        Result<u32, EmulatorError>)
        ensures
            result == translate_model::<B>(
                old(self)@,
                old(memory).model(),
                va,
                MemoryAccessKind::Read,
                privileged,
            ).result,
            final(self)@ == translate_model::<B>(
                old(self)@,
                old(memory).model(),
                va,
                MemoryAccessKind::Read,
                privileged,
            ).mmu,
            final(memory).model() == translate_model::<B>(
                old(self)@,
                old(memory).model(),
                va,
                MemoryAccessKind::Read,
                privileged,
            ).bus,
    {
        self.translate(memory, va, MemoryAccessKind::Read, privileged)
    }

    /// Translates the address of a data write.
    pub fn translate_write<B: Bus>(&mut self, memory: &mut B, va: u32, privileged: bool) -> (result:
        Result<u32, EmulatorError>)
        ensures
            result == translate_model::<B>(
                old(self)@,
                old(memory).model(),
                va,
                MemoryAccessKind::Write,
                privileged,
            ).result,
            final(self)@ == translate_model::<B>(
                old(self)@,
                old(memory).model(),
                va,
                MemoryAccessKind::Write,
                privileged,
            ).mmu,
            final(memory).model() == translate_model::<B>(
                old(self)@,
                old(memory).model(),
                va,
                MemoryAccessKind::Write,
                privileged,
            ).bus,
    {
        self.translate(memory, va, MemoryAccessKind::Write, privileged)
    }

    /// Translates a virtual address for the given kind of access.
    pub fn translate<B: Bus>(
        &mut self,
        memory: &mut B,
        va: u32,
        access: MemoryAccessKind,
        privileged: bool,
    ) -> (result: Result<u32, EmulatorError>)
        ensures
            result == translate_model::<B>(old(self)@, old(memory).model(), va, access, privileged).result,
            final(self)@ == translate_model::<B>(
                old(self)@,
                old(memory).model(),
                va,
                access,
                privileged,
            ).mmu,
            final(memory).model() == translate_model::<B>(
                old(self)@,
                old(memory).model(),
                va,
                access,
                privileged,
            ).bus,
    {
        if !self.mmu_enabled() {
            return Ok(va);
        }
        let key = va & SECTION_VA_MASK;
        let cached: Option<TlbEntry> = match self.tlb.get(&key) {
            Some(entry) => Some(*entry),
            None => None,
        };
        let entry = match cached {
            Some(entry) => entry,
            None => {
                let table_index = take_field(va, 20, 0xFFF) * 4;
                let desc_addr = self.ttbr0.wrapping_add(table_index);
                let descriptor = match memory.read_u32_checked(desc_addr) {
                    Ok(descriptor) => descriptor,
                    Err(e) => {
                        return Err(e);
                    },
                };
                if descriptor & SECTION_DESCRIPTOR_MASK != SECTION_DESCRIPTOR_VALUE {
                    return Err(
                        EmulatorError::MmuTranslationFault { pc: 0, va, pa: None, access },
                    );
                }
                let entry = TlbEntry {
                    pa_section: descriptor & SECTION_BASE_MASK,
                    domain: take_field(descriptor, 5, 0xF) as u8,
                    ap: take_field(descriptor, 10, 0x3) as u8,
                    apx: take_field(descriptor, 15, 1) != 0,
                    execute_never: take_field(descriptor, 4, 1) != 0,
                };
                self.tlb.insert(key, entry);
                entry
            },
        };
        match self.check_domain_and_permissions(va, entry, access, privileged) {
            Err(fault) => Err(fault),
            Ok(_) => Ok(entry.pa_section | (va & SECTION_OFFSET_MASK)),
        }
    }

    /// The domain and permission checks for an access through `entry`: a domain
    /// in manager mode passes every access, a domain in client mode passes what
    /// XN and the permission bits allow, and a domain in one of the other two
    /// modes passes nothing.
    pub fn check_domain_and_permissions(
        &self,
        va: u32,
        entry: TlbEntry,
        access: MemoryAccessKind,
        privileged: bool,
    ) -> (result: Result<(), EmulatorError>)
        ensures
            result == access_result(self@.dacr, entry, va, access, privileged),
    {
        let shift = 2 * (entry.domain as u32 % 16);
        let mode = (self.dacr >> shift) & 0b11;
        if mode == 0b11 {
            return Ok(());
        }
        if mode != 0b01 {
            return Err(
                EmulatorError::MmuDomainFault { pc: 0, va, pa: None, domain: entry.domain, access },
            );
        }
        if entry.execute_never && access == MemoryAccessKind::Execute {
            return Err(EmulatorError::MmuPermissionFault { pc: 0, va, pa: None, access });
        }
        let allowed = if entry.ap == 0b00 {
            false
        } else if entry.ap == 0b01 {
            privileged
        } else if entry.ap == 0b10 {
            privileged || access != MemoryAccessKind::Write
        } else if entry.ap == 0b11 {
            !(entry.apx && access == MemoryAccessKind::Write)
        } else {
            false
        };
        if !allowed {
            return Err(EmulatorError::MmuPermissionFault { pc: 0, va, pa: None, access });
        }
        Ok(())
    }
}

/// While the MMU is disabled, translation is the identity and changes nothing.
pub proof fn law_disabled_is_identity<B: Bus>(
    mmu: MmuModel,
    bus: B::Model,
    va: u32,
    access: MemoryAccessKind,
    privileged: bool,
)
    requires
        !mmu.enabled(),
    ensures
        translate_model::<B>(mmu, bus, va, access, privileged) == (Translation {
            result: Ok(va),
            mmu,
            bus,
        }),
{
}

/// A virtual address in a section that is not cached and whose descriptor in the
/// table is not of type `0b10` translates to a translation fault.
pub proof fn law_non_section_descriptor_faults<B: Bus>(
    mmu: MmuModel,
    bus: B::Model,
    va: u32,
    access: MemoryAccessKind,
    privileged: bool,
    descriptor: u32,
)
    requires
        mmu.enabled(),
        !mmu.tlb.contains_key(section_key(va)),
        bus_read_word::<B>(bus, descriptor_address(mmu.ttbr0, va)).result == Ok::<
            u32,
            EmulatorError,
        >(descriptor),
        descriptor & 0b11 != 0b10,
    ensures
        translate_model::<B>(mmu, bus, va, access, privileged).result == Err::<u32, EmulatorError>(
            EmulatorError::MmuTranslationFault { pc: 0, va, pa: None, access },
        ),
        translate_model::<B>(mmu, bus, va, access, privileged).mmu == mmu,
{
}

/// The entry through which an enabled MMU translates `va`, where it finds one:
/// the cached one, else the one decoded from the section descriptor in the table.
pub open spec fn entry_for<B: Bus>(mmu: MmuModel, bus: B::Model, va: u32) -> Option<TlbEntry> {
    if mmu.tlb.contains_key(section_key(va)) {
        Some(mmu.tlb[section_key(va)])
    } else {
        match bus_read_word::<B>(bus, descriptor_address(mmu.ttbr0, va)).result {
            Ok(descriptor) => if is_section_descriptor(descriptor) {
                Some(decode_descriptor(descriptor))
            } else {
                None
            },
            Err(_) => None,
        }
    }
}

/// Where an enabled MMU finds an entry for `va`, the result of the translation is the
/// result of the domain and permission checks on that entry.
pub proof fn lemma_translate_through_entry<B: Bus>(
    mmu: MmuModel,
    bus: B::Model,
    va: u32,
    access: MemoryAccessKind,
    privileged: bool,
)
    requires
        mmu.enabled(),
        entry_for::<B>(mmu, bus, va) is Some,
    ensures
        translate_model::<B>(mmu, bus, va, access, privileged).result == checked_address(
            mmu.dacr,
            entry_for::<B>(mmu, bus, va)->Some_0,
            va,
            access,
            privileged,
        ),
{
}

/// In a domain whose mode in the DACR is `0b00`, every translation of a mapped
/// section raises a domain fault, whatever the permission bits and the access.
pub proof fn law_no_access_domain_faults<B: Bus>(
    mmu: MmuModel,
    bus: B::Model,
    va: u32,
    access: MemoryAccessKind,
    privileged: bool,
)
    requires
        mmu.enabled(),
        entry_for::<B>(mmu, bus, va) matches Some(entry) && domain_mode(mmu.dacr, entry.domain)
            == 0b00,
    ensures
        translate_model::<B>(mmu, bus, va, access, privileged).result == Err::<u32, EmulatorError>(
            EmulatorError::MmuDomainFault {
                pc: 0,
                va,
                pa: None,
                domain: entry_for::<B>(mmu, bus, va)->Some_0.domain,
                access,
            },
        ),
{
    lemma_translate_through_entry::<B>(mmu, bus, va, access, privileged);
}

/// In a domain whose mode in the DACR is `0b11` (manager), every translation of a
/// mapped section succeeds, whatever the permission bits, and yields the section
/// base joined with the offset inside the section.
pub proof fn law_manager_domain_translates<B: Bus>(
    mmu: MmuModel,
    bus: B::Model,
    va: u32,
    access: MemoryAccessKind,
    privileged: bool,
)
    requires
        mmu.enabled(),
        entry_for::<B>(mmu, bus, va) matches Some(entry) && domain_mode(mmu.dacr, entry.domain)
            == 0b11,
    ensures
        translate_model::<B>(mmu, bus, va, access, privileged).result == Ok::<u32, EmulatorError>(
            entry_for::<B>(mmu, bus, va)->Some_0.pa_section | (va & 0x000F_FFFF),
        ),
{
    lemma_translate_through_entry::<B>(mmu, bus, va, access, privileged);
}

/// A write to TTBR0 empties the TLB, so that the next translation of any address
/// walks the table at the new base.
pub proof fn law_ttbr0_write_walks_new_table<B: Bus>(
    mmu: MmuModel,
    bus: B::Model,
    value: u32,
    va: u32,
    access: MemoryAccessKind,
    privileged: bool,
)
    requires
        mmu.enabled(),
    ensures
        mmu.after_ttbr0_write(value).tlb == Map::<u32, TlbEntry>::empty(),
        mmu.after_ttbr0_write(value).ttbr0 == value & 0xFFFF_C000,
        translate_model::<B>(mmu.after_ttbr0_write(value), bus, va, access, privileged)
            == walk_model::<B>(mmu.after_ttbr0_write(value), bus, va, access, privileged),
        translate_model::<B>(mmu.after_ttbr0_write(value), bus, va, access, privileged).bus
            == bus_read_word::<B>(bus, descriptor_address(value & 0xFFFF_C000, va)).bus,
{
}

/// The TLB stays coherent with the control words: a write of TTBR0 or of the DACR
/// leaves it empty, and so does a write of the control word that changes the
/// MMU-enable, I-cache or D-cache bit, and an explicit invalidation.
pub proof fn law_control_writes_flush(mmu: MmuModel, value: u32)
    ensures
        mmu.after_ttbr0_write(value).tlb == Map::<u32, TlbEntry>::empty(),
        mmu.after_dacr_write(value).tlb == Map::<u32, TlbEntry>::empty(),
        mmu.flushed().tlb == Map::<u32, TlbEntry>::empty(),
        (mmu.enabled() != ((value & 1) != 0) || mmu.icache_enabled != ((value & (1u32 << 12)) != 0)
            || mmu.dcache_enabled != ((value & (1u32 << 2)) != 0)) ==> mmu.after_control_write(
            value,
        ).tlb == Map::<u32, TlbEntry>::empty(),
{
}

/// The domain check on its own: in a domain whose mode is `0b00` or the reserved
/// `0b10` every access raises a domain fault, whatever the permission bits, the
/// access and the privilege; in a domain whose mode is `0b11` every access
/// passes. The mode of one of the sixteen domains is the pair of bits of the
/// DACR at twice its number.
pub proof fn law_domain_mode_decides(
    dacr: u32,
    entry: TlbEntry,
    va: u32,
    access: MemoryAccessKind,
    privileged: bool,
)
    ensures
        entry.domain < 16 ==> domain_mode(dacr, entry.domain) == (dacr >> ((2 * entry.domain) as u32))
            & 0b11,
        domain_mode(dacr, entry.domain) == 0b00 || domain_mode(dacr, entry.domain) == 0b10
            ==> access_result(dacr, entry, va, access, privileged) == Err::<(), EmulatorError>(
            EmulatorError::MmuDomainFault { pc: 0, va, pa: None, domain: entry.domain, access },
        ),
        domain_mode(dacr, entry.domain) == 0b11 ==> access_result(
            dacr,
            entry,
            va,
            access,
            privileged,
        ) == Ok::<(), EmulatorError>(()),
{
}

/// In a client domain, a write through a section marked read-only by APX raises a
/// permission fault, unless the permission bits are `01` or `10` and the access is
/// privileged: those two settings permit every privileged access.
pub proof fn law_apx_section_rejects_writes<B: Bus>(
    mmu: MmuModel,
    bus: B::Model,
    va: u32,
    privileged: bool,
)
    requires
        mmu.enabled(),
        entry_for::<B>(mmu, bus, va) matches Some(entry) && domain_mode(mmu.dacr, entry.domain)
            == 0b01 && entry.apx && !(privileged && (entry.ap == 0b01 || entry.ap == 0b10)),
    ensures
        translate_model::<B>(mmu, bus, va, MemoryAccessKind::Write, privileged).result == Err::<
            u32,
            EmulatorError,
        >(
            EmulatorError::MmuPermissionFault {
                pc: 0,
                va,
                pa: None,
                access: MemoryAccessKind::Write,
            },
        ),
{
    lemma_translate_through_entry::<B>(mmu, bus, va, MemoryAccessKind::Write, privileged);
}

} // verus!
