use vstd::prelude::*;
use crate::error::EmulatorError;
use crate::text::{
    all_zero, decode_lenient, is_all_zero, le_word_at, lenient_text, read_u32_le, take_until_zero,
    trim_text, trimmed_text, until_zero,
};

verus! {

pub const EXHEADER_SIZE: usize = 0x200;

/// Offset of the service access list in the extended header.
pub const SERVICE_LIST_OFFSET: usize = 0x100;

/// Number of slots in the service access list.
pub const SERVICE_SLOTS: usize = 32;

/// The extended header of a program: where its sections are loaded and how large
/// they are, and the services it may use.
#[derive(Debug, Clone, PartialEq, Eq)]
pub struct ExHeader {
    pub text_address: u32,
    pub text_size: u32,
    pub ro_address: u32,
    pub ro_size: u32,
    pub data_address: u32,
    pub data_size: u32,
    pub bss_size: u32,
    pub stack_size: u32,
    pub heap_size: u32,
    pub service_access: Vec<String>,
}

/// Mathematical model of an extended header.
pub struct ExHeaderModel {
    pub text_address: u32,
    pub text_size: u32,
    pub ro_address: u32,
    pub ro_size: u32,
    pub data_address: u32,
    pub data_size: u32,
    pub bss_size: u32,
    pub stack_size: u32,
    pub heap_size: u32,
    pub service_access: Seq<Seq<char>>,
}

impl View for ExHeader {
    type V = ExHeaderModel;

    open spec fn view(&self) -> ExHeaderModel {
        ExHeaderModel {
            text_address: self.text_address,
            text_size: self.text_size,
            ro_address: self.ro_address,
            ro_size: self.ro_size,
            data_address: self.data_address,
            data_size: self.data_size,
            bss_size: self.bss_size,
            stack_size: self.stack_size,
            heap_size: self.heap_size,
            service_access: Seq::new(
                self.service_access@.len(),
                |i: int| self.service_access@[i]@,
            ),
        }
    }
}

/// The eight bytes of slot `index` of the service access list.
pub open spec fn service_slot(raw: Seq<u8>, index: int) -> Seq<u8> {
    raw.subrange(SERVICE_LIST_OFFSET + 8 * index, SERVICE_LIST_OFFSET + 8 * index + 8)
}

/// The service name in a slot: the bytes in front of the first zero, decoded
/// leniently and trimmed.
pub open spec fn service_name(slot: Seq<u8>) -> Seq<char> {
    trimmed_text(lenient_text(until_zero(slot)))
}

/// The names in the first `count` slots: slots that are all zero or hold an
/// empty name are passed over.
pub open spec fn service_names(raw: Seq<u8>, count: int) -> Seq<Seq<char>>
    decreases count,
{
    if count <= 0 {
        Seq::empty()
    } else {
        let front = service_names(raw, count - 1);
        let slot = service_slot(raw, count - 1);
        if all_zero(slot) || service_name(slot).len() == 0 {
            front
        } else {
            front.push(service_name(slot))
        }
    }
}

/// The extended header that bytes hold: it needs at least `EXHEADER_SIZE` bytes.
pub open spec fn parsed_exheader(raw: Seq<u8>) -> Result<ExHeaderModel, EmulatorError> {
    if raw.len() < EXHEADER_SIZE {
        Err(EmulatorError::InvalidExHeader)
    } else {
        Ok(
            ExHeaderModel {
                text_address: le_word_at(raw, 0x10),
                text_size: le_word_at(raw, 0x18),
                stack_size: le_word_at(raw, 0x1C),
                ro_address: le_word_at(raw, 0x20),
                ro_size: le_word_at(raw, 0x28),
                data_address: le_word_at(raw, 0x30),
                data_size: le_word_at(raw, 0x38),
                bss_size: le_word_at(raw, 0x3C),
                heap_size: le_word_at(raw, 0x40),
                service_access: service_names(raw, SERVICE_SLOTS as int),
            },
        )
    }
}

impl ExHeaderModel {
    /// The sections fit the code file one after the other, and in memory text
    /// ends before read-only data begins, which ends before data begins.
    pub open spec fn layout_valid(self, code_file_size: usize) -> bool {
        &&& self.text_size + self.ro_size + self.data_size <= u32::MAX
        &&& self.text_size + self.ro_size + self.data_size <= code_file_size
        &&& self.text_address + self.text_size <= u32::MAX
        &&& self.text_address + self.text_size <= self.ro_address
        &&& self.ro_address + self.ro_size <= u32::MAX
        &&& self.ro_address + self.ro_size <= self.data_address
    }
}

impl ExHeader {
    /// Parses an extended header.
    pub fn parse(raw: &[u8]) -> (result: Result<Self, EmulatorError>)
        ensures
            match result {
                Ok(header) => parsed_exheader(raw@) == Ok::<ExHeaderModel, EmulatorError>(header@),
                Err(e) => parsed_exheader(raw@) == Err::<ExHeaderModel, EmulatorError>(e),
            },
    {
        if raw.len() < EXHEADER_SIZE {
            return Err(EmulatorError::InvalidExHeader);
        }
        let mut service_access: Vec<String> = Vec::new();
        let mut idx: usize = 0;
        while idx < SERVICE_SLOTS
            invariant
                idx <= SERVICE_SLOTS,
                raw@.len() >= EXHEADER_SIZE,
                Seq::new(service_access@.len(), |i: int| service_access@[i]@) == service_names(
                    raw@,
                    idx as int,
                ),
            decreases SERVICE_SLOTS - idx,
        {
            let start = SERVICE_LIST_OFFSET + idx * 8;
            if !is_all_zero(raw, start, start + 8) {
                let name_bytes = take_until_zero(raw, start, start + 8);
                let decoded = decode_lenient(&name_bytes);
                let name = trim_text(decoded.as_str());
                if !name.as_str().is_empty() {
                    let ghost before = Seq::new(
                        service_access@.len(),
                        |i: int| service_access@[i]@,
                    );
                    service_access.push(name);
                    assert(Seq::new(service_access@.len(), |i: int| service_access@[i]@)
                        =~= before.push(service_name(service_slot(raw@, idx as int))));
                }
            }
            idx += 1;
        }
        Ok(
            ExHeader {
                text_address: read_u32_le(raw, 0x10),
                text_size: read_u32_le(raw, 0x18),
                stack_size: read_u32_le(raw, 0x1C),
                ro_address: read_u32_le(raw, 0x20),
                ro_size: read_u32_le(raw, 0x28),
                data_address: read_u32_le(raw, 0x30),
                data_size: read_u32_le(raw, 0x38),
                bss_size: read_u32_le(raw, 0x3C),
                heap_size: read_u32_le(raw, 0x40),
                service_access,
            },
        )
    }

    /// A copy of the header.
    pub fn duplicate(&self) -> (copy: Self)
        ensures
            copy@ == self@,
    {
        let mut service_access: Vec<String> = Vec::new();
        let mut i: usize = 0;
        while i < self.service_access.len()
            invariant
                i <= self.service_access@.len(),
                service_access@.len() == i,
                forall|k: int| 0 <= k < i ==> service_access@[k]@ == self.service_access@[k]@,
            decreases self.service_access@.len() - i,
        {
            service_access.push(self.service_access[i].clone());
            i += 1;
        }
        let copy = ExHeader {
            text_address: self.text_address,
            text_size: self.text_size,
            ro_address: self.ro_address,
            ro_size: self.ro_size,
            data_address: self.data_address,
            data_size: self.data_size,
            bss_size: self.bss_size,
            stack_size: self.stack_size,
            heap_size: self.heap_size,
            service_access,
        };
        assert(copy@.service_access =~= self@.service_access);
        copy
    }

    /// Checks that the sections fit the code file and do not overlap in memory.
    pub fn validate_layout(&self, code_file_size: usize) -> (result: Result<(), EmulatorError>)
        ensures
            result is Ok <==> self@.layout_valid(code_file_size),
            result is Err ==> result == Err::<(), EmulatorError>(EmulatorError::InvalidSectionLayout),
    {
        let total: u64 = self.text_size as u64 + self.ro_size as u64 + self.data_size as u64;
        if total > u32::MAX as u64 {
            return Err(EmulatorError::InvalidSectionLayout);
        }
        if total > code_file_size as u64 {
            return Err(EmulatorError::InvalidSectionLayout);
        }
        let text_end: u64 = self.text_address as u64 + self.text_size as u64;
        if text_end > u32::MAX as u64 || text_end > self.ro_address as u64 {
            return Err(EmulatorError::InvalidSectionLayout);
        }
        let ro_end: u64 = self.ro_address as u64 + self.ro_size as u64;
        if ro_end > u32::MAX as u64 || ro_end > self.data_address as u64 {
            return Err(EmulatorError::InvalidSectionLayout);
        }
        Ok(())
    }
}

} // verus!
