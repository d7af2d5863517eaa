use vstd::prelude::*;
use vstd::slice::{slice_subrange, slice_to_vec};
use crate::error::EmulatorError;
use crate::text::{
    all_zero, decode_lenient, is_all_zero, le_word_at, lenient_text, read_u32_le, take_until_zero,
    until_zero,
};

verus! {

pub const EXEFS_HEADER_SIZE: usize = 0x200;

pub const EXEFS_ENTRY_SIZE: usize = 0x10;

pub const EXEFS_MAX_ENTRIES: usize = 10;

/// A file of the executable file system: its name and where its data lies.
#[derive(Debug, Clone, PartialEq, Eq)]
pub struct ExeFsFile {
    pub name: String,
    pub offset: usize,
    pub size: usize,
}

/// Mathematical model of a file entry.
pub struct ExeFsFileModel {
    pub name: Seq<char>,
    pub offset: usize,
    pub size: usize,
}

impl View for ExeFsFile {
    type V = ExeFsFileModel;

    open spec fn view(&self) -> ExeFsFileModel {
        ExeFsFileModel { name: self.name@, offset: self.offset, size: self.size }
    }
}

/// The executable file system of a program.
#[derive(Debug, Clone)]
pub struct ExeFs {
    bytes: Vec<u8>,
    entries: Vec<ExeFsFile>,
}

/// Mathematical model of the executable file system.
pub struct ExeFsModel {
    pub bytes: Seq<u8>,
    pub entries: Seq<ExeFsFileModel>,
}

impl View for ExeFs {
    type V = ExeFsModel;

    closed spec fn view(&self) -> ExeFsModel {
        ExeFsModel {
            bytes: self.bytes@,
            entries: Seq::new(self.entries@.len(), |i: int| self.entries@[i]@),
        }
    }
}

/// The eight name bytes of header entry `index`.
pub open spec fn entry_name_bytes(raw: Seq<u8>, index: int) -> Seq<u8> {
    raw.subrange(EXEFS_ENTRY_SIZE * index, EXEFS_ENTRY_SIZE * index + 8)
}

/// The first `count` header entries, parsed in order: an entry whose name is
/// all zero is passed over; a named entry must have data, and its data must lie
/// inside the file system.
pub open spec fn parsed_entries(raw: Seq<u8>, count: int) -> Result<
    Seq<ExeFsFileModel>,
    EmulatorError,
>
    decreases count,
{
    if count <= 0 {
        Ok(Seq::empty())
    } else {
        let base = EXEFS_ENTRY_SIZE * (count - 1);
        let start = EXEFS_HEADER_SIZE + le_word_at(raw, base + 8);
        let size = le_word_at(raw, base + 12);
        match parsed_entries(raw, count - 1) {
            Err(e) => Err(e),
            Ok(front) => if all_zero(entry_name_bytes(raw, count - 1)) {
                Ok(front)
            } else if size == 0 || start + size > raw.len() {
                Err(EmulatorError::InvalidExeFs)
            } else {
                Ok(
                    front.push(
                        ExeFsFileModel {
                            name: lenient_text(until_zero(entry_name_bytes(raw, count - 1))),
                            offset: start as usize,
                            size: size as usize,
                        },
                    ),
                )
            },
        }
    }
}

/// The file system that bytes hold.
pub open spec fn parsed_exefs(raw: Seq<u8>) -> Result<ExeFsModel, EmulatorError> {
    if raw.len() < EXEFS_HEADER_SIZE {
        Err(EmulatorError::InvalidExeFs)
    } else {
        match parsed_entries(raw, EXEFS_MAX_ENTRIES as int) {
            Err(e) => Err(e),
            Ok(entries) => Ok(ExeFsModel { bytes: raw, entries }),
        }
    }
}

/// Index of the first entry at or after `from` with the given name.
pub open spec fn find_entry(entries: Seq<ExeFsFileModel>, name: Seq<char>, from: int) -> Option<int>
    decreases entries.len() - from,
{
    if from < 0 || from >= entries.len() {
        None
    } else if entries[from].name == name {
        Some(from)
    } else {
        find_entry(entries, name, from + 1)
    }
}

impl ExeFsModel {
    /// The data of the first file with the given name, where it lies inside the
    /// file system.
    pub open spec fn file(self, name: Seq<char>) -> Option<Seq<u8>> {
        match find_entry(self.entries, name, 0) {
            None => None,
            Some(i) => if self.entries[i].offset + self.entries[i].size <= self.bytes.len() {
                Some(
                    self.bytes.subrange(
                        self.entries[i].offset as int,
                        self.entries[i].offset + self.entries[i].size,
                    ),
                )
            } else {
                None
            },
        }
    }
}

/// Once a header entry has failed, the header has failed.
pub proof fn lemma_entry_error_is_final(raw: Seq<u8>, failed: int, count: int)
    requires
        failed <= count,
        parsed_entries(raw, failed) is Err,
    ensures
        parsed_entries(raw, count) == parsed_entries(raw, failed),
    decreases count,
{
    if failed < count {
        lemma_entry_error_is_final(raw, failed, count - 1);
    }
}

impl ExeFs {
    /// Parses an executable file system.
    pub fn parse(raw: &[u8]) -> (result: Result<Self, EmulatorError>)
        ensures
            match result {
                Ok(exefs) => parsed_exefs(raw@) == Ok::<ExeFsModel, EmulatorError>(exefs@),
                Err(e) => parsed_exefs(raw@) == Err::<ExeFsModel, EmulatorError>(e),
            },
    {
        if raw.len() < EXEFS_HEADER_SIZE {
            return Err(EmulatorError::InvalidExeFs);
        }
        let mut entries: Vec<ExeFsFile> = Vec::new();
        let mut idx: usize = 0;
        assert(Seq::new(entries@.len(), |i: int| entries@[i]@) =~= Seq::<ExeFsFileModel>::empty());
        while idx < EXEFS_MAX_ENTRIES
            invariant
                idx <= EXEFS_MAX_ENTRIES,
                raw@.len() >= EXEFS_HEADER_SIZE,
                parsed_entries(raw@, idx as int) == Ok::<Seq<ExeFsFileModel>, EmulatorError>(
                    Seq::new(entries@.len(), |i: int| entries@[i]@),
                ),
            decreases EXEFS_MAX_ENTRIES - idx,
        {
            let base = idx * EXEFS_ENTRY_SIZE;
            if !is_all_zero(raw, base, base + 8) {
                let name = decode_lenient(&take_until_zero(raw, base, base + 8));
                let offset = read_u32_le(raw, base + 8) as u64;
                let size = read_u32_le(raw, base + 12) as u64;
                let data_start: u64 = EXEFS_HEADER_SIZE as u64 + offset;
                if size == 0 || data_start + size > raw.len() as u64 {
                    proof {
                        lemma_entry_error_is_final(raw@, idx + 1, EXEFS_MAX_ENTRIES as int);
                    }
                    return Err(EmulatorError::InvalidExeFs);
                }
                let ghost before = Seq::new(entries@.len(), |i: int| entries@[i]@);
                entries.push(ExeFsFile { name, offset: data_start as usize, size: size as usize });
                assert(Seq::new(entries@.len(), |i: int| entries@[i]@) =~= before.push(
                    entries@.last()@,
                ));
            }
            idx += 1;
        }
        Ok(ExeFs { bytes: slice_to_vec(raw), entries })
    }

    /// The data of the first file with the given name.
    pub fn file(&self, name: &str) -> (data: Option<&[u8]>)
        ensures
            match data {
                Some(bytes) => self@.file(name@) == Some(bytes@),
                None => self@.file(name@) is None,
            },
    {
        let wanted = name.to_owned();
        let mut i: usize = 0;
        while i < self.entries.len()
            invariant
                i <= self.entries@.len(),
                wanted@ == name@,
                find_entry(self@.entries, name@, 0) == find_entry(self@.entries, name@, i as int),
            decreases self.entries@.len() - i,
        {
            if self.entries[i].name == wanted {
                let offset = self.entries[i].offset;
                let size = self.entries[i].size;
                if offset <= self.bytes.len() && size <= self.bytes.len() - offset {
                    return Some(slice_subrange(self.bytes.as_slice(), offset, offset + size));
                }
                return None;
            }
            i += 1;
        }
        None
    }

    pub fn entries(&self) -> (entries: &[ExeFsFile])
        ensures
            entries@.len() == self@.entries.len(),
            forall|i: int| 0 <= i < entries@.len() ==> (#[trigger] entries@[i])@ == self@.entries[i],
    {
        self.entries.as_slice()
    }
}

} // verus!
