use vstd::prelude::*;
use vstd::slice::{slice_subrange, slice_to_vec};
use vstd::string::StringExecFns;
use crate::error::EmulatorError;
use crate::loader::romfs::{normalize_path, normalized, RomFsModel};
use crate::text::{has_magic, le_word_at, magic_at, read_u32_le};

pub use crate::loader::exefs::{ExeFs, ExeFsFile};
pub use crate::loader::romfs::{RomFs, RomFsFile};

verus! {

/// One content of a title package: its id and where its bytes lie.
#[derive(Debug, Clone, Copy, PartialEq, Eq, Structural)]
pub struct ContentRecord {
    pub id: u32,
    pub offset: u32,
    pub size: u32,
}

/// A title package: a container of contents behind the magic `3DST`.
#[derive(Debug, Clone)]
pub struct TitlePackage {
    bytes: Vec<u8>,
    contents: Vec<ContentRecord>,
}

/// Mathematical model of a title package.
pub struct TitlePackageModel {
    pub bytes: Seq<u8>,
    pub contents: Seq<ContentRecord>,
}

impl View for TitlePackage {
    type V = TitlePackageModel;

    closed spec fn view(&self) -> TitlePackageModel {
        TitlePackageModel { bytes: self.bytes@, contents: self.contents@ }
    }
}

/// Whether bytes start with the magic of a title package.
pub open spec fn is_package(raw: Seq<u8>) -> bool {
    raw.len() >= 8 && magic_at(raw, 0, 0x33, 0x44, 0x53, 0x54)
}

/// Record `index` of the content table.
pub open spec fn content_record(raw: Seq<u8>, index: int) -> ContentRecord {
    ContentRecord {
        id: le_word_at(raw, 8 + 12 * index),
        offset: le_word_at(raw, 8 + 12 * index + 4),
        size: le_word_at(raw, 8 + 12 * index + 8),
    }
}

/// Whether the first `count` records lie inside the package and name bytes
/// inside the package.
pub open spec fn records_valid(raw: Seq<u8>, count: int) -> bool {
    &&& 8 + 12 * count <= raw.len()
    &&& forall|i: int|
        0 <= i < count ==> (#[trigger] content_record(raw, i)).offset + content_record(raw, i).size
            <= raw.len()
}

/// The package that bytes hold.
pub open spec fn parsed_package(raw: Seq<u8>) -> Result<TitlePackageModel, EmulatorError> {
    if is_package(raw) && records_valid(raw, le_word_at(raw, 4) as int) {
        Ok(
            TitlePackageModel {
                bytes: raw,
                contents: Seq::new(le_word_at(raw, 4) as nat, |i: int| content_record(raw, i)),
            },
        )
    } else {
        Err(EmulatorError::InvalidTitlePackage)
    }
}

/// Index of the first record at or after `from` with the given id.
pub open spec fn find_content(contents: Seq<ContentRecord>, id: u32, from: int) -> Option<int>
    decreases contents.len() - from,
{
    if from < 0 || from >= contents.len() {
        None
    } else if contents[from].id == id {
        Some(from)
    } else {
        find_content(contents, id, from + 1)
    }
}

impl TitlePackageModel {
    /// The bytes of a record, where they lie inside the package.
    pub open spec fn record_bytes(self, record: ContentRecord) -> Option<Seq<u8>> {
        if record.offset + record.size <= self.bytes.len() {
            Some(self.bytes.subrange(record.offset as int, record.offset + record.size))
        } else {
            None
        }
    }

    /// The bytes of the first content with the given id.
    pub open spec fn content(self, id: u32) -> Option<Seq<u8>> {
        match find_content(self.contents, id, 0) {
            Some(i) => self.record_bytes(self.contents[i]),
            None => None,
        }
    }

    /// The bytes of the first content, which holds the ROM image.
    pub open spec fn primary(self) -> Option<Seq<u8>> {
        if self.contents.len() == 0 {
            None
        } else {
            self.record_bytes(self.contents[0])
        }
    }
}

impl TitlePackage {
    /// Parses a title package.
    pub fn parse(raw: &[u8]) -> (result: Result<Self, EmulatorError>)
        ensures
            match result {
                Ok(package) => parsed_package(raw@) == Ok::<TitlePackageModel, EmulatorError>(
                    package@,
                ),
                Err(e) => parsed_package(raw@) == Err::<TitlePackageModel, EmulatorError>(e),
            },
    {
        if raw.len() < 8 || !has_magic(raw, 0, 0x33, 0x44, 0x53, 0x54) {
            return Err(EmulatorError::InvalidTitlePackage);
        }
        let count = read_u32_le(raw, 4);
        let mut contents: Vec<ContentRecord> = Vec::new();
        let mut done: u32 = 0;
        while done < count
            invariant
                done <= count,
                raw@.len() >= 8,
                count == le_word_at(raw@, 4),
                is_package(raw@),
                records_valid(raw@, done as int),
                contents@ == Seq::new(done as nat, |i: int| content_record(raw@, i)),
            decreases count - done,
        {
            let cursor: u64 = 8 + 12 * (done as u64);
            if cursor + 12 > raw.len() as u64 {
                return Err(EmulatorError::InvalidTitlePackage);
            }
            let at = cursor as usize;
            let record = ContentRecord {
                id: read_u32_le(raw, at),
                offset: read_u32_le(raw, at + 4),
                size: read_u32_le(raw, at + 8),
            };
            if record.offset as u64 + record.size as u64 > raw.len() as u64 {
                assert(content_record(raw@, done as int) == record);
                return Err(EmulatorError::InvalidTitlePackage);
            }
            contents.push(record);
            assert(contents@ =~= Seq::new((done + 1) as nat, |i: int| content_record(raw@, i)));
            done += 1;
        }
        Ok(TitlePackage { bytes: slice_to_vec(raw), contents })
    }

    pub fn contents(&self) -> (contents: &[ContentRecord])
        ensures
            contents@ == self@.contents,
    {
        self.contents.as_slice()
    }

    fn record_bytes(&self, record: ContentRecord) -> (data: Option<&[u8]>)
        ensures
            match data {
                Some(bytes) => self@.record_bytes(record) == Some(bytes@),
                None => self@.record_bytes(record) is None,
            },
    {
        let end: u64 = record.offset as u64 + record.size as u64;
        if end > self.bytes.len() as u64 {
            return None;
        }
        Some(slice_subrange(self.bytes.as_slice(), record.offset as usize, end as usize))
    }

    /// The bytes of the first content with the given id.
    pub fn content_bytes(&self, id: u32) -> (data: Option<&[u8]>)
        ensures
            match data {
                Some(bytes) => self@.content(id) == Some(bytes@),
                None => self@.content(id) is None,
            },
    {
        let mut i: usize = 0;
        while i < self.contents.len()
            invariant
                i <= self.contents@.len(),
                find_content(self@.contents, id, 0) == find_content(self@.contents, id, i as int),
            decreases self.contents@.len() - i,
        {
            if self.contents[i].id == id {
                return self.record_bytes(self.contents[i]);
            }
            i += 1;
        }
        None
    }

    /// The bytes of the first content, which holds the ROM image.
    pub fn primary_rom(&self) -> (data: Option<&[u8]>)
        ensures
            match data {
                Some(bytes) => self@.primary() == Some(bytes@),
                None => self@.primary() is None,
            },
    {
        if self.contents.len() == 0 {
            return None;
        }
        self.record_bytes(self.contents[0])
    }
}

/// The archives that the file-system service knows.
#[derive(Debug, Clone, Copy, PartialEq, Eq, Hash, Structural)]
pub enum ArchiveId {
    Sdmc,
    Save,
    RomFs,
    ExtData,
}

/// The archive that a numeric id names.
pub open spec fn archive_of(raw: u32) -> Option<ArchiveId> {
    if raw == 0 {
        Some(ArchiveId::Sdmc)
    } else if raw == 1 {
        Some(ArchiveId::Save)
    } else if raw == 2 {
        Some(ArchiveId::RomFs)
    } else if raw == 3 {
        Some(ArchiveId::ExtData)
    } else {
        None
    }
}

/// The path prefix under which an archive is mounted.
pub open spec fn archive_prefix(archive: ArchiveId) -> Seq<char> {
    match archive {
        ArchiveId::Sdmc => "/sdmc"@,
        ArchiveId::Save => "/save"@,
        ArchiveId::RomFs => "/romfs"@,
        ArchiveId::ExtData => "/extdata"@,
    }
}

impl ArchiveId {
    pub fn from_raw(raw: u32) -> (archive: Option<Self>)
        ensures
            archive == archive_of(raw),
    {
        if raw == 0 {
            Some(ArchiveId::Sdmc)
        } else if raw == 1 {
            Some(ArchiveId::Save)
        } else if raw == 2 {
            Some(ArchiveId::RomFs)
        } else if raw == 3 {
            Some(ArchiveId::ExtData)
        } else {
            None
        }
    }

    /// The numeric id of the archive.
    pub fn raw(self) -> (raw: u32)
        ensures
            archive_of(raw) == Some(self),
    {
        match self {
            ArchiveId::Sdmc => 0,
            ArchiveId::Save => 1,
            ArchiveId::RomFs => 2,
            ArchiveId::ExtData => 3,
        }
    }

    pub fn prefix(self) -> (prefix: &'static str)
        ensures
            prefix@ == archive_prefix(self),
    {
        match self {
            ArchiveId::Sdmc => "/sdmc",
            ArchiveId::Save => "/save",
            ArchiveId::RomFs => "/romfs",
            ArchiveId::ExtData => "/extdata",
        }
    }
}

/// An opened archive.
#[derive(Debug, Clone, Copy, PartialEq, Eq, Structural)]
pub struct ArchiveHandle {
    pub archive: ArchiveId,
}

/// An opened file: its archive and its normalised path.
#[derive(Debug, Clone, PartialEq, Eq)]
pub struct FileHandle {
    archive: ArchiveId,
    path: String,
}

/// Mathematical model of an opened file.
pub struct FileModel {
    pub archive: ArchiveId,
    pub path: Seq<char>,
}

impl View for FileHandle {
    type V = FileModel;

    closed spec fn view(&self) -> FileModel {
        FileModel { archive: self.archive, path: self.path@ }
    }
}

impl FileHandle {
    /// A copy of the handle.
    pub fn duplicate(&self) -> (copy: Self)
        ensures
            copy@ == self@,
    {
        FileHandle { archive: self.archive, path: self.path.clone() }
    }
}

/// The text of the normal form of a path.
pub open spec fn normal_path(path: Seq<char>) -> Seq<char> {
    normalized(path)
}

/// The files that the file-system service can reach: the read-only file system
/// of the title, once it is mounted.
#[derive(Debug, Clone)]
pub struct VirtualFileSystem {
    romfs: Option<RomFs>,
}

/// Mathematical model of the virtual file system.
pub struct VfsModel {
    pub romfs: Option<RomFsModel>,
}

impl View for VirtualFileSystem {
    type V = VfsModel;

    closed spec fn view(&self) -> VfsModel {
        VfsModel {
            romfs: match self.romfs {
                Some(romfs) => Some(romfs@),
                None => None,
            },
        }
    }
}

impl VfsModel {
    /// The archive that a numeric id opens: the read-only file system only once
    /// it is mounted.
    pub open spec fn archive(self, raw_id: u32) -> Option<ArchiveHandle> {
        match archive_of(raw_id) {
            None => None,
            Some(archive) => if archive == ArchiveId::RomFs && self.romfs is None {
                None
            } else {
                Some(ArchiveHandle { archive })
            },
        }
    }

    /// The file that a path opens in an archive: in the read-only file system
    /// the path must name a file; the other archives open any path.
    pub open spec fn file(self, archive: ArchiveHandle, path: Seq<char>) -> Option<FileModel> {
        if archive.archive == ArchiveId::RomFs {
            match self.romfs {
                None => None,
                Some(romfs) => if romfs.lookup(normal_path(path)) is Some {
                    Some(FileModel { archive: ArchiveId::RomFs, path: normal_path(path) })
                } else {
                    None
                },
            }
        } else {
            Some(FileModel { archive: archive.archive, path: normal_path(path) })
        }
    }

    /// What a read of an opened file yields: the bytes of a file of the read-only
    /// file system, and nothing for files of the other archives.
    pub open spec fn read(self, file: FileModel, offset: usize, size: usize) -> Option<Seq<u8>> {
        if file.archive == ArchiveId::RomFs {
            match self.romfs {
                None => None,
                Some(romfs) => romfs.read(file.path, offset, size),
            }
        } else {
            Some(Seq::empty())
        }
    }
}

impl VirtualFileSystem {
    /// A file system with nothing mounted.
    pub fn new() -> (vfs: Self)
        ensures
            vfs@ == (VfsModel { romfs: None }),
    {
        VirtualFileSystem { romfs: None }
    }

    pub fn mount_romfs(&mut self, romfs: RomFs)
        ensures
            final(self)@ == (VfsModel { romfs: Some(romfs@) }),
    {
        self.romfs = Some(romfs);
    }

    pub fn open_archive(&self, raw_id: u32) -> (handle: Option<ArchiveHandle>)
        ensures
            handle == self@.archive(raw_id),
    {
        let archive = match ArchiveId::from_raw(raw_id) {
            Some(archive) => archive,
            None => {
                return None;
            },
        };
        if archive == ArchiveId::RomFs && self.romfs.is_none() {
            return None;
        }
        Some(ArchiveHandle { archive })
    }

    /// The path of a file inside the tree of all archives: the prefix of the
    /// archive, then the normalised path.
    pub fn translate_path(&self, archive: ArchiveId, path: &str) -> (translated: String)
        ensures
            translated@ == archive_prefix(archive) + normal_path(path@),
    {
        let normalized = normalize_path(path);
        String::from_str(archive.prefix()).concat(normalized.as_str())
    }

    pub fn open_file(&self, archive: ArchiveHandle, path: &str) -> (file: Option<FileHandle>)
        ensures
            match file {
                Some(f) => self@.file(archive, path@) == Some(f@),
                None => self@.file(archive, path@) is None,
            },
    {
        let normalized = normalize_path(path);
        match archive.archive {
            ArchiveId::RomFs => match &self.romfs {
                None => None,
                Some(romfs) => match romfs.lookup(normalized.as_str()) {
                    Some(_) => Some(FileHandle { archive: ArchiveId::RomFs, path: normalized }),
                    None => None,
                },
            },
            _ => Some(FileHandle { archive: archive.archive, path: normalized }),
        }
    }

    pub fn read_file(&self, file: &FileHandle, offset: usize, size: usize) -> (data: Option<Vec<u8>>)
        ensures
            match data {
                Some(bytes) => self@.read(file@, offset, size) == Some(bytes@),
                None => self@.read(file@, offset, size) is None,
            },
    {
        match file.archive {
            ArchiveId::RomFs => match &self.romfs {
                None => None,
                Some(romfs) => romfs.read_file(file.path.as_str(), offset, size),
            },
            _ => Some(Vec::new()),
        }
    }
}

impl Default for VirtualFileSystem {
    fn default() -> (vfs: Self)
        ensures
            vfs@ == (VfsModel { romfs: None }),
    {
        VirtualFileSystem::new()
    }
}

} // verus!
