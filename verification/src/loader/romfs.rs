use vstd::prelude::*;
use vstd::slice::slice_to_vec;
use vstd::string::{StrSliceExecFns, StringExecFns};
use crate::error::EmulatorError;
use crate::text::{
    copy_bytes, decode_lenient, has_magic, le_half_at, le_word_at, lenient_text, magic_at,
    read_u16_le, read_u32_le,
};

verus! {

/// What a scan of a path has seen: the segments that were closed and kept, and
/// the segment that is being read.
pub struct PathScan {
    pub kept: Seq<Seq<char>>,
    pub current: Seq<char>,
}

/// Whether a character separates segments: a slash or a backslash.
pub open spec fn is_separator(c: char) -> bool {
    c == '/' || c == '\\'
}

/// The kept segments after `segment` was closed: an empty segment and `.` are
/// dropped, `..` drops the segment before it, anything else is kept.
pub open spec fn closed(kept: Seq<Seq<char>>, segment: Seq<char>) -> Seq<Seq<char>> {
    if segment.len() == 0 || segment == seq!['.'] {
        kept
    } else if segment == seq!['.', '.'] {
        if kept.len() > 0 {
            kept.drop_last()
        } else {
            kept
        }
    } else {
        kept.push(segment)
    }
}

/// The scan of the first `count` characters of a path: a separator closes the
/// current segment.
pub open spec fn scanned(path: Seq<char>, count: int) -> PathScan
    decreases count,
{
    if count <= 0 {
        PathScan { kept: Seq::empty(), current: Seq::empty() }
    } else {
        let before = scanned(path, count - 1);
        if is_separator(path[count - 1]) {
            PathScan { kept: closed(before.kept, before.current), current: Seq::empty() }
        } else {
            PathScan { kept: before.kept, current: before.current.push(path[count - 1]) }
        }
    }
}

/// The first `count` segments, each behind a slash.
pub open spec fn joined(segments: Seq<Seq<char>>, count: int) -> Seq<char>
    decreases count,
{
    if count <= 0 {
        Seq::empty()
    } else {
        joined(segments, count - 1).push('/') + segments[count - 1]
    }
}

/// The normal form of a path: its segments, without empty ones and `.`, with
/// `..` resolved, each behind a slash; the root alone where none is left.
pub open spec fn normalized(path: Seq<char>) -> Seq<char> {
    let scan = scanned(path, path.len() as int);
    let segments = closed(scan.kept, scan.current);
    if segments.len() == 0 {
        seq!['/']
    } else {
        joined(segments, segments.len() as int)
    }
}

/// The segments that pairs of positions cut out of a path.
pub open spec fn cut(path: Seq<char>, ranges: Seq<(usize, usize)>) -> Seq<Seq<char>> {
    Seq::new(ranges.len(), |i: int| path.subrange(ranges[i].0 as int, ranges[i].1 as int))
}

/// Whether every pair of positions lies inside a path of `len` characters.
pub open spec fn ranges_inside(len: nat, ranges: Seq<(usize, usize)>) -> bool {
    forall|i: int| 0 <= i < ranges.len() ==> (#[trigger] ranges[i]).0 <= ranges[i].1 <= len
}

fn close_segment(path: &str, kept: &mut Vec<(usize, usize)>, from: usize, to: usize)
    requires
        from <= to <= path@.len(),
        ranges_inside(path@.len(), old(kept)@),
    ensures
        ranges_inside(path@.len(), final(kept)@),
        cut(path@, final(kept)@) == closed(
            cut(path@, old(kept)@),
            path@.subrange(from as int, to as int),
        ),
{
    let ghost before = cut(path@, kept@);
    let ghost segment = path@.subrange(from as int, to as int);
    let len = to - from;
    if len == 0 {
        return ;
    }
    if len == 1 && path.get_char(from) == '.' {
        assert(segment =~= seq!['.']);
        return ;
    }
    if len == 2 && path.get_char(from) == '.' && path.get_char(from + 1) == '.' {
        assert(segment =~= seq!['.', '.']);
        if kept.len() > 0 {
            let _ = kept.pop();
            assert(cut(path@, kept@) =~= before.drop_last());
        }
        return ;
    }
    assert(segment != seq!['.']) by {
        if segment == seq!['.'] {
            assert(segment.len() == 1 && segment[0] == '.');
        }
    }
    assert(segment != seq!['.', '.']) by {
        if segment == seq!['.', '.'] {
            assert(segment.len() == 2 && segment[0] == '.' && segment[1] == '.');
        }
    }
    kept.push((from, to));
    assert(cut(path@, kept@) =~= before.push(segment));
}

/// Normalises a path: backslashes count as slashes, empty segments and `.` are
/// dropped, `..` drops the segment before it, and the result starts at the root.
pub fn normalize_path(path: &str) -> (out: String)
    ensures
        out@ == normalized(path@),
{
    let len = path.unicode_len();
    let mut kept: Vec<(usize, usize)> = Vec::new();
    let mut start: usize = 0;
    let mut i: usize = 0;
    assert(cut(path@, kept@) =~= Seq::<Seq<char>>::empty());
    assert(path@.subrange(0, 0) =~= Seq::<char>::empty());
    while i < len
        invariant
            start <= i <= len,
            len == path@.len(),
            ranges_inside(path@.len(), kept@),
            scanned(path@, i as int) == (PathScan {
                kept: cut(path@, kept@),
                current: path@.subrange(start as int, i as int),
            }),
        decreases len - i,
    {
        let c = path.get_char(i);
        if c == '/' || c == '\\' {
            close_segment(path, &mut kept, start, i);
            start = i + 1;
            assert(path@.subrange(start as int, i + 1) =~= Seq::<char>::empty());
        } else {
            assert(path@.subrange(start as int, i + 1) =~= path@.subrange(
                start as int,
                i as int,
            ).push(path@[i as int]));
        }
        i += 1;
    }
    close_segment(path, &mut kept, start, len);
    let mut out = String::new();
    if kept.len() == 0 {
        out.append("/");
        proof {
            reveal_strlit("/");
            assert(out@ =~= seq!['/']);
        }
        return out;
    }
    let mut k: usize = 0;
    while k < kept.len()
        invariant
            k <= kept@.len(),
            ranges_inside(path@.len(), kept@),
            out@ == joined(cut(path@, kept@), k as int),
        decreases kept@.len() - k,
    {
        let ghost head = out@;
        out.append("/");
        out.append(path.substring_char(kept[k].0, kept[k].1));
        proof {
            reveal_strlit("/");
            assert("/"@ =~= seq!['/']);
            assert(out@ =~= head.push('/') + cut(path@, kept@)[k as int]);
        }
        k += 1;
    }
    out
}

/// A file of the read-only file system: its normalised path and where its data
/// lies.
#[derive(Debug, Clone, PartialEq, Eq)]
pub struct RomFsFile {
    pub path: String,
    pub offset: usize,
    pub size: usize,
}

/// Mathematical model of a file entry.
pub struct RomFsFileModel {
    pub path: Seq<char>,
    pub offset: usize,
    pub size: usize,
}

impl View for RomFsFile {
    type V = RomFsFileModel;

    open spec fn view(&self) -> RomFsFileModel {
        RomFsFileModel { path: self.path@, offset: self.offset, size: self.size }
    }
}

/// The read-only file system of a program.
#[derive(Debug, Clone)]
pub struct RomFs {
    bytes: Vec<u8>,
    files: Vec<RomFsFile>,
}

/// Mathematical model of the read-only file system: its bytes and its files,
/// no two of them with the same path.
pub struct RomFsModel {
    pub bytes: Seq<u8>,
    pub files: Seq<RomFsFileModel>,
}

impl View for RomFs {
    type V = RomFsModel;

    closed spec fn view(&self) -> RomFsModel {
        RomFsModel {
            bytes: self.bytes@,
            files: Seq::new(self.files@.len(), |i: int| self.files@[i]@),
        }
    }
}

/// Index of the first file at or after `from` with the given path.
pub open spec fn find_file(files: Seq<RomFsFileModel>, path: Seq<char>, from: int) -> Option<int>
    decreases files.len() - from,
{
    if from < 0 || from >= files.len() {
        None
    } else if files[from].path == path {
        Some(from)
    } else {
        find_file(files, path, from + 1)
    }
}

/// The files with one more added: it takes the place of a file with the same
/// path, else it is appended.
pub open spec fn with_file(files: Seq<RomFsFileModel>, file: RomFsFileModel) -> Seq<RomFsFileModel> {
    match find_file(files, file.path, 0) {
        Some(i) => files.update(i, file),
        None => files.push(file),
    }
}

/// The normalised path of a file entry whose raw path bytes are given.
pub open spec fn entry_path(path_bytes: Seq<u8>) -> Seq<char> {
    normalized(lenient_text(path_bytes))
}

/// The files of the table and the position behind it.
pub struct FileTable {
    pub files: Seq<RomFsFileModel>,
    pub cursor: int,
}

/// The first `count` entries of the file table, parsed in order. Each entry
/// holds the length of its path, the offset and the size of its data, and the
/// path; the entry and the data must lie inside the file system.
pub open spec fn parsed_files(raw: Seq<u8>, count: nat) -> Result<FileTable, EmulatorError>
    decreases count,
{
    if count == 0 {
        Ok(FileTable { files: Seq::empty(), cursor: 8 })
    } else {
        match parsed_files(raw, (count - 1) as nat) {
            Err(e) => Err(e),
            Ok(table) => {
                let at = table.cursor;
                let path_len = le_half_at(raw, at) as int;
                let offset = le_word_at(raw, at + 2) as int;
                let size = le_word_at(raw, at + 6) as int;
                if at + 10 > raw.len() || at + 10 + path_len > raw.len() || offset + size
                    > raw.len() {
                    Err(EmulatorError::InvalidRomFs)
                } else {
                    Ok(
                        FileTable {
                            files: with_file(
                                table.files,
                                RomFsFileModel {
                                    path: entry_path(raw.subrange(at + 10, at + 10 + path_len)),
                                    offset: offset as usize,
                                    size: size as usize,
                                },
                            ),
                            cursor: at + 10 + path_len,
                        },
                    )
                }
            },
        }
    }
}

/// The file system that bytes hold.
pub open spec fn parsed_romfs(raw: Seq<u8>) -> Result<RomFsModel, EmulatorError> {
    if raw.len() < 8 || !magic_at(raw, 0, 0x52, 0x4F, 0x4D, 0x46) {
        Err(EmulatorError::InvalidRomFs)
    } else {
        match parsed_files(raw, le_word_at(raw, 4) as nat) {
            Err(e) => Err(e),
            Ok(table) => Ok(RomFsModel { bytes: raw, files: table.files }),
        }
    }
}

impl RomFsModel {
    /// The data of every file lies inside the file system.
    pub open spec fn well_formed(self) -> bool {
        forall|i: int|
            0 <= i < self.files.len() ==> (#[trigger] self.files[i]).offset + self.files[i].size
                <= self.bytes.len()
    }

    /// The file at the normalised form of a path.
    pub open spec fn lookup(self, path: Seq<char>) -> Option<RomFsFileModel> {
        match find_file(self.files, normalized(path), 0) {
            Some(i) => Some(self.files[i]),
            None => None,
        }
    }

    /// Up to `size` bytes of a file from `offset` on: nothing where the offset is
    /// at or behind the end of the file, and no result where the file does not
    /// lie inside the file system.
    pub open spec fn read(self, path: Seq<char>, offset: usize, size: usize) -> Option<Seq<u8>> {
        match self.lookup(path) {
            None => None,
            Some(file) => if offset >= file.size {
                Some(Seq::empty())
            } else if file.offset + file.size > self.bytes.len() {
                None
            } else {
                let len = if size < file.size - offset {
                    size as int
                } else {
                    file.size - offset
                };
                Some(self.bytes.subrange(file.offset + offset, file.offset + offset + len))
            },
        }
    }
}

/// Once an entry of the file table has failed, the table has failed.
pub proof fn lemma_file_error_is_final(raw: Seq<u8>, failed: nat, count: nat)
    requires
        failed <= count,
        parsed_files(raw, failed) is Err,
    ensures
        parsed_files(raw, count) == parsed_files(raw, failed),
    decreases count,
{
    if failed < count {
        lemma_file_error_is_final(raw, failed, (count - 1) as nat);
    }
}

impl RomFs {
    fn position(files: &Vec<RomFsFile>, path: &String) -> (index: Option<usize>)
        ensures
            match index {
                Some(i) => i < files@.len() && find_file(
                    Seq::new(files@.len(), |k: int| files@[k]@),
                    path@,
                    0,
                ) == Some(i as int),
                None => find_file(Seq::new(files@.len(), |k: int| files@[k]@), path@, 0) is None,
            },
    {
        let ghost model = Seq::new(files@.len(), |k: int| files@[k]@);
        let mut i: usize = 0;
        while i < files.len()
            invariant
                i <= files@.len(),
                model == Seq::new(files@.len(), |k: int| files@[k]@),
                find_file(model, path@, 0) == find_file(model, path@, i as int),
            decreases files@.len() - i,
        {
            if files[i].path == *path {
                return Some(i);
            }
            i += 1;
        }
        None
    }

    /// Parses a read-only file system.
    pub fn parse(raw: &[u8]) -> (result: Result<Self, EmulatorError>)
        ensures
            match result {
                Ok(romfs) => parsed_romfs(raw@) == Ok::<RomFsModel, EmulatorError>(romfs@)
                    && romfs@.well_formed(),
                Err(e) => parsed_romfs(raw@) == Err::<RomFsModel, EmulatorError>(e),
            },
    {
        if raw.len() < 8 || !has_magic(raw, 0, 0x52, 0x4F, 0x4D, 0x46) {
            return Err(EmulatorError::InvalidRomFs);
        }
        let file_count = read_u32_le(raw, 4);
        let mut cursor: usize = 8;
        let mut files: Vec<RomFsFile> = Vec::new();
        let mut done: u32 = 0;
        assert(Seq::new(files@.len(), |k: int| files@[k]@) =~= Seq::<RomFsFileModel>::empty());
        while done < file_count
            invariant
                done <= file_count,
                cursor <= raw@.len(),
                raw@.len() >= 8,
                magic_at(raw@, 0, 0x52, 0x4F, 0x4D, 0x46),
                file_count == le_word_at(raw@, 4),
                parsed_files(raw@, done as nat) == Ok::<FileTable, EmulatorError>(
                    FileTable {
                        files: Seq::new(files@.len(), |k: int| files@[k]@),
                        cursor: cursor as int,
                    },
                ),
                forall|k: int|
                    0 <= k < files@.len() ==> (#[trigger] files@[k]).offset + files@[k].size
                        <= raw@.len(),
            decreases file_count - done,
        {
            if raw.len() - cursor < 10 {
                proof {
                    lemma_file_error_is_final(raw@, (done + 1) as nat, file_count as nat);
                }
                return Err(EmulatorError::InvalidRomFs);
            }
            let path_len = read_u16_le(raw, cursor) as usize;
            let offset = read_u32_le(raw, cursor + 2) as u64;
            let size = read_u32_le(raw, cursor + 6) as u64;
            let path_start = cursor + 10;
            if raw.len() - path_start < path_len || offset + size > raw.len() as u64 {
                proof {
                    lemma_file_error_is_final(raw@, (done + 1) as nat, file_count as nat);
                }
                return Err(EmulatorError::InvalidRomFs);
            }
            let path_end = path_start + path_len;
            let raw_path = decode_lenient(&copy_bytes(raw, path_start, path_end));
            let path = normalize_path(raw_path.as_str());
            let ghost before = Seq::new(files@.len(), |k: int| files@[k]@);
            let file = RomFsFile { path, offset: offset as usize, size: size as usize };
            let ghost added = file@;
            match Self::position(&files, &file.path) {
                Some(i) => {
                    files[i] = file;
                    assert(Seq::new(files@.len(), |k: int| files@[k]@) =~= before.update(
                        i as int,
                        added,
                    ));
                },
                None => {
                    files.push(file);
                    assert(Seq::new(files@.len(), |k: int| files@[k]@) =~= before.push(added));
                },
            }
            cursor = path_end;
            done += 1;
        }
        let romfs = RomFs { bytes: slice_to_vec(raw), files };
        Ok(romfs)
    }

    /// The file at the normalised form of `path`.
    pub fn lookup(&self, path: &str) -> (file: Option<&RomFsFile>)
        ensures
            match file {
                Some(f) => self@.lookup(path@) == Some(f@),
                None => self@.lookup(path@) is None,
            },
    {
        let wanted = normalize_path(path);
        match Self::position(&self.files, &wanted) {
            Some(i) => Some(&self.files[i]),
            None => None,
        }
    }

    /// Reads up to `size` bytes of a file from `offset` on.
    pub fn read_file(&self, path: &str, offset: usize, size: usize) -> (data: Option<Vec<u8>>)
        ensures
            match data {
                Some(bytes) => self@.read(path@, offset, size) == Some(bytes@),
                None => self@.read(path@, offset, size) is None,
            },
    {
        let wanted = normalize_path(path);
        let index = match Self::position(&self.files, &wanted) {
            Some(i) => i,
            None => {
                return None;
            },
        };
        let file = &self.files[index];
        assert(self@.files[index as int] == file@);
        if offset >= file.size {
            return Some(Vec::new());
        }
        if file.offset > self.bytes.len() || file.size > self.bytes.len() - file.offset {
            return None;
        }
        let read_len = if size < file.size - offset {
            size
        } else {
            file.size - offset
        };
        let start = file.offset + offset;
        Some(copy_bytes(self.bytes.as_slice(), start, start + read_len))
    }

    /// Number of files, counting each path once.
    pub fn file_count(&self) -> (count: usize)
        ensures
            count == self@.files.len(),
    {
        self.files.len()
    }
}

} // verus!
