//! A read-only file system backed by a zip archive held in memory.
//!
//! Zip archives have no real directories, just files with long names; a
//! directory listing is every name that starts with the given prefix.

use vstd::prelude::*;
use crate::debug_repr::{debug_quoted, push_debug_quoted};
use crate::vfs::{flags_alter, is_vfs_error, Error, OpenOptions, VMetadata};

verus! {

/// A zip archive read from an in-memory buffer (`zip::ZipArchive`).
#[verifier::external_type_specification]
#[verifier::external_body]
#[verifier::reject_recursive_types(R)]
pub struct ExZipArchive<R>(zip::ZipArchive<R>);

/// An in-memory reader (`std::io::Cursor`).
#[verifier::external_type_specification]
#[verifier::external_body]
#[verifier::reject_recursive_types(T)]
pub struct ExCursor<T>(std::io::Cursor<T>);

/// An error of the zip crate (`zip::result::ZipError`).
#[verifier::external_type_specification]
#[verifier::external_body]
pub struct ExZipError(zip::result::ZipError);

/// The archives this module reads: zip data held in memory.
pub type MemArchive = zip::ZipArchive<std::io::Cursor<Vec<u8>>>;

/// One file of an archive, as the zip crate reads it:
/// - `.0` its name;
/// - `.1` the uncompressed size its header records;
/// - `.2` its contents, read to the end once the crate has handed the file
///   out (`None` when that read fails, on damaged compressed data);
/// - `.3` whether `ZipArchive::by_name` hands the file out (it is not
///   encrypted, its compression method is supported and its local header
///   can be read);
/// - `.4` whether `ZipArchive::by_name` returns at all when it picks this
///   file: it does not for a file that is not flagged encrypted but carries
///   an AES extra field, where the crate unwraps the error it got;
/// - `.5` whether its local header can be read (`ZipArchive::by_index_raw`).
pub type ZipEntry = (Seq<char>, u64, Option<Seq<u8>>, bool, bool, bool);

/// The files of an archive, in the order of its central directory.
pub uninterp spec fn zip_entries(a: MemArchive) -> Seq<ZipEntry>;

/// The files of the archive that `bytes` hold, or `None` if they hold no
/// zip archive that can be read.
pub uninterp spec fn zip_parsed(bytes: Seq<u8>) -> Option<Seq<ZipEntry>>;

/// Some file of `entries` has the name `name`.
pub open spec fn names_file(entries: Seq<ZipEntry>, name: Seq<char>) -> bool {
    exists|k: int| 0 <= k < entries.len() && #[trigger] entries[k].0 == name
}

/// The position of the file that a lookup by `name` finds: the last one
/// with that name (the archive's name table keeps the last file entered
/// under a name), or -1 when no file has it.
pub open spec fn picked_index(entries: Seq<ZipEntry>, name: Seq<char>) -> int
    decreases entries.len(),
{
    if entries.len() == 0 {
        -1
    } else if entries.last().0 == name {
        entries.len() - 1
    } else {
        picked_index(entries.drop_last(), name)
    }
}

/// The file that a lookup by `name` finds.
pub open spec fn picked(entries: Seq<ZipEntry>, name: Seq<char>) -> ZipEntry {
    entries[picked_index(entries, name)]
}

/// A lookup by `name` finds a file, and the zip crate hands it out.
pub open spec fn opens_by_name(entries: Seq<ZipEntry>, name: Seq<char>) -> bool {
    names_file(entries, name) && picked(entries, name).3
}

/// `ZipArchive::by_name` returns when asked for `name`: no file has the
/// name, or the file that the lookup finds is one it returns on.
pub open spec fn by_name_returns(entries: Seq<ZipEntry>, name: Seq<char>) -> bool {
    names_file(entries, name) ==> picked(entries, name).4
}

/// The local header of every file can be read.
pub open spec fn headers_readable(entries: Seq<ZipEntry>) -> bool {
    forall|k: int| 0 <= k < entries.len() ==> (#[trigger] entries[k]).5
}

/// The lookup by `name` finds a file exactly when some file has the name;
/// the file it finds has that name, and no later file has it.
pub proof fn lemma_picked_index(entries: Seq<ZipEntry>, name: Seq<char>)
    ensures
        -1 <= picked_index(entries, name) < entries.len(),
        picked_index(entries, name) >= 0 <==> names_file(entries, name),
        picked_index(entries, name) >= 0 ==> picked(entries, name).0 == name,
        forall|k: int| picked_index(entries, name) < k < entries.len() ==> #[trigger] entries[k].0 != name,
    decreases entries.len(),
{
    if entries.len() > 0 && entries.last().0 != name {
        let rest = entries.drop_last();
        lemma_picked_index(rest, name);
        if names_file(entries, name) {
            let k = choose|k: int| 0 <= k < entries.len() && #[trigger] entries[k].0 == name;
            assert(rest[k].0 == name);
        }
        if names_file(rest, name) {
            let k = choose|k: int| 0 <= k < rest.len() && #[trigger] rest[k].0 == name;
            assert(entries[k].0 == name);
        }
        assert forall|k: int| picked_index(entries, name) < k < entries.len() implies #[trigger] entries[k].0 != name by {
            if k < rest.len() {
                assert(rest[k] == entries[k]);
            }
        }
    } else if entries.len() > 0 {
        assert(entries[entries.len() - 1].0 == name);
    }
}

/// Reads the archive in `bytes` (`zip::ZipArchive::new` on a cursor).
/// Claimed: it succeeds exactly when `bytes` hold a readable archive, and
/// the archive then has the files of [`zip_parsed`].
#[verifier::external_body]
fn read_archive(bytes: Vec<u8>) -> (r: Result<MemArchive, zip::result::ZipError>)
    ensures
        r is Ok <==> zip_parsed(bytes@) is Some,
        r matches Ok(a) ==> zip_entries(a) == zip_parsed(bytes@)->0,
{
    zip::ZipArchive::new(std::io::Cursor::new(bytes))
}

/// The number of files of the archive (`zip::ZipArchive::len`).
#[verifier::external_body]
fn archive_len(a: &MemArchive) -> (n: usize)
    ensures
        n == zip_entries(*a).len(),
{
    a.len()
}

/// The name of the file at `i` (`zip::ZipArchive::by_index_raw`, then the
/// file's `name`).  Claimed: the archive's files are unchanged, the call
/// succeeds exactly when the file's local header can be read, and the name
/// given back is that of the file at `i`.
#[verifier::external_body]
fn archive_name_at(a: &mut MemArchive, i: usize) -> (r: Result<String, zip::result::ZipError>)
    requires
        i < zip_entries(*old(a)).len(),
    ensures
        zip_entries(*final(a)) == zip_entries(*old(a)),
        r is Ok <==> zip_entries(*old(a))[i as int].5,
        r matches Ok(s) ==> s@ == zip_entries(*old(a))[i as int].0,
{
    a.by_index_raw(i).map(|f| f.name().to_string())
}

/// Looks `name` up with an empty password
/// (`zip::ZipArchive::by_name_decrypt`), which hands an unencrypted file
/// out as `by_name` does but answers an AES extra field on it with an error
/// value in place of a panic.  Claimed: the archive's files are unchanged,
/// a name that no file has gives an error, `Ok(true)` (a file was handed
/// out) means that `by_name` returns on the name, and a file that `by_name`
/// hands out gives `Ok(true)`.  What an encrypted file gives is not stated.
#[verifier::external_body]
fn archive_lookup(a: &mut MemArchive, name: &str) -> (r: Result<bool, zip::result::ZipError>)
    ensures
        zip_entries(*final(a)) == zip_entries(*old(a)),
        !names_file(zip_entries(*old(a)), name@) ==> r is Err,
        r matches Ok(true) ==> by_name_returns(zip_entries(*old(a)), name@),
        opens_by_name(zip_entries(*old(a)), name@) ==> r matches Ok(true),
{
    match a.by_name_decrypt(name, &[]) {
        Ok(Ok(_)) => Ok(true),
        Ok(Err(_)) => Ok(false),
        Err(e) => Err(e),
    }
}

/// The recorded size of the file named `name` (`zip::ZipArchive::by_name`,
/// then the file's `size`).  Claimed: the archive's files are unchanged,
/// the call succeeds exactly when the crate hands out the file that the
/// lookup finds, and the size is that file's.
#[verifier::external_body]
fn archive_size_of(a: &mut MemArchive, name: &str) -> (r: Result<u64, zip::result::ZipError>)
    requires
        by_name_returns(zip_entries(*old(a)), name@),
    ensures
        zip_entries(*final(a)) == zip_entries(*old(a)),
        r is Ok <==> opens_by_name(zip_entries(*old(a)), name@),
        r matches Ok(n) ==> n == picked(zip_entries(*old(a)), name@).1,
{
    a.by_name(name).map(|f| f.size())
}

/// The contents of the file named `name` (`zip::ZipArchive::by_name`, then
/// `std::io::Read::read_to_end` on the file it hands out; the file borrows
/// the archive, so both calls stand here).  Claimed: the archive's files
/// are unchanged, the outer result is `Ok` exactly when the crate hands out
/// the file that the lookup finds, and the inner one holds that file's
/// contents, or the error of a read that failed.
#[verifier::external_body]
fn archive_read(a: &mut MemArchive, name: &str) -> (r: Result<Result<Vec<u8>, std::io::Error>, zip::result::ZipError>)
    requires
        by_name_returns(zip_entries(*old(a)), name@),
    ensures
        zip_entries(*final(a)) == zip_entries(*old(a)),
        r is Ok <==> opens_by_name(zip_entries(*old(a)), name@),
        r matches Ok(Ok(d)) ==> picked(zip_entries(*old(a)), name@).2 == Some(d@),
        r matches Ok(Err(_)) ==> picked(zip_entries(*old(a)), name@).2 is None,
{
    match a.by_name(name) {
        Ok(mut f) => {
            let mut buf = Vec::new();
            match std::io::Read::read_to_end(&mut f, &mut buf) {
                Ok(_) => Ok(Ok(buf)),
                Err(e) => Ok(Err(e)),
            }
        },
        Err(e) => Err(e),
    }
}

/// The message of the error that stands for any zip error.  The zip error
/// is described by `std::error::Error::description`, whose default text the
/// zip crate keeps.
pub open spec fn zip_error_message() -> Seq<char> {
    "Zip error: description() is deprecated; use Display"@
}

/// The library's error for an error of the zip crate.
pub fn zip_error(_e: zip::result::ZipError) -> (r: Error)
    ensures
        is_vfs_error(r, zip_error_message()),
{
    zip_failure()
}

/// The error that stands for any zip error.
fn zip_failure() -> (r: Error)
    ensures
        is_vfs_error(r, zip_error_message()),
{
    Error::VfsError(String::from_str("Zip error: description() is deprecated; use Display"))
}

/// The names of `names` that start with `prefix`, in order.
pub open spec fn names_with_prefix(names: Seq<Seq<char>>, prefix: Seq<char>) -> Seq<Seq<char>>
    decreases names.len(),
{
    if names.len() == 0 {
        Seq::<Seq<char>>::empty()
    } else {
        let r = names_with_prefix(names.drop_last(), prefix);
        if prefix.is_prefix_of(names.last()) {
            r.push(names.last())
        } else {
            r
        }
    }
}

/// Metadata of a file in a zip archive.
#[derive(Debug, Copy, Clone, PartialEq, Eq, Structural)]
pub struct ZipMetadata {
    /// The recorded uncompressed size.
    pub len: u64,
    /// Always `false`: zip archives have no directories.
    pub is_dir: bool,
    /// Always `true`.
    pub is_file: bool,
}

impl VMetadata for ZipMetadata {
    open spec fn spec_is_dir(&self) -> bool {
        self.is_dir
    }

    open spec fn spec_is_file(&self) -> bool {
        self.is_file
    }

    open spec fn spec_len(&self) -> u64 {
        self.len
    }

    fn is_dir(&self) -> (b: bool) {
        self.is_dir
    }

    fn is_file(&self) -> (b: bool) {
        self.is_file
    }

    fn len(&self) -> (n: u64) {
        self.len
    }
}

/// Where a seek is measured from, as `std::io::SeekFrom`.
#[derive(Debug, Copy, Clone, PartialEq, Eq, Structural)]
pub enum SeekFrom {
    /// An offset from the start.
    Start(u64),
    /// A signed offset from the end.
    End(i64),
    /// A signed offset from the current position.
    Current(i64),
}

/// The position a seek leads to from `pos` in a buffer of `len` bytes, if it
/// is neither negative nor beyond `u64::MAX`.
pub open spec fn seek_target(len: nat, pos: nat, from: SeekFrom) -> Option<nat> {
    let t: int = match from {
        SeekFrom::Start(n) => n as int,
        SeekFrom::End(d) => len + d,
        SeekFrom::Current(d) => pos + d,
    };
    if 0 <= t <= u64::MAX { Some(t as nat) } else { None }
}

/// How many bytes a read into a buffer of `buf_len` bytes takes from
/// position `pos` of `len` bytes: as many as fit and remain.
pub open spec fn read_count(len: nat, pos: nat, buf_len: nat) -> int {
    if pos >= len {
        0
    } else {
        vstd::math::min(buf_len as int, len - pos)
    }
}

/// Seeking to the start and then reading into a buffer as large as the
/// contents reads all of them; seeking to the end and then reading reads
/// nothing; seeking by nothing from the current position stays there.
pub proof fn lemma_seek_then_read(len: nat, pos: nat)
    requires
        len <= u64::MAX,
        pos <= u64::MAX,
    ensures
        seek_target(len, pos, SeekFrom::Start(0)) == Some(0nat),
        read_count(len, 0, len) == len,
        seek_target(len, pos, SeekFrom::End(0)) == Some(len),
        read_count(len, len, len) == 0,
        seek_target(len, pos, SeekFrom::Current(0)) == Some(pos),
{
}

/// Where a seek leads, for any contents and position: to the offset
/// itself from the start, to the length plus the offset from the end, to
/// the position plus the offset from the current position; a target before
/// the start or beyond `u64::MAX` is refused.  A read from a position before
/// the end takes the next byte there, and one at or after the end nothing.
pub proof fn lemma_seek_targets(len: nat, pos: nat, n: u64, d: i64)
    ensures
        seek_target(len, pos, SeekFrom::Start(n)) == Some(n as nat),
        len + d < 0 ==> seek_target(len, pos, SeekFrom::End(d)) is None,
        0 <= len + d <= u64::MAX ==> seek_target(len, pos, SeekFrom::End(d)) == Some((len + d) as nat),
        pos + d < 0 ==> seek_target(len, pos, SeekFrom::Current(d)) is None,
        0 <= pos + d <= u64::MAX ==> seek_target(len, pos, SeekFrom::Current(d)) == Some((pos + d) as nat),
        n < len ==> read_count(len, n as nat, 1) == 1,
        n >= len ==> read_count(len, n as nat, 1) == 0,
        read_count(len, 0, len) == len,
{
}

/// The contents of a file of a zip archive, read into memory, with a
/// position to read from; it behaves as an `std::io::Cursor`.
#[derive(Debug, Clone)]
pub struct ZipFileWrapper {
    buffer: Vec<u8>,
    pos: u64,
}

impl ZipFileWrapper {
    /// The contents.
    pub closed spec fn contents(&self) -> Seq<u8> {
        self.buffer@
    }

    /// The position the next read starts at.
    pub closed spec fn position(&self) -> nat {
        self.pos as nat
    }

    /// A file with these contents, positioned at the start.
    pub fn new(data: Vec<u8>) -> (w: ZipFileWrapper)
        ensures
            w.contents() == data@,
            w.position() == 0,
    {
        ZipFileWrapper { buffer: data, pos: 0 }
    }

    /// The current position.
    pub fn pos(&self) -> (p: u64)
        ensures
            p == self.position(),
    {
        self.pos
    }

    /// Reads into `buf` from the current position: as many bytes as fit and
    /// remain, none when the position is at or past the end.
    pub fn read(&mut self, buf: &mut [u8]) -> (n: usize)
        ensures
            final(self).contents() == old(self).contents(),
            n == read_count(old(self).contents().len(), old(self).position(), old(buf)@.len()),
            final(self).position() == old(self).position() + n,
            final(buf)@.len() == old(buf)@.len(),
            forall|j: int| 0 <= j < n ==> #[trigger] final(buf)@[j] == old(self).contents()[old(self).position() + j],
            forall|j: int| n <= j < old(buf)@.len() ==> #[trigger] final(buf)@[j] == old(buf)@[j],
    {
        let len = self.buffer.len();
        if self.pos as u128 >= len as u128 {
            return 0;
        }
        let start = self.pos as usize;
        let avail = len - start;
        let n = if buf.len() < avail { buf.len() } else { avail };
        let mut i: usize = 0;
        while i < n
            invariant
                i <= n,
                n <= buf@.len(),
                start + n <= self.buffer@.len(),
                self.buffer@.len() == len,
                start == old(self).position(),
                self.buffer@ == old(self).contents(),
                buf@.len() == old(buf)@.len(),
                forall|j: int| 0 <= j < i ==> buf@[j] == self.buffer@[start + j],
                forall|j: int| i <= j < buf@.len() ==> buf@[j] == old(buf)@[j],
            decreases n - i,
        {
            buf[i] = self.buffer[start + i];
            i = i + 1;
        }
        self.pos = self.pos + n as u64;
        n
    }

    /// Moves the position; a target before the start or beyond `u64::MAX`
    /// is refused (`None`) and leaves the position as it was.
    pub fn seek(&mut self, from: SeekFrom) -> (r: Option<u64>)
        ensures
            final(self).contents() == old(self).contents(),
            r == (match seek_target(old(self).contents().len(), old(self).position(), from) {
                Some(t) => Some(t as u64),
                None => None::<u64>,
            }),
            final(self).position() == (match r {
                Some(t) => t as nat,
                None => old(self).position(),
            }),
            from matches SeekFrom::Start(n) ==> r == Some(n) && final(self).position() == n,
    {
        let target: i128 = match from {
            SeekFrom::Start(n) => n as i128,
            SeekFrom::End(d) => self.buffer.len() as i128 + d as i128,
            SeekFrom::Current(d) => self.pos as i128 + d as i128,
        };
        if 0 <= target && target <= u64::MAX as i128 {
            self.pos = target as u64;
            Some(self.pos)
        } else {
            None
        }
    }
}

/// A read-only file system holding a zip archive, with the names of its
/// files in the order of the archive.
#[derive(Debug)]
pub struct ZipFS {
    source: Option<String>,
    archive: MemArchive,
    index: Vec<String>,
}

impl ZipFS {
    /// The files of the archive.
    pub closed spec fn entries(&self) -> Seq<ZipEntry> {
        zip_entries(self.archive)
    }

    /// The names of the files, in order.
    pub closed spec fn names(&self) -> Seq<Seq<char>> {
        self.index@.map_values(|s: String| s@)
    }

    /// Where the archive came from, if known.
    pub closed spec fn spec_source(&self) -> Option<Seq<char>> {
        match self.source {
            Some(s) => Some(s@),
            None => None,
        }
    }

    /// The names are those of the archive's files.
    pub closed spec fn wf(&self) -> bool {
        &&& self.index@.len() == zip_entries(self.archive).len()
        &&& forall|i: int| 0 <= i < self.index@.len() ==> #[trigger] self.index@[i]@ == zip_entries(self.archive)[i].0
    }

    /// Reads the zip archive held in `bytes`, coming from `source` if that
    /// is known, and lists its files.  It fails when `bytes` hold no
    /// readable archive, or when the local header of one of its files
    /// cannot be read.
    pub fn from_bytes(bytes: Vec<u8>, source: Option<String>) -> (r: Result<ZipFS, Error>)
        ensures
            r is Ok <==> (zip_parsed(bytes@) matches Some(es) && headers_readable(es)),
            r matches Ok(z) ==> {
                &&& z.wf()
                &&& Some(z.entries()) == zip_parsed(bytes@)
                &&& z.names() == z.entries().map_values(|e: ZipEntry| e.0)
                &&& z.spec_source() == (match source { Some(s) => Some(s@), None => None::<Seq<char>> })
            },
            r matches Err(e) ==> is_vfs_error(e, zip_error_message()),
    {
        let ghost parsed = zip_parsed(bytes@);
        let mut archive = match read_archive(bytes) {
            Ok(a) => a,
            Err(e) => return Err(zip_error(e)),
        };
        let n = archive_len(&archive);
        let ghost entries = zip_entries(archive);
        let mut index: Vec<String> = Vec::new();
        let mut i: usize = 0;
        while i < n
            invariant
                n == entries.len(),
                zip_entries(archive) == entries,
                parsed == Some(entries),
                parsed == zip_parsed(bytes@),
                i <= n,
                index@.len() == i,
                forall|j: int| 0 <= j < i ==> #[trigger] index@[j]@ == entries[j].0,
                forall|j: int| 0 <= j < i ==> (#[trigger] entries[j]).5,
            decreases n - i,
        {
            match archive_name_at(&mut archive, i) {
                Ok(name) => index.push(name),
                Err(e) => {
                    assert(!entries[i as int].5);
                    assert(!headers_readable(entries));
                    return Err(zip_error(e));
                },
            }
            i = i + 1;
        }
        let z = ZipFS { source, archive, index };
        assert(z.names() =~= z.entries().map_values(|e: ZipEntry| e.0));
        Ok(z)
    }

    /// Reads the zip archive held in `bytes`, of unknown origin.
    pub fn from_read(bytes: Vec<u8>) -> (r: Result<ZipFS, Error>)
        ensures
            r is Ok <==> (zip_parsed(bytes@) matches Some(es) && headers_readable(es)),
            r matches Ok(z) ==> {
                &&& z.wf()
                &&& Some(z.entries()) == zip_parsed(bytes@)
                &&& z.names() == z.entries().map_values(|e: ZipEntry| e.0)
                &&& z.spec_source() is None
            },
            r matches Err(e) ==> is_vfs_error(e, zip_error_message()),
    {
        Self::from_bytes(bytes, None)
    }

    /// The names of the files, in the order of the archive.
    pub fn index(&self) -> (r: &[String])
        ensures
            r@.map_values(|s: String| s@) == self.names(),
    {
        self.index.as_slice()
    }

    /// How the file system is shown in messages: its fields, as `Debug`
    /// shows them, with the archive itself hidden.
    pub fn describe(&self) -> (s: String)
        ensures
            s@ == zip_fs_debug(self.spec_source(), self.names()),
    {
        proof {
            reveal_strlit("ZipFS { source: ");
            reveal_strlit("Some(");
            reveal_strlit(")");
            reveal_strlit("None");
            reveal_strlit(", archive: RefCell { value: <ZipArchiveAccess> }, index: ");
            reveal_strlit(" }");
        }
        let mut s = String::from_str("ZipFS { source: ");
        match &self.source {
            Some(src) => {
                s.append("Some(");
                push_debug_quoted(&mut s, src.as_str());
                s.append(")");
            },
            None => s.append("None"),
        }
        s.append(", archive: RefCell { value: <ZipArchiveAccess> }, index: ");
        push_debug_list(&mut s, self.index.as_slice());
        s.append(" }");
        s
    }

    /// Opens the file named `path` for reading, with its whole contents
    /// read into memory.  A zip file system is read-only, so any option
    /// that may change it is refused.  A file the zip crate does not hand
    /// out gives the zip error; contents that cannot be read give the
    /// error of the read.
    pub fn open_options(&mut self, path: &str, options: OpenOptions) -> (r: Result<ZipFileWrapper, Error>)
        requires
            old(self).wf(),
        ensures
            final(self).wf(),
            final(self).entries() == old(self).entries(),
            final(self).names() == old(self).names(),
            final(self).spec_source() == old(self).spec_source(),
            flags_alter(options@) ==> (r matches Err(e) && is_vfs_error(e,
                "Cannot alter file "@ + debug_quoted(path@) + " in zipfile "@ + zip_fs_name(*old(self)) + ", filesystem read-only"@)),
            !flags_alter(options@) ==> (r is Ok <==> opens_by_name(old(self).entries(), path@)
                && picked(old(self).entries(), path@).2 is Some),
            r matches Ok(w) ==> w.position() == 0 && Some(w.contents()) == picked(old(self).entries(), path@).2,
            !flags_alter(options@) && !opens_by_name(old(self).entries(), path@) ==> (r matches Err(e)
                && is_vfs_error(e, zip_error_message())),
            !flags_alter(options@) && opens_by_name(old(self).entries(), path@)
                && picked(old(self).entries(), path@).2 is None ==> r matches Err(Error::IOError(_)),
    {
        if options.alters() {
            return Err(Error::VfsError(self.refusal("Cannot alter file ", path)));
        }
        match archive_lookup(&mut self.archive, path) {
            Ok(true) => {},
            Ok(false) => return Err(zip_failure()),
            Err(e) => return Err(zip_error(e)),
        }
        match archive_read(&mut self.archive, path) {
            Ok(Ok(data)) => Ok(ZipFileWrapper::new(data)),
            Ok(Err(e)) => Err(Error::IOError(std::sync::Arc::new(e))),
            Err(e) => Err(zip_error(e)),
        }
    }

    /// Making a directory is refused: the file system is read-only.
    pub fn mkdir(&self, path: &str) -> (r: Result<(), Error>)
        ensures
            r matches Err(e) && is_vfs_error(e,
                "Cannot mkdir "@ + debug_quoted(path@) + " in zipfile "@ + zip_fs_name(*self) + ", filesystem read-only"@),
    {
        Err(Error::VfsError(self.refusal("Cannot mkdir ", path)))
    }

    /// Removing a file is refused: the file system is read-only.
    pub fn rm(&self, path: &str) -> (r: Result<(), Error>)
        ensures
            r matches Err(e) && is_vfs_error(e,
                "Cannot rm "@ + debug_quoted(path@) + " in zipfile "@ + zip_fs_name(*self) + ", filesystem read-only"@),
    {
        Err(Error::VfsError(self.refusal("Cannot rm ", path)))
    }

    /// Removing a tree is refused: the file system is read-only.
    pub fn rmrf(&self, path: &str) -> (r: Result<(), Error>)
        ensures
            r matches Err(e) && is_vfs_error(e,
                "Cannot rmrf "@ + debug_quoted(path@) + " in zipfile "@ + zip_fs_name(*self) + ", filesystem read-only"@),
    {
        Err(Error::VfsError(self.refusal("Cannot rmrf ", path)))
    }

    fn refusal(&self, what: &str, path: &str) -> (m: String)
        ensures
            m@ == what@ + debug_quoted(path@) + " in zipfile "@ + zip_fs_name(*self) + ", filesystem read-only"@,
    {
        let mut msg = String::from_str(what);
        push_debug_quoted(&mut msg, path);
        msg.append(" in zipfile ");
        let d = self.describe();
        msg.append(d.as_str());
        msg.append(", filesystem read-only");
        msg
    }

    /// Whether the archive can open a file named `path`: the zip crate
    /// hands out the file that a lookup by that name finds.
    pub fn path_exists(&mut self, path: &str) -> (b: bool)
        requires
            old(self).wf(),
        ensures
            final(self).wf(),
            final(self).entries() == old(self).entries(),
            final(self).names() == old(self).names(),
            final(self).spec_source() == old(self).spec_source(),
            b == opens_by_name(old(self).entries(), path@),
    {
        match archive_lookup(&mut self.archive, path) {
            Ok(true) => archive_size_of(&mut self.archive, path).is_ok(),
            _ => false,
        }
    }

    /// The metadata of the file named `path`: a file, never a directory,
    /// with the size its header records.
    pub fn metadata(&mut self, path: &str) -> (r: Result<ZipMetadata, Error>)
        requires
            old(self).wf(),
        ensures
            final(self).wf(),
            final(self).entries() == old(self).entries(),
            final(self).names() == old(self).names(),
            final(self).spec_source() == old(self).spec_source(),
            r is Ok <==> opens_by_name(old(self).entries(), path@),
            r matches Ok(m) ==> m == (ZipMetadata { len: picked(old(self).entries(), path@).1, is_file: true, is_dir: false }),
            r matches Err(e) ==> is_vfs_error(e, "Metadata not found in zip file for "@ + path@),
    {
        let found: Option<u64> = match archive_lookup(&mut self.archive, path) {
            Ok(true) => match archive_size_of(&mut self.archive, path) {
                Ok(len) => Some(len),
                Err(_) => None,
            },
            _ => None,
        };
        match found {
            Some(len) => Ok(ZipMetadata { len, is_file: true, is_dir: false }),
            None => {
                let mut msg = String::from_str("Metadata not found in zip file for ");
                msg.append(path);
                Err(Error::VfsError(msg))
            },
        }
    }

    /// Every name in the archive that starts with `path`, in order.
    pub fn read_dir(&self, path: &str) -> (r: Vec<String>)
        ensures
            r@.map_values(|s: String| s@) == names_with_prefix(self.names(), path@),
    {
        let mut out: Vec<String> = Vec::new();
        let mut i: usize = 0;
        let ghost names = self.names();
        while i < self.index.len()
            invariant
                i <= self.index@.len(),
                names == self.index@.map_values(|s: String| s@),
                out@.map_values(|s: String| s@) == names_with_prefix(names.take(i as int), path@),
            decreases self.index@.len() - i,
        {
            let ghost before = out@;
            let keep = starts_with(self.index[i].as_str(), path);
            assert(names.take(i + 1).drop_last() =~= names.take(i as int));
            assert(names.take(i + 1).last() == self.index@[i as int]@);
            if keep {
                out.push(self.index[i].clone());
                assert(out@.map_values(|s: String| s@) =~= before.map_values(|s: String| s@).push(self.index@[i as int]@));
            }
            i = i + 1;
        }
        assert(names.take(self.index@.len() as int) =~= names);
        out
    }

    /// Where the archive came from, if known.
    pub fn to_path_buf(&self) -> (r: Option<String>)
        ensures
            match r {
                Some(s) => self.spec_source() == Some(s@),
                None => self.spec_source() is None,
            },
    {
        match &self.source {
            Some(s) => Some(s.clone()),
            None => None,
        }
    }
}

/// How `Debug` shows the origin of a zip file system: `None`, or the path
/// quoted inside `Some(..)`.
pub open spec fn source_debug(source: Option<Seq<char>>) -> Seq<char> {
    match source {
        Some(s) => "Some("@ + debug_quoted(s) + ")"@,
        None => "None"@,
    }
}

/// The strings `items`, each quoted, separated by `, `.
pub open spec fn debug_items(items: Seq<Seq<char>>) -> Seq<char>
    decreases items.len(),
{
    if items.len() == 0 {
        Seq::<char>::empty()
    } else if items.len() == 1 {
        debug_quoted(items[0])
    } else {
        debug_items(items.drop_last()) + ", "@ + debug_quoted(items.last())
    }
}

/// How `Debug` shows a list of strings: `["a", "b"]`.
pub open spec fn debug_list(items: Seq<Seq<char>>) -> Seq<char> {
    "["@ + debug_items(items) + "]"@
}

/// How a zip file system with this origin and these file names is shown.
pub open spec fn zip_fs_debug(source: Option<Seq<char>>, names: Seq<Seq<char>>) -> Seq<char> {
    "ZipFS { source: "@ + source_debug(source) + ", archive: RefCell { value: <ZipArchiveAccess> }, index: "@
        + debug_list(names) + " }"@
}

/// How a zip file system is named in messages.
pub open spec fn zip_fs_name(z: ZipFS) -> Seq<char> {
    zip_fs_debug(z.spec_source(), z.names())
}

/// Appends `items` to `out` as `Debug` shows a list of strings.
fn push_debug_list(out: &mut String, items: &[String])
    ensures
        final(out)@ == old(out)@ + debug_list(items@.map_values(|s: String| s@)),
{
    proof {
        reveal_strlit("[");
        reveal_strlit("]");
    }
    let ghost start = out@;
    let ghost names = items@.map_values(|s: String| s@);
    out.append("[");
    let mut i: usize = 0;
    while i < items.len()
        invariant
            i <= items@.len(),
            names == items@.map_values(|s: String| s@),
            out@ == start + "["@ + debug_items(names.take(i as int)),
        decreases items@.len() - i,
    {
        proof {
            reveal_strlit(", ");
        }
        let ghost before = out@;
        if i > 0 {
            out.append(", ");
        }
        push_debug_quoted(out, items[i].as_str());
        assert(names.take(i + 1).drop_last() =~= names.take(i as int));
        assert(names.take(i + 1).last() == items@[i as int]@);
        if i == 0 {
            assert(names.take(1) =~= seq![names[0]]);
            assert(out@ =~= start + "["@ + debug_items(names.take(i + 1)));
        } else {
            assert(out@ =~= start + "["@ + debug_items(names.take(i + 1)));
        }
        i = i + 1;
    }
    assert(names.take(items@.len() as int) =~= names);
    out.append("]");
}

/// Whether `s` starts with `prefix`.
pub fn starts_with(s: &str, prefix: &str) -> (b: bool)
    ensures
        b == prefix@.is_prefix_of(s@),
{
    let n = s.unicode_len();
    let m = prefix.unicode_len();
    if m > n {
        return false;
    }
    let mut i: usize = 0;
    while i < m
        invariant
            m <= n,
            n == s@.len(),
            m == prefix@.len(),
            i <= m,
            forall|j: int| 0 <= j < i ==> prefix@[j] == s@[j],
        decreases m - i,
    {
        if s.get_char(i) != prefix.get_char(i) {
            return false;
        }
        i = i + 1;
    }
    assert(prefix@ =~= s@.take(m as int));
    true
}

} // verus!
