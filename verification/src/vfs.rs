//! A virtual file system layer: several "file systems" with different
//! backing stores (a directory, a zip archive) merged together in order.
//!
//! The library holds what each file system decides: which accesses a
//! read-only file system refuses, where inside a physical directory a path
//! lands, which file system of an overlay answers a request, and the whole
//! of a zip archive's contents.  Touching the disk is left to the caller.

use vstd::prelude::*;
use crate::debug_repr::{debug_quoted, push_debug_quoted};
use crate::paths::{appended_path, append_path, sanitize_path, sanitized_path};

verus! {

/// An `std::io::Error`, carried inside [`Error::IOError`].
#[verifier::external_type_specification]
#[verifier::external_body]
pub struct ExIoError(std::io::Error);

/// Errors of the virtual file systems.
#[derive(Debug)]
pub enum Error {
    /// A request that the file system cannot carry out, with a message.
    VfsError(String),
    /// No file system could open the path; each attempt is listed with the
    /// root of the file system that was tried and the error it gave.
    ResourceNotFound(String, Vec<(String, Error)>),
    /// A zip archive could not be read.
    ZipError(String),
    /// An error of the operating system.
    IOError(std::sync::Arc<std::io::Error>),
}

/// The flags of [`OpenOptions`].
pub struct OpenFlags {
    /// Open for reading.
    pub read: bool,
    /// Open for writing.
    pub write: bool,
    /// Create the file if it does not exist yet.
    pub create: bool,
    /// Append at the end of the file.
    pub append: bool,
    /// Truncate the file to 0 bytes after opening.
    pub truncate: bool,
}

/// Options for opening files.  Every flag starts out `false`.
#[derive(Debug, Copy, Clone, PartialEq, Eq, Structural)]
pub struct OpenOptions {
    read: bool,
    write: bool,
    create: bool,
    append: bool,
    truncate: bool,
}

impl View for OpenOptions {
    type V = OpenFlags;

    closed spec fn view(&self) -> OpenFlags {
        OpenFlags {
            read: self.read,
            write: self.write,
            create: self.create,
            append: self.append,
            truncate: self.truncate,
        }
    }
}

/// Whether options with these flags may change the file system.
pub open spec fn flags_alter(f: OpenFlags) -> bool {
    f.write || f.create || f.append || f.truncate
}

impl OpenOptions {
    /// Options with every flag off.
    pub fn new() -> (o: OpenOptions)
        ensures
            !o@.read && !o@.write && !o@.create && !o@.append && !o@.truncate,
    {
        OpenOptions { read: false, write: false, create: false, append: false, truncate: false }
    }

    /// Sets the `read` flag.
    pub fn read(self, read: bool) -> (o: OpenOptions)
        ensures
            o@ == (OpenFlags { read, ..self@ }),
    {
        OpenOptions { read, ..self }
    }

    /// Sets the `write` flag.
    pub fn write(self, write: bool) -> (o: OpenOptions)
        ensures
            o@ == (OpenFlags { write, ..self@ }),
    {
        OpenOptions { write, ..self }
    }

    /// Sets the `create` flag.
    pub fn create(self, create: bool) -> (o: OpenOptions)
        ensures
            o@ == (OpenFlags { create, ..self@ }),
    {
        OpenOptions { create, ..self }
    }

    /// Sets the `append` flag.
    pub fn append(self, append: bool) -> (o: OpenOptions)
        ensures
            o@ == (OpenFlags { append, ..self@ }),
    {
        OpenOptions { append, ..self }
    }

    /// Sets the `truncate` flag.
    pub fn truncate(self, truncate: bool) -> (o: OpenOptions)
        ensures
            o@ == (OpenFlags { truncate, ..self@ }),
    {
        OpenOptions { truncate, ..self }
    }

    /// The flags, in the order read, write, create, append, truncate.
    pub fn flags(&self) -> (r: (bool, bool, bool, bool, bool))
        ensures
            r == (self@.read, self@.write, self@.create, self@.append, self@.truncate),
    {
        (self.read, self.write, self.create, self.append, self.truncate)
    }

    /// Whether these options may change the file system: writing,
    /// creating, appending or truncating.
    pub fn alters(&self) -> (b: bool)
        ensures
            b == flags_alter(self@),
    {
        self.write || self.create || self.append || self.truncate
    }
}

/// The ways a file system opens a file when no options are given.
#[derive(Debug, Copy, Clone, PartialEq, Eq, Structural)]
pub enum OpenMode {
    /// For reading.
    Read,
    /// For writing, created where missing and emptied where present.
    Create,
    /// For writing at the end, created where missing.
    Append,
}

/// The flags a file is opened with in `mode`.
pub open spec fn mode_flags(mode: OpenMode) -> OpenFlags {
    match mode {
        OpenMode::Read => OpenFlags { read: true, write: false, create: false, append: false, truncate: false },
        OpenMode::Create => OpenFlags { read: false, write: true, create: true, append: false, truncate: true },
        OpenMode::Append => OpenFlags { read: false, write: true, create: true, append: true, truncate: false },
    }
}

impl OpenMode {
    /// The options a file system's `open`, `create` and `append` use:
    /// reading; writing, creating and truncating; writing, creating and
    /// appending.
    pub fn options(self) -> (o: OpenOptions)
        ensures
            o@ == mode_flags(self),
    {
        match self {
            OpenMode::Read => OpenOptions::new().read(true),
            OpenMode::Create => OpenOptions::new().write(true).create(true).truncate(true),
            OpenMode::Append => OpenOptions::new().write(true).create(true).append(true),
        }
    }
}

impl Default for OpenOptions {
    fn default() -> (o: OpenOptions)
        ensures
            !o@.read && !o@.write && !o@.create && !o@.append && !o@.truncate,
    {
        OpenOptions::new()
    }
}

} // verus!

verus! {

/// `e` is a [`Error::VfsError`] with the message `m`.
pub open spec fn is_vfs_error(e: Error, m: Seq<char>) -> bool {
    e matches Error::VfsError(s) && s@ == m
}

/// The message of the error for a path that is not absolute or that names a
/// parent directory.
pub open spec fn invalid_path_message(p: Seq<char>) -> Seq<char> {
    "Path "@ + debug_quoted(p) + " is not valid: must be an absolute path with no references to parent directories"@
}

/// A file system rooted at a directory of the machine.  A read-only one
/// refuses every request that would change it.
#[derive(Debug, Clone)]
pub struct PhysicalFS {
    root: String,
    readonly: bool,
}

impl PhysicalFS {
    /// The root directory.
    pub closed spec fn spec_root(&self) -> Seq<char> {
        self.root@
    }

    /// Whether the file system is read-only.
    pub closed spec fn spec_readonly(&self) -> bool {
        self.readonly
    }

    /// Creates a file system rooted at `root`.
    pub fn new(root: &str, readonly: bool) -> (fs: PhysicalFS)
        ensures
            fs.spec_root() == root@,
            fs.spec_readonly() == readonly,
    {
        PhysicalFS { root: String::from_str(root), readonly }
    }

    /// The root directory.
    pub fn root(&self) -> (r: &str)
        ensures
            r@ == self.spec_root(),
    {
        self.root.as_str()
    }

    /// Whether the file system is read-only.
    pub fn is_readonly(&self) -> (b: bool)
        ensures
            b == self.spec_readonly(),
    {
        self.readonly
    }

    /// The actual location of the file system's root: always its root directory.
    pub fn to_path_buf(&self) -> (r: Option<String>)
        ensures
            r matches Some(s) && s@ == self.spec_root(),
    {
        Some(self.root.clone())
    }

    /// How the file system is shown: `<PhysicalFS root: ROOT>`.
    pub fn describe(&self) -> (s: String)
        ensures
            s@ == "<PhysicalFS root: "@ + self.spec_root() + ">"@,
    {
        let mut s = String::from_str("<PhysicalFS root: ");
        s.append(self.root.as_str());
        s.append(">");
        s
    }

    /// The location on the machine of the absolute path `p`: the sanitized
    /// form of `p` appended to the root.  A path that is not absolute, or
    /// that names a parent directory, is refused.
    ///
    /// With root `/home/icefox/foo`, `"/bar"` becomes `/home/icefox/foo/bar`.
    pub fn to_absolute(&self, p: &str) -> (r: Result<String, Error>)
        ensures
            match r {
                Ok(s) => sanitized_path(p@) matches Some(rel) && s@ == appended_path(self.spec_root(), rel),
                Err(e) => sanitized_path(p@) is None && is_vfs_error(e, invalid_path_message(p@)),
            },
    {
        match sanitize_path(p) {
            Some(safe) => Ok(append_path(self.root.as_str(), safe.as_str())),
            None => {
                let mut msg = String::from_str("Path ");
                push_debug_quoted(&mut msg, p);
                msg.append(" is not valid: must be an absolute path with no references to parent directories");
                Err(Error::VfsError(msg))
            },
        }
    }

    /// Whether the file system accepts opening `path` with `options`: a
    /// read-only file system refuses every option that may change it.
    pub fn check_open(&self, path: &str, options: OpenOptions) -> (r: Result<(), Error>)
        ensures
            match r {
                Ok(()) => !(self.spec_readonly() && flags_alter(options@)),
                Err(e) => self.spec_readonly() && flags_alter(options@) && is_vfs_error(e,
                    "Cannot alter file "@ + debug_quoted(path@) + " in root <PhysicalFS root: "@ + self.spec_root()
                        + ">, filesystem read-only"@),
            },
    {
        if self.readonly && options.alters() {
            let mut msg = String::from_str("Cannot alter file ");
            push_debug_quoted(&mut msg, path);
            msg.append(" in root <PhysicalFS root: ");
            msg.append(self.root.as_str());
            msg.append(">, filesystem read-only");
            Err(Error::VfsError(msg))
        } else {
            Ok(())
        }
    }

    /// Whether the file system accepts making a directory: not when read-only.
    pub fn check_mkdir(&self) -> (r: Result<(), Error>)
        ensures
            match r {
                Ok(()) => !self.spec_readonly(),
                Err(e) => self.spec_readonly() && is_vfs_error(e, "Tried to make directory {} but FS is read-only"@),
            },
    {
        if self.readonly {
            Err(Error::VfsError(String::from_str("Tried to make directory {} but FS is read-only")))
        } else {
            Ok(())
        }
    }

    /// Whether the file system accepts removing a file: not when read-only.
    pub fn check_rm(&self) -> (r: Result<(), Error>)
        ensures
            match r {
                Ok(()) => !self.spec_readonly(),
                Err(e) => self.spec_readonly() && is_vfs_error(e, "Tried to remove file {} but FS is read-only"@),
            },
    {
        if self.readonly {
            Err(Error::VfsError(String::from_str("Tried to remove file {} but FS is read-only")))
        } else {
            Ok(())
        }
    }

    /// Whether the file system accepts removing a tree: not when read-only.
    pub fn check_rmrf(&self) -> (r: Result<(), Error>)
        ensures
            match r {
                Ok(()) => !self.spec_readonly(),
                Err(e) => self.spec_readonly() && is_vfs_error(e, "Tried to remove file/dir {} but FS is read-only"@),
            },
    {
        if self.readonly {
            Err(Error::VfsError(String::from_str("Tried to remove file/dir {} but FS is read-only")))
        } else {
            Ok(())
        }
    }
}

/// What can be read of the metadata of a file.
pub trait VMetadata {
    /// Whether it is a directory.
    spec fn spec_is_dir(&self) -> bool;

    /// Whether it is a file.
    spec fn spec_is_file(&self) -> bool;

    /// Its length.
    spec fn spec_len(&self) -> u64;

    /// Whether it is a directory.  Zip archives have no directories, only
    /// files with long names.
    fn is_dir(&self) -> (b: bool)
        ensures
            b == self.spec_is_dir(),
    ;

    /// Whether it is a file.
    fn is_file(&self) -> (b: bool)
        ensures
            b == self.spec_is_file(),
    ;

    /// The length; of a directory it depends on the platform.
    fn len(&self) -> (n: u64)
        ensures
            n == self.spec_len(),
    ;
}

/// The metadata of a file in the real file system, as the platform gave it.
#[derive(Debug, Copy, Clone, PartialEq, Eq, Structural)]
pub struct PhysicalMetadata {
    /// The length in bytes.
    pub len: u64,
    /// Whether it is a directory.
    pub is_dir: bool,
    /// Whether it is a regular file.
    pub is_file: bool,
}

impl VMetadata for PhysicalMetadata {
    open spec fn spec_is_dir(&self) -> bool {
        self.is_dir
    }

    open spec fn spec_is_file(&self) -> bool {
        self.is_file
    }

    open spec fn spec_len(&self) -> u64 {
        self.len
    }

    fn is_dir(&self) -> (b: bool) {
        self.is_dir
    }

    fn is_file(&self) -> (b: bool) {
        self.is_file
    }

    fn len(&self) -> (n: u64) {
        self.len
    }
}

/// `f` may answer `v` with an error.
pub open spec fn may_fail<V, T, E, F: Fn(&V) -> Result<T, E>>(f: F, v: &V) -> bool {
    exists|e: E| call_ensures(f, (v,), Err(e))
}

/// Several file systems joined together in order: a request goes to each in
/// turn until one of them carries it out.
#[derive(Debug)]
pub struct OverlayFS<V> {
    roots: Vec<V>,
}

impl<V> View for OverlayFS<V> {
    type V = Seq<V>;

    closed spec fn view(&self) -> Seq<V> {
        self.roots@
    }
}

/// The file systems an overlay searches, in order, after each of `fs` was
/// pushed in turn onto one that searched `start`.
pub open spec fn after_pushes<V>(start: Seq<V>, fs: Seq<V>) -> Seq<V>
    decreases fs.len(),
{
    if fs.len() == 0 {
        start
    } else {
        after_pushes(start, fs.drop_last()).push(fs.last())
    }
}

/// The search order of an overlay is the order in which its file systems
/// were pushed: those pushed onto an overlay come after the ones it had,
/// and an overlay made by [`OverlayFS::new`] searches exactly the pushed
/// file systems, first pushed first.
pub proof fn lemma_search_order_is_push_order<V>(start: Seq<V>, fs: Seq<V>)
    ensures
        after_pushes(start, fs) == start + fs,
        after_pushes(Seq::<V>::empty(), fs) == fs,
    decreases fs.len(),
{
    if fs.len() > 0 {
        lemma_search_order_is_push_order(start, fs.drop_last());
        lemma_search_order_is_push_order(Seq::<V>::empty(), fs.drop_last());
        assert(start + fs =~= (start + fs.drop_last()).push(fs.last()));
        assert(fs =~= fs.drop_last().push(fs.last()));
    } else {
        assert(start + fs =~= start);
    }
}

impl<V> OverlayFS<V> {
    /// An overlay of no file systems.
    pub fn new() -> (o: OverlayFS<V>)
        ensures
            o@ == Seq::<V>::empty(),
    {
        OverlayFS { roots: Vec::new() }
    }

    /// Adds a file system at the end of the search order.
    pub fn push(&mut self, fs: V)
        ensures
            final(self)@ == old(self)@.push(fs),
    {
        self.roots.push(fs);
    }

    /// The file systems, in search order.
    pub fn roots(&self) -> (r: &[V])
        ensures
            r@ == self@,
    {
        self.roots.as_slice()
    }

    /// Asks each file system in turn, stopping at the first that answers
    /// `Ok`; if none does, gives back every error, in order.
    pub fn first_ok<T, E, F: Fn(&V) -> Result<T, E>>(&self, f: F) -> (r: Result<T, Vec<E>>)
        requires
            forall|i: int| 0 <= i < self@.len() ==> call_requires(f, (&self@[i],)),
        ensures
            match r {
                Ok(t) => exists|k: int|
                    0 <= k < self@.len() && call_ensures(f, (&self@[k],), Ok(t))
                        && forall|j: int| 0 <= j < k ==> #[trigger] may_fail(f, &self@[j]),
                Err(errs) => errs@.len() == self@.len() && forall|j: int|
                    0 <= j < self@.len() ==> call_ensures(f, (&self@[j],), Err(#[trigger] errs@[j])),
            },
    {
        let mut errs: Vec<E> = Vec::new();
        let mut i: usize = 0;
        while i < self.roots.len()
            invariant
                i <= self.roots@.len(),
                errs@.len() == i,
                forall|i: int| 0 <= i < self@.len() ==> call_requires(f, (&self@[i],)),
                forall|j: int| 0 <= j < i ==> call_ensures(f, (&self@[j],), Err(#[trigger] errs@[j])),
            decreases self.roots@.len() - i,
        {
            assert(call_requires(f, (&self@[i as int],)));
            let res = f(&self.roots[i]);
            assert(call_ensures(f, (&self@[i as int],), res));
            match res {
                Ok(t) => {
                    assert forall|j: int| 0 <= j < i implies #[trigger] may_fail(f, &self@[j]) by {
                        assert(call_ensures(f, (&self@[j],), Err(errs@[j])));
                    }
                    assert(0 <= i < self@.len() && call_ensures(f, (&self@[i as int],), Ok(t))
                        && forall|j: int| 0 <= j < i ==> #[trigger] may_fail(f, &self@[j]));
                    return Ok(t);
                },
                Err(e) => {
                    errs.push(e);
                },
            }
            i = i + 1;
        }
        Err(errs)
    }

    /// Whether `f` answered each file system with the matching error of `errs`.
    pub open spec fn all_failed<T, E, F: Fn(&V) -> Result<T, E>>(&self, f: F, errs: Seq<E>) -> bool {
        &&& errs.len() == self@.len()
        &&& forall|j: int| 0 <= j < self@.len() ==> call_ensures(f, (&self@[j],), Err(#[trigger] errs[j]))
    }

    /// `f` answered `Ok(t)` for some file system, and an error for every
    /// file system before it.
    pub open spec fn answered_by_first<T, E, F: Fn(&V) -> Result<T, E>>(&self, f: F, t: T) -> bool {
        exists|k: int|
            0 <= k < self@.len() && call_ensures(f, (&self@[k],), Ok(t))
                && forall|j: int| 0 <= j < k ==> #[trigger] may_fail(f, &self@[j])
    }

    /// Opens `path` in the first file system that can open it (`f` opens it
    /// in one file system, giving on failure that file system's location if
    /// it has one).  If none can, the error lists every attempt in order.
    pub fn open_options<T, F: Fn(&V) -> Result<T, (Option<String>, Error)>>(&self, path: &str, f: F) -> (r: Result<T, Error>)
        requires
            forall|i: int| 0 <= i < self@.len() ==> call_requires(f, (&self@[i],)),
        ensures
            match r {
                Ok(t) => self.answered_by_first(f, t),
                Err(e) => exists|errs: Seq<(Option<String>, Error)>|
                    #[trigger] self.all_failed(f, errs) && is_not_found(e, path@, errs),
            },
    {
        match self.first_ok(f) {
            Ok(t) => Ok(t),
            Err(errs) => {
                let ghost g = errs@;
                let e = resource_not_found(path, errs);
                assert(self.all_failed(f, g));
                Err(e)
            },
        }
    }

    /// Runs `f` on each file system in turn until one succeeds; if none
    /// does, the error is a [`Error::VfsError`] with message `msg`.
    fn first_ok_or<T, E, F: Fn(&V) -> Result<T, E>>(&self, f: F, msg: String) -> (r: Result<T, Error>)
        requires
            forall|i: int| 0 <= i < self@.len() ==> call_requires(f, (&self@[i],)),
        ensures
            match r {
                Ok(t) => self.answered_by_first(f, t),
                Err(e) => is_vfs_error(e, msg@) && exists|errs: Seq<E>| #[trigger] self.all_failed(f, errs),
            },
    {
        match self.first_ok(f) {
            Ok(t) => Ok(t),
            Err(errs) => {
                assert(self.all_failed(f, errs@));
                Err(Error::VfsError(msg))
            },
        }
    }

    /// Makes the directory `path` in the first file system that can.
    pub fn mkdir<E, F: Fn(&V) -> Result<(), E>>(&self, path: &str, f: F) -> (r: Result<(), Error>)
        requires
            forall|i: int| 0 <= i < self@.len() ==> call_requires(f, (&self@[i],)),
        ensures
            match r {
                Ok(t) => self.answered_by_first(f, t),
                Err(e) => is_vfs_error(e, "Could not find anywhere writeable to make dir "@ + debug_quoted(path@))
                    && exists|errs: Seq<E>| #[trigger] self.all_failed(f, errs),
            },
    {
        self.first_ok_or(f, quoted_message("Could not find anywhere writeable to make dir ", path))
    }

    /// Removes the file `path` in the first file system that can.
    pub fn rm<E, F: Fn(&V) -> Result<(), E>>(&self, path: &str, f: F) -> (r: Result<(), Error>)
        requires
            forall|i: int| 0 <= i < self@.len() ==> call_requires(f, (&self@[i],)),
        ensures
            match r {
                Ok(t) => self.answered_by_first(f, t),
                Err(e) => is_vfs_error(e, "Could not remove file "@ + debug_quoted(path@))
                    && exists|errs: Seq<E>| #[trigger] self.all_failed(f, errs),
            },
    {
        self.first_ok_or(f, quoted_message("Could not remove file ", path))
    }

    /// Removes the file or directory tree `path` in the first file system that can.
    pub fn rmrf<E, F: Fn(&V) -> Result<(), E>>(&self, path: &str, f: F) -> (r: Result<(), Error>)
        requires
            forall|i: int| 0 <= i < self@.len() ==> call_requires(f, (&self@[i],)),
        ensures
            match r {
                Ok(t) => self.answered_by_first(f, t),
                Err(e) => is_vfs_error(e, "Could not remove file/dir "@ + debug_quoted(path@))
                    && exists|errs: Seq<E>| #[trigger] self.all_failed(f, errs),
            },
    {
        self.first_ok_or(f, quoted_message("Could not remove file/dir ", path))
    }

    /// The metadata of `path` from the first file system that has it.
    pub fn metadata<T, E, F: Fn(&V) -> Result<T, E>>(&self, path: &str, f: F) -> (r: Result<T, Error>)
        requires
            forall|i: int| 0 <= i < self@.len() ==> call_requires(f, (&self@[i],)),
        ensures
            match r {
                Ok(t) => self.answered_by_first(f, t),
                Err(e) => is_vfs_error(e, "Could not get metadata for file/dir "@ + debug_quoted(path@))
                    && exists|errs: Seq<E>| #[trigger] self.all_failed(f, errs),
            },
    {
        self.first_ok_or(f, quoted_message("Could not get metadata for file/dir ", path))
    }

    /// Whether some file system has `path` (`f` tells for one file system).
    pub fn path_exists<F: Fn(&V) -> bool>(&self, f: F) -> (b: bool)
        requires
            forall|i: int| 0 <= i < self@.len() ==> call_requires(f, (&self@[i],)),
        ensures
            b ==> exists|k: int| 0 <= k < self@.len() && #[trigger] call_ensures(f, (&self@[k],), true),
            !b ==> forall|k: int| 0 <= k < self@.len() ==> #[trigger] call_ensures(f, (&self@[k],), false),
    {
        let mut i: usize = 0;
        while i < self.roots.len()
            invariant
                i <= self.roots@.len(),
                forall|i: int| 0 <= i < self@.len() ==> call_requires(f, (&self@[i],)),
                forall|k: int| 0 <= k < i ==> #[trigger] call_ensures(f, (&self@[k],), false),
            decreases self.roots@.len() - i,
        {
            assert(call_requires(f, (&self@[i as int],)));
            let found = f(&self.roots[i]);
            assert(call_ensures(f, (&self@[i as int],), found));
            if found {
                return true;
            }
            i = i + 1;
        }
        false
    }

    /// The entries of the directory `path` in every file system that can
    /// list it, in order (`f` lists it in one file system).
    pub fn read_dir<T, E, F: Fn(&V) -> Result<Vec<T>, E>>(&self, f: F) -> (r: Vec<T>)
        requires
            forall|i: int| 0 <= i < self@.len() ==> call_requires(f, (&self@[i],)),
        ensures
            exists|outs: Seq<Result<Vec<T>, E>>|
                #[trigger] answers_of(self@, f, outs) && r@ == listed_entries(outs),
    {
        let mut all: Vec<T> = Vec::new();
        let mut i: usize = 0;
        let ghost mut outs: Seq<Result<Vec<T>, E>> = Seq::empty();
        while i < self.roots.len()
            invariant
                i <= self.roots@.len(),
                forall|i: int| 0 <= i < self@.len() ==> call_requires(f, (&self@[i],)),
                outs.len() == i,
                forall|k: int| 0 <= k < i ==> call_ensures(f, (&self@[k],), #[trigger] outs[k]),
                all@ == listed_entries(outs),
            decreases self.roots@.len() - i,
        {
            assert(call_requires(f, (&self@[i as int],)));
            let res = f(&self.roots[i]);
            assert(call_ensures(f, (&self@[i as int],), res));
            let ghost prev = outs;
            proof {
                outs = outs.push(res);
                assert(outs.drop_last() =~= prev);
            }
            match res {
                Ok(mut entries) => {
                    all.append(&mut entries);
                },
                Err(_) => {},
            }
            i = i + 1;
        }
        assert(answers_of(self@, f, outs));
        all
    }

    /// The actual location of an overlay: it has none.
    pub fn to_path_buf(&self) -> (r: Option<String>)
        ensures
            r is None,
    {
        None
    }
}

/// `f` answered each file system of `roots` with the matching entry of `outs`.
pub open spec fn answers_of<V, R, F: Fn(&V) -> R>(roots: Seq<V>, f: F, outs: Seq<R>) -> bool {
    &&& outs.len() == roots.len()
    &&& forall|k: int| 0 <= k < roots.len() ==> call_ensures(f, (&roots[k],), #[trigger] outs[k])
}

/// The entries of every successful listing, in order.
pub open spec fn listed_entries<T, E>(outs: Seq<Result<Vec<T>, E>>) -> Seq<T>
    decreases outs.len(),
{
    if outs.len() == 0 {
        Seq::<T>::empty()
    } else {
        listed_entries(outs.drop_last()) + match outs.last() {
            Ok(v) => v@,
            Err(_) => Seq::<T>::empty(),
        }
    }
}

/// The location shown for a file system in a not-found error: its root, or
/// `<invalid path>` for one that has none.
pub open spec fn location_name(loc: Option<String>) -> Seq<char> {
    match loc {
        Some(s) => s@,
        None => "<invalid path>"@,
    }
}

/// `e` says that `path` was not found, listing the attempts `errs` in order.
pub open spec fn is_not_found(e: Error, path: Seq<char>, errs: Seq<(Option<String>, Error)>) -> bool {
    e matches Error::ResourceNotFound(m, tried) && m@ == path && tried@.len() == errs.len()
        && forall|j: int| 0 <= j < errs.len() ==> {
            &&& (#[trigger] tried@[j]).0@ == location_name(errs[j].0)
            &&& tried@[j].1 == errs[j].1
        }
}

/// `prefix`, then `path` quoted.
fn quoted_message(prefix: &str, path: &str) -> (s: String)
    ensures
        s@ == prefix@ + debug_quoted(path@),
{
    let mut s = String::from_str(prefix);
    push_debug_quoted(&mut s, path);
    s
}

/// The error for a path that no file system could open, listing every
/// attempt with the location of the file system tried.
pub fn resource_not_found(path: &str, errs: Vec<(Option<String>, Error)>) -> (e: Error)
    ensures
        is_not_found(e, path@, errs@),
{
    let ghost g = errs@;
    let mut rest = errs;
    let mut tried: Vec<(String, Error)> = Vec::new();
    while rest.len() > 0
        invariant
            tried@.len() + rest@.len() == g.len(),
            rest@ == g.skip(tried@.len() as int),
            forall|j: int| 0 <= j < tried@.len() ==> {
                &&& (#[trigger] tried@[j]).0@ == location_name(g[j].0)
                &&& tried@[j].1 == g[j].1
            },
        decreases rest@.len(),
    {
        let ghost before = rest@;
        let (loc, err) = rest.remove(0);
        let name = match loc {
            Some(s) => s,
            None => String::from_str("<invalid path>"),
        };
        let ghost k = tried@.len() as int;
        tried.push((name, err));
        assert(rest@ =~= g.skip(tried@.len() as int)) by {
            assert(before == g.skip(k));
        }
        assert(g[k] == before[0]);
    }
    Error::ResourceNotFound(String::from_str(path), tried)
}

} // verus!
