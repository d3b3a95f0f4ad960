//! The game's view of the file system: several places searched in a fixed
//! order, the first that has a file giving it.
//!
//! The places are, in order: the `resources/` directory beside the
//! executable, the `resources.zip` archive beside it if there is one, the
//! per-user data directory and the per-user configuration directory.  Only
//! the last can be written to.

use vstd::prelude::*;
use crate::debug_repr::debug_quoted;
use crate::error::{is_config_error, GameError};
use crate::paths::{push_path, pushed_path};
use crate::vfs::{answers_of, is_vfs_error, listed_entries, Error, OverlayFS, PhysicalFS, VMetadata};

verus! {

/// The file in which the game's configuration is kept.
pub fn config_name() -> (s: &'static str)
    ensures
        s@ == "/conf.toml"@,
{
    "/conf.toml"
}

/// The message of the error for a missing configuration file.
pub open spec fn config_not_found() -> Seq<char> {
    "Config file not found"@
}

/// The message of the error for a configuration file that could not be
/// written.
pub open spec fn config_not_written() -> Seq<char> {
    "Failed to write config file at /conf.toml"@
}

/// The message of the error when no home directory can be found.
pub open spec fn no_home_dir() -> Seq<char> {
    "No valid home directory path could be retrieved."@
}

/// The places the game reads and writes files, each a file system `V`, and
/// the paths of the standard ones.
#[derive(Debug)]
pub struct Filesystem<V> {
    vfs: OverlayFS<V>,
    resources_path: String,
    zip_path: String,
    user_config_path: String,
    user_data_path: String,
}

impl<V> Filesystem<V> {
    /// The file systems, in search order.
    pub closed spec fn spec_roots(&self) -> Seq<V> {
        self.vfs@
    }

    /// The overlay of the file systems.
    pub closed spec fn spec_vfs(&self) -> OverlayFS<V> {
        self.vfs
    }

    /// The path of the resources directory.
    pub closed spec fn spec_resources_path(&self) -> Seq<char> {
        self.resources_path@
    }

    /// The path of the resources archive.
    pub closed spec fn spec_zip_path(&self) -> Seq<char> {
        self.zip_path@
    }

    /// The path of the per-user configuration directory.
    pub closed spec fn spec_user_config_path(&self) -> Seq<char> {
        self.user_config_path@
    }

    /// The path of the per-user data directory.
    pub closed spec fn spec_user_data_path(&self) -> Seq<char> {
        self.user_data_path@
    }

    /// Sets up the standard places.  `exe_dir` is the directory of the
    /// executable, and `dirs` the per-user data and configuration
    /// directories, if a home directory was found (else the error says so).
    /// In search order come: the read-only resources directory
    /// `exe_dir/resources_dir_name`; the archive `exe_dir/resources_zip_name`,
    /// which `open_zip` is handed and opens if there is one (its error is
    /// returned as it is); the read-only data directory; the writable
    /// configuration directory.  `physical` turns each directory into a `V`.
    pub fn new<P: Fn(PhysicalFS) -> V, Z: FnOnce(&str) -> Option<Result<V, GameError>>>(
        exe_dir: &str,
        resources_dir_name: &str,
        resources_zip_name: &str,
        dirs: Option<(String, String)>,
        open_zip: Z,
        physical: P,
    ) -> (r: Result<Filesystem<V>, GameError>)
        requires
            forall|p: PhysicalFS| call_requires(physical, (p,)),
            forall|s: &str| call_requires(open_zip, (s,)),
        ensures
            dirs is None ==> (r matches Err(e) && e matches GameError::FilesystemError(m) && m@ == no_home_dir()),
            dirs matches Some((data, config)) ==> exists|zip_arg: &str, z: Option<Result<V, GameError>>| {
                let resources = pushed_path(exe_dir@, resources_dir_name@);
                let zip = pushed_path(exe_dir@, resources_zip_name@);
                &&& zip_arg@ == zip
                &&& #[trigger] call_ensures(open_zip, (zip_arg,), z)
                &&& match z {
                    Some(Err(e)) => r == Err::<Filesystem<V>, GameError>(e),
                    _ => r matches Ok(fs) && {
                        &&& fs.spec_resources_path() == resources
                        &&& fs.spec_zip_path() == zip
                        &&& fs.spec_user_data_path() == data@
                        &&& fs.spec_user_config_path() == config@
                        &&& fs.spec_roots().len() == (if z is Some { 4int } else { 3int })
                        &&& mounted(physical, fs.spec_roots()[0], resources, true)
                        &&& (z matches Some(Ok(v)) ==> fs.spec_roots()[1] == v)
                        &&& mounted(physical, fs.spec_roots()[fs.spec_roots().len() - 2], data@, true)
                        &&& mounted(physical, fs.spec_roots()[fs.spec_roots().len() - 1], config@, false)
                    },
                }
            },
    {
        let (data, config) = match dirs {
            Some(d) => d,
            None => {
                return Err(GameError::FilesystemError(
                    String::from_str("No valid home directory path could be retrieved."),
                ));
            },
        };
        let mut vfs: OverlayFS<V> = OverlayFS::new();
        let resources_path = push_path(exe_dir, resources_dir_name);
        let resources_fs = PhysicalFS::new(resources_path.as_str(), true);
        let ghost resources_spec = resources_fs;
        vfs.push(physical(resources_fs));
        let zip_path = push_path(exe_dir, resources_zip_name);
        let z = open_zip(zip_path.as_str());
        match z {
            Some(Err(e)) => {
                return Err(e);
            },
            Some(Ok(v)) => {
                vfs.push(v);
            },
            None => {},
        }
        let data_fs = PhysicalFS::new(data.as_str(), true);
        vfs.push(physical(data_fs));
        let config_fs = PhysicalFS::new(config.as_str(), false);
        vfs.push(physical(config_fs));
        let fs = Filesystem {
            vfs,
            resources_path,
            zip_path,
            user_config_path: config,
            user_data_path: data,
        };
        Ok(fs)
    }

    /// The file systems, in search order.
    pub fn roots(&self) -> (r: &[V])
        ensures
            r@ == self.spec_roots(),
    {
        self.vfs.roots()
    }

    /// The overlay of the file systems.
    pub fn vfs(&self) -> (o: &OverlayFS<V>)
        ensures
            *o == self.spec_vfs(),
            o@ == self.spec_roots(),
    {
        &self.vfs
    }

    /// The path of the resources directory.
    pub fn resources_path(&self) -> (s: &str)
        ensures
            s@ == self.spec_resources_path(),
    {
        self.resources_path.as_str()
    }

    /// The path of the resources archive.
    pub fn zip_path(&self) -> (s: &str)
        ensures
            s@ == self.spec_zip_path(),
    {
        self.zip_path.as_str()
    }

    /// The path of the per-user configuration directory.
    pub fn user_config_path(&self) -> (s: &str)
        ensures
            s@ == self.spec_user_config_path(),
    {
        self.user_config_path.as_str()
    }

    /// The path of the per-user data directory.
    pub fn user_data_path(&self) -> (s: &str)
        ensures
            s@ == self.spec_user_data_path(),
    {
        self.user_data_path.as_str()
    }

    /// Adds the directory `path` at the end of the search order (`physical`
    /// turns it into a `V`).
    pub fn mount<P: FnOnce(PhysicalFS) -> V>(&mut self, path: &str, readonly: bool, physical: P)
        requires
            forall|p: PhysicalFS| call_requires(physical, (p,)),
        ensures
            final(self).spec_roots().len() == old(self).spec_roots().len() + 1,
            final(self).spec_roots().drop_last() == old(self).spec_roots(),
            mounted(physical, final(self).spec_roots().last(), path@, readonly),
            final(self).spec_resources_path() == old(self).spec_resources_path(),
            final(self).spec_zip_path() == old(self).spec_zip_path(),
            final(self).spec_user_config_path() == old(self).spec_user_config_path(),
            final(self).spec_user_data_path() == old(self).spec_user_data_path(),
    {
        let fs = PhysicalFS::new(path, readonly);
        let v = physical(fs);
        self.vfs.push(v);
        assert(self.vfs@.drop_last() =~= old(self).vfs@);
    }

    /// Adds an opened zip archive at the end of the search order.
    pub fn add_zip_file(&mut self, zip: V)
        ensures
            final(self).spec_roots() == old(self).spec_roots().push(zip),
            final(self).spec_resources_path() == old(self).spec_resources_path(),
            final(self).spec_zip_path() == old(self).spec_zip_path(),
            final(self).spec_user_config_path() == old(self).spec_user_config_path(),
            final(self).spec_user_data_path() == old(self).spec_user_data_path(),
    {
        self.vfs.push(zip);
    }

    /// Whether some place has the file or directory (`f` tells for one).
    pub fn path_exists<F: Fn(&V) -> bool>(&self, f: F) -> (b: bool)
        requires
            forall|i: int| 0 <= i < self.spec_roots().len() ==> call_requires(f, (&self.spec_roots()[i],)),
        ensures
            b ==> exists|k: int| 0 <= k < self.spec_roots().len() && #[trigger] call_ensures(f, (&self.spec_roots()[k],), true),
            !b ==> forall|k: int| 0 <= k < self.spec_roots().len() ==> #[trigger] call_ensures(f, (&self.spec_roots()[k],), false),
    {
        assert(self.spec_roots() == self.vfs@);
        self.vfs.path_exists(f)
    }

    /// Whether `path` is a file, by the metadata of the first place that
    /// has it (`f` reads the metadata in one place); `false` where no place
    /// has it.
    pub fn is_file<M: VMetadata, E, F: Fn(&V) -> Result<M, E>>(&self, path: &str, f: F) -> (b: bool)
        requires
            forall|i: int| 0 <= i < self.spec_roots().len() ==> call_requires(f, (&self.spec_roots()[i],)),
        ensures
            b ==> exists|m: M| #[trigger] self.spec_vfs().answered_by_first(f, m) && m.spec_is_file(),
            !b ==> (exists|m: M| #[trigger] self.spec_vfs().answered_by_first(f, m) && !m.spec_is_file())
                || (exists|errs: Seq<E>| #[trigger] self.spec_vfs().all_failed(f, errs)),
    {
        assert(self.spec_roots() == self.vfs@ && self.spec_vfs() == self.vfs);
        match self.vfs.metadata(path, f) {
            Ok(m) => m.is_file(),
            Err(_) => false,
        }
    }

    /// Whether `path` is a directory, by the metadata of the first place
    /// that has it; `false` where no place has it.
    pub fn is_dir<M: VMetadata, E, F: Fn(&V) -> Result<M, E>>(&self, path: &str, f: F) -> (b: bool)
        requires
            forall|i: int| 0 <= i < self.spec_roots().len() ==> call_requires(f, (&self.spec_roots()[i],)),
        ensures
            b ==> exists|m: M| #[trigger] self.spec_vfs().answered_by_first(f, m) && m.spec_is_dir(),
            !b ==> (exists|m: M| #[trigger] self.spec_vfs().answered_by_first(f, m) && !m.spec_is_dir())
                || (exists|errs: Seq<E>| #[trigger] self.spec_vfs().all_failed(f, errs)),
    {
        assert(self.spec_roots() == self.vfs@ && self.spec_vfs() == self.vfs);
        match self.vfs.metadata(path, f) {
            Ok(m) => m.is_dir(),
            Err(_) => false,
        }
    }

    /// Makes the directory `path` in the first place that can (`f` makes it
    /// in one place).
    pub fn create_dir<E, F: Fn(&V) -> Result<(), E>>(&self, path: &str, f: F) -> (r: Result<(), Error>)
        requires
            forall|i: int| 0 <= i < self.spec_roots().len() ==> call_requires(f, (&self.spec_roots()[i],)),
        ensures
            match r {
                Ok(t) => self.spec_vfs().answered_by_first(f, t),
                Err(e) => is_vfs_error(e, "Could not find anywhere writeable to make dir "@ + debug_quoted(path@))
                    && exists|errs: Seq<E>| #[trigger] self.spec_vfs().all_failed(f, errs),
            },
    {
        assert(self.spec_roots() == self.vfs@ && self.spec_vfs() == self.vfs);
        self.vfs.mkdir(path, f)
    }

    /// Removes the file `path` in the first place that can (`f` removes it
    /// in one place).
    pub fn delete<E, F: Fn(&V) -> Result<(), E>>(&self, path: &str, f: F) -> (r: Result<(), Error>)
        requires
            forall|i: int| 0 <= i < self.spec_roots().len() ==> call_requires(f, (&self.spec_roots()[i],)),
        ensures
            match r {
                Ok(t) => self.spec_vfs().answered_by_first(f, t),
                Err(e) => is_vfs_error(e, "Could not remove file "@ + debug_quoted(path@))
                    && exists|errs: Seq<E>| #[trigger] self.spec_vfs().all_failed(f, errs),
            },
    {
        assert(self.spec_roots() == self.vfs@ && self.spec_vfs() == self.vfs);
        self.vfs.rm(path, f)
    }

    /// Removes the directory `path` and all it holds in the first place
    /// that can (`f` removes it in one place).
    pub fn delete_dir<E, F: Fn(&V) -> Result<(), E>>(&self, path: &str, f: F) -> (r: Result<(), Error>)
        requires
            forall|i: int| 0 <= i < self.spec_roots().len() ==> call_requires(f, (&self.spec_roots()[i],)),
        ensures
            match r {
                Ok(t) => self.spec_vfs().answered_by_first(f, t),
                Err(e) => is_vfs_error(e, "Could not remove file/dir "@ + debug_quoted(path@))
                    && exists|errs: Seq<E>| #[trigger] self.spec_vfs().all_failed(f, errs),
            },
    {
        assert(self.spec_roots() == self.vfs@ && self.spec_vfs() == self.vfs);
        self.vfs.rmrf(path, f)
    }

    /// The entries of a directory in every place that can list it, in
    /// search order (`f` lists it in one place).
    pub fn read_dir<T, E, F: Fn(&V) -> Result<Vec<T>, E>>(&self, f: F) -> (r: Vec<T>)
        requires
            forall|i: int| 0 <= i < self.spec_roots().len() ==> call_requires(f, (&self.spec_roots()[i],)),
        ensures
            exists|outs: Seq<Result<Vec<T>, E>>|
                #[trigger] answers_of(self.spec_roots(), f, outs) && r@ == listed_entries(outs),
    {
        assert(self.spec_roots() == self.vfs@ && self.spec_vfs() == self.vfs);
        self.vfs.read_dir(f)
    }

    /// Reads the configuration with `read` where the first place that has
    /// [`config_name`] says it is a file (`f` reads its metadata in one
    /// place); else the error says the file was not found.
    pub fn read_config<T, M: VMetadata, E, F: Fn(&V) -> Result<M, E>, R: FnOnce() -> Result<T, GameError>>(
        &self,
        f: F,
        read: R,
    ) -> (r: Result<T, GameError>)
        requires
            forall|i: int| 0 <= i < self.spec_roots().len() ==> call_requires(f, (&self.spec_roots()[i],)),
            call_requires(read, ()),
        ensures
            ((exists|m: M| #[trigger] self.spec_vfs().answered_by_first(f, m) && m.spec_is_file())
                && call_ensures(read, (), r))
            || (self.no_file(f) && (r matches Err(e) && is_config_error(e, config_not_found()))),
    {
        let name = config_name();
        if self.is_file(name, f) {
            read()
        } else {
            Err(GameError::ConfigError(String::from_str("Config file not found")))
        }
    }

    /// Writes the configuration with `write`; where that succeeded, checks
    /// that the first place that has [`config_name`] says it is a file (`f`
    /// reads its metadata in one place), and else says it was not written.
    pub fn write_config<M: VMetadata, E, F: Fn(&V) -> Result<M, E>, W: FnOnce() -> Result<(), GameError>>(
        &self,
        f: F,
        write: W,
    ) -> (r: Result<(), GameError>)
        requires
            forall|i: int| 0 <= i < self.spec_roots().len() ==> call_requires(f, (&self.spec_roots()[i],)),
            call_requires(write, ()),
        ensures
            exists|w: Result<(), GameError>| {
                &&& #[trigger] call_ensures(write, (), w)
                &&& match w {
                    Err(e) => r == Err::<(), GameError>(e),
                    Ok(()) => {
                        ||| (exists|m: M| #[trigger] self.spec_vfs().answered_by_first(f, m) && m.spec_is_file())
                            && r is Ok
                        ||| (self.no_file(f) && (r matches Err(e) && is_config_error(e, config_not_written())))
                    },
                }
            },
    {
        let w = write();
        match w {
            Err(e) => Err(e),
            Ok(()) => {
                let name = config_name();
                if self.is_file(name, f) {
                    Ok(())
                } else {
                    Err(GameError::ConfigError(String::from_str("Failed to write config file at /conf.toml")))
                }
            },
        }
    }

    /// The first place that answers `f` says it is no file, or no place
    /// answers.
    pub open spec fn no_file<M: VMetadata, E, F: Fn(&V) -> Result<M, E>>(&self, f: F) -> bool {
        ||| (exists|m: M| #[trigger] self.spec_vfs().answered_by_first(f, m) && !m.spec_is_file())
        ||| (exists|errs: Seq<E>| #[trigger] self.spec_vfs().all_failed(f, errs))
    }

    /// A description of every place and what its top directory holds:
    /// `Source <name>` for each, followed by `  <entry>` for each entry, or
    /// by ` Could not read source: <error>` where it cannot be listed
    /// (`describe` names a place, and `list` lists its top directory).
    pub fn write_to_string<D: Fn(&V) -> String, L: Fn(&V) -> Result<Vec<String>, String>>(
        &self,
        describe: D,
        list: L,
    ) -> (s: String)
        requires
            forall|i: int| 0 <= i < self.spec_roots().len() ==> call_requires(describe, (&self.spec_roots()[i],)),
            forall|i: int| 0 <= i < self.spec_roots().len() ==> call_requires(list, (&self.spec_roots()[i],)),
        ensures
            exists|names: Seq<String>, lists: Seq<Result<Vec<String>, String>>| {
                &&& #[trigger] answers_of(self.spec_roots(), describe, names)
                &&& #[trigger] answers_of(self.spec_roots(), list, lists)
                &&& s@ == sources_text(names, lists)
            },
    {
        let mut s = String::new();
        let mut i: usize = 0;
        let roots = self.vfs.roots();
        let ghost mut names: Seq<String> = Seq::empty();
        let ghost mut lists: Seq<Result<Vec<String>, String>> = Seq::empty();
        while i < roots.len()
            invariant
                roots@ == self.spec_roots(),
                i <= roots@.len(),
                forall|i: int| 0 <= i < self.spec_roots().len() ==> call_requires(describe, (&self.spec_roots()[i],)),
                forall|i: int| 0 <= i < self.spec_roots().len() ==> call_requires(list, (&self.spec_roots()[i],)),
                names.len() == i,
                lists.len() == i,
                forall|k: int| 0 <= k < i ==> call_ensures(describe, (&self.spec_roots()[k],), #[trigger] names[k]),
                forall|k: int| 0 <= k < i ==> call_ensures(list, (&self.spec_roots()[k],), #[trigger] lists[k]),
                s@ == sources_text(names, lists),
            decreases roots@.len() - i,
        {
            assert(call_requires(describe, (&self.spec_roots()[i as int],)));
            let name = describe(&roots[i]);
            assert(call_requires(list, (&self.spec_roots()[i as int],)));
            let listing = list(&roots[i]);
            let ghost before = s@;
            s.append("Source ");
            s.append(name.as_str());
            let ghost head = s@;
            match &listing {
                Ok(items) => {
                    let mut j: usize = 0;
                    while j < items.len()
                        invariant
                            j <= items@.len(),
                            s@ == head + entries_text(items@.take(j as int)),
                        decreases items@.len() - j,
                    {
                        s.append("  ");
                        s.append(items[j].as_str());
                        assert(items@.take(j + 1).drop_last() =~= items@.take(j as int));
                        j = j + 1;
                    }
                    assert(items@.take(items@.len() as int) =~= items@);
                },
                Err(e) => {
                    s.append(" Could not read source: ");
                    s.append(e.as_str());
                },
            }
            proof {
                let prev_names = names;
                let prev_lists = lists;
                names = names.push(name);
                lists = lists.push(listing);
                assert(names.drop_last() =~= prev_names);
                assert(lists.drop_last() =~= prev_lists);
                reveal_strlit("Source ");
                reveal_strlit("  ");
                reveal_strlit(" Could not read source: ");
                assert(s@ =~= before + source_text(name, listing));
            }
            i = i + 1;
        }
        proof {
            assert(answers_of(self.spec_roots(), describe, names));
            assert(answers_of(self.spec_roots(), list, lists));
        }
        s
    }
}

/// Each entry of `items` after two spaces, run together.
pub open spec fn entries_text(items: Seq<String>) -> Seq<char>
    decreases items.len(),
{
    if items.len() == 0 {
        Seq::<char>::empty()
    } else {
        entries_text(items.drop_last()) + "  "@ + items.last()@
    }
}

/// How one place is described: its name, then its entries or why it could
/// not be listed.
pub open spec fn source_text(name: String, listing: Result<Vec<String>, String>) -> Seq<char> {
    "Source "@ + name@ + match listing {
        Ok(items) => entries_text(items@),
        Err(e) => " Could not read source: "@ + e@,
    }
}

/// The descriptions of the places named `names` with the listings `lists`,
/// run together.
pub open spec fn sources_text(names: Seq<String>, lists: Seq<Result<Vec<String>, String>>) -> Seq<char>
    recommends
        names.len() == lists.len(),
    decreases names.len(),
{
    if names.len() == 0 || lists.len() == 0 {
        Seq::<char>::empty()
    } else {
        sources_text(names.drop_last(), lists.drop_last()) + source_text(names.last(), lists.last())
    }
}

/// `v` is what `physical` makes of the directory `root`, read-only where
/// `readonly` says so.
pub open spec fn mounted<V, P: FnOnce(PhysicalFS) -> V>(physical: P, v: V, root: Seq<char>, readonly: bool) -> bool {
    exists|p: PhysicalFS| p.spec_root() == root && p.spec_readonly() == readonly && #[trigger] call_ensures(physical, (p,), v)
}

} // verus!
