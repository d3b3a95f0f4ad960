//! The builder of a game context: the game's identity, its default
//! configuration, and where its resources are searched for.

use vstd::prelude::*;
use crate::conf::{is_default_setup, Backend, Conf, WindowSetup};

verus! {

/// A builder for a game context, with a window mode of type `M`.
#[derive(Debug, Clone)]
pub struct ContextBuilder<M> {
    /// The game's identifier, part of the user directories' paths.
    pub game_id: String,
    /// The game's author, part of the user directories' paths on some platforms.
    pub author: String,
    /// The configuration used unless a config file overrides it.
    pub conf: Conf<M>,
    /// The name of the resources directory next to the executable.
    pub resources_dir_name: String,
    /// The name of the resources zip file next to the executable.
    pub resources_zip_name: String,
    /// More read-only directories to search for resources, in order.
    pub paths: Vec<String>,
    /// Zip files held in memory to search for resources, in order.
    pub memory_zip_files: Vec<Vec<u8>>,
    /// Whether a `conf.toml` found among the resources overrides `conf`.
    pub load_conf_file: bool,
}

impl<M: Default> ContextBuilder<M> {
    /// A builder with default settings: the default configuration, the
    /// resources in `resources` and `resources.zip`, no further paths, and
    /// loading the config file.
    pub fn new(game_id: &str, author: &str) -> (b: Self)
        ensures
            b.game_id@ == game_id@,
            b.author@ == author@,
            call_ensures(M::default, (), b.conf.window_mode),
            is_default_setup(b.conf.window_setup),
            b.conf.backend == Backend::All,
            b.resources_dir_name@ == "resources"@,
            b.resources_zip_name@ == "resources.zip"@,
            b.paths@.len() == 0,
            b.memory_zip_files@.len() == 0,
            b.load_conf_file,
    {
        ContextBuilder {
            game_id: String::from_str(game_id),
            author: String::from_str(author),
            conf: Conf::new(),
            resources_dir_name: String::from_str("resources"),
            resources_zip_name: String::from_str("resources.zip"),
            paths: Vec::new(),
            memory_zip_files: Vec::new(),
            load_conf_file: true,
        }
    }
}

impl<M> ContextBuilder<M> {
    /// Everything but the configuration is the same in `self` and `other`.
    pub open spec fn same_but_conf(self, other: Self) -> bool {
        &&& self.game_id == other.game_id
        &&& self.author == other.author
        &&& self.resources_dir_name == other.resources_dir_name
        &&& self.resources_zip_name == other.resources_zip_name
        &&& self.paths == other.paths
        &&& self.memory_zip_files == other.memory_zip_files
        &&& self.load_conf_file == other.load_conf_file
    }

    /// Sets the window setup.
    pub fn window_setup(self, setup: WindowSetup) -> (b: Self)
        ensures
            b.same_but_conf(self),
            b.conf.window_setup == setup,
            b.conf.window_mode == self.conf.window_mode,
            b.conf.backend == self.conf.backend,
    {
        let mut b = self;
        b.conf.window_setup = setup;
        b
    }

    /// Sets the window mode.
    pub fn window_mode(self, mode: M) -> (b: Self)
        ensures
            b.same_but_conf(self),
            b.conf.window_setup == self.conf.window_setup,
            b.conf.window_mode == mode,
            b.conf.backend == self.conf.backend,
    {
        let mut b = self;
        b.conf.window_mode = mode;
        b
    }

    /// Sets the graphics backend.
    pub fn backend(self, backend: Backend) -> (b: Self)
        ensures
            b.same_but_conf(self),
            b.conf.window_setup == self.conf.window_setup,
            b.conf.window_mode == self.conf.window_mode,
            b.conf.backend == backend,
    {
        let mut b = self;
        b.conf.backend = backend;
        b
    }

    /// Sets the whole configuration, overriding the window setup, window
    /// mode and backend set before.
    pub fn default_conf(self, conf: Conf<M>) -> (b: Self)
        ensures
            b.same_but_conf(self),
            b.conf == conf,
    {
        let mut b = self;
        b.conf = conf;
        b
    }

    /// Sets the name of the resources directory.
    pub fn resources_dir_name(self, new_name: &str) -> (b: Self)
        ensures
            b.resources_dir_name@ == new_name@,
            b.game_id == self.game_id,
            b.author == self.author,
            b.conf == self.conf,
            b.resources_zip_name == self.resources_zip_name,
            b.paths == self.paths,
            b.memory_zip_files == self.memory_zip_files,
            b.load_conf_file == self.load_conf_file,
    {
        let mut b = self;
        b.resources_dir_name = String::from_str(new_name);
        b
    }

    /// Sets the name of the resources zip file.
    pub fn resources_zip_name(self, new_name: &str) -> (b: Self)
        ensures
            b.resources_zip_name@ == new_name@,
            b.game_id == self.game_id,
            b.author == self.author,
            b.conf == self.conf,
            b.resources_dir_name == self.resources_dir_name,
            b.paths == self.paths,
            b.memory_zip_files == self.memory_zip_files,
            b.load_conf_file == self.load_conf_file,
    {
        let mut b = self;
        b.resources_zip_name = String::from_str(new_name);
        b
    }

    /// Adds a read-only directory to search for resources, after those
    /// added before.
    pub fn add_resource_path(self, path: &str) -> (b: Self)
        ensures
            b.paths@.len() == self.paths@.len() + 1,
            b.paths@.take(self.paths@.len() as int) == self.paths@,
            b.paths@.last()@ == path@,
            b.game_id == self.game_id,
            b.author == self.author,
            b.conf == self.conf,
            b.resources_dir_name == self.resources_dir_name,
            b.resources_zip_name == self.resources_zip_name,
            b.memory_zip_files == self.memory_zip_files,
            b.load_conf_file == self.load_conf_file,
    {
        let mut b = self;
        b.paths.push(String::from_str(path));
        assert(b.paths@.take(self.paths@.len() as int) =~= self.paths@);
        b
    }

    /// Adds a zip file held in memory to search for resources, after those
    /// added before.
    pub fn add_zipfile_bytes(self, bytes: Vec<u8>) -> (b: Self)
        ensures
            b.memory_zip_files@ == self.memory_zip_files@.push(bytes),
            b.game_id == self.game_id,
            b.author == self.author,
            b.conf == self.conf,
            b.resources_dir_name == self.resources_dir_name,
            b.resources_zip_name == self.resources_zip_name,
            b.paths == self.paths,
            b.load_conf_file == self.load_conf_file,
    {
        let mut b = self;
        b.memory_zip_files.push(bytes);
        b
    }

    /// Sets whether a `conf.toml` found among the resources overrides the
    /// configuration given here.
    pub fn with_conf_file(self, load_conf_file: bool) -> (b: Self)
        ensures
            b.load_conf_file == load_conf_file,
            b.game_id == self.game_id,
            b.author == self.author,
            b.conf == self.conf,
            b.resources_dir_name == self.resources_dir_name,
            b.resources_zip_name == self.resources_zip_name,
            b.paths == self.paths,
            b.memory_zip_files == self.memory_zip_files,
    {
        let mut b = self;
        b.load_conf_file = load_conf_file;
        b
    }

    /// The configuration a context is built with: the one read from the
    /// config file, if loading it is on and it could be read; else the one
    /// given here.
    pub fn chosen_conf<E>(self, from_file: Result<Conf<M>, E>) -> (c: Conf<M>)
        ensures
            c == (match from_file {
                Ok(f) => if self.load_conf_file { f } else { self.conf },
                Err(_) => self.conf,
            }),
    {
        if self.load_conf_file {
            match from_file {
                Ok(f) => f,
                Err(_) => self.conf,
            }
        } else {
            self.conf
        }
    }
}

/// Something from which a `T` can be had.
pub trait Has<T> {
    /// The `T` it holds.
    spec fn spec_get(&self) -> T;

    /// The `T` it holds.
    fn get(&self) -> (r: &T)
        ensures
            *r == self.spec_get(),
    ;
}

impl<T> Has<T> for T {
    open spec fn spec_get(&self) -> T {
        *self
    }

    fn get(&self) -> (r: &T) {
        self
    }
}

/// Something from which a `T` can be had to change.
pub trait HasMut<T> {
    /// The `T` it holds.
    spec fn spec_get_mut(&self) -> T;

    /// The `T` it holds, to change.
    fn get_mut(&mut self) -> (r: &mut T)
        ensures
            *r == (*old(self)).spec_get_mut(),
            (*final(self)).spec_get_mut() == *final(r),
    ;
}

impl<T> HasMut<T> for T {
    open spec fn spec_get_mut(&self) -> T {
        *self
    }

    fn get_mut(&mut self) -> (r: &mut T) {
        self
    }
}

/// Something from which a `T` and a `U` can be had.
pub trait HasTwo<T, U> {
    /// The `T` it holds.
    spec fn spec_first(&self) -> T;

    /// The `U` it holds.
    spec fn spec_second(&self) -> U;

    /// The `T` it holds.
    fn get_first(&self) -> (r: &T)
        ensures
            *r == self.spec_first(),
    ;

    /// The `U` it holds.
    fn get_second(&self) -> (r: &U)
        ensures
            *r == self.spec_second(),
    ;
}

impl<'a, 'b, T, U> HasTwo<T, U> for (&'a T, &'b U) {
    open spec fn spec_first(&self) -> T {
        *self.0
    }

    open spec fn spec_second(&self) -> U {
        *self.1
    }

    fn get_first(&self) -> (r: &T) {
        self.0
    }

    fn get_second(&self) -> (r: &U) {
        self.1
    }
}

} // verus!
