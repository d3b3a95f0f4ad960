//! Custom shaders: which code each stage of a shader is made from.

use vstd::prelude::*;

verus! {

/// Where the code of one shader stage comes from.
#[derive(Debug, Clone, Copy)]
pub enum ShaderSource<'a> {
    /// No code: the default stage is used.
    Unset,
    /// A resource path to the code.
    Path(&'a str),
    /// The code itself.
    Code(&'a str),
}

/// The value of a shader source: `0` for none, `1` for a path and `2` for
/// code, with its text.
pub open spec fn source_view(s: ShaderSource) -> (int, Seq<char>) {
    match s {
        ShaderSource::Unset => (0, Seq::<char>::empty()),
        ShaderSource::Path(p) => (1, p@),
        ShaderSource::Code(c) => (2, c@),
    }
}

/// Whether two strings hold the same text.
pub fn same_text(a: &str, b: &str) -> (r: bool)
    ensures
        r == (a@ == b@),
{
    let n = a.unicode_len();
    if n != b.unicode_len() {
        return false;
    }
    let mut i: usize = 0;
    while i < n
        invariant
            n == a@.len(),
            n == b@.len(),
            i <= n,
            forall|j: int| 0 <= j < i ==> a@[j] == b@[j],
        decreases n - i,
    {
        if a.get_char(i) != b.get_char(i) {
            return false;
        }
        i = i + 1;
    }
    assert(a@ =~= b@);
    true
}

impl<'a> ShaderSource<'a> {
    /// Whether two sources are the same: both none, or both a path, or both
    /// code, with the same text.
    pub fn same_as(&self, other: &ShaderSource) -> (r: bool)
        ensures
            r == (source_view(*self) == source_view(*other)),
    {
        match (self, other) {
            (ShaderSource::Unset, ShaderSource::Unset) => true,
            (ShaderSource::Path(a), ShaderSource::Path(b)) => same_text(a, b),
            (ShaderSource::Code(a), ShaderSource::Code(b)) => same_text(a, b),
            _ => false,
        }
    }
}

/// Builder pattern for assembling shaders: the source of the fragment
/// stage and of the vertex stage.
#[derive(Debug)]
pub struct ShaderBuilder<'a> {
    /// The fragment stage.
    pub fs: ShaderSource<'a>,
    /// The vertex stage.
    pub vs: ShaderSource<'a>,
}

impl<'a> ShaderBuilder<'a> {
    /// A builder with no code for either stage.
    pub fn new_wgsl() -> (b: Self)
        ensures
            b.fs matches ShaderSource::Unset,
            b.vs matches ShaderSource::Unset,
    {
        ShaderBuilder { fs: ShaderSource::Unset, vs: ShaderSource::Unset }
    }

    /// Uses this wgsl code for both the vertex and the fragment stage.
    pub fn new_with_code(source: &'a str) -> (b: Self)
        ensures
            b.fs == ShaderSource::Code(source),
            b.vs == ShaderSource::Code(source),
    {
        ShaderBuilder { fs: ShaderSource::Code(source), vs: ShaderSource::Code(source) }
    }

    /// Uses a single wgsl resource for both the vertex and the fragment stage.
    pub fn new_with_path(self, path: &'a str) -> (b: Self)
        ensures
            b.fs == ShaderSource::Path(path),
            b.vs == ShaderSource::Path(path),
    {
        ShaderBuilder { fs: ShaderSource::Path(path), vs: ShaderSource::Path(path) }
    }

    /// Uses this wgsl code for the fragment stage.
    pub fn fragment_code(self, source: &'a str) -> (b: Self)
        ensures
            b.fs == ShaderSource::Code(source),
            b.vs == self.vs,
    {
        ShaderBuilder { fs: ShaderSource::Code(source), vs: self.vs }
    }

    /// Uses this wgsl resource path for the fragment stage.
    pub fn fragment_path(self, path: &'a str) -> (b: Self)
        ensures
            b.fs == ShaderSource::Path(path),
            b.vs == self.vs,
    {
        ShaderBuilder { fs: ShaderSource::Path(path), vs: self.vs }
    }

    /// Uses this wgsl code for the vertex stage.
    pub fn vertex_code(self, source: &'a str) -> (b: Self)
        ensures
            b.fs == self.fs,
            b.vs == ShaderSource::Code(source),
    {
        ShaderBuilder { fs: self.fs, vs: ShaderSource::Code(source) }
    }

    /// Uses this wgsl resource path for the vertex stage.
    pub fn vertex_path(self, path: &'a str) -> (b: Self)
        ensures
            b.fs == self.fs,
            b.vs == ShaderSource::Path(path),
    {
        ShaderBuilder { fs: self.fs, vs: ShaderSource::Path(path) }
    }

    /// Whether both stages come from the same source, so that one shader
    /// module serves both.
    pub fn shares_module(&self) -> (r: bool)
        ensures
            r == (source_view(self.vs) == source_view(self.fs)),
    {
        self.vs.same_as(&self.fs)
    }
}

/// A custom shader: the module of each stage (of type `M`), if the stage is
/// not the default one.
#[derive(Debug, Clone, PartialEq, Eq, Hash)]
pub struct Shader<M> {
    /// The vertex module.
    pub vs_module: Option<M>,
    /// The fragment module.
    pub fs_module: Option<M>,
}

impl<M: Clone> Shader<M> {
    /// The shader built from the modules loaded for a builder: when both
    /// stages share one source, its single module serves both.
    pub fn from_modules(shared: bool, vs_module: Option<M>, fs_module: Option<M>) -> (s: Shader<M>)
        ensures
            shared ==> s.fs_module == vs_module && (match (vs_module, s.vs_module) {
                (Some(a), Some(b)) => cloned(a, b),
                (None, None) => true,
                _ => false,
            }),
            !shared ==> s.vs_module == vs_module && s.fs_module == fs_module,
    {
        if shared {
            let vs = match &vs_module {
                Some(m) => Some(m.clone()),
                None => None,
            };
            Shader { vs_module: vs, fs_module: vs_module }
        } else {
            Shader { vs_module, fs_module }
        }
    }
}

/// The default shader: neither stage is replaced.
pub fn default_shader<M>() -> (s: Shader<M>)
    ensures
        s.vs_module is None,
        s.fs_module is None,
{
    Shader { fs_module: None, vs_module: None }
}

/// The default text shader: neither stage is replaced.
pub fn default_text_shader<M>() -> (s: Shader<M>)
    ensures
        s.vs_module is None,
        s.fs_module is None,
{
    Shader { fs_module: None, vs_module: None }
}

} // verus!
