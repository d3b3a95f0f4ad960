//! Game configuration: window settings that must be chosen before the
//! window opens, the graphics backend, and the whole configuration.
//!
//! The window mode (sizes in pixels) is kept as a value of the caller's
//! type `M`; the library carries it along unread.

use vstd::prelude::*;
use crate::error::{is_config_error, GameError};

verus! {

/// Possible fullscreen modes.
#[derive(Debug, Copy, Clone, PartialEq, Eq, Structural)]
pub enum FullscreenType {
    /// Windowed mode.
    Windowed,
    /// True fullscreen, which allows different resolutions.
    True,
    /// Windowed fullscreen, which plays nicer with multiple monitors.
    Desktop,
}

/// The possible number of samples for multisample anti-aliasing.
#[derive(Debug, Copy, Clone, PartialEq, Eq, Structural)]
pub enum NumSamples {
    /// One sample.
    One,
    /// Four samples.
    Four,
}

/// The number of samples a setting stands for.
pub open spec fn sample_count(n: NumSamples) -> u8 {
    match n {
        NumSamples::One => 1,
        NumSamples::Four => 4,
    }
}

impl NumSamples {
    /// The setting for a number of samples: 1 and 4 are supported, any
    /// other number is an error.
    pub fn try_from_u8(i: u8) -> (r: Result<NumSamples, GameError>)
        ensures
            match r {
                Ok(n) => sample_count(n) == i,
                Err(e) => i != 1 && i != 4 && is_config_error(e, "Invalid number of samples"@),
            },
    {
        match i {
            1 => Ok(NumSamples::One),
            4 => Ok(NumSamples::Four),
            _ => Err(GameError::ConfigError(String::from_str("Invalid number of samples"))),
        }
    }

    /// The number of samples.
    pub fn to_u8(self) -> (i: u8)
        ensures
            i == sample_count(self),
    {
        match self {
            NumSamples::One => 1,
            NumSamples::Four => 4,
        }
    }
}

/// Every setting stands for a supported number of samples, and no two
/// settings for the same number: turning a setting into its number and
/// back gives the setting again.
pub proof fn lemma_samples_round_trip(n: NumSamples, m: NumSamples)
    ensures
        sample_count(n) == 1 || sample_count(n) == 4,
        sample_count(n) == sample_count(m) ==> n == m,
{
}

impl From<NumSamples> for u8 {
    fn from(ns: NumSamples) -> (i: u8) {
        ns.to_u8()
    }
}

impl vstd::std_specs::convert::FromSpecImpl<NumSamples> for u8 {
    open spec fn obeys_from_spec() -> bool {
        true
    }

    open spec fn from_spec(ns: NumSamples) -> u8 {
        sample_count(ns)
    }
}

/// Window settings that must be set when the window is created.
#[derive(Debug, Clone)]
pub struct WindowSetup {
    /// The window title.
    pub title: String,
    /// Number of samples to use for multisample anti-aliasing.
    pub samples: NumSamples,
    /// Whether or not to enable vsync.
    pub vsync: bool,
    /// A path to the window's icon, rooted in the resources; empty for the default icon.
    pub icon: String,
    /// Whether or not to enable sRGB (gamma corrected color) handling on the display.
    pub srgb: bool,
}

/// The default window setup: title `An easy, good game`, one sample,
/// vsync on, no icon, sRGB on.
pub open spec fn is_default_setup(s: WindowSetup) -> bool {
    &&& s.title@ == "An easy, good game"@
    &&& s.samples == NumSamples::One
    &&& s.vsync
    &&& s.icon@ == Seq::<char>::empty()
    &&& s.srgb
}

impl Default for WindowSetup {
    fn default() -> (s: WindowSetup)
        ensures
            is_default_setup(s),
    {
        WindowSetup {
            title: String::from_str("An easy, good game"),
            samples: NumSamples::One,
            vsync: true,
            icon: String::new(),
            srgb: true,
        }
    }
}

impl WindowSetup {
    /// Sets the window title.
    pub fn title(self, title: &str) -> (s: Self)
        ensures
            s.title@ == title@,
            s.samples == self.samples,
            s.vsync == self.vsync,
            s.icon == self.icon,
            s.srgb == self.srgb,
    {
        WindowSetup { title: String::from_str(title), ..self }
    }

    /// Sets the number of samples for multisample anti-aliasing.
    pub fn samples(self, samples: NumSamples) -> (s: Self)
        ensures
            s.title == self.title,
            s.samples == samples,
            s.vsync == self.vsync,
            s.icon == self.icon,
            s.srgb == self.srgb,
    {
        WindowSetup { samples, ..self }
    }

    /// Sets whether vsync is enabled.
    pub fn vsync(self, vsync: bool) -> (s: Self)
        ensures
            s.title == self.title,
            s.samples == self.samples,
            s.vsync == vsync,
            s.icon == self.icon,
            s.srgb == self.srgb,
    {
        WindowSetup { vsync, ..self }
    }

    /// Sets the window's icon.
    pub fn icon(self, icon: &str) -> (s: Self)
        ensures
            s.title == self.title,
            s.samples == self.samples,
            s.vsync == self.vsync,
            s.icon@ == icon@,
            s.srgb == self.srgb,
    {
        WindowSetup { icon: String::from_str(icon), ..self }
    }

    /// Sets the sRGB color mode.
    pub fn srgb(self, active: bool) -> (s: Self)
        ensures
            s.title == self.title,
            s.samples == self.samples,
            s.vsync == self.vsync,
            s.icon == self.icon,
            s.srgb == active,
    {
        WindowSetup { srgb: active, ..self }
    }

    /// Whether two setups are the same.
    pub fn same_as(&self, other: &WindowSetup) -> (b: bool)
        ensures
            b == (self.title@ == other.title@ && self.samples == other.samples && self.vsync == other.vsync
                && self.icon@ == other.icon@ && self.srgb == other.srgb),
    {
        self.title == other.title && self.samples == other.samples && self.vsync == other.vsync
            && self.icon == other.icon && self.srgb == other.srgb
    }
}

/// Possible graphics backends.  The default is `All`.
#[derive(Debug, Copy, Clone, PartialEq, Eq, Structural)]
pub enum Backend {
    /// The primary APIs and also the secondary ones (OpenGL and DX11).
    All,
    /// The primary APIs: Vulkan, Metal and DX12.
    OnlyPrimary,
    /// The Khronos Vulkan API.
    Vulkan,
    /// The Apple Metal API.
    Metal,
    /// The Microsoft DirectX 12 API.
    Dx12,
    /// The Microsoft DirectX 11 API; not recommended.
    Dx11,
    /// The Khronos OpenGL API; not recommended.
    Gl,
    /// The WebGPU API, for the web.
    BrowserWebGpu,
}

impl Default for Backend {
    fn default() -> (b: Backend)
        ensures
            b == Backend::All,
    {
        Backend::All
    }
}

/// The configuration of the game engine, with a window mode of type `M`.
#[derive(Debug, Clone)]
pub struct Conf<M> {
    /// Window settings that can be changed at runtime.
    pub window_mode: M,
    /// Window settings that must be set at init time.
    pub window_setup: WindowSetup,
    /// Graphics backend configuration.
    pub backend: Backend,
}

impl<M: Default> Conf<M> {
    /// The default configuration: the default window mode and setup, and
    /// the `All` backend.
    pub fn new() -> (c: Self)
        ensures
            call_ensures(M::default, (), c.window_mode),
            is_default_setup(c.window_setup),
            c.backend == Backend::All,
    {
        Conf { window_mode: M::default(), window_setup: WindowSetup::default(), backend: Backend::All }
    }
}

impl<M> Conf<M> {
    /// Sets the window mode.
    pub fn window_mode(self, window_mode: M) -> (c: Self)
        ensures
            c.window_mode == window_mode,
            c.window_setup == self.window_setup,
            c.backend == self.backend,
    {
        Conf { window_mode, ..self }
    }

    /// Sets the backend.
    pub fn backend(self, backend: Backend) -> (c: Self)
        ensures
            c.window_mode == self.window_mode,
            c.window_setup == self.window_setup,
            c.backend == backend,
    {
        Conf { backend, ..self }
    }
}

impl<M: Default> Default for Conf<M> {
    fn default() -> (c: Self)
        ensures
            call_ensures(M::default, (), c.window_mode),
            is_default_setup(c.window_setup),
            c.backend == Backend::All,
    {
        Conf::new()
    }
}

} // verus!
