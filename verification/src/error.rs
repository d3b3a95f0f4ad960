//! The framework's error type.

use vstd::prelude::*;

verus! {

/// All kinds of errors of the game framework.
#[derive(Debug)]
pub enum GameError {
    /// An error in the filesystem layout.
    FilesystemError(String),
    /// An error in the config file.
    ConfigError(String),
    /// An event loop proxy tried to wake an event loop that no longer exists.
    EventLoopError(String),
    /// An error trying to load a resource, such as getting an invalid image file.
    ResourceLoadError(String),
    /// Unable to find a resource; the `Vec` holds the paths searched and the
    /// error each gave.
    ResourceNotFound(String, Vec<(String, GameError)>),
    /// Something went wrong in the renderer.
    RenderError(String),
    /// Something went wrong in the audio playback.
    AudioError(String),
    /// Something went wrong trying to set or get window properties.
    WindowError(String),
    /// Something went wrong trying to read from a file.
    IOError(std::sync::Arc<std::io::Error>),
    /// Something went wrong applying video settings.
    VideoError(String),
    /// Something went wrong with the gamepad input library.
    GamepadError(String),
    /// Something went wrong with the shape tessellation library.
    LyonError(String),
    /// A font name that no loaded font has.
    FontSelectError(String),
    /// A custom error, with an informative message, for use by games.
    CustomError(String),
}

/// `e` is a [`GameError::ConfigError`] with the message `m`.
pub open spec fn is_config_error(e: GameError, m: Seq<char>) -> bool {
    e matches GameError::ConfigError(s) && s@ == m
}

} // verus!
