//! A verified core for a small 2D game framework: virtual file systems,
//! configuration, keyboard and mouse state, logging levels and a handful of
//! graphics bookkeeping structures.

pub mod audio;
pub mod conf;
pub mod context;
pub mod coroutine;
pub mod debug_repr;
pub mod error;
pub mod event;
pub mod filesystem;
pub mod graphics;
pub mod input;
pub mod keyboard;
pub mod logging;
pub mod paths;
pub mod vfs;
pub mod zipfs;
