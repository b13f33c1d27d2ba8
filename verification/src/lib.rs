//! Verified core of ZeroIdle, a Windows maintenance tool: the formatting,
//! parsing and decision logic behind temp-file cleanup, the IDM activator,
//! the popup killer, the optimizer phases and the progress window.
//! Everything that touches the registry, the file system, the network,
//! processes or the screen lives in the application around this library.

pub mod text;
pub mod size_format;
pub mod release;
pub mod cleanup;
pub mod progress;
pub mod runner;
pub mod idm;
pub mod killer;
pub mod optimize;
pub mod archive;
