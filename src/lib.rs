//! Verified decision logic of a desktop-shell bootstrapper.
//!
//! The bootstrapper locates the application's install directory, checks that
//! the bundled web application sits there, starts that application's server as
//! a child process, waits for it to come up, and hands over to the GUI runtime.
//! Everything that touches the operating system (the executable's path, the
//! file system, spawning, sleeping, the window) is done by the caller; this
//! crate decides what to do next and proves those decisions correct.
pub mod error;
pub mod directory;
pub mod command;
pub mod supervisor;
