//! A builder for package-manager invocations.
//!
//! A [`PackageManager`] accumulates what to run: the manager, the operation,
//! the packages, extra flags and a working directory. Preparing it validates
//! the configuration and assembles the argument list of the process to spawn.
//! The library performs no I/O itself: while a command is prepared it tells
//! its caller what to ask of the file system and decides on the answer.

pub mod builder;
pub mod laws;
pub mod manager;
pub mod prepare;
pub mod text;

pub use builder::{Config, PackageManager};
pub use manager::{install_verb, remove_verb, Manager};
pub use prepare::{Action, Invocation, PrepareError, Preparation, Progress};
