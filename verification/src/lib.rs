//! Query and change the parent-death signal of the calling process.
//!
//! The parent-death signal is a per-process kernel setting: when the parent
//! of this process terminates, the kernel delivers the configured signal to
//! this process. This crate keeps a catalog of the classic POSIX signal
//! numbers (1 through 31), hands out canonical `Signal` values for them, and
//! exposes the two kernel operations that read and write the setting.

pub mod cache;
pub mod error;
pub mod ops;
pub mod signal;

pub use cache::SignalTable;
pub use error::Error;
pub use ops::{get_parent_death_signal, set_parent_death_signal};
pub use signal::{Signal, SignalInput};
