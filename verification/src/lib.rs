//! A boolean flag that expires: once set it reads true for a fixed time after
//! the latest `set`, and then falls back to false, unless it has been pinned.
//!
//! The flag decides and its caller acts: `set` says when a watcher is to be
//! started, and `poll` is one step of that watcher. What the operations do is
//! stated over `FlagState`, the flag as a mathematical value.

pub mod clock;
pub mod flag;
pub mod model;
pub mod theorems;
pub mod trace;

pub use flag::{ExpiringBool, POLL_INTERVAL_MILLIS};
pub use model::{FlagState, SetAction, WatchAction};
