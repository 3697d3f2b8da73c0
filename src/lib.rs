//! Keeps the machine awake: requests up to three power-management assertions
//! (display, idle system sleep, system sleep) and plans their release.
//!
//! The library holds the decisions; the calls into the operating system are
//! made by the caller, who hands each reply back to [`Acquire::record`].

pub mod error;
pub mod guard;
pub mod laws;
pub mod options;

pub use error::{Error, IOError};
pub use guard::{Acquire, Failure, KeepAwake};
pub use options::{Mode, Options};
