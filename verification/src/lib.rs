//! Uniquely named scratch directories that are removed when their owner is done.
//!
//! The crate holds the rules of the mechanism: how a directory name is
//! composed, how a creation that collides with an existing name is retried, and
//! what a handle owes the file system when it is closed, released or dropped.
//! It never touches the file system itself. Every operation on it is handed to
//! the caller as a [`Step`] to perform, and the caller reports back what
//! happened:
//!
//! ```ignore
//! let mut step = TempDir::new_in("/tmp", "build");
//! let dir = loop {
//!     step = match step {
//!         Step::SystemTempDir(unplaced) => unplaced.answer(system_temp_dir()),
//!         Step::CurrentDir(unresolved) => unresolved.answer(current_dir()),
//!         Step::CreateDir(pending) => {
//!             let outcome = create_dir(pending.path());
//!             pending.answer(outcome)
//!         }
//!         Step::Done(dir) => break Ok(dir),
//!         Step::Failed(e) => break Err(e),
//!     };
//! };
//! ```
//!
//! A handle is as plain about the end of the directory: [`TempDir::close`]
//! and [`TempDir::cleanup_dir`] return the [`Cleanup`] that is due, and the
//! caller removes what it names.
//!
//! Paths are text, in the notation of Unix: components separated by `/`, and
//! absolute where they start with one.

pub mod handle;
pub mod name;
pub mod path;
pub mod run;
pub mod search;

pub use crate::handle::{Cleanup, TempDir};
pub use crate::search::{Attempt, CreateError, Pending, Step, Unplaced, Unresolved};
