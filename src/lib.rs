//! Mirrors a list of object-storage locations into a local directory tree.
//!
//! The library holds the decisions: parsing locators, deriving keys and local
//! paths, the retry policy for remote calls, and the per-object state machine
//! that drives verification, download and deletion. The caller performs the
//! actions that the state machine asks for and feeds back what happened.
//!
//! Local paths are built with `PathBuf::push` and described for a Unix host,
//! where the separator is `/`.
pub mod locator;
pub mod paths;
pub mod retry;
pub mod sync;
pub mod report;
