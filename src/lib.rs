//! Scoped, checked changes to process-wide state: the working directory and
//! single environment variables.
//!
//! The library holds the decisions: which acquisitions of the process-wide
//! lock own the session, what a guard records when it is opened, and what it
//! must find and do when it is closed. Whoever owns the process carries out
//! the reads and writes that these decisions ask for.
pub mod dir_guard;
pub mod env_guard;
pub mod session;

pub use session::{ThreadSession, Token};
pub use dir_guard::{pushd, DirChange, DirChanged, DirViolation, Pushd};
pub use env_guard::{pushenv, Pushenv, VarAction, VarChanged};
