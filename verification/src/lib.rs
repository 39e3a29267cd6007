//! Privilege-separation launcher logic for recording capture.
//!
//! The launcher runs setuid-root just long enough to validate an untrusted
//! recording identifier and build the argument vector for a sandboxed
//! container invocation. Everything that decides — the privilege check, the
//! identifier grammar, argument parsing, and the construction of the
//! invocation plan — lives here and is verified. The thin binary around it
//! reads the process credentials and arguments, and launches the child.

pub mod cli;
pub mod ident;
pub mod invoke;
pub mod privilege;
pub mod stage;
pub mod text;
