//! A queue-driven job executor: messages name a "project", the library
//! validates the message, resolves the project to a directory strictly
//! contained in a configured base directory, classifies the outcome of the
//! script run there, and decides the delivery acknowledgment.
//!
//! The blocking transport (queue pop, subprocess spawn, acknowledgment) lives
//! outside this crate; everything here is a pure decision over plain values.

pub mod machine;
pub mod outcome;
pub mod resolve;
pub mod validate;
