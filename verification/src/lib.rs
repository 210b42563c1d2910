//! Verified core of a compiler-toolchain playground service.
//!
//! A caller submits source text and a logical command; the service runs a
//! fixed toolchain binary over the text inside a resource-capped, isolated
//! container and returns the captured output. This crate holds the parts of
//! that service whose behaviour can be stated and proved: the mapping from
//! logical commands and option toggles to argument vectors, the construction
//! of the container invocation with its non-negotiable isolation flags, the
//! per-request workspace lifecycle, the project file table, and the shaping
//! of command output into responses. The surrounding HTTP and process I/O
//! lives outside the library.

pub mod channel;
pub mod command;
pub mod errors;
pub mod lifecycle;
pub mod options;
pub mod project;
pub mod render;
pub mod response;
pub mod sandbox;
pub mod workspace;
