//! Keeping a Minecraft server: resolving a version against the published
//! index, installing its archive so that the file in place is never a partial
//! or unverified download, and supervising the running server through an
//! orderly shutdown.
//!
//! The library decides and computes; it performs no input or output. The
//! installer ([`install`]) and the supervisor ([`server`]) are state machines:
//! each takes what the outside world reports and answers with the next thing
//! to do. What they guarantee over whole runs is proved in [`atomicity`] and
//! [`ordering`].

use vstd::prelude::*;

pub mod atomicity;
pub mod digest;
pub mod fetch;
pub mod hex;
pub mod install;
pub mod manifest;
pub mod ordering;
pub mod server;
pub mod text;
pub mod workspace;
