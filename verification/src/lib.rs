//! Kind-agnostic adapter logic for exposing already-opened OS handles
//! (regular files, stdio streams, stream sockets, listener sockets) through
//! one uniform operation set, together with the readiness-bridge state
//! machine that lets a cooperative scheduler wait for read/write readiness
//! without blocking a thread.
//!
//! The actual system calls and the reactor live outside this crate; the
//! types here model the per-kind rules (which operations a kind supports,
//! which flag sets are legal, the fixed ready-byte sentinel for sockets),
//! the registration lifecycle, and the checked conversion of native
//! transfer counts.

pub mod error;
pub mod flags;
pub mod kind;
pub mod resource;
pub mod stat;
pub mod transfer;

use vstd::prelude::*;

verus! {

/// The direction of readiness a caller may wait for.
#[derive(Clone, Copy, Debug, PartialEq, Eq, Structural)]
pub enum Direction {
    Read,
    Write,
}

} // verus!
