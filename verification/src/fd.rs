//! The descriptor handle an operation state owns.
//!
//! The runtime's reference-counted descriptor wrapper is an external
//! collaborator: it keeps the descriptor open for as long as any clone of
//! the handle exists. This module holds what the send logic reads of such
//! a handle: the raw descriptor number and, for the readiness backend, the
//! registration index used as an opaque readiness token. An operation
//! state stores its own copy of the handle for its whole lifetime, so the
//! descriptor reference it stands for cannot be released mid-operation.

use vstd::prelude::*;

verus! {

/// A driver's view of a shared descriptor handle.
#[derive(Clone, Copy, PartialEq, Eq, Structural, Debug)]
pub struct SharedFd {
    /// The raw descriptor number.
    pub raw: i32,
    /// The registration index with the readiness backend, if the
    /// descriptor is registered there.
    pub registered: Option<usize>,
}

impl SharedFd {
    /// A handle is well formed when its descriptor number is one the OS
    /// could have issued.
    pub open spec fn wf(&self) -> bool {
        self.raw >= 0
    }

    /// Binds a raw descriptor number and its optional readiness
    /// registration index into a handle.
    pub fn new(raw: i32, registered: Option<usize>) -> (r: SharedFd)
        requires
            raw >= 0,
        ensures
            r.raw == raw,
            r.registered == registered,
            r.wf(),
    {
        SharedFd { raw, registered }
    }

    /// The raw descriptor number.
    pub fn raw_fd(&self) -> (r: i32)
        ensures
            r == self.raw,
    {
        self.raw
    }

    /// The registration index with the readiness backend, or `None` if
    /// the descriptor carries no registration.
    pub fn registered_index(&self) -> (r: Option<usize>)
        ensures
            r == self.registered,
    {
        self.registered
    }
}

} // verus!
