//! The buffer capability an operation state owns.
//!
//! An operation owns its outbound buffer for its whole lifetime; the
//! capability exposes the initialized bytes and their count, and both stay
//! unchanged while the operation is in flight.

use vstd::prelude::*;

verus! {

/// The read side of an owned outbound buffer. Implementors promise that
/// the initialized bytes do not change while the buffer is owned by an
/// in-flight operation state.
pub trait IoBuf: Sized {
    /// The initialized bytes of the buffer.
    spec fn bytes(&self) -> Seq<u8>;

    /// The number of initialized bytes.
    fn bytes_init(&self) -> (r: usize)
        ensures
            r == self.bytes().len(),
    ;

    /// The initialized bytes, for handing to a backend.
    fn as_slice(&self) -> (r: &[u8])
        ensures
            r@ == self.bytes(),
    ;
}

/// A heap-allocated byte buffer: the plainest buffer capability.
pub struct VecBuf {
    pub data: Vec<u8>,
}

impl VecBuf {
    /// Wraps an owned byte vector as a buffer capability.
    pub fn new(data: Vec<u8>) -> (r: VecBuf)
        ensures
            r.bytes() == data@,
    {
        VecBuf { data }
    }

    /// Hands the owned bytes back.
    pub fn into_vec(self) -> (r: Vec<u8>)
        ensures
            r@ == self.bytes(),
    {
        self.data
    }
}

impl IoBuf for VecBuf {
    open spec fn bytes(&self) -> Seq<u8> {
        self.data@
    }

    fn bytes_init(&self) -> (r: usize) {
        self.data.len()
    }

    fn as_slice(&self) -> (r: &[u8]) {
        self.data.as_slice()
    }
}

} // verus!
