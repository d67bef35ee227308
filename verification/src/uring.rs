//! Encoding a plain send for the completion-queue backend.
//!
//! The completion-queue backend consumes one encoded submission entry per
//! operation. The entry for a plain send embeds the buffer's read pointer,
//! so the buffer must stay owned and unmoved by the operation state until
//! the backend reports resolution; the submitter is the one who keeps the
//! state alive across that window.

use vstd::prelude::*;

use crate::buf::IoBuf;
use crate::flags::send_flags;
use crate::op::{OpAble, Send, Sqe};

verus! {

#[verifier::external_type_specification]
#[verifier::external_body]
pub struct ExEntry(io_uring::squeue::Entry);

/// Relies on `io_uring::opcode::Send`: encodes a plain-send submission
/// entry for the given descriptor, buffer bytes and flag word.
#[verifier::external_body]
fn encode_send_entry(fd: i32, buf: &[u8], flags: u32) -> (r: io_uring::squeue::Entry) {
    io_uring::opcode::Send::new(io_uring::types::Fd(fd), buf.as_ptr(), buf.len() as u32)
        .flags(flags as i32)
        .build()
}

impl<T: IoBuf> Send<T> {
    /// The encoded completion-queue submission for this operation,
    /// beside its model: the entry carries exactly the descriptor,
    /// length and flag word the model states. Safe to call once per
    /// operation, immediately before submission.
    pub fn uring_entry(&self, zero_copy: bool) -> (r: (Sqe, io_uring::squeue::Entry))
        ensures
            r.0 == self.sqe_spec(zero_copy),
    {
        let len: usize = self.buf.bytes_init();
        let flags = send_flags(zero_copy, len);
        let entry = encode_send_entry(self.fd.raw_fd(), self.buf.as_slice(), flags);
        (Sqe::Send { fd: self.fd.raw_fd(), len, flags }, entry)
    }
}

} // verus!
