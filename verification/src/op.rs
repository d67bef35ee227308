//! Operation states for outbound sends, and the capability surface a
//! reactor drives them through.
//!
//! `Send` is a plain byte send; `SendMsg` sends to an optional network
//! destination; `SendMsgUnix` is the same shape for local-domain
//! destinations. Each state binds one descriptor handle and one buffer
//! together for the lifetime of the operation, and each can be driven
//! either by a completion-queue backend (an encoded submission) or by a
//! readiness backend (write-readiness interest, then a raw non-blocking
//! send call described by [`Syscall`]).

use vstd::prelude::*;

use crate::addr::RawAddr;
use crate::buf::IoBuf;
use crate::fd::SharedFd;
use crate::flags::{send_flags, send_flags_spec, NOSIGNAL_FLAG};

verus! {

/// The readiness direction an operation waits for.
#[derive(Clone, Copy, PartialEq, Eq, Structural, Debug)]
pub enum Direction {
    Read,
    Write,
}

/// An OS-level failure, decoded from the backend's error convention.
#[derive(Clone, Copy, PartialEq, Eq, Structural, Debug)]
pub struct OsError {
    /// The OS error number.
    pub errno: i32,
}

/// The message-header wiring of a message-oriented send: what of the
/// header the backend reads, as plain values. The scatter/gather vector
/// always holds the one buffer; the name fields point at the converted
/// destination address, or are null and zero when the send goes to an
/// already-connected peer.
#[derive(Clone, Copy, PartialEq, Eq, Structural, Debug)]
pub struct MsgHdr {
    /// Whether the header's address pointer is set (non-null).
    pub name_present: bool,
    /// The header's address length in bytes; zero when no address is set.
    pub name_len: u32,
    /// The length of the single scatter/gather entry: the buffer's
    /// initialized byte count.
    pub iov_len: usize,
}

/// The address-stable descriptor bundle of a message-oriented send: the
/// optional converted destination plus the header wiring over it. It is
/// built once at construction and not changed afterwards.
pub struct MsgInfo {
    /// The converted destination address, if the send names one.
    pub addr: Option<RawAddr>,
    /// The header wiring the backend reads.
    pub hdr: MsgHdr,
}

impl MsgInfo {
    /// The header is wired to the address: its length is the converted
    /// address's byte length and its pointer is set exactly when a
    /// destination is present.
    pub open spec fn wired(&self, buf_len: nat) -> bool {
        &&& self.hdr.iov_len == buf_len
        &&& match self.addr {
            Some(a) => self.hdr.name_present && self.hdr.name_len == a.bytes_spec().len(),
            None => !self.hdr.name_present && self.hdr.name_len == 0,
        }
    }

    /// Wires a message header over the optional destination address and
    /// the buffer's initialized length.
    pub fn new(addr: Option<RawAddr>, buf_len: usize) -> (r: MsgInfo)
        requires
            addr matches Some(a) ==> a.wf(),
        ensures
            r.wired(buf_len as nat),
            r.addr == addr,
    {
        let hdr = match &addr {
            Some(a) => MsgHdr { name_present: true, name_len: a.len() as u32, iov_len: buf_len },
            None => MsgHdr { name_present: false, name_len: 0, iov_len: buf_len },
        };
        MsgInfo { addr, hdr }
    }
}

/// Decodes a backend's raw completion status: a non-negative value is
/// the accepted byte count, a negative one carries the OS error number.
pub fn decode_completion(res: i32) -> (r: Result<u32, OsError>)
    requires
        res > i32::MIN,
    ensures
        res >= 0 ==> r == Ok::<u32, OsError>(res as u32),
        res < 0 ==> r == Err::<u32, OsError>(OsError { errno: (-res) as i32 }),
{
    if res >= 0 {
        Ok(res as u32)
    } else {
        Err(OsError { errno: -res })
    }
}

/// A completion-queue submission, as its model: which entry the backend
/// is asked to encode, for which descriptor, with which flags.
#[derive(Clone, Copy, PartialEq, Eq, Structural, Debug)]
pub enum Sqe {
    /// A plain send of `len` buffer bytes.
    Send { fd: i32, len: usize, flags: u32 },
    /// A message send through a wired header.
    SendMsg { fd: i32, hdr: MsgHdr, flags: u32 },
}

/// The raw non-blocking call the readiness backend performs once
/// writability is signaled.
#[derive(Clone, Copy, PartialEq, Eq, Structural, Debug)]
pub enum Syscall {
    /// `send` of `len` buffer bytes with the given flags.
    Send { fd: i32, len: usize, flags: u32 },
    /// `sendmsg` through a wired header with the given flags.
    SendMsg { fd: i32, hdr: MsgHdr, flags: u32 },
}

/// The capability surface every operation state offers the reactor, so
/// one operation type can be driven by either backend without the reactor
/// knowing which concrete operation it is.
pub trait OpAble: Sized {
    /// The completion-queue submission this operation asks for, given
    /// the zero-copy configuration.
    spec fn sqe_spec(&self, zero_copy: bool) -> Sqe;

    /// The readiness interest this operation asks for, if its descriptor
    /// is registered with the readiness backend.
    spec fn interest_spec(&self) -> Option<(Direction, usize)>;

    /// The raw call the readiness backend performs for this operation.
    spec fn syscall_spec(&self) -> Syscall;

    /// Produce the completion-queue submission. Safe to call once per
    /// operation, immediately before submission.
    fn uring_op(&self, zero_copy: bool) -> (r: Sqe)
        ensures
            r == self.sqe_spec(zero_copy),
    ;

    /// Report the direction and registration token the readiness backend
    /// should watch, or `None` if the descriptor carries no registration,
    /// in which case the readiness path must not drive this operation.
    fn legacy_interest(&self) -> (r: Option<(Direction, usize)>)
        ensures
            r == self.interest_spec(),
    ;

    /// Describe the raw non-blocking send to perform once writability is
    /// signaled.
    fn legacy_call(&self) -> (r: Syscall)
        ensures
            r == self.syscall_spec(),
    ;
}

/// A plain byte send: one descriptor handle, one buffer.
pub struct Send<T> {
    /// The operation's own copy of the descriptor handle, held so the
    /// descriptor reference cannot be released while in flight.
    pub fd: SharedFd,
    /// The outbound buffer.
    pub buf: T,
}

impl<T: IoBuf> OpAble for Send<T> {
    open spec fn sqe_spec(&self, zero_copy: bool) -> Sqe {
        Sqe::Send {
            fd: self.fd.raw,
            len: self.buf.bytes().len() as usize,
            flags: send_flags_spec(zero_copy, self.buf.bytes().len()),
        }
    }

    open spec fn interest_spec(&self) -> Option<(Direction, usize)> {
        match self.fd.registered {
            Some(idx) => Some((Direction::Write, idx)),
            None => None,
        }
    }

    open spec fn syscall_spec(&self) -> Syscall {
        Syscall::Send {
            fd: self.fd.raw,
            len: self.buf.bytes().len() as usize,
            flags: NOSIGNAL_FLAG,
        }
    }

    fn uring_op(&self, zero_copy: bool) -> (r: Sqe) {
        let len: usize = self.buf.bytes_init();
        Sqe::Send { fd: self.fd.raw_fd(), len, flags: send_flags(zero_copy, len) }
    }

    fn legacy_interest(&self) -> (r: Option<(Direction, usize)>) {
        match self.fd.registered_index() {
            Some(idx) => Some((Direction::Write, idx)),
            None => None,
        }
    }

    fn legacy_call(&self) -> (r: Syscall) {
        Syscall::Send { fd: self.fd.raw_fd(), len: self.buf.bytes_init(), flags: NOSIGNAL_FLAG }
    }
}

/// A message send to an optional network destination.
pub struct SendMsg<T> {
    /// The operation's own copy of the descriptor handle.
    pub fd: SharedFd,
    /// The outbound buffer.
    pub buf: T,
    /// The destination and the header wiring over it.
    pub info: MsgInfo,
}

impl<T: IoBuf> OpAble for SendMsg<T> {
    open spec fn sqe_spec(&self, zero_copy: bool) -> Sqe {
        Sqe::SendMsg { fd: self.fd.raw, hdr: self.info.hdr, flags: NOSIGNAL_FLAG }
    }

    open spec fn interest_spec(&self) -> Option<(Direction, usize)> {
        match self.fd.registered {
            Some(idx) => Some((Direction::Write, idx)),
            None => None,
        }
    }

    open spec fn syscall_spec(&self) -> Syscall {
        Syscall::SendMsg { fd: self.fd.raw, hdr: self.info.hdr, flags: NOSIGNAL_FLAG }
    }

    fn uring_op(&self, _zero_copy: bool) -> (r: Sqe) {
        Sqe::SendMsg { fd: self.fd.raw_fd(), hdr: self.info.hdr, flags: NOSIGNAL_FLAG }
    }

    fn legacy_interest(&self) -> (r: Option<(Direction, usize)>) {
        match self.fd.registered_index() {
            Some(idx) => Some((Direction::Write, idx)),
            None => None,
        }
    }

    fn legacy_call(&self) -> (r: Syscall) {
        Syscall::SendMsg { fd: self.fd.raw_fd(), hdr: self.info.hdr, flags: NOSIGNAL_FLAG }
    }
}

/// A message send to an optional local-domain destination: the same
/// shape as [`SendMsg`], specialized to file-system-path addresses.
pub struct SendMsgUnix<T> {
    /// The operation's own copy of the descriptor handle.
    pub fd: SharedFd,
    /// The outbound buffer.
    pub buf: T,
    /// The destination and the header wiring over it.
    pub info: MsgInfo,
}

impl<T: IoBuf> OpAble for SendMsgUnix<T> {
    open spec fn sqe_spec(&self, zero_copy: bool) -> Sqe {
        Sqe::SendMsg { fd: self.fd.raw, hdr: self.info.hdr, flags: NOSIGNAL_FLAG }
    }

    open spec fn interest_spec(&self) -> Option<(Direction, usize)> {
        match self.fd.registered {
            Some(idx) => Some((Direction::Write, idx)),
            None => None,
        }
    }

    open spec fn syscall_spec(&self) -> Syscall {
        Syscall::SendMsg { fd: self.fd.raw, hdr: self.info.hdr, flags: NOSIGNAL_FLAG }
    }

    fn uring_op(&self, _zero_copy: bool) -> (r: Sqe) {
        Sqe::SendMsg { fd: self.fd.raw_fd(), hdr: self.info.hdr, flags: NOSIGNAL_FLAG }
    }

    fn legacy_interest(&self) -> (r: Option<(Direction, usize)>) {
        match self.fd.registered_index() {
            Some(idx) => Some((Direction::Write, idx)),
            None => None,
        }
    }

    fn legacy_call(&self) -> (r: Syscall) {
        Syscall::SendMsg { fd: self.fd.raw_fd(), hdr: self.info.hdr, flags: NOSIGNAL_FLAG }
    }
}

/// A submitted operation: the state is owned here from submission until
/// the backend reports resolution, at which point the result is paired
/// back with the buffer and both are returned to the caller. The
/// suspension and wake plumbing around it is the submission layer's.
pub struct Op<D> {
    /// The operation state, owned for the whole flight.
    pub data: D,
}

impl<T: IoBuf> Op<Send<T>> {
    /// Binds a descriptor handle and a buffer into a submitted plain
    /// send. Construction only prepares state; no call is performed.
    pub fn send(fd: SharedFd, buf: T) -> (r: Op<Send<T>>)
        ensures
            r.data.buf == buf,
            r.data.fd == fd,
    {
        Op { data: Self::send_raw(&fd, buf) }
    }

    /// Builds the bare operation state: the state stores its own copy of
    /// the handle.
    pub fn send_raw(fd: &SharedFd, buf: T) -> (r: Send<T>)
        ensures
            r.buf == buf,
            r.fd == *fd,
    {
        Send { fd: fd.clone(), buf }
    }

    /// Resolves the operation with the result the backend reported: the
    /// byte count or the decoded OS error, paired with the identical
    /// buffer supplied at construction — returned whether the send
    /// succeeded or failed.
    pub fn write(self, result: Result<u32, OsError>) -> (r: (Result<usize, OsError>, T))
        ensures
            r.1 == self.data.buf,
            match result {
                Ok(n) => r.0 == Ok::<usize, OsError>(n as usize),
                Err(e) => r.0 == Err::<usize, OsError>(e),
            },
    {
        let res = match result {
            Ok(n) => Ok(n as usize),
            Err(e) => Err(e),
        };
        (res, self.data.buf)
    }
}

impl<T: IoBuf> Op<SendMsg<T>> {
    /// Binds a descriptor handle, a buffer and an optional converted
    /// network destination into a submitted message send, wiring the
    /// header over them. Construction only prepares state; no call is
    /// performed.
    pub fn send_msg(fd: SharedFd, buf: T, addr: Option<RawAddr>) -> (r: Op<SendMsg<T>>)
        requires
            addr matches Some(a) ==> a.wf(),
        ensures
            r.data.buf == buf,
            r.data.fd == fd,
            r.data.info.addr == addr,
            r.data.info.wired(buf.bytes().len()),
    {
        let len: usize = buf.bytes_init();
        let info = MsgInfo::new(addr, len);
        Op { data: SendMsg { fd, buf, info } }
    }

    /// Resolves the operation: the backend's result paired with the
    /// identical buffer supplied at construction, success or not.
    pub fn wait(self, result: Result<u32, OsError>) -> (r: (Result<usize, OsError>, T))
        ensures
            r.1 == self.data.buf,
            match result {
                Ok(n) => r.0 == Ok::<usize, OsError>(n as usize),
                Err(e) => r.0 == Err::<usize, OsError>(e),
            },
    {
        let res = match result {
            Ok(n) => Ok(n as usize),
            Err(e) => Err(e),
        };
        (res, self.data.buf)
    }
}

impl<T: IoBuf> Op<SendMsgUnix<T>> {
    /// Binds a descriptor handle, a buffer and an optional converted
    /// local-domain destination into a submitted message send, wiring
    /// the header over them.
    pub fn send_msg_unix(fd: SharedFd, buf: T, addr: Option<RawAddr>) -> (r: Op<SendMsgUnix<T>>)
        requires
            addr matches Some(a) ==> a.wf(),
        ensures
            r.data.buf == buf,
            r.data.fd == fd,
            r.data.info.addr == addr,
            r.data.info.wired(buf.bytes().len()),
    {
        let len: usize = buf.bytes_init();
        let info = MsgInfo::new(addr, len);
        Op { data: SendMsgUnix { fd, buf, info } }
    }

    /// Resolves the operation: the backend's result paired with the
    /// identical buffer supplied at construction, success or not.
    pub fn wait(self, result: Result<u32, OsError>) -> (r: (Result<usize, OsError>, T))
        ensures
            r.1 == self.data.buf,
            match result {
                Ok(n) => r.0 == Ok::<usize, OsError>(n as usize),
                Err(e) => r.0 == Err::<usize, OsError>(e),
            },
    {
        let res = match result {
            Ok(n) => Ok(n as usize),
            Err(e) => Err(e),
        };
        (res, self.data.buf)
    }
}

} // verus!
