use std::mem::MaybeUninit;

use socket2::{Domain, Socket, Type};

use sendcore::addr::RawAddr;
use sendcore::buf::{IoBuf, VecBuf};
use sendcore::fd::SharedFd;
use sendcore::flags::NOSIGNAL_FLAG;
use sendcore::op::{Direction, MsgHdr, Op, OpAble, OsError, Sqe, Syscall};

#[test]
fn buffer_comes_back_on_success_and_on_failure() {
    let fd = SharedFd::new(3, None);
    let payload = vec![1u8, 2, 3, 4];

    let op = Op::send(fd, VecBuf::new(payload.clone()));
    let (res, buf) = op.write(Ok(4));
    assert_eq!(res, Ok(4));
    assert_eq!(buf.as_slice(), &payload[..]);

    let op = Op::send(fd, VecBuf::new(payload.clone()));
    let (res, buf) = op.write(Err(OsError { errno: 32 }));
    assert_eq!(res, Err(OsError { errno: 32 }));
    // the buffer is returned even though the send failed
    assert_eq!(buf.as_slice(), &payload[..]);
}

#[test]
fn msg_header_wired_to_present_address() {
    let fd = SharedFd::new(3, None);
    let addr_bytes = vec![2u8, 0, 31, 144, 127, 0, 0, 1, 0, 0, 0, 0, 0, 0, 0, 0];
    let addr = RawAddr::new(addr_bytes.clone()).expect("a converted address fits storage");
    let op = Op::send_msg(fd, VecBuf::new(vec![9u8; 8]), Some(addr));
    assert!(op.data.info.hdr.name_present);
    assert_eq!(op.data.info.hdr.name_len as usize, addr_bytes.len());
    assert_eq!(op.data.info.hdr.iov_len, 8);
}

#[test]
fn msg_header_null_and_zero_without_address() {
    let fd = SharedFd::new(3, None);
    let op = Op::send_msg(fd, VecBuf::new(vec![9u8; 8]), None);
    assert!(!op.data.info.hdr.name_present);
    assert_eq!(op.data.info.hdr.name_len, 0);
    assert_eq!(op.data.info.hdr.iov_len, 8);
}

#[test]
fn unix_msg_header_wired_like_the_network_one() {
    let fd = SharedFd::new(3, None);
    let path_addr = vec![1u8, 0, 47, 116, 109, 112, 47, 115, 0];
    let addr = RawAddr::new(path_addr.clone()).expect("a local address fits storage");
    let op = Op::send_msg_unix(fd, VecBuf::new(vec![7u8; 3]), Some(addr));
    assert!(op.data.info.hdr.name_present);
    assert_eq!(op.data.info.hdr.name_len as usize, path_addr.len());
    assert_eq!(op.data.info.hdr.iov_len, 3);

    let op = Op::send_msg_unix(SharedFd::new(4, None), VecBuf::new(vec![7u8; 3]), None);
    assert!(!op.data.info.hdr.name_present);
    assert_eq!(op.data.info.hdr.name_len, 0);
}

#[test]
fn raw_addr_rejects_empty_and_oversized() {
    assert!(RawAddr::new(Vec::new()).is_none());
    assert!(RawAddr::new(vec![0u8; 129]).is_none());
    assert!(RawAddr::new(vec![0u8; 128]).is_some());
    assert!(RawAddr::new(vec![0u8; 1]).is_some());
}

#[test]
fn interest_follows_registration() {
    let buf = VecBuf::new(vec![1u8]);
    let op = Op::send(SharedFd::new(3, Some(12)), buf);
    assert_eq!(op.data.legacy_interest(), Some((Direction::Write, 12)));

    let buf = VecBuf::new(vec![1u8]);
    let op = Op::send(SharedFd::new(3, None), buf);
    // no registration: the readiness path must not drive this operation
    assert_eq!(op.data.legacy_interest(), None);
}

#[test]
fn readiness_path_sends_sixteen_bytes() {
    // a connected stream pair; the write side is immediately writable
    let (a, b) = Socket::pair(Domain::UNIX, Type::STREAM, None).expect("socketpair");
    let payload = vec![0xABu8; 16];
    let fd = SharedFd::new(3, Some(0));
    let op = Op::send(fd, VecBuf::new(payload.clone()));

    assert_eq!(op.data.legacy_interest(), Some((Direction::Write, 0)));
    let call = op.data.legacy_call();
    let (len, flags) = match call {
        Syscall::Send { len, flags, .. } => (len, flags),
        other => panic!("a plain send plans a plain call, got {:?}", other),
    };
    assert_eq!(len, 16);
    assert_eq!(flags, NOSIGNAL_FLAG);

    // writability signaled: perform the planned raw call
    let n = a
        .send_with_flags(op.data.buf.as_slice(), flags as i32)
        .expect("the peer is connected and writable");
    let (res, buf) = op.write(Ok(n as u32));
    assert_eq!(res, Ok(16));
    assert_eq!(buf.as_slice(), &payload[..]);

    let mut space = [MaybeUninit::<u8>::uninit(); 16];
    let got = b.recv(&mut space).expect("the bytes arrived");
    assert_eq!(got, 16);
}

#[test]
fn connected_datagram_msg_send_without_address() {
    // a connected datagram pair: no destination address is given
    let (a, b) = Socket::pair(Domain::UNIX, Type::DGRAM, None).expect("socketpair");
    let payload = vec![0x5Au8; 12];
    let op = Op::send_msg(SharedFd::new(3, None), VecBuf::new(payload.clone()), None);

    // the header's address fields stay null and zero throughout
    assert!(!op.data.info.hdr.name_present);
    assert_eq!(op.data.info.hdr.name_len, 0);

    // the completion-queue submission carries that header and the
    // signal-suppression flag
    let sqe = op.data.uring_op(false);
    assert_eq!(
        sqe,
        Sqe::SendMsg {
            fd: 3,
            hdr: MsgHdr { name_present: false, name_len: 0, iov_len: 12 },
            flags: NOSIGNAL_FLAG,
        }
    );

    // the backend reports the accepted byte count; the result is the
    // payload length and the buffer comes back
    let n = a.send_with_flags(op.data.buf.as_slice(), NOSIGNAL_FLAG as i32).expect("send");
    let (res, buf) = op.wait(Ok(n as u32));
    assert_eq!(res, Ok(12));
    assert_eq!(buf.as_slice(), &payload[..]);

    let mut space = [MaybeUninit::<u8>::uninit(); 64];
    assert_eq!(b.recv(&mut space).expect("datagram arrived"), 12);
}

#[test]
fn operation_keeps_its_own_handle_copy() {
    // the operation stores its own copy of the descriptor handle at
    // construction; the caller's binding can go away while the
    // operation is in flight
    let (a, b) = Socket::pair(Domain::UNIX, Type::STREAM, None).expect("socketpair");
    let fd = SharedFd::new(9, Some(2));
    let state = Op::<sendcore::op::Send<VecBuf>>::send_raw(&fd, VecBuf::new(vec![3u8; 4]));
    drop(fd);
    assert_eq!(state.fd.raw_fd(), 9);
    assert_eq!(state.fd.registered_index(), Some(2));

    // the descriptor itself stays open while its owner lives: the
    // planned call still goes through
    let n = a.send_with_flags(state.buf.as_slice(), NOSIGNAL_FLAG as i32).expect("send");
    assert_eq!(n, 4);
    drop(a);
    // once every owner of the write side is gone the peer sees the end
    // of the stream after the in-flight bytes
    let mut space = [MaybeUninit::<u8>::uninit(); 8];
    assert_eq!(b.recv(&mut space).expect("bytes"), 4);
    assert_eq!(b.recv(&mut space).expect("eof"), 0);
}

#[test]
fn uring_entry_model_matches_flag_policy() {
    let payload = vec![1u8; 32];
    let op = Op::send(SharedFd::new(6, None), VecBuf::new(payload));
    let (model, _entry) = op.data.uring_entry(false);
    assert_eq!(model, Sqe::Send { fd: 6, len: 32, flags: NOSIGNAL_FLAG });
}
