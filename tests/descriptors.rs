use compio_ops::{
    Accept, CPath, CloseFile, Connect, CreateDir, CreateSocket, Error, FileStat, HardLink, How,
    Interest, IoVec, MsgHeader, OpEntry, OpenFile, PathStat, PollOnce, ReadAt, ReadVectoredAt,
    Recv, RecvFrom, RecvFromVectored, RecvMsg, Region, Rename, Send, SendMsg, SendTo,
    SendToVectored, SendVectored, ShutdownSocket, SocketAddr, Sqe, Symlink, Sync, Unlink,
    WriteAt, WriteVectoredAt, ADDR_STORAGE_LEN, STATX_LEN,
};

fn path(s: &str) -> CPath {
    CPath::new(s.as_bytes().to_vec()).unwrap()
}

fn addr(n: usize) -> SocketAddr {
    SocketAddr::new(vec![7u8; n]).unwrap()
}

#[test]
fn path_keeps_bytes_and_terminator() {
    let p = path("/tmp/a b");
    let mut expected = b"/tmp/a b".to_vec();
    expected.push(0);
    assert_eq!(p.as_bytes_with_nul(), &expected);
    let empty = path("");
    assert_eq!(empty.as_bytes_with_nul(), &vec![0u8]);
}

#[test]
fn path_with_interior_nul_is_rejected() {
    assert!(matches!(CPath::new(vec![b'a', 0, b'b']), Err(Error::InvalidInput)));
    assert!(matches!(CPath::new(vec![0]), Err(Error::InvalidInput)));
}

#[test]
fn path_op_references_stored_path() {
    let op = Unlink::new(path("dir/file"), false);
    assert_eq!(
        op.create_entry(),
        OpEntry::Submission(Sqe::UnlinkAt { dirfd: -100, path: Region::Path, flags: 0 })
    );
    assert_eq!(op.path.as_bytes_with_nul(), &b"dir/file\0".to_vec());
    let dir = Unlink::new(path("d"), true);
    assert_eq!(
        dir.create_entry(),
        OpEntry::Submission(Sqe::UnlinkAt { dirfd: -100, path: Region::Path, flags: 0x200 })
    );
}

#[test]
fn two_path_ops() {
    let r = Rename::new(path("a"), path("b"));
    assert_eq!(
        r.create_entry(),
        OpEntry::Submission(Sqe::RenameAt {
            olddirfd: -100,
            oldpath: Region::Path,
            newdirfd: -100,
            newpath: Region::SecondPath
        })
    );
    assert_eq!(r.new_path.as_bytes_with_nul(), &b"b\0".to_vec());
    let s = Symlink::new(path("src"), path("link"));
    assert_eq!(
        s.create_entry(),
        OpEntry::Submission(Sqe::SymlinkAt {
            newdirfd: -100,
            target: Region::Path,
            linkpath: Region::SecondPath
        })
    );
    let h = HardLink::new(path("src"), path("link"));
    assert_eq!(
        h.create_entry(),
        OpEntry::Submission(Sqe::LinkAt {
            olddirfd: -100,
            oldpath: Region::Path,
            newdirfd: -100,
            newpath: Region::SecondPath
        })
    );
    let c = CreateDir::new(path("d"), 0o755);
    assert_eq!(
        c.create_entry(),
        OpEntry::Submission(Sqe::MkDirAt { dirfd: -100, path: Region::Path, mode: 0o755 })
    );
}

#[test]
fn open_adds_cloexec() {
    let op = OpenFile::new(path("f"), 0o1, 0o644);
    assert_eq!(
        op.create_entry(),
        OpEntry::Submission(Sqe::OpenAt {
            dirfd: -100,
            path: Region::Path,
            flags: 0x80001,
            mode: 0o644
        })
    );
    assert_eq!(
        CloseFile::new(5).create_entry(),
        OpEntry::Submission(Sqe::Close { fd: 5 })
    );
}

#[test]
fn stat_flags() {
    let f = FileStat::new(3);
    assert_eq!(f.stat.len(), STATX_LEN);
    assert!(f.stat.iter().all(|b| *b == 0));
    assert_eq!(
        f.create_entry(),
        OpEntry::Submission(Sqe::Statx {
            dirfd: 3,
            path: Region::EmptyPath,
            flags: 0x1000,
            statxbuf: Region::Stat
        })
    );
    let follow = PathStat::new(path("p"), true);
    assert_eq!(
        follow.create_entry(),
        OpEntry::Submission(Sqe::Statx {
            dirfd: -100,
            path: Region::Path,
            flags: 0x1000,
            statxbuf: Region::Stat
        })
    );
    let nofollow = PathStat::new(path("p"), false);
    assert_eq!(
        nofollow.create_entry(),
        OpEntry::Submission(Sqe::Statx {
            dirfd: -100,
            path: Region::Path,
            flags: 0x1100,
            statxbuf: Region::Stat
        })
    );
    assert_eq!(nofollow.into_inner().size, 0);
}

#[test]
fn plain_read_and_write() {
    let r = ReadAt::new(4, 4096, vec![0u8; 100]);
    assert_eq!(
        r.create_entry(),
        OpEntry::Submission(Sqe::Read {
            fd: 4,
            buf: Region::Buffer,
            len: 100,
            offset: 4096,
            buf_group: None
        })
    );
    let w = WriteAt::new(4, 8, b"hello".to_vec());
    assert_eq!(
        w.create_entry(),
        OpEntry::Submission(Sqe::Write { fd: 4, buf: Region::Buffer, len: 5, offset: 8 })
    );
    assert_eq!(w.into_inner(), b"hello".to_vec());
    let rv = Recv::new(9, vec![0u8; 3]);
    assert_eq!(
        rv.create_entry(),
        OpEntry::Submission(Sqe::Read {
            fd: 9,
            buf: Region::Buffer,
            len: 3,
            offset: 0,
            buf_group: None
        })
    );
    let s = Send::new(9, vec![1u8; 2]);
    assert_eq!(
        s.create_entry(),
        OpEntry::Submission(Sqe::Write { fd: 9, buf: Region::Buffer, len: 2, offset: 0 })
    );
}

fn expected_slices(segs: &[Vec<u8>]) -> Vec<IoVec> {
    segs.iter().enumerate().map(|(i, s)| IoVec { seg: i, len: s.len() }).collect()
}

#[test]
fn vectored_slices_match_segments() {
    let segs = vec![vec![0u8; 3], vec![], vec![0u8; 17]];
    let mut r = ReadVectoredAt::new(2, 10, segs.clone());
    assert_eq!(
        r.create_entry(),
        OpEntry::Submission(Sqe::Readv { fd: 2, iovecs: Region::Slices, count: 3, offset: 10 })
    );
    assert_eq!(r.slices, expected_slices(&segs));
    let mut w = WriteVectoredAt::new(2, 0, segs.clone());
    assert_eq!(
        w.create_entry(),
        OpEntry::Submission(Sqe::Writev { fd: 2, iovecs: Region::Slices, count: 3, offset: 0 })
    );
    assert_eq!(w.slices, expected_slices(&segs));
    let mut rv = compio_ops::RecvVectored::new(6, segs.clone());
    rv.create_entry();
    assert_eq!(rv.slices, expected_slices(&segs));
    let mut sv = SendVectored::new(6, segs.clone());
    assert_eq!(
        sv.create_entry(),
        OpEntry::Submission(Sqe::Writev { fd: 6, iovecs: Region::Slices, count: 3, offset: 0 })
    );
    assert_eq!(sv.slices, expected_slices(&segs));
    assert_eq!(sv.into_inner(), segs);
}

#[test]
fn vectored_with_no_segments() {
    let mut r = ReadVectoredAt::new(2, 0, vec![]);
    assert_eq!(
        r.create_entry(),
        OpEntry::Submission(Sqe::Readv { fd: 2, iovecs: Region::Slices, count: 0, offset: 0 })
    );
    assert!(r.slices.is_empty());
}

#[test]
fn sync_flags() {
    assert_eq!(
        Sync::new(1, true).create_entry(),
        OpEntry::Submission(Sqe::Fsync { fd: 1, flags: 1 })
    );
    assert_eq!(
        Sync::new(1, false).create_entry(),
        OpEntry::Submission(Sqe::Fsync { fd: 1, flags: 0 })
    );
}

#[test]
fn socket_ops() {
    assert_eq!(
        CreateSocket::new(2, 1, 6).create_entry(),
        OpEntry::Submission(Sqe::Socket { domain: 2, socket_type: 0x80001, protocol: 6 })
    );
    assert_eq!(
        ShutdownSocket::new(3, How::Read).create_entry(),
        OpEntry::Submission(Sqe::Shutdown { fd: 3, how: 0 })
    );
    assert_eq!(ShutdownSocket::new(3, How::Write).how(), 1);
    assert_eq!(ShutdownSocket::new(3, How::Both).how(), 2);
    assert_eq!(
        PollOnce::new(8, Interest::Readable).create_entry(),
        OpEntry::Submission(Sqe::PollAdd { fd: 8, flags: 1 })
    );
    assert_eq!(
        PollOnce::new(8, Interest::Writable).create_entry(),
        OpEntry::Submission(Sqe::PollAdd { fd: 8, flags: 4 })
    );
    assert_eq!(
        Connect::new(8, addr(16)).create_entry(),
        OpEntry::Submission(Sqe::Connect { fd: 8, addr: Region::Addr, addrlen: 16 })
    );
}

#[test]
fn socket_addr_too_long_is_rejected() {
    assert!(matches!(SocketAddr::new(vec![0u8; 129]), Err(Error::InvalidInput)));
    assert_eq!(SocketAddr::new(vec![0u8; 128]).unwrap().len(), 128);
}

#[test]
fn accept_captures_new_handle() {
    let mut op = Accept::new(5);
    assert_eq!(op.buffer.len(), ADDR_STORAGE_LEN);
    assert_eq!(op.addr_len as usize, ADDR_STORAGE_LEN);
    assert_eq!(
        op.create_entry(),
        OpEntry::Submission(Sqe::Accept {
            fd: 5,
            addr: Region::Addr,
            addrlen: Region::AddrLen,
            flags: 0x80000
        })
    );
    op.set_result(11);
    assert_eq!(op.accepted_fd, Some(11));
    assert_ne!(op.accepted_fd, Some(op.fd));
    assert!(op.buffer.iter().all(|b| *b == 0));
}

#[test]
fn recv_from_zero_length_payload_still_wires_address() {
    let mut op = RecvFrom::new(4, Vec::new());
    let e = op.create_entry();
    let msg = MsgHeader {
        name: Region::Addr,
        name_len: ADDR_STORAGE_LEN as u32,
        iov: Region::Slices,
        iov_len: 1,
        control: Region::Nothing,
        control_len: 0,
    };
    assert_eq!(e, OpEntry::Submission(Sqe::RecvMsg { fd: 4, msg }));
    assert_eq!(op.slice, vec![IoVec { seg: 0, len: 0 }]);
    // the kernel reports an IPv4 sender: a 16-byte `sockaddr_in`
    op.set_name_len(16);
    let (buf, addr, len) = op.into_inner();
    assert!(buf.is_empty());
    assert_eq!(addr.len(), ADDR_STORAGE_LEN);
    assert_eq!(len, Some(16));
}

#[test]
fn recv_from_without_completion_reports_no_length() {
    let mut op = RecvFrom::new(4, vec![0u8; 2]);
    op.create_entry();
    let (_, _, len) = op.into_inner();
    assert_eq!(len, None);
}

#[test]
fn recv_from_reports_ipv6_length() {
    let mut op = RecvFromVectored::new(4, vec![vec![0u8; 4]]);
    op.create_entry();
    op.set_name_len(28);
    let (_, _, len) = op.into_inner();
    assert_eq!(len, Some(28));
}

#[test]
fn recv_msg_reports_lengths() {
    let mut op = RecvMsg::new(2, vec![vec![0u8; 8]], vec![0u8; 64]);
    op.create_entry();
    op.set_msg_lens(16, 24);
    let (_, control, addr, lens) = op.into_inner();
    assert_eq!(control.len(), 64);
    assert_eq!(addr.len(), ADDR_STORAGE_LEN);
    assert_eq!(lens, Some((16, 24)));
}

fn put(b: &mut [u8], off: usize, bytes: &[u8]) {
    b[off..off + bytes.len()].copy_from_slice(bytes);
}

fn sample_statx() -> Vec<u8> {
    let mut b = vec![0u8; STATX_LEN];
    put(&mut b, 4, &4096u32.to_le_bytes());
    put(&mut b, 16, &3u32.to_le_bytes());
    put(&mut b, 20, &1000u32.to_le_bytes());
    put(&mut b, 24, &100u32.to_le_bytes());
    put(&mut b, 28, &0o100644u16.to_le_bytes());
    put(&mut b, 32, &0x1122334455667788u64.to_le_bytes());
    put(&mut b, 40, &123456789u64.to_le_bytes());
    put(&mut b, 48, &248u64.to_le_bytes());
    put(&mut b, 64, &1700000000i64.to_le_bytes());
    put(&mut b, 72, &5u32.to_le_bytes());
    put(&mut b, 96, &(-2i64).to_le_bytes());
    put(&mut b, 104, &7u32.to_le_bytes());
    put(&mut b, 112, &1700000100i64.to_le_bytes());
    put(&mut b, 120, &999_999_999u32.to_le_bytes());
    put(&mut b, 128, &8u32.to_le_bytes());
    put(&mut b, 132, &1u32.to_le_bytes());
    put(&mut b, 136, &259u32.to_le_bytes());
    put(&mut b, 140, &65536u32.to_le_bytes());
    b
}

#[test]
fn stat_converts_statx_record() {
    let mut op = FileStat::new(3);
    op.stat = sample_statx();
    let st = op.into_inner();
    assert_eq!(st.blksize, 4096);
    assert_eq!(st.nlink, 3);
    assert_eq!(st.uid, 1000);
    assert_eq!(st.gid, 100);
    assert_eq!(st.mode, 0o100644);
    assert_eq!(st.ino, 0x1122334455667788);
    assert_eq!(st.size, 123456789);
    assert_eq!(st.blocks, 248);
    assert_eq!((st.atime_sec, st.atime_nsec), (1700000000, 5));
    assert_eq!((st.ctime_sec, st.ctime_nsec), (-2, 7));
    assert_eq!((st.mtime_sec, st.mtime_nsec), (1700000100, 999_999_999));
    assert_eq!((st.rdev_major, st.rdev_minor), (8, 1));
    assert_eq!((st.dev_major, st.dev_minor), (259, 65536));
}

#[test]
fn path_stat_converts_and_zeroed_record_is_all_zero() {
    let mut op = PathStat::new(path("p"), true);
    op.stat = sample_statx();
    assert_eq!(op.into_inner().size, 123456789);
    let st = FileStat::new(1).into_inner();
    assert_eq!(st.ino, 0);
    assert_eq!(st.mode, 0);
    assert_eq!(st.mtime_sec, 0);
}

#[test]
fn recv_from_vectored_header() {
    let mut op = RecvFromVectored::new(4, vec![vec![0u8; 2], vec![0u8; 5]]);
    match op.create_entry() {
        OpEntry::Submission(Sqe::RecvMsg { fd, msg }) => {
            assert_eq!(fd, 4);
            assert_eq!(msg.iov_len, 2);
            assert_eq!(msg.name_len, 128);
        }
        other => panic!("unexpected entry {:?}", other),
    }
    assert_eq!(op.slice, vec![IoVec { seg: 0, len: 2 }, IoVec { seg: 1, len: 5 }]);
}

#[test]
fn send_to_header_uses_address_length() {
    let mut op = SendTo::new(3, b"ping".to_vec(), addr(16));
    match op.create_entry() {
        OpEntry::Submission(Sqe::SendMsg { fd, msg }) => {
            assert_eq!(fd, 3);
            assert_eq!(msg.name, Region::Addr);
            assert_eq!(msg.name_len, 16);
            assert_eq!(msg.iov_len, 1);
        }
        other => panic!("unexpected entry {:?}", other),
    }
    assert_eq!(op.slice, vec![IoVec { seg: 0, len: 4 }]);
    assert_eq!(op.into_inner(), b"ping".to_vec());
    let mut v = SendToVectored::new(3, vec![vec![1u8; 1], vec![2u8; 2], vec![3u8; 3]], addr(28));
    match v.create_entry() {
        OpEntry::Submission(Sqe::SendMsg { msg, .. }) => {
            assert_eq!(msg.name_len, 28);
            assert_eq!(msg.iov_len, 3);
        }
        other => panic!("unexpected entry {:?}", other),
    }
}

#[test]
fn message_with_control_data() {
    let mut r = RecvMsg::new(2, vec![vec![0u8; 8]], vec![0u8; 24]);
    match r.create_entry() {
        OpEntry::Submission(Sqe::RecvMsg { msg, .. }) => {
            assert_eq!(msg.control, Region::Control);
            assert_eq!(msg.control_len, 24);
            assert_eq!(msg.name_len, 128);
            assert_eq!(msg.iov_len, 1);
        }
        other => panic!("unexpected entry {:?}", other),
    }
    let mut s = SendMsg::new(2, vec![vec![0u8; 8], vec![0u8; 1]], vec![0u8; 16], addr(16));
    match s.create_entry() {
        OpEntry::Submission(Sqe::SendMsg { msg, .. }) => {
            assert_eq!(msg.control_len, 16);
            assert_eq!(msg.name_len, 16);
            assert_eq!(msg.iov_len, 2);
        }
        other => panic!("unexpected entry {:?}", other),
    }
    assert_eq!(s.slices, vec![IoVec { seg: 0, len: 8 }, IoVec { seg: 1, len: 1 }]);
}
