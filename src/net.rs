//! Descriptors of socket operations and readiness polling.

use vstd::prelude::*;

use crate::bytes::{SocketAddr, ADDR_STORAGE_LEN};
use crate::entry::{io_slices, iovecs_of, IoVec, OpEntry, Region, Sqe};
use crate::sys::{addr_storage_len, pollin, pollout, shut_rd, shut_rdwr, shut_wr, sock_cloexec};

verus! {

/// Create a socket.
pub struct CreateSocket {
    pub domain: i32,
    pub socket_type: i32,
    pub protocol: i32,
}

impl CreateSocket {
    pub fn new(domain: i32, socket_type: i32, protocol: i32) -> (r: Self)
        ensures
            r.domain == domain,
            r.socket_type == socket_type,
            r.protocol == protocol,
    {
        CreateSocket { domain, socket_type, protocol }
    }

    /// `socket` with close-on-exec added to the type.
    pub fn create_entry(&self) -> (e: OpEntry)
        ensures
            e == OpEntry::Submission(
                Sqe::Socket { domain: self.domain, socket_type: self.socket_type | 0x80000i32, protocol: self.protocol },
            ),
    {
        OpEntry::Submission(
            Sqe::Socket { domain: self.domain, socket_type: self.socket_type | sock_cloexec(), protocol: self.protocol },
        )
    }
}

/// Which halves of a connection to shut down.
#[derive(Debug, Clone, Copy, PartialEq, Eq, Structural)]
pub enum How {
    Read,
    Write,
    Both,
}

/// The kernel's code for `how` (`SHUT_RD`, `SHUT_WR`, `SHUT_RDWR`).
pub open spec fn how_code(how: How) -> i32 {
    match how {
        How::Read => 0,
        How::Write => 1,
        How::Both => 2,
    }
}

/// Shut down a socket.
pub struct ShutdownSocket {
    pub fd: i32,
    pub how: How,
}

impl ShutdownSocket {
    pub fn new(fd: i32, how: How) -> (r: Self)
        ensures
            r.fd == fd,
            r.how == how,
    {
        ShutdownSocket { fd, how }
    }

    pub fn how(&self) -> (r: i32)
        ensures
            r == how_code(self.how),
    {
        match self.how {
            How::Read => shut_rd(),
            How::Write => shut_wr(),
            How::Both => shut_rdwr(),
        }
    }

    pub fn create_entry(&self) -> (e: OpEntry)
        ensures
            e == OpEntry::Submission(Sqe::Shutdown { fd: self.fd, how: how_code(self.how) }),
    {
        OpEntry::Submission(Sqe::Shutdown { fd: self.fd, how: self.how() })
    }
}

/// Close a socket.
pub struct CloseSocket {
    pub fd: i32,
}

impl CloseSocket {
    pub fn new(fd: i32) -> (r: Self)
        ensures
            r.fd == fd,
    {
        CloseSocket { fd }
    }

    pub fn create_entry(&self) -> (e: OpEntry)
        ensures
            e == OpEntry::Submission(Sqe::Close { fd: self.fd }),
    {
        OpEntry::Submission(Sqe::Close { fd: self.fd })
    }
}

/// Accept a connection.
pub struct Accept {
    pub fd: i32,
    /// Room for the peer's address, which the kernel writes.
    pub buffer: Vec<u8>,
    /// The room offered, then the length the kernel wrote.
    pub addr_len: u32,
    /// The new connection's handle, once the completion is in.
    pub accepted_fd: Option<i32>,
}

impl Accept {
    /// Create [`Accept`] with zeroed address storage.
    pub fn new(fd: i32) -> (r: Self)
        ensures
            r.fd == fd,
            r.buffer@ == Seq::new(ADDR_STORAGE_LEN as nat, |_i: int| 0u8),
            r.addr_len == ADDR_STORAGE_LEN,
            r.accepted_fd is None,
    {
        let n = addr_storage_len();
        let buffer = vec![0u8; n];
        assert(buffer@ =~= Seq::new(ADDR_STORAGE_LEN as nat, |_i: int| 0u8));
        Accept { fd, buffer, addr_len: n as u32, accepted_fd: None }
    }

    /// `accept4` with close-on-exec, handing the kernel the address storage
    /// and its length field.
    pub fn create_entry(&self) -> (e: OpEntry)
        ensures
            e == OpEntry::Submission(
                Sqe::Accept { fd: self.fd, addr: Region::Addr, addrlen: Region::AddrLen, flags: 0x80000i32 },
            ),
    {
        OpEntry::Submission(
            Sqe::Accept { fd: self.fd, addr: Region::Addr, addrlen: Region::AddrLen, flags: sock_cloexec() },
        )
    }

    /// Takes the completion's result, the new connection's handle, into
    /// ownership. Nothing else changes: the address bytes are left as the
    /// kernel wrote them.
    pub fn set_result(&mut self, fd: usize)
        requires
            fd <= i32::MAX,
        ensures
            accept_completed(*old(self), *final(self), fd),
    {
        self.accepted_fd = Some(fd as i32);
    }
}

/// One run of `set_result` on an accept, from `pre` to `post`, with the
/// completion's result `res`: the handle is captured and nothing else moves.
pub open spec fn accept_completed(pre: Accept, post: Accept, res: usize) -> bool {
    &&& post.accepted_fd == Some(res as i32)
    &&& post.fd == pre.fd
    &&& post.buffer@ == pre.buffer@
    &&& post.addr_len == pre.addr_len
}

/// Connect to a remote address.
pub struct Connect {
    pub fd: i32,
    pub addr: SocketAddr,
}

impl Connect {
    pub fn new(fd: i32, addr: SocketAddr) -> (r: Self)
        ensures
            r.fd == fd,
            r.addr@ == addr@,
    {
        Connect { fd, addr }
    }

    pub fn create_entry(&self) -> (e: OpEntry)
        ensures
            e == OpEntry::Submission(Sqe::Connect { fd: self.fd, addr: Region::Addr, addrlen: self.addr@.len() as u32 }),
    {
        OpEntry::Submission(Sqe::Connect { fd: self.fd, addr: Region::Addr, addrlen: self.addr.len() })
    }
}

/// Receive data from remote.
pub struct Recv {
    pub fd: i32,
    pub buffer: Vec<u8>,
}

impl Recv {
    pub fn new(fd: i32, buffer: Vec<u8>) -> (r: Self)
        ensures
            r.fd == fd,
            r.buffer@ == buffer@,
    {
        Recv { fd, buffer }
    }

    /// A read of the whole buffer, in place, with no offset.
    pub fn create_entry(&self) -> (e: OpEntry)
        requires
            self.buffer@.len() <= u32::MAX,
        ensures
            e == OpEntry::Submission(
                Sqe::Read { fd: self.fd, buf: Region::Buffer, len: self.buffer@.len() as u32, offset: 0, buf_group: None },
            ),
    {
        OpEntry::Submission(
            Sqe::Read { fd: self.fd, buf: Region::Buffer, len: self.buffer.len() as u32, offset: 0, buf_group: None },
        )
    }

    pub fn into_inner(self) -> (r: Vec<u8>)
        ensures
            r@ == self.buffer@,
    {
        self.buffer
    }
}

/// Receive data from remote into vectored buffer.
pub struct RecvVectored {
    pub fd: i32,
    pub buffer: Vec<Vec<u8>>,
    /// The scatter/gather array the kernel reads; built by `create_entry`.
    pub slices: Vec<IoVec>,
}

impl RecvVectored {
    pub fn new(fd: i32, buffer: Vec<Vec<u8>>) -> (r: Self)
        ensures
            r.fd == fd,
            r.buffer@ == buffer@,
            r.slices@.len() == 0,
    {
        RecvVectored { fd, buffer, slices: Vec::new() }
    }

    /// Builds the scatter/gather array over every segment and a `readv` of it.
    pub fn create_entry(&mut self) -> (e: OpEntry)
        requires
            old(self).buffer@.len() <= u32::MAX,
        ensures
            final(self).fd == old(self).fd,
            final(self).buffer@ == old(self).buffer@,
            iovecs_of(final(self).slices@, final(self).buffer@),
            e == OpEntry::Submission(
                Sqe::Readv { fd: old(self).fd, iovecs: Region::Slices, count: old(self).buffer@.len() as u32, offset: 0 },
            ),
    {
        self.slices = io_slices(&self.buffer);
        OpEntry::Submission(
            Sqe::Readv { fd: self.fd, iovecs: Region::Slices, count: self.slices.len() as u32, offset: 0 },
        )
    }

    pub fn into_inner(self) -> (r: Vec<Vec<u8>>)
        ensures
            r@ == self.buffer@,
    {
        self.buffer
    }
}

/// Send data to remote.
pub struct Send {
    pub fd: i32,
    pub buffer: Vec<u8>,
}

impl Send {
    pub fn new(fd: i32, buffer: Vec<u8>) -> (r: Self)
        ensures
            r.fd == fd,
            r.buffer@ == buffer@,
    {
        Send { fd, buffer }
    }

    /// A write of the whole buffer, in place, with no offset.
    pub fn create_entry(&self) -> (e: OpEntry)
        requires
            self.buffer@.len() <= u32::MAX,
        ensures
            e == OpEntry::Submission(
                Sqe::Write { fd: self.fd, buf: Region::Buffer, len: self.buffer@.len() as u32, offset: 0 },
            ),
    {
        OpEntry::Submission(
            Sqe::Write { fd: self.fd, buf: Region::Buffer, len: self.buffer.len() as u32, offset: 0 },
        )
    }

    pub fn into_inner(self) -> (r: Vec<u8>)
        ensures
            r@ == self.buffer@,
    {
        self.buffer
    }
}

/// Send data to remote from vectored buffer.
pub struct SendVectored {
    pub fd: i32,
    pub buffer: Vec<Vec<u8>>,
    /// The scatter/gather array the kernel reads; built by `create_entry`.
    pub slices: Vec<IoVec>,
}

impl SendVectored {
    pub fn new(fd: i32, buffer: Vec<Vec<u8>>) -> (r: Self)
        ensures
            r.fd == fd,
            r.buffer@ == buffer@,
            r.slices@.len() == 0,
    {
        SendVectored { fd, buffer, slices: Vec::new() }
    }

    /// Builds the scatter/gather array over every segment and a `writev` of it.
    pub fn create_entry(&mut self) -> (e: OpEntry)
        requires
            old(self).buffer@.len() <= u32::MAX,
        ensures
            final(self).fd == old(self).fd,
            final(self).buffer@ == old(self).buffer@,
            iovecs_of(final(self).slices@, final(self).buffer@),
            e == OpEntry::Submission(
                Sqe::Writev { fd: old(self).fd, iovecs: Region::Slices, count: old(self).buffer@.len() as u32, offset: 0 },
            ),
    {
        self.slices = io_slices(&self.buffer);
        OpEntry::Submission(
            Sqe::Writev { fd: self.fd, iovecs: Region::Slices, count: self.slices.len() as u32, offset: 0 },
        )
    }

    pub fn into_inner(self) -> (r: Vec<Vec<u8>>)
        ensures
            r@ == self.buffer@,
    {
        self.buffer
    }
}

/// The readiness a [`PollOnce`] waits for.
#[derive(Debug, Clone, Copy, PartialEq, Eq, Structural)]
pub enum Interest {
    Readable,
    Writable,
}

/// Wait once for a handle to become ready.
pub struct PollOnce {
    pub fd: i32,
    pub interest: Interest,
}

impl PollOnce {
    pub fn new(fd: i32, interest: Interest) -> (r: Self)
        ensures
            r.fd == fd,
            r.interest == interest,
    {
        PollOnce { fd, interest }
    }

    /// A one-shot `poll` for `POLLIN` or `POLLOUT`.
    pub fn create_entry(&self) -> (e: OpEntry)
        ensures
            e == OpEntry::Submission(
                Sqe::PollAdd {
                    fd: self.fd,
                    flags: match self.interest {
                        Interest::Readable => 1u32,
                        Interest::Writable => 4u32,
                    },
                },
            ),
    {
        let flags = match self.interest {
            Interest::Readable => pollin(),
            Interest::Writable => pollout(),
        };
        OpEntry::Submission(Sqe::PollAdd { fd: self.fd, flags: flags as u32 })
    }
}

} // verus!
