//! The plain-value form of a submission: what the kernel is asked to do, and
//! which part of the descriptor each memory operand lives in.

use vstd::prelude::*;

verus! {

/// Errors reported by operations of this crate.
#[derive(Debug, Clone, Copy, PartialEq, Eq, Structural)]
pub enum Error {
    /// An argument cannot be expressed in a submission (too long, or
    /// holding a NUL byte where a C string is needed).
    InvalidInput,
    /// A completion reported no usable pool slot.
    InvalidBuffer,
    /// A single-use blocking operation was run a second time.
    AlreadyUsed,
    /// The kernel's error code for a failed operation.
    Os(i32),
}

/// A memory operand of a submission: a field of the descriptor that produced it.
#[derive(Debug, Clone, Copy, PartialEq, Eq, Structural)]
pub enum Region {
    /// No memory (a null pointer).
    Nothing,
    /// The descriptor's single data buffer.
    Buffer,
    /// The descriptor's scatter/gather array.
    Slices,
    /// The descriptor's (first) NUL-terminated path.
    Path,
    /// The descriptor's second NUL-terminated path.
    SecondPath,
    /// A NUL-terminated empty path.
    EmptyPath,
    /// The descriptor's extended status buffer.
    Stat,
    /// The descriptor's socket address bytes.
    Addr,
    /// The descriptor's socket address length field.
    AddrLen,
    /// The descriptor's ancillary (control) data buffer.
    Control,
}

/// One scatter/gather entry: `len` bytes of segment `seg` of the
/// descriptor's vectored buffer.
#[derive(Debug, Clone, Copy, PartialEq, Eq, Structural)]
pub struct IoVec {
    pub seg: usize,
    pub len: usize,
}

/// `slices` is the scatter/gather array of `segs`: one entry per segment,
/// in order, each covering its whole segment.
pub open spec fn iovecs_of(slices: Seq<IoVec>, segs: Seq<Vec<u8>>) -> bool {
    &&& slices.len() == segs.len()
    &&& forall|i: int|
        0 <= i < segs.len() ==> #[trigger] slices[i] == (IoVec { seg: i as usize, len: segs[i]@.len() as usize })
}

/// Builds the scatter/gather array of a vectored buffer.
pub fn io_slices(segs: &Vec<Vec<u8>>) -> (r: Vec<IoVec>)
    ensures
        iovecs_of(r@, segs@),
{
    let mut r: Vec<IoVec> = Vec::new();
    let mut i: usize = 0;
    while i < segs.len()
        invariant
            i <= segs@.len(),
            r@.len() == i,
            forall|j: int|
                0 <= j < i ==> #[trigger] r@[j] == (IoVec { seg: j as usize, len: segs@[j]@.len() as usize }),
        decreases segs@.len() - i,
    {
        r.push(IoVec { seg: i, len: segs[i].len() });
        i = i + 1;
    }
    r
}

/// The message header of `sendmsg` / `recvmsg`: where the address, the
/// scatter/gather array and the control data live, and their lengths.
#[derive(Debug, Clone, Copy, PartialEq, Eq, Structural)]
pub struct MsgHeader {
    pub name: Region,
    pub name_len: u32,
    pub iov: Region,
    pub iov_len: usize,
    pub control: Region,
    pub control_len: usize,
}

impl MsgHeader {
    /// An all-zero header.
    pub open spec fn spec_empty() -> MsgHeader {
        MsgHeader {
            name: Region::Nothing,
            name_len: 0,
            iov: Region::Nothing,
            iov_len: 0,
            control: Region::Nothing,
            control_len: 0,
        }
    }

    pub fn empty() -> (r: MsgHeader)
        ensures
            r == MsgHeader::spec_empty(),
    {
        MsgHeader {
            name: Region::Nothing,
            name_len: 0,
            iov: Region::Nothing,
            iov_len: 0,
            control: Region::Nothing,
            control_len: 0,
        }
    }
}

/// A submission queue entry, one variant per kernel operation.
#[derive(Debug, Clone, Copy, PartialEq, Eq, Structural)]
#[allow(inconsistent_fields)]
pub enum Sqe {
    OpenAt { dirfd: i32, path: Region, flags: i32, mode: u32 },
    Close { fd: i32 },
    Statx { dirfd: i32, path: Region, flags: i32, statxbuf: Region },
    /// A read; with `buf_group` set the kernel selects the buffer from that
    /// pool group (and `buf` is `Nothing`).
    Read { fd: i32, buf: Region, len: u32, offset: u64, buf_group: Option<u16> },
    Readv { fd: i32, iovecs: Region, count: u32, offset: u64 },
    Write { fd: i32, buf: Region, len: u32, offset: u64 },
    Writev { fd: i32, iovecs: Region, count: u32, offset: u64 },
    Fsync { fd: i32, flags: u32 },
    UnlinkAt { dirfd: i32, path: Region, flags: i32 },
    MkDirAt { dirfd: i32, path: Region, mode: u32 },
    RenameAt { olddirfd: i32, oldpath: Region, newdirfd: i32, newpath: Region },
    SymlinkAt { newdirfd: i32, target: Region, linkpath: Region },
    LinkAt { olddirfd: i32, oldpath: Region, newdirfd: i32, newpath: Region },
    Socket { domain: i32, socket_type: i32, protocol: i32 },
    Shutdown { fd: i32, how: i32 },
    Accept { fd: i32, addr: Region, addrlen: Region, flags: i32 },
    Connect { fd: i32, addr: Region, addrlen: u32 },
    RecvMsg { fd: i32, msg: MsgHeader },
    SendMsg { fd: i32, msg: MsgHeader },
    PollAdd { fd: i32, flags: u32 },
}

/// What `create_entry` hands the driver.
#[derive(Debug, Clone, Copy, PartialEq, Eq, Structural)]
pub enum OpEntry {
    /// Submit this entry to the kernel.
    Submission(Sqe),
    /// Run the operation's `call_blocking` on a blocking-capable thread.
    Blocking,
}

} // verus!
