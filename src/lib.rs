//! Construction of io_uring submission records for file, socket and
//! blocking operations, and the protocol for kernel-selected pool buffers.
//!
//! Every operation descriptor owns what the kernel reads or writes while the
//! operation is in flight. Its `create_entry` produces a plain-value [`Sqe`]
//! whose memory operands name a [`Region`] of the descriptor itself; the
//! driver that pins the descriptor turns those regions into addresses.

pub mod sys;
pub mod entry;
pub mod bytes;
pub mod stat;
pub mod file;
pub mod net;
pub mod msg;
pub mod asyncify;
pub mod managed;
pub mod laws;

pub use entry::{Error, IoVec, MsgHeader, OpEntry, Region, Sqe};
pub use stat::Stat;
pub use bytes::{CPath, SocketAddr, ADDR_STORAGE_LEN, STATX_LEN};
pub use file::{
    CloseFile, CreateDir, FileStat, HardLink, OpenFile, PathStat, ReadAt, ReadVectoredAt, Rename,
    Symlink, Sync, Unlink, WriteAt, WriteVectoredAt,
};
pub use net::{
    Accept, CloseSocket, Connect, CreateSocket, How, Interest, PollOnce, Recv, RecvVectored, Send,
    SendVectored, ShutdownSocket,
};
pub use msg::{
    RecvFrom, RecvFromHeader, RecvFromVectored, RecvMsg, SendMsg, SendTo, SendToHeader,
    SendToVectored,
};
pub use asyncify::Asyncify;
pub use managed::{
    BorrowedBuffer, BufferPool, ReadManagedAt, ReadManagedAtFallback, RecvManaged, RecvManagedFallback,
    SlotState,
};
