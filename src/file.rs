//! Descriptors of file and path operations.

use vstd::prelude::*;

use crate::bytes::{CPath, STATX_LEN};
use crate::stat::{stat_of_statx, Stat};
use crate::entry::{io_slices, iovecs_of, IoVec, OpEntry, Region, Sqe};
use crate::sys::{at_empty_path, at_fdcwd, at_removedir, at_symlink_nofollow, fsync_datasync, o_cloexec};

verus! {

/// A zeroed extended status buffer.
fn zeroed_statx() -> (r: Vec<u8>)
    ensures
        r@ == Seq::new(STATX_LEN as nat, |_i: int| 0u8),
{
    let r = vec![0u8; STATX_LEN];
    assert(r@ =~= Seq::new(STATX_LEN as nat, |_i: int| 0u8));
    r
}

/// Open a file relative to the current directory.
pub struct OpenFile {
    pub path: CPath,
    pub flags: i32,
    pub mode: u32,
}

impl OpenFile {
    pub fn new(path: CPath, flags: i32, mode: u32) -> (r: Self)
        ensures
            r.path@ == path@,
            r.flags == flags,
            r.mode == mode,
    {
        OpenFile { path, flags, mode }
    }

    /// `openat` on the path, always with close-on-exec added to the flags.
    pub fn create_entry(&self) -> (e: OpEntry)
        ensures
            e == OpEntry::Submission(
                Sqe::OpenAt { dirfd: -100i32, path: Region::Path, flags: self.flags | 0x80000i32, mode: self.mode },
            ),
    {
        OpEntry::Submission(
            Sqe::OpenAt { dirfd: at_fdcwd(), path: Region::Path, flags: self.flags | o_cloexec(), mode: self.mode },
        )
    }
}

/// Close a file.
pub struct CloseFile {
    pub fd: i32,
}

impl CloseFile {
    pub fn new(fd: i32) -> (r: Self)
        ensures
            r.fd == fd,
    {
        CloseFile { fd }
    }

    pub fn create_entry(&self) -> (e: OpEntry)
        ensures
            e == OpEntry::Submission(Sqe::Close { fd: self.fd }),
    {
        OpEntry::Submission(Sqe::Close { fd: self.fd })
    }
}

/// Get metadata of an opened file.
pub struct FileStat {
    pub fd: i32,
    /// The kernel's `struct statx`, filled on completion.
    pub stat: Vec<u8>,
}

impl FileStat {
    /// Create [`FileStat`] with a zeroed status buffer.
    pub fn new(fd: i32) -> (r: Self)
        ensures
            r.fd == fd,
            r.stat@ == Seq::new(STATX_LEN as nat, |_i: int| 0u8),
    {
        FileStat { fd, stat: zeroed_statx() }
    }

    /// `statx` of the handle itself: an empty path with `AT_EMPTY_PATH`.
    pub fn create_entry(&self) -> (e: OpEntry)
        ensures
            e == OpEntry::Submission(
                Sqe::Statx { dirfd: self.fd, path: Region::EmptyPath, flags: 0x1000, statxbuf: Region::Stat },
            ),
    {
        OpEntry::Submission(
            Sqe::Statx { dirfd: self.fd, path: Region::EmptyPath, flags: at_empty_path(), statxbuf: Region::Stat },
        )
    }

    /// The status record, converted from the extended one the kernel wrote.
    pub fn into_inner(self) -> (r: Stat)
        requires
            self.stat@.len() >= STATX_LEN,
        ensures
            r == stat_of_statx(self.stat@),
    {
        Stat::from_statx(&self.stat)
    }
}

/// The `statx` flags for a lookup by path.
pub open spec fn path_stat_flags(follow_symlink: bool) -> i32 {
    if follow_symlink {
        0x1000
    } else {
        0x1000i32 | 0x100i32
    }
}

/// Get metadata from path.
pub struct PathStat {
    pub path: CPath,
    /// The kernel's `struct statx`, filled on completion.
    pub stat: Vec<u8>,
    pub follow_symlink: bool,
}

impl PathStat {
    /// Create [`PathStat`] with a zeroed status buffer.
    pub fn new(path: CPath, follow_symlink: bool) -> (r: Self)
        ensures
            r.path@ == path@,
            r.stat@ == Seq::new(STATX_LEN as nat, |_i: int| 0u8),
            r.follow_symlink == follow_symlink,
    {
        PathStat { path, stat: zeroed_statx(), follow_symlink }
    }

    /// `statx` of the path relative to the current directory; a final
    /// symbolic link is followed only when asked for.
    pub fn create_entry(&self) -> (e: OpEntry)
        ensures
            e == OpEntry::Submission(
                Sqe::Statx {
                    dirfd: -100i32,
                    path: Region::Path,
                    flags: path_stat_flags(self.follow_symlink),
                    statxbuf: Region::Stat,
                },
            ),
    {
        let mut flags = at_empty_path();
        if !self.follow_symlink {
            flags = flags | at_symlink_nofollow();
        }
        OpEntry::Submission(Sqe::Statx { dirfd: at_fdcwd(), path: Region::Path, flags, statxbuf: Region::Stat })
    }

    /// The status record, converted from the extended one the kernel wrote.
    pub fn into_inner(self) -> (r: Stat)
        requires
            self.stat@.len() >= STATX_LEN,
        ensures
            r == stat_of_statx(self.stat@),
    {
        Stat::from_statx(&self.stat)
    }
}

/// Read a file at specified position into specified buffer.
pub struct ReadAt {
    pub fd: i32,
    pub offset: u64,
    pub buffer: Vec<u8>,
}

impl ReadAt {
    pub fn new(fd: i32, offset: u64, buffer: Vec<u8>) -> (r: Self)
        ensures
            r.fd == fd,
            r.offset == offset,
            r.buffer@ == buffer@,
    {
        ReadAt { fd, offset, buffer }
    }

    /// A read of the whole buffer, in place.
    pub fn create_entry(&self) -> (e: OpEntry)
        requires
            self.buffer@.len() <= u32::MAX,
        ensures
            e == OpEntry::Submission(
                Sqe::Read {
                    fd: self.fd,
                    buf: Region::Buffer,
                    len: self.buffer@.len() as u32,
                    offset: self.offset,
                    buf_group: None,
                },
            ),
    {
        OpEntry::Submission(
            Sqe::Read {
                fd: self.fd,
                buf: Region::Buffer,
                len: self.buffer.len() as u32,
                offset: self.offset,
                buf_group: None,
            },
        )
    }

    pub fn into_inner(self) -> (r: Vec<u8>)
        ensures
            r@ == self.buffer@,
    {
        self.buffer
    }
}

/// Read a file at specified position into vectored buffer.
pub struct ReadVectoredAt {
    pub fd: i32,
    pub offset: u64,
    pub buffer: Vec<Vec<u8>>,
    /// The scatter/gather array the kernel reads; built by `create_entry`.
    pub slices: Vec<IoVec>,
}

impl ReadVectoredAt {
    pub fn new(fd: i32, offset: u64, buffer: Vec<Vec<u8>>) -> (r: Self)
        ensures
            r.fd == fd,
            r.offset == offset,
            r.buffer@ == buffer@,
            r.slices@.len() == 0,
    {
        ReadVectoredAt { fd, offset, buffer, slices: Vec::new() }
    }

    /// Builds the scatter/gather array over every segment and a `readv` of it.
    pub fn create_entry(&mut self) -> (e: OpEntry)
        requires
            old(self).buffer@.len() <= u32::MAX,
        ensures
            final(self).fd == old(self).fd,
            final(self).offset == old(self).offset,
            final(self).buffer@ == old(self).buffer@,
            iovecs_of(final(self).slices@, final(self).buffer@),
            e == OpEntry::Submission(
                Sqe::Readv {
                    fd: old(self).fd,
                    iovecs: Region::Slices,
                    count: old(self).buffer@.len() as u32,
                    offset: old(self).offset,
                },
            ),
    {
        self.slices = io_slices(&self.buffer);
        OpEntry::Submission(
            Sqe::Readv {
                fd: self.fd,
                iovecs: Region::Slices,
                count: self.slices.len() as u32,
                offset: self.offset,
            },
        )
    }

    pub fn into_inner(self) -> (r: Vec<Vec<u8>>)
        ensures
            r@ == self.buffer@,
    {
        self.buffer
    }
}

/// Write a file at specified position from specified buffer.
pub struct WriteAt {
    pub fd: i32,
    pub offset: u64,
    pub buffer: Vec<u8>,
}

impl WriteAt {
    pub fn new(fd: i32, offset: u64, buffer: Vec<u8>) -> (r: Self)
        ensures
            r.fd == fd,
            r.offset == offset,
            r.buffer@ == buffer@,
    {
        WriteAt { fd, offset, buffer }
    }

    /// A write of the whole buffer, in place.
    pub fn create_entry(&self) -> (e: OpEntry)
        requires
            self.buffer@.len() <= u32::MAX,
        ensures
            e == OpEntry::Submission(
                Sqe::Write { fd: self.fd, buf: Region::Buffer, len: self.buffer@.len() as u32, offset: self.offset },
            ),
    {
        OpEntry::Submission(
            Sqe::Write { fd: self.fd, buf: Region::Buffer, len: self.buffer.len() as u32, offset: self.offset },
        )
    }

    pub fn into_inner(self) -> (r: Vec<u8>)
        ensures
            r@ == self.buffer@,
    {
        self.buffer
    }
}

/// Write a file at specified position from vectored buffer.
pub struct WriteVectoredAt {
    pub fd: i32,
    pub offset: u64,
    pub buffer: Vec<Vec<u8>>,
    /// The scatter/gather array the kernel reads; built by `create_entry`.
    pub slices: Vec<IoVec>,
}

impl WriteVectoredAt {
    pub fn new(fd: i32, offset: u64, buffer: Vec<Vec<u8>>) -> (r: Self)
        ensures
            r.fd == fd,
            r.offset == offset,
            r.buffer@ == buffer@,
            r.slices@.len() == 0,
    {
        WriteVectoredAt { fd, offset, buffer, slices: Vec::new() }
    }

    /// Builds the scatter/gather array over every segment and a `writev` of it.
    pub fn create_entry(&mut self) -> (e: OpEntry)
        requires
            old(self).buffer@.len() <= u32::MAX,
        ensures
            final(self).fd == old(self).fd,
            final(self).offset == old(self).offset,
            final(self).buffer@ == old(self).buffer@,
            iovecs_of(final(self).slices@, final(self).buffer@),
            e == OpEntry::Submission(
                Sqe::Writev {
                    fd: old(self).fd,
                    iovecs: Region::Slices,
                    count: old(self).buffer@.len() as u32,
                    offset: old(self).offset,
                },
            ),
    {
        self.slices = io_slices(&self.buffer);
        OpEntry::Submission(
            Sqe::Writev {
                fd: self.fd,
                iovecs: Region::Slices,
                count: self.slices.len() as u32,
                offset: self.offset,
            },
        )
    }

    pub fn into_inner(self) -> (r: Vec<Vec<u8>>)
        ensures
            r@ == self.buffer@,
    {
        self.buffer
    }
}

/// Sync data to the disk.
pub struct Sync {
    pub fd: i32,
    /// Only the data, not all metadata (`fdatasync`).
    pub datasync: bool,
}

impl Sync {
    pub fn new(fd: i32, datasync: bool) -> (r: Self)
        ensures
            r.fd == fd,
            r.datasync == datasync,
    {
        Sync { fd, datasync }
    }

    pub fn create_entry(&self) -> (e: OpEntry)
        ensures
            e == OpEntry::Submission(Sqe::Fsync { fd: self.fd, flags: if self.datasync { 1u32 } else { 0u32 } }),
    {
        let flags = if self.datasync {
            fsync_datasync()
        } else {
            0
        };
        OpEntry::Submission(Sqe::Fsync { fd: self.fd, flags })
    }
}

/// Remove a file or a directory.
pub struct Unlink {
    pub path: CPath,
    pub dir: bool,
}

impl Unlink {
    pub fn new(path: CPath, dir: bool) -> (r: Self)
        ensures
            r.path@ == path@,
            r.dir == dir,
    {
        Unlink { path, dir }
    }

    /// `unlinkat` relative to the current directory; `AT_REMOVEDIR` for a directory.
    pub fn create_entry(&self) -> (e: OpEntry)
        ensures
            e == OpEntry::Submission(
                Sqe::UnlinkAt { dirfd: -100i32, path: Region::Path, flags: if self.dir { 0x200i32 } else { 0i32 } },
            ),
    {
        let flags = if self.dir {
            at_removedir()
        } else {
            0
        };
        OpEntry::Submission(Sqe::UnlinkAt { dirfd: at_fdcwd(), path: Region::Path, flags })
    }
}

/// Create a directory.
pub struct CreateDir {
    pub path: CPath,
    pub mode: u32,
}

impl CreateDir {
    pub fn new(path: CPath, mode: u32) -> (r: Self)
        ensures
            r.path@ == path@,
            r.mode == mode,
    {
        CreateDir { path, mode }
    }

    pub fn create_entry(&self) -> (e: OpEntry)
        ensures
            e == OpEntry::Submission(Sqe::MkDirAt { dirfd: -100i32, path: Region::Path, mode: self.mode }),
    {
        OpEntry::Submission(Sqe::MkDirAt { dirfd: at_fdcwd(), path: Region::Path, mode: self.mode })
    }
}

/// Rename a file or a directory.
pub struct Rename {
    pub old_path: CPath,
    pub new_path: CPath,
}

impl Rename {
    pub fn new(old_path: CPath, new_path: CPath) -> (r: Self)
        ensures
            r.old_path@ == old_path@,
            r.new_path@ == new_path@,
    {
        Rename { old_path, new_path }
    }

    /// `renameat` with both paths relative to the current directory; the
    /// old path is the first path region, the new one the second.
    pub fn create_entry(&self) -> (e: OpEntry)
        ensures
            e == OpEntry::Submission(
                Sqe::RenameAt { olddirfd: -100i32, oldpath: Region::Path, newdirfd: -100i32, newpath: Region::SecondPath },
            ),
    {
        OpEntry::Submission(
            Sqe::RenameAt {
                olddirfd: at_fdcwd(),
                oldpath: Region::Path,
                newdirfd: at_fdcwd(),
                newpath: Region::SecondPath,
            },
        )
    }
}

/// Create a symbolic link `target` whose contents are `source`.
pub struct Symlink {
    pub source: CPath,
    pub target: CPath,
}

impl Symlink {
    pub fn new(source: CPath, target: CPath) -> (r: Self)
        ensures
            r.source@ == source@,
            r.target@ == target@,
    {
        Symlink { source, target }
    }

    /// `symlinkat`: the link's contents are the first path region (the
    /// source), the link created is the second (the target).
    pub fn create_entry(&self) -> (e: OpEntry)
        ensures
            e == OpEntry::Submission(
                Sqe::SymlinkAt { newdirfd: -100i32, target: Region::Path, linkpath: Region::SecondPath },
            ),
    {
        OpEntry::Submission(
            Sqe::SymlinkAt { newdirfd: at_fdcwd(), target: Region::Path, linkpath: Region::SecondPath },
        )
    }
}

/// Create a hard link `target` to the file `source`.
pub struct HardLink {
    pub source: CPath,
    pub target: CPath,
}

impl HardLink {
    pub fn new(source: CPath, target: CPath) -> (r: Self)
        ensures
            r.source@ == source@,
            r.target@ == target@,
    {
        HardLink { source, target }
    }

    /// `linkat` with both paths relative to the current directory.
    pub fn create_entry(&self) -> (e: OpEntry)
        ensures
            e == OpEntry::Submission(
                Sqe::LinkAt { olddirfd: -100i32, oldpath: Region::Path, newdirfd: -100i32, newpath: Region::SecondPath },
            ),
    {
        OpEntry::Submission(
            Sqe::LinkAt {
                olddirfd: at_fdcwd(),
                oldpath: Region::Path,
                newdirfd: at_fdcwd(),
                newpath: Region::SecondPath,
            },
        )
    }
}

} // verus!
