//! Kernel ABI constants and completion-flag decoding, taken from `libc` and
//! `io_uring`. The values stated are those of Linux on the targets the driver
//! supports (x86-64, AArch64, RISC-V, LoongArch, PowerPC64).

use vstd::prelude::*;

verus! {

/// Relies on `libc::AT_FDCWD`: the directory handle meaning "current directory".
#[verifier::external_body]
pub(crate) fn at_fdcwd() -> (r: i32)
    ensures
        r == -100,
{
    libc::AT_FDCWD
}

/// Relies on `libc::AT_EMPTY_PATH`: operate on the handle itself when the path is empty.
#[verifier::external_body]
pub(crate) fn at_empty_path() -> (r: i32)
    ensures
        r == 0x1000,
{
    libc::AT_EMPTY_PATH
}

/// Relies on `libc::AT_SYMLINK_NOFOLLOW`: do not follow a final symbolic link.
#[verifier::external_body]
pub(crate) fn at_symlink_nofollow() -> (r: i32)
    ensures
        r == 0x100,
{
    libc::AT_SYMLINK_NOFOLLOW
}

/// Relies on `libc::AT_REMOVEDIR`: `unlinkat` removes a directory.
#[verifier::external_body]
pub(crate) fn at_removedir() -> (r: i32)
    ensures
        r == 0x200,
{
    libc::AT_REMOVEDIR
}

/// Relies on `libc::O_CLOEXEC`: close-on-exec for `openat`.
#[verifier::external_body]
pub(crate) fn o_cloexec() -> (r: i32)
    ensures
        r == 0x80000,
{
    libc::O_CLOEXEC
}

/// Relies on `libc::SOCK_CLOEXEC`: close-on-exec for `socket` and `accept4`.
#[verifier::external_body]
pub(crate) fn sock_cloexec() -> (r: i32)
    ensures
        r == 0x80000,
{
    libc::SOCK_CLOEXEC
}

/// Relies on `libc::POLLIN`: readiness for reading.
#[verifier::external_body]
pub(crate) fn pollin() -> (r: i16)
    ensures
        r == 0x1,
{
    libc::POLLIN
}

/// Relies on `libc::POLLOUT`: readiness for writing.
#[verifier::external_body]
pub(crate) fn pollout() -> (r: i16)
    ensures
        r == 0x4,
{
    libc::POLLOUT
}

/// Relies on `libc::SHUT_RD`: shut down the receiving half.
#[verifier::external_body]
pub(crate) fn shut_rd() -> (r: i32)
    ensures
        r == 0,
{
    libc::SHUT_RD
}

/// Relies on `libc::SHUT_WR`: shut down the sending half.
#[verifier::external_body]
pub(crate) fn shut_wr() -> (r: i32)
    ensures
        r == 1,
{
    libc::SHUT_WR
}

/// Relies on `libc::SHUT_RDWR`: shut down both halves.
#[verifier::external_body]
pub(crate) fn shut_rdwr() -> (r: i32)
    ensures
        r == 2,
{
    libc::SHUT_RDWR
}

/// Relies on `io_uring::types::FsyncFlags::DATASYNC`: the `fsync` flag for
/// `fdatasync` behaviour (`IORING_FSYNC_DATASYNC`).
#[verifier::external_body]
pub(crate) fn fsync_datasync() -> (r: u32)
    ensures
        r == 1,
{
    io_uring::types::FsyncFlags::DATASYNC.bits()
}

/// The slot index a completion's flags word reports, if it reports one:
/// bit 0 (`IORING_CQE_F_BUFFER`) says a buffer was selected, and its index
/// stands in the upper 16 bits (`IORING_CQE_BUFFER_SHIFT`).
pub open spec fn selected_slot(flags: u32) -> Option<u16> {
    if flags & 1 != 0 {
        Some((flags >> 16u32) as u16)
    } else {
        None
    }
}

/// Relies on `io_uring::cqueue::buffer_select`: decodes the selected buffer
/// index out of a completion's flags word.
#[verifier::external_body]
pub(crate) fn buffer_select(flags: u32) -> (r: Option<u16>)
    ensures
        r == selected_slot(flags),
{
    io_uring::cqueue::buffer_select(flags)
}

/// Relies on the layout of `libc::sockaddr_storage`, measured by
/// `std::mem::size_of`: room for any socket address the kernel reports.
#[verifier::external_body]
pub(crate) fn addr_storage_len() -> (r: usize)
    ensures
        r == 128,
{
    std::mem::size_of::<libc::sockaddr_storage>()
}

} // verus!
