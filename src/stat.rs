//! The caller-facing status record, read out of the kernel's extended
//! status record (`struct statx`).
//!
//! The record is in the machine's byte order; the fields are read as
//! little-endian, the order of every target the driver supports (x86-64,
//! AArch64, RISC-V, LoongArch and little-endian PowerPC64).

use vstd::prelude::*;

use crate::bytes::STATX_LEN;

verus! {

/// The little-endian 16-bit value at byte `o` of `s`.
pub open spec fn le_u16(s: Seq<u8>, o: int) -> int {
    s[o] as int + 256 * s[o + 1] as int
}

/// The little-endian 32-bit value at byte `o` of `s`.
pub open spec fn le_u32(s: Seq<u8>, o: int) -> int {
    le_u16(s, o) + 65536 * le_u16(s, o + 2)
}

/// The little-endian 64-bit value at byte `o` of `s`.
pub open spec fn le_u64(s: Seq<u8>, o: int) -> int {
    le_u32(s, o) + 4294967296 * le_u32(s, o + 4)
}

/// File status: the fields of `struct stat`, with the device numbers kept
/// as their major and minor parts.
#[derive(Debug, Clone, Copy, PartialEq, Eq, Structural)]
pub struct Stat {
    pub dev_major: u32,
    pub dev_minor: u32,
    pub ino: u64,
    pub nlink: u32,
    pub mode: u16,
    pub uid: u32,
    pub gid: u32,
    pub rdev_major: u32,
    pub rdev_minor: u32,
    pub size: u64,
    pub blksize: u32,
    pub blocks: u64,
    pub atime_sec: i64,
    pub atime_nsec: u32,
    pub mtime_sec: i64,
    pub mtime_nsec: u32,
    pub ctime_sec: i64,
    pub ctime_nsec: u32,
}

/// The status record held in the extended status record `s`: each field
/// read from its offset in `struct statx`.
pub open spec fn stat_of_statx(s: Seq<u8>) -> Stat {
    Stat {
        dev_major: le_u32(s, 136) as u32,
        dev_minor: le_u32(s, 140) as u32,
        ino: le_u64(s, 32) as u64,
        nlink: le_u32(s, 16) as u32,
        mode: le_u16(s, 28) as u16,
        uid: le_u32(s, 20) as u32,
        gid: le_u32(s, 24) as u32,
        rdev_major: le_u32(s, 128) as u32,
        rdev_minor: le_u32(s, 132) as u32,
        size: le_u64(s, 40) as u64,
        blksize: le_u32(s, 4) as u32,
        blocks: le_u64(s, 48) as u64,
        atime_sec: (le_u64(s, 64) as u64) as i64,
        atime_nsec: le_u32(s, 72) as u32,
        mtime_sec: (le_u64(s, 112) as u64) as i64,
        mtime_nsec: le_u32(s, 120) as u32,
        ctime_sec: (le_u64(s, 96) as u64) as i64,
        ctime_nsec: le_u32(s, 104) as u32,
    }
}

fn read_u16(b: &Vec<u8>, o: usize) -> (r: u16)
    requires
        o + 2 <= b@.len(),
    ensures
        r as int == le_u16(b@, o as int),
{
    let n = b.len();
    assert(o + 1 < n);
    let lo = b[o] as u16;
    let hi = b[o + 1] as u16;
    assert(256 * hi <= 65280) by (nonlinear_arith)
        requires
            hi <= 255,
    ;
    lo + 256 * hi
}

fn read_u32(b: &Vec<u8>, o: usize) -> (r: u32)
    requires
        o + 4 <= b@.len(),
    ensures
        r as int == le_u32(b@, o as int),
{
    let n = b.len();
    assert(o + 2 < n);
    let lo = read_u16(b, o);
    let hi = read_u16(b, o + 2);
    assert(65536 * (hi as int) <= 65536 * 65535) by (nonlinear_arith)
        requires
            hi <= 65535,
    ;
    lo as u32 + 65536 * (hi as u32)
}

fn read_u64(b: &Vec<u8>, o: usize) -> (r: u64)
    requires
        o + 8 <= b@.len(),
    ensures
        r as int == le_u64(b@, o as int),
{
    let n = b.len();
    assert(o + 4 < n);
    let lo = read_u32(b, o);
    let hi = read_u32(b, o + 4);
    assert(4294967296 * (hi as int) <= 4294967296 * 4294967295) by (nonlinear_arith)
        requires
            hi <= 4294967295,
    ;
    lo as u64 + 4294967296 * (hi as u64)
}

impl Stat {
    /// Converts an extended status record.
    pub fn from_statx(s: &Vec<u8>) -> (r: Stat)
        requires
            s@.len() >= STATX_LEN,
        ensures
            r == stat_of_statx(s@),
    {
        Stat {
            dev_major: read_u32(s, 136),
            dev_minor: read_u32(s, 140),
            ino: read_u64(s, 32),
            nlink: read_u32(s, 16),
            mode: read_u16(s, 28),
            uid: read_u32(s, 20),
            gid: read_u32(s, 24),
            rdev_major: read_u32(s, 128),
            rdev_minor: read_u32(s, 132),
            size: read_u64(s, 40),
            blksize: read_u32(s, 4),
            blocks: read_u64(s, 48),
            atime_sec: read_u64(s, 64) as i64,
            atime_nsec: read_u32(s, 72),
            mtime_sec: read_u64(s, 112) as i64,
            mtime_nsec: read_u32(s, 120),
            ctime_sec: read_u64(s, 96) as i64,
            ctime_nsec: read_u32(s, 104),
        }
    }
}

} // verus!
