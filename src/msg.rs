//! Addressed send and receive: the message-header builders and the
//! descriptors that use them.

use vstd::prelude::*;

use crate::bytes::{SocketAddr, ADDR_STORAGE_LEN};
use crate::entry::{io_slices, iovecs_of, IoVec, MsgHeader, OpEntry, Region, Sqe};
use crate::sys::addr_storage_len;

verus! {

/// A zeroed socket address storage.
fn zeroed_addr() -> (r: Vec<u8>)
    ensures
        r@ == Seq::new(ADDR_STORAGE_LEN as nat, |_i: int| 0u8),
{
    let r = vec![0u8; addr_storage_len()];
    assert(r@ =~= Seq::new(ADDR_STORAGE_LEN as nat, |_i: int| 0u8));
    r
}

/// The header wired to an address of `name_len` bytes and `iov_len`
/// scatter/gather entries, with no control data.
pub open spec fn addressed_header(name_len: u32, iov_len: usize) -> MsgHeader {
    MsgHeader {
        name: Region::Addr,
        name_len,
        iov: Region::Slices,
        iov_len,
        control: Region::Nothing,
        control_len: 0,
    }
}

/// The message header of a receive that also learns the sender's address.
pub struct RecvFromHeader {
    pub fd: i32,
    /// Address storage the kernel fills with the sender's address.
    pub addr: Vec<u8>,
    pub msg: MsgHeader,
    /// Whether the completion's address length has been taken.
    pub reported: bool,
}

impl RecvFromHeader {
    pub fn new(fd: i32) -> (r: Self)
        ensures
            r.fd == fd,
            r.addr@ == Seq::new(ADDR_STORAGE_LEN as nat, |_i: int| 0u8),
            r.msg == MsgHeader::spec_empty(),
            !r.reported,
    {
        RecvFromHeader { fd, addr: zeroed_addr(), msg: MsgHeader::empty(), reported: false }
    }

    /// Points the header at the address storage, offering all of it, and at
    /// the caller's scatter/gather array; `recvmsg` of that header.
    pub fn create_entry(&mut self, slices: &Vec<IoVec>) -> (e: OpEntry)
        requires
            old(self).addr@.len() <= u32::MAX,
        ensures
            final(self).fd == old(self).fd,
            final(self).addr@ == old(self).addr@,
            final(self).msg == addressed_header(old(self).addr@.len() as u32, slices@.len() as usize),
            !final(self).reported,
            e == OpEntry::Submission(Sqe::RecvMsg { fd: old(self).fd, msg: final(self).msg }),
    {
        self.reported = false;
        self.msg.name = Region::Addr;
        self.msg.name_len = self.addr.len() as u32;
        self.msg.iov = Region::Slices;
        self.msg.iov_len = slices.len();
        self.msg.control = Region::Nothing;
        self.msg.control_len = 0;
        OpEntry::Submission(Sqe::RecvMsg { fd: self.fd, msg: self.msg })
    }

    /// Takes the completion's address length, which the kernel wrote into
    /// the header: the length of the sender's address.
    pub fn set_name_len(&mut self, len: u32)
        requires
            len as int <= old(self).addr@.len(),
        ensures
            final(self).fd == old(self).fd,
            final(self).addr@ == old(self).addr@,
            final(self).msg == (MsgHeader { name_len: len, ..old(self).msg }),
            final(self).reported,
    {
        self.msg.name_len = len;
        self.reported = true;
    }

    /// The address storage, and the address length the kernel reported:
    /// `None` until [`Self::set_name_len`] has taken it.
    pub fn into_addr(self) -> (r: (Vec<u8>, Option<u32>))
        ensures
            r.0@ == self.addr@,
            r.1 == if self.reported {
                Some(self.msg.name_len)
            } else {
                None
            },
    {
        let len = if self.reported {
            Some(self.msg.name_len)
        } else {
            None
        };
        (self.addr, len)
    }
}

/// Receive data and source address.
pub struct RecvFrom {
    pub header: RecvFromHeader,
    pub buffer: Vec<u8>,
    /// The one-entry scatter/gather array over `buffer`.
    pub slice: Vec<IoVec>,
}

impl RecvFrom {
    /// Create [`RecvFrom`].
    pub fn new(fd: i32, buffer: Vec<u8>) -> (r: Self)
        ensures
            r.header.fd == fd,
            r.header.addr@ == Seq::new(ADDR_STORAGE_LEN as nat, |_i: int| 0u8),
            r.header.msg == MsgHeader::spec_empty(),
            r.buffer@ == buffer@,
            r.slice@ == seq![IoVec { seg: 0, len: 0 }],
            !r.header.reported,
    {
        RecvFrom { header: RecvFromHeader::new(fd), buffer, slice: vec![IoVec { seg: 0, len: 0 }] }
    }

    /// Covers the buffer with a one-entry array and wires the header to it.
    pub fn create_entry(&mut self) -> (e: OpEntry)
        requires
            old(self).header.addr@.len() <= u32::MAX,
        ensures
            final(self).header.fd == old(self).header.fd,
            final(self).header.addr@ == old(self).header.addr@,
            final(self).buffer@ == old(self).buffer@,
            final(self).slice@ == seq![IoVec { seg: 0, len: old(self).buffer@.len() as usize }],
            final(self).header.msg == addressed_header(old(self).header.addr@.len() as u32, 1),
            !final(self).header.reported,
            e == OpEntry::Submission(Sqe::RecvMsg { fd: old(self).header.fd, msg: final(self).header.msg }),
    {
        self.slice = vec![IoVec { seg: 0, len: self.buffer.len() }];
        self.header.create_entry(&self.slice)
    }

    /// Takes the completion's address length (see
    /// [`RecvFromHeader::set_name_len`]).
    pub fn set_name_len(&mut self, len: u32)
        requires
            len as int <= old(self).header.addr@.len(),
        ensures
            final(self).header.fd == old(self).header.fd,
            final(self).header.addr@ == old(self).header.addr@,
            final(self).header.msg == (MsgHeader { name_len: len, ..old(self).header.msg }),
            final(self).header.reported,
            final(self).buffer@ == old(self).buffer@,
            final(self).slice@ == old(self).slice@,
    {
        self.header.set_name_len(len);
    }

    /// The buffer, the sender's address and the length the kernel reported
    /// for it (`None` until `set_name_len` has taken it).
    pub fn into_inner(self) -> (r: (Vec<u8>, Vec<u8>, Option<u32>))
        ensures
            r.0@ == self.buffer@,
            r.1@ == self.header.addr@,
            r.2 == if self.header.reported {
                Some(self.header.msg.name_len)
            } else {
                None
            },
    {
        let (addr, addr_len) = self.header.into_addr();
        (self.buffer, addr, addr_len)
    }
}

/// Receive data and source address into vectored buffer.
pub struct RecvFromVectored {
    pub header: RecvFromHeader,
    pub buffer: Vec<Vec<u8>>,
    /// The scatter/gather array over `buffer`.
    pub slice: Vec<IoVec>,
}

impl RecvFromVectored {
    /// Create [`RecvFromVectored`].
    pub fn new(fd: i32, buffer: Vec<Vec<u8>>) -> (r: Self)
        ensures
            r.header.fd == fd,
            r.header.addr@ == Seq::new(ADDR_STORAGE_LEN as nat, |_i: int| 0u8),
            r.header.msg == MsgHeader::spec_empty(),
            r.buffer@ == buffer@,
            r.slice@.len() == 0,
            !r.header.reported,
    {
        RecvFromVectored { header: RecvFromHeader::new(fd), buffer, slice: Vec::new() }
    }

    /// Covers every segment with the array and wires the header to it.
    pub fn create_entry(&mut self) -> (e: OpEntry)
        requires
            old(self).header.addr@.len() <= u32::MAX,
        ensures
            final(self).header.fd == old(self).header.fd,
            final(self).header.addr@ == old(self).header.addr@,
            final(self).buffer@ == old(self).buffer@,
            iovecs_of(final(self).slice@, final(self).buffer@),
            final(self).header.msg == addressed_header(
                old(self).header.addr@.len() as u32,
                old(self).buffer@.len() as usize,
            ),
            !final(self).header.reported,
            e == OpEntry::Submission(Sqe::RecvMsg { fd: old(self).header.fd, msg: final(self).header.msg }),
    {
        self.slice = io_slices(&self.buffer);
        self.header.create_entry(&self.slice)
    }

    /// Takes the completion's address length (see
    /// [`RecvFromHeader::set_name_len`]).
    pub fn set_name_len(&mut self, len: u32)
        requires
            len as int <= old(self).header.addr@.len(),
        ensures
            final(self).header.fd == old(self).header.fd,
            final(self).header.addr@ == old(self).header.addr@,
            final(self).header.msg == (MsgHeader { name_len: len, ..old(self).header.msg }),
            final(self).header.reported,
            final(self).buffer@ == old(self).buffer@,
            final(self).slice@ == old(self).slice@,
    {
        self.header.set_name_len(len);
    }

    /// The buffer, the sender's address and the length the kernel reported
    /// for it (`None` until `set_name_len` has taken it).
    pub fn into_inner(self) -> (r: (Vec<Vec<u8>>, Vec<u8>, Option<u32>))
        ensures
            r.0@ == self.buffer@,
            r.1@ == self.header.addr@,
            r.2 == if self.header.reported {
                Some(self.header.msg.name_len)
            } else {
                None
            },
    {
        let (addr, addr_len) = self.header.into_addr();
        (self.buffer, addr, addr_len)
    }
}

/// The message header of a send to an explicit address.
pub struct SendToHeader {
    pub fd: i32,
    pub addr: SocketAddr,
    pub msg: MsgHeader,
}

impl SendToHeader {
    pub fn new(fd: i32, addr: SocketAddr) -> (r: Self)
        ensures
            r.fd == fd,
            r.addr@ == addr@,
            r.msg == MsgHeader::spec_empty(),
    {
        SendToHeader { fd, addr, msg: MsgHeader::empty() }
    }

    /// Points the header at the destination address and at the caller's
    /// scatter/gather array; `sendmsg` of that header.
    pub fn create_entry(&mut self, slices: &Vec<IoVec>) -> (e: OpEntry)
        ensures
            final(self).fd == old(self).fd,
            final(self).addr@ == old(self).addr@,
            final(self).msg == addressed_header(old(self).addr@.len() as u32, slices@.len() as usize),
            e == OpEntry::Submission(Sqe::SendMsg { fd: old(self).fd, msg: final(self).msg }),
    {
        self.msg.name = Region::Addr;
        self.msg.name_len = self.addr.len();
        self.msg.iov = Region::Slices;
        self.msg.iov_len = slices.len();
        self.msg.control = Region::Nothing;
        self.msg.control_len = 0;
        OpEntry::Submission(Sqe::SendMsg { fd: self.fd, msg: self.msg })
    }
}

/// Send data to specified address.
pub struct SendTo {
    pub header: SendToHeader,
    pub buffer: Vec<u8>,
    /// The one-entry scatter/gather array over `buffer`.
    pub slice: Vec<IoVec>,
}

impl SendTo {
    /// Create [`SendTo`].
    pub fn new(fd: i32, buffer: Vec<u8>, addr: SocketAddr) -> (r: Self)
        ensures
            r.header.fd == fd,
            r.header.addr@ == addr@,
            r.header.msg == MsgHeader::spec_empty(),
            r.buffer@ == buffer@,
            r.slice@ == seq![IoVec { seg: 0, len: 0 }],
    {
        SendTo { header: SendToHeader::new(fd, addr), buffer, slice: vec![IoVec { seg: 0, len: 0 }] }
    }

    /// Covers the buffer with a one-entry array and wires the header to it.
    pub fn create_entry(&mut self) -> (e: OpEntry)
        ensures
            final(self).header.fd == old(self).header.fd,
            final(self).header.addr@ == old(self).header.addr@,
            final(self).buffer@ == old(self).buffer@,
            final(self).slice@ == seq![IoVec { seg: 0, len: old(self).buffer@.len() as usize }],
            final(self).header.msg == addressed_header(old(self).header.addr@.len() as u32, 1),
            e == OpEntry::Submission(Sqe::SendMsg { fd: old(self).header.fd, msg: final(self).header.msg }),
    {
        self.slice = vec![IoVec { seg: 0, len: self.buffer.len() }];
        self.header.create_entry(&self.slice)
    }

    /// The buffer back; the address is not returned.
    pub fn into_inner(self) -> (r: Vec<u8>)
        ensures
            r@ == self.buffer@,
    {
        self.buffer
    }
}

/// Send data to specified address from vectored buffer.
pub struct SendToVectored {
    pub header: SendToHeader,
    pub buffer: Vec<Vec<u8>>,
    /// The scatter/gather array over `buffer`.
    pub slice: Vec<IoVec>,
}

impl SendToVectored {
    /// Create [`SendToVectored`].
    pub fn new(fd: i32, buffer: Vec<Vec<u8>>, addr: SocketAddr) -> (r: Self)
        ensures
            r.header.fd == fd,
            r.header.addr@ == addr@,
            r.header.msg == MsgHeader::spec_empty(),
            r.buffer@ == buffer@,
            r.slice@.len() == 0,
    {
        SendToVectored { header: SendToHeader::new(fd, addr), buffer, slice: Vec::new() }
    }

    /// Covers every segment with the array and wires the header to it.
    pub fn create_entry(&mut self) -> (e: OpEntry)
        ensures
            final(self).header.fd == old(self).header.fd,
            final(self).header.addr@ == old(self).header.addr@,
            final(self).buffer@ == old(self).buffer@,
            iovecs_of(final(self).slice@, final(self).buffer@),
            final(self).header.msg == addressed_header(
                old(self).header.addr@.len() as u32,
                old(self).buffer@.len() as usize,
            ),
            e == OpEntry::Submission(Sqe::SendMsg { fd: old(self).header.fd, msg: final(self).header.msg }),
    {
        self.slice = io_slices(&self.buffer);
        self.header.create_entry(&self.slice)
    }

    /// The buffer back; the address is not returned.
    pub fn into_inner(self) -> (r: Vec<Vec<u8>>)
        ensures
            r@ == self.buffer@,
    {
        self.buffer
    }
}

/// The header of a message with an address, `iov_len` scatter/gather
/// entries and `control_len` bytes of control data.
pub open spec fn full_header(name_len: u32, iov_len: usize, control_len: usize) -> MsgHeader {
    MsgHeader {
        name: Region::Addr,
        name_len,
        iov: Region::Slices,
        iov_len,
        control: Region::Control,
        control_len,
    }
}

/// Receive a message: data, ancillary (control) data and source address.
pub struct RecvMsg {
    pub fd: i32,
    pub buffer: Vec<Vec<u8>>,
    pub control: Vec<u8>,
    /// Address storage the kernel fills with the sender's address.
    pub addr: Vec<u8>,
    /// The scatter/gather array over `buffer`.
    pub slices: Vec<IoVec>,
    pub msg: MsgHeader,
    /// Whether the completion's lengths have been taken.
    pub reported: bool,
}

impl RecvMsg {
    pub fn new(fd: i32, buffer: Vec<Vec<u8>>, control: Vec<u8>) -> (r: Self)
        ensures
            r.fd == fd,
            r.buffer@ == buffer@,
            r.control@ == control@,
            r.addr@ == Seq::new(ADDR_STORAGE_LEN as nat, |_i: int| 0u8),
            r.slices@.len() == 0,
            r.msg == MsgHeader::spec_empty(),
            !r.reported,
    {
        RecvMsg {
            fd,
            buffer,
            control,
            addr: zeroed_addr(),
            slices: Vec::new(),
            msg: MsgHeader::empty(),
            reported: false,
        }
    }

    /// Builds the scatter/gather array and wires the header to the address
    /// storage (all of it offered), the array and the control buffer.
    pub fn set_msg(&mut self)
        requires
            old(self).addr@.len() <= u32::MAX,
        ensures
            final(self).fd == old(self).fd,
            final(self).buffer@ == old(self).buffer@,
            final(self).control@ == old(self).control@,
            final(self).addr@ == old(self).addr@,
            iovecs_of(final(self).slices@, final(self).buffer@),
            final(self).msg == full_header(
                old(self).addr@.len() as u32,
                old(self).buffer@.len() as usize,
                old(self).control@.len() as usize,
            ),
    {
        self.slices = io_slices(&self.buffer);
        self.msg.name = Region::Addr;
        self.msg.name_len = self.addr.len() as u32;
        self.msg.iov = Region::Slices;
        self.msg.iov_len = self.slices.len();
        self.msg.control = Region::Control;
        self.msg.control_len = self.control.len();
    }

    /// Takes the completion's lengths, which the kernel wrote into the
    /// header: the sender's address length and the control data length.
    pub fn set_msg_lens(&mut self, name_len: u32, control_len: usize)
        requires
            name_len as int <= old(self).addr@.len(),
            control_len as int <= old(self).control@.len(),
        ensures
            final(self).fd == old(self).fd,
            final(self).buffer@ == old(self).buffer@,
            final(self).control@ == old(self).control@,
            final(self).addr@ == old(self).addr@,
            final(self).slices@ == old(self).slices@,
            final(self).msg == (MsgHeader { name_len, control_len, ..old(self).msg }),
            final(self).reported,
    {
        self.msg.name_len = name_len;
        self.msg.control_len = control_len;
        self.reported = true;
    }

    /// `recvmsg` of the wired header.
    pub fn create_entry(&mut self) -> (e: OpEntry)
        requires
            old(self).addr@.len() <= u32::MAX,
        ensures
            final(self).fd == old(self).fd,
            final(self).buffer@ == old(self).buffer@,
            final(self).control@ == old(self).control@,
            final(self).addr@ == old(self).addr@,
            iovecs_of(final(self).slices@, final(self).buffer@),
            final(self).msg == full_header(
                old(self).addr@.len() as u32,
                old(self).buffer@.len() as usize,
                old(self).control@.len() as usize,
            ),
            !final(self).reported,
            e == OpEntry::Submission(Sqe::RecvMsg { fd: old(self).fd, msg: final(self).msg }),
    {
        self.set_msg();
        self.reported = false;
        OpEntry::Submission(Sqe::RecvMsg { fd: self.fd, msg: self.msg })
    }

    /// The data, the control data, the sender's address, and the address
    /// and control data lengths the kernel reported (`None` until
    /// `set_msg_lens` has taken them).
    pub fn into_inner(self) -> (r: (Vec<Vec<u8>>, Vec<u8>, Vec<u8>, Option<(u32, usize)>))
        ensures
            r.0@ == self.buffer@,
            r.1@ == self.control@,
            r.2@ == self.addr@,
            r.3 == if self.reported {
                Some((self.msg.name_len, self.msg.control_len))
            } else {
                None
            },
    {
        let lens = if self.reported {
            Some((self.msg.name_len, self.msg.control_len))
        } else {
            None
        };
        (self.buffer, self.control, self.addr, lens)
    }
}

/// Send a message: data and ancillary (control) data to an address.
pub struct SendMsg {
    pub fd: i32,
    pub buffer: Vec<Vec<u8>>,
    pub control: Vec<u8>,
    pub addr: SocketAddr,
    /// The scatter/gather array over `buffer`.
    pub slices: Vec<IoVec>,
    pub msg: MsgHeader,
}

impl SendMsg {
    pub fn new(fd: i32, buffer: Vec<Vec<u8>>, control: Vec<u8>, addr: SocketAddr) -> (r: Self)
        ensures
            r.fd == fd,
            r.buffer@ == buffer@,
            r.control@ == control@,
            r.addr@ == addr@,
            r.slices@.len() == 0,
            r.msg == MsgHeader::spec_empty(),
    {
        SendMsg { fd, buffer, control, addr, slices: Vec::new(), msg: MsgHeader::empty() }
    }

    /// Builds the scatter/gather array and wires the header to the
    /// destination address, the array and the control buffer.
    pub fn set_msg(&mut self)
        ensures
            final(self).fd == old(self).fd,
            final(self).buffer@ == old(self).buffer@,
            final(self).control@ == old(self).control@,
            final(self).addr@ == old(self).addr@,
            iovecs_of(final(self).slices@, final(self).buffer@),
            final(self).msg == full_header(
                old(self).addr@.len() as u32,
                old(self).buffer@.len() as usize,
                old(self).control@.len() as usize,
            ),
    {
        self.slices = io_slices(&self.buffer);
        self.msg.name = Region::Addr;
        self.msg.name_len = self.addr.len();
        self.msg.iov = Region::Slices;
        self.msg.iov_len = self.slices.len();
        self.msg.control = Region::Control;
        self.msg.control_len = self.control.len();
    }

    /// `sendmsg` of the wired header.
    pub fn create_entry(&mut self) -> (e: OpEntry)
        ensures
            final(self).fd == old(self).fd,
            final(self).buffer@ == old(self).buffer@,
            final(self).control@ == old(self).control@,
            final(self).addr@ == old(self).addr@,
            iovecs_of(final(self).slices@, final(self).buffer@),
            final(self).msg == full_header(
                old(self).addr@.len() as u32,
                old(self).buffer@.len() as usize,
                old(self).control@.len() as usize,
            ),
            e == OpEntry::Submission(Sqe::SendMsg { fd: old(self).fd, msg: final(self).msg }),
    {
        self.set_msg();
        OpEntry::Submission(Sqe::SendMsg { fd: self.fd, msg: self.msg })
    }

    /// The data and the control data back.
    pub fn into_inner(self) -> (r: (Vec<Vec<u8>>, Vec<u8>))
        ensures
            r.0@ == self.buffer@,
            r.1@ == self.control@,
    {
        (self.buffer, self.control)
    }
}

} // verus!
