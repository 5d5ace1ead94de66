//! Reads whose buffer the kernel selects from a registered pool, and the
//! pool's slot ledger.
//!
//! A slot is free, reserved (the kernel picked it for an operation in
//! flight) or lent (handed to the caller as a [`BorrowedBuffer`]). A
//! completion's flags word names the slot that was used.

use vstd::prelude::*;

use crate::entry::{Error, OpEntry, Region, Sqe};
use crate::file::ReadAt;
use crate::net::Recv;
use crate::sys::{buffer_select, selected_slot};

verus! {

/// The state of one pool slot.
#[derive(Debug, Clone, Copy, PartialEq, Eq, Structural)]
pub enum SlotState {
    Free,
    Reserved,
    Lent,
}

/// A pool slot lent to the caller: `len` bytes of slot `slot`.
#[derive(Debug, Clone, Copy, PartialEq, Eq, Structural)]
pub struct BorrowedBuffer {
    pub slot: u16,
    pub len: usize,
}

/// A registered ring of equally sized buffer slots.
pub struct BufferPool {
    group: u16,
    slot_len: usize,
    slots: Vec<SlotState>,
}

/// The slot named by a completion's flags, if it names one of `slots`.
pub open spec fn named_slot(slots: Seq<SlotState>, flags: u32) -> Option<int> {
    match selected_slot(flags) {
        Some(id) => if (id as int) < slots.len() {
            Some(id as int)
        } else {
            None
        },
        None => None,
    }
}

/// The ledger after a failed completion: the slot it names, if reserved,
/// is free again.
pub open spec fn slots_after_failure(slots: Seq<SlotState>, flags: u32) -> Seq<SlotState> {
    match named_slot(slots, flags) {
        Some(id) => if slots[id] == SlotState::Reserved {
            slots.update(id, SlotState::Free)
        } else {
            slots
        },
        None => slots,
    }
}

/// A successful completion of `len` bytes can be lent out: its flags name
/// a reserved slot, and the length fits a slot.
pub open spec fn lendable(slots: Seq<SlotState>, slot_len: usize, flags: u32, len: usize) -> bool {
    match named_slot(slots, flags) {
        Some(id) => slots[id] == SlotState::Reserved && len <= slot_len,
        None => false,
    }
}

/// The ledger after the slot offered for a failed attempt is given back:
/// free again if it was still reserved.
pub open spec fn slots_after_cancel(slots: Seq<SlotState>, id: u16) -> Seq<SlotState> {
    if (id as int) < slots.len() && slots[id as int] == SlotState::Reserved {
        slots.update(id as int, SlotState::Free)
    } else {
        slots
    }
}

impl BufferPool {
    /// The state of each slot, by index.
    pub closed spec fn view(&self) -> Seq<SlotState> {
        self.slots@
    }

    pub closed spec fn spec_group(&self) -> u16 {
        self.group
    }

    pub closed spec fn spec_slot_len(&self) -> usize {
        self.slot_len
    }

    /// A pool of `count` free slots of `slot_len` bytes, registered as `group`.
    pub fn new(group: u16, count: u16, slot_len: usize) -> (r: Self)
        ensures
            r@ == Seq::new(count as nat, |_i: int| SlotState::Free),
            r.spec_group() == group,
            r.spec_slot_len() == slot_len,
    {
        let slots = vec![SlotState::Free; count as usize];
        assert(slots@ =~= Seq::new(count as nat, |_i: int| SlotState::Free));
        BufferPool { group, slot_len, slots }
    }

    /// The group identifier the kernel knows the pool by.
    pub fn buffer_group(&self) -> (r: u16)
        ensures
            r == self.spec_group(),
    {
        self.group
    }

    pub fn slot_len(&self) -> (r: usize)
        ensures
            r == self.spec_slot_len(),
    {
        self.slot_len
    }

    pub fn slot_count(&self) -> (r: usize)
        ensures
            r == self@.len(),
    {
        self.slots.len()
    }

    /// The state of slot `id`, if there is one.
    pub fn state(&self, id: u16) -> (r: Option<SlotState>)
        ensures
            (id as int) < self@.len() ==> r == Some(self@[id as int]),
            (id as int) >= self@.len() ==> r is None,
    {
        if (id as usize) < self.slots.len() {
            Some(self.slots[id as usize])
        } else {
            None
        }
    }

    /// The kernel's choice when a buffer-selecting operation runs: the
    /// lowest free slot becomes reserved. `None` when every slot is taken.
    pub fn reserve(&mut self) -> (r: Option<u16>)
        requires
            old(self)@.len() <= u16::MAX,
        ensures
            final(self).spec_group() == old(self).spec_group(),
            final(self).spec_slot_len() == old(self).spec_slot_len(),
            r is None <==> forall|j: int| 0 <= j < old(self)@.len() ==> old(self)@[j] != SlotState::Free,
            r is None ==> final(self)@ == old(self)@,
            r matches Some(id) ==> {
                &&& (id as int) < old(self)@.len()
                &&& old(self)@[id as int] == SlotState::Free
                &&& forall|j: int| 0 <= j < id ==> old(self)@[j] != SlotState::Free
                &&& final(self)@ == old(self)@.update(id as int, SlotState::Reserved)
            },
    {
        let mut i: usize = 0;
        while i < self.slots.len()
            invariant
                i <= self.slots@.len(),
                self.slots@.len() <= u16::MAX,
                self.slots@ == old(self).slots@,
                self.group == old(self).group,
                self.slot_len == old(self).slot_len,
                forall|j: int| 0 <= j < i ==> self.slots@[j] != SlotState::Free,
            decreases self.slots@.len() - i,
        {
            if self.slots[i] == SlotState::Free {
                self.slots.set(i, SlotState::Reserved);
                return Some(i as u16);
            }
            i = i + 1;
        }
        None
    }

    /// Lends the slot a successful completion of `len` bytes names. Fails
    /// with `InvalidBuffer`, changing nothing, when the flags name no
    /// reserved slot of this pool or `len` exceeds a slot.
    pub fn get_buffer(&mut self, flags: u32, len: usize) -> (r: Result<BorrowedBuffer, Error>)
        ensures
            final(self).spec_group() == old(self).spec_group(),
            final(self).spec_slot_len() == old(self).spec_slot_len(),
            lendable(old(self)@, old(self).spec_slot_len(), flags, len) <==> r is Ok,
            r matches Ok(b) ==> {
                &&& Some(b.slot as int) == named_slot(old(self)@, flags)
                &&& b.len == len
                &&& final(self)@ == old(self)@.update(b.slot as int, SlotState::Lent)
            },
            r is Err ==> r == Err::<BorrowedBuffer, Error>(Error::InvalidBuffer) && final(self)@ == old(self)@,
    {
        match buffer_select(flags) {
            Some(id) => {
                if (id as usize) < self.slots.len() && self.slots[id as usize] == SlotState::Reserved
                    && len <= self.slot_len {
                    self.slots.set(id as usize, SlotState::Lent);
                    Ok(BorrowedBuffer { slot: id, len })
                } else {
                    Err(Error::InvalidBuffer)
                }
            },
            None => Err(Error::InvalidBuffer),
        }
    }

    /// Returns the slot a failed completion names to the free set.
    pub fn reuse_buffer(&mut self, flags: u32)
        ensures
            final(self).spec_group() == old(self).spec_group(),
            final(self).spec_slot_len() == old(self).spec_slot_len(),
            final(self)@ == slots_after_failure(old(self)@, flags),
    {
        if let Some(id) = buffer_select(flags) {
            if (id as usize) < self.slots.len() && self.slots[id as usize] == SlotState::Reserved {
                self.slots.set(id as usize, SlotState::Free);
            }
        }
    }

    /// Gives back the slot offered for an attempt that failed: free again
    /// if it is still reserved.
    pub fn cancel(&mut self, id: u16)
        ensures
            final(self).spec_group() == old(self).spec_group(),
            final(self).spec_slot_len() == old(self).spec_slot_len(),
            final(self)@ == slots_after_cancel(old(self)@, id),
    {
        if (id as usize) < self.slots.len() && self.slots[id as usize] == SlotState::Reserved {
            self.slots.set(id as usize, SlotState::Free);
        }
    }

    /// The caller is done with a lent slot: it is free again.
    pub fn release(&mut self, buf: BorrowedBuffer)
        ensures
            final(self).spec_group() == old(self).spec_group(),
            final(self).spec_slot_len() == old(self).spec_slot_len(),
            (buf.slot as int) < old(self)@.len() && old(self)@[buf.slot as int] == SlotState::Lent
                ==> final(self)@ == old(self)@.update(buf.slot as int, SlotState::Free),
            !((buf.slot as int) < old(self)@.len() && old(self)@[buf.slot as int] == SlotState::Lent)
                ==> final(self)@ == old(self)@,
    {
        if (buf.slot as usize) < self.slots.len() && self.slots[buf.slot as usize] == SlotState::Lent {
            self.slots.set(buf.slot as usize, SlotState::Free);
        }
    }
}

/// Read a file at specified position into a buffer the kernel selects from a pool.
#[derive(Debug)]
pub struct ReadManagedAt {
    pub fd: i32,
    pub offset: u64,
    pub buffer_group: u16,
    pub len: u32,
    /// The pool slot offered to the kernel for this attempt.
    pub slot: Option<u16>,
}

impl ReadManagedAt {
    /// Create [`ReadManagedAt`]. Fails with `InvalidInput` when `len` does not fit
    /// a submission's 32-bit length or exceeds the pool's slot size.
    pub fn new(fd: i32, offset: u64, buffer_pool: &BufferPool, len: usize) -> (r: Result<Self, Error>)
        ensures
            (len <= u32::MAX && len <= buffer_pool.spec_slot_len()) <==> r is Ok,
            r is Err ==> r == Err::<Self, Error>(Error::InvalidInput),
            r matches Ok(op) ==> op.fd == fd,
            r matches Ok(op) ==> op.offset == offset,
            r matches Ok(op) ==> op.buffer_group == buffer_pool.spec_group(),
            r matches Ok(op) ==> op.len as int == len,
            r matches Ok(op) ==> op.slot is None,
    {
        let buffer_group = buffer_pool.buffer_group();
        if len > u32::MAX as usize || len > buffer_pool.slot_len() {
            return Err(Error::InvalidInput);
        }
        Ok(ReadManagedAt { fd, offset, buffer_group, len: len as u32, slot: None })
    }

    /// Offers a free pool slot to the kernel for this attempt, just before
    /// submission, and records which one. `None` when the pool is used up.
    pub fn reserve_slot(&mut self, buffer_pool: &mut BufferPool) -> (r: Option<u16>)
        requires
            old(buffer_pool)@.len() <= u16::MAX,
        ensures
            final(self).slot == r,
            final(self).fd == old(self).fd,
            final(self).buffer_group == old(self).buffer_group,
            final(self).len == old(self).len,
            final(buffer_pool).spec_group() == old(buffer_pool).spec_group(),
            final(buffer_pool).spec_slot_len() == old(buffer_pool).spec_slot_len(),
            r is None <==> forall|j: int|
                0 <= j < old(buffer_pool)@.len() ==> old(buffer_pool)@[j] != SlotState::Free,
            r is None ==> final(buffer_pool)@ == old(buffer_pool)@,
            r matches Some(id) ==> {
                &&& (id as int) < old(buffer_pool)@.len()
                &&& old(buffer_pool)@[id as int] == SlotState::Free
                &&& final(buffer_pool)@ == old(buffer_pool)@.update(id as int, SlotState::Reserved)
            },
    {
        let r = buffer_pool.reserve();
        self.slot = r;
        r
    }

    /// A buffer-selecting read: no buffer, the pool's group instead.
    pub fn create_entry(&self) -> (e: OpEntry)
        ensures
            e == OpEntry::Submission(
                Sqe::Read {
                    fd: self.fd,
                    buf: Region::Nothing,
                    len: self.len,
                    offset: self.offset,
                    buf_group: Some(self.buffer_group),
                },
            ),
    {
        OpEntry::Submission(
            Sqe::Read {
                fd: self.fd,
                buf: Region::Nothing,
                len: self.len,
                offset: self.offset,
                buf_group: Some(self.buffer_group),
            },
        )
    }

    /// Turns the completion into the lent buffer. On failure the slot
    /// offered for this attempt goes back to the free set, whatever the flags
    /// say, and the error is returned as it came; on success the slot the
    /// flags name is lent with the completed length.
    pub fn take_buffer(self, buffer_pool: &mut BufferPool, result: Result<usize, Error>, flags: u32) -> (r: Result<
        BorrowedBuffer,
        Error,
    >)
        ensures
            final(buffer_pool).spec_group() == old(buffer_pool).spec_group(),
            final(buffer_pool).spec_slot_len() == old(buffer_pool).spec_slot_len(),
            result matches Err(err) ==> {
                &&& r == Err::<BorrowedBuffer, Error>(err)
                &&& final(buffer_pool)@ == match self.slot {
                    Some(id) => slots_after_cancel(old(buffer_pool)@, id),
                    None => old(buffer_pool)@,
                }
            },
            result matches Ok(n) ==> {
                &&& lendable(old(buffer_pool)@, old(buffer_pool).spec_slot_len(), flags, n) <==> r is Ok
                &&& r matches Ok(b) ==> {
                    &&& Some(b.slot as int) == named_slot(old(buffer_pool)@, flags)
                    &&& b.len == n
                    &&& final(buffer_pool)@ == old(buffer_pool)@.update(b.slot as int, SlotState::Lent)
                }
                &&& r is Err ==> {
                    &&& r == Err::<BorrowedBuffer, Error>(Error::InvalidBuffer)
                    &&& final(buffer_pool)@ == old(buffer_pool)@
                }
            },
    {
        match result {
            Err(err) => {
                if let Some(id) = self.slot {
                    buffer_pool.cancel(id);
                }
                Err(err)
            },
            Ok(n) => buffer_pool.get_buffer(flags, n),
        }
    }
}

/// Receive data from remote into a buffer the kernel selects from a pool.
#[derive(Debug)]
pub struct RecvManaged {
    pub fd: i32,
    pub buffer_group: u16,
    pub len: u32,
    /// The pool slot offered to the kernel for this attempt.
    pub slot: Option<u16>,
}

impl RecvManaged {
    /// Create [`RecvManaged`]. Fails with `InvalidInput` when `len` does not fit
    /// a submission's 32-bit length or exceeds the pool's slot size.
    pub fn new(fd: i32, buffer_pool: &BufferPool, len: usize) -> (r: Result<Self, Error>)
        ensures
            (len <= u32::MAX && len <= buffer_pool.spec_slot_len()) <==> r is Ok,
            r is Err ==> r == Err::<Self, Error>(Error::InvalidInput),
            r matches Ok(op) ==> op.fd == fd,
            r matches Ok(op) ==> op.buffer_group == buffer_pool.spec_group(),
            r matches Ok(op) ==> op.len as int == len,
            r matches Ok(op) ==> op.slot is None,
    {
        let buffer_group = buffer_pool.buffer_group();
        if len > u32::MAX as usize || len > buffer_pool.slot_len() {
            return Err(Error::InvalidInput);
        }
        Ok(RecvManaged { fd, buffer_group, len: len as u32, slot: None })
    }

    /// Offers a free pool slot to the kernel for this attempt, just before
    /// submission, and records which one. `None` when the pool is used up.
    pub fn reserve_slot(&mut self, buffer_pool: &mut BufferPool) -> (r: Option<u16>)
        requires
            old(buffer_pool)@.len() <= u16::MAX,
        ensures
            final(self).slot == r,
            final(self).fd == old(self).fd,
            final(self).buffer_group == old(self).buffer_group,
            final(self).len == old(self).len,
            final(buffer_pool).spec_group() == old(buffer_pool).spec_group(),
            final(buffer_pool).spec_slot_len() == old(buffer_pool).spec_slot_len(),
            r is None <==> forall|j: int|
                0 <= j < old(buffer_pool)@.len() ==> old(buffer_pool)@[j] != SlotState::Free,
            r is None ==> final(buffer_pool)@ == old(buffer_pool)@,
            r matches Some(id) ==> {
                &&& (id as int) < old(buffer_pool)@.len()
                &&& old(buffer_pool)@[id as int] == SlotState::Free
                &&& final(buffer_pool)@ == old(buffer_pool)@.update(id as int, SlotState::Reserved)
            },
    {
        let r = buffer_pool.reserve();
        self.slot = r;
        r
    }

    /// A buffer-selecting read: no buffer, the pool's group instead.
    pub fn create_entry(&self) -> (e: OpEntry)
        ensures
            e == OpEntry::Submission(
                Sqe::Read {
                    fd: self.fd,
                    buf: Region::Nothing,
                    len: self.len,
                    offset: 0,
                    buf_group: Some(self.buffer_group),
                },
            ),
    {
        OpEntry::Submission(
            Sqe::Read {
                fd: self.fd,
                buf: Region::Nothing,
                len: self.len,
                offset: 0,
                buf_group: Some(self.buffer_group),
            },
        )
    }

    /// Turns the completion into the lent buffer. On failure the slot
    /// offered for this attempt goes back to the free set, whatever the flags
    /// say, and the error is returned as it came; on success the slot the
    /// flags name is lent with the completed length.
    pub fn take_buffer(self, buffer_pool: &mut BufferPool, result: Result<usize, Error>, flags: u32) -> (r: Result<
        BorrowedBuffer,
        Error,
    >)
        ensures
            final(buffer_pool).spec_group() == old(buffer_pool).spec_group(),
            final(buffer_pool).spec_slot_len() == old(buffer_pool).spec_slot_len(),
            result matches Err(err) ==> {
                &&& r == Err::<BorrowedBuffer, Error>(err)
                &&& final(buffer_pool)@ == match self.slot {
                    Some(id) => slots_after_cancel(old(buffer_pool)@, id),
                    None => old(buffer_pool)@,
                }
            },
            result matches Ok(n) ==> {
                &&& lendable(old(buffer_pool)@, old(buffer_pool).spec_slot_len(), flags, n) <==> r is Ok
                &&& r matches Ok(b) ==> {
                    &&& Some(b.slot as int) == named_slot(old(buffer_pool)@, flags)
                    &&& b.len == n
                    &&& final(buffer_pool)@ == old(buffer_pool)@.update(b.slot as int, SlotState::Lent)
                }
                &&& r is Err ==> {
                    &&& r == Err::<BorrowedBuffer, Error>(Error::InvalidBuffer)
                    &&& final(buffer_pool)@ == old(buffer_pool)@
                }
            },
    {
        match result {
            Err(err) => {
                if let Some(id) = self.slot {
                    buffer_pool.cancel(id);
                }
                Err(err)
            },
            Ok(n) => buffer_pool.get_buffer(flags, n),
        }
    }
}

/// [`ReadManagedAt`] where the kernel cannot select pool buffers: the
/// descriptor owns an ordinary buffer and performs an ordinary read.
pub struct ReadManagedAtFallback {
    pub op: ReadAt,
}

impl ReadManagedAtFallback {
    /// Takes the same arguments as the pool form and fails on the same
    /// lengths; the buffer is an ordinary one of `len` zeroed bytes.
    pub fn new(fd: i32, offset: u64, buffer_pool: &BufferPool, len: usize) -> (r: Result<Self, Error>)
        ensures
            (len <= u32::MAX && len <= buffer_pool.spec_slot_len()) <==> r is Ok,
            r is Err ==> r == Err::<Self, Error>(Error::InvalidInput),
            r matches Ok(f) ==> f.op.fd == fd,
            r matches Ok(f) ==> f.op.offset == offset,
            r matches Ok(f) ==> f.op.buffer@ == Seq::new(len as nat, |_i: int| 0u8),
    {
        if len > u32::MAX as usize || len > buffer_pool.slot_len() {
            return Err(Error::InvalidInput);
        }
        let buffer = vec![0u8; len];
        assert(buffer@ =~= Seq::new(len as nat, |_i: int| 0u8));
        Ok(ReadManagedAtFallback { op: ReadAt::new(fd, offset, buffer) })
    }

    /// Hands on to the inner ordinary read.
    pub fn create_entry(&self) -> (e: OpEntry)
        requires
            self.op.buffer@.len() <= u32::MAX,
        ensures
            e == OpEntry::Submission(
                Sqe::Read {
                    fd: self.op.fd,
                    buf: Region::Buffer,
                    len: self.op.buffer@.len() as u32,
                    offset: self.op.offset,
                    buf_group: None,
                },
            ),
    {
        self.op.create_entry()
    }

    /// The bytes read: the buffer cut to the completed length. A failure
    /// is returned as it came; a length beyond the buffer is `InvalidBuffer`.
    pub fn take_buffer(self, result: Result<usize, Error>) -> (r: Result<Vec<u8>, Error>)
        ensures
            result matches Err(err) ==> r == Err::<Vec<u8>, Error>(err),
            result matches Ok(n) ==> {
                &&& n <= self.op.buffer@.len() ==> (r matches Ok(b) && b@ == self.op.buffer@.take(n as int))
                &&& n > self.op.buffer@.len() ==> r == Err::<Vec<u8>, Error>(Error::InvalidBuffer)
            },
    {
        match result {
            Err(err) => Err(err),
            Ok(n) => {
                let mut buffer = self.op.into_inner();
                if n > buffer.len() {
                    return Err(Error::InvalidBuffer);
                }
                buffer.truncate(n);
                Ok(buffer)
            },
        }
    }
}

/// [`RecvManaged`] where the kernel cannot select pool buffers: the
/// descriptor owns an ordinary buffer and performs an ordinary receive.
pub struct RecvManagedFallback {
    pub op: Recv,
}

impl RecvManagedFallback {
    /// Takes the same arguments as the pool form and fails on the same
    /// lengths; the buffer is an ordinary one of `len` zeroed bytes.
    pub fn new(fd: i32, buffer_pool: &BufferPool, len: usize) -> (r: Result<Self, Error>)
        ensures
            (len <= u32::MAX && len <= buffer_pool.spec_slot_len()) <==> r is Ok,
            r is Err ==> r == Err::<Self, Error>(Error::InvalidInput),
            r matches Ok(f) ==> f.op.fd == fd,
            r matches Ok(f) ==> f.op.buffer@ == Seq::new(len as nat, |_i: int| 0u8),
    {
        if len > u32::MAX as usize || len > buffer_pool.slot_len() {
            return Err(Error::InvalidInput);
        }
        let buffer = vec![0u8; len];
        assert(buffer@ =~= Seq::new(len as nat, |_i: int| 0u8));
        Ok(RecvManagedFallback { op: Recv::new(fd, buffer) })
    }

    /// Hands on to the inner ordinary read.
    pub fn create_entry(&self) -> (e: OpEntry)
        requires
            self.op.buffer@.len() <= u32::MAX,
        ensures
            e == OpEntry::Submission(
                Sqe::Read {
                    fd: self.op.fd,
                    buf: Region::Buffer,
                    len: self.op.buffer@.len() as u32,
                    offset: 0,
                    buf_group: None,
                },
            ),
    {
        self.op.create_entry()
    }

    /// The bytes read: the buffer cut to the completed length. A failure
    /// is returned as it came; a length beyond the buffer is `InvalidBuffer`.
    pub fn take_buffer(self, result: Result<usize, Error>) -> (r: Result<Vec<u8>, Error>)
        ensures
            result matches Err(err) ==> r == Err::<Vec<u8>, Error>(err),
            result matches Ok(n) ==> {
                &&& n <= self.op.buffer@.len() ==> (r matches Ok(b) && b@ == self.op.buffer@.take(n as int))
                &&& n > self.op.buffer@.len() ==> r == Err::<Vec<u8>, Error>(Error::InvalidBuffer)
            },
    {
        match result {
            Err(err) => Err(err),
            Ok(n) => {
                let mut buffer = self.op.into_inner();
                if n > buffer.len() {
                    return Err(Error::InvalidBuffer);
                }
                buffer.truncate(n);
                Ok(buffer)
            },
        }
    }
}

} // verus!
