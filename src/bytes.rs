//! Owned byte strings the kernel reads through a descriptor: NUL-terminated
//! paths and raw socket addresses.

use vstd::prelude::*;

use crate::entry::Error;

verus! {

/// Size of the kernel's socket address storage (`sockaddr_storage`).
pub const ADDR_STORAGE_LEN: usize = 128;

/// Size of the kernel's extended status record (`struct statx`).
pub const STATX_LEN: usize = 256;

/// The bytes a C reader sees in `s`: everything before the first NUL.
pub open spec fn c_str(s: Seq<u8>) -> Seq<u8>
    decreases s.len(),
{
    if s.len() == 0 {
        s
    } else if s[0] == 0 {
        Seq::empty()
    } else {
        seq![s[0]].add(c_str(s.drop_first()))
    }
}

/// `s` holds no NUL byte.
pub open spec fn nul_free(s: Seq<u8>) -> bool {
    forall|i: int| 0 <= i < s.len() ==> s[i] != 0
}

/// A path as the kernel reads it: its bytes followed by one NUL, with no
/// NUL before it.
pub struct CPath {
    bytes: Vec<u8>,
}

impl CPath {
    /// The stored bytes, terminator included.
    pub closed spec fn view(&self) -> Seq<u8> {
        self.bytes@
    }

    #[verifier::type_invariant]
    spec fn inv(&self) -> bool {
        self.bytes@.len() >= 1 && self.bytes@.last() == 0 && nul_free(self.bytes@.drop_last())
    }

    /// Makes a path of `text`, appending the terminator; fails with
    /// `InvalidInput` when `text` holds a NUL byte.
    pub fn new(text: Vec<u8>) -> (r: Result<CPath, Error>)
        requires
            text@.len() < usize::MAX,
        ensures
            nul_free(text@) <==> r is Ok,
            r matches Ok(p) ==> p@ == text@.push(0),
            !nul_free(text@) ==> r == Err::<CPath, Error>(Error::InvalidInput),
    {
        let mut i: usize = 0;
        while i < text.len()
            invariant
                i <= text@.len(),
                forall|j: int| 0 <= j < i ==> text@[j] != 0,
            decreases text@.len() - i,
        {
            if text[i] == 0 {
                return Err(Error::InvalidInput);
            }
            i = i + 1;
        }
        let mut bytes = text;
        bytes.push(0);
        assert(bytes@.drop_last() =~= text@);
        Ok(CPath { bytes })
    }

    /// The stored bytes, terminator included.
    pub fn as_bytes_with_nul(&self) -> (r: &Vec<u8>)
        ensures
            r@ == self@,
            r@.len() >= 1,
            r@.last() == 0,
            nul_free(r@.drop_last()),
    {
        proof {
            use_type_invariant(self);
        }
        &self.bytes
    }

}

/// The raw bytes of a socket address (a `sockaddr_*` record), at most
/// [`ADDR_STORAGE_LEN`] of them.
pub struct SocketAddr {
    bytes: Vec<u8>,
}

impl SocketAddr {
    pub closed spec fn view(&self) -> Seq<u8> {
        self.bytes@
    }

    #[verifier::type_invariant]
    spec fn inv(&self) -> bool {
        self.bytes@.len() <= ADDR_STORAGE_LEN
    }

    /// Takes the bytes of an address; fails with `InvalidInput` when they
    /// do not fit the kernel's address storage.
    pub fn new(bytes: Vec<u8>) -> (r: Result<SocketAddr, Error>)
        ensures
            bytes@.len() <= ADDR_STORAGE_LEN <==> r is Ok,
            r matches Ok(a) ==> a@ == bytes@,
            bytes@.len() > ADDR_STORAGE_LEN ==> r == Err::<SocketAddr, Error>(Error::InvalidInput),
    {
        if bytes.len() > ADDR_STORAGE_LEN {
            Err(Error::InvalidInput)
        } else {
            Ok(SocketAddr { bytes })
        }
    }

    /// The address length the kernel is told.
    pub fn len(&self) -> (r: u32)
        ensures
            r as int == self@.len(),
            r as int <= ADDR_STORAGE_LEN,
    {
        proof {
            use_type_invariant(self);
        }
        self.bytes.len() as u32
    }

    pub fn as_bytes(&self) -> (r: &Vec<u8>)
        ensures
            r@ == self@,
            r@.len() <= ADDR_STORAGE_LEN,
    {
        proof {
            use_type_invariant(self);
        }
        &self.bytes
    }
}

} // verus!
