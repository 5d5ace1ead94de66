//! Arbitrary blocking work, run once on a blocking-capable thread.

use vstd::prelude::*;

use crate::entry::{Error, OpEntry};

verus! {

/// Run a single-use closure as an operation. The closure returns the
/// operation's result, handed back as it is, and a side output, kept for
/// the caller.
pub struct Asyncify<F, D> {
    /// The closure, until it has run.
    pub f: Option<F>,
    /// The side output, once the closure has run.
    pub data: Option<D>,
}

/// One run of `call_blocking`, from `pre` to `post` with result `r`: the
/// closure, if still there, has run once and left its side output;
/// otherwise the call failed with `AlreadyUsed` and changed nothing.
pub open spec fn blocking_step<F: FnOnce() -> (R, D), R, D>(
    pre: Asyncify<F, D>,
    post: Asyncify<F, D>,
    r: Result<R, Error>,
) -> bool {
    match pre.f {
        None => {
            &&& r == Err::<R, Error>(Error::AlreadyUsed)
            &&& post.f is None
            &&& post.data == pre.data
        },
        Some(f) => {
            &&& post.f is None
            &&& r matches Ok(res) && post.data matches Some(d) && call_ensures(f, (), (res, d))
        },
    }
}

impl<F: FnOnce() -> (R, D), R, D> Asyncify<F, D> {
    pub fn new(f: F) -> (r: Self)
        ensures
            r.f == Some(f),
            r.data is None,
    {
        Asyncify { f: Some(f), data: None }
    }

    /// There is no kernel form of this operation.
    pub fn create_entry(&self) -> (e: OpEntry)
        ensures
            e == OpEntry::Blocking,
    {
        OpEntry::Blocking
    }

    /// Runs the closure, keeps its side output and returns `Ok` of its
    /// result. A second call finds the closure gone and fails with
    /// `AlreadyUsed`, changing nothing.
    pub fn call_blocking(&mut self) -> (r: Result<R, Error>)
        requires
            old(self).f matches Some(f) ==> call_requires(f, ()),
        ensures
            blocking_step(*old(self), *final(self), r),
    {
        match self.f.take() {
            Some(f) => {
                let (res, data) = f();
                self.data = Some(data);
                Ok(res)
            },
            None => Err(Error::AlreadyUsed),
        }
    }

    /// The side output, if the closure has run.
    pub fn into_inner(self) -> (r: Option<D>)
        ensures
            r == self.data,
    {
        self.data
    }
}

} // verus!
