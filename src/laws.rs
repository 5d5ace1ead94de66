//! Properties that relate several operations of the crate.

use vstd::prelude::*;

use crate::asyncify::{blocking_step, Asyncify};
use crate::bytes::{c_str, nul_free};
use crate::entry::Error;
use crate::net::{accept_completed, Accept};
use crate::managed::{slots_after_cancel, SlotState};

verus! {

/// A path stored with its terminator reads back, up to the first NUL,
/// as exactly the bytes it was made of: nothing is cut off.
pub proof fn path_reads_back_whole(text: Seq<u8>)
    requires
        nul_free(text),
    ensures
        c_str(text.push(0)) == text,
    decreases text.len(),
{
    if text.len() == 0 {
        assert(text.push(0)[0] == 0);
    } else {
        let rest = text.drop_first();
        assert(nul_free(rest)) by {
            assert forall|i: int| 0 <= i < rest.len() implies rest[i] != 0 by {
                assert(rest[i] == text[i + 1]);
            }
        }
        path_reads_back_whole(rest);
        assert(text.push(0)[0] == text[0]);
        assert(text.push(0).drop_first() =~= rest.push(0));
        assert(seq![text[0]].add(rest) =~= text);
    }
}

/// A failed buffer-selecting read gives back exactly what its attempt
/// took: when the slot offered for it was free before the offer, the ledger
/// after the failure equals the ledger before the offer, whatever the
/// completion's flags say. So a pool that the attempt used up has a free
/// slot again for the next request.
pub proof fn failed_read_restores_pool(before: Seq<SlotState>, id: u16)
    requires
        (id as int) < before.len(),
        before[id as int] == SlotState::Free,
    ensures
        slots_after_cancel(before.update(id as int, SlotState::Reserved), id) == before,
        exists|j: int|
            0 <= j < before.len() && slots_after_cancel(before.update(id as int, SlotState::Reserved), id)[j]
                == SlotState::Free,
{
    let after = slots_after_cancel(before.update(id as int, SlotState::Reserved), id);
    assert(after =~= before);
    assert(after[id as int] == SlotState::Free);
}

/// Running the blocking path twice: the second run finds the closure
/// consumed, fails with `AlreadyUsed` and keeps the first run's side output.
pub proof fn second_blocking_call_fails<F: FnOnce() -> (R, D), R, D>(
    first: Asyncify<F, D>,
    between: Asyncify<F, D>,
    after: Asyncify<F, D>,
    r1: Result<R, Error>,
    r2: Result<R, Error>,
)
    requires
        blocking_step(first, between, r1),
        blocking_step(between, after, r2),
    ensures
        r2 == Err::<R, Error>(Error::AlreadyUsed),
        after.data == between.data,
        first.f is Some ==> after.data is Some,
{
}

/// After an accept completes with a new handle (the kernel never hands back
/// the listening one), the descriptor owns that handle, which differs from
/// the listening handle, and the address bytes are left as they were.
pub proof fn accepted_handle_is_new(pre: Accept, post: Accept, res: usize)
    requires
        accept_completed(pre, post, res),
        res <= i32::MAX,
        res as i32 != pre.fd,
    ensures
        post.accepted_fd matches Some(h) && h != post.fd && h as int == res,
        post.fd == pre.fd,
        post.buffer@ == pre.buffer@,
{
}

} // verus!
