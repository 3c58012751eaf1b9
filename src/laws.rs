//! Laws of handle ownership, stated over the reference-count tables that
//! the contracts of `share` and `release` speak of (`Capture`, `Image`:
//! `referenced` and `released`; `Frame`: `released`), and laws of the
//! retrieval protocol and the two-call fetch, stated over the outcomes that
//! the contracts of `get_capture`, `pop_result` and `fetch_bytes` speak of.
use vstd::prelude::*;
use crate::device::next_capture;
use crate::error::{error_of, Error, Status};
use crate::fetch::fetched;
use crate::refcount::{count_of, is_last_owner, is_live, referenced, released, NULL_HANDLE};
use crate::runtime::Api;
use crate::runtime::blobs::Blob;
use crate::tracker::next_result;

verus! {

/// One step in the life of a shared handle: a new owner (`share`) or one
/// owner fewer (`release`).
#[derive(Clone, Copy, Debug, PartialEq, Eq, Structural)]
pub enum OwnerStep {
    Share,
    Release,
}

/// The counts after one step on handle `h`.
pub open spec fn apply_step(refs: Seq<u64>, h: usize, s: OwnerStep) -> Seq<u64> {
    match s {
        OwnerStep::Share => referenced(refs, h),
        OwnerStep::Release => released(refs, h),
    }
}

/// The counts after the steps on handle `h`, in order.
pub open spec fn apply_steps(refs: Seq<u64>, h: usize, steps: Seq<OwnerStep>) -> Seq<u64>
    decreases steps.len(),
{
    if steps.len() == 0 {
        refs
    } else {
        apply_step(apply_steps(refs, h, steps.drop_last()), h, steps.last())
    }
}

/// Shares minus releases.
pub open spec fn balance(steps: Seq<OwnerStep>) -> int
    decreases steps.len(),
{
    if steps.len() == 0 {
        0
    } else {
        balance(steps.drop_last()) + if steps.last() == OwnerStep::Share { 1int } else { -1int }
    }
}

/// A release gives back exactly one reference of its own handle and touches
/// no other. The wrapper then holds the null handle, and releasing that again
/// changes no count and destroys nothing: a double release cannot happen.
pub proof fn lemma_release_exactly_once(refs: Seq<u64>, h: usize)
    requires
        is_live(refs, h),
    ensures
        count_of(released(refs, h), h) == count_of(refs, h) - 1,
        forall|g: usize| g != h ==> count_of(#[trigger] released(refs, h), g) == count_of(refs, g),
        released(released(refs, h), NULL_HANDLE) == released(refs, h),
        !is_last_owner(released(refs, h), NULL_HANDLE),
{
}

/// After shares and releases on a handle, its count is its count before
/// plus the shares minus the releases, as long as it never dropped below one
/// on the way (and stays within `u64`).
pub proof fn lemma_count_after_steps(refs: Seq<u64>, h: usize, steps: Seq<OwnerStep>)
    requires
        count_of(refs, h) >= 1,
        count_of(refs, h) + steps.len() < u64::MAX,
        forall|k: int| 0 <= k <= steps.len() ==> count_of(refs, h) + balance(#[trigger] steps.take(k)) >= 1,
    ensures
        count_of(apply_steps(refs, h, steps), h) == count_of(refs, h) + balance(steps),
        apply_steps(refs, h, steps).len() == refs.len(),
    decreases steps.len(),
{
    if steps.len() > 0 {
        let prefix = steps.drop_last();
        assert forall|k: int| 0 <= k <= prefix.len() implies count_of(refs, h) + balance(#[trigger] prefix.take(k)) >= 1 by {
            assert(prefix.take(k) =~= steps.take(k));
        }
        lemma_count_after_steps(refs, h, prefix);
        lemma_balance_bound(prefix);
        assert(steps.take(steps.len() as int) =~= steps);
        assert(steps.take(prefix.len() as int) =~= prefix);
    }
}

proof fn lemma_balance_bound(steps: Seq<OwnerStep>)
    ensures
        balance(steps) <= steps.len(),
    decreases steps.len(),
{
    if steps.len() > 0 {
        lemma_balance_bound(steps.drop_last());
    }
}

/// Letting go of the last owner destroys the object, and only that once:
/// the count is then zero, and a further release of the handle changes
/// nothing and destroys nothing.
pub proof fn lemma_last_release_destroys_once(refs: Seq<u64>, h: usize)
    requires
        count_of(refs, h) == 1,
    ensures
        is_last_owner(refs, h),
        count_of(released(refs, h), h) == 0,
        !is_last_owner(released(refs, h), h),
        released(released(refs, h), h) == released(refs, h),
{
}

/// A wait that runs out is a timeout, never a failure, and a failure is
/// never a timeout: the three outcomes stay apart.
pub proof fn lemma_outcomes_stay_apart()
    ensures
        error_of(Status::Timeout) == Error::Timeout,
        error_of(Status::Failed) == Error::Failed,
        error_of(Status::Timeout) != error_of(Status::Failed),
{
}

/// A streaming device with nothing queued yields a timeout; a device that is
/// not streaming yields a failure. Neither is a capture, so `get_capture`
/// makes no wrapper and leaves the runtime as it was.
pub proof fn lemma_capture_outcomes(api: &Api, h: usize)
    ensures
        api.device_is_open(h) && api.devices@[h - 1].cameras_running && api.devices@[h - 1].queue@.len() == 0
            ==> next_capture(api, h) == Err::<usize, Error>(Error::Timeout),
        !(api.device_is_open(h) && api.devices@[h - 1].cameras_running)
            ==> next_capture(api, h) == Err::<usize, Error>(Error::Failed),
{
}

/// A running tracker with no result queued yields a timeout; a tracker that
/// was shut down, with none queued, yields a failure.
pub proof fn lemma_result_outcomes(api: &Api, h: usize)
    requires
        api.tracker_known(h),
        api.trackers@[h - 1].results@.len() == 0,
    ensures
        api.trackers@[h - 1].running ==> next_result(api, h) == Err::<usize, Error>(Error::Timeout),
        !api.trackers@[h - 1].running ==> next_result(api, h) == Err::<usize, Error>(Error::Failed),
{
}

/// Where the size probe of an output reports `n > 0` bytes and the filling
/// call hands them back, the fetch returns exactly those bytes.
pub proof fn lemma_fetch_round_trip(api: &Api, b: Blob, content: Seq<u8>)
    requires
        api.blob_content(b) == Some(content),
        content.len() > 0,
    ensures
        fetched(api, b) == Ok::<Seq<u8>, Error>(content),
{
}

} // verus!
