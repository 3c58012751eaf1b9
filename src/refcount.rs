//! Reference counts of shared native objects.
//!
//! A table holds one count per object; the handle of an object is its
//! position in the table plus one, so that handle 0 never names an object.
//! Handles are never reused: an object whose count has dropped to zero stays
//! destroyed.
use vstd::prelude::*;

verus! {

/// The handle value that names no object.
pub const NULL_HANDLE: usize = 0;

/// Whether `h` names an object of the table that has not been destroyed.
pub open spec fn is_live(refs: Seq<u64>, h: usize) -> bool {
    1 <= h <= refs.len() && refs[h - 1] > 0
}

/// The number of owners of `h`; zero for a destroyed object or a handle
/// that names none.
pub open spec fn count_of(refs: Seq<u64>, h: usize) -> nat {
    if 1 <= h <= refs.len() {
        refs[h - 1] as nat
    } else {
        0
    }
}

/// The table after one more owner of `h` was added. A handle that names no
/// live object is left alone, and so is a count at the largest `u64`.
pub open spec fn referenced(refs: Seq<u64>, h: usize) -> Seq<u64> {
    if is_live(refs, h) && refs[h - 1] < u64::MAX {
        refs.update(h - 1, (refs[h - 1] + 1) as u64)
    } else {
        refs
    }
}

/// The table after one owner of `h` let go. A handle that names no live
/// object is left alone.
pub open spec fn released(refs: Seq<u64>, h: usize) -> Seq<u64> {
    if is_live(refs, h) {
        refs.update(h - 1, (refs[h - 1] - 1) as u64)
    } else {
        refs
    }
}

/// Whether letting go of `h` destroys it: it has exactly one owner.
pub open spec fn is_last_owner(refs: Seq<u64>, h: usize) -> bool {
    is_live(refs, h) && refs[h - 1] == 1
}

/// The table after a new object with one owner was added.
pub open spec fn allocated(refs: Seq<u64>) -> Seq<u64> {
    refs.push(1)
}

/// Adds a new object with one owner and returns its handle.
pub fn allocate_slot(refs: &mut Vec<u64>) -> (h: usize)
    requires
        old(refs).len() < usize::MAX,
    ensures
        final(refs)@ == allocated(old(refs)@),
        h == old(refs).len() + 1,
        is_live(final(refs)@, h),
{
    refs.push(1);
    refs.len()
}

/// Adds one owner to `h`.
pub fn reference_slot(refs: &mut Vec<u64>, h: usize)
    ensures
        final(refs)@ == referenced(old(refs)@, h),
{
    if h >= 1 && h <= refs.len() {
        let n = refs[h - 1];
        if n > 0 && n < u64::MAX {
            refs[h - 1] = n + 1;
        }
    }
}

/// Takes one owner away from `h`; returns whether that destroyed it.
pub fn release_slot(refs: &mut Vec<u64>, h: usize) -> (destroyed: bool)
    ensures
        final(refs)@ == released(old(refs)@, h),
        destroyed == is_last_owner(old(refs)@, h),
{
    if h >= 1 && h <= refs.len() {
        let n = refs[h - 1];
        if n > 0 {
            refs[h - 1] = n - 1;
            return n == 1;
        }
    }
    false
}

/// Whether `h` names a live object.
pub fn slot_is_live(refs: &Vec<u64>, h: usize) -> (r: bool)
    ensures
        r == is_live(refs@, h),
{
    h >= 1 && h <= refs.len() && refs[h - 1] > 0
}

} // verus!
