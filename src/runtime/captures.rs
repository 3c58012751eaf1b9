//! Capture entry points of the native runtime.
use vstd::prelude::*;
use crate::error::Status;
use crate::refcount::{
    allocate_slot, allocated, is_last_owner, is_live, referenced, reference_slot, release_slot,
    released, slot_is_live, NULL_HANDLE,
};
use super::{Api, CaptureSlot};

verus! {

/// The three images a capture may hold.
#[derive(Clone, Copy, Debug, PartialEq, Eq, Structural)]
pub enum ImageKind {
    Color,
    Depth,
    Ir,
}

/// The handle of the image of kind `k` in a capture; null where it has none.
pub open spec fn image_of(s: CaptureSlot, k: ImageKind) -> usize {
    match k {
        ImageKind::Color => s.color,
        ImageKind::Depth => s.depth,
        ImageKind::Ir => s.ir,
    }
}

/// The capture with its image of kind `k` replaced by `h`.
pub open spec fn with_image(s: CaptureSlot, k: ImageKind, h: usize) -> CaptureSlot {
    match k {
        ImageKind::Color => CaptureSlot { color: h, ..s },
        ImageKind::Depth => CaptureSlot { depth: h, ..s },
        ImageKind::Ir => CaptureSlot { ir: h, ..s },
    }
}

/// Whether one more reference to image `h` can be taken: it is live and its
/// count is below the largest `u64`.
pub open spec fn can_share(refs: Seq<u64>, h: usize) -> bool {
    is_live(refs, h) && refs[h - 1] < u64::MAX
}

/// The image counts after a capture that held `s` was destroyed.
pub open spec fn images_of_released(refs: Seq<u64>, s: CaptureSlot) -> Seq<u64> {
    released(released(released(refs, s.color), s.depth), s.ir)
}

fn can_share_exec(refs: &Vec<u64>, h: usize) -> (r: bool)
    ensures
        r == can_share(refs@, h),
{
    slot_is_live(refs, h) && refs[h - 1] < u64::MAX
}

impl Api {
    pub open spec fn capture_live(&self, h: usize) -> bool {
        is_live(self.capture_refs@, h)
    }

    pub open spec fn capture_at(&self, h: usize) -> CaptureSlot {
        self.captures@[h - 1]
    }

    /// Creates a capture that holds no image yet.
    pub fn capture_create(&mut self) -> (r: (Status, usize))
        requires
            old(self).wf(),
        ensures
            final(self).wf(),
            final(self).same_but_images_and_captures(old(self)),
            final(self).image_refs == old(self).image_refs,
            final(self).images == old(self).images,
            old(self).captures.len() < usize::MAX ==> {
                &&& r == (Status::Succeeded, (old(self).captures.len() + 1) as usize)
                &&& final(self).capture_refs@ == allocated(old(self).capture_refs@)
                &&& final(self).captures@ == old(self).captures@.push(
                    CaptureSlot { color: NULL_HANDLE, depth: NULL_HANDLE, ir: NULL_HANDLE },
                )
            },
            old(self).captures.len() == usize::MAX ==> {
                &&& r == (Status::Failed, NULL_HANDLE)
                &&& final(self).capture_refs == old(self).capture_refs
                &&& final(self).captures == old(self).captures
            },
    {
        if self.captures.len() == usize::MAX {
            return (Status::Failed, NULL_HANDLE);
        }
        self.captures.push(CaptureSlot { color: NULL_HANDLE, depth: NULL_HANDLE, ir: NULL_HANDLE });
        let h = allocate_slot(&mut self.capture_refs);
        (Status::Succeeded, h)
    }

    /// Adds an owner to capture `h`.
    pub fn capture_reference(&mut self, h: usize)
        requires
            old(self).wf(),
        ensures
            final(self).wf(),
            final(self).same_but_images_and_captures(old(self)),
            final(self).capture_refs@ == referenced(old(self).capture_refs@, h),
            final(self).captures == old(self).captures,
            final(self).image_refs == old(self).image_refs,
            final(self).images == old(self).images,
    {
        reference_slot(&mut self.capture_refs, h);
    }

    /// Takes an owner away from capture `h`. The last one destroys it, and
    /// with it the capture's references to its images.
    pub fn capture_release(&mut self, h: usize) -> (destroyed: bool)
        requires
            old(self).wf(),
        ensures
            final(self).wf(),
            final(self).same_but_images_and_captures(old(self)),
            final(self).capture_refs@ == released(old(self).capture_refs@, h),
            destroyed == is_last_owner(old(self).capture_refs@, h),
            final(self).captures == old(self).captures,
            final(self).images == old(self).images,
            destroyed ==> final(self).image_refs@ == images_of_released(old(self).image_refs@, old(self).capture_at(h)),
            !destroyed ==> final(self).image_refs == old(self).image_refs,
    {
        let destroyed = release_slot(&mut self.capture_refs, h);
        if destroyed {
            let held = self.captures[h - 1];
            release_slot(&mut self.image_refs, held.color);
            release_slot(&mut self.image_refs, held.depth);
            release_slot(&mut self.image_refs, held.ir);
        }
        destroyed
    }

    /// The image of kind `k` of capture `h`, with one more reference taken
    /// for the caller; null where there is none to take.
    pub fn capture_get_image(&mut self, h: usize, k: ImageKind) -> (r: usize)
        requires
            old(self).wf(),
        ensures
            final(self).wf(),
            final(self).same_but_images_and_captures(old(self)),
            final(self).capture_refs == old(self).capture_refs,
            final(self).captures == old(self).captures,
            final(self).images == old(self).images,
            ({
                let img = if old(self).capture_live(h) { image_of(old(self).capture_at(h), k) } else { NULL_HANDLE };
                if can_share(old(self).image_refs@, img) {
                    r == img && final(self).image_refs@ == referenced(old(self).image_refs@, img)
                } else {
                    r == NULL_HANDLE && final(self).image_refs == old(self).image_refs
                }
            }),
    {
        if !slot_is_live(&self.capture_refs, h) {
            return NULL_HANDLE;
        }
        let held = self.captures[h - 1];
        let img = match k {
            ImageKind::Color => held.color,
            ImageKind::Depth => held.depth,
            ImageKind::Ir => held.ir,
        };
        if can_share_exec(&self.image_refs, img) {
            reference_slot(&mut self.image_refs, img);
            img
        } else {
            NULL_HANDLE
        }
    }

    /// Puts image `img` into capture `h` as its image of kind `k`: the
    /// capture takes a reference to the new image and lets go of the one it
    /// held. A handle that names no live image empties that place.
    pub fn capture_set_image(&mut self, h: usize, k: ImageKind, img: usize)
        requires
            old(self).wf(),
        ensures
            final(self).wf(),
            final(self).same_but_images_and_captures(old(self)),
            final(self).capture_refs == old(self).capture_refs,
            final(self).images == old(self).images,
            old(self).capture_live(h) ==> {
                let taken = if can_share(old(self).image_refs@, img) { img } else { NULL_HANDLE };
                let before = image_of(old(self).capture_at(h), k);
                &&& final(self).image_refs@ == released(referenced(old(self).image_refs@, taken), before)
                &&& final(self).captures@ == old(self).captures@.update(h - 1, with_image(old(self).capture_at(h), k, taken))
            },
            !old(self).capture_live(h) ==> {
                &&& final(self).image_refs == old(self).image_refs
                &&& final(self).captures == old(self).captures
            },
    {
        if !slot_is_live(&self.capture_refs, h) {
            return;
        }
        let taken = if can_share_exec(&self.image_refs, img) { img } else { NULL_HANDLE };
        reference_slot(&mut self.image_refs, taken);
        let held = self.captures[h - 1];
        let before = match k {
            ImageKind::Color => held.color,
            ImageKind::Depth => held.depth,
            ImageKind::Ir => held.ir,
        };
        release_slot(&mut self.image_refs, before);
        let updated = match k {
            ImageKind::Color => CaptureSlot { color: taken, ..held },
            ImageKind::Depth => CaptureSlot { depth: taken, ..held },
            ImageKind::Ir => CaptureSlot { ir: taken, ..held },
        };
        self.captures.set(h - 1, updated);
    }
}

} // verus!
