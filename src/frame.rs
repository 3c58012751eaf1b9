//! Wrapper of one body-tracking result.
use vstd::prelude::*;
use crate::refcount::{released, NULL_HANDLE};
use crate::runtime::Api;

verus! {

/// One body-tracking result, owned by whoever popped it; `release` gives it
/// back to the runtime.
pub struct Frame {
    handle: usize,
}

impl View for Frame {
    type V = usize;

    /// The native handle this wrapper owns; the null handle once released.
    closed spec fn view(&self) -> usize {
        self.handle
    }
}

impl Frame {
    /// The native handle this wrapper owns; the null handle once released.
    pub fn handle(&self) -> (r: usize)
        ensures
            r == self@,
    {
        self.handle
    }
    /// Wraps a handle whose reference the caller hands over.
    pub(crate) fn from_handle(handle: usize) -> (r: Frame)
        ensures
            r@ == handle,
    {
        Frame { handle }
    }

    /// Gives the frame back, once: the wrapper then holds the null handle,
    /// so that a second release does nothing.
    pub fn release(&mut self, api: &mut Api)
        requires
            old(api).wf(),
        ensures
            final(api).wf(),
            final(self)@ == NULL_HANDLE,
            final(api).same_sensor_tables(old(api)),
            final(api).frame_refs@ == released(old(api).frame_refs@, old(self)@),
            final(api).frames == old(api).frames,
            final(api).trackers == old(api).trackers,
            final(api).detections == old(api).detections,
    {
        api.frame_release(self.handle);
        self.handle = NULL_HANDLE;
    }
}

} // verus!
