//! Exclusively owned wrapper of a body tracker.
use vstd::prelude::*;
use crate::body::{Body, Skeleton, INVALID_BODY_ID};
use crate::config::{tracker_supported, Calibration, TrackerConfiguration};
use crate::error::Error;
use crate::frame::Frame;
use crate::refcount::NULL_HANDLE;
use crate::runtime::tracking::released_all;
use crate::runtime::{Api, TRACKER_QUEUE_CAPACITY};

verus! {

/// What handing a capture to tracker `h` yields: a failure where the
/// tracker is shut down or the capture is not live, a timeout where its
/// result queue is full.
pub open spec fn enqueue_outcome(api: &Api, h: usize, capture: usize) -> Result<(), Error> {
    if !(api.tracker_running(h) && api.capture_live(capture) && api.frames.len() < usize::MAX) {
        Err(Error::Failed)
    } else if api.trackers@[h - 1].results.len() >= TRACKER_QUEUE_CAPACITY {
        Err(Error::Timeout)
    } else {
        Ok(())
    }
}

/// What popping a result of tracker `h` yields: the oldest result; a
/// timeout where none is queued and the tracker runs; a failure otherwise.
pub open spec fn next_result(api: &Api, h: usize) -> Result<usize, Error> {
    if !api.tracker_known(h) {
        Err(Error::Failed)
    } else if api.trackers@[h - 1].results@.len() == 0 {
        if api.trackers@[h - 1].running {
            Err(Error::Timeout)
        } else {
            Err(Error::Failed)
        }
    } else {
        Ok(api.trackers@[h - 1].results@[0])
    }
}

/// The handles of a result pop.
pub open spec fn frame_view(r: Result<Frame, Error>) -> Result<usize, Error> {
    match r {
        Ok(f) => Ok(f@),
        Err(e) => Err(e),
    }
}

/// Whether body `index` of frame `f` exists.
pub open spec fn has_body(api: &Api, f: usize, index: u32) -> bool {
    api.frame_live(f) && index < api.frame_at(f).bodies.len()
}

/// A body tracker. It is owned by whoever created it; `release` shuts it
/// down.
pub struct Tracker {
    handle: usize,
}

impl View for Tracker {
    type V = usize;

    /// The native handle this wrapper owns; the null handle once released.
    closed spec fn view(&self) -> usize {
        self.handle
    }
}

impl Tracker {
    /// The native handle this wrapper owns; the null handle once released.
    pub fn handle(&self) -> (r: usize)
        ensures
            r == self@,
    {
        self.handle
    }
    /// Creates a tracker for a device with this calibration.
    pub fn new(api: &mut Api, sensor_calibration: &Calibration, config: TrackerConfiguration) -> (r: Result<Tracker, Error>)
        requires
            old(api).wf(),
        ensures
            final(api).wf(),
            final(api).same_sensor_tables(old(api)),
            final(api).frame_refs == old(api).frame_refs,
            final(api).frames == old(api).frames,
            final(api).detections == old(api).detections,
            if tracker_supported(*sensor_calibration, config) && old(api).trackers.len() < usize::MAX {
                &&& r matches Ok(t) && t@ == old(api).trackers.len() + 1
                &&& final(api).trackers@.len() == old(api).trackers@.len() + 1
                &&& final(api).trackers@.drop_last() == old(api).trackers@
                &&& final(api).trackers@.last().running
                &&& final(api).trackers@.last().calibration == *sensor_calibration
                &&& final(api).trackers@.last().config == config
                &&& final(api).trackers@.last().results@.len() == 0
            } else {
                &&& r matches Err(e) && e == Error::Failed
                &&& final(api).trackers == old(api).trackers
            },
    {
        let (status, handle) = api.tracker_create(sensor_calibration, config);
        if status.is_success() {
            Ok(Tracker { handle })
        } else {
            Err(Error::from_status(status))
        }
    }

    /// Shuts the tracker down, once, and lets go of the results it still
    /// held: the wrapper then holds the null handle, so that a second release
    /// does nothing.
    pub fn release(&mut self, api: &mut Api)
        requires
            old(api).wf(),
        ensures
            final(api).wf(),
            final(self)@ == NULL_HANDLE,
            final(api).same_sensor_tables(old(api)),
            final(api).frames == old(api).frames,
            final(api).detections == old(api).detections,
            old(api).tracker_known(old(self)@) ==> {
                let h = old(self)@;
                &&& final(api).frame_refs@ == released_all(old(api).frame_refs@, old(api).trackers@[h - 1].results@)
                &&& !final(api).trackers@[h - 1].running
                &&& final(api).trackers@[h - 1].results@.len() == 0
            },
            !old(api).tracker_known(old(self)@) ==> final(api).frame_refs == old(api).frame_refs
                && final(api).trackers == old(api).trackers,
    {
        api.tracker_shutdown(self.handle);
        self.handle = NULL_HANDLE;
    }

    /// Hands a capture to the tracker's input, waiting up to
    /// `timeout_in_ms` milliseconds for room. The tracker keeps no reference
    /// to the capture: its result is queued as soon as it is taken in.
    pub fn enqueue_capture(&self, api: &mut Api, sensor_capture_handle: usize, timeout_in_ms: i32) -> (r: Result<(), Error>)
        requires
            old(api).wf(),
        ensures
            final(api).wf(),
            final(api).same_sensor_tables(old(api)),
            r == enqueue_outcome(old(api), self@, sensor_capture_handle),
            r is Err ==> *final(api) == *old(api),
            r is Ok ==> {
                let h = self@;
                &&& final(api).frame_refs@ == crate::refcount::allocated(old(api).frame_refs@)
                &&& final(api).frames@.drop_last() == old(api).frames@
                &&& final(api).frames@.last().bodies@ == (if old(api).detections.len() > 0 {
                    old(api).detections@[0]@
                } else {
                    Seq::empty()
                })
                &&& final(api).trackers@[h - 1].results@ == old(api).trackers@[h - 1].results@.push(
                    (old(api).frames.len() + 1) as usize,
                )
                &&& final(api).trackers@[h - 1].running
            },
    {
        let status = api.tracker_enqueue_capture(self.handle, sensor_capture_handle, timeout_in_ms);
        status.to_result(())
    }

    /// Pops the oldest result, waiting up to `timeout_in_ms` milliseconds. A
    /// timeout and a failure are told apart, and neither makes a wrapper or
    /// changes the runtime.
    pub fn pop_result(&self, api: &mut Api, timeout_in_ms: i32) -> (r: Result<Frame, Error>)
        requires
            old(api).wf(),
        ensures
            final(api).wf(),
            frame_view(r) == next_result(old(api), self@),
            r is Err ==> *final(api) == *old(api),
            r is Ok ==> {
                let results = old(api).trackers@[self@ - 1].results@;
                &&& final(api).same_sensor_tables(old(api))
                &&& final(api).frame_refs == old(api).frame_refs
                &&& final(api).frames == old(api).frames
                &&& final(api).detections == old(api).detections
                &&& final(api).recordings == old(api).recordings
                &&& final(api).playbacks == old(api).playbacks
                &&& final(api).trackers@[self@ - 1].results@ == results.subrange(1, results.len() as int)
            },
    {
        let (status, handle) = api.tracker_pop_result(self.handle, timeout_in_ms);
        if status.is_success() {
            Ok(Frame::from_handle(handle))
        } else {
            Err(Error::from_status(status))
        }
    }

    /// The number of bodies in a result.
    pub fn get_num_bodies(&self, api: &Api, body_frame: &Frame) -> (r: u32)
        requires
            api.wf(),
        ensures
            r == (if api.frame_live(body_frame@) { api.frame_at(body_frame@).bodies.len() } else { 0 }),
    {
        api.frame_num_bodies(body_frame.handle())
    }

    /// Body `index` of a result, copied out: it stays valid after the frame
    /// is released.
    pub fn get_body(&self, api: &Api, body_frame: &Frame, index: u32) -> (r: Result<Body, Error>)
        requires
            api.wf(),
        ensures
            has_body(api, body_frame@, index) ==> r == Ok::<Body, Error>(api.frame_at(body_frame@).bodies@[index as int]),
            !has_body(api, body_frame@, index) ==> r == Err::<Body, Error>(Error::Failed),
    {
        let id = self.get_body_id(api, body_frame, index);
        match self.get_body_skeleton(api, body_frame, index) {
            Ok(skeleton) => Ok(Body { id, skeleton }),
            Err(e) => Err(e),
        }
    }

    /// The skeleton of body `index` of a result, copied out.
    pub fn get_body_skeleton(&self, api: &Api, body_frame: &Frame, index: u32) -> (r: Result<Skeleton, Error>)
        requires
            api.wf(),
        ensures
            has_body(api, body_frame@, index) ==> r == Ok::<Skeleton, Error>(
                api.frame_at(body_frame@).bodies@[index as int].skeleton,
            ),
            !has_body(api, body_frame@, index) ==> r == Err::<Skeleton, Error>(Error::Failed),
    {
        match api.frame_body_skeleton(body_frame.handle(), index) {
            Some(skeleton) => Ok(skeleton),
            None => Err(Error::Failed),
        }
    }

    /// The id of body `index` of a result; `INVALID_BODY_ID` where there is
    /// no such body.
    pub fn get_body_id(&self, api: &Api, body_frame: &Frame, index: u32) -> (r: u32)
        requires
            api.wf(),
        ensures
            r == (if has_body(api, body_frame@, index) {
                api.frame_at(body_frame@).bodies@[index as int].id
            } else {
                INVALID_BODY_ID
            }),
    {
        api.frame_body_id(body_frame.handle(), index)
    }

    /// The device time of a result in microseconds; zero for a frame that
    /// is not live.
    pub fn get_device_timestamp_usec(&self, api: &Api, body_frame: &Frame) -> (r: u64)
        requires
            api.wf(),
        ensures
            r == (if api.frame_live(body_frame@) { api.frame_at(body_frame@).device_timestamp_usec } else { 0 }),
    {
        api.frame_device_timestamp_usec(body_frame.handle())
    }
}

} // verus!
