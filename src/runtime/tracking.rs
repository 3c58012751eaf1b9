//! Body-tracking entry points of the native runtime: trackers, their result
//! queues, and the result frames.
use vstd::prelude::*;
use crate::body::{Body, Skeleton, INVALID_BODY_ID};
use crate::config::{tracker_supported, Calibration, TrackerConfiguration};
use crate::error::Status;
use crate::refcount::{
    allocate_slot, allocated, is_last_owner, is_live, referenced, reference_slot, release_slot,
    released, slot_is_live, NULL_HANDLE,
};
use super::{Api, FrameSlot, TrackerSlot, TRACKER_QUEUE_CAPACITY};

verus! {

/// The counts after one owner of each of `hs` let go, in order.
pub open spec fn released_all(refs: Seq<u64>, hs: Seq<usize>) -> Seq<u64>
    decreases hs.len(),
{
    if hs.len() == 0 {
        refs
    } else {
        released(released_all(refs, hs.drop_last()), hs.last())
    }
}

impl Api {
    /// Everything the tracking entry points never touch is as in `other`.
    pub open spec fn same_sensor_tables(&self, other: &Api) -> bool {
        &&& self.devices == other.devices
        &&& self.image_refs == other.image_refs
        &&& self.images == other.images
        &&& self.capture_refs == other.capture_refs
        &&& self.captures == other.captures
        &&& self.recordings == other.recordings
        &&& self.playbacks == other.playbacks
    }

    pub open spec fn tracker_known(&self, h: usize) -> bool {
        1 <= h <= self.trackers.len()
    }

    pub open spec fn tracker_running(&self, h: usize) -> bool {
        self.tracker_known(h) && self.trackers@[h - 1].running
    }

    pub open spec fn frame_live(&self, h: usize) -> bool {
        is_live(self.frame_refs@, h)
    }

    pub open spec fn frame_at(&self, h: usize) -> FrameSlot {
        self.frames@[h - 1]
    }

    /// The inference engine will report `bodies` for the next capture a
    /// tracker takes in, after those already lined up.
    pub fn queue_detection(&mut self, bodies: Vec<Body>)
        requires
            old(self).wf(),
            bodies.len() <= u32::MAX,
        ensures
            final(self).wf(),
            final(self).detections@ == old(self).detections@.push(bodies),
            final(self).same_sensor_tables(old(self)),
            final(self).frame_refs == old(self).frame_refs,
            final(self).frames == old(self).frames,
            final(self).trackers == old(self).trackers,
    {
        self.detections.push(bodies);
        proof {
            assert forall|i: int| 0 <= i < self.detections.len() implies #[trigger] self.detections@[i].len() <= u32::MAX by {
                if i < old(self).detections.len() {
                    assert(self.detections@[i] == old(self).detections@[i]);
                }
            }
        }
    }

    /// Creates a running tracker for a device with this calibration.
    pub fn tracker_create(&mut self, calibration: &Calibration, config: TrackerConfiguration) -> (r: (Status, usize))
        requires
            old(self).wf(),
        ensures
            final(self).wf(),
            final(self).same_sensor_tables(old(self)),
            final(self).frame_refs == old(self).frame_refs,
            final(self).frames == old(self).frames,
            final(self).detections == old(self).detections,
            if tracker_supported(*calibration, config) && old(self).trackers.len() < usize::MAX {
                &&& r == (Status::Succeeded, (old(self).trackers.len() + 1) as usize)
                &&& final(self).trackers@.len() == old(self).trackers@.len() + 1
                &&& final(self).trackers@.drop_last() == old(self).trackers@
                &&& final(self).trackers@.last().running
                &&& final(self).trackers@.last().calibration == *calibration
                &&& final(self).trackers@.last().config == config
                &&& final(self).trackers@.last().results@.len() == 0
            } else {
                &&& r == (Status::Failed, NULL_HANDLE)
                &&& final(self).trackers == old(self).trackers
            },
    {
        if self.trackers.len() == usize::MAX || !calibration.supports_tracking(&config) {
            return (Status::Failed, NULL_HANDLE);
        }
        self.trackers.push(TrackerSlot { running: true, calibration: *calibration, config, results: Vec::new() });
        assert(self.trackers@.drop_last() =~= old(self).trackers@);
        (Status::Succeeded, self.trackers.len())
    }

    /// Hands capture `capture` to a running tracker. The inference result,
    /// holding the next lined-up detection (or no body where none is lined
    /// up) and the device time of the capture's depth image, joins the end of
    /// the tracker's result queue. A full queue reports a timeout whatever the
    /// wait: this runtime never blocks.
    pub fn tracker_enqueue_capture(&mut self, h: usize, capture: usize, timeout_in_ms: i32) -> (r: Status)
        requires
            old(self).wf(),
        ensures
            final(self).wf(),
            final(self).same_sensor_tables(old(self)),
            !(old(self).tracker_running(h) && old(self).capture_live(capture) && old(self).frames.len() < usize::MAX) ==> {
                &&& r == Status::Failed
                &&& *final(self) == *old(self)
            },
            old(self).tracker_running(h) && old(self).capture_live(capture) && old(self).frames.len() < usize::MAX
                && old(self).trackers@[h - 1].results.len() >= TRACKER_QUEUE_CAPACITY ==> {
                &&& r == Status::Timeout
                &&& *final(self) == *old(self)
            },
            old(self).tracker_running(h) && old(self).capture_live(capture) && old(self).frames.len() < usize::MAX
                && old(self).trackers@[h - 1].results.len() < TRACKER_QUEUE_CAPACITY ==> {
                let frame = (old(self).frames.len() + 1) as usize;
                let depth = old(self).capture_at(capture).depth;
                &&& r == Status::Succeeded
                &&& final(self).frame_refs@ == allocated(old(self).frame_refs@)
                &&& final(self).frames@.drop_last() == old(self).frames@
                &&& final(self).frames@.last().bodies@ == (if old(self).detections.len() > 0 {
                    old(self).detections@[0]@
                } else {
                    Seq::empty()
                })
                &&& final(self).frames@.last().device_timestamp_usec == (if old(self).image_live(depth) {
                    old(self).image_at(depth).device_timestamp_usec
                } else {
                    0
                })
                &&& final(self).detections@ == (if old(self).detections.len() > 0 {
                    old(self).detections@.subrange(1, old(self).detections.len() as int)
                } else {
                    old(self).detections@
                })
                &&& final(self).trackers@.len() == old(self).trackers@.len()
                &&& forall|i: int| 0 <= i < old(self).trackers.len() && i != h - 1
                    ==> final(self).trackers@[i] == old(self).trackers@[i]
                &&& final(self).trackers@[h - 1].running
                &&& final(self).trackers@[h - 1].calibration == old(self).trackers@[h - 1].calibration
                &&& final(self).trackers@[h - 1].config == old(self).trackers@[h - 1].config
                &&& final(self).trackers@[h - 1].results@ == old(self).trackers@[h - 1].results@.push(frame)
            },
    {
        if !(h >= 1 && h <= self.trackers.len() && self.trackers[h - 1].running)
            || !slot_is_live(&self.capture_refs, capture) || self.frames.len() == usize::MAX {
            return Status::Failed;
        }
        if self.trackers[h - 1].results.len() >= TRACKER_QUEUE_CAPACITY {
            return Status::Timeout;
        }
        let bodies = if self.detections.len() > 0 {
            self.detections.remove(0)
        } else {
            Vec::new()
        };
        let depth = self.captures[capture - 1].depth;
        let stamp = if slot_is_live(&self.image_refs, depth) {
            self.images[depth - 1].device_timestamp_usec
        } else {
            0
        };
        self.frames.push(FrameSlot { bodies, device_timestamp_usec: stamp });
        let frame = allocate_slot(&mut self.frame_refs);
        self.trackers[h - 1].results.push(frame);
        proof {
            assert(self.frames@.drop_last() =~= old(self).frames@);
            if old(self).detections.len() > 0 {
                assert(self.detections@ =~= old(self).detections@.subrange(1, old(self).detections.len() as int));
                assert(old(self).detections@[0].len() <= u32::MAX);
            }
            assert forall|i: int| 0 <= i < self.frames.len() implies #[trigger] self.frames@[i].bodies.len() <= u32::MAX by {
                if i < old(self).frames.len() {
                    assert(self.frames@[i] == old(self).frames@[i]);
                }
            }
            assert forall|i: int| 0 <= i < self.detections.len() implies #[trigger] self.detections@[i].len() <= u32::MAX by {
                assert(self.detections@[i] == old(self).detections@[i + 1]);
            }
        }
        Status::Succeeded
    }

    /// Takes the oldest result off a tracker's queue; ownership of the frame
    /// passes to the caller. An empty queue reports a timeout while the
    /// tracker runs and a failure once it was shut down.
    pub fn tracker_pop_result(&mut self, h: usize, timeout_in_ms: i32) -> (r: (Status, usize))
        requires
            old(self).wf(),
        ensures
            final(self).wf(),
            final(self).same_sensor_tables(old(self)),
            final(self).frame_refs == old(self).frame_refs,
            final(self).frames == old(self).frames,
            final(self).detections == old(self).detections,
            !old(self).tracker_known(h) ==> r == (Status::Failed, NULL_HANDLE) && final(self).trackers == old(self).trackers,
            old(self).tracker_known(h) ==> {
                let results = old(self).trackers@[h - 1].results@;
                if results.len() == 0 {
                    &&& r == (if old(self).trackers@[h - 1].running { Status::Timeout } else { Status::Failed }, NULL_HANDLE)
                    &&& final(self).trackers == old(self).trackers
                } else {
                    &&& r == (Status::Succeeded, results[0])
                    &&& final(self).trackers@.len() == old(self).trackers@.len()
                    &&& forall|i: int| 0 <= i < old(self).trackers.len() && i != h - 1
                        ==> final(self).trackers@[i] == old(self).trackers@[i]
                    &&& final(self).trackers@[h - 1].running == old(self).trackers@[h - 1].running
                    &&& final(self).trackers@[h - 1].calibration == old(self).trackers@[h - 1].calibration
                    &&& final(self).trackers@[h - 1].config == old(self).trackers@[h - 1].config
                    &&& final(self).trackers@[h - 1].results@ == results.subrange(1, results.len() as int)
                }
            },
    {
        if !(h >= 1 && h <= self.trackers.len()) {
            return (Status::Failed, NULL_HANDLE);
        }
        if self.trackers[h - 1].results.len() == 0 {
            if self.trackers[h - 1].running {
                return (Status::Timeout, NULL_HANDLE);
            } else {
                return (Status::Failed, NULL_HANDLE);
            }
        }
        let frame = self.trackers[h - 1].results.remove(0);
        assert(self.trackers@[h - 1].results@ =~= old(self).trackers@[h - 1].results@.subrange(
            1,
            old(self).trackers@[h - 1].results@.len() as int,
        ));
        (Status::Succeeded, frame)
    }

    /// Stops a tracker from taking more input and lets go of the results it
    /// still held.
    pub fn tracker_shutdown(&mut self, h: usize)
        requires
            old(self).wf(),
        ensures
            final(self).wf(),
            final(self).same_sensor_tables(old(self)),
            final(self).frames == old(self).frames,
            final(self).detections == old(self).detections,
            old(self).tracker_known(h) ==> {
                &&& final(self).frame_refs@ == released_all(old(self).frame_refs@, old(self).trackers@[h - 1].results@)
                &&& final(self).trackers@.len() == old(self).trackers@.len()
                &&& forall|i: int| 0 <= i < old(self).trackers.len() && i != h - 1
                    ==> final(self).trackers@[i] == old(self).trackers@[i]
                &&& !final(self).trackers@[h - 1].running
                &&& final(self).trackers@[h - 1].calibration == old(self).trackers@[h - 1].calibration
                &&& final(self).trackers@[h - 1].config == old(self).trackers@[h - 1].config
                &&& final(self).trackers@[h - 1].results@.len() == 0
            },
            !old(self).tracker_known(h) ==> *final(self) == *old(self),
    {
        if !(h >= 1 && h <= self.trackers.len()) {
            return;
        }
        self.trackers[h - 1].running = false;
        let n = self.trackers[h - 1].results.len();
        let mut i: usize = 0;
        while i < n
            invariant
                self.wf(),
                self.same_sensor_tables(old(self)),
                self.frames == old(self).frames,
                self.detections == old(self).detections,
                1 <= h <= self.trackers.len(),
                self.trackers@.len() == old(self).trackers@.len(),
                forall|j: int| 0 <= j < old(self).trackers.len() && j != h - 1
                    ==> self.trackers@[j] == old(self).trackers@[j],
                !self.trackers@[h - 1].running,
                self.trackers@[h - 1].calibration == old(self).trackers@[h - 1].calibration,
                self.trackers@[h - 1].config == old(self).trackers@[h - 1].config,
                self.trackers@[h - 1].results@ == old(self).trackers@[h - 1].results@,
                n == old(self).trackers@[h - 1].results@.len(),
                i <= n,
                self.frame_refs@ == released_all(old(self).frame_refs@, old(self).trackers@[h - 1].results@.take(i as int)),
            decreases n - i,
        {
            let frame = self.trackers[h - 1].results[i];
            release_slot(&mut self.frame_refs, frame);
            proof {
                let all = old(self).trackers@[h - 1].results@;
                assert(all.take(i + 1).drop_last() =~= all.take(i as int));
            }
            i = i + 1;
        }
        self.trackers[h - 1].results.clear();
        assert(old(self).trackers@[h - 1].results@.take(n as int) =~= old(self).trackers@[h - 1].results@);
    }

    /// Adds an owner to result frame `h`.
    pub fn frame_reference(&mut self, h: usize)
        requires
            old(self).wf(),
        ensures
            final(self).wf(),
            final(self).same_sensor_tables(old(self)),
            final(self).frame_refs@ == referenced(old(self).frame_refs@, h),
            final(self).frames == old(self).frames,
            final(self).trackers == old(self).trackers,
            final(self).detections == old(self).detections,
    {
        reference_slot(&mut self.frame_refs, h);
    }

    /// Takes an owner away from result frame `h`; the last one destroys it.
    pub fn frame_release(&mut self, h: usize) -> (destroyed: bool)
        requires
            old(self).wf(),
        ensures
            final(self).wf(),
            final(self).same_sensor_tables(old(self)),
            final(self).frame_refs@ == released(old(self).frame_refs@, h),
            destroyed == is_last_owner(old(self).frame_refs@, h),
            final(self).frames == old(self).frames,
            final(self).trackers == old(self).trackers,
            final(self).detections == old(self).detections,
    {
        release_slot(&mut self.frame_refs, h)
    }

    /// The number of bodies in result frame `h`; zero for a handle that
    /// names no live frame.
    pub fn frame_num_bodies(&self, h: usize) -> (r: u32)
        requires
            self.wf(),
        ensures
            r == (if self.frame_live(h) { self.frame_at(h).bodies.len() } else { 0 }),
    {
        if slot_is_live(&self.frame_refs, h) {
            self.frames[h - 1].bodies.len() as u32
        } else {
            0
        }
    }

    /// The skeleton of body `index` of result frame `h`, copied out.
    pub fn frame_body_skeleton(&self, h: usize, index: u32) -> (r: Option<Skeleton>)
        requires
            self.wf(),
        ensures
            self.frame_live(h) && index < self.frame_at(h).bodies.len() ==> r == Some(
                self.frame_at(h).bodies@[index as int].skeleton,
            ),
            !(self.frame_live(h) && index < self.frame_at(h).bodies.len()) ==> r is None,
    {
        if slot_is_live(&self.frame_refs, h) && (index as usize) < self.frames[h - 1].bodies.len() {
            Some(self.frames[h - 1].bodies[index as usize].skeleton)
        } else {
            None
        }
    }

    /// The id of body `index` of result frame `h`; the invalid id where
    /// there is no such body.
    pub fn frame_body_id(&self, h: usize, index: u32) -> (r: u32)
        requires
            self.wf(),
        ensures
            r == (if self.frame_live(h) && index < self.frame_at(h).bodies.len() {
                self.frame_at(h).bodies@[index as int].id
            } else {
                INVALID_BODY_ID
            }),
    {
        if slot_is_live(&self.frame_refs, h) && (index as usize) < self.frames[h - 1].bodies.len() {
            self.frames[h - 1].bodies[index as usize].id
        } else {
            INVALID_BODY_ID
        }
    }

    /// The device time of result frame `h`; zero for a handle that names no
    /// live frame.
    pub fn frame_device_timestamp_usec(&self, h: usize) -> (r: u64)
        requires
            self.wf(),
        ensures
            r == (if self.frame_live(h) { self.frame_at(h).device_timestamp_usec } else { 0 }),
    {
        if slot_is_live(&self.frame_refs, h) {
            self.frames[h - 1].device_timestamp_usec
        } else {
            0
        }
    }
}

} // verus!
