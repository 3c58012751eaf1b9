//! Playback entry points of the native runtime.
use vstd::prelude::*;
use crate::config::{Calibration, ColorResolution, DepthMode, ImageFormat};
use crate::error::Status;
use crate::refcount::{referenced, reference_slot, slot_is_live, NULL_HANDLE};
use crate::runtime::captures::can_share;
use crate::runtime::recording::{
    record_configuration_of, RecordConfiguration, is_conversion_format, is_latest_recording, is_latest_time, is_seek_position, plays_from, track_count,
    SeekOrigin,
};
use super::{Api, PlaybackSlot};

verus! {

/// The device time a seek aims at.
pub open spec fn seek_target(length: u64, offset: i64, origin: SeekOrigin) -> int {
    match origin {
        SeekOrigin::End => length + offset,
        _ => offset as int,
    }
}

impl Api {
    /// Playback `h` is as in `other` but for its cursor and conversion
    /// format; everything else of the runtime but the capture counts is as in
    /// `other`.
    pub open spec fn playback_moved(&self, other: &Api, h: usize) -> bool {
        &&& self.same_but_recording_tables(other)
        &&& self.recordings == other.recordings
        &&& self.playbacks@.len() == other.playbacks@.len()
        &&& forall|i: int| 0 <= i < other.playbacks.len() && i != h - 1
            ==> self.playbacks@[i] == other.playbacks@[i]
        &&& self.playbacks@[h - 1].open == other.playbacks@[h - 1].open
        &&& self.playbacks@[h - 1].recording == other.playbacks@[h - 1].recording
        &&& self.playbacks@[h - 1].block_cursors == other.playbacks@[h - 1].block_cursors
    }

    /// Opens the latest finished recording at `path` for playback, its
    /// cursor at the start.
    pub fn playback_open(&mut self, path: &str) -> (r: (Status, usize))
        requires
            old(self).wf(),
        ensures
            final(self).wf(),
            final(self).same_but_recording_tables(old(self)),
            final(self).capture_refs == old(self).capture_refs,
            final(self).recordings == old(self).recordings,
            (r.0 == Status::Succeeded) == ((exists|j: int| 0 <= j < old(self).recordings.len()
                && plays_from(#[trigger] old(self).recordings@[j], path@)) && old(self).playbacks.len() < usize::MAX),
            r.0 == Status::Succeeded ==> {
                let made = final(self).playbacks@.last();
                &&& r.1 == old(self).playbacks.len() + 1
                &&& final(self).playbacks@.drop_last() == old(self).playbacks@
                &&& is_latest_recording(old(self).recordings@, path@, made.recording as int)
                &&& made.open
                &&& made.cursor == 0
                &&& made.color_conversion == old(self).recordings@[made.recording as int].config.color_format
                &&& made.block_cursors@ == Seq::new(old(self).recordings@[made.recording as int].custom_tracks@.len(), |j: int| 0usize)
            },
            r.0 != Status::Succeeded ==> r == (Status::Failed, NULL_HANDLE) && final(self).playbacks == old(self).playbacks,
    {
        if self.playbacks.len() == usize::MAX {
            return (Status::Failed, NULL_HANDLE);
        }
        let wanted: String = path.to_owned();
        let mut i = self.recordings.len();
        while i > 0 && !(self.recordings[i - 1].path == wanted && !self.recordings[i - 1].writing)
            invariant
                i <= self.recordings.len(),
                wanted@ == path@,
                forall|j: int| i <= j < self.recordings.len() ==> !plays_from(#[trigger] self.recordings@[j], path@),
            decreases i,
        {
            i = i - 1;
        }
        if i == 0 {
            return (Status::Failed, NULL_HANDLE);
        }
        let format = self.recordings[i - 1].config.color_format;
        let n = self.recordings[i - 1].custom_tracks.len();
        let block_cursors: Vec<usize> = vec![0usize; n];
        assert(block_cursors@ =~= Seq::new(n as nat, |j: int| 0usize));
        self.playbacks.push(PlaybackSlot { open: true, recording: i - 1, cursor: 0, color_conversion: format, block_cursors });
        proof {
            assert(self.playbacks@.drop_last() =~= old(self).playbacks@);
            assert forall|k: int| 0 <= k < self.playbacks.len() implies {
                &&& #[trigger] self.playbacks@[k].recording < self.recordings.len()
                &&& self.playbacks@[k].cursor <= self.recordings@[self.playbacks@[k].recording as int].captures.len()
                &&& !self.recordings@[self.playbacks@[k].recording as int].writing
                &&& self.playbacks@[k].block_cursors@.len() == self.recordings@[self.playbacks@[k].recording as int].custom_tracks.len()
            } by {
                if k < old(self).playbacks.len() {
                    assert(self.playbacks@[k] == old(self).playbacks@[k]);
                    assert(old(self).playbacks@[k].recording < old(self).recordings.len());
                }
            }
        }
        (Status::Succeeded, self.playbacks.len())
    }

    /// Closes playback `h`.
    pub fn playback_close(&mut self, h: usize)
        requires
            old(self).wf(),
        ensures
            final(self).wf(),
            final(self).same_but_recording_tables(old(self)),
            final(self).capture_refs == old(self).capture_refs,
            final(self).recordings == old(self).recordings,
            old(self).playback_is_open(h) ==> final(self).playbacks@ == old(self).playbacks@.update(
                h - 1,
                PlaybackSlot { open: false, ..old(self).playbacks@[h - 1] },
            ),
            !old(self).playback_is_open(h) ==> final(self).playbacks == old(self).playbacks,
    {
        if h >= 1 && h <= self.playbacks.len() && self.playbacks[h - 1].open {
            self.playbacks[h - 1].open = false;
            proof { self.lemma_playbacks_wf(old(self), h); }
        }
    }

    /// Reads the capture at the cursor of playback `h` and moves the cursor
    /// past it; the caller gets a reference of its own.
    pub fn playback_next_capture(&mut self, h: usize) -> (r: (Status, usize))
        requires
            old(self).wf(),
        ensures
            final(self).wf(),
            !old(self).playback_is_open(h) ==> r == (Status::Failed, NULL_HANDLE) && *final(self) == *old(self),
            old(self).playback_is_open(h) ==> {
                let cursor = old(self).playbacks@[h - 1].cursor;
                let captures = old(self).played(h).captures@;
                if cursor == captures.len() {
                    r == (Status::Eof, NULL_HANDLE) && *final(self) == *old(self)
                } else if !can_share(old(self).capture_refs@, captures[cursor as int]) {
                    r == (Status::Failed, NULL_HANDLE) && *final(self) == *old(self)
                } else {
                    &&& r == (Status::Succeeded, captures[cursor as int])
                    &&& final(self).capture_refs@ == referenced(old(self).capture_refs@, captures[cursor as int])
                    &&& final(self).playback_moved(old(self), h)
                    &&& final(self).playbacks@[h - 1].cursor == cursor + 1
                    &&& final(self).playbacks@[h - 1].color_conversion == old(self).playbacks@[h - 1].color_conversion
                }
            },
    {
        if !(h >= 1 && h <= self.playbacks.len() && self.playbacks[h - 1].open) {
            return (Status::Failed, NULL_HANDLE);
        }
        let (cursor, k) = (self.playbacks[h - 1].cursor, self.playbacks[h - 1].recording);
        assert(self.playbacks@[h - 1].recording < self.recordings.len());
        if cursor == self.recordings[k].captures.len() {
            return (Status::Eof, NULL_HANDLE);
        }
        let c = self.recordings[k].captures[cursor];
        if !(slot_is_live(&self.capture_refs, c) && self.capture_refs[c - 1] < u64::MAX) {
            return (Status::Failed, NULL_HANDLE);
        }
        reference_slot(&mut self.capture_refs, c);
        self.playbacks[h - 1].cursor = cursor + 1;
        proof { self.lemma_playbacks_wf(old(self), h); }
        (Status::Succeeded, c)
    }

    /// Moves the cursor of playback `h` back by one and reads the capture
    /// it then points at; the caller gets a reference of its own.
    pub fn playback_previous_capture(&mut self, h: usize) -> (r: (Status, usize))
        requires
            old(self).wf(),
        ensures
            final(self).wf(),
            !old(self).playback_is_open(h) ==> r == (Status::Failed, NULL_HANDLE) && *final(self) == *old(self),
            old(self).playback_is_open(h) ==> {
                let cursor = old(self).playbacks@[h - 1].cursor;
                let captures = old(self).played(h).captures@;
                if cursor == 0 {
                    r == (Status::Eof, NULL_HANDLE) && *final(self) == *old(self)
                } else if !can_share(old(self).capture_refs@, captures[cursor - 1]) {
                    r == (Status::Failed, NULL_HANDLE) && *final(self) == *old(self)
                } else {
                    &&& r == (Status::Succeeded, captures[cursor - 1])
                    &&& final(self).capture_refs@ == referenced(old(self).capture_refs@, captures[cursor - 1])
                    &&& final(self).playback_moved(old(self), h)
                    &&& final(self).playbacks@[h - 1].cursor == cursor - 1
                    &&& final(self).playbacks@[h - 1].color_conversion == old(self).playbacks@[h - 1].color_conversion
                }
            },
    {
        if !(h >= 1 && h <= self.playbacks.len() && self.playbacks[h - 1].open) {
            return (Status::Failed, NULL_HANDLE);
        }
        let (cursor, k) = (self.playbacks[h - 1].cursor, self.playbacks[h - 1].recording);
        if cursor == 0 {
            return (Status::Eof, NULL_HANDLE);
        }
        assert(self.playbacks@[h - 1].recording < self.recordings.len());
        let c = self.recordings[k].captures[cursor - 1];
        if !(slot_is_live(&self.capture_refs, c) && self.capture_refs[c - 1] < u64::MAX) {
            return (Status::Failed, NULL_HANDLE);
        }
        reference_slot(&mut self.capture_refs, c);
        self.playbacks[h - 1].cursor = cursor - 1;
        proof { self.lemma_playbacks_wf(old(self), h); }
        (Status::Succeeded, c)
    }

    /// The device time of the latest capture of the recording that playback
    /// `h` reads; zero where it has none or the playback is not open.
    pub fn playback_length_usec(&self, h: usize) -> (r: u64)
        requires
            self.wf(),
        ensures
            self.playback_is_open(h) ==> is_latest_time(self.played(h).timestamps@, r),
            !self.playback_is_open(h) ==> r == 0,
    {
        if !(h >= 1 && h <= self.playbacks.len() && self.playbacks[h - 1].open) {
            return 0;
        }
        let k = self.playbacks[h - 1].recording;
        let ts = &self.recordings[k].timestamps;
        let mut m: u64 = 0;
        let mut i: usize = 0;
        while i < ts.len()
            invariant
                i <= ts.len(),
                forall|j: int| 0 <= j < i ==> ts@[j] <= m,
                i == 0 ==> m == 0,
                i > 0 ==> exists|j: int| 0 <= j < i && ts@[j] == m,
            decreases ts.len() - i,
        {
            if ts[i] > m {
                m = ts[i];
            } else if i == 0 {
                assert(ts@[0] == m);
            }
            i = i + 1;
        }
        m
    }

    /// Moves the cursor of playback `h` to the first capture taken at or
    /// after the target time. Fails where the target lies outside the
    /// recording.
    pub fn playback_seek(&mut self, h: usize, offset_usec: i64, origin: SeekOrigin) -> (r: Status)
        requires
            old(self).wf(),
        ensures
            final(self).wf(),
            final(self).capture_refs == old(self).capture_refs,
            !old(self).playback_is_open(h) ==> r == Status::Failed && *final(self) == *old(self),
            old(self).playback_is_open(h) ==> {
                let ts = old(self).played(h).timestamps@;
                &&& r == Status::Succeeded || r == Status::Failed
                &&& r == Status::Succeeded <==> (exists|length: u64| #[trigger] is_latest_time(ts, length)
                    && 0 <= seek_target(length, offset_usec, origin) <= length)
                &&& r == Status::Succeeded ==> {
                    &&& final(self).playback_moved(old(self), h)
                    &&& final(self).playbacks@[h - 1].color_conversion == old(self).playbacks@[h - 1].color_conversion
                    &&& forall|length: u64| #[trigger] is_latest_time(ts, length) ==>
                        is_seek_position(ts, seek_target(length, offset_usec, origin), final(self).playbacks@[h - 1].cursor as int)
                }
                &&& r == Status::Failed ==> *final(self) == *old(self)
            },
    {
        if !(h >= 1 && h <= self.playbacks.len() && self.playbacks[h - 1].open) {
            return Status::Failed;
        }
        let length = self.playback_length_usec(h);
        proof { lemma_latest_time_unique(old(self).played(h).timestamps@, length); }
        let target: u64 = match origin {
            SeekOrigin::End => {
                if offset_usec > 0 {
                    return Status::Failed;
                }
                let back: u64 = if offset_usec == i64::MIN { 0x8000_0000_0000_0000u64 } else { (0 - offset_usec) as u64 };
                if back > length {
                    return Status::Failed;
                }
                length - back
            },
            _ => {
                if offset_usec < 0 || offset_usec as u64 > length {
                    return Status::Failed;
                }
                offset_usec as u64
            },
        };
        assert(target == seek_target(length, offset_usec, origin));
        let k = self.playbacks[h - 1].recording;
        assert(self.playbacks@[h - 1].recording < self.recordings.len());
        let ts = &self.recordings[k].timestamps;
        let mut i: usize = 0;
        while i < ts.len() && ts[i] < target
            invariant
                i <= ts.len(),
                forall|j: int| 0 <= j < i ==> ts@[j] < target,
            decreases ts.len() - i,
        {
            i = i + 1;
        }
        assert(ts@.len() == self.recordings@[k as int].captures.len());
        self.playbacks[h - 1].cursor = i;
        proof { self.lemma_playbacks_wf(old(self), h); }
        Status::Succeeded
    }

    /// Sets the format that playback `h` converts color images to: BGRA32,
    /// NV12 or YUY2.
    pub fn playback_set_color_conversion(&mut self, h: usize, format: ImageFormat) -> (r: Status)
        requires
            old(self).wf(),
        ensures
            final(self).wf(),
            final(self).capture_refs == old(self).capture_refs,
            if old(self).playback_is_open(h) && is_conversion_format(format) {
                &&& r == Status::Succeeded
                &&& final(self).playback_moved(old(self), h)
                &&& final(self).playbacks@[h - 1].cursor == old(self).playbacks@[h - 1].cursor
                &&& final(self).playbacks@[h - 1].color_conversion == format
            } else {
                r == Status::Failed && *final(self) == *old(self)
            },
    {
        if !(h >= 1 && h <= self.playbacks.len() && self.playbacks[h - 1].open) {
            return Status::Failed;
        }
        if !(format == ImageFormat::ColorBgra32 || format == ImageFormat::ColorNv12 || format == ImageFormat::ColorYuy2) {
            return Status::Failed;
        }
        self.playbacks[h - 1].color_conversion = format;
        proof { self.lemma_playbacks_wf(old(self), h); }
        Status::Succeeded
    }

    /// The number of tracks of the recording that playback `h` reads; zero
    /// where the playback is not open.
    pub fn playback_track_count(&self, h: usize) -> (r: usize)
        requires
            self.wf(),
        ensures
            r == (if self.playback_is_open(h) { track_count(self.played(h)) } else { 0 }),
    {
        if !(h >= 1 && h <= self.playbacks.len() && self.playbacks[h - 1].open) {
            return 0;
        }
        let rec = &self.recordings[self.playbacks[h - 1].recording];
        let mut n: usize = 0;
        if rec.config.color_resolution != crate::config::ColorResolution::Off {
            n = n + 1;
        }
        if rec.config.depth_mode != crate::config::DepthMode::Off && rec.config.depth_mode != crate::config::DepthMode::PassiveIr {
            n = n + 1;
        }
        if rec.config.depth_mode != crate::config::DepthMode::Off {
            n = n + 1;
        }
        if rec.imu_track {
            n = n + 1;
        }
        assert(rec.custom_tracks.len() + 4 <= usize::MAX);
        n + rec.custom_tracks.len()
    }

    /// The calibration of the device that made the recording playback `h`
    /// reads, for the modes it recorded with.
    pub fn playback_calibration(&self, h: usize) -> (r: (Status, Calibration))
        requires
            self.wf(),
        ensures
            self.playback_is_open(h) ==> r == (Status::Succeeded, Calibration {
                depth_mode: self.played(h).config.depth_mode,
                color_resolution: self.played(h).config.color_resolution,
            }),
            !self.playback_is_open(h) ==> r.0 == Status::Failed,
    {
        if !(h >= 1 && h <= self.playbacks.len() && self.playbacks[h - 1].open) {
            return (Status::Failed, Calibration { depth_mode: DepthMode::Off, color_resolution: ColorResolution::Off });
        }
        let config = self.recordings[self.playbacks[h - 1].recording].config;
        (Status::Succeeded, Calibration { depth_mode: config.depth_mode, color_resolution: config.color_resolution })
    }

    /// The configuration of the recording playback `h` reads.
    pub fn playback_record_configuration(&self, h: usize) -> (r: Option<RecordConfiguration>)
        requires
            self.wf(),
        ensures
            self.playback_is_open(h) ==> r == Some(record_configuration_of(self.played(h))),
            !self.playback_is_open(h) ==> r is None,
    {
        if !(h >= 1 && h <= self.playbacks.len() && self.playbacks[h - 1].open) {
            return None;
        }
        let rec = &self.recordings[self.playbacks[h - 1].recording];
        let c = rec.config;
        Some(RecordConfiguration {
            color_format: c.color_format,
            color_resolution: c.color_resolution,
            depth_mode: c.depth_mode,
            camera_fps: c.camera_fps,
            color_track_enabled: c.color_resolution != ColorResolution::Off,
            depth_track_enabled: c.depth_mode != DepthMode::Off && c.depth_mode != DepthMode::PassiveIr,
            ir_track_enabled: c.depth_mode != DepthMode::Off,
            imu_track_enabled: rec.imu_track,
            depth_delay_off_color_usec: c.depth_delay_off_color_usec,
            wired_sync_mode: c.wired_sync_mode,
            subordinate_delay_off_master_usec: c.subordinate_delay_off_master_usec,
            start_timestamp_offset_usec: 0,
        })
    }

    pub(crate) proof fn lemma_playbacks_wf(&self, before: &Api, h: usize)
        requires
            before.wf(),
            1 <= h <= before.playbacks.len(),
            self.recordings == before.recordings,
            self.playbacks@.len() == before.playbacks@.len(),
            forall|i: int| 0 <= i < before.playbacks.len() && i != h - 1
                ==> self.playbacks@[i] == before.playbacks@[i],
            self.playbacks@[h - 1].recording == before.playbacks@[h - 1].recording,
            self.playbacks@[h - 1].cursor <= self.recordings@[self.playbacks@[h - 1].recording as int].captures.len(),
            self.playbacks@[h - 1].block_cursors@.len() == before.playbacks@[h - 1].block_cursors@.len(),
        ensures
            forall|i: int| 0 <= i < self.playbacks.len() ==> {
                &&& #[trigger] self.playbacks@[i].recording < self.recordings.len()
                &&& self.playbacks@[i].cursor <= self.recordings@[self.playbacks@[i].recording as int].captures.len()
                &&& !self.recordings@[self.playbacks@[i].recording as int].writing
                &&& self.playbacks@[i].block_cursors@.len() == self.recordings@[self.playbacks@[i].recording as int].custom_tracks.len()
            },
    {
        assert(before.playbacks@[h - 1].recording < before.recordings.len());
        assert forall|i: int| 0 <= i < self.playbacks.len() implies {
            &&& #[trigger] self.playbacks@[i].recording < self.recordings.len()
            &&& self.playbacks@[i].cursor <= self.recordings@[self.playbacks@[i].recording as int].captures.len()
            &&& !self.recordings@[self.playbacks@[i].recording as int].writing
            &&& self.playbacks@[i].block_cursors@.len() == self.recordings@[self.playbacks@[i].recording as int].custom_tracks.len()
        } by {
            if i != h - 1 {
                assert(self.playbacks@[i] == before.playbacks@[i]);
                assert(before.playbacks@[i].recording < before.recordings.len());
            }
        }
    }
}

/// A sequence of times has one latest time.
pub proof fn lemma_latest_time_unique(ts: Seq<u64>, m: u64)
    requires
        is_latest_time(ts, m),
    ensures
        forall|n: u64| #[trigger] is_latest_time(ts, n) ==> n == m,
{
    assert forall|n: u64| #[trigger] is_latest_time(ts, n) implies n == m by {
        if ts.len() > 0 {
            let j = choose|j: int| 0 <= j < ts.len() && ts[j] == n;
            let k = choose|k: int| 0 <= k < ts.len() && ts[k] == m;
            assert(ts[j] <= m);
            assert(ts[k] <= n);
        }
    }
}

} // verus!
