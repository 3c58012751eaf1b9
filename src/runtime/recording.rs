//! Recording and playback entry points of the native runtime.
//!
//! A recording holds the captures written to it, each with the device time
//! it was taken at; a playback session reads them back in order from a
//! cursor.
use vstd::prelude::*;
use crate::config::{ColorResolution, DepthMode, DeviceConfiguration, Fps, ImageFormat, WiredSyncMode};
use crate::error::Status;
use crate::refcount::{referenced, reference_slot, slot_is_live, NULL_HANDLE};
use vstd::slice::slice_to_vec;
use vstd::string::StringSliceAdditionalSpecFns;
use crate::runtime::captures::can_share;
use super::{Api, RecordingSlot};

verus! {

/// Where a seek counts its offset from.
#[derive(Clone, Copy, Debug, PartialEq, Eq, Structural)]
pub enum SeekOrigin {
    /// The start of the recording.
    Begin,
    /// The end of the recording (the offset is then at most zero).
    End,
    /// Device time zero.
    DeviceTime,
}

/// The device time of a capture: that of its depth image, else that of its
/// color image, else zero.
pub open spec fn capture_time(api: &Api, c: usize) -> u64 {
    let s = api.capture_at(c);
    if api.image_live(s.depth) {
        api.image_at(s.depth).device_timestamp_usec
    } else if api.image_live(s.color) {
        api.image_at(s.color).device_timestamp_usec
    } else {
        0
    }
}

/// `m` is the latest of the times `ts`, or zero where there are none.
pub open spec fn is_latest_time(ts: Seq<u64>, m: u64) -> bool {
    &&& forall|j: int| 0 <= j < ts.len() ==> ts[j] <= m
    &&& ts.len() == 0 ==> m == 0
    &&& ts.len() > 0 ==> exists|j: int| 0 <= j < ts.len() && ts[j] == m
}

/// `i` is the position of the first capture taken at or after `target`, or
/// the end where there is none.
pub open spec fn is_seek_position(ts: Seq<u64>, target: int, i: int) -> bool {
    &&& 0 <= i <= ts.len()
    &&& forall|j: int| 0 <= j < i ==> ts[j] < target
    &&& i < ts.len() ==> ts[i] >= target
}

/// The position of the latest entry named `name`; -1 where there is none.
pub open spec fn named_position<V>(entries: Seq<(String, V)>, name: Seq<char>) -> int
    decreases entries.len(),
{
    if entries.len() == 0 {
        -1
    } else if entries.last().0@ == name {
        entries.len() - 1
    } else {
        named_position(entries.drop_last(), name)
    }
}

pub proof fn lemma_named_position<V>(entries: Seq<(String, V)>, name: Seq<char>)
    ensures
        -1 <= named_position(entries, name) < entries.len(),
    decreases entries.len(),
{
    if entries.len() > 0 && entries.last().0@ != name {
        lemma_named_position(entries.drop_last(), name);
    }
}

/// The bytes of the latest entry named `name`.
pub open spec fn named_value(entries: Seq<(String, Vec<u8>)>, name: Seq<char>) -> Option<Seq<u8>> {
    if named_position(entries, name) >= 0 {
        Some(entries[named_position(entries, name)].1@)
    } else {
        None
    }
}

/// Finds the latest entry named `name`.
pub fn find_named<V>(entries: &Vec<(String, V)>, name: &String) -> (r: Option<usize>)
    ensures
        r matches Some(i) ==> i == named_position(entries@, name@) && i < entries.len(),
        r is None ==> named_position(entries@, name@) == -1,
{
    proof { lemma_named_position(entries@, name@); }
    let mut i = entries.len();
    assert(entries@.take(i as int) =~= entries@);
    while i > 0
        invariant
            i <= entries.len(),
            named_position(entries@, name@) == named_position(entries@.take(i as int), name@),
        decreases i,
    {
        if entries[i - 1].0 == *name {
            return Some(i - 1);
        }
        assert(entries@.take(i as int).drop_last() =~= entries@.take(i - 1));
        i = i - 1;
    }
    None
}

/// Whether recording `r` can be played back from `path`.
pub open spec fn plays_from(r: RecordingSlot, path: Seq<char>) -> bool {
    r.path@ == path && !r.writing
}

/// `i` is the position of the latest recording at `path` that is not being
/// written.
pub open spec fn is_latest_recording(recs: Seq<RecordingSlot>, path: Seq<char>, i: int) -> bool {
    &&& 0 <= i < recs.len()
    &&& plays_from(recs[i], path)
    &&& forall|j: int| i < j < recs.len() ==> !plays_from(#[trigger] recs[j], path)
}

/// The built-in tracks of a recording: color where the color camera ran,
/// depth where the depth camera measured depth, IR where it ran at all, and
/// the motion track where one was added.
pub open spec fn builtin_track_count(r: RecordingSlot) -> nat {
    (if r.config.color_resolution != ColorResolution::Off { 1nat } else { 0nat })
        + (if r.config.depth_mode != DepthMode::Off && r.config.depth_mode != DepthMode::PassiveIr { 1nat } else { 0nat })
        + (if r.config.depth_mode != DepthMode::Off { 1nat } else { 0nat })
        + (if r.imu_track { 1nat } else { 0nat })
}

/// All tracks of a recording: the built-in ones, then the custom ones.
pub open spec fn track_count(r: RecordingSlot) -> nat {
    builtin_track_count(r) + r.custom_tracks@.len()
}

/// The settings a recording was made with, and which tracks it holds.
#[derive(Clone, Copy, Debug, PartialEq, Eq, Structural)]
pub struct RecordConfiguration {
    pub color_format: ImageFormat,
    pub color_resolution: ColorResolution,
    pub depth_mode: DepthMode,
    pub camera_fps: Fps,
    pub color_track_enabled: bool,
    pub depth_track_enabled: bool,
    pub ir_track_enabled: bool,
    pub imu_track_enabled: bool,
    pub depth_delay_off_color_usec: i32,
    pub wired_sync_mode: WiredSyncMode,
    pub subordinate_delay_off_master_usec: u32,
    /// Device times in a recording count from its start, so this is zero.
    pub start_timestamp_offset_usec: u64,
}

/// The configuration of recording `r`.
pub open spec fn record_configuration_of(r: RecordingSlot) -> RecordConfiguration {
    RecordConfiguration {
        color_format: r.config.color_format,
        color_resolution: r.config.color_resolution,
        depth_mode: r.config.depth_mode,
        camera_fps: r.config.camera_fps,
        color_track_enabled: r.config.color_resolution != ColorResolution::Off,
        depth_track_enabled: r.config.depth_mode != DepthMode::Off && r.config.depth_mode != DepthMode::PassiveIr,
        ir_track_enabled: r.config.depth_mode != DepthMode::Off,
        imu_track_enabled: r.imu_track,
        depth_delay_off_color_usec: r.config.depth_delay_off_color_usec,
        wired_sync_mode: r.config.wired_sync_mode,
        subordinate_delay_off_master_usec: r.config.subordinate_delay_off_master_usec,
        start_timestamp_offset_usec: 0,
    }
}

/// The formats a playback can convert color images to.
pub open spec fn is_conversion_format(f: ImageFormat) -> bool {
    f == ImageFormat::ColorBgra32 || f == ImageFormat::ColorNv12 || f == ImageFormat::ColorYuy2
}

impl Api {
    /// Everything but the capture counts and the recording and playback
    /// tables is as in `other`.
    pub open spec fn same_but_recording_tables(&self, other: &Api) -> bool {
        &&& self.devices == other.devices
        &&& self.image_refs == other.image_refs
        &&& self.images == other.images
        &&& self.captures == other.captures
        &&& self.frame_refs == other.frame_refs
        &&& self.frames == other.frames
        &&& self.trackers == other.trackers
        &&& self.detections == other.detections
    }

    pub open spec fn recording_writing(&self, h: usize) -> bool {
        1 <= h <= self.recordings.len() && self.recordings@[h - 1].writing
    }

    pub open spec fn playback_is_open(&self, h: usize) -> bool {
        1 <= h <= self.playbacks.len() && self.playbacks@[h - 1].open
    }

    /// The recording that playback `h` reads.
    pub open spec fn played(&self, h: usize) -> RecordingSlot {
        self.recordings@[self.playbacks@[h - 1].recording as int]
    }

    /// Recording `h` is as in `other` but for `changed`, which holds of the
    /// two versions of it; the other recordings and the playbacks are as in
    /// `other`.
    pub open spec fn recording_changed(&self, other: &Api, h: usize) -> bool {
        &&& self.recordings@.len() == other.recordings@.len()
        &&& forall|i: int| 0 <= i < other.recordings.len() && i != h - 1
            ==> self.recordings@[i] == other.recordings@[i]
        &&& self.playbacks == other.playbacks
        &&& self.recordings@[h - 1].path == other.recordings@[h - 1].path
        &&& self.recordings@[h - 1].config == other.recordings@[h - 1].config
        &&& self.recordings@[h - 1].raw_calibration == other.recordings@[h - 1].raw_calibration
    }

    /// As `recording_changed`, and the tags and attachments of recording `h`
    /// are as in `other` too.
    pub open spec fn recording_changed_keeping_metadata(&self, other: &Api, h: usize) -> bool {
        &&& self.recording_changed(other, h)
        &&& self.recordings@[h - 1].tags == other.recordings@[h - 1].tags
        &&& self.recordings@[h - 1].attachments == other.recordings@[h - 1].attachments
        &&& self.recordings@[h - 1].custom_tracks == other.recordings@[h - 1].custom_tracks
    }

    /// Creates a recording at `path` of the open device `device`, started
    /// with `config`, and holds it open for writing.
    pub fn record_create(&mut self, path: &str, device: usize, config: DeviceConfiguration) -> (r: (Status, usize))
        requires
            old(self).wf(),
        ensures
            final(self).wf(),
            final(self).same_but_recording_tables(old(self)),
            final(self).capture_refs == old(self).capture_refs,
            final(self).playbacks == old(self).playbacks,
            old(self).device_is_open(device) && old(self).recordings.len() < usize::MAX ==> {
                let made = final(self).recordings@.last();
                &&& r == (Status::Succeeded, (old(self).recordings.len() + 1) as usize)
                &&& final(self).recordings@.drop_last() == old(self).recordings@
                &&& made.path@ == path@
                &&& made.writing
                &&& !made.header_written
                &&& !made.imu_track
                &&& made.config == config
                &&& made.raw_calibration@ == old(self).devices@[device - 1].raw_calibration@
                &&& made.captures@.len() == 0
                &&& made.tags@.len() == 0
                &&& made.attachments@.len() == 0
                &&& made.custom_tracks@.len() == 0
            },
            !(old(self).device_is_open(device) && old(self).recordings.len() < usize::MAX) ==> {
                &&& r == (Status::Failed, NULL_HANDLE)
                &&& final(self).recordings == old(self).recordings
            },
    {
        if !(device >= 1 && device <= self.devices.len() && self.devices[device - 1].open)
            || self.recordings.len() == usize::MAX {
            return (Status::Failed, NULL_HANDLE);
        }
        let slot = RecordingSlot {
            path: path.to_owned(),
            writing: true,
            header_written: false,
            imu_track: false,
            config,
            raw_calibration: self.devices[device - 1].raw_calibration.clone(),
            tags: Vec::new(),
            attachments: Vec::new(),
            custom_tracks: Vec::new(),
            captures: Vec::new(),
            timestamps: Vec::new(),
        };
        self.recordings.push(slot);
        proof {
            assert(self.recordings@.drop_last() =~= old(self).recordings@);
            assert forall|i: int| 0 <= i < self.recordings.len() implies {
                &&& #[trigger] self.recordings@[i].captures.len() == self.recordings@[i].timestamps.len()
                &&& self.recordings@[i].custom_tracks.len() + 4 <= usize::MAX
            } by {
                if i < old(self).recordings.len() {
                    assert(self.recordings@[i] == old(self).recordings@[i]);
                }
            }
            assert forall|i: int| 0 <= i < self.playbacks.len() implies {
                &&& #[trigger] self.playbacks@[i].recording < self.recordings.len()
                &&& self.playbacks@[i].cursor <= self.recordings@[self.playbacks@[i].recording as int].captures.len()
                &&& !self.recordings@[self.playbacks@[i].recording as int].writing
                &&& self.playbacks@[i].block_cursors@.len() == self.recordings@[self.playbacks@[i].recording as int].custom_tracks.len()
            } by {
                assert(old(self).playbacks@[i].recording < old(self).recordings.len());
                assert(self.recordings@[self.playbacks@[i].recording as int] == old(self).recordings@[self.playbacks@[i].recording as int]);
            }
        }
        (Status::Succeeded, self.recordings.len())
    }

    /// Flushes what was written to recording `h`.
    pub fn record_flush(&self, h: usize) -> (r: Status)
        requires
            self.wf(),
        ensures
            r == (if self.recording_writing(h) { Status::Succeeded } else { Status::Failed }),
    {
        if h >= 1 && h <= self.recordings.len() && self.recordings[h - 1].writing {
            Status::Succeeded
        } else {
            Status::Failed
        }
    }

    /// Adds the motion track to recording `h`; only once, and only before
    /// the header is written.
    pub fn record_add_imu_track(&mut self, h: usize) -> (r: Status)
        requires
            old(self).wf(),
        ensures
            final(self).wf(),
            final(self).same_but_recording_tables(old(self)),
            final(self).capture_refs == old(self).capture_refs,
            if old(self).recording_writing(h) && !old(self).recordings@[h - 1].header_written
                && !old(self).recordings@[h - 1].imu_track {
                &&& r == Status::Succeeded
                &&& final(self).recording_changed_keeping_metadata(old(self), h)
                &&& final(self).recordings@[h - 1].imu_track
                &&& final(self).recordings@[h - 1].writing
                &&& !final(self).recordings@[h - 1].header_written
                &&& final(self).recordings@[h - 1].captures == old(self).recordings@[h - 1].captures
                &&& final(self).recordings@[h - 1].timestamps == old(self).recordings@[h - 1].timestamps
            } else {
                &&& r == Status::Failed
                &&& final(self).recordings == old(self).recordings
                &&& final(self).playbacks == old(self).playbacks
            },
    {
        if h >= 1 && h <= self.recordings.len() && self.recordings[h - 1].writing
            && !self.recordings[h - 1].header_written && !self.recordings[h - 1].imu_track {
            self.recordings[h - 1].imu_track = true;
            proof { self.lemma_recordings_wf(old(self), h); }
            Status::Succeeded
        } else {
            Status::Failed
        }
    }

    /// Writes the header of recording `h`; only once.
    pub fn record_write_header(&mut self, h: usize) -> (r: Status)
        requires
            old(self).wf(),
        ensures
            final(self).wf(),
            final(self).same_but_recording_tables(old(self)),
            final(self).capture_refs == old(self).capture_refs,
            if old(self).recording_writing(h) && !old(self).recordings@[h - 1].header_written {
                &&& r == Status::Succeeded
                &&& final(self).recording_changed_keeping_metadata(old(self), h)
                &&& final(self).recordings@[h - 1].header_written
                &&& final(self).recordings@[h - 1].writing
                &&& final(self).recordings@[h - 1].imu_track == old(self).recordings@[h - 1].imu_track
                &&& final(self).recordings@[h - 1].captures == old(self).recordings@[h - 1].captures
                &&& final(self).recordings@[h - 1].timestamps == old(self).recordings@[h - 1].timestamps
            } else {
                &&& r == Status::Failed
                &&& final(self).recordings == old(self).recordings
                &&& final(self).playbacks == old(self).playbacks
            },
    {
        if h >= 1 && h <= self.recordings.len() && self.recordings[h - 1].writing
            && !self.recordings[h - 1].header_written {
            self.recordings[h - 1].header_written = true;
            proof { self.lemma_recordings_wf(old(self), h); }
            Status::Succeeded
        } else {
            Status::Failed
        }
    }

    /// Appends live capture `capture` to recording `h`, after its header;
    /// the file takes a reference to it.
    pub fn record_write_capture(&mut self, h: usize, capture: usize) -> (r: Status)
        requires
            old(self).wf(),
        ensures
            final(self).wf(),
            final(self).same_but_recording_tables(old(self)),
            if old(self).recording_writing(h) && old(self).recordings@[h - 1].header_written
                && can_share(old(self).capture_refs@, capture) {
                let before = old(self).recordings@[h - 1];
                &&& r == Status::Succeeded
                &&& final(self).capture_refs@ == referenced(old(self).capture_refs@, capture)
                &&& final(self).recording_changed_keeping_metadata(old(self), h)
                &&& final(self).recordings@[h - 1].writing
                &&& final(self).recordings@[h - 1].header_written
                &&& final(self).recordings@[h - 1].imu_track == before.imu_track
                &&& final(self).recordings@[h - 1].captures@ == before.captures@.push(capture)
                &&& final(self).recordings@[h - 1].timestamps@ == before.timestamps@.push(capture_time(old(self), capture))
            } else {
                &&& r == Status::Failed
                &&& final(self).capture_refs == old(self).capture_refs
                &&& final(self).recordings == old(self).recordings
                &&& final(self).playbacks == old(self).playbacks
            },
    {
        if !(h >= 1 && h <= self.recordings.len() && self.recordings[h - 1].writing
            && self.recordings[h - 1].header_written && slot_is_live(&self.capture_refs, capture)
            && self.capture_refs[capture - 1] < u64::MAX) {
            return Status::Failed;
        }
        let held = self.captures[capture - 1];
        let stamp = if slot_is_live(&self.image_refs, held.depth) {
            self.images[held.depth - 1].device_timestamp_usec
        } else if slot_is_live(&self.image_refs, held.color) {
            self.images[held.color - 1].device_timestamp_usec
        } else {
            0
        };
        assert(self.recordings@[h - 1].captures.len() == self.recordings@[h - 1].timestamps.len());
        reference_slot(&mut self.capture_refs, capture);
        self.recordings[h - 1].captures.push(capture);
        self.recordings[h - 1].timestamps.push(stamp);
        proof {
            self.lemma_recordings_wf(old(self), h);
            assert(self.capture_refs@.len() == old(self).capture_refs@.len());
            assert(self.devices == old(self).devices);
            assert(self.frames == old(self).frames);
            assert(self.detections == old(self).detections);
        }
        Status::Succeeded
    }

    /// Closes recording `h` for writing.
    pub fn record_close(&mut self, h: usize)
        requires
            old(self).wf(),
        ensures
            final(self).wf(),
            final(self).same_but_recording_tables(old(self)),
            final(self).capture_refs == old(self).capture_refs,
            final(self).playbacks == old(self).playbacks,
            old(self).recording_writing(h) ==> {
                &&& final(self).recording_changed_keeping_metadata(old(self), h)
                &&& !final(self).recordings@[h - 1].writing
                &&& final(self).recordings@[h - 1].header_written == old(self).recordings@[h - 1].header_written
                &&& final(self).recordings@[h - 1].imu_track == old(self).recordings@[h - 1].imu_track
                &&& final(self).recordings@[h - 1].captures == old(self).recordings@[h - 1].captures
                &&& final(self).recordings@[h - 1].timestamps == old(self).recordings@[h - 1].timestamps
            },
            !old(self).recording_writing(h) ==> final(self).recordings == old(self).recordings,
    {
        if h >= 1 && h <= self.recordings.len() && self.recordings[h - 1].writing {
            self.recordings[h - 1].writing = false;
            proof { self.lemma_recordings_wf(old(self), h); }
        }
    }

    /// Adds a named text value to recording `h`, before its header.
    pub fn record_add_tag(&mut self, h: usize, name: &str, value: &str) -> (r: Status)
        requires
            old(self).wf(),
        ensures
            final(self).wf(),
            final(self).same_but_recording_tables(old(self)),
            final(self).capture_refs == old(self).capture_refs,
            if old(self).recording_writing(h) && !old(self).recordings@[h - 1].header_written {
                let (before, after) = (old(self).recordings@[h - 1], final(self).recordings@[h - 1]);
                &&& r == Status::Succeeded
                &&& final(self).recording_changed(old(self), h)
                &&& after.tags@.drop_last() == before.tags@
                &&& after.tags@.last().0@ == name@
                &&& after.tags@.last().1@ == value.spec_bytes()
                &&& after.attachments == before.attachments
                &&& after.custom_tracks == before.custom_tracks
                &&& after.writing && !after.header_written
                &&& after.imu_track == before.imu_track
                &&& after.captures == before.captures
                &&& after.timestamps == before.timestamps
            } else {
                &&& r == Status::Failed
                &&& final(self).recordings == old(self).recordings
                &&& final(self).playbacks == old(self).playbacks
            },
    {
        if !(h >= 1 && h <= self.recordings.len() && self.recordings[h - 1].writing
            && !self.recordings[h - 1].header_written) {
            return Status::Failed;
        }
        let entry = (name.to_owned(), slice_to_vec(value.as_bytes()));
        self.recordings[h - 1].tags.push(entry);
        proof {
            assert(self.recordings@[h - 1].tags@.drop_last() =~= old(self).recordings@[h - 1].tags@);
            self.lemma_recordings_wf(old(self), h);
        }
        Status::Succeeded
    }

    /// Adds a named binary attachment to recording `h`, before its header.
    pub fn record_add_attachment(&mut self, h: usize, name: &str, data: &[u8]) -> (r: Status)
        requires
            old(self).wf(),
        ensures
            final(self).wf(),
            final(self).same_but_recording_tables(old(self)),
            final(self).capture_refs == old(self).capture_refs,
            if old(self).recording_writing(h) && !old(self).recordings@[h - 1].header_written {
                let (before, after) = (old(self).recordings@[h - 1], final(self).recordings@[h - 1]);
                &&& r == Status::Succeeded
                &&& final(self).recording_changed(old(self), h)
                &&& after.attachments@.drop_last() == before.attachments@
                &&& after.attachments@.last().0@ == name@
                &&& after.attachments@.last().1@ == data@
                &&& after.tags == before.tags
                &&& after.custom_tracks == before.custom_tracks
                &&& after.writing && !after.header_written
                &&& after.imu_track == before.imu_track
                &&& after.captures == before.captures
                &&& after.timestamps == before.timestamps
            } else {
                &&& r == Status::Failed
                &&& final(self).recordings == old(self).recordings
                &&& final(self).playbacks == old(self).playbacks
            },
    {
        if !(h >= 1 && h <= self.recordings.len() && self.recordings[h - 1].writing
            && !self.recordings[h - 1].header_written) {
            return Status::Failed;
        }
        let entry = (name.to_owned(), slice_to_vec(data));
        self.recordings[h - 1].attachments.push(entry);
        proof {
            assert(self.recordings@[h - 1].attachments@.drop_last() =~= old(self).recordings@[h - 1].attachments@);
            self.lemma_recordings_wf(old(self), h);
        }
        Status::Succeeded
    }

    pub(crate) proof fn lemma_recordings_wf(&self, before: &Api, h: usize)
        requires
            before.wf(),
            1 <= h <= before.recordings.len(),
            self.recordings@.len() == before.recordings@.len(),
            forall|i: int| 0 <= i < before.recordings.len() && i != h - 1
                ==> self.recordings@[i] == before.recordings@[i],
            self.recordings@[h - 1].captures.len() == self.recordings@[h - 1].timestamps.len(),
            self.recordings@[h - 1].captures.len() >= before.recordings@[h - 1].captures.len(),
            self.recordings@[h - 1].custom_tracks.len() + 4 <= usize::MAX,
            self.playbacks == before.playbacks,
            before.recordings@[h - 1].writing,
        ensures
            forall|i: int| 0 <= i < self.recordings.len() ==> {
                &&& #[trigger] self.recordings@[i].captures.len() == self.recordings@[i].timestamps.len()
                &&& self.recordings@[i].custom_tracks.len() + 4 <= usize::MAX
            },
            forall|i: int| 0 <= i < self.playbacks.len() ==> {
                &&& #[trigger] self.playbacks@[i].recording < self.recordings.len()
                &&& self.playbacks@[i].cursor <= self.recordings@[self.playbacks@[i].recording as int].captures.len()
                &&& !self.recordings@[self.playbacks@[i].recording as int].writing
                &&& self.playbacks@[i].block_cursors@.len() == self.recordings@[self.playbacks@[i].recording as int].custom_tracks.len()
            },
    {
        assert forall|i: int| 0 <= i < self.recordings.len() implies {
            &&& #[trigger] self.recordings@[i].captures.len() == self.recordings@[i].timestamps.len()
            &&& self.recordings@[i].custom_tracks.len() + 4 <= usize::MAX
        } by {
            if i != h - 1 {
                assert(self.recordings@[i] == before.recordings@[i]);
            }
        }
        assert forall|i: int| 0 <= i < self.playbacks.len() implies {
            &&& #[trigger] self.playbacks@[i].recording < self.recordings.len()
            &&& self.playbacks@[i].cursor <= self.recordings@[self.playbacks@[i].recording as int].captures.len()
            &&& !self.recordings@[self.playbacks@[i].recording as int].writing
            &&& self.playbacks@[i].block_cursors@.len() == self.recordings@[self.playbacks@[i].recording as int].custom_tracks.len()
        } by {
            assert(before.playbacks@[i] == self.playbacks@[i]);
            assert(before.playbacks@[i].recording < before.recordings.len());
            let k = self.playbacks@[i].recording as int;
            assert(k != h - 1);
            assert(self.recordings@[k] == before.recordings@[k]);
        }
    }
}

} // verus!
