//! Tracks of recordings: the built-in color, depth, IR and motion tracks,
//! and the custom tracks a recorder's caller adds.
use vstd::prelude::*;
use crate::config::{color_dimensions, depth_dimensions, frames_per_second, ColorResolution, DepthMode};
use crate::error::Status;
use vstd::slice::slice_to_vec;
use vstd::string::StringSliceAdditionalSpecFns;
use super::recording::{builtin_track_count, find_named, named_position};
use super::{Api, CustomTrack, RecordingSlot, SubtitleSettings, VideoSettings};

verus! {

/// The built-in tracks, in the order a recording lists them.
#[derive(Clone, Copy, Debug, PartialEq, Eq, Structural)]
pub enum BuiltinTrack {
    Color,
    Depth,
    Ir,
    Imu,
}

/// Which built-in track `name` names, if any.
pub open spec fn builtin_kind_of(name: Seq<char>) -> Option<BuiltinTrack> {
    if name == "COLOR"@ {
        Some(BuiltinTrack::Color)
    } else if name == "DEPTH"@ {
        Some(BuiltinTrack::Depth)
    } else if name == "IR"@ {
        Some(BuiltinTrack::Ir)
    } else if name == "IMU"@ {
        Some(BuiltinTrack::Imu)
    } else {
        None
    }
}

/// The name of built-in track `k`, as text bytes.
pub open spec fn builtin_name_bytes(k: BuiltinTrack) -> Seq<u8> {
    match k {
        BuiltinTrack::Color => seq![67u8, 79u8, 76u8, 79u8, 82u8],
        BuiltinTrack::Depth => seq![68u8, 69u8, 80u8, 84u8, 72u8],
        BuiltinTrack::Ir => seq![73u8, 82u8],
        BuiltinTrack::Imu => seq![73u8, 77u8, 85u8],
    }
}

/// Whether recording `r` holds built-in track `k`.
pub open spec fn builtin_present(r: RecordingSlot, k: BuiltinTrack) -> bool {
    match k {
        BuiltinTrack::Color => r.config.color_resolution != ColorResolution::Off,
        BuiltinTrack::Depth => r.config.depth_mode != DepthMode::Off && r.config.depth_mode != DepthMode::PassiveIr,
        BuiltinTrack::Ir => r.config.depth_mode != DepthMode::Off,
        BuiltinTrack::Imu => r.imu_track,
    }
}

/// Whether `name` names a built-in track that recording `r` holds.
pub open spec fn is_builtin_track(r: RecordingSlot, name: Seq<char>) -> bool {
    builtin_kind_of(name) matches Some(k) && builtin_present(r, k)
}

/// The built-in tracks recording `r` holds, in order.
pub open spec fn builtin_tracks(r: RecordingSlot) -> Seq<BuiltinTrack> {
    let color = if builtin_present(r, BuiltinTrack::Color) { seq![BuiltinTrack::Color] } else { Seq::empty() };
    let depth = if builtin_present(r, BuiltinTrack::Depth) { seq![BuiltinTrack::Depth] } else { Seq::empty() };
    let ir = if builtin_present(r, BuiltinTrack::Ir) { seq![BuiltinTrack::Ir] } else { Seq::empty() };
    let imu = if builtin_present(r, BuiltinTrack::Imu) { seq![BuiltinTrack::Imu] } else { Seq::empty() };
    color + depth + ir + imu
}

/// The name of track `i` of recording `r`, as text bytes: the built-in
/// tracks first, then the custom ones.
pub open spec fn track_name_bytes(r: RecordingSlot, i: int) -> Seq<u8> {
    let builtin = builtin_tracks(r);
    if i < builtin.len() {
        builtin_name_bytes(builtin[i])
    } else {
        r.custom_tracks@[i - builtin.len()].1.name_bytes@
    }
}

/// The custom track named `name` in recording `r`.
pub open spec fn custom_track_of(r: RecordingSlot, name: Seq<char>) -> Option<CustomTrack> {
    let p = named_position(r.custom_tracks@, name);
    if p >= 0 {
        Some(r.custom_tracks@[p].1)
    } else {
        None
    }
}

/// Whether recording `r` holds a track named `name`.
pub open spec fn has_track(r: RecordingSlot, name: Seq<char>) -> bool {
    match builtin_kind_of(name) {
        Some(k) => builtin_present(r, k),
        None => custom_track_of(r, name) is Some,
    }
}

/// The video settings of track `name` of recording `r`: from the camera
/// settings for the built-in image tracks, as added for a custom video track.
pub open spec fn track_video_settings(r: RecordingSlot, name: Seq<char>) -> Option<VideoSettings> {
    match builtin_kind_of(name) {
        Some(k) => if !builtin_present(r, k) {
            None
        } else {
            match k {
                BuiltinTrack::Color => Some(VideoSettings {
                    width: color_dimensions(r.config.color_resolution).0,
                    height: color_dimensions(r.config.color_resolution).1,
                    frame_rate: frames_per_second(r.config.camera_fps),
                }),
                BuiltinTrack::Imu => None,
                _ => Some(VideoSettings {
                    width: depth_dimensions(r.config.depth_mode).0,
                    height: depth_dimensions(r.config.depth_mode).1,
                    frame_rate: frames_per_second(r.config.camera_fps),
                }),
            }
        },
        None => match custom_track_of(r, name) {
            Some(t) => t.video,
            None => None,
        },
    }
}

/// Which built-in track `name` names, if any.
pub fn builtin_kind(name: &String) -> (r: Option<BuiltinTrack>)
    ensures
        r == builtin_kind_of(name@),
{
    if *name == "COLOR".to_owned() {
        Some(BuiltinTrack::Color)
    } else if *name == "DEPTH".to_owned() {
        Some(BuiltinTrack::Depth)
    } else if *name == "IR".to_owned() {
        Some(BuiltinTrack::Ir)
    } else if *name == "IMU".to_owned() {
        Some(BuiltinTrack::Imu)
    } else {
        None
    }
}

fn builtin_name(k: BuiltinTrack) -> (r: Vec<u8>)
    ensures
        r@ == builtin_name_bytes(k),
{
    let v = match k {
        BuiltinTrack::Color => vec![67u8, 79u8, 76u8, 79u8, 82u8],
        BuiltinTrack::Depth => vec![68u8, 69u8, 80u8, 84u8, 72u8],
        BuiltinTrack::Ir => vec![73u8, 82u8],
        BuiltinTrack::Imu => vec![73u8, 77u8, 85u8],
    };
    assert(v@ =~= builtin_name_bytes(k));
    v
}

fn is_present(r: &RecordingSlot, k: BuiltinTrack) -> (b: bool)
    ensures
        b == builtin_present(*r, k),
{
    match k {
        BuiltinTrack::Color => r.config.color_resolution != ColorResolution::Off,
        BuiltinTrack::Depth => r.config.depth_mode != DepthMode::Off && r.config.depth_mode != DepthMode::PassiveIr,
        BuiltinTrack::Ir => r.config.depth_mode != DepthMode::Off,
        BuiltinTrack::Imu => r.imu_track,
    }
}

fn present_builtins(r: &RecordingSlot) -> (v: Vec<BuiltinTrack>)
    ensures
        v@ == builtin_tracks(*r),
        v@.len() == builtin_track_count(*r),
{
    let mut v: Vec<BuiltinTrack> = Vec::new();
    if is_present(r, BuiltinTrack::Color) {
        v.push(BuiltinTrack::Color);
    }
    if is_present(r, BuiltinTrack::Depth) {
        v.push(BuiltinTrack::Depth);
    }
    if is_present(r, BuiltinTrack::Ir) {
        v.push(BuiltinTrack::Ir);
    }
    if is_present(r, BuiltinTrack::Imu) {
        v.push(BuiltinTrack::Imu);
    }
    assert(v@ =~= builtin_tracks(*r));
    v
}

/// The name bytes of track `i` of recording `r`.
pub fn track_name_of(r: &RecordingSlot, i: usize) -> (v: Vec<u8>)
    requires
        i < builtin_track_count(*r) + r.custom_tracks@.len(),
    ensures
        v@ == track_name_bytes(*r, i as int),
{
    let builtin = present_builtins(r);
    if i < builtin.len() {
        builtin_name(builtin[i])
    } else {
        r.custom_tracks[i - builtin.len()].1.name_bytes.clone()
    }
}

/// Whether recording `r` holds a track named `name`.
pub fn track_exists_in(r: &RecordingSlot, name: &String) -> (b: bool)
    ensures
        b == has_track(*r, name@),
{
    match builtin_kind(name) {
        Some(k) => is_present(r, k),
        None => find_named(&r.custom_tracks, name).is_some(),
    }
}

impl Api {
    /// Whether recording `h` takes a new custom track named `name`: it is
    /// open for writing, its header is not written, and the name is new and
    /// not that of a built-in track.
    pub open spec fn can_add_custom_track(&self, h: usize, name: Seq<char>) -> bool {
        &&& self.recording_writing(h)
        &&& !self.recordings@[h - 1].header_written
        &&& builtin_kind_of(name) is None
        &&& named_position(self.recordings@[h - 1].custom_tracks@, name) == -1
        &&& self.recordings@[h - 1].custom_tracks.len() + 5 <= usize::MAX
    }

    /// This runtime is `before` with a custom track added to the end of
    /// recording `h`'s.
    pub open spec fn custom_track_added(
        &self,
        before: &Api,
        h: usize,
        name: Seq<char>,
        name_bytes: Seq<u8>,
        codec_id: Seq<u8>,
        codec_context: Seq<u8>,
        video: Option<VideoSettings>,
        subtitle: Option<SubtitleSettings>,
    ) -> bool {
        let (was, now) = (before.recordings@[h - 1], self.recordings@[h - 1]);
        let added = now.custom_tracks@.last();
        &&& self.recording_changed(before, h)
        &&& now.custom_tracks@.drop_last() == was.custom_tracks@
        &&& added.0@ == name
        &&& added.1.name_bytes@ == name_bytes
        &&& added.1.codec_id@ == codec_id
        &&& added.1.codec_context@ == codec_context
        &&& added.1.video == video
        &&& added.1.subtitle == subtitle
        &&& added.1.blocks@.len() == 0
        &&& now.tags == was.tags
        &&& now.attachments == was.attachments
        &&& now.writing && !now.header_written
        &&& now.imu_track == was.imu_track
        &&& now.captures == was.captures
        &&& now.timestamps == was.timestamps
    }

    /// Whether recording `h` takes data for custom track `name`: it is open
    /// for writing, its header is written, and it has such a track.
    pub open spec fn can_write_custom_data(&self, h: usize, name: Seq<char>) -> bool {
        &&& self.recording_writing(h)
        &&& self.recordings@[h - 1].header_written
        &&& custom_track_of(self.recordings@[h - 1], name) is Some
    }

    /// This runtime is `before` with a block appended to custom track
    /// `name` of recording `h`.
    pub open spec fn custom_data_written(&self, before: &Api, h: usize, name: Seq<char>, device_timestamp_usec: u64, data: Seq<u8>) -> bool {
        let (was_rec, now_rec) = (before.recordings@[h - 1], self.recordings@[h - 1]);
        let p = named_position(was_rec.custom_tracks@, name);
        let (was, now) = (was_rec.custom_tracks@[p], now_rec.custom_tracks@[p]);
        &&& self.recording_changed(before, h)
        &&& now_rec.custom_tracks@.len() == was_rec.custom_tracks@.len()
        &&& forall|i: int| 0 <= i < was_rec.custom_tracks.len() && i != p
            ==> now_rec.custom_tracks@[i] == was_rec.custom_tracks@[i]
        &&& now.0 == was.0
        &&& now.1.name_bytes == was.1.name_bytes
        &&& now.1.codec_id == was.1.codec_id
        &&& now.1.codec_context == was.1.codec_context
        &&& now.1.video == was.1.video
        &&& now.1.subtitle == was.1.subtitle
        &&& now.1.blocks@.drop_last() == was.1.blocks@
        &&& now.1.blocks@.last().0 == device_timestamp_usec
        &&& now.1.blocks@.last().1@ == data
        &&& now_rec.tags == was_rec.tags
        &&& now_rec.attachments == was_rec.attachments
        &&& now_rec.writing && now_rec.header_written
        &&& now_rec.imu_track == was_rec.imu_track
        &&& now_rec.captures == was_rec.captures
        &&& now_rec.timestamps == was_rec.timestamps
    }

    /// Whether the recording playback `h` reads holds a track named `name`.
    pub fn playback_track_exists(&self, h: usize, name: &String) -> (b: bool)
        requires
            self.wf(),
        ensures
            b == (self.playback_is_open(h) && has_track(self.played(h), name@)),
    {
        if !(h >= 1 && h <= self.playbacks.len() && self.playbacks[h - 1].open) {
            return false;
        }
        track_exists_in(&self.recordings[self.playbacks[h - 1].recording], name)
    }

    /// Whether track `name` of the recording playback `h` reads is one of
    /// its built-in tracks.
    pub fn playback_track_is_builtin(&self, h: usize, name: &String) -> (b: bool)
        requires
            self.wf(),
        ensures
            b == (self.playback_is_open(h) && is_builtin_track(self.played(h), name@)),
    {
        if !(h >= 1 && h <= self.playbacks.len() && self.playbacks[h - 1].open) {
            return false;
        }
        match builtin_kind(name) {
            Some(k) => is_present(&self.recordings[self.playbacks[h - 1].recording], k),
            None => false,
        }
    }

    /// The video settings of track `name` of the recording playback `h`
    /// reads.
    pub fn playback_track_video_settings(&self, h: usize, name: &String) -> (r: Option<VideoSettings>)
        requires
            self.wf(),
        ensures
            r == (if self.playback_is_open(h) { track_video_settings(self.played(h), name@) } else { None }),
    {
        if !(h >= 1 && h <= self.playbacks.len() && self.playbacks[h - 1].open) {
            return None;
        }
        let rec = &self.recordings[self.playbacks[h - 1].recording];
        match builtin_kind(name) {
            Some(k) => {
                if !is_present(rec, k) {
                    return None;
                }
                let fps = rec.config.camera_fps.frames_per_second();
                match k {
                    BuiltinTrack::Color => {
                        let (width, height) = rec.config.color_resolution.dimensions();
                        Some(VideoSettings { width, height, frame_rate: fps })
                    },
                    BuiltinTrack::Imu => None,
                    _ => {
                        let (width, height) = rec.config.depth_mode.dimensions();
                        Some(VideoSettings { width, height, frame_rate: fps })
                    },
                }
            },
            None => match find_named(&rec.custom_tracks, name) {
                Some(i) => rec.custom_tracks[i].1.video,
                None => None,
            },
        }
    }

    /// Adds a custom track to recording `h`, before its header. Its name
    /// must be new and not that of a built-in track.
    pub fn record_add_custom_track(
        &mut self,
        h: usize,
        name: &str,
        codec_id: &str,
        codec_context: &[u8],
        video: Option<VideoSettings>,
        subtitle: Option<SubtitleSettings>,
    ) -> (r: Status)
        requires
            old(self).wf(),
        ensures
            final(self).wf(),
            final(self).same_but_recording_tables(old(self)),
            final(self).capture_refs == old(self).capture_refs,
            if old(self).can_add_custom_track(h, name@) {
                &&& r == Status::Succeeded
                &&& final(self).custom_track_added(old(self), h, name@, name.spec_bytes(), codec_id.spec_bytes(), codec_context@, video, subtitle)
            } else {
                &&& r == Status::Failed
                &&& final(self).recordings == old(self).recordings
                &&& final(self).playbacks == old(self).playbacks
            },
    {
        if !(h >= 1 && h <= self.recordings.len() && self.recordings[h - 1].writing
            && !self.recordings[h - 1].header_written) {
            return Status::Failed;
        }
        let wanted = name.to_owned();
        if builtin_kind(&wanted).is_some() || find_named(&self.recordings[h - 1].custom_tracks, &wanted).is_some()
            || self.recordings[h - 1].custom_tracks.len() > usize::MAX - 5 {
            return Status::Failed;
        }
        let track = CustomTrack {
            name_bytes: slice_to_vec(name.as_bytes()),
            codec_id: slice_to_vec(codec_id.as_bytes()),
            codec_context: slice_to_vec(codec_context),
            video,
            subtitle,
            blocks: Vec::new(),
        };
        self.recordings[h - 1].custom_tracks.push((wanted, track));
        proof {
            assert(self.recordings@[h - 1].custom_tracks@.drop_last() =~= old(self).recordings@[h - 1].custom_tracks@);
            assert(self.recordings@[h - 1].captures == old(self).recordings@[h - 1].captures);
            assert(self.recordings@[h - 1].timestamps == old(self).recordings@[h - 1].timestamps);
            assert(old(self).recordings@[h - 1].captures.len() == old(self).recordings@[h - 1].timestamps.len());
            self.lemma_recordings_wf(old(self), h);
        }
        Status::Succeeded
    }

    /// Appends a block of data, taken at device time `device_timestamp_usec`,
    /// to custom track `name` of recording `h`, after its header.
    pub fn record_write_custom_track_data(&mut self, h: usize, name: &str, device_timestamp_usec: u64, data: &[u8]) -> (r: Status)
        requires
            old(self).wf(),
        ensures
            final(self).wf(),
            final(self).same_but_recording_tables(old(self)),
            final(self).capture_refs == old(self).capture_refs,
            if old(self).can_write_custom_data(h, name@) {
                &&& r == Status::Succeeded
                &&& final(self).custom_data_written(old(self), h, name@, device_timestamp_usec, data@)
            } else {
                &&& r == Status::Failed
                &&& final(self).recordings == old(self).recordings
                &&& final(self).playbacks == old(self).playbacks
            },
    {
        if !(h >= 1 && h <= self.recordings.len() && self.recordings[h - 1].writing
            && self.recordings[h - 1].header_written) {
            return Status::Failed;
        }
        let wanted = name.to_owned();
        let p = match find_named(&self.recordings[h - 1].custom_tracks, &wanted) {
            Some(p) => p,
            None => return Status::Failed,
        };
        let block = (device_timestamp_usec, slice_to_vec(data));
        self.recordings[h - 1].custom_tracks[p].1.blocks.push(block);
        proof {
            let was = old(self).recordings@[h - 1].custom_tracks@[p as int];
            let now = self.recordings@[h - 1].custom_tracks@[p as int];
            assert(now.1.blocks@.drop_last() =~= was.1.blocks@);
            self.lemma_recordings_wf(old(self), h);
        }
        Status::Succeeded
    }

    /// Playback `h` is as in `other` but for the block cursor of custom
    /// track `p`, which is `position`; everything else of the runtime is as
    /// in `other`.
    pub open spec fn block_cursor_moved(&self, other: &Api, h: usize, p: int, position: usize) -> bool {
        let (was, now) = (other.playbacks@[h - 1], self.playbacks@[h - 1]);
        &&& self.same_but_recording_tables(other)
        &&& self.capture_refs == other.capture_refs
        &&& self.recordings == other.recordings
        &&& self.playbacks@.len() == other.playbacks@.len()
        &&& forall|i: int| 0 <= i < other.playbacks.len() && i != h - 1 ==> self.playbacks@[i] == other.playbacks@[i]
        &&& now.open == was.open
        &&& now.recording == was.recording
        &&& now.cursor == was.cursor
        &&& now.color_conversion == was.color_conversion
        &&& now.block_cursors@ == was.block_cursors@.update(p, position)
    }

    /// The position of custom track `name` in the recording playback `h`
    /// reads; -1 where it has none.
    pub open spec fn played_track_position(&self, h: usize, name: Seq<char>) -> int {
        named_position(self.played(h).custom_tracks@, name)
    }

    /// Reads the data block at the cursor of custom track `track` of
    /// playback `h`, and moves that cursor past it.
    pub fn playback_next_data_block(&mut self, h: usize, track: &str) -> (r: (Status, u64, Vec<u8>))
        requires
            old(self).wf(),
        ensures
            final(self).wf(),
            !(old(self).playback_is_open(h) && old(self).played_track_position(h, track@) >= 0) ==> {
                r.0 == Status::Failed && *final(self) == *old(self)
            },
            old(self).playback_is_open(h) && old(self).played_track_position(h, track@) >= 0 ==> {
                let p = old(self).played_track_position(h, track@);
                let blocks = old(self).played(h).custom_tracks@[p].1.blocks@;
                let position = old(self).playbacks@[h - 1].block_cursors@[p];
                if position >= blocks.len() {
                    r.0 == Status::Eof && *final(self) == *old(self)
                } else {
                    &&& r.0 == Status::Succeeded
                    &&& r.1 == blocks[position as int].0
                    &&& r.2@ == blocks[position as int].1@
                    &&& final(self).block_cursor_moved(old(self), h, p, (position + 1) as usize)
                }
            },
    {
        if !(h >= 1 && h <= self.playbacks.len() && self.playbacks[h - 1].open) {
            return (Status::Failed, 0, Vec::new());
        }
        let k = self.playbacks[h - 1].recording;
        assert(self.playbacks@[h - 1].recording < self.recordings.len());
        let wanted = track.to_owned();
        let p = match find_named(&self.recordings[k].custom_tracks, &wanted) {
            Some(p) => p,
            None => return (Status::Failed, 0, Vec::new()),
        };
        let position = self.playbacks[h - 1].block_cursors[p];
        let count = self.recordings[k].custom_tracks[p].1.blocks.len();
        if position >= count {
            return (Status::Eof, 0, Vec::new());
        }
        let stamp = self.recordings[k].custom_tracks[p].1.blocks[position].0;
        let data = self.recordings[k].custom_tracks[p].1.blocks[position].1.clone();
        self.playbacks[h - 1].block_cursors.set(p, position + 1);
        proof { self.lemma_playbacks_wf(old(self), h); }
        (Status::Succeeded, stamp, data)
    }

    /// Moves the cursor of custom track `track` of playback `h` back by one
    /// and reads the data block it then points at.
    pub fn playback_previous_data_block(&mut self, h: usize, track: &str) -> (r: (Status, u64, Vec<u8>))
        requires
            old(self).wf(),
        ensures
            final(self).wf(),
            !(old(self).playback_is_open(h) && old(self).played_track_position(h, track@) >= 0) ==> {
                r.0 == Status::Failed && *final(self) == *old(self)
            },
            old(self).playback_is_open(h) && old(self).played_track_position(h, track@) >= 0 ==> {
                let p = old(self).played_track_position(h, track@);
                let blocks = old(self).played(h).custom_tracks@[p].1.blocks@;
                let cursor = old(self).playbacks@[h - 1].block_cursors@[p];
                let position = if cursor > blocks.len() { blocks.len() as int } else { cursor as int };
                if position == 0 {
                    r.0 == Status::Eof && *final(self) == *old(self)
                } else {
                    &&& r.0 == Status::Succeeded
                    &&& r.1 == blocks[position - 1].0
                    &&& r.2@ == blocks[position - 1].1@
                    &&& final(self).block_cursor_moved(old(self), h, p, (position - 1) as usize)
                }
            },
    {
        if !(h >= 1 && h <= self.playbacks.len() && self.playbacks[h - 1].open) {
            return (Status::Failed, 0, Vec::new());
        }
        let k = self.playbacks[h - 1].recording;
        assert(self.playbacks@[h - 1].recording < self.recordings.len());
        let wanted = track.to_owned();
        let p = match find_named(&self.recordings[k].custom_tracks, &wanted) {
            Some(p) => p,
            None => return (Status::Failed, 0, Vec::new()),
        };
        let cursor = self.playbacks[h - 1].block_cursors[p];
        let count = self.recordings[k].custom_tracks[p].1.blocks.len();
        let position = if cursor > count { count } else { cursor };
        if position == 0 {
            return (Status::Eof, 0, Vec::new());
        }
        let stamp = self.recordings[k].custom_tracks[p].1.blocks[position - 1].0;
        let data = self.recordings[k].custom_tracks[p].1.blocks[position - 1].1.clone();
        self.playbacks[h - 1].block_cursors.set(p, position - 1);
        proof { self.lemma_playbacks_wf(old(self), h); }
        (Status::Succeeded, stamp, data)
    }
}

} // verus!
