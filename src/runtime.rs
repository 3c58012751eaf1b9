//! The native runtime: the handle tables and queues behind every wrapper.
//!
//! `Api` holds what the runtime keeps for each object kind. Shared objects
//! (images, captures, result frames) live in tables with one reference count
//! per object; devices and trackers are owned exclusively. Every entry point
//! is total: a handle that names nothing yields a failure status or a safe
//! default, never a fault.
use vstd::prelude::*;
use crate::body::Body;
use crate::config::{
    Calibration, ColorControlCapabilities, ColorControlCommand, ColorControlMode, DeviceConfiguration, HardwareVersion,
    ImageFormat, TrackerConfiguration,
};

pub mod blobs;
pub mod captures;
pub mod controls;
pub mod devices;
pub mod images;
pub mod playback;
pub mod recording;
pub mod tracking;
pub mod tracks;

verus! {

/// One setting of a device's color camera, with what it accepts.
#[derive(Clone, Copy, Debug, PartialEq, Eq, Structural)]
pub struct ColorControlSlot {
    pub command: ColorControlCommand,
    pub capabilities: ColorControlCapabilities,
    pub mode: ColorControlMode,
    pub value: i32,
}

/// What the runtime keeps for one installed device.
pub struct DeviceSlot {
    /// The serial number, as text without its terminating zero.
    pub serial: Vec<u8>,
    /// The factory calibration blob.
    pub raw_calibration: Vec<u8>,
    pub open: bool,
    pub cameras_running: bool,
    pub imu_running: bool,
    pub sync_in_connected: bool,
    pub sync_out_connected: bool,
    /// The firmware versions; `None` until the device reports them.
    pub version: Option<HardwareVersion>,
    /// The color settings the camera offers.
    pub color_controls: Vec<ColorControlSlot>,
    /// Captures the cameras produced that nobody has read yet, oldest first.
    /// The queue owns one reference to each.
    pub queue: Vec<usize>,
}

/// What the runtime keeps for one image.
pub struct ImageSlot {
    pub format: ImageFormat,
    pub width_pixels: i32,
    pub height_pixels: i32,
    pub stride_bytes: i32,
    pub buffer: Vec<u8>,
    pub device_timestamp_usec: u64,
    pub system_timestamp_nsec: u64,
    pub exposure_usec: u64,
    pub white_balance: u32,
    pub iso_speed: u32,
}

/// What the runtime keeps for one capture: the handles of the images it
/// holds a reference to, or the null handle.
#[derive(Clone, Copy, Debug, PartialEq, Eq, Structural)]
pub struct CaptureSlot {
    pub color: usize,
    pub depth: usize,
    pub ir: usize,
}

/// What the runtime keeps for one body-tracking result.
pub struct FrameSlot {
    pub bodies: Vec<Body>,
    pub device_timestamp_usec: u64,
}

/// What the runtime keeps for one body tracker.
pub struct TrackerSlot {
    pub running: bool,
    pub calibration: Calibration,
    pub config: TrackerConfiguration,
    /// Results not popped yet, oldest first; the queue owns each.
    pub results: Vec<usize>,
}

/// Shape and rate of a video track.
#[derive(Clone, Copy, Debug, PartialEq, Eq, Structural)]
pub struct VideoSettings {
    pub width: u64,
    pub height: u64,
    pub frame_rate: u64,
}

/// Settings of a subtitle track.
#[derive(Clone, Copy, Debug, PartialEq, Eq, Structural)]
pub struct SubtitleSettings {
    /// Blocks come more often than once per video frame.
    pub high_freq_data: bool,
}

/// A track that the recorder's caller added beside the built-in ones.
pub struct CustomTrack {
    /// The track's name, as text without a terminating zero.
    pub name_bytes: Vec<u8>,
    /// The codec id, as text without a terminating zero.
    pub codec_id: Vec<u8>,
    pub codec_context: Vec<u8>,
    /// The settings of a video track; `None` for a subtitle track.
    pub video: Option<VideoSettings>,
    /// The settings of a subtitle track; `None` for a video track.
    pub subtitle: Option<SubtitleSettings>,
    /// The data written to the track, each block with its device time.
    pub blocks: Vec<(u64, Vec<u8>)>,
}

/// What the runtime keeps for one recording file.
pub struct RecordingSlot {
    pub path: String,
    /// Held open by a recorder.
    pub writing: bool,
    pub header_written: bool,
    pub imu_track: bool,
    /// The settings of the device the recording was made with.
    pub config: DeviceConfiguration,
    /// The calibration blob of that device.
    pub raw_calibration: Vec<u8>,
    /// Named text values, as text without a terminating zero.
    pub tags: Vec<(String, Vec<u8>)>,
    /// Named binary attachments.
    pub attachments: Vec<(String, Vec<u8>)>,
    /// The custom tracks, by name, in the order they were added.
    pub custom_tracks: Vec<(String, CustomTrack)>,
    /// The captures written, in order; the file holds a reference to each.
    pub captures: Vec<usize>,
    /// The device time of each written capture.
    pub timestamps: Vec<u64>,
}

/// What the runtime keeps for one playback session.
pub struct PlaybackSlot {
    pub open: bool,
    /// The position of the recording in the recording table.
    pub recording: usize,
    /// The position of the capture that `next` reads.
    pub cursor: usize,
    pub color_conversion: ImageFormat,
    /// For each custom track of the recording, in order, the position of
    /// the data block that `next` reads.
    pub block_cursors: Vec<usize>,
}

/// The native runtime.
pub struct Api {
    pub devices: Vec<DeviceSlot>,
    pub image_refs: Vec<u64>,
    pub images: Vec<ImageSlot>,
    pub capture_refs: Vec<u64>,
    pub captures: Vec<CaptureSlot>,
    pub frame_refs: Vec<u64>,
    pub frames: Vec<FrameSlot>,
    pub trackers: Vec<TrackerSlot>,
    /// Detections the inference engine will report, in order, one per
    /// capture that a tracker takes in.
    pub detections: Vec<Vec<Body>>,
    pub recordings: Vec<RecordingSlot>,
    pub playbacks: Vec<PlaybackSlot>,
}

/// How many results a tracker holds before it refuses more input.
///
/// This bound is the model's own choice: the vendor runtime does not document
/// the depth of its result queue, and a real tracker may hold more or fewer.
pub const TRACKER_QUEUE_CAPACITY: usize = 3;

impl Api {
    /// The tables agree with their reference counts, and every count that
    /// the entry points hand out as a `u32` fits in one.
    pub open spec fn wf(&self) -> bool {
        &&& self.devices.len() < u32::MAX
        &&& self.image_refs.len() == self.images.len()
        &&& self.capture_refs.len() == self.captures.len()
        &&& self.frame_refs.len() == self.frames.len()
        &&& forall|i: int| 0 <= i < self.devices.len() ==> #[trigger] self.devices@[i].serial.len() < usize::MAX
        &&& forall|i: int| 0 <= i < self.frames.len() ==> #[trigger] self.frames@[i].bodies.len() <= u32::MAX
        &&& forall|i: int| 0 <= i < self.detections.len() ==> #[trigger] self.detections@[i].len() <= u32::MAX
        &&& forall|i: int| 0 <= i < self.recordings.len() ==> {
            &&& #[trigger] self.recordings@[i].captures.len() == self.recordings@[i].timestamps.len()
            &&& self.recordings@[i].custom_tracks.len() + 4 <= usize::MAX
        }
        &&& forall|i: int| 0 <= i < self.playbacks.len() ==> {
            &&& #[trigger] self.playbacks@[i].recording < self.recordings.len()
            &&& self.playbacks@[i].cursor <= self.recordings@[self.playbacks@[i].recording as int].captures.len()
            &&& !self.recordings@[self.playbacks@[i].recording as int].writing
            &&& self.playbacks@[i].block_cursors@.len() == self.recordings@[self.playbacks@[i].recording as int].custom_tracks.len()
        }
    }

    /// Everything but the image records is as in `other`.
    pub open spec fn same_but_images(&self, other: &Api) -> bool {
        &&& self.devices == other.devices
        &&& self.image_refs == other.image_refs
        &&& self.capture_refs == other.capture_refs
        &&& self.captures == other.captures
        &&& self.frame_refs == other.frame_refs
        &&& self.frames == other.frames
        &&& self.trackers == other.trackers
        &&& self.detections == other.detections
        &&& self.recordings == other.recordings
        &&& self.playbacks == other.playbacks
    }

    /// Everything but the image and capture tables is as in `other`.
    pub open spec fn same_but_images_and_captures(&self, other: &Api) -> bool {
        &&& self.devices == other.devices
        &&& self.frame_refs == other.frame_refs
        &&& self.frames == other.frames
        &&& self.trackers == other.trackers
        &&& self.detections == other.detections
        &&& self.recordings == other.recordings
        &&& self.playbacks == other.playbacks
    }

    /// A runtime with no device installed and no object created.
    pub fn new() -> (api: Api)
        ensures
            api.wf(),
            api.devices@.len() == 0,
            api.image_refs@.len() == 0,
            api.capture_refs@.len() == 0,
            api.frame_refs@.len() == 0,
            api.trackers@.len() == 0,
            api.detections@.len() == 0,
            api.recordings@.len() == 0,
            api.playbacks@.len() == 0,
    {
        Api {
            devices: Vec::new(),
            image_refs: Vec::new(),
            images: Vec::new(),
            capture_refs: Vec::new(),
            captures: Vec::new(),
            frame_refs: Vec::new(),
            frames: Vec::new(),
            trackers: Vec::new(),
            detections: Vec::new(),
            recordings: Vec::new(),
            playbacks: Vec::new(),
        }
    }
}

} // verus!
