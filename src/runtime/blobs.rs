//! Variable-length outputs of the native runtime.
//!
//! The runtime hands these out in two calls: a call with too small a buffer
//! reports `BufferTooSmall` and the size it needs; a call with room enough
//! fills the buffer.
use vstd::prelude::*;
use crate::error::Status;
use super::Api;
use super::recording::{find_named, named_value, track_count};
use super::tracks::{custom_track_of, track_name_bytes, track_name_of};

verus! {

/// A variable-length output of the runtime, with the handle it is read from.
#[derive(Debug)]
pub enum Blob {
    /// The serial number of an open device, as text ending in a zero byte.
    SerialNumber(usize),
    /// The factory calibration blob of an open device.
    RawCalibration(usize),
    /// The calibration blob of the device that made the recording an open
    /// playback reads.
    PlaybackCalibration(usize),
    /// The value of the latest tag with this name in the recording an open
    /// playback reads, as text ending in a zero byte.
    Tag(usize, String),
    /// The latest attachment with this name in the recording an open
    /// playback reads.
    Attachment(usize, String),
    /// The name of a track, by position, in the recording an open playback
    /// reads, as text ending in a zero byte.
    TrackName(usize, usize),
    /// The codec id of a custom track, as text ending in a zero byte.
    CodecId(usize, String),
    /// The codec context of a custom track.
    CodecContext(usize, String),
}

/// What one call for a variable-length output reports.
pub struct BlobReply {
    pub status: Status,
    /// The size of the whole output, in bytes.
    pub size: usize,
    /// The output, where it fit.
    pub data: Vec<u8>,
}

impl Api {
    /// The value of the latest tag named `name` in the recording playback
    /// `h` reads, ending in a zero byte.
    pub open spec fn tag_content(&self, h: usize, name: Seq<char>) -> Option<Seq<u8>> {
        if self.playback_is_open(h) {
            match named_value(self.played(h).tags@, name) {
                Some(v) => Some(v.push(0u8)),
                None => None,
            }
        } else {
            None
        }
    }

    /// The latest attachment named `name` in the recording playback `h`
    /// reads.
    pub open spec fn attachment_content(&self, h: usize, name: Seq<char>) -> Option<Seq<u8>> {
        if self.playback_is_open(h) {
            named_value(self.played(h).attachments@, name)
        } else {
            None
        }
    }

    /// The bytes of output `b`, or `None` where its handle names nothing.
    pub open spec fn blob_content(&self, b: Blob) -> Option<Seq<u8>> {
        match b {
            Blob::SerialNumber(h) => if self.device_is_open(h) {
                Some(self.devices@[h - 1].serial@.push(0u8))
            } else {
                None
            },
            Blob::RawCalibration(h) => if self.device_is_open(h) {
                Some(self.devices@[h - 1].raw_calibration@)
            } else {
                None
            },
            Blob::PlaybackCalibration(h) => if self.playback_is_open(h) {
                Some(self.played(h).raw_calibration@)
            } else {
                None
            },
            Blob::Tag(h, name) => self.tag_content(h, name@),
            Blob::Attachment(h, name) => self.attachment_content(h, name@),
            Blob::TrackName(h, i) => if self.playback_is_open(h) && i < track_count(self.played(h)) {
                Some(track_name_bytes(self.played(h), i as int).push(0u8))
            } else {
                None
            },
            Blob::CodecId(h, name) => if self.playback_is_open(h) {
                match custom_track_of(self.played(h), name@) {
                    Some(t) => Some(t.codec_id@.push(0u8)),
                    None => None,
                }
            } else {
                None
            },
            Blob::CodecContext(h, name) => if self.playback_is_open(h) {
                match custom_track_of(self.played(h), name@) {
                    Some(t) => Some(t.codec_context@),
                    None => None,
                }
            } else {
                None
            },
        }
    }

    /// Reads output `b` into a buffer of `capacity` bytes.
    pub fn read_blob(&self, b: &Blob, capacity: usize) -> (r: BlobReply)
        requires
            self.wf(),
        ensures
            match self.blob_content(*b) {
                None => r.status == Status::Failed && r.size == 0 && r.data@.len() == 0,
                Some(c) => {
                    &&& r.size == c.len()
                    &&& capacity < c.len() ==> r.status == Status::BufferTooSmall && r.data@.len() == 0
                    &&& capacity >= c.len() ==> r.status == Status::Succeeded && r.data@ == c
                },
            },
    {
        let content: Vec<u8> = match b {
            Blob::SerialNumber(h) => {
                let h = *h;
                if !(h >= 1 && h <= self.devices.len() && self.devices[h - 1].open) {
                    return BlobReply { status: Status::Failed, size: 0, data: Vec::new() };
                }
                let mut text = self.devices[h - 1].serial.clone();
                text.push(0u8);
                text
            },
            Blob::RawCalibration(h) => {
                let h = *h;
                if !(h >= 1 && h <= self.devices.len() && self.devices[h - 1].open) {
                    return BlobReply { status: Status::Failed, size: 0, data: Vec::new() };
                }
                self.devices[h - 1].raw_calibration.clone()
            },
            Blob::PlaybackCalibration(h) => {
                let h = *h;
                if !(h >= 1 && h <= self.playbacks.len() && self.playbacks[h - 1].open) {
                    return BlobReply { status: Status::Failed, size: 0, data: Vec::new() };
                }
                self.recordings[self.playbacks[h - 1].recording].raw_calibration.clone()
            },
            Blob::Tag(h, name) => {
                let h = *h;
                if !(h >= 1 && h <= self.playbacks.len() && self.playbacks[h - 1].open) {
                    return BlobReply { status: Status::Failed, size: 0, data: Vec::new() };
                }
                let tags = &self.recordings[self.playbacks[h - 1].recording].tags;
                match find_named(tags, name) {
                    Some(i) => {
                        let mut text = tags[i].1.clone();
                        text.push(0u8);
                        text
                    },
                    None => return BlobReply { status: Status::Failed, size: 0, data: Vec::new() },
                }
            },
            Blob::Attachment(h, name) => {
                let h = *h;
                if !(h >= 1 && h <= self.playbacks.len() && self.playbacks[h - 1].open) {
                    return BlobReply { status: Status::Failed, size: 0, data: Vec::new() };
                }
                let attachments = &self.recordings[self.playbacks[h - 1].recording].attachments;
                match find_named(attachments, name) {
                    Some(i) => attachments[i].1.clone(),
                    None => return BlobReply { status: Status::Failed, size: 0, data: Vec::new() },
                }
            },
            Blob::TrackName(h, i) => {
                let (h, i) = (*h, *i);
                if !(h >= 1 && h <= self.playbacks.len() && self.playbacks[h - 1].open) {
                    return BlobReply { status: Status::Failed, size: 0, data: Vec::new() };
                }
                let rec = &self.recordings[self.playbacks[h - 1].recording];
                let count = self.playback_track_count(h);
                if i >= count {
                    return BlobReply { status: Status::Failed, size: 0, data: Vec::new() };
                }
                let mut text = track_name_of(rec, i);
                text.push(0u8);
                text
            },
            Blob::CodecId(h, name) => {
                let h = *h;
                if !(h >= 1 && h <= self.playbacks.len() && self.playbacks[h - 1].open) {
                    return BlobReply { status: Status::Failed, size: 0, data: Vec::new() };
                }
                let tracks = &self.recordings[self.playbacks[h - 1].recording].custom_tracks;
                match find_named(tracks, name) {
                    Some(k) => {
                        let mut text = tracks[k].1.codec_id.clone();
                        text.push(0u8);
                        text
                    },
                    None => return BlobReply { status: Status::Failed, size: 0, data: Vec::new() },
                }
            },
            Blob::CodecContext(h, name) => {
                let h = *h;
                if !(h >= 1 && h <= self.playbacks.len() && self.playbacks[h - 1].open) {
                    return BlobReply { status: Status::Failed, size: 0, data: Vec::new() };
                }
                let tracks = &self.recordings[self.playbacks[h - 1].recording].custom_tracks;
                match find_named(tracks, name) {
                    Some(k) => tracks[k].1.codec_context.clone(),
                    None => return BlobReply { status: Status::Failed, size: 0, data: Vec::new() },
                }
            },
        };
        let size = content.len();
        if capacity < size {
            BlobReply { status: Status::BufferTooSmall, size, data: Vec::new() }
        } else {
            BlobReply { status: Status::Succeeded, size, data: content }
        }
    }
}

} // verus!
