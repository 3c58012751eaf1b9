//! Exclusively owned wrapper of a recording being written.
use vstd::prelude::*;
use crate::capture::Capture;
use crate::config::DeviceConfiguration;
use crate::device::Device;
use crate::error::Error;
use crate::refcount::{referenced, NULL_HANDLE};
use crate::runtime::{Api, SubtitleSettings, VideoSettings};
use crate::runtime::captures::can_share;
use crate::runtime::recording::capture_time;
use vstd::string::StringSliceAdditionalSpecFns;

verus! {

/// A recording file held open for writing. It is owned by whoever created
/// it; `release` closes it.
pub struct Record {
    handle: usize,
}

impl View for Record {
    type V = usize;

    /// The native handle this wrapper owns; the null handle once released.
    closed spec fn view(&self) -> usize {
        self.handle
    }
}

impl Record {
    /// The native handle this wrapper owns; the null handle once released.
    pub fn handle(&self) -> (r: usize)
        ensures
            r == self@,
    {
        self.handle
    }
    /// Creates a recording at `path` of an open device started with
    /// `device_configuration`.
    pub fn new(api: &mut Api, path: &str, device: &Device, device_configuration: &DeviceConfiguration) -> (r: Result<Record, Error>)
        requires
            old(api).wf(),
        ensures
            final(api).wf(),
            final(api).same_but_recording_tables(old(api)),
            final(api).capture_refs == old(api).capture_refs,
            final(api).playbacks == old(api).playbacks,
            old(api).device_is_open(device@) && old(api).recordings.len() < usize::MAX ==> {
                let made = final(api).recordings@.last();
                &&& r matches Ok(rec) && rec@ == old(api).recordings.len() + 1
                &&& final(api).recordings@.drop_last() == old(api).recordings@
                &&& made.path@ == path@
                &&& made.writing
                &&& !made.header_written
                &&& !made.imu_track
                &&& made.config == *device_configuration
                &&& made.raw_calibration@ == old(api).devices@[device@ - 1].raw_calibration@
                &&& made.captures@.len() == 0
            },
            !(old(api).device_is_open(device@) && old(api).recordings.len() < usize::MAX) ==> {
                &&& r matches Err(e) && e == Error::Failed
                &&& final(api).recordings == old(api).recordings
            },
    {
        let (status, handle) = api.record_create(path, device.handle(), *device_configuration);
        if status.is_success() {
            Ok(Record { handle })
        } else {
            Err(Error::from_status(status))
        }
    }

    /// Closes the recording, once: the wrapper then holds the null handle,
    /// so that a second release does nothing.
    pub fn release(&mut self, api: &mut Api)
        requires
            old(api).wf(),
        ensures
            final(api).wf(),
            final(self)@ == NULL_HANDLE,
            final(api).same_but_recording_tables(old(api)),
            final(api).capture_refs == old(api).capture_refs,
            final(api).playbacks == old(api).playbacks,
            old(api).recording_writing(old(self)@) ==> {
                let h = old(self)@;
                &&& final(api).recording_changed_keeping_metadata(old(api), h)
                &&& !final(api).recordings@[h - 1].writing
                &&& final(api).recordings@[h - 1].captures == old(api).recordings@[h - 1].captures
                &&& final(api).recordings@[h - 1].timestamps == old(api).recordings@[h - 1].timestamps
                &&& final(api).recordings@[h - 1].imu_track == old(api).recordings@[h - 1].imu_track
            },
            !old(api).recording_writing(old(self)@) ==> final(api).recordings == old(api).recordings,
    {
        api.record_close(self.handle);
        self.handle = NULL_HANDLE;
    }

    /// Flushes what was written.
    pub fn flush(&self, api: &Api) -> (r: Result<(), Error>)
        requires
            api.wf(),
        ensures
            r is Ok <==> api.recording_writing(self@),
            r matches Err(e) ==> e == Error::Failed,
    {
        api.record_flush(self.handle).to_result(())
    }

    /// Adds the motion track; only once, and only before the header.
    pub fn add_imu_track(&self, api: &mut Api) -> (r: Result<(), Error>)
        requires
            old(api).wf(),
        ensures
            final(api).wf(),
            final(api).same_but_recording_tables(old(api)),
            final(api).capture_refs == old(api).capture_refs,
            if old(api).recording_writing(self@) && !old(api).recordings@[self@ - 1].header_written
                && !old(api).recordings@[self@ - 1].imu_track {
                &&& r is Ok
                &&& final(api).recording_changed_keeping_metadata(old(api), self@)
                &&& final(api).recordings@[self@ - 1].imu_track
                &&& final(api).recordings@[self@ - 1].writing
                &&& !final(api).recordings@[self@ - 1].header_written
                &&& final(api).recordings@[self@ - 1].captures == old(api).recordings@[self@ - 1].captures
                &&& final(api).recordings@[self@ - 1].timestamps == old(api).recordings@[self@ - 1].timestamps
            } else {
                &&& r matches Err(e) && e == Error::Failed
                &&& final(api).recordings == old(api).recordings
                &&& final(api).playbacks == old(api).playbacks
            },
    {
        api.record_add_imu_track(self.handle).to_result(())
    }

    /// Writes the header; only once.
    pub fn write_header(&self, api: &mut Api) -> (r: Result<(), Error>)
        requires
            old(api).wf(),
        ensures
            final(api).wf(),
            final(api).same_but_recording_tables(old(api)),
            final(api).capture_refs == old(api).capture_refs,
            if old(api).recording_writing(self@) && !old(api).recordings@[self@ - 1].header_written {
                &&& r is Ok
                &&& final(api).recording_changed_keeping_metadata(old(api), self@)
                &&& final(api).recordings@[self@ - 1].header_written
                &&& final(api).recordings@[self@ - 1].writing
                &&& final(api).recordings@[self@ - 1].imu_track == old(api).recordings@[self@ - 1].imu_track
                &&& final(api).recordings@[self@ - 1].captures == old(api).recordings@[self@ - 1].captures
                &&& final(api).recordings@[self@ - 1].timestamps == old(api).recordings@[self@ - 1].timestamps
            } else {
                &&& r matches Err(e) && e == Error::Failed
                &&& final(api).recordings == old(api).recordings
                &&& final(api).playbacks == old(api).playbacks
            },
    {
        api.record_write_header(self.handle).to_result(())
    }

    /// Appends a capture, after the header; the file keeps its own
    /// reference to it.
    pub fn write_capture(&self, api: &mut Api, capture: &Capture) -> (r: Result<(), Error>)
        requires
            old(api).wf(),
        ensures
            final(api).wf(),
            final(api).same_but_recording_tables(old(api)),
            if old(api).recording_writing(self@) && old(api).recordings@[self@ - 1].header_written
                && can_share(old(api).capture_refs@, capture@) {
                let before = old(api).recordings@[self@ - 1];
                &&& r is Ok
                &&& final(api).capture_refs@ == referenced(old(api).capture_refs@, capture@)
                &&& final(api).recording_changed_keeping_metadata(old(api), self@)
                &&& final(api).recordings@[self@ - 1].writing
                &&& final(api).recordings@[self@ - 1].header_written
                &&& final(api).recordings@[self@ - 1].imu_track == before.imu_track
                &&& final(api).recordings@[self@ - 1].captures@ == before.captures@.push(capture@)
                &&& final(api).recordings@[self@ - 1].timestamps@ == before.timestamps@.push(
                    capture_time(old(api), capture@),
                )
            } else {
                &&& r matches Err(e) && e == Error::Failed
                &&& final(api).capture_refs == old(api).capture_refs
                &&& final(api).recordings == old(api).recordings
                &&& final(api).playbacks == old(api).playbacks
            },
    {
        api.record_write_capture(self.handle, capture.handle()).to_result(())
    }

    /// Adds a named text value, before the header.
    pub fn add_tag(&self, api: &mut Api, name: &str, value: &str) -> (r: Result<(), Error>)
        requires
            old(api).wf(),
        ensures
            final(api).wf(),
            final(api).same_but_recording_tables(old(api)),
            final(api).capture_refs == old(api).capture_refs,
            if old(api).recording_writing(self@) && !old(api).recordings@[self@ - 1].header_written {
                let (before, after) = (old(api).recordings@[self@ - 1], final(api).recordings@[self@ - 1]);
                &&& r is Ok
                &&& final(api).recording_changed(old(api), self@)
                &&& after.tags@.drop_last() == before.tags@
                &&& after.tags@.last().0@ == name@
                &&& after.tags@.last().1@ == value.spec_bytes()
                &&& after.attachments == before.attachments
                &&& after.captures == before.captures
            } else {
                &&& r matches Err(e) && e == Error::Failed
                &&& final(api).recordings == old(api).recordings
                &&& final(api).playbacks == old(api).playbacks
            },
    {
        api.record_add_tag(self.handle, name, value).to_result(())
    }

    /// Adds a named binary attachment, before the header.
    pub fn add_attachment(&self, api: &mut Api, attachment_name: &str, buffer: &[u8]) -> (r: Result<(), Error>)
        requires
            old(api).wf(),
        ensures
            final(api).wf(),
            final(api).same_but_recording_tables(old(api)),
            final(api).capture_refs == old(api).capture_refs,
            if old(api).recording_writing(self@) && !old(api).recordings@[self@ - 1].header_written {
                let (before, after) = (old(api).recordings@[self@ - 1], final(api).recordings@[self@ - 1]);
                &&& r is Ok
                &&& final(api).recording_changed(old(api), self@)
                &&& after.attachments@.drop_last() == before.attachments@
                &&& after.attachments@.last().0@ == attachment_name@
                &&& after.attachments@.last().1@ == buffer@
                &&& after.tags == before.tags
                &&& after.captures == before.captures
            } else {
                &&& r matches Err(e) && e == Error::Failed
                &&& final(api).recordings == old(api).recordings
                &&& final(api).playbacks == old(api).playbacks
            },
    {
        api.record_add_attachment(self.handle, attachment_name, buffer).to_result(())
    }

    /// Adds a custom video track, before the header; its name must be new
    /// and not that of a built-in track.
    pub fn add_custom_video_track(
        &self,
        api: &mut Api,
        track_name: &str,
        codec_id: &str,
        codec_context: &[u8],
        track_settings: &VideoSettings,
    ) -> (r: Result<(), Error>)
        requires
            old(api).wf(),
        ensures
            final(api).wf(),
            final(api).same_but_recording_tables(old(api)),
            final(api).capture_refs == old(api).capture_refs,
            if old(api).can_add_custom_track(self@, track_name@) {
                &&& r is Ok
                &&& final(api).custom_track_added(old(api), self@, track_name@, track_name.spec_bytes(),
                    codec_id.spec_bytes(), codec_context@, Some(*track_settings), None)
            } else {
                &&& r matches Err(e) && e == Error::Failed
                &&& final(api).recordings == old(api).recordings
                &&& final(api).playbacks == old(api).playbacks
            },
    {
        api.record_add_custom_track(self.handle, track_name, codec_id, codec_context, Some(*track_settings), None).to_result(())
    }

    /// Adds a custom subtitle track, before the header; its name must be new
    /// and not that of a built-in track.
    pub fn add_custom_subtitle_track(
        &self,
        api: &mut Api,
        track_name: &str,
        codec_id: &str,
        codec_context: &[u8],
        track_settings: &SubtitleSettings,
    ) -> (r: Result<(), Error>)
        requires
            old(api).wf(),
        ensures
            final(api).wf(),
            final(api).same_but_recording_tables(old(api)),
            final(api).capture_refs == old(api).capture_refs,
            if old(api).can_add_custom_track(self@, track_name@) {
                &&& r is Ok
                &&& final(api).custom_track_added(old(api), self@, track_name@, track_name.spec_bytes(),
                    codec_id.spec_bytes(), codec_context@, None, Some(*track_settings))
            } else {
                &&& r matches Err(e) && e == Error::Failed
                &&& final(api).recordings == old(api).recordings
                &&& final(api).playbacks == old(api).playbacks
            },
    {
        api.record_add_custom_track(self.handle, track_name, codec_id, codec_context, None, Some(*track_settings)).to_result(())
    }

    /// Appends a block of data, taken at `device_timestamp_usec`, to a
    /// custom track, after the header.
    pub fn write_custom_track_data(
        &self,
        api: &mut Api,
        track_name: &str,
        device_timestamp_usec: u64,
        custom_data: &[u8],
    ) -> (r: Result<(), Error>)
        requires
            old(api).wf(),
        ensures
            final(api).wf(),
            final(api).same_but_recording_tables(old(api)),
            final(api).capture_refs == old(api).capture_refs,
            if old(api).can_write_custom_data(self@, track_name@) {
                &&& r is Ok
                &&& final(api).custom_data_written(old(api), self@, track_name@, device_timestamp_usec, custom_data@)
            } else {
                &&& r matches Err(e) && e == Error::Failed
                &&& final(api).recordings == old(api).recordings
                &&& final(api).playbacks == old(api).playbacks
            },
    {
        api.record_write_custom_track_data(self.handle, track_name, device_timestamp_usec, custom_data).to_result(())
    }
}

} // verus!
