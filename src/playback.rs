//! Exclusively owned wrapper of a playback session.
use vstd::prelude::*;
use crate::capture::Capture;
use crate::playback_data_block::PlaybackDataBlock;
use crate::playback_track::PlaybackTrack;
use crate::config::{Calibration, ImageFormat};
use crate::device::capture_view;
use crate::error::Error;
use crate::fetch::{bytes_view, chars_view, fetch_bytes, fetch_text, fetched, fetched_from, fetched_text_from};
use crate::refcount::{referenced, NULL_HANDLE};
use crate::runtime::{Api, PlaybackSlot};
use crate::runtime::blobs::Blob;
use crate::runtime::captures::can_share;
use crate::runtime::tracks::track_name_bytes;
use crate::runtime::playback::seek_target;
use crate::runtime::recording::{
    record_configuration_of, RecordConfiguration, is_conversion_format, is_latest_recording, is_latest_time, is_seek_position, plays_from, track_count,
    SeekOrigin,
};

verus! {

/// What reading forward from playback `h` yields: the capture at the
/// cursor; `Eof` at the end; a failure where the playback is not open.
pub open spec fn next_recorded(api: &Api, h: usize) -> Result<usize, Error> {
    if !api.playback_is_open(h) {
        Err(Error::Failed)
    } else {
        let cursor = api.playbacks@[h - 1].cursor;
        let captures = api.played(h).captures@;
        if cursor == captures.len() {
            Err(Error::Eof)
        } else if !can_share(api.capture_refs@, captures[cursor as int]) {
            Err(Error::Failed)
        } else {
            Ok(captures[cursor as int])
        }
    }
}

/// What reading backward from playback `h` yields: the capture before the
/// cursor; `Eof` at the start; a failure where the playback is not open.
pub open spec fn previous_recorded(api: &Api, h: usize) -> Result<usize, Error> {
    if !api.playback_is_open(h) {
        Err(Error::Failed)
    } else {
        let cursor = api.playbacks@[h - 1].cursor;
        let captures = api.played(h).captures@;
        if cursor == 0 {
            Err(Error::Eof)
        } else if !can_share(api.capture_refs@, captures[cursor - 1]) {
            Err(Error::Failed)
        } else {
            Ok(captures[cursor - 1])
        }
    }
}

/// A recording opened for reading. It is owned by whoever opened it;
/// `release` closes it.
pub struct Playback {
    handle: usize,
}

impl View for Playback {
    type V = usize;

    /// The native handle this wrapper owns; the null handle once released.
    closed spec fn view(&self) -> usize {
        self.handle
    }
}

impl Playback {
    /// The native handle this wrapper owns; the null handle once released.
    pub fn handle(&self) -> (r: usize)
        ensures
            r == self@,
    {
        self.handle
    }
    /// Opens the latest finished recording at `path`, its cursor at the
    /// start.
    pub fn playback_open(api: &mut Api, path: &str) -> (r: Result<Playback, Error>)
        requires
            old(api).wf(),
        ensures
            final(api).wf(),
            final(api).same_but_recording_tables(old(api)),
            final(api).capture_refs == old(api).capture_refs,
            final(api).recordings == old(api).recordings,
            r is Ok == ((exists|j: int| 0 <= j < old(api).recordings.len()
                && plays_from(#[trigger] old(api).recordings@[j], path@)) && old(api).playbacks.len() < usize::MAX),
            r matches Ok(p) ==> {
                let made = final(api).playbacks@.last();
                &&& p@ == old(api).playbacks.len() + 1
                &&& final(api).playbacks@.drop_last() == old(api).playbacks@
                &&& is_latest_recording(old(api).recordings@, path@, made.recording as int)
                &&& made.open
                &&& made.cursor == 0
                &&& made.color_conversion == old(api).recordings@[made.recording as int].config.color_format
            },
            r matches Err(e) ==> e == Error::Failed && final(api).playbacks == old(api).playbacks,
    {
        let (status, handle) = api.playback_open(path);
        if status.is_success() {
            Ok(Playback { handle })
        } else {
            Err(Error::from_status(status))
        }
    }

    /// Closes the playback, once: the wrapper then holds the null handle,
    /// so that a second release does nothing.
    pub fn release(&mut self, api: &mut Api)
        requires
            old(api).wf(),
        ensures
            final(api).wf(),
            final(self)@ == NULL_HANDLE,
            final(api).same_but_recording_tables(old(api)),
            final(api).capture_refs == old(api).capture_refs,
            final(api).recordings == old(api).recordings,
            old(api).playback_is_open(old(self)@) ==> final(api).playbacks@ == old(api).playbacks@.update(
                old(self)@ - 1,
                PlaybackSlot { open: false, ..old(api).playbacks@[old(self)@ - 1] },
            ),
            !old(api).playback_is_open(old(self)@) ==> final(api).playbacks == old(api).playbacks,
    {
        api.playback_close(self.handle);
        self.handle = NULL_HANDLE;
    }

    /// The calibration blob of the device that made the recording.
    pub fn get_raw_calibration(&self, api: &Api) -> (r: Result<Vec<u8>, Error>)
        requires
            api.wf(),
        ensures
            bytes_view(r) == fetched(api, Blob::PlaybackCalibration(self@)),
    {
        fetch_bytes(api, &Blob::PlaybackCalibration(self.handle))
    }

    /// The calibration of the device that made the recording, for the modes
    /// it recorded with.
    pub fn get_calibration(&self, api: &Api) -> (r: Result<Calibration, Error>)
        requires
            api.wf(),
        ensures
            api.playback_is_open(self@) ==> r == Ok::<Calibration, Error>(Calibration {
                depth_mode: api.played(self@).config.depth_mode,
                color_resolution: api.played(self@).config.color_resolution,
            }),
            !api.playback_is_open(self@) ==> r == Err::<Calibration, Error>(Error::Failed),
    {
        let (status, calibration) = api.playback_calibration(self.handle);
        status.to_result(calibration)
    }

    /// Reads the capture at the cursor and moves past it. The end of the
    /// recording is `Eof`; neither it nor a failure makes a wrapper or
    /// changes the runtime.
    pub fn get_next_capture(&self, api: &mut Api) -> (r: Result<Capture, Error>)
        requires
            old(api).wf(),
        ensures
            final(api).wf(),
            capture_view(r) == next_recorded(old(api), self@),
            r is Err ==> *final(api) == *old(api),
            r matches Ok(c) ==> {
                &&& final(api).capture_refs@ == referenced(old(api).capture_refs@, c@)
                &&& final(api).playback_moved(old(api), self@)
                &&& final(api).playbacks@[self@ - 1].cursor == old(api).playbacks@[self@ - 1].cursor + 1
            },
    {
        let (status, handle) = api.playback_next_capture(self.handle);
        if status.is_success() {
            Ok(Capture::from_handle(handle))
        } else {
            Err(Error::from_status(status))
        }
    }

    /// Moves the cursor back by one and reads the capture there. The start
    /// of the recording is `Eof`; neither it nor a failure makes a wrapper or
    /// changes the runtime.
    pub fn get_previous_capture(&self, api: &mut Api) -> (r: Result<Capture, Error>)
        requires
            old(api).wf(),
        ensures
            final(api).wf(),
            capture_view(r) == previous_recorded(old(api), self@),
            r is Err ==> *final(api) == *old(api),
            r matches Ok(c) ==> {
                &&& final(api).capture_refs@ == referenced(old(api).capture_refs@, c@)
                &&& final(api).playback_moved(old(api), self@)
                &&& final(api).playbacks@[self@ - 1].cursor == old(api).playbacks@[self@ - 1].cursor - 1
            },
    {
        let (status, handle) = api.playback_previous_capture(self.handle);
        if status.is_success() {
            Ok(Capture::from_handle(handle))
        } else {
            Err(Error::from_status(status))
        }
    }

    /// Moves the cursor to the first capture taken at or after the target
    /// time; fails where the target lies outside the recording.
    pub fn seek_timestamp(&self, api: &mut Api, offset_usec: i64, origin: SeekOrigin) -> (r: Result<(), Error>)
        requires
            old(api).wf(),
        ensures
            final(api).wf(),
            final(api).capture_refs == old(api).capture_refs,
            r matches Err(e) ==> e == Error::Failed && *final(api) == *old(api),
            !old(api).playback_is_open(self@) ==> r is Err,
            old(api).playback_is_open(self@) ==> {
                let ts = old(api).played(self@).timestamps@;
                &&& r is Ok <==> (exists|length: u64| #[trigger] is_latest_time(ts, length)
                    && 0 <= seek_target(length, offset_usec, origin) <= length)
                &&& r is Ok ==> {
                    &&& final(api).playback_moved(old(api), self@)
                    &&& forall|length: u64| #[trigger] is_latest_time(ts, length) ==> is_seek_position(
                        ts,
                        seek_target(length, offset_usec, origin),
                        final(api).playbacks@[self@ - 1].cursor as int,
                    )
                }
            },
    {
        api.playback_seek(self.handle, offset_usec, origin).to_result(())
    }

    /// The device time of the latest capture in the recording; zero where
    /// it has none.
    pub fn get_recording_length_usec(&self, api: &Api) -> (r: u64)
        requires
            api.wf(),
        ensures
            api.playback_is_open(self@) ==> is_latest_time(api.played(self@).timestamps@, r),
            !api.playback_is_open(self@) ==> r == 0,
    {
        api.playback_length_usec(self.handle)
    }

    /// Sets the format color images are converted to: BGRA32, NV12 or YUY2.
    pub fn set_color_conversion(&self, api: &mut Api, format: ImageFormat) -> (r: Result<(), Error>)
        requires
            old(api).wf(),
        ensures
            final(api).wf(),
            final(api).capture_refs == old(api).capture_refs,
            if old(api).playback_is_open(self@) && is_conversion_format(format) {
                &&& r is Ok
                &&& final(api).playback_moved(old(api), self@)
                &&& final(api).playbacks@[self@ - 1].cursor == old(api).playbacks@[self@ - 1].cursor
                &&& final(api).playbacks@[self@ - 1].color_conversion == format
            } else {
                &&& r matches Err(e) && e == Error::Failed
                &&& *final(api) == *old(api)
            },
    {
        api.playback_set_color_conversion(self.handle, format).to_result(())
    }

    /// The number of tracks in the recording.
    pub fn get_track_count(&self, api: &Api) -> (r: usize)
        requires
            api.wf(),
        ensures
            r == (if api.playback_is_open(self@) { track_count(api.played(self@)) } else { 0 }),
    {
        api.playback_track_count(self.handle)
    }

    /// The value of the latest tag named `name`, as text.
    pub fn get_tag(&self, api: &Api, name: &str) -> (r: Result<String, Error>)
        requires
            api.wf(),
        ensures
            chars_view(r) == fetched_text_from(api.tag_content(self@, name@)),
    {
        fetch_text(api, &Blob::Tag(self.handle, name.to_owned()))
    }

    /// The latest attachment named `attachment`.
    pub fn get_attachment(&self, api: &Api, attachment: &str) -> (r: Result<Vec<u8>, Error>)
        requires
            api.wf(),
        ensures
            bytes_view(r) == fetched_from(api.attachment_content(self@, attachment@)),
    {
        fetch_bytes(api, &Blob::Attachment(self.handle, attachment.to_owned()))
    }

    /// The settings the recording was made with, and which tracks it holds.
    pub fn get_record_configuration(&self, api: &Api) -> (r: Result<RecordConfiguration, Error>)
        requires
            api.wf(),
        ensures
            api.playback_is_open(self@) ==> r == Ok::<RecordConfiguration, Error>(
                record_configuration_of(api.played(self@)),
            ),
            !api.playback_is_open(self@) ==> r == Err::<RecordConfiguration, Error>(Error::Failed),
    {
        match api.playback_record_configuration(self.handle) {
            Some(c) => Ok(c),
            None => Err(Error::Failed),
        }
    }

    /// Track `track_index` of the recording: the built-in tracks first,
    /// then the custom ones in the order they were added.
    pub fn get_track(&self, api: &Api, track_index: usize) -> (r: Result<PlaybackTrack, Error>)
        requires
            api.wf(),
        ensures
            r matches Ok(t) ==> t.playback == self@,
            ({
                let content = if api.playback_is_open(self@) && track_index < track_count(api.played(self@)) {
                    Some(track_name_bytes(api.played(self@), track_index as int).push(0u8))
                } else {
                    None
                };
                &&& fetched_text_from(content) matches Ok(name) ==> (r matches Ok(t) && t.name@ == name)
                &&& fetched_text_from(content) matches Err(e) ==> r == Err::<PlaybackTrack, Error>(e)
            }),
    {
        match fetch_text(api, &Blob::TrackName(self.handle, track_index)) {
            Ok(name) => Ok(PlaybackTrack::new(self.handle, name)),
            Err(e) => Err(e),
        }
    }

    /// Reads the next data block of custom track `track` and moves past it.
    /// The end of the track is `Eof`; neither it nor a failure (no such
    /// track) changes the runtime.
    pub fn get_next_data_block(&self, api: &mut Api, track: &str) -> (r: Result<PlaybackDataBlock, Error>)
        requires
            old(api).wf(),
        ensures
            final(api).wf(),
            !(old(api).playback_is_open(self@) && old(api).played_track_position(self@, track@) >= 0) ==> {
                &&& r matches Err(e) && e == Error::Failed
                &&& *final(api) == *old(api)
            },
            old(api).playback_is_open(self@) && old(api).played_track_position(self@, track@) >= 0 ==> {
                let p = old(api).played_track_position(self@, track@);
                let blocks = old(api).played(self@).custom_tracks@[p].1.blocks@;
                let position = old(api).playbacks@[self@ - 1].block_cursors@[p];
                if position >= blocks.len() {
                    &&& r matches Err(e) && e == Error::Eof
                    &&& *final(api) == *old(api)
                } else {
                    &&& r matches Ok(b) && b.device_timestamp_usec == blocks[position as int].0
                        && b.buffer@ == blocks[position as int].1@
                    &&& final(api).block_cursor_moved(old(api), self@, p, (position + 1) as usize)
                }
            },
    {
        let (status, device_timestamp_usec, buffer) = api.playback_next_data_block(self.handle, track);
        if status.is_success() {
            Ok(PlaybackDataBlock { device_timestamp_usec, buffer })
        } else {
            Err(Error::from_status(status))
        }
    }

    /// Moves the cursor of custom track `track` back by one and reads the
    /// data block there. The start of the track is `Eof`; neither it nor a
    /// failure (no such track) changes the runtime.
    pub fn get_previous_data_block(&self, api: &mut Api, track: &str) -> (r: Result<PlaybackDataBlock, Error>)
        requires
            old(api).wf(),
        ensures
            final(api).wf(),
            !(old(api).playback_is_open(self@) && old(api).played_track_position(self@, track@) >= 0) ==> {
                &&& r matches Err(e) && e == Error::Failed
                &&& *final(api) == *old(api)
            },
            old(api).playback_is_open(self@) && old(api).played_track_position(self@, track@) >= 0 ==> {
                let p = old(api).played_track_position(self@, track@);
                let blocks = old(api).played(self@).custom_tracks@[p].1.blocks@;
                let cursor = old(api).playbacks@[self@ - 1].block_cursors@[p];
                let position = if cursor > blocks.len() { blocks.len() as int } else { cursor as int };
                if position == 0 {
                    &&& r matches Err(e) && e == Error::Eof
                    &&& *final(api) == *old(api)
                } else {
                    &&& r matches Ok(b) && b.device_timestamp_usec == blocks[position - 1].0
                        && b.buffer@ == blocks[position - 1].1@
                    &&& final(api).block_cursor_moved(old(api), self@, p, (position - 1) as usize)
                }
            },
    {
        let (status, device_timestamp_usec, buffer) = api.playback_previous_data_block(self.handle, track);
        if status.is_success() {
            Ok(PlaybackDataBlock { device_timestamp_usec, buffer })
        } else {
            Err(Error::from_status(status))
        }
    }
}

} // verus!
