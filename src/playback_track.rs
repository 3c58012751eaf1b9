//! A track of a recording under playback, named by its track name.
use vstd::prelude::*;
use crate::error::Error;
use crate::fetch::{bytes_view, chars_view, fetch_bytes, fetch_text, fetched_from, fetched_text_from};
use crate::runtime::{Api, VideoSettings};
use crate::runtime::blobs::Blob;
use crate::runtime::tracks::{custom_track_of, has_track, is_builtin_track, track_video_settings};

verus! {

impl Api {
    /// The codec id of custom track `name` of the recording playback `h`
    /// reads, ending in a zero byte.
    pub open spec fn codec_id_content(&self, h: usize, name: Seq<char>) -> Option<Seq<u8>> {
        if self.playback_is_open(h) {
            match custom_track_of(self.played(h), name) {
                Some(t) => Some(t.codec_id@.push(0u8)),
                None => None,
            }
        } else {
            None
        }
    }

    /// The codec context of custom track `name` of the recording playback
    /// `h` reads.
    pub open spec fn codec_context_content(&self, h: usize, name: Seq<char>) -> Option<Seq<u8>> {
        if self.playback_is_open(h) {
            match custom_track_of(self.played(h), name) {
                Some(t) => Some(t.codec_context@),
                None => None,
            }
        } else {
            None
        }
    }
}

/// A track of the recording that playback `playback` reads.
pub struct PlaybackTrack {
    pub playback: usize,
    pub name: String,
}

impl PlaybackTrack {
    pub fn new(playback: usize, name: String) -> (r: PlaybackTrack)
        ensures
            r.playback == playback,
            r.name == name,
    {
        PlaybackTrack { playback, name }
    }

    /// The track's name.
    pub fn get_name(&self) -> (r: &str)
        ensures
            r@ == self.name@,
    {
        self.name.as_str()
    }

    /// Whether the recording holds a track of this name.
    pub fn check_exists(&self, api: &Api) -> (r: bool)
        requires
            api.wf(),
        ensures
            r == (api.playback_is_open(self.playback) && has_track(api.played(self.playback), self.name@)),
    {
        api.playback_track_exists(self.playback, &self.name)
    }

    /// Whether this is one of the built-in tracks: "COLOR", "DEPTH", "IR" or
    /// "IMU".
    pub fn is_builtin(&self, api: &Api) -> (r: bool)
        requires
            api.wf(),
        ensures
            r == (api.playback_is_open(self.playback) && is_builtin_track(api.played(self.playback), self.name@)),
    {
        api.playback_track_is_builtin(self.playback, &self.name)
    }

    /// The shape and rate of a video track.
    pub fn get_video_settings(&self, api: &Api) -> (r: Result<VideoSettings, Error>)
        requires
            api.wf(),
        ensures
            ({
                let s = if api.playback_is_open(self.playback) {
                    track_video_settings(api.played(self.playback), self.name@)
                } else {
                    None
                };
                &&& s matches Some(v) ==> r == Ok::<VideoSettings, Error>(v)
                &&& s is None ==> r == Err::<VideoSettings, Error>(Error::Failed)
            }),
    {
        match api.playback_track_video_settings(self.playback, &self.name) {
            Some(v) => Ok(v),
            None => Err(Error::Failed),
        }
    }

    /// The codec id of a custom track.
    pub fn get_codec_id(&self, api: &Api) -> (r: Result<String, Error>)
        requires
            api.wf(),
        ensures
            chars_view(r) == fetched_text_from(api.codec_id_content(self.playback, self.name@)),
    {
        let name = self.name.clone();
        fetch_text(api, &Blob::CodecId(self.playback, name))
    }

    /// The codec context of a custom track.
    pub fn get_codec_context(&self, api: &Api) -> (r: Result<Vec<u8>, Error>)
        requires
            api.wf(),
        ensures
            bytes_view(r) == fetched_from(api.codec_context_content(self.playback, self.name@)),
    {
        let name = self.name.clone();
        fetch_bytes(api, &Blob::CodecContext(self.playback, name))
    }
}

} // verus!
