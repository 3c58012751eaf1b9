//! Ownership-tracked handles over a depth-camera runtime.
//!
//! - `runtime`: the native runtime (`Api`): reference-counted tables of
//!   images, captures and tracking results, the devices with their capture
//!   queues, body trackers with their result queues, and recordings.
//! - `capture`, `image`, `frame`, `device`, `tracker`, `record`, `playback`,
//!   `playback_track`: one wrapper per native handle kind. Shared kinds take
//!   a reference when made or shared and give it back once on `release`;
//!   exclusive kinds close their handle once on `release`.
//! - Retrieval (`Device::get_capture`, `Tracker::pop_result`,
//!   `Tracker::enqueue_capture`, `Playback::get_next_capture`) keeps success,
//!   timeout and failure apart, and makes no wrapper unless it succeeded.
//! - `fetch`: the two-call size probe for variable-length outputs.
//! - `laws`: what holds across calls.
use vstd::prelude::*;

pub mod body;
pub mod capture;
pub mod config;
pub mod device;
pub mod error;
pub mod fetch;
pub mod frame;
pub mod image;
pub mod laws;
pub mod playback;
pub mod playback_data_block;
pub mod playback_track;
pub mod record;
pub mod refcount;
pub mod runtime;
pub mod tracker;

verus! {

} // verus!
