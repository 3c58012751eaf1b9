//! One block of data read from a custom track of a recording.
use vstd::prelude::*;

verus! {

/// A block of a custom track, copied out of the recording: its device time
/// and its bytes.
pub struct PlaybackDataBlock {
    pub device_timestamp_usec: u64,
    pub buffer: Vec<u8>,
}

impl PlaybackDataBlock {
    /// The device time the block was written with, in microseconds.
    pub fn get_device_timestamp_usec(&self) -> (r: u64)
        ensures
            r == self.device_timestamp_usec,
    {
        self.device_timestamp_usec
    }

    /// The size of the block in bytes.
    pub fn get_buffer_size(&self) -> (r: usize)
        ensures
            r == self.buffer@.len(),
    {
        self.buffer.len()
    }

    /// The bytes of the block.
    pub fn get_buffer(&self) -> (r: &[u8])
        ensures
            r@ == self.buffer@,
    {
        self.buffer.as_slice()
    }
}

} // verus!
