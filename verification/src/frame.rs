//! The unit of data flowing through the pipeline: one captured image buffer
//! together with its capture timestamp.

use vstd::prelude::*;

verus! {

/// One captured image plus its capture timestamp (milliseconds since the
/// epoch). A frame is read-only once handed to a channel; when the capture
/// stage duplicates a frame for the streaming stage, the duplicate is an
/// independent copy so that detection and streaming never share a buffer.
pub struct Frame {
    /// The owned image buffer.
    pub data: Vec<u8>,
    /// Capture time, in milliseconds.
    pub timestamp_ms: u64,
}

impl Frame {
    pub fn new(data: Vec<u8>, timestamp_ms: u64) -> (f: Frame)
        ensures
            f.data@ == data@,
            f.timestamp_ms == timestamp_ms,
    {
        Frame { data, timestamp_ms }
    }

    /// An independent copy: same pixels, same timestamp, separate buffer.
    pub fn duplicate(&self) -> (f: Frame)
        ensures
            f.data@ == self.data@,
            f.timestamp_ms == self.timestamp_ms,
    {
        let mut data: Vec<u8> = Vec::new();
        let mut i: usize = 0;
        while i < self.data.len()
            invariant
                i <= self.data.len(),
                data@ == self.data@.take(i as int),
            decreases self.data.len() - i,
        {
            data.push(self.data[i]);
            i = i + 1;
        }
        proof {
            assert(data@ =~= self.data@);
        }
        Frame { data, timestamp_ms: self.timestamp_ms }
    }
}

} // verus!
