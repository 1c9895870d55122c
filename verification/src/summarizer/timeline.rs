//! Splitting a video into timed segments.
use vstd::prelude::*;

verus! {

/// Splits transcripts into segments of a given precision.
#[derive(Debug, Clone, Copy)]
pub struct TimelineSegmenter {
    /// Segment precision in seconds.
    pub precision: u32,
}

impl TimelineSegmenter {
    /// A segmenter of the given precision.
    pub fn new(precision: u32) -> (s: Self)
        ensures
            s.precision == precision,
    {
        TimelineSegmenter { precision }
    }
}

} // verus!
