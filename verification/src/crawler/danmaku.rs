//! Bullet comments (collected by a headless browser inside the VM).
use vstd::prelude::*;

verus! {

/// Collects the bullet comments of a video.
#[derive(Debug, Clone)]
pub struct DanmakuCrawler {
    /// Video URL.
    pub video_url: String,
    /// Most bullet comments to collect.
    pub max_count: usize,
}

impl DanmakuCrawler {
    /// A crawler for `video_url` collecting at most `max_count` bullet comments.
    pub fn new(video_url: String, max_count: usize) -> (c: Self)
        ensures
            c.video_url@ == video_url@,
            c.max_count == max_count,
    {
        DanmakuCrawler { video_url, max_count }
    }
}

} // verus!
