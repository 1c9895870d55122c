//! Video comments (collected by a headless browser inside the VM).
use vstd::prelude::*;

use crate::error::Error;

verus! {

/// One comment.
#[derive(Debug, Clone)]
pub struct Comment {
    /// Comment id.
    pub id: String,
    /// Author's name.
    pub username: String,
    /// Text.
    pub content: String,
    /// Likes.
    pub likes: u32,
    /// Unix time of posting.
    pub timestamp: i64,
}

/// Collects the comments of a video; collection is not available yet, so none are found.
#[derive(Debug, Clone)]
pub struct CommentsCrawler {
    /// Video URL.
    pub video_url: String,
    /// Most comments to collect.
    pub max_count: usize,
}

impl CommentsCrawler {
    /// A crawler for `video_url` collecting at most `max_count` comments.
    pub fn new(video_url: String, max_count: usize) -> (c: Self)
        ensures
            c.video_url@ == video_url@,
            c.max_count == max_count,
    {
        CommentsCrawler { video_url, max_count }
    }

    /// The comments found: none, until collection is available.
    pub fn crawl(&self) -> (r: Result<Vec<Comment>, Error>)
        ensures
            r matches Ok(v) && v@.len() == 0,
    {
        Ok(Vec::new())
    }
}

} // verus!
