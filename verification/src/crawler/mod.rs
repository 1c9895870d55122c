//! Video data collection (run inside the VM).
//!
//! - [`subtitle`] — subtitle and metadata extraction with yt-dlp
//! - [`comments`] — comments
//! - [`danmaku`] — bullet comments
use vstd::prelude::*;

pub mod comments;
pub mod danmaku;
pub mod subtitle;

verus! {

/// Parameters of a collection task.
#[derive(Debug, Clone)]
pub struct CrawlTask {
    /// Video URL.
    pub url: String,
    /// Collection level (`light`, `standard` or `full`).
    pub level: String,
}

} // verus!
