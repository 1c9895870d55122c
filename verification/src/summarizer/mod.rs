//! Summarizing video content.
//!
//! - [`asr`] — speech to text
//! - [`timeline`] — splitting into timed segments
pub mod asr;
pub mod timeline;
