//! Task plans: a user task broken into executable steps.
use vstd::prelude::*;

verus! {

/// One step of a plan.
#[derive(Debug, Clone)]
pub struct PlanStep {
    /// What the step does.
    pub description: String,
    /// The step's kind and arguments.
    pub kind: StepKind,
}

/// Kinds of plan steps.
#[derive(Debug, Clone)]
pub enum StepKind {
    /// Start a VM.
    StartVm {
        /// VM name.
        name: String,
    },
    /// Collect comments.
    CrawlComments {
        /// Video URL.
        url: String,
        /// Maximum number of comments.
        max: usize,
    },
    /// Collect bullet comments.
    CrawlDanmaku {
        /// Video URL.
        url: String,
        /// Maximum number of bullet comments.
        max: usize,
    },
    /// Transcribe the video.
    Transcribe {
        /// Video URL.
        url: String,
    },
    /// Summarize with the LLM.
    Summarize {
        /// The prompt.
        prompt: String,
    },
    /// Stop a VM.
    StopVm {
        /// VM name.
        name: String,
    },
}

/// A complete plan.
#[derive(Debug, Clone)]
pub struct Plan {
    /// The steps, in order.
    pub steps: Vec<PlanStep>,
}

} // verus!
