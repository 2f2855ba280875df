//! Assessment backend core: grading of candidate submissions, the stores that
//! keep them, and the dashboard metrics computed over them.

pub mod execution;
pub mod grading;
pub mod metrics;
pub mod ratio;
pub mod recruiter;
pub mod stamp;
pub mod submission;
pub mod text;
