//! Supervision of a local model server and a task service: progress-line
//! classification, model listings, readiness probing and the decision logic
//! of service startup, model downloads and task submission.

pub mod download;
pub mod listing;
pub mod monitor;
pub mod probe;
pub mod progress;
pub mod supervisor;
pub mod task;
pub mod text;
