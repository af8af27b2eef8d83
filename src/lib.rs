//! Task dispatch and result delivery for video analysis.
//!
//! Requests are described by [`Task`] values, funnelled through a single
//! first-in first-out [`DispatchQueue`] to one sequential worker, and the
//! outcome of each run of the external inference procedure is classified
//! into a [`VideoAnalyzerOutput`] or an [`Error`].
pub mod dispatch;
pub mod error;
pub mod invoke;
pub mod meme;
pub mod mode;
pub mod output;
pub mod task;
pub mod upload;

pub use dispatch::{DispatchQueue, WorkerAction, WorkerPhase};
pub use error::Error;
pub use meme::{MemeType, MemeTypeDesc};
pub use mode::{VideoAnalyzerMode, VideoAnalyzerModeDesc};
pub use output::{InferenceOutput, InferenceUnit, VideoAnalyzerOutput, VideoAnalyzerSuggestion};
pub use task::{SpawnedTask, Task, TaskConfig, VideoAnalyzerConfig};
