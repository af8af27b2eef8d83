use vstd::prelude::*;

verus! {

/// The terminal failures of a submitted task.
#[derive(Debug, PartialEq, Eq)]
pub enum Error {
    /// The worker has stopped: the queue accepts no more tasks.
    DispatchClosed,
    /// The worker dropped the task's reply slot without answering.
    ChannelClosed,
    /// The inference procedure could not be started; the reason.
    SpawnFailed(String),
    /// The procedure succeeded but its result file was missing or malformed; the reason.
    ParseFailed(String),
}

} // verus!
