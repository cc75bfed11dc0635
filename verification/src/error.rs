//! How a download, a worker or the pipeline can fail.

use vstd::prelude::*;

verus! {

/// Why a card's download was given up. None of these stops the worker, except
/// `ChannelClosed`, which stops that worker alone.
#[derive(Debug, Clone, Copy, PartialEq, Eq)]
pub enum DownloadError {
    /// The request could not be sent, or the server did not answer with
    /// success.
    Network,
    /// The server did not say how long the image is.
    MissingLength,
    /// The body broke off while it was being read.
    Stream,
    /// The destination file could not be created, written or flushed.
    FileIo,
    /// Nobody listens to the worker's progress events any more.
    ChannelClosed,
}

/// How the pipeline as a whole can fail.
#[derive(Debug, Clone, Copy, PartialEq, Eq)]
pub enum PipelineError {
    /// A worker task ended by a fault instead of leaving its loop.
    WorkerPanicked,
}

/// A state machine was handed an event that does not answer the action it
/// asked for. The machine is left as it was.
#[derive(Debug, Clone, Copy, PartialEq, Eq)]
pub struct UnexpectedEvent {}

} // verus!
