//! The download of one card, as a state machine.
//!
//! The machine never performs I/O. It asks for one action at a time; the
//! caller performs it and answers with the event that tells how it went.
//!
//! A download that is given up after its file was created leaves the file on
//! disk as far as it was written. The card is then reported as abandoned, never
//! as completed.

use vstd::prelude::*;
use crate::card::{destination_path, destination_path_spec, Card, CardView};
use crate::error::{DownloadError, UnexpectedEvent};
use crate::progress::{advance, advanced, DownloadProgress, ProgressView};

verus! {

/// How the work on one card ended.
#[derive(Debug, Clone, Copy, PartialEq, Eq)]
pub enum ItemOutcome {
    /// The card has no image: nothing was fetched, announced or written.
    Skipped,
    /// The whole body was written, flushed and closed.
    Completed,
    /// The download was given up.
    Abandoned(DownloadError),
}

/// Where a download stands. Each state but the first and the last waits for
/// the answer to one action.
#[derive(Debug, Clone, Copy, PartialEq, Eq)]
pub enum TransferState {
    /// Nothing has happened yet.
    Pending,
    /// The request is on its way.
    Fetching,
    /// The download is being announced to the observer.
    Announcing { total: u64 },
    /// The destination file is being created.
    Creating { total: u64 },
    /// The next chunk of the body is awaited; `done` bytes are accounted for.
    Reading { done: u64, total: u64 },
    /// A chunk is being appended to the file; `next` is the count once it is.
    Writing { next: u64, total: u64 },
    /// The new byte count is being sent to the observer.
    Reporting { done: u64, total: u64 },
    /// The body has ended; the file is being flushed and closed.
    Closing { done: u64, total: u64 },
    /// The work on this card is over.
    Finished(ItemOutcome),
}

/// What the outside world reports to a download.
#[derive(Debug, Clone, PartialEq, Eq)]
pub enum TransferEvent {
    /// The card was handed to the worker.
    Start,
    /// The server answered: its status code, and the length it declared for
    /// the body, if any.
    Responded { status: u16, content_length: Option<u64> },
    /// The request could not be sent, or no answer came.
    FetchFailed,
    /// The progress event was handed to the observer's channel.
    Emitted,
    /// The progress event could not be delivered.
    SinkClosed,
    /// The destination file exists and is empty.
    FileCreated,
    /// The next chunk of the body.
    Chunk(Vec<u8>),
    /// The body has ended.
    StreamEnded,
    /// Reading the body failed.
    StreamFailed,
    /// The chunk was appended to the file.
    Written,
    /// The file was flushed and closed.
    FileClosed,
    /// Creating, writing or flushing the file failed.
    FileFailed,
}

/// What a download asks the outside world to do next.
#[derive(Debug, Clone, PartialEq, Eq)]
pub enum TransferAction {
    /// Send a GET request to this address.
    Fetch { url: String },
    /// Send this event to the observer.
    Emit(DownloadProgress),
    /// Create this file, emptying it if it exists.
    CreateFile { path: String },
    /// Wait for the next chunk of the body.
    ReadChunk,
    /// Append these bytes to the file.
    WriteChunk(Vec<u8>),
    /// Flush the file and close it.
    CloseFile,
    /// The card is done. A file that is still open is released as it is.
    Finish(ItemOutcome),
}

/// An event of a download, as the contracts speak of it.
pub enum TransferEventView {
    Start,
    Responded { status: u16, content_length: Option<u64> },
    FetchFailed,
    Emitted,
    SinkClosed,
    FileCreated,
    Chunk(Seq<u8>),
    StreamEnded,
    StreamFailed,
    Written,
    FileClosed,
    FileFailed,
}

/// An action of a download, as the contracts speak of it.
pub enum TransferActionView {
    Fetch { url: Seq<char> },
    Emit(ProgressView),
    CreateFile { path: Seq<char> },
    ReadChunk,
    WriteChunk(Seq<u8>),
    CloseFile,
    Finish(ItemOutcome),
}

impl View for TransferEvent {
    type V = TransferEventView;

    open spec fn view(&self) -> TransferEventView {
        match *self {
            TransferEvent::Start => TransferEventView::Start,
            TransferEvent::Responded { status, content_length } => TransferEventView::Responded {
                status,
                content_length,
            },
            TransferEvent::FetchFailed => TransferEventView::FetchFailed,
            TransferEvent::Emitted => TransferEventView::Emitted,
            TransferEvent::SinkClosed => TransferEventView::SinkClosed,
            TransferEvent::FileCreated => TransferEventView::FileCreated,
            TransferEvent::Chunk(bytes) => TransferEventView::Chunk(bytes@),
            TransferEvent::StreamEnded => TransferEventView::StreamEnded,
            TransferEvent::StreamFailed => TransferEventView::StreamFailed,
            TransferEvent::Written => TransferEventView::Written,
            TransferEvent::FileClosed => TransferEventView::FileClosed,
            TransferEvent::FileFailed => TransferEventView::FileFailed,
        }
    }
}

impl View for TransferAction {
    type V = TransferActionView;

    open spec fn view(&self) -> TransferActionView {
        match *self {
            TransferAction::Fetch { url } => TransferActionView::Fetch { url: url@ },
            TransferAction::Emit(progress) => TransferActionView::Emit(progress@),
            TransferAction::CreateFile { path } => TransferActionView::CreateFile { path: path@ },
            TransferAction::ReadChunk => TransferActionView::ReadChunk,
            TransferAction::WriteChunk(bytes) => TransferActionView::WriteChunk(bytes@),
            TransferAction::CloseFile => TransferActionView::CloseFile,
            TransferAction::Finish(outcome) => TransferActionView::Finish(outcome),
        }
    }
}

/// A download in progress: the card, the directory its image goes to, and how
/// far the work has come.
#[derive(Debug)]
pub struct Transfer {
    card: Card,
    output_dir: String,
    state: TransferState,
}

/// A download, as the contracts speak of it.
pub struct TransferView {
    pub card: CardView,
    pub dir: Seq<char>,
    pub state: TransferState,
}

/// A state change together with the action it asks for.
pub struct TransferStep {
    pub next: TransferView,
    pub action: TransferActionView,
}

impl TransferView {
    /// The download with its state replaced.
    pub open spec fn at(self, state: TransferState) -> TransferView {
        TransferView { state, ..self }
    }

    /// The step into `state` that asks for `action`.
    pub open spec fn go(self, state: TransferState, action: TransferActionView) -> Option<
        TransferStep,
    > {
        Some(TransferStep { next: self.at(state), action })
    }

    /// The step that ends the work on the card.
    pub open spec fn finish(self, outcome: ItemOutcome) -> Option<TransferStep> {
        self.go(TransferState::Finished(outcome), TransferActionView::Finish(outcome))
    }

    /// The file the image is written to.
    pub open spec fn path(self) -> Seq<char> {
        destination_path_spec(self.dir, self.card.id)
    }

    /// What holds of every download: only a card with an image address gets
    /// beyond the start, only a card without one is skipped, and no byte count
    /// is above the announced total.
    pub open spec fn well_formed(self) -> bool {
        match self.state {
            TransferState::Pending => true,
            TransferState::Finished(ItemOutcome::Skipped) => self.card.url is None,
            TransferState::Reading { done, total }
            | TransferState::Reporting { done, total }
            | TransferState::Closing { done, total } => self.card.url is Some && done <= total,
            TransferState::Writing { next, total } => self.card.url is Some && next <= total,
            _ => self.card.url is Some,
        }
    }
}

/// Whether a status code says that the request succeeded.
pub open spec fn is_success(status: u16) -> bool {
    200 <= status <= 299
}

/// What the answer of the server leads to: a download that is announced, or
/// one that is given up because the server refused or did not say how long
/// the image is.
pub open spec fn respond(t: TransferView, status: u16, content_length: Option<u64>) -> Option<
    TransferStep,
> {
    if !is_success(status) {
        t.finish(ItemOutcome::Abandoned(DownloadError::Network))
    } else {
        match content_length {
            Some(total) => t.go(
                TransferState::Announcing { total },
                TransferActionView::Emit(ProgressView::NewDownload { name: t.card.name, total }),
            ),
            None => t.finish(ItemOutcome::Abandoned(DownloadError::MissingLength)),
        }
    }
}

/// The transition relation of a download: what `event` leads to in `t`, or
/// `None` where `t` does not wait for such an event.
pub open spec fn transfer_step(t: TransferView, event: TransferEventView) -> Option<TransferStep> {
    match (t.state, event) {
        (TransferState::Pending, TransferEventView::Start) => match t.card.url {
            Some(url) => t.go(TransferState::Fetching, TransferActionView::Fetch { url }),
            None => t.finish(ItemOutcome::Skipped),
        },
        (TransferState::Fetching, TransferEventView::Responded { status, content_length }) => respond(
            t,
            status,
            content_length,
        ),
        (TransferState::Fetching, TransferEventView::FetchFailed) => t.finish(
            ItemOutcome::Abandoned(DownloadError::Network),
        ),
        (TransferState::Announcing { total }, TransferEventView::Emitted) => t.go(
            TransferState::Creating { total },
            TransferActionView::CreateFile { path: t.path() },
        ),
        (TransferState::Announcing { .. }, TransferEventView::SinkClosed) => t.finish(
            ItemOutcome::Abandoned(DownloadError::ChannelClosed),
        ),
        (TransferState::Creating { total }, TransferEventView::FileCreated) => t.go(
            TransferState::Reading { done: 0, total },
            TransferActionView::ReadChunk,
        ),
        (TransferState::Creating { .. }, TransferEventView::FileFailed) => t.finish(
            ItemOutcome::Abandoned(DownloadError::FileIo),
        ),
        (TransferState::Reading { done, total }, TransferEventView::Chunk(bytes)) => t.go(
            TransferState::Writing { next: advanced(done, bytes.len(), total), total },
            TransferActionView::WriteChunk(bytes),
        ),
        (TransferState::Reading { done, total }, TransferEventView::StreamEnded) => t.go(
            TransferState::Closing { done, total },
            TransferActionView::CloseFile,
        ),
        (TransferState::Reading { .. }, TransferEventView::StreamFailed) => t.finish(
            ItemOutcome::Abandoned(DownloadError::Stream),
        ),
        (TransferState::Writing { next, total }, TransferEventView::Written) => t.go(
            TransferState::Reporting { done: next, total },
            TransferActionView::Emit(ProgressView::Bytes { done: next, total }),
        ),
        (TransferState::Writing { .. }, TransferEventView::FileFailed) => t.finish(
            ItemOutcome::Abandoned(DownloadError::FileIo),
        ),
        (TransferState::Reporting { done, total }, TransferEventView::Emitted) => t.go(
            TransferState::Reading { done, total },
            TransferActionView::ReadChunk,
        ),
        (TransferState::Reporting { .. }, TransferEventView::SinkClosed) => t.finish(
            ItemOutcome::Abandoned(DownloadError::ChannelClosed),
        ),
        (TransferState::Closing { .. }, TransferEventView::FileClosed) => t.finish(
            ItemOutcome::Completed,
        ),
        (TransferState::Closing { .. }, TransferEventView::FileFailed) => t.finish(
            ItemOutcome::Abandoned(DownloadError::FileIo),
        ),
        _ => None,
    }
}

impl View for Transfer {
    type V = TransferView;

    closed spec fn view(&self) -> TransferView {
        TransferView { card: self.card@, dir: self.output_dir@, state: self.state }
    }
}

impl Transfer {
    #[verifier::type_invariant]
    spec fn is_sound(self) -> bool {
        self@.well_formed()
    }

    /// A download of `card` into `output_dir` on which no work was done yet.
    pub fn new(card: Card, output_dir: String) -> (transfer: Transfer)
        ensures
            transfer@ == (TransferView {
                card: card@,
                dir: output_dir@,
                state: TransferState::Pending,
            }),
            transfer@.well_formed(),
    {
        Transfer { card, output_dir, state: TransferState::Pending }
    }

    /// Where the download stands.
    pub fn state(&self) -> (state: TransferState)
        ensures
            state == self@.state,
    {
        self.state
    }

    /// The card that is downloaded.
    pub fn card(&self) -> (card: &Card)
        ensures
            card@ == self@.card,
    {
        &self.card
    }

    /// How the work ended, once it has.
    pub fn outcome(&self) -> (outcome: Option<ItemOutcome>)
        ensures
            outcome == match self@.state {
                TransferState::Finished(o) => Some(o),
                _ => None,
            },
    {
        match self.state {
            TransferState::Finished(o) => Some(o),
            _ => None,
        }
    }

    fn finish(&mut self, outcome: ItemOutcome) -> (action: TransferAction)
        requires
            outcome is Skipped <==> old(self)@.card.url is None,
        ensures
            Some(TransferStep { next: final(self)@, action: action@ }) == old(self)@.finish(outcome),
    {
        self.state = TransferState::Finished(outcome);
        TransferAction::Finish(outcome)
    }
}

/// Advances the download of one card by one event: the transfer moves to its
/// next state and the action to perform next is returned. An event that the
/// transfer does not wait for is refused and changes nothing.
pub fn download_image_task(transfer: &mut Transfer, event: TransferEvent) -> (result: Result<
    TransferAction,
    UnexpectedEvent,
>)
    ensures
        match transfer_step(old(transfer)@, event@) {
            Some(step) => result matches Ok(action) && action@ == step.action && final(transfer)@
                == step.next,
            None => result is Err && final(transfer)@ == old(transfer)@,
        },
        final(transfer)@.well_formed(),
{
    proof {
        use_type_invariant(&*transfer);
    }
    let state = transfer.state;
    match (state, event) {
        (TransferState::Pending, TransferEvent::Start) => {
            let url = match &transfer.card.image_uris {
                Some(images) => Some(images.large.clone()),
                None => None,
            };
            match url {
                Some(url) => {
                    transfer.state = TransferState::Fetching;
                    Ok(TransferAction::Fetch { url })
                },
                None => Ok(transfer.finish(ItemOutcome::Skipped)),
            }
        },
        (TransferState::Fetching, TransferEvent::Responded { status, content_length }) => {
            if status < 200 || status > 299 {
                Ok(transfer.finish(ItemOutcome::Abandoned(DownloadError::Network)))
            } else {
                match content_length {
                    Some(total) => {
                        transfer.state = TransferState::Announcing { total };
                        Ok(
                            TransferAction::Emit(
                                DownloadProgress::NewDownload(transfer.card.name.clone(), total),
                            ),
                        )
                    },
                    None => Ok(
                        transfer.finish(ItemOutcome::Abandoned(DownloadError::MissingLength)),
                    ),
                }
            }
        },
        (TransferState::Fetching, TransferEvent::FetchFailed) => Ok(
            transfer.finish(ItemOutcome::Abandoned(DownloadError::Network)),
        ),
        (TransferState::Announcing { total }, TransferEvent::Emitted) => {
            let path = destination_path(transfer.output_dir.as_str(), transfer.card.id.as_str());
            transfer.state = TransferState::Creating { total };
            Ok(TransferAction::CreateFile { path })
        },
        (TransferState::Announcing { .. }, TransferEvent::SinkClosed) => Ok(
            transfer.finish(ItemOutcome::Abandoned(DownloadError::ChannelClosed)),
        ),
        (TransferState::Creating { total }, TransferEvent::FileCreated) => {
            transfer.state = TransferState::Reading { done: 0, total };
            Ok(TransferAction::ReadChunk)
        },
        (TransferState::Creating { .. }, TransferEvent::FileFailed) => Ok(
            transfer.finish(ItemOutcome::Abandoned(DownloadError::FileIo)),
        ),
        (TransferState::Reading { done, total }, TransferEvent::Chunk(bytes)) => {
            let next = advance(done, bytes.len(), total);
            transfer.state = TransferState::Writing { next, total };
            Ok(TransferAction::WriteChunk(bytes))
        },
        (TransferState::Reading { done, total }, TransferEvent::StreamEnded) => {
            transfer.state = TransferState::Closing { done, total };
            Ok(TransferAction::CloseFile)
        },
        (TransferState::Reading { .. }, TransferEvent::StreamFailed) => Ok(
            transfer.finish(ItemOutcome::Abandoned(DownloadError::Stream)),
        ),
        (TransferState::Writing { next, total }, TransferEvent::Written) => {
            transfer.state = TransferState::Reporting { done: next, total };
            Ok(TransferAction::Emit(DownloadProgress::Bytes(next, total)))
        },
        (TransferState::Writing { .. }, TransferEvent::FileFailed) => Ok(
            transfer.finish(ItemOutcome::Abandoned(DownloadError::FileIo)),
        ),
        (TransferState::Reporting { done, total }, TransferEvent::Emitted) => {
            transfer.state = TransferState::Reading { done, total };
            Ok(TransferAction::ReadChunk)
        },
        (TransferState::Reporting { .. }, TransferEvent::SinkClosed) => Ok(
            transfer.finish(ItemOutcome::Abandoned(DownloadError::ChannelClosed)),
        ),
        (TransferState::Closing { .. }, TransferEvent::FileClosed) => Ok(
            transfer.finish(ItemOutcome::Completed),
        ),
        (TransferState::Closing { .. }, TransferEvent::FileFailed) => Ok(
            transfer.finish(ItemOutcome::Abandoned(DownloadError::FileIo)),
        ),
        _ => Err(UnexpectedEvent {}),
    }
}

} // verus!
