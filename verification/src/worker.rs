//! A worker of the pool, as a state machine: it takes cards from the shared
//! queue one at a time, downloads each, and stops when the queue is closed and
//! empty.

use vstd::prelude::*;
use crate::card::{Card, CardView};
use crate::error::{DownloadError, UnexpectedEvent};
use crate::transfer_trace::fresh_transfer;
use crate::transfer::{
    download_image_task, transfer_step, ItemOutcome, Transfer, TransferAction,
    TransferActionView, TransferEvent, TransferEventView, TransferStep, TransferView,
};

verus! {

/// Why a worker stopped.
#[derive(Debug, Clone, Copy, PartialEq, Eq)]
pub enum WorkerExit {
    /// The queue was closed and empty.
    Drained,
    /// The worker's progress events could not be delivered any more. The card
    /// it was working on is abandoned.
    SinkClosed,
}

/// What the outside world reports to a worker.
#[derive(Debug, Clone, PartialEq, Eq)]
pub enum WorkerEvent {
    /// The worker task has started.
    Start,
    /// The queue handed over this card.
    Received(Card),
    /// The queue is closed and holds no more cards.
    QueueClosed,
    /// The answer to an action of the download in progress.
    Item(TransferEvent),
    /// The outcome of the last card was put on record.
    Settled,
}

/// What a worker asks the outside world to do next.
#[derive(Debug, Clone, PartialEq, Eq)]
pub enum WorkerAction {
    /// Wait for the next card from the queue.
    Receive,
    /// Perform this action for the download in progress.
    Item(TransferAction),
    /// Put on record how the work on the last card ended.
    Settle(ItemOutcome),
    /// End the worker task and release its side of the progress channel.
    Stop(WorkerExit),
}

#[derive(Debug)]
enum WorkerState {
    Idle,
    Waiting,
    Busy(Transfer),
    Settling,
    Stopped(WorkerExit),
}

/// A worker of the pool.
#[derive(Debug)]
pub struct Worker {
    output_dir: String,
    state: WorkerState,
}

/// An event of a worker, as the contracts speak of it.
pub enum WorkerEventView {
    Start,
    Received(CardView),
    QueueClosed,
    Item(TransferEventView),
    Settled,
}

/// An action of a worker, as the contracts speak of it.
pub enum WorkerActionView {
    Receive,
    Item(TransferActionView),
    Settle(ItemOutcome),
    Stop(WorkerExit),
}

/// Where a worker stands.
pub enum WorkerStateView {
    /// The task has not started.
    Idle,
    /// The worker waits for a card.
    Waiting,
    /// The worker is downloading a card.
    Busy(TransferView),
    /// The worker waits for the last outcome to be put on record.
    Settling,
    /// The worker has stopped.
    Stopped(WorkerExit),
}

/// A worker, as the contracts speak of it.
pub struct WorkerView {
    pub dir: Seq<char>,
    pub state: WorkerStateView,
}

/// A state change together with the action it asks for.
pub struct WorkerStep {
    pub next: WorkerView,
    pub action: WorkerActionView,
}

impl View for WorkerEvent {
    type V = WorkerEventView;

    open spec fn view(&self) -> WorkerEventView {
        match *self {
            WorkerEvent::Start => WorkerEventView::Start,
            WorkerEvent::Received(card) => WorkerEventView::Received(card@),
            WorkerEvent::QueueClosed => WorkerEventView::QueueClosed,
            WorkerEvent::Item(event) => WorkerEventView::Item(event@),
            WorkerEvent::Settled => WorkerEventView::Settled,
        }
    }
}

impl View for WorkerAction {
    type V = WorkerActionView;

    open spec fn view(&self) -> WorkerActionView {
        match *self {
            WorkerAction::Receive => WorkerActionView::Receive,
            WorkerAction::Item(action) => WorkerActionView::Item(action@),
            WorkerAction::Settle(outcome) => WorkerActionView::Settle(outcome),
            WorkerAction::Stop(exit) => WorkerActionView::Stop(exit),
        }
    }
}

impl View for WorkerState {
    type V = WorkerStateView;

    closed spec fn view(&self) -> WorkerStateView {
        match *self {
            WorkerState::Idle => WorkerStateView::Idle,
            WorkerState::Waiting => WorkerStateView::Waiting,
            WorkerState::Busy(transfer) => WorkerStateView::Busy(transfer@),
            WorkerState::Settling => WorkerStateView::Settling,
            WorkerState::Stopped(exit) => WorkerStateView::Stopped(exit),
        }
    }
}

impl View for Worker {
    type V = WorkerView;

    closed spec fn view(&self) -> WorkerView {
        WorkerView { dir: self.output_dir@, state: self.state@ }
    }
}

impl WorkerView {
    /// What holds of every worker: the download of a busy worker is under
    /// way, neither untouched nor over, and goes to the worker's directory.
    pub open spec fn well_formed(self) -> bool {
        match self.state {
            WorkerStateView::Busy(t) => t.well_formed() && t.dir == self.dir && t.state !is Pending
                && t.state !is Finished,
            _ => true,
        }
    }

    /// The step into `state` that asks for `action`.
    pub open spec fn go(self, state: WorkerStateView, action: WorkerActionView) -> Option<
        WorkerStep,
    > {
        Some(WorkerStep { next: WorkerView { state, ..self }, action })
    }

    /// What a step of the download in progress means for the worker. A
    /// download that goes on keeps the worker busy. One that ends is put on
    /// record, unless it ended because nobody listens any more: then the worker
    /// stops.
    pub open spec fn follow(self, step: TransferStep) -> Option<WorkerStep> {
        match step.action {
            TransferActionView::Finish(ItemOutcome::Abandoned(DownloadError::ChannelClosed)) => self.go(
                WorkerStateView::Stopped(WorkerExit::SinkClosed),
                WorkerActionView::Stop(WorkerExit::SinkClosed),
            ),
            TransferActionView::Finish(outcome) => self.go(
                WorkerStateView::Settling,
                WorkerActionView::Settle(outcome),
            ),
            action => self.go(WorkerStateView::Busy(step.next), WorkerActionView::Item(action)),
        }
    }
}

/// The transition relation of a worker: what `event` leads to in `w`, or
/// `None` where `w` does not wait for such an event.
pub open spec fn worker_step(w: WorkerView, event: WorkerEventView) -> Option<WorkerStep> {
    match (w.state, event) {
        (WorkerStateView::Idle, WorkerEventView::Start) => w.go(
            WorkerStateView::Waiting,
            WorkerActionView::Receive,
        ),
        (WorkerStateView::Waiting, WorkerEventView::Received(card)) => match transfer_step(
            fresh_transfer(card, w.dir),
            TransferEventView::Start,
        ) {
            Some(step) => w.follow(step),
            None => None,
        },
        (WorkerStateView::Waiting, WorkerEventView::QueueClosed) => w.go(
            WorkerStateView::Stopped(WorkerExit::Drained),
            WorkerActionView::Stop(WorkerExit::Drained),
        ),
        (WorkerStateView::Busy(transfer), WorkerEventView::Item(event)) => match transfer_step(
            transfer,
            event,
        ) {
            Some(step) => w.follow(step),
            None => None,
        },
        (WorkerStateView::Settling, WorkerEventView::Settled) => w.go(
            WorkerStateView::Waiting,
            WorkerActionView::Receive,
        ),
        _ => None,
    }
}

impl Worker {
    #[verifier::type_invariant]
    spec fn is_sound(self) -> bool {
        self@.well_formed()
    }

    /// A worker that writes into `output_dir` and has not started yet.
    pub fn new(output_dir: String) -> (worker: Worker)
        ensures
            worker@ == (WorkerView { dir: output_dir@, state: WorkerStateView::Idle }),
            worker@.well_formed(),
    {
        Worker { output_dir, state: WorkerState::Idle }
    }

    /// Why the worker stopped, once it has.
    pub fn exit(&self) -> (exit: Option<WorkerExit>)
        ensures
            exit == match self@.state {
                WorkerStateView::Stopped(e) => Some(e),
                _ => None,
            },
    {
        match &self.state {
            WorkerState::Stopped(e) => Some(*e),
            _ => None,
        }
    }

    /// Whether the worker is in the middle of a download.
    pub fn is_busy(&self) -> (busy: bool)
        ensures
            busy == (self@.state is Busy),
    {
        match &self.state {
            WorkerState::Busy(_) => true,
            _ => false,
        }
    }

    fn follow(&mut self, transfer: Transfer, action: TransferAction) -> (result: WorkerAction)
        requires
            transfer@.well_formed(),
            transfer@.dir == old(self)@.dir,
            transfer@.state !is Pending,
            transfer@.state is Finished <==> action@ is Finish,
        ensures
            Some(WorkerStep { next: final(self)@, action: result@ }) == old(self)@.follow(
                TransferStep { next: transfer@, action: action@ },
            ),
    {
        match action {
            TransferAction::Finish(ItemOutcome::Abandoned(DownloadError::ChannelClosed)) => {
                self.state = WorkerState::Stopped(WorkerExit::SinkClosed);
                WorkerAction::Stop(WorkerExit::SinkClosed)
            },
            TransferAction::Finish(outcome) => {
                self.state = WorkerState::Settling;
                WorkerAction::Settle(outcome)
            },
            action => {
                self.state = WorkerState::Busy(transfer);
                WorkerAction::Item(action)
            },
        }
    }
}

/// Advances a worker by one event: the worker moves to its next state and the
/// action to perform next is returned. An event that the worker does not wait
/// for is refused and changes nothing.
pub fn download_images_task(worker: &mut Worker, event: WorkerEvent) -> (result: Result<
    WorkerAction,
    UnexpectedEvent,
>)
    ensures
        match worker_step(old(worker)@, event@) {
            Some(step) => result matches Ok(action) && action@ == step.action && final(worker)@
                == step.next,
            None => result is Err && final(worker)@ == old(worker)@,
        },
        final(worker)@.well_formed(),
{
    proof {
        use_type_invariant(&*worker);
    }
    let mut state = WorkerState::Idle;
    std::mem::swap(&mut worker.state, &mut state);
    match (state, event) {
        (WorkerState::Idle, WorkerEvent::Start) => {
            worker.state = WorkerState::Waiting;
            Ok(WorkerAction::Receive)
        },
        (WorkerState::Waiting, WorkerEvent::Received(card)) => {
            let mut transfer = Transfer::new(card, worker.output_dir.clone());
            match download_image_task(&mut transfer, TransferEvent::Start) {
                Ok(action) => Ok(worker.follow(transfer, action)),
                Err(e) => {
                    worker.state = WorkerState::Waiting;
                    Err(e)
                },
            }
        },
        (WorkerState::Waiting, WorkerEvent::QueueClosed) => {
            worker.state = WorkerState::Stopped(WorkerExit::Drained);
            Ok(WorkerAction::Stop(WorkerExit::Drained))
        },
        (WorkerState::Busy(transfer), WorkerEvent::Item(event)) => {
            let mut transfer = transfer;
            match download_image_task(&mut transfer, event) {
                Ok(action) => Ok(worker.follow(transfer, action)),
                Err(e) => {
                    worker.state = WorkerState::Busy(transfer);
                    Err(e)
                },
            }
        },
        (WorkerState::Settling, WorkerEvent::Settled) => {
            worker.state = WorkerState::Waiting;
            Ok(WorkerAction::Receive)
        },
        (state, _) => {
            worker.state = state;
            Err(UnexpectedEvent {})
        },
    }
}

} // verus!
