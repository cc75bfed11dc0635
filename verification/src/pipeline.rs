//! The pipeline that runs the pool, as a state machine: it starts the workers
//! with their observers, feeds the queue, closes it, and waits for every task
//! to end.

use vstd::prelude::*;
use crate::card::{card_views, Card, CardView};
use crate::error::{PipelineError, UnexpectedEvent};
use crate::worker::WorkerExit;

verus! {

/// How a worker task ended.
#[derive(Debug, Clone, Copy, PartialEq, Eq)]
pub enum JoinOutcome {
    /// The worker left its loop, for this reason.
    Exited(WorkerExit),
    /// The task ended by a fault.
    Panicked,
}

/// Where the pipeline stands. Each phase but the first and the last waits for
/// the answer to one action.
#[derive(Debug, Clone, Copy, PartialEq, Eq)]
pub enum PipelinePhase {
    /// Nothing has happened yet.
    Idle,
    /// The pair with this index is being started.
    Spawning { index: usize },
    /// A card is being put on the queue.
    Feeding,
    /// The queue is being closed.
    Closing,
    /// The worker with this index is being awaited.
    JoiningWorkers { index: usize },
    /// The observer with this index is being awaited.
    JoiningObservers { index: usize },
    /// Every task has ended and the result was handed out.
    Finished,
}

/// What the outside world reports to the pipeline.
#[derive(Debug, Clone, Copy, PartialEq, Eq)]
pub enum PipelineEvent {
    /// The pipeline was asked to run.
    Start,
    /// The worker and its observer are running.
    Spawned,
    /// The card is on the queue.
    Enqueued,
    /// The queue is closed.
    QueueClosed,
    /// The worker task has ended.
    WorkerJoined(JoinOutcome),
    /// The observer task has ended.
    ObserverJoined,
}

/// What the pipeline asks the outside world to do next.
#[derive(Debug, PartialEq, Eq)]
pub enum PipelineAction {
    /// Start a worker on the shared queue with a progress channel of its own,
    /// and an observer on that channel.
    SpawnPair { index: usize },
    /// Put this card on the queue.
    Enqueue(Card),
    /// Close the queue: the workers stop once it is empty.
    CloseQueue,
    /// Wait for this worker to end.
    JoinWorker { index: usize },
    /// Wait for this observer to end.
    JoinObserver { index: usize },
    /// Hand this result to the caller.
    Return(Result<(), PipelineError>),
}

/// An action of the pipeline, as the contracts speak of it.
pub enum PipelineActionView {
    SpawnPair { index: usize },
    Enqueue(CardView),
    CloseQueue,
    JoinWorker { index: usize },
    JoinObserver { index: usize },
    Return(Result<(), PipelineError>),
}

impl View for PipelineAction {
    type V = PipelineActionView;

    open spec fn view(&self) -> PipelineActionView {
        match *self {
            PipelineAction::SpawnPair { index } => PipelineActionView::SpawnPair { index },
            PipelineAction::Enqueue(card) => PipelineActionView::Enqueue(card@),
            PipelineAction::CloseQueue => PipelineActionView::CloseQueue,
            PipelineAction::JoinWorker { index } => PipelineActionView::JoinWorker { index },
            PipelineAction::JoinObserver { index } => PipelineActionView::JoinObserver { index },
            PipelineAction::Return(result) => PipelineActionView::Return(result),
        }
    }
}

/// The pipeline: the cards still to be put on the queue, the size of the pool,
/// the phase, and whether a worker was seen to end by a fault.
#[derive(Debug)]
pub struct Pipeline {
    /// The cards not yet handed out, last one first.
    pending: Vec<Card>,
    pool_size: usize,
    phase: PipelinePhase,
    panicked: bool,
}

/// The pipeline, as the contracts speak of it.
pub struct PipelineView {
    /// The cards not yet handed out, next one first.
    pub remaining: Seq<CardView>,
    pub pool_size: usize,
    pub phase: PipelinePhase,
    pub panicked: bool,
}

/// A state change together with the action it asks for.
pub struct PipelineStep {
    pub next: PipelineView,
    pub action: PipelineActionView,
}

impl PipelineView {
    /// What holds of every pipeline: the pool is not empty, the pair in hand
    /// is one of the pool, and the queue is closed only once every card is on
    /// it.
    pub open spec fn well_formed(self) -> bool {
        &&& self.pool_size >= 1
        &&& match self.phase {
            PipelinePhase::Idle | PipelinePhase::Feeding => true,
            PipelinePhase::Spawning { index } => index < self.pool_size,
            PipelinePhase::Closing | PipelinePhase::Finished => self.remaining.len() == 0,
            PipelinePhase::JoiningWorkers { index } | PipelinePhase::JoiningObservers { index } => {
                index < self.pool_size && self.remaining.len() == 0
            },
        }
    }

    /// The step into `phase` that asks for `action`.
    pub open spec fn go(self, phase: PipelinePhase, action: PipelineActionView) -> Option<
        PipelineStep,
    > {
        Some(PipelineStep { next: PipelineView { phase, ..self }, action })
    }

    /// Once the pool runs, and after each card: the next card goes on the
    /// queue, or, when none is left, the queue is closed.
    pub open spec fn feed(self) -> Option<PipelineStep> {
        if self.remaining.len() > 0 {
            Some(
                PipelineStep {
                    next: PipelineView {
                        remaining: self.remaining.drop_first(),
                        phase: PipelinePhase::Feeding,
                        ..self
                    },
                    action: PipelineActionView::Enqueue(self.remaining[0]),
                },
            )
        } else {
            self.go(PipelinePhase::Closing, PipelineActionView::CloseQueue)
        }
    }

    /// What the pipeline returns: a fault of any worker is an error.
    pub open spec fn result(self) -> Result<(), PipelineError> {
        if self.panicked {
            Err(PipelineError::WorkerPanicked)
        } else {
            Ok(())
        }
    }
}

/// The transition relation of the pipeline: what `event` leads to in `p`, or
/// `None` where `p` does not wait for such an event.
pub open spec fn pipeline_step(p: PipelineView, event: PipelineEvent) -> Option<PipelineStep> {
    match (p.phase, event) {
        (PipelinePhase::Idle, PipelineEvent::Start) => p.go(
            PipelinePhase::Spawning { index: 0 },
            PipelineActionView::SpawnPair { index: 0 },
        ),
        (PipelinePhase::Spawning { index }, PipelineEvent::Spawned) => if index + 1
            < p.pool_size {
            p.go(
                PipelinePhase::Spawning { index: (index + 1) as usize },
                PipelineActionView::SpawnPair { index: (index + 1) as usize },
            )
        } else {
            p.feed()
        },
        (PipelinePhase::Feeding, PipelineEvent::Enqueued) => p.feed(),
        (PipelinePhase::Closing, PipelineEvent::QueueClosed) => p.go(
            PipelinePhase::JoiningWorkers { index: 0 },
            PipelineActionView::JoinWorker { index: 0 },
        ),
        (PipelinePhase::JoiningWorkers { index }, PipelineEvent::WorkerJoined(outcome)) => {
            let seen = PipelineView { panicked: p.panicked || outcome is Panicked, ..p };
            if index + 1 < p.pool_size {
                seen.go(
                    PipelinePhase::JoiningWorkers { index: (index + 1) as usize },
                    PipelineActionView::JoinWorker { index: (index + 1) as usize },
                )
            } else {
                seen.go(
                    PipelinePhase::JoiningObservers { index: 0 },
                    PipelineActionView::JoinObserver { index: 0 },
                )
            }
        },
        (PipelinePhase::JoiningObservers { index }, PipelineEvent::ObserverJoined) => if index + 1
            < p.pool_size {
            p.go(
                PipelinePhase::JoiningObservers { index: (index + 1) as usize },
                PipelineActionView::JoinObserver { index: (index + 1) as usize },
            )
        } else {
            p.go(PipelinePhase::Finished, PipelineActionView::Return(p.result()))
        },
        _ => None,
    }
}

impl View for Pipeline {
    type V = PipelineView;

    closed spec fn view(&self) -> PipelineView {
        PipelineView {
            remaining: card_views(self.pending@.reverse()),
            pool_size: self.pool_size,
            phase: self.phase,
            panicked: self.panicked,
        }
    }
}

impl Pipeline {
    #[verifier::type_invariant]
    spec fn is_sound(self) -> bool {
        self@.well_formed()
    }

    /// A pipeline for `cards` with a pool of `pool_size` workers, or `None` for
    /// an empty pool, which could not work off a single card.
    pub fn new(cards: Vec<Card>, pool_size: usize) -> (pipeline: Option<Pipeline>)
        ensures
            pool_size == 0 <==> pipeline is None,
            pipeline matches Some(p) ==> p@ == (PipelineView {
                remaining: card_views(cards@),
                pool_size,
                phase: PipelinePhase::Idle,
                panicked: false,
            }) && p@.well_formed(),
    {
        if pool_size == 0 {
            return None;
        }
        let mut cards = cards;
        let ghost all = cards@;
        let mut pending: Vec<Card> = Vec::new();
        while cards.len() > 0
            invariant
                cards@.len() + pending@.len() == all.len(),
                cards@ == all.take(cards@.len() as int),
                forall|i: int|
                    0 <= i < pending@.len() ==> #[trigger] pending@[i] == all[all.len() - 1 - i],
            decreases cards.len(),
        {
            let card = cards.pop();
            match card {
                Some(card) => pending.push(card),
                None => {},
            }
        }
        assert(pending@.reverse() =~= all);
        Some(Pipeline { pending, pool_size, phase: PipelinePhase::Idle, panicked: false })
    }

    /// Where the pipeline stands.
    pub fn phase(&self) -> (phase: PipelinePhase)
        ensures
            phase == self@.phase,
    {
        self.phase
    }

    /// The number of workers in the pool.
    pub fn pool_size(&self) -> (size: usize)
        ensures
            size == self@.pool_size,
    {
        self.pool_size
    }

    /// How many cards are still to be put on the queue.
    pub fn remaining(&self) -> (n: usize)
        ensures
            n == self@.remaining.len(),
    {
        self.pending.len()
    }

    fn feed(&mut self) -> (action: PipelineAction)
        requires
            old(self)@.phase is Spawning || old(self)@.phase is Feeding,
        ensures
            Some(PipelineStep { next: final(self)@, action: action@ }) == old(self)@.feed(),
    {
        proof {
            use_type_invariant(&*self);
        }
        let ghost before = self.pending@;
        // The list is taken out for the pop and put back at once.
        let mut pending: Vec<Card> = Vec::new();
        std::mem::swap(&mut self.pending, &mut pending);
        let card = pending.pop();
        std::mem::swap(&mut self.pending, &mut pending);
        match card {
            Some(card) => {
                self.phase = PipelinePhase::Feeding;
                proof {
                    let after = self.pending@;
                    assert(card_views(after.reverse()) =~= card_views(
                        before.reverse(),
                    ).drop_first());
                }
                PipelineAction::Enqueue(card)
            },
            None => {
                self.phase = PipelinePhase::Closing;
                PipelineAction::CloseQueue
            },
        }
    }
}

/// Advances the pipeline by one event: the pipeline moves to its next phase
/// and the action to perform next is returned. An event that the pipeline does
/// not wait for is refused and changes nothing.
pub fn download_images(pipeline: &mut Pipeline, event: PipelineEvent) -> (result: Result<
    PipelineAction,
    UnexpectedEvent,
>)
    ensures
        match pipeline_step(old(pipeline)@, event) {
            Some(step) => result matches Ok(action) && action@ == step.action && final(pipeline)@
                == step.next,
            None => result is Err && final(pipeline)@ == old(pipeline)@,
        },
        final(pipeline)@.well_formed(),
{
    proof {
        use_type_invariant(&*pipeline);
    }
    let phase = pipeline.phase;
    let pool_size = pipeline.pool_size;
    match (phase, event) {
        (PipelinePhase::Idle, PipelineEvent::Start) => {
            pipeline.phase = PipelinePhase::Spawning { index: 0 };
            Ok(PipelineAction::SpawnPair { index: 0 })
        },
        (PipelinePhase::Spawning { index }, PipelineEvent::Spawned) => {
            if index + 1 < pool_size {
                pipeline.phase = PipelinePhase::Spawning { index: index + 1 };
                Ok(PipelineAction::SpawnPair { index: index + 1 })
            } else {
                Ok(pipeline.feed())
            }
        },
        (PipelinePhase::Feeding, PipelineEvent::Enqueued) => Ok(pipeline.feed()),
        (PipelinePhase::Closing, PipelineEvent::QueueClosed) => {
            pipeline.phase = PipelinePhase::JoiningWorkers { index: 0 };
            Ok(PipelineAction::JoinWorker { index: 0 })
        },
        (PipelinePhase::JoiningWorkers { index }, PipelineEvent::WorkerJoined(outcome)) => {
            match outcome {
                JoinOutcome::Panicked => {
                    pipeline.panicked = true;
                },
                JoinOutcome::Exited(_) => {},
            }
            if index + 1 < pool_size {
                pipeline.phase = PipelinePhase::JoiningWorkers { index: index + 1 };
                Ok(PipelineAction::JoinWorker { index: index + 1 })
            } else {
                pipeline.phase = PipelinePhase::JoiningObservers { index: 0 };
                Ok(PipelineAction::JoinObserver { index: 0 })
            }
        },
        (PipelinePhase::JoiningObservers { index }, PipelineEvent::ObserverJoined) => {
            if index + 1 < pool_size {
                pipeline.phase = PipelinePhase::JoiningObservers { index: index + 1 };
                Ok(PipelineAction::JoinObserver { index: index + 1 })
            } else {
                pipeline.phase = PipelinePhase::Finished;
                Ok(
                    PipelineAction::Return(
                        if pipeline.panicked {
                            Err(PipelineError::WorkerPanicked)
                        } else {
                            Ok(())
                        },
                    ),
                )
            }
        },
        _ => Err(UnexpectedEvent {}),
    }
}

} // verus!
