//! What the pipeline does over a whole sequence of events, and what holds of
//! it whatever the events are.

use vstd::prelude::*;
use crate::card::CardView;
use crate::error::PipelineError;
use crate::pipeline::{
    pipeline_step, JoinOutcome, PipelineActionView, PipelineEvent, PipelinePhase, PipelineView,
};

verus! {

/// The pipeline after some events: where it stands, the events it accepted
/// and the actions it asked for.
pub struct PipelineRun {
    pub state: PipelineView,
    pub accepted: Seq<PipelineEvent>,
    pub actions: Seq<PipelineActionView>,
}

/// A pipeline that was not started yet.
pub open spec fn fresh_pipeline(cards: Seq<CardView>, pool_size: usize) -> PipelineView {
    PipelineView { remaining: cards, pool_size, phase: PipelinePhase::Idle, panicked: false }
}

/// Feeds `events` to the pipeline one by one. An event the pipeline does not
/// wait for is refused and leaves no trace.
pub open spec fn pipeline_run(start: PipelineView, events: Seq<PipelineEvent>) -> PipelineRun
    decreases events.len(),
{
    if events.len() == 0 {
        PipelineRun { state: start, accepted: Seq::empty(), actions: Seq::empty() }
    } else {
        let before = pipeline_run(start, events.drop_last());
        match pipeline_step(before.state, events.last()) {
            Some(step) => PipelineRun {
                state: step.next,
                accepted: before.accepted.push(events.last()),
                actions: before.actions.push(step.action),
            },
            None => before,
        }
    }
}

/// The plan of a run, but for the result at its end: start every pair, put
/// every card on the queue in the order given, close the queue, wait for every
/// worker, then for every observer.
pub open spec fn planned(cards: Seq<CardView>, pool: int, k: int) -> PipelineActionView {
    let n = cards.len() as int;
    if k < pool {
        PipelineActionView::SpawnPair { index: k as usize }
    } else if k < pool + n {
        PipelineActionView::Enqueue(cards[k - pool])
    } else if k == pool + n {
        PipelineActionView::CloseQueue
    } else if k <= 2 * pool + n {
        PipelineActionView::JoinWorker { index: (k - pool - n - 1) as usize }
    } else {
        PipelineActionView::JoinObserver { index: (k - 2 * pool - n - 1) as usize }
    }
}

/// The length of the plan, its result included.
pub open spec fn plan_length(cards: Seq<CardView>, pool: int) -> int {
    3 * pool + cards.len() + 2
}

/// Whether a worker was reported to have ended by a fault.
pub open spec fn fault_seen(accepted: Seq<PipelineEvent>) -> bool {
    exists|i: int|
        0 <= i < accepted.len() && #[trigger] accepted[i] == PipelineEvent::WorkerJoined(
            JoinOutcome::Panicked,
        )
}

/// How many actions a pipeline in this phase has asked for.
pub open spec fn position(cards: Seq<CardView>, p: PipelineView) -> int {
    let n = cards.len() as int;
    let pool = p.pool_size as int;
    match p.phase {
        PipelinePhase::Idle => 0,
        PipelinePhase::Spawning { index } => index + 1,
        PipelinePhase::Feeding => pool + n - p.remaining.len(),
        PipelinePhase::Closing => pool + n + 1,
        PipelinePhase::JoiningWorkers { index } => pool + n + 2 + index,
        PipelinePhase::JoiningObservers { index } => 2 * pool + n + 2 + index,
        PipelinePhase::Finished => 3 * pool + n + 2,
    }
}

/// What ties the state of the pipeline to the events it has accepted and the
/// actions it has asked for.
pub open spec fn pipeline_invariant(cards: Seq<CardView>, pool_size: usize, run: PipelineRun) -> bool {
    let n = cards.len() as int;
    let pool = pool_size as int;
    let p = run.state;
    &&& p.pool_size == pool_size
    &&& p.remaining.len() <= n
    &&& p.remaining == cards.skip(n - p.remaining.len())
    &&& run.actions.len() == position(cards, p)
    &&& p.panicked == fault_seen(run.accepted)
    &&& forall|k: int|
        0 <= k < run.actions.len() && k < plan_length(cards, pool) - 1 ==> #[trigger] run.actions[k]
            == planned(cards, pool, k)
    &&& match p.phase {
        PipelinePhase::Idle => p.remaining.len() == n,
        PipelinePhase::Spawning { index } => index < pool && p.remaining.len() == n,
        PipelinePhase::Feeding => p.remaining.len() < n,
        PipelinePhase::Closing => p.remaining.len() == 0,
        PipelinePhase::JoiningWorkers { index } => index < pool && p.remaining.len() == 0,
        PipelinePhase::JoiningObservers { index } => index < pool && p.remaining.len() == 0,
        PipelinePhase::Finished => p.remaining.len() == 0 && run.actions.last()
            == PipelineActionView::Return(p.result()),
    }
}

proof fn lemma_fault_seen_push(accepted: Seq<PipelineEvent>, event: PipelineEvent)
    ensures
        fault_seen(accepted.push(event)) == (fault_seen(accepted) || event
            == PipelineEvent::WorkerJoined(JoinOutcome::Panicked)),
{
    let longer = accepted.push(event);
    if fault_seen(accepted) {
        let i = choose|i: int|
            0 <= i < accepted.len() && #[trigger] accepted[i] == PipelineEvent::WorkerJoined(
                JoinOutcome::Panicked,
            );
        assert(longer[i] == accepted[i]);
    }
    if event == PipelineEvent::WorkerJoined(JoinOutcome::Panicked) {
        assert(longer[accepted.len() as int] == event);
    }
    if fault_seen(longer) {
        let i = choose|i: int|
            0 <= i < longer.len() && #[trigger] longer[i] == PipelineEvent::WorkerJoined(
                JoinOutcome::Panicked,
            );
        if i < accepted.len() {
            assert(accepted[i] == longer[i]);
        }
    }
}

/// The invariant holds after every sequence of events.
pub proof fn lemma_pipeline_invariant(
    cards: Seq<CardView>,
    pool_size: usize,
    events: Seq<PipelineEvent>,
)
    requires
        pool_size >= 1,
    ensures
        pipeline_invariant(
            cards,
            pool_size,
            pipeline_run(fresh_pipeline(cards, pool_size), events),
        ),
        pipeline_run(fresh_pipeline(cards, pool_size), events).state.well_formed(),
    decreases events.len(),
{
    let start = fresh_pipeline(cards, pool_size);
    let run = pipeline_run(start, events);
    let n = cards.len() as int;
    let pool = pool_size as int;
    if events.len() == 0 {
        assert(cards.skip(0) =~= cards);
    } else {
        let before = pipeline_run(start, events.drop_last());
        let event = events.last();
        lemma_pipeline_invariant(cards, pool_size, events.drop_last());
        if pipeline_step(before.state, event) is Some {
            let step = pipeline_step(before.state, event)->Some_0;
            let prior = before.state;
            let p = step.next;
            lemma_fault_seen_push(before.accepted, event);
            // What is left of the cards is still their tail.
            assert(p.remaining == cards.skip(n - p.remaining.len()));
            // The new action is the next of the plan.
            assert forall|k: int|
                0 <= k < run.actions.len() && k < plan_length(cards, pool) - 1 implies #[trigger] run.actions[k]
                == planned(cards, pool, k) by {
                if k < before.actions.len() {
                    assert(run.actions[k] == before.actions[k]);
                }
            }
        }
    }
}

/// Whatever events arrive, the pipeline keeps to its plan: every pair is
/// started, then every card is put on the queue once and in the order given,
/// then the queue is closed, then every worker and then every observer is
/// awaited. The plan is finite, so the pipeline ends. Its result is an error
/// exactly if a worker was reported to have ended by a fault.
pub proof fn lemma_pipeline_follows_plan(
    cards: Seq<CardView>,
    pool_size: usize,
    events: Seq<PipelineEvent>,
)
    requires
        pool_size >= 1,
    ensures
        ({
            let run = pipeline_run(fresh_pipeline(cards, pool_size), events);
            let length = plan_length(cards, pool_size as int);
            &&& run.actions.len() <= length
            &&& forall|k: int|
                0 <= k < run.actions.len() && k < length - 1 ==> #[trigger] run.actions[k]
                    == planned(cards, pool_size as int, k)
            &&& run.actions.len() == length <==> run.state.phase is Finished
            &&& run.state.phase is Finished ==> run.actions.last() == PipelineActionView::Return(
                if fault_seen(run.accepted) {
                    Err(PipelineError::WorkerPanicked)
                } else {
                    Ok(())
                },
            )
        }),
{
    lemma_pipeline_invariant(cards, pool_size, events);
}

/// Whether `event` tells how `action` went.
pub open spec fn pipeline_answers(action: PipelineActionView, event: PipelineEvent) -> bool {
    match action {
        PipelineActionView::SpawnPair { .. } => event is Spawned,
        PipelineActionView::Enqueue(_) => event is Enqueued,
        PipelineActionView::CloseQueue => event is QueueClosed,
        PipelineActionView::JoinWorker { .. } => event is WorkerJoined,
        PipelineActionView::JoinObserver { .. } => event is ObserverJoined,
        PipelineActionView::Return(_) => false,
    }
}

/// The pipeline never gets stuck: it accepts the events that answer the action
/// it asked for, and no others; once it has returned it accepts none.
pub proof fn lemma_pipeline_accepts_answers(
    p: PipelineView,
    event: PipelineEvent,
    answer: PipelineEvent,
)
    requires
        pipeline_step(p, event) is Some,
    ensures
        ({
            let step = pipeline_step(p, event)->Some_0;
            &&& pipeline_answers(step.action, answer) <==> pipeline_step(step.next, answer) is Some
            &&& step.action is Return <==> step.next.phase is Finished
        }),
{
}

} // verus!
