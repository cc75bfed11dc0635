//! What a worker does over a whole sequence of events, and what holds of it
//! whatever the events are.

use vstd::prelude::*;
use crate::card::{destination_path_spec, CardView};
use crate::error::DownloadError;
use crate::progress::{may_follow, well_formed_stream, ProgressView};
use crate::transfer::{
    ItemOutcome, TransferActionView, TransferEventView, TransferState, TransferView,
};
use crate::transfer_trace::{no_effects, phase, record, Effects};
use crate::worker::{
    worker_step, WorkerActionView, WorkerEventView, WorkerExit, WorkerStateView, WorkerView,
};

verus! {

/// A worker after some events: where it stands, the events it accepted and
/// the actions it asked for.
pub struct WorkerRun {
    pub state: WorkerView,
    pub accepted: Seq<WorkerEventView>,
    pub actions: Seq<WorkerActionView>,
}

/// A worker that has not started yet.
pub open spec fn fresh_worker(dir: Seq<char>) -> WorkerView {
    WorkerView { dir, state: WorkerStateView::Idle }
}

/// Feeds `events` to a worker one by one. An event the worker does not wait for
/// is refused and leaves no trace.
pub open spec fn worker_run(start: WorkerView, events: Seq<WorkerEventView>) -> WorkerRun
    decreases events.len(),
{
    if events.len() == 0 {
        WorkerRun { state: start, accepted: Seq::empty(), actions: Seq::empty() }
    } else {
        let before = worker_run(start, events.drop_last());
        match worker_step(before.state, events.last()) {
            Some(step) => WorkerRun {
                state: step.next,
                accepted: before.accepted.push(events.last()),
                actions: before.actions.push(step.action),
            },
            None => before,
        }
    }
}

/// The effects `fx` with those of one more action of a worker. Stopping for
/// want of a listener puts the card in progress on record as abandoned.
pub open spec fn worker_record(fx: Effects, action: WorkerActionView) -> Effects {
    match action {
        WorkerActionView::Item(a) => record(fx, a),
        WorkerActionView::Settle(outcome) => Effects {
            outcomes: fx.outcomes.push(outcome),
            ..fx
        },
        WorkerActionView::Stop(WorkerExit::SinkClosed) => Effects {
            outcomes: fx.outcomes.push(ItemOutcome::Abandoned(DownloadError::ChannelClosed)),
            ..fx
        },
        _ => fx,
    }
}

/// The effects of the actions of a worker, performed in order.
pub open spec fn worker_effects(actions: Seq<WorkerActionView>) -> Effects
    decreases actions.len(),
{
    if actions.len() == 0 {
        no_effects()
    } else {
        worker_record(worker_effects(actions.drop_last()), actions.last())
    }
}

/// The cards among the events, in order.
pub open spec fn cards_received(events: Seq<WorkerEventView>) -> Seq<CardView>
    decreases events.len(),
{
    if events.len() == 0 {
        Seq::empty()
    } else {
        let before = cards_received(events.drop_last());
        match events.last() {
            WorkerEventView::Received(card) => before.push(card),
            _ => before,
        }
    }
}

/// What the state of the download in progress says of the last event sent.
pub open spec fn continues(t: TransferView, p: Seq<ProgressView>) -> bool {
    match t.state {
        TransferState::Announcing { total } | TransferState::Creating { total } => p.len() > 0
            && p.last() == (ProgressView::NewDownload { name: t.card.name, total }),
        TransferState::Reading { done, total } => p.len() > 0 && p.last().total() == total
            && p.last().done() == done && done <= total,
        TransferState::Writing { next, total } => p.len() > 0 && p.last().total() == total
            && p.last().done() <= next <= total,
        TransferState::Reporting { done, total } => p.len() > 0 && p.last() == (
        ProgressView::Bytes { done, total }),
        _ => true,
    }
}

/// Whether `path` is the destination of one of `cards`.
pub open spec fn is_destination_of_one(path: Seq<char>, dir: Seq<char>, cards: Seq<CardView>) -> bool {
    exists|i: int|
        0 <= i < cards.len() && path == destination_path_spec(dir, (#[trigger] cards[i]).id)
}

/// What ties the state of a worker to the cards it has received and to the
/// effects of the actions it has asked for.
pub open spec fn worker_invariant(run: WorkerRun) -> bool {
    let fx = worker_effects(run.actions);
    let cards = cards_received(run.accepted);
    &&& well_formed_stream(fx.progress)
    &&& forall|i: int|
        0 <= i < fx.outcomes.len() ==> ((#[trigger] fx.outcomes[i] is Skipped) <==> cards[i].url
            is None)
    &&& forall|k: int|
        0 <= k < fx.files.len() ==> is_destination_of_one(
            #[trigger] fx.files[k],
            run.state.dir,
            cards,
        )
    &&& match run.state.state {
        WorkerStateView::Busy(t) => {
            &&& cards.len() == fx.outcomes.len() + 1
            &&& t.card == cards.last()
            &&& t.dir == run.state.dir
            &&& t.card.url is Some
            &&& t.state !is Pending
            &&& t.state !is Finished
            &&& continues(t, fx.progress)
        },
        WorkerStateView::Idle => cards.len() == 0 && run.actions.len() == 0,
        _ => cards.len() == fx.outcomes.len(),
    }
}

proof fn lemma_worker_effects_push(actions: Seq<WorkerActionView>, action: WorkerActionView)
    ensures
        worker_effects(actions.push(action)) == worker_record(worker_effects(actions), action),
{
    assert(actions.push(action).drop_last() =~= actions);
}

proof fn lemma_cards_received_push(events: Seq<WorkerEventView>, event: WorkerEventView)
    ensures
        cards_received(events.push(event)) == match event {
            WorkerEventView::Received(card) => cards_received(events).push(card),
            _ => cards_received(events),
        },
{
    assert(events.push(event).drop_last() =~= events);
}

proof fn lemma_stream_push(p: Seq<ProgressView>, next: ProgressView)
    requires
        well_formed_stream(p),
        next is NewDownload || (p.len() > 0 && may_follow(p.last(), next)),
    ensures
        well_formed_stream(p.push(next)),
{
    let q = p.push(next);
    assert forall|i: int| 0 < i < q.len() implies may_follow(q[i - 1], #[trigger] q[i]) by {}
}

/// The invariant holds after every sequence of events.
pub proof fn lemma_worker_invariant(dir: Seq<char>, events: Seq<WorkerEventView>)
    ensures
        worker_invariant(worker_run(fresh_worker(dir), events)),
        worker_run(fresh_worker(dir), events).state.dir == dir,
        worker_run(fresh_worker(dir), events).state.well_formed(),
    decreases events.len(),
{
    let start = fresh_worker(dir);
    let run = worker_run(start, events);
    if events.len() > 0 {
        let before = worker_run(start, events.drop_last());
        let event = events.last();
        lemma_worker_invariant(dir, events.drop_last());
        if worker_step(before.state, event) is Some {
            let step = worker_step(before.state, event)->Some_0;
            lemma_worker_effects_push(before.actions, step.action);
            lemma_cards_received_push(before.accepted, event);
            let fx0 = worker_effects(before.actions);
            let fx = worker_effects(run.actions);
            let cards0 = cards_received(before.accepted);
            let cards = cards_received(run.accepted);
            // The stream stays well formed.
            if let WorkerActionView::Item(TransferActionView::Emit(p)) = step.action {
                lemma_stream_push(fx0.progress, p);
            }
            // Each outcome still belongs to its card.
            assert forall|i: int| 0 <= i < fx.outcomes.len() implies ((#[trigger] fx.outcomes[i]
                is Skipped) <==> cards[i].url is None) by {}
            // Each file still belongs to a card.
            assert forall|k: int| 0 <= k < fx.files.len() implies is_destination_of_one(
                #[trigger] fx.files[k],
                dir,
                cards,
            ) by {
                if k < fx0.files.len() {
                    assert(is_destination_of_one(fx0.files[k], dir, cards0));
                    let i = choose|i: int|
                        0 <= i < cards0.len() && fx0.files[k] == destination_path_spec(
                            dir,
                            (#[trigger] cards0[i]).id,
                        );
                    assert(cards[i] == cards0[i]);
                } else {
                    assert(fx.files[k] == destination_path_spec(dir, cards[cards.len() - 1].id));
                }
            }
        }
    }
}

/// Whatever happens to a worker, the progress events it sends form a
/// well-formed stream: each byte count follows the announcement or a byte count
/// of the same download, is not below the one before it and not above the
/// announced total.
pub proof fn lemma_worker_stream(dir: Seq<char>, events: Seq<WorkerEventView>)
    ensures
        well_formed_stream(worker_effects(worker_run(fresh_worker(dir), events).actions).progress),
{
    lemma_worker_invariant(dir, events);
}

/// No card is lost: every card a worker has received has its outcome on
/// record, in the order of arrival, but for the one in progress. A card is on
/// record as skipped exactly if it has no image address.
pub proof fn lemma_worker_accounts_for_cards(dir: Seq<char>, events: Seq<WorkerEventView>)
    ensures
        ({
            let run = worker_run(fresh_worker(dir), events);
            let outcomes = worker_effects(run.actions).outcomes;
            let cards = cards_received(run.accepted);
            &&& run.state.state is Busy ==> cards.len() == outcomes.len() + 1
            &&& run.state.state !is Busy ==> cards.len() == outcomes.len()
            &&& forall|i: int|
                0 <= i < outcomes.len() ==> ((#[trigger] outcomes[i] is Skipped) <==> cards[i].url
                    is None)
        }),
{
    lemma_worker_invariant(dir, events);
}

/// A worker creates no file but the destination of a card it has received.
pub proof fn lemma_worker_files(dir: Seq<char>, events: Seq<WorkerEventView>)
    ensures
        ({
            let run = worker_run(fresh_worker(dir), events);
            let files = worker_effects(run.actions).files;
            let cards = cards_received(run.accepted);
            forall|k: int|
                0 <= k < files.len() ==> is_destination_of_one(#[trigger] files[k], dir, cards)
        }),
{
    lemma_worker_invariant(dir, events);
}

/// Whether none of the cards among `events` has an image address.
pub open spec fn no_card_has_image(events: Seq<WorkerEventView>) -> bool {
    forall|i: int|
        0 <= i < events.len() ==> (#[trigger] events[i] matches WorkerEventView::Received(card)
            ==> card.url is None)
}

/// Cards without an image address leave no trace but their record: a worker
/// that receives no other card sends no progress event, creates no file and
/// writes no byte.
pub proof fn lemma_worker_skips_cards_without_image(dir: Seq<char>, events: Seq<WorkerEventView>)
    requires
        no_card_has_image(events),
    ensures
        ({
            let run = worker_run(fresh_worker(dir), events);
            let fx = worker_effects(run.actions);
            &&& fx.progress.len() == 0
            &&& fx.files.len() == 0
            &&& fx.written.len() == 0
            &&& run.state.state !is Busy
            &&& forall|i: int| 0 <= i < fx.outcomes.len() ==> fx.outcomes[i] is Skipped
        }),
    decreases events.len(),
{
    let start = fresh_worker(dir);
    let run = worker_run(start, events);
    if events.len() > 0 {
        let before = worker_run(start, events.drop_last());
        let event = events.last();
        assert(no_card_has_image(events.drop_last())) by {
            assert forall|i: int| 0 <= i < events.drop_last().len() implies (
            #[trigger] events.drop_last()[i] matches WorkerEventView::Received(card) ==> card.url
                is None) by {
                assert(events.drop_last()[i] == events[i]);
            }
        }
        lemma_worker_skips_cards_without_image(dir, events.drop_last());
        if worker_step(before.state, event) is Some {
            let step = worker_step(before.state, event)->Some_0;
            lemma_worker_effects_push(before.actions, step.action);
            let fx = worker_effects(run.actions);
            assert forall|i: int| 0 <= i < fx.outcomes.len() implies fx.outcomes[i] is Skipped by {}
        }
    }
}

/// A worker that has stopped waits for nothing: it refuses every event.
pub proof fn lemma_stopped_is_final(w: WorkerView, event: WorkerEventView)
    requires
        w.state is Stopped,
    ensures
        worker_step(w, event) is None,
{
}

/// The number of cards among `events`.
pub open spec fn card_count(events: Seq<WorkerEventView>) -> nat
    decreases events.len(),
{
    if events.len() == 0 {
        0
    } else {
        card_count(events.drop_last()) + if events.last() is Received {
            1nat
        } else {
            0nat
        }
    }
}

/// The number of chunks among `events`.
pub open spec fn worker_chunk_count(events: Seq<WorkerEventView>) -> nat
    decreases events.len(),
{
    if events.len() == 0 {
        0
    } else {
        worker_chunk_count(events.drop_last()) + if events.last() matches WorkerEventView::Item(
            TransferEventView::Chunk(_),
        ) {
            1nat
        } else {
            0nat
        }
    }
}

/// How far a worker in this state is beyond seven steps for each card and
/// three for each chunk.
pub open spec fn worker_phase(state: WorkerStateView) -> int {
    match state {
        WorkerStateView::Idle => 0,
        WorkerStateView::Waiting => 1,
        WorkerStateView::Busy(t) => phase(t.state) - 6,
        WorkerStateView::Settling => 0,
        WorkerStateView::Stopped(_) => 2,
    }
}

/// A worker ends: it takes at most seven steps for each card it is handed,
/// three for each chunk of their bodies, and two besides, however many events
/// it is offered.
pub proof fn lemma_worker_is_bounded(dir: Seq<char>, events: Seq<WorkerEventView>)
    ensures
        worker_run(fresh_worker(dir), events).actions.len() <= 7 * card_count(events) + 3
            * worker_chunk_count(events) + worker_phase(
            worker_run(fresh_worker(dir), events).state.state,
        ),
        worker_run(fresh_worker(dir), events).actions.len() <= 7 * card_count(events) + 3
            * worker_chunk_count(events) + 2,
    decreases events.len(),
{
    if events.len() > 0 {
        lemma_worker_is_bounded(dir, events.drop_last());
    }
}

} // verus!
