//! The pool as a whole: a queue that hands each card to one worker, and the
//! workers that take cards from it side by side.
//!
//! This is a model. The workers in it are the state machines of this crate;
//! the queue is described by what the pool needs from it: cards leave it in
//! the order they came, and each card leaves it once. Any interleaving of the
//! workers' steps is a run of the model.

use vstd::prelude::*;
use crate::card::{lemma_destination_path_injective, CardView};
use crate::error::DownloadError;
use crate::transfer::{ItemOutcome, TransferEventView, TransferState};
use crate::worker::{
    worker_step, WorkerActionView, WorkerEventView, WorkerExit, WorkerStateView, WorkerView,
};
use crate::worker_trace::fresh_worker;

verus! {

/// The pool at one moment.
pub struct PoolView {
    /// The cards of the run, in the order given.
    pub cards: Seq<CardView>,
    /// The directory the images go to.
    pub dir: Seq<char>,
    /// How many cards were put on the queue.
    pub fed: int,
    /// How many cards have left the queue.
    pub taken: int,
    /// Whether the queue was closed.
    pub closed: bool,
    /// The workers.
    pub workers: Seq<WorkerView>,
    /// For each worker, which card it is downloading, if any.
    pub holding: Seq<Option<int>>,
    /// The outcomes on record, by card.
    pub outcomes: Map<int, ItemOutcome>,
}

/// What can happen in the pool.
pub enum PoolEvent {
    /// The pipeline puts the next card on the queue.
    Enqueue,
    /// The pipeline closes the queue.
    Close,
    /// Something is reported to one of the workers.
    Worker { index: int, event: WorkerEventView },
}

/// The pool before anything has happened.
pub open spec fn fresh_pool(cards: Seq<CardView>, dir: Seq<char>, pool_size: nat) -> PoolView {
    PoolView {
        cards,
        dir,
        fed: 0,
        taken: 0,
        closed: false,
        workers: Seq::new(pool_size, |i: int| fresh_worker(dir)),
        holding: Seq::new(pool_size, |i: int| None),
        outcomes: Map::empty(),
    }
}

/// Whether the queue can answer a worker with `event` now. It hands over the
/// card at its head, and reports its end once it is closed and empty.
pub open spec fn queue_allows(s: PoolView, event: WorkerEventView) -> bool {
    match event {
        WorkerEventView::Received(card) => s.taken < s.fed && card == s.cards[s.taken],
        WorkerEventView::QueueClosed => s.closed && s.taken == s.fed,
        _ => true,
    }
}

/// One step of the pool, or `None` where `event` cannot happen in `s`. The
/// queue is fed in the order of the cards and closed after the last; a worker
/// moves as its state machine says.
pub open spec fn pool_step(s: PoolView, event: PoolEvent) -> Option<PoolView> {
    match event {
        PoolEvent::Enqueue => if !s.closed && s.fed < s.cards.len() {
            Some(PoolView { fed: s.fed + 1, ..s })
        } else {
            None
        },
        PoolEvent::Close => if !s.closed && s.fed == s.cards.len() {
            Some(PoolView { closed: true, ..s })
        } else {
            None
        },
        PoolEvent::Worker { index, event } => if 0 <= index < s.workers.len() && queue_allows(
            s,
            event,
        ) {
            match worker_step(s.workers[index], event) {
                Some(step) => {
                    let card = if event is Received {
                        Some(s.taken)
                    } else {
                        s.holding[index]
                    };
                    Some(
                        PoolView {
                            taken: if event is Received {
                                s.taken + 1
                            } else {
                                s.taken
                            },
                            workers: s.workers.update(index, step.next),
                            holding: s.holding.update(
                                index,
                                if step.next.state is Busy {
                                    card
                                } else {
                                    None
                                },
                            ),
                            outcomes: match (step.action, card) {
                                (WorkerActionView::Settle(outcome), Some(k)) => s.outcomes.insert(
                                    k,
                                    outcome,
                                ),
                                (
                                    WorkerActionView::Stop(WorkerExit::SinkClosed),
                                    Some(k),
                                ) => s.outcomes.insert(
                                    k,
                                    ItemOutcome::Abandoned(DownloadError::ChannelClosed),
                                ),
                                _ => s.outcomes,
                            },
                            ..s
                        },
                    )
                },
                None => None,
            }
        } else {
            None
        },
    }
}

/// Lets `events` happen one by one. An event that cannot happen is passed
/// over.
pub open spec fn pool_run(start: PoolView, events: Seq<PoolEvent>) -> PoolView
    decreases events.len(),
{
    if events.len() == 0 {
        start
    } else {
        let before = pool_run(start, events.drop_last());
        match pool_step(before, events.last()) {
            Some(after) => after,
            None => before,
        }
    }
}

/// Whether worker `i` is downloading card `k`.
pub open spec fn holds(s: PoolView, i: int, k: int) -> bool {
    0 <= i < s.holding.len() && s.holding[i] == Some(k)
}

/// Whether worker `i` and the pool agree on what the worker is doing: a busy
/// worker downloads the card it holds, which has left the queue; any other
/// holds none; and one that has found the queue closed and empty has seen
/// every card leave it.
pub open spec fn worker_in_order(s: PoolView, i: int) -> bool {
    &&& s.workers[i].dir == s.dir
    &&& match s.workers[i].state {
        WorkerStateView::Busy(t) => {
            &&& s.holding[i] matches Some(k)
            &&& 0 <= k < s.taken
            &&& t.card == s.cards[k]
            &&& t.dir == s.dir
            &&& t.card.url is Some
            &&& t.state !is Pending
            &&& t.state !is Finished
        },
        WorkerStateView::Stopped(WorkerExit::Drained) => s.holding[i] is None && s.closed
            && s.taken == s.cards.len(),
        _ => s.holding[i] is None,
    }
}

/// Whether the outcome on record for card `k` is in order: the card has left
/// the queue, no worker holds it any more, and it counts as skipped exactly if
/// it has no image address.
pub open spec fn record_in_order(s: PoolView, k: int) -> bool {
    &&& 0 <= k < s.taken
    &&& s.outcomes[k] is Skipped <==> s.cards[k].url is None
    &&& forall|i: int| !holds(s, i, k)
}

/// What holds of the pool at every moment.
pub open spec fn pool_invariant(s: PoolView) -> bool {
    &&& 0 <= s.taken <= s.fed <= s.cards.len()
    &&& s.closed ==> s.fed == s.cards.len()
    &&& s.holding.len() == s.workers.len()
    &&& forall|i: int| 0 <= i < s.workers.len() ==> #[trigger] worker_in_order(s, i)
    &&& forall|i: int, j: int, k: int| holds(s, i, k) && holds(s, j, k) ==> i == j
    &&& forall|k: int| #[trigger] s.outcomes.dom().contains(k) ==> record_in_order(s, k)
    &&& forall|k: int|
        0 <= k < s.taken ==> #[trigger] s.outcomes.dom().contains(k) || exists|i: int|
            holds(s, i, k)
}

proof fn lemma_pool_step_keeps_invariant(s: PoolView, event: PoolEvent)
    requires
        pool_invariant(s),
        pool_step(s, event) is Some,
    ensures
        pool_invariant(pool_step(s, event)->Some_0),
        pool_step(s, event)->Some_0.cards == s.cards,
        pool_step(s, event)->Some_0.dir == s.dir,
        pool_step(s, event)->Some_0.workers.len() == s.workers.len(),
{
    let n = pool_step(s, event)->Some_0;
    match event {
        PoolEvent::Worker { index, event } => {
            let card = if event is Received {
                Some(s.taken)
            } else {
                s.holding[index]
            };
            assert(worker_in_order(s, index));
            // The other workers are as they were.
            assert forall|i: int, k: int| i != index implies holds(n, i, k) == holds(s, i, k) by {}
            // The card in hand is held by no other worker and has no outcome
            // yet.
            assert(card matches Some(k) ==> !s.outcomes.dom().contains(k) && forall|i: int|
                i != index ==> !holds(s, i, k)) by {
                if let Some(k) = card {
                    if event is Received {
                        assert forall|i: int| !holds(s, i, k) by {
                            if holds(s, i, k) {
                                assert(worker_in_order(s, i));
                            }
                        }
                    } else {
                        assert(holds(s, index, k));
                    }
                }
            }
            assert forall|i: int| 0 <= i < n.workers.len() implies #[trigger] worker_in_order(
                n,
                i,
            ) by {
                assert(worker_in_order(s, i));
            }
            assert forall|k: int| #[trigger] n.outcomes.dom().contains(k) implies record_in_order(
                n,
                k,
            ) by {
                if s.outcomes.dom().contains(k) {
                    assert(record_in_order(s, k));
                }
                assert forall|i: int| !holds(n, i, k) by {}
            }
            assert forall|k: int| 0 <= k < n.taken implies #[trigger] n.outcomes.dom().contains(k)
                || exists|i: int| holds(n, i, k) by {
                if card == Some(k) {
                    if n.workers[index].state is Busy {
                        assert(holds(n, index, k));
                    }
                } else if !s.outcomes.dom().contains(k) {
                    let i = choose|i: int| holds(s, i, k);
                    assert(holds(n, i, k));
                }
            }
        },
        _ => {
            // The workers are as they were.
            assert forall|i: int, k: int| holds(n, i, k) == holds(s, i, k) by {}
            assert forall|i: int| 0 <= i < n.workers.len() implies #[trigger] worker_in_order(
                n,
                i,
            ) by {
                assert(worker_in_order(s, i));
            }
            assert forall|k: int| #[trigger] n.outcomes.dom().contains(k) implies record_in_order(
                n,
                k,
            ) by {
                assert(record_in_order(s, k));
            }
        },
    }
}

/// The invariant holds after every sequence of events.
pub proof fn lemma_pool_invariant(
    cards: Seq<CardView>,
    dir: Seq<char>,
    pool_size: nat,
    events: Seq<PoolEvent>,
)
    ensures
        pool_invariant(pool_run(fresh_pool(cards, dir, pool_size), events)),
        pool_run(fresh_pool(cards, dir, pool_size), events).cards == cards,
        pool_run(fresh_pool(cards, dir, pool_size), events).dir == dir,
        pool_run(fresh_pool(cards, dir, pool_size), events).workers.len() == pool_size,
    decreases events.len(),
{
    let start = fresh_pool(cards, dir, pool_size);
    if events.len() == 0 {
        assert forall|i: int| 0 <= i < start.workers.len() implies #[trigger] worker_in_order(
            start,
            i,
        ) by {}
    } else {
        let before = pool_run(start, events.drop_last());
        lemma_pool_invariant(cards, dir, pool_size, events.drop_last());
        if pool_step(before, events.last()) is Some {
            lemma_pool_step_keeps_invariant(before, events.last());
        }
    }
}

/// Whether no two cards share an identifier.
pub open spec fn distinct_ids(cards: Seq<CardView>) -> bool {
    forall|a: int, b: int|
        0 <= a < cards.len() && 0 <= b < cards.len() && a != b ==> (#[trigger] cards[a]).id != (
        #[trigger] cards[b]).id
}

/// Where no two cards share an identifier, no two workers ever have the same
/// destination file in hand: two workers that are downloading at the same
/// moment hold different cards, and so write to different paths.
pub proof fn lemma_workers_never_share_a_file(
    cards: Seq<CardView>,
    dir: Seq<char>,
    pool_size: nat,
    events: Seq<PoolEvent>,
    i: int,
    j: int,
)
    requires
        distinct_ids(cards),
        0 <= i < pool_size,
        0 <= j < pool_size,
        i != j,
        pool_run(fresh_pool(cards, dir, pool_size), events).workers[i].state is Busy,
        pool_run(fresh_pool(cards, dir, pool_size), events).workers[j].state is Busy,
    ensures
        ({
            let s = pool_run(fresh_pool(cards, dir, pool_size), events);
            let a = s.workers[i].state->Busy_0;
            let b = s.workers[j].state->Busy_0;
            &&& a.card.id != b.card.id
            &&& a.path() != b.path()
        }),
{
    let s = pool_run(fresh_pool(cards, dir, pool_size), events);
    lemma_pool_invariant(cards, dir, pool_size, events);
    let a = s.workers[i].state->Busy_0;
    let b = s.workers[j].state->Busy_0;
    assert(worker_in_order(s, i) && worker_in_order(s, j));
    assert(holds(s, i, s.holding[i]->Some_0));
    assert(holds(s, j, s.holding[j]->Some_0));
    if a.path() == b.path() {
        lemma_destination_path_injective(dir, a.card.id, b.card.id);
    }
}

/// No card is lost or handed out twice: at every moment each card that has
/// left the queue is in the hands of exactly one worker or has its outcome on
/// record, never both; and a card is on record as skipped exactly if it has no
/// image address.
pub proof fn lemma_pool_accounts_for_every_card(
    cards: Seq<CardView>,
    dir: Seq<char>,
    pool_size: nat,
    events: Seq<PoolEvent>,
    k: int,
)
    requires
        0 <= k < pool_run(fresh_pool(cards, dir, pool_size), events).taken,
    ensures
        ({
            let s = pool_run(fresh_pool(cards, dir, pool_size), events);
            &&& k < cards.len()
            &&& s.outcomes.dom().contains(k) != (exists|i: int| holds(s, i, k))
            &&& forall|i: int, j: int| holds(s, i, k) && holds(s, j, k) ==> i == j
            &&& s.outcomes.dom().contains(k) ==> (s.outcomes[k] is Skipped <==> cards[k].url
                is None)
        }),
{
    let s = pool_run(fresh_pool(cards, dir, pool_size), events);
    lemma_pool_invariant(cards, dir, pool_size, events);
    if s.outcomes.dom().contains(k) {
        assert(record_in_order(s, k));
    }
}

/// Once every worker has stopped, and one of them because the queue was
/// closed and empty, every card of the run has left the queue and has its
/// outcome on record.
pub proof fn lemma_pool_at_rest(
    cards: Seq<CardView>,
    dir: Seq<char>,
    pool_size: nat,
    events: Seq<PoolEvent>,
    drained: int,
)
    requires
        0 <= drained < pool_size,
        pool_run(fresh_pool(cards, dir, pool_size), events).workers[drained].state
            == WorkerStateView::Stopped(WorkerExit::Drained),
        forall|i: int|
            0 <= i < pool_size ==> (#[trigger] pool_run(
                fresh_pool(cards, dir, pool_size),
                events,
            ).workers[i]).state is Stopped,
    ensures
        ({
            let s = pool_run(fresh_pool(cards, dir, pool_size), events);
            &&& s.closed
            &&& s.taken == cards.len()
            &&& forall|k: int| 0 <= k < cards.len() ==> #[trigger] s.outcomes.dom().contains(k)
        }),
{
    let s = pool_run(fresh_pool(cards, dir, pool_size), events);
    lemma_pool_invariant(cards, dir, pool_size, events);
    assert(worker_in_order(s, drained));
    assert forall|k: int| 0 <= k < cards.len() implies #[trigger] s.outcomes.dom().contains(k) by {
        if !s.outcomes.dom().contains(k) {
            // A worker would hold the card, but none is busy.
            let i = choose|i: int| holds(s, i, k);
            assert(worker_in_order(s, i));
            assert(s.workers[i].state is Stopped);
        }
    }
}

/// An answer that a download in this state accepts, whatever else might
/// happen: the one that takes it furthest.
pub open spec fn an_answer(state: TransferState) -> TransferEventView {
    match state {
        TransferState::Pending => TransferEventView::Start,
        TransferState::Fetching => TransferEventView::FetchFailed,
        TransferState::Announcing { .. } | TransferState::Reporting { .. } => {
            TransferEventView::Emitted
        },
        TransferState::Creating { .. } => TransferEventView::FileCreated,
        TransferState::Reading { .. } => TransferEventView::StreamEnded,
        TransferState::Writing { .. } => TransferEventView::Written,
        _ => TransferEventView::FileClosed,
    }
}

/// Something that can happen in `s` as long as worker `i` has not stopped:
/// the worker's next step if it has one to take, a step of the pipeline if the
/// worker waits for a card that is not on the queue yet.
pub open spec fn a_next_event(s: PoolView, i: int) -> PoolEvent {
    match s.workers[i].state {
        WorkerStateView::Idle => PoolEvent::Worker { index: i, event: WorkerEventView::Start },
        WorkerStateView::Busy(t) => PoolEvent::Worker {
            index: i,
            event: WorkerEventView::Item(an_answer(t.state)),
        },
        WorkerStateView::Settling => PoolEvent::Worker {
            index: i,
            event: WorkerEventView::Settled,
        },
        _ => if s.taken < s.fed {
            PoolEvent::Worker { index: i, event: WorkerEventView::Received(s.cards[s.taken]) }
        } else if s.closed {
            PoolEvent::Worker { index: i, event: WorkerEventView::QueueClosed }
        } else if s.fed < s.cards.len() {
            PoolEvent::Enqueue
        } else {
            PoolEvent::Close
        },
    }
}

/// The pool never stalls: as long as a worker has not stopped, something can
/// happen. Either that worker has a step to take, or it waits for a card and
/// the pipeline can put one on the queue or close it.
pub proof fn lemma_pool_never_stalls(
    cards: Seq<CardView>,
    dir: Seq<char>,
    pool_size: nat,
    events: Seq<PoolEvent>,
    i: int,
)
    requires
        0 <= i < pool_size,
        pool_run(fresh_pool(cards, dir, pool_size), events).workers[i].state !is Stopped,
    ensures
        ({
            let s = pool_run(fresh_pool(cards, dir, pool_size), events);
            pool_step(s, a_next_event(s, i)) is Some
        }),
{
    let s = pool_run(fresh_pool(cards, dir, pool_size), events);
    lemma_pool_invariant(cards, dir, pool_size, events);
    assert(worker_in_order(s, i));
}

} // verus!
