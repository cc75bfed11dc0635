//! What a download does over a whole sequence of events, and what holds of it
//! whatever the events are.

use vstd::prelude::*;
use crate::card::{destination_path_spec, CardView};
use crate::progress::{may_follow, well_formed_stream, ProgressView};
use crate::transfer::{
    transfer_step, ItemOutcome, TransferActionView, TransferEventView, TransferState,
    TransferView,
};

verus! {

/// What a sequence of actions amounts to once performed.
pub struct Effects {
    /// The progress events sent, in order.
    pub progress: Seq<ProgressView>,
    /// The files created, in order.
    pub files: Seq<Seq<char>>,
    /// The bytes handed over for writing, in order.
    pub written: Seq<u8>,
    /// The outcomes reported, in order.
    pub outcomes: Seq<ItemOutcome>,
}

/// The effects of doing nothing.
pub open spec fn no_effects() -> Effects {
    Effects {
        progress: Seq::empty(),
        files: Seq::empty(),
        written: Seq::empty(),
        outcomes: Seq::empty(),
    }
}

/// The effects `fx` with those of one more action.
pub open spec fn record(fx: Effects, action: TransferActionView) -> Effects {
    match action {
        TransferActionView::Emit(p) => Effects { progress: fx.progress.push(p), ..fx },
        TransferActionView::CreateFile { path } => Effects { files: fx.files.push(path), ..fx },
        TransferActionView::WriteChunk(bytes) => Effects { written: fx.written + bytes, ..fx },
        TransferActionView::Finish(outcome) => Effects {
            outcomes: fx.outcomes.push(outcome),
            ..fx
        },
        _ => fx,
    }
}

/// The effects of `actions`, performed in order.
pub open spec fn effects(actions: Seq<TransferActionView>) -> Effects
    decreases actions.len(),
{
    if actions.len() == 0 {
        no_effects()
    } else {
        record(effects(actions.drop_last()), actions.last())
    }
}

/// The effects of a sequence with one more action are those of the sequence
/// with that action on record.
pub proof fn lemma_effects_push(actions: Seq<TransferActionView>, action: TransferActionView)
    ensures
        effects(actions.push(action)) == record(effects(actions), action),
{
    assert(actions.push(action).drop_last() =~= actions);
}

/// A download after some events: where it stands, the events it accepted and
/// the actions it asked for.
pub struct TransferRun {
    pub state: TransferView,
    pub accepted: Seq<TransferEventView>,
    pub actions: Seq<TransferActionView>,
}

/// A download on which no work was done yet.
pub open spec fn fresh_transfer(card: CardView, dir: Seq<char>) -> TransferView {
    TransferView { card, dir, state: TransferState::Pending }
}

/// Feeds `events` to a download one by one. An event the download does not
/// wait for is refused and leaves no trace.
pub open spec fn transfer_run(start: TransferView, events: Seq<TransferEventView>) -> TransferRun
    decreases events.len(),
{
    if events.len() == 0 {
        TransferRun { state: start, accepted: Seq::empty(), actions: Seq::empty() }
    } else {
        let before = transfer_run(start, events.drop_last());
        match transfer_step(before.state, events.last()) {
            Some(step) => TransferRun {
                state: step.next,
                accepted: before.accepted.push(events.last()),
                actions: before.actions.push(step.action),
            },
            None => before,
        }
    }
}

/// `n` bytes out of `total`, held at `total`.
pub open spec fn held(total: u64, n: nat) -> u64 {
    if n < total {
        n as u64
    } else {
        total
    }
}

/// The events of one download: its announcement, then byte counts that never
/// fall and never pass the announced total.
pub open spec fn is_download_group(p: Seq<ProgressView>, name: Seq<char>, total: u64) -> bool {
    &&& p.len() > 0
    &&& p[0] == ProgressView::NewDownload { name, total }
    &&& forall|i: int|
        0 < i < p.len() ==> #[trigger] p[i] == ProgressView::Bytes { done: p[i].done(), total }
    &&& forall|i: int| 0 < i < p.len() ==> p[i - 1].done() <= (#[trigger] p[i]).done() <= total
}

/// The events of one download are a well-formed stream.
pub proof fn lemma_group_is_well_formed(p: Seq<ProgressView>, name: Seq<char>, total: u64)
    requires
        is_download_group(p, name, total),
    ensures
        well_formed_stream(p),
{
    assert forall|i: int| 0 < i < p.len() implies may_follow(
        p[i - 1],
        #[trigger] p[i],
    ) by {}
}

/// While the body is being copied: the download was announced, its file was
/// created once, and nothing was reported as finished.
pub open spec fn copying(t: TransferView, fx: Effects, total: u64) -> bool {
    &&& t.card.url is Some
    &&& is_download_group(fx.progress, t.card.name, total)
    &&& fx.files == seq![t.path()]
    &&& fx.outcomes.len() == 0
}

/// What ties the state of a download to the effects of the actions it has
/// asked for since it was fresh.
pub open spec fn transfer_invariant(t: TransferView, fx: Effects) -> bool {
    match t.state {
        TransferState::Pending => fx == no_effects(),
        TransferState::Fetching => fx == no_effects() && t.card.url is Some,
        TransferState::Announcing { total } => {
            &&& t.card.url is Some
            &&& fx.progress == seq![ProgressView::NewDownload { name: t.card.name, total }]
            &&& fx.files.len() == 0
            &&& fx.written.len() == 0
            &&& fx.outcomes.len() == 0
        },
        TransferState::Creating { total } => {
            &&& copying(t, fx, total)
            &&& fx.progress.len() == 1
            &&& fx.written.len() == 0
        },
        TransferState::Reading { done, total } => {
            &&& copying(t, fx, total)
            &&& fx.progress.last().done() == done
            &&& done == held(total, fx.written.len())
        },
        TransferState::Writing { next, total } => {
            &&& copying(t, fx, total)
            &&& fx.progress.last().done() <= next
            &&& next == held(total, fx.written.len())
        },
        TransferState::Reporting { done, total } => {
            &&& copying(t, fx, total)
            &&& fx.progress.len() > 1
            &&& fx.progress.last().done() == done
            &&& done == held(total, fx.written.len())
        },
        TransferState::Closing { done, total } => {
            &&& copying(t, fx, total)
            &&& fx.progress.last().done() == done
            &&& done == held(total, fx.written.len())
        },
        TransferState::Finished(ItemOutcome::Skipped) => {
            &&& t.card.url is None
            &&& fx == Effects { outcomes: seq![ItemOutcome::Skipped], ..no_effects() }
        },
        TransferState::Finished(ItemOutcome::Completed) => {
            &&& t.card.url is Some
            &&& is_download_group(fx.progress, t.card.name, fx.progress[0].total())
            &&& fx.files == seq![t.path()]
            &&& fx.outcomes == seq![ItemOutcome::Completed]
            &&& fx.progress.last().done() == held(
                fx.progress[0].total(),
                fx.written.len(),
            )
        },
        TransferState::Finished(ItemOutcome::Abandoned(error)) => {
            &&& t.card.url is Some
            &&& fx.outcomes == seq![ItemOutcome::Abandoned(error)]
            &&& fx.progress.len() == 0 || is_download_group(
                fx.progress,
                t.card.name,
                fx.progress[0].total(),
            )
            &&& fx.files.len() == 0 || fx.files == seq![t.path()]
            &&& fx.files.len() == 0 ==> fx.written.len() == 0
            &&& fx.progress.len() == 0 ==> fx.files.len() == 0
        },
    }
}

/// One step keeps the invariant.
proof fn lemma_step_keeps_invariant(t: TransferView, fx: Effects, event: TransferEventView)
    requires
        transfer_invariant(t, fx),
        transfer_step(t, event) is Some,
    ensures
        transfer_invariant(
            transfer_step(t, event)->Some_0.next,
            record(fx, transfer_step(t, event)->Some_0.action),
        ),
        transfer_step(t, event)->Some_0.next.card == t.card,
        transfer_step(t, event)->Some_0.next.dir == t.dir,
{
    let step = transfer_step(t, event)->Some_0;
    let before = fx.progress;
    let after = record(fx, step.action);
    match step.action {
        TransferActionView::CreateFile { path } => {
            assert(after.files =~= seq![path]);
        },
        TransferActionView::Emit(ProgressView::Bytes { total, .. }) => {
            // The new count is the last of the group and no smaller than the
            // one before it.
            let group = after.progress;
            assert forall|i: int| 0 < i < group.len() implies #[trigger] group[i] == (
            ProgressView::Bytes { done: group[i].done(), total }) by {
                if i < before.len() {
                    assert(group[i] == before[i]);
                }
            }
            assert forall|i: int| 0 < i < group.len() implies group[i - 1].done()
                <= (#[trigger] group[i]).done() <= total by {
                if i < before.len() {
                    assert(group[i] == before[i]);
                    assert(group[i - 1] == before[i - 1]);
                } else {
                    assert(group[i - 1] == before.last());
                }
            }
        },
        TransferActionView::Finish(outcome) => {
            assert(after.outcomes =~= seq![outcome]);
            assert(after.files == fx.files);
        },
        _ => {},
    }
}

/// The invariant holds after every sequence of events.
pub proof fn lemma_transfer_invariant(card: CardView, dir: Seq<char>, events: Seq<TransferEventView>)
    ensures
        transfer_invariant(
            transfer_run(fresh_transfer(card, dir), events).state,
            effects(transfer_run(fresh_transfer(card, dir), events).actions),
        ),
        transfer_run(fresh_transfer(card, dir), events).state.card == card,
        transfer_run(fresh_transfer(card, dir), events).state.dir == dir,
        transfer_run(fresh_transfer(card, dir), events).state.well_formed(),
    decreases events.len(),
{
    let start = fresh_transfer(card, dir);
    if events.len() > 0 {
        let before = transfer_run(start, events.drop_last());
        lemma_transfer_invariant(card, dir, events.drop_last());
        if transfer_step(before.state, events.last()) is Some {
            let step = transfer_step(before.state, events.last())->Some_0;
            lemma_step_keeps_invariant(before.state, effects(before.actions), events.last());
            lemma_effects_push(before.actions, step.action);
        }
    }
}

/// Whatever happens to a download, the progress events it sends are none at
/// all or the events of one download under the card's name, and so form a
/// well-formed stream: no byte count is below the one before it or above the
/// announced total.
pub proof fn lemma_transfer_progress(card: CardView, dir: Seq<char>, events: Seq<TransferEventView>)
    ensures
        ({
            let p = effects(transfer_run(fresh_transfer(card, dir), events).actions).progress;
            &&& p.len() == 0 || is_download_group(p, card.name, p[0].total())
            &&& well_formed_stream(p)
            &&& forall|i: int, j: int| 0 <= i <= j < p.len() ==> p[i].done() <= p[j].done()
        }),
{
    let run = transfer_run(fresh_transfer(card, dir), events);
    let p = effects(run.actions).progress;
    lemma_transfer_invariant(card, dir, events);
    if p.len() > 0 {
        lemma_group_is_well_formed(p, card.name, p[0].total());
        assert forall|i: int, j: int| 0 <= i <= j < p.len() implies p[i].done() <= p[j].done() by {
            lemma_group_counts_rise(p, card.name, p[0].total(), i, j);
        }
    }
}

proof fn lemma_group_counts_rise(p: Seq<ProgressView>, name: Seq<char>, total: u64, i: int, j: int)
    requires
        is_download_group(p, name, total),
        0 <= i <= j < p.len(),
    ensures
        p[i].done() <= p[j].done(),
    decreases j - i,
{
    if i < j {
        lemma_group_counts_rise(p, name, total, i, j - 1);
    }
}

/// A completed download has created its destination file and no other, has
/// reported one outcome, and its last progress event counts the bytes written,
/// held at the announced total. So where the body was at least as long as
/// announced, the last byte count is the total.
pub proof fn lemma_completed_download(
    card: CardView,
    dir: Seq<char>,
    events: Seq<TransferEventView>,
)
    requires
        transfer_run(fresh_transfer(card, dir), events).state.state == TransferState::Finished(
            ItemOutcome::Completed,
        ),
    ensures
        ({
            let run = transfer_run(fresh_transfer(card, dir), events);
            let fx = effects(run.actions);
            let total = fx.progress[0].total();
            &&& card.url is Some
            &&& fx.files == seq![run.state.path()]
            &&& fx.outcomes == seq![ItemOutcome::Completed]
            &&& is_download_group(fx.progress, card.name, total)
            &&& fx.progress.last().done() == held(total, fx.written.len())
            &&& fx.written.len() >= total ==> fx.progress.last().done() == total
            &&& fx.written.len() >= total && fx.progress.len() > 1 ==> fx.progress.last() == (
            ProgressView::Bytes { done: total, total })
        }),
{
    lemma_transfer_invariant(card, dir, events);
}

/// A card without an image address produces no progress event, no file and no
/// write, whatever events arrive: its download is skipped at the start.
pub proof fn lemma_card_without_image(
    card: CardView,
    dir: Seq<char>,
    events: Seq<TransferEventView>,
)
    requires
        card.url is None,
    ensures
        ({
            let run = transfer_run(fresh_transfer(card, dir), events);
            let fx = effects(run.actions);
            &&& fx.progress.len() == 0
            &&& fx.files.len() == 0
            &&& fx.written.len() == 0
            &&& run.state.state == TransferState::Pending || run.state.state
                == TransferState::Finished(ItemOutcome::Skipped)
            &&& run.state.state == TransferState::Pending ==> run.actions.len() == 0
            &&& run.state.state == TransferState::Finished(ItemOutcome::Skipped) ==> run.actions
                == seq![TransferActionView::Finish(ItemOutcome::Skipped)]
        }),
    decreases events.len(),
{
    lemma_transfer_invariant(card, dir, events);
    if events.len() > 0 {
        lemma_card_without_image(card, dir, events.drop_last());
        lemma_transfer_invariant(card, dir, events.drop_last());
    }
}

/// Every download reports at most one outcome, and has reported it exactly
/// when it is finished; it creates at most one file, the card's own; and it
/// hands no byte over for writing before that file was created.
pub proof fn lemma_one_outcome(card: CardView, dir: Seq<char>, events: Seq<TransferEventView>)
    ensures
        ({
            let run = transfer_run(fresh_transfer(card, dir), events);
            let fx = effects(run.actions);
            &&& match run.state.state {
                TransferState::Finished(outcome) => fx.outcomes == seq![outcome],
                _ => fx.outcomes.len() == 0,
            }
            &&& fx.files.len() == 0 || fx.files == seq![destination_path_spec(dir, card.id)]
            &&& fx.files.len() == 0 ==> fx.written.len() == 0
            &&& fx.progress.len() == 0 ==> fx.files.len() == 0
        }),
{
    lemma_transfer_invariant(card, dir, events);
}

/// A finished download waits for nothing: it refuses every event.
pub proof fn lemma_finished_is_final(t: TransferView, event: TransferEventView)
    requires
        t.state is Finished,
    ensures
        transfer_step(t, event) is None,
{
}

/// Whether `event` tells how `action` went.
pub open spec fn answers(action: TransferActionView, event: TransferEventView) -> bool {
    match action {
        TransferActionView::Fetch { .. } => event is Responded || event is FetchFailed,
        TransferActionView::Emit(_) => event is Emitted || event is SinkClosed,
        TransferActionView::CreateFile { .. } => event is FileCreated || event is FileFailed,
        TransferActionView::ReadChunk => event is Chunk || event is StreamEnded
            || event is StreamFailed,
        TransferActionView::WriteChunk(_) => event is Written || event is FileFailed,
        TransferActionView::CloseFile => event is FileClosed || event is FileFailed,
        TransferActionView::Finish(_) => false,
    }
}

/// A download never gets stuck: it accepts the events that answer the action
/// it asked for, and no others; and it asks for `Finish` exactly when it
/// finishes.
pub proof fn lemma_answers_are_accepted(
    t: TransferView,
    event: TransferEventView,
    answer: TransferEventView,
)
    requires
        transfer_step(t, event) is Some,
    ensures
        ({
            let step = transfer_step(t, event)->Some_0;
            &&& answers(step.action, answer) <==> transfer_step(step.next, answer) is Some
            &&& step.action is Finish <==> step.next.state is Finished
            &&& step.action matches TransferActionView::Finish(outcome) ==> step.next.state
                == TransferState::Finished(outcome)
        }),
{
}

/// The number of `Chunk` events among `events`.
pub open spec fn chunk_count(events: Seq<TransferEventView>) -> nat
    decreases events.len(),
{
    if events.len() == 0 {
        0
    } else {
        chunk_count(events.drop_last()) + if events.last() is Chunk {
            1nat
        } else {
            0nat
        }
    }
}

/// The steps a download in this state can have taken besides the three that
/// each chunk costs.
pub open spec fn phase(state: TransferState) -> nat {
    match state {
        TransferState::Pending => 0,
        TransferState::Fetching => 1,
        TransferState::Announcing { .. } => 2,
        TransferState::Creating { .. } => 3,
        TransferState::Reading { .. } => 4,
        TransferState::Writing { .. } => 2,
        TransferState::Reporting { .. } => 3,
        TransferState::Closing { .. } => 5,
        TransferState::Finished(_) => 6,
    }
}

/// A download ends: it takes at most three steps for each chunk of the body
/// and six besides, however many events it is offered.
pub proof fn lemma_transfer_is_bounded(
    card: CardView,
    dir: Seq<char>,
    events: Seq<TransferEventView>,
)
    ensures
        transfer_run(fresh_transfer(card, dir), events).actions.len() <= 3 * chunk_count(events)
            + phase(transfer_run(fresh_transfer(card, dir), events).state.state),
        transfer_run(fresh_transfer(card, dir), events).actions.len() <= 3 * chunk_count(events)
            + 6,
    decreases events.len(),
{
    if events.len() > 0 {
        lemma_transfer_is_bounded(card, dir, events.drop_last());
    }
}

/// The bytes of the chunks among `events`, in order.
pub open spec fn body_received(events: Seq<TransferEventView>) -> Seq<u8>
    decreases events.len(),
{
    if events.len() == 0 {
        Seq::empty()
    } else {
        let before = body_received(events.drop_last());
        match events.last() {
            TransferEventView::Chunk(bytes) => before + bytes,
            _ => before,
        }
    }
}

/// A download hands over for writing what it has received of the body: every
/// byte once, unchanged and in the order of arrival.
pub proof fn lemma_written_is_body_received(
    card: CardView,
    dir: Seq<char>,
    events: Seq<TransferEventView>,
)
    ensures
        effects(transfer_run(fresh_transfer(card, dir), events).actions).written == body_received(
            transfer_run(fresh_transfer(card, dir), events).accepted,
        ),
    decreases events.len(),
{
    let start = fresh_transfer(card, dir);
    let run = transfer_run(start, events);
    if events.len() > 0 {
        let before = transfer_run(start, events.drop_last());
        lemma_written_is_body_received(card, dir, events.drop_last());
        if transfer_step(before.state, events.last()) is Some {
            let step = transfer_step(before.state, events.last())->Some_0;
            lemma_effects_push(before.actions, step.action);
            assert(run.accepted.drop_last() =~= before.accepted);
        }
    }
}

} // verus!
