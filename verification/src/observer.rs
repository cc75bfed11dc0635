//! The observer of one worker, as a state machine: it hands every progress
//! event of its worker on to the display, in the order of arrival, until the
//! worker's channel is closed.
//!
//! Progress events name no card, so each worker has an observer of its own:
//! on a shared channel the byte counts of two downloads could not be told
//! apart.

use vstd::prelude::*;
use vstd::string::StringExecFns;
use crate::error::UnexpectedEvent;
use crate::progress::{DownloadProgress, ProgressView};

verus! {

/// Where an observer stands.
#[derive(Debug, Clone, Copy, PartialEq, Eq)]
pub enum ObserverState {
    /// The task has not started.
    Idle,
    /// The observer waits for an event of its worker.
    Waiting,
    /// An event is being handed to the display.
    Forwarding,
    /// The channel was closed; the observer has stopped.
    Stopped,
}

/// What the outside world reports to an observer.
#[derive(Debug, Clone, PartialEq, Eq)]
pub enum ObserverEvent {
    /// The observer task has started.
    Start,
    /// The worker sent this event.
    Received(DownloadProgress),
    /// The worker's channel is closed and empty.
    SourceClosed,
    /// The display took the event.
    Forwarded,
}

/// What an observer asks the outside world to do next.
#[derive(Debug, Clone, PartialEq, Eq)]
pub enum ObserverAction {
    /// Wait for the next event of the worker.
    Receive,
    /// Hand this event to the display.
    Forward(DownloadProgress),
    /// End the observer task.
    Stop,
}

/// An event of an observer, as the contracts speak of it.
pub enum ObserverEventView {
    Start,
    Received(ProgressView),
    SourceClosed,
    Forwarded,
}

/// An action of an observer, as the contracts speak of it.
pub enum ObserverActionView {
    Receive,
    Forward(ProgressView),
    Stop,
}

impl View for ObserverEvent {
    type V = ObserverEventView;

    open spec fn view(&self) -> ObserverEventView {
        match *self {
            ObserverEvent::Start => ObserverEventView::Start,
            ObserverEvent::Received(progress) => ObserverEventView::Received(progress@),
            ObserverEvent::SourceClosed => ObserverEventView::SourceClosed,
            ObserverEvent::Forwarded => ObserverEventView::Forwarded,
        }
    }
}

impl View for ObserverAction {
    type V = ObserverActionView;

    open spec fn view(&self) -> ObserverActionView {
        match *self {
            ObserverAction::Receive => ObserverActionView::Receive,
            ObserverAction::Forward(progress) => ObserverActionView::Forward(progress@),
            ObserverAction::Stop => ObserverActionView::Stop,
        }
    }
}

/// A state change together with the action it asks for.
pub struct ObserverStep {
    pub next: ObserverState,
    pub action: ObserverActionView,
}

/// The transition relation of an observer: what `event` leads to in `state`,
/// or `None` where the observer does not wait for such an event.
pub open spec fn observer_step(state: ObserverState, event: ObserverEventView) -> Option<
    ObserverStep,
> {
    match (state, event) {
        (ObserverState::Idle, ObserverEventView::Start) => Some(
            ObserverStep { next: ObserverState::Waiting, action: ObserverActionView::Receive },
        ),
        (ObserverState::Waiting, ObserverEventView::Received(progress)) => Some(
            ObserverStep {
                next: ObserverState::Forwarding,
                action: ObserverActionView::Forward(progress),
            },
        ),
        (ObserverState::Waiting, ObserverEventView::SourceClosed) => Some(
            ObserverStep { next: ObserverState::Stopped, action: ObserverActionView::Stop },
        ),
        (ObserverState::Forwarding, ObserverEventView::Forwarded) => Some(
            ObserverStep { next: ObserverState::Waiting, action: ObserverActionView::Receive },
        ),
        _ => None,
    }
}

/// The observer of one worker.
#[derive(Debug)]
pub struct ProgressObserver {
    state: ObserverState,
}

impl View for ProgressObserver {
    type V = ObserverState;

    closed spec fn view(&self) -> ObserverState {
        self.state
    }
}

impl ProgressObserver {
    /// An observer that has not started yet.
    pub fn new() -> (observer: ProgressObserver)
        ensures
            observer@ == ObserverState::Idle,
    {
        ProgressObserver { state: ObserverState::Idle }
    }

    /// Where the observer stands.
    pub fn state(&self) -> (state: ObserverState)
        ensures
            state == self@,
    {
        self.state
    }
}

/// Advances an observer by one event: the observer moves to its next state
/// and the action to perform next is returned. A received event is handed on
/// as it is. An event that the observer does not wait for is refused and
/// changes nothing.
pub fn relay_progress(observer: &mut ProgressObserver, event: ObserverEvent) -> (result: Result<
    ObserverAction,
    UnexpectedEvent,
>)
    ensures
        match observer_step(old(observer)@, event@) {
            Some(step) => result matches Ok(action) && action@ == step.action && final(observer)@
                == step.next,
            None => result is Err && final(observer)@ == old(observer)@,
        },
{
    let state = observer.state;
    match (state, event) {
        (ObserverState::Idle, ObserverEvent::Start) => {
            observer.state = ObserverState::Waiting;
            Ok(ObserverAction::Receive)
        },
        (ObserverState::Waiting, ObserverEvent::Received(progress)) => {
            observer.state = ObserverState::Forwarding;
            Ok(ObserverAction::Forward(progress))
        },
        (ObserverState::Waiting, ObserverEvent::SourceClosed) => {
            observer.state = ObserverState::Stopped;
            Ok(ObserverAction::Stop)
        },
        (ObserverState::Forwarding, ObserverEvent::Forwarded) => {
            observer.state = ObserverState::Waiting;
            Ok(ObserverAction::Receive)
        },
        _ => Err(UnexpectedEvent {}),
    }
}

/// An observer after some events: where it stands, the events it accepted and
/// the actions it asked for.
pub struct ObserverRun {
    pub state: ObserverState,
    pub accepted: Seq<ObserverEventView>,
    pub actions: Seq<ObserverActionView>,
}

/// Feeds `events` to an observer one by one. An event the observer does not
/// wait for is refused and leaves no trace.
pub open spec fn observer_run(start: ObserverState, events: Seq<ObserverEventView>) -> ObserverRun
    decreases events.len(),
{
    if events.len() == 0 {
        ObserverRun { state: start, accepted: Seq::empty(), actions: Seq::empty() }
    } else {
        let before = observer_run(start, events.drop_last());
        match observer_step(before.state, events.last()) {
            Some(step) => ObserverRun {
                state: step.next,
                accepted: before.accepted.push(events.last()),
                actions: before.actions.push(step.action),
            },
            None => before,
        }
    }
}

/// The progress events among the events of an observer, in order.
pub open spec fn progress_received(events: Seq<ObserverEventView>) -> Seq<ProgressView>
    decreases events.len(),
{
    if events.len() == 0 {
        Seq::empty()
    } else {
        let before = progress_received(events.drop_last());
        match events.last() {
            ObserverEventView::Received(progress) => before.push(progress),
            _ => before,
        }
    }
}

/// The progress events handed to the display, in order.
pub open spec fn progress_forwarded(actions: Seq<ObserverActionView>) -> Seq<ProgressView>
    decreases actions.len(),
{
    if actions.len() == 0 {
        Seq::empty()
    } else {
        let before = progress_forwarded(actions.drop_last());
        match actions.last() {
            ObserverActionView::Forward(progress) => before.push(progress),
            _ => before,
        }
    }
}

/// An observer is a pure relay: what it hands to the display is what it has
/// received from its worker, each event once, unchanged and in the same
/// order. Once it has stopped it accepts nothing more.
pub proof fn lemma_observer_relays(events: Seq<ObserverEventView>)
    ensures
        ({
            let run = observer_run(ObserverState::Idle, events);
            &&& progress_forwarded(run.actions) == progress_received(run.accepted)
            &&& run.state is Stopped ==> forall|event: ObserverEventView|
                observer_step(run.state, event) is None
        }),
    decreases events.len(),
{
    let run = observer_run(ObserverState::Idle, events);
    if events.len() > 0 {
        let before = observer_run(ObserverState::Idle, events.drop_last());
        lemma_observer_relays(events.drop_last());
        if observer_step(before.state, events.last()) is Some {
            let step = observer_step(before.state, events.last())->Some_0;
            assert(run.actions.drop_last() =~= before.actions);
            assert(run.accepted.drop_last() =~= before.accepted);
        }
    }
}

/// What a progress event means for the progress bar of its worker.
#[derive(Debug, Clone, PartialEq, Eq)]
pub struct BarUpdate {
    /// The new caption of the bar, where it changes.
    pub message: Option<String>,
    /// The length of the bar, in bytes.
    pub length: u64,
    /// How much of the bar is filled, in bytes.
    pub position: u64,
}

/// A bar update, as the contracts speak of it.
pub struct BarUpdateView {
    pub message: Option<Seq<char>>,
    pub length: u64,
    pub position: u64,
}

impl View for BarUpdate {
    type V = BarUpdateView;

    open spec fn view(&self) -> BarUpdateView {
        BarUpdateView {
            message: match self.message {
                Some(m) => Some(m@),
                None => None,
            },
            length: self.length,
            position: self.position,
        }
    }
}

/// A new download names the card in the caption and empties the bar; a byte
/// count fills it that far. Both set the bar's length to the total.
pub open spec fn bar_update_spec(progress: ProgressView) -> BarUpdateView {
    match progress {
        ProgressView::NewDownload { name, total } => BarUpdateView {
            message: Some("Downloading "@ + name),
            length: total,
            position: 0,
        },
        ProgressView::Bytes { done, total } => BarUpdateView {
            message: None,
            length: total,
            position: done,
        },
    }
}

/// Says what `progress` means for the progress bar of its worker.
pub fn bar_update(progress: &DownloadProgress) -> (update: BarUpdate)
    ensures
        update@ == bar_update_spec(progress@),
{
    match progress {
        DownloadProgress::NewDownload(name, total) => {
            let mut message = String::from_str("Downloading ");
            message.append(name.as_str());
            BarUpdate { message: Some(message), length: *total, position: 0 }
        },
        DownloadProgress::Bytes(done, total) => BarUpdate {
            message: None,
            length: *total,
            position: *done,
        },
    }
}

} // verus!
