//! Decision logic of a bulk image downloader: a bounded pool of workers drains a
//! shared queue of catalog cards, streams each card's image to a file and tells
//! an observer how far it has come.
//!
//! Nothing here touches the network, the disk or a channel. Each part of the
//! pipeline is a state machine: the caller performs the action a machine asks
//! for and hands back what happened, and the machine decides what comes next.
//!
//! - [`transfer`] is the download of one card, [`worker`] a worker of the pool,
//!   [`observer`] the relay of a worker's progress events, [`pipeline`] the
//!   run as a whole.
//! - [`transfer_trace`], [`worker_trace`] and [`pipeline_trace`] say what holds
//!   of a machine over every sequence of events.
//! - [`pool`] puts the workers side by side on one queue, and [`disk`] says
//!   what a download leaves on disk.
//! - [`card`], [`progress`], [`error`] and [`cli`] hold the data they speak of.

pub mod card;
pub mod cli;
pub mod disk;
pub mod error;
pub mod observer;
pub mod pipeline;
pub mod pipeline_trace;
pub mod pool;
pub mod progress;
pub mod transfer;
pub mod transfer_trace;
pub mod worker;
pub mod worker_trace;
