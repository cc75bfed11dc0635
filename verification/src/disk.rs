//! What the file actions of a download do to the files on disk.
//!
//! This is a model of the disk as one worker sees it: a map from paths to
//! contents, and the file the worker has open. Each action is taken to
//! succeed, which is so for every action of a download that completes.

use vstd::prelude::*;
use crate::card::CardView;
use crate::transfer::{transfer_step, TransferActionView, TransferEventView, TransferState};
use crate::transfer_trace::{
    effects, fresh_transfer, lemma_effects_push, lemma_transfer_invariant, transfer_run,
};

verus! {

/// The disk as one worker sees it.
pub struct Disk {
    /// The files, by path.
    pub files: Map<Seq<char>, Seq<u8>>,
    /// The file that is open for writing, if any.
    pub open: Option<Seq<char>>,
}

/// The disk after one action. Creating a file empties it if it was there;
/// writing appends to the open file; closing and finishing release it.
pub open spec fn perform(disk: Disk, action: TransferActionView) -> Disk {
    match action {
        TransferActionView::CreateFile { path } => Disk {
            files: disk.files.insert(path, Seq::empty()),
            open: Some(path),
        },
        TransferActionView::WriteChunk(bytes) => match disk.open {
            Some(path) => Disk { files: disk.files.insert(path, disk.files[path] + bytes), ..disk },
            None => disk,
        },
        TransferActionView::CloseFile => Disk { open: None, ..disk },
        TransferActionView::Finish(_) => Disk { open: None, ..disk },
        _ => disk,
    }
}

/// The disk after `actions`, performed in order.
pub open spec fn perform_all(disk: Disk, actions: Seq<TransferActionView>) -> Disk
    decreases actions.len(),
{
    if actions.len() == 0 {
        disk
    } else {
        perform(perform_all(disk, actions.drop_last()), actions.last())
    }
}

/// Whether a download in this state has its file open.
pub open spec fn has_file_open(state: TransferState) -> bool {
    match state {
        TransferState::Creating { .. }
        | TransferState::Reading { .. }
        | TransferState::Writing { .. }
        | TransferState::Reporting { .. } => true,
        _ => false,
    }
}

/// A download touches one file at most, its own. Where it has created it, the
/// file holds the bytes handed over for writing and nothing of what it held
/// before; where it has not, the disk is as it was.
pub proof fn lemma_disk_after_transfer(
    card: CardView,
    dir: Seq<char>,
    events: Seq<TransferEventView>,
    disk: Disk,
)
    requires
        disk.open is None,
    ensures
        ({
            let run = transfer_run(fresh_transfer(card, dir), events);
            let fx = effects(run.actions);
            let after = perform_all(disk, run.actions);
            &&& fx.files.len() == 0 ==> after.files == disk.files
            &&& fx.files.len() > 0 ==> after.files == disk.files.insert(
                run.state.path(),
                fx.written,
            )
            &&& after.open == if has_file_open(run.state.state) {
                Some(run.state.path())
            } else {
                None
            }
        }),
    decreases events.len(),
{
    let start = fresh_transfer(card, dir);
    let run = transfer_run(start, events);
    lemma_transfer_invariant(card, dir, events);
    if events.len() > 0 {
        let before = transfer_run(start, events.drop_last());
        lemma_disk_after_transfer(card, dir, events.drop_last(), disk);
        lemma_transfer_invariant(card, dir, events.drop_last());
        if transfer_step(before.state, events.last()) is Some {
            let step = transfer_step(before.state, events.last())->Some_0;
            lemma_effects_push(before.actions, step.action);
            assert(run.actions.drop_last() =~= before.actions);
            if step.action is CreateFile {
                // Nothing was written before the file was created.
                assert(effects(run.actions).written =~= Seq::<u8>::empty());
            }
        }
    }
}

/// Running a download again over its own result changes nothing: a download
/// that has ended leaves the same files whether it ran on the disk as it was
/// before or on the disk that an earlier, equal run has left. The file is
/// overwritten with the same content; nothing piles up in it.
pub proof fn lemma_rerun_changes_nothing(
    card: CardView,
    dir: Seq<char>,
    events: Seq<TransferEventView>,
    disk: Disk,
)
    requires
        disk.open is None,
        transfer_run(fresh_transfer(card, dir), events).state.state is Finished,
    ensures
        ({
            let actions = transfer_run(fresh_transfer(card, dir), events).actions;
            perform_all(perform_all(disk, actions), actions) == perform_all(disk, actions)
        }),
{
    let run = transfer_run(fresh_transfer(card, dir), events);
    let once = perform_all(disk, run.actions);
    lemma_disk_after_transfer(card, dir, events, disk);
    lemma_disk_after_transfer(card, dir, events, once);
    let twice = perform_all(once, run.actions);
    assert(twice.files =~= once.files);
}

} // verus!
