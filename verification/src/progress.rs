//! Progress events, the shape of a worker's event stream, and what an event
//! means for a progress bar.

use vstd::prelude::*;

verus! {

/// What a worker tells its observer. An event names no card: a `Bytes` event
/// belongs to the `NewDownload` that precedes it in the same stream.
#[derive(Debug, Clone, PartialEq, Eq)]
pub enum DownloadProgress {
    /// A download has started: the card's name and the size of its image.
    NewDownload(String, u64),
    /// So many bytes of the current download have arrived, out of so many.
    Bytes(u64, u64),
}

/// A progress event, as the contracts speak of it.
pub enum ProgressView {
    NewDownload { name: Seq<char>, total: u64 },
    Bytes { done: u64, total: u64 },
}

impl ProgressView {
    /// The size of the download the event speaks of.
    pub open spec fn total(self) -> u64 {
        match self {
            ProgressView::NewDownload { total, .. } => total,
            ProgressView::Bytes { total, .. } => total,
        }
    }

    /// The byte count the event stands for; an announcement counts as none.
    pub open spec fn done(self) -> u64 {
        match self {
            ProgressView::NewDownload { .. } => 0,
            ProgressView::Bytes { done, .. } => done,
        }
    }
}

impl View for DownloadProgress {
    type V = ProgressView;

    open spec fn view(&self) -> ProgressView {
        match *self {
            DownloadProgress::NewDownload(name, total) => ProgressView::NewDownload {
                name: name@,
                total,
            },
            DownloadProgress::Bytes(done, total) => ProgressView::Bytes { done, total },
        }
    }
}

/// The byte count after a chunk of `chunk_len` bytes: the sum, held at `total`.
pub open spec fn advanced(done: u64, chunk_len: nat, total: u64) -> u64 {
    if done + chunk_len < total {
        (done + chunk_len) as u64
    } else {
        total
    }
}

/// Counts a chunk of `chunk_len` bytes on top of `done`, never past `total`.
pub fn advance(done: u64, chunk_len: usize, total: u64) -> (next: u64)
    ensures
        next == advanced(done, chunk_len as nat, total),
{
    match done.checked_add(chunk_len as u64) {
        Some(sum) => if sum < total {
            sum
        } else {
            total
        },
        None => total,
    }
}

/// Whether `next` may come directly after `prev` in a worker's stream. A new
/// download may start at any point. A byte count stays within its total and
/// continues the download before it: same total, and no fewer bytes.
pub open spec fn may_follow(prev: ProgressView, next: ProgressView) -> bool {
    match next {
        ProgressView::NewDownload { .. } => true,
        ProgressView::Bytes { done, total } => prev.total() == total && prev.done() <= done
            <= total,
    }
}

/// A well-formed stream is a run of groups, each one `NewDownload` followed by
/// the `Bytes` events of that download, whose counts never fall and never pass
/// the announced total.
pub open spec fn well_formed_stream(s: Seq<ProgressView>) -> bool {
    &&& s.len() > 0 ==> s[0] is NewDownload
    &&& forall|i: int| 0 < i < s.len() ==> may_follow(s[i - 1], #[trigger] s[i])
}

} // verus!
