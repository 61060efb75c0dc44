//! Progress events and the download coordinator that produces them.
use vstd::prelude::*;

use crate::manifest::FileInfo;

verus! {

/// Why a run stopped before completing.
#[derive(Clone, Copy, Debug, PartialEq, Eq, Structural)]
pub enum AbortCause {
    NetworkError,
    FilesystemError,
    ManifestParseError,
    HashMismatch,
    ConfigurationError,
}

/// What the engine tells its consumer, in order.
#[derive(Clone, Copy, Debug, PartialEq, Eq, Structural)]
pub enum ProgressEvent {
    /// A transfer got its id and its declared size.
    FileRegistered(u64, u64),
    /// A transfer has received this many bytes in all.
    FileProgress(u64, u64),
    /// Every transfer of the run is registered.
    AllRegistered,
    /// Files that left the release were removed.
    CleanupComplete,
    /// The installation matches the manifest.
    UpdateComplete,
    /// The run stopped.
    Aborted(AbortCause),
}

/// Size and progress of one transfer.
#[derive(Clone, Copy, Debug, PartialEq, Eq, Structural)]
pub struct DownloadState {
    pub total: u64,
    pub done: u64,
}

impl DownloadState {
    /// Within bounds: once the size is known, no more than it has been received.
    pub open spec fn wf(&self) -> bool {
        self.total > 0 ==> self.done <= self.total
    }

    /// A transfer of `size` bytes of which nothing has arrived yet.
    pub fn new(size: u64) -> (r: DownloadState)
        ensures
            r.total == size,
            r.done == 0,
            r.wf(),
    {
        DownloadState { total: size, done: 0 }
    }

    /// Records that `done` bytes have arrived in all.
    pub fn set_done(&mut self, done: u64)
        requires
            old(self).total > 0 ==> done <= old(self).total,
        ensures
            final(self).total == old(self).total,
            final(self).done == done,
            final(self).wf(),
    {
        self.done = done;
    }

    /// Bytes received so far.
    pub fn done(&self) -> (r: u64)
        ensures
            r == self.done,
    {
        self.done
    }

    /// Declared size in bytes.
    pub fn total(&self) -> (r: u64)
        ensures
            r == self.total,
    {
        self.total
    }
}

/// One file that the coordinator fetches.
pub struct Transfer {
    /// The manifest entry being fetched.
    pub entry: FileInfo,
    /// Its declared size and the bytes received.
    pub state: DownloadState,
    /// Whether its size is known.
    pub registered: bool,
    /// Whether all its bytes arrived and matched the manifest hash.
    pub finished: bool,
}

/// Sum of the bytes received over `ts`.
pub open spec fn sum_done(ts: Seq<Transfer>) -> int
    decreases ts.len(),
{
    if ts.len() == 0 {
        0
    } else {
        sum_done(ts.drop_last()) + ts.last().state.done
    }
}

/// Sum of the declared sizes over `ts`.
pub open spec fn sum_total(ts: Seq<Transfer>) -> int
    decreases ts.len(),
{
    if ts.len() == 0 {
        0
    } else {
        sum_total(ts.drop_last()) + ts.last().state.total
    }
}

/// Keeps track of the transfers of one run. A transfer's id is its index in
/// the download list. Bytes are accepted only once every transfer has been
/// registered; a transfer is finished only with all its bytes and a verified hash.
pub struct DownloadCoordinator {
    pub transfers: Vec<Transfer>,
    /// Whether `AllRegistered` has been emitted.
    pub announced: bool,
}

impl DownloadCoordinator {
    /// Progress stays within declared sizes, nothing is received before the
    /// announcement, and a finished transfer has all its bytes.
    pub open spec fn wf(&self) -> bool {
        &&& forall|k: int|
            0 <= k < self.transfers@.len() ==> {
                let t = #[trigger] self.transfers@[k];
                &&& t.state.done <= t.state.total
                &&& !t.registered ==> t.state.done == 0 && t.state.total == 0
                &&& !self.announced ==> t.state.done == 0
                &&& t.finished ==> t.registered && t.state.done == t.state.total
            }
        &&& self.announced ==> forall|k: int|
            0 <= k < self.transfers@.len() ==> (#[trigger] self.transfers@[k]).registered
    }

    /// Every transfer has received all its declared bytes and passed its check.
    pub open spec fn complete(&self) -> bool {
        forall|k: int| 0 <= k < self.transfers@.len() ==> (#[trigger] self.transfers@[k]).finished
    }

    /// A coordinator for the given download list, nothing registered yet.
    pub fn new(to_download: Vec<FileInfo>) -> (r: DownloadCoordinator)
        ensures
            r.wf(),
            !r.announced,
            r.transfers@.len() == to_download@.len(),
            forall|k: int|
                0 <= k < to_download@.len() ==> {
                    let t = #[trigger] r.transfers@[k];
                    &&& t.entry == to_download@[k]
                    &&& !t.registered
                    &&& !t.finished
                },
    {
        let mut transfers: Vec<Transfer> = Vec::new();
        let mut i: usize = 0;
        while i < to_download.len()
            invariant
                i <= to_download.len(),
                transfers@.len() == i,
                forall|k: int|
                    0 <= k < i ==> {
                        let t = #[trigger] transfers@[k];
                        &&& t.entry == to_download@[k]
                        &&& !t.registered
                        &&& !t.finished
                        &&& t.state.done == 0
                        &&& t.state.total == 0
                    },
            decreases to_download.len() - i,
        {
            transfers.push(
                Transfer {
                    entry: to_download[i].duplicate(),
                    state: DownloadState::new(0),
                    registered: false,
                    finished: false,
                },
            );
            i = i + 1;
        }
        DownloadCoordinator { transfers, announced: false }
    }

    /// Number of transfers.
    pub fn len(&self) -> (r: usize)
        ensures
            r == self.transfers@.len(),
    {
        self.transfers.len()
    }

    /// Whether transfer `id` has its size.
    pub fn is_registered(&self, id: usize) -> (r: bool)
        ensures
            r == (id < self.transfers@.len() && self.transfers@[id as int].registered),
    {
        id < self.transfers.len() && self.transfers[id].registered
    }

    /// Gives transfer `id` its declared size.
    pub fn register(&mut self, id: usize, size: u64) -> (ev: ProgressEvent)
        requires
            old(self).wf(),
            id < old(self).transfers@.len(),
            !old(self).transfers@[id as int].registered,
        ensures
            final(self).wf(),
            ev == ProgressEvent::FileRegistered(id as u64, size),
            final(self).announced == old(self).announced,
            final(self).transfers@ == old(self).transfers@.update(
                id as int,
                Transfer {
                    entry: old(self).transfers@[id as int].entry,
                    state: DownloadState { total: size, done: 0 },
                    registered: true,
                    finished: false,
                },
            ),
    {
        let i = id;
        let t = Transfer {
            entry: self.transfers[i].entry.duplicate(),
            state: DownloadState::new(size),
            registered: true,
            finished: false,
        };
        self.transfers.set(i, t);
        ProgressEvent::FileRegistered(id as u64, size)
    }

    /// Announces, once, that every transfer is registered.
    pub fn all_registered(&mut self) -> (r: Option<ProgressEvent>)
        requires
            old(self).wf(),
        ensures
            final(self).wf(),
            final(self).transfers@ == old(self).transfers@,
            r is Some <==> !old(self).announced && forall|k: int|
                0 <= k < old(self).transfers@.len()
                    ==> (#[trigger] old(self).transfers@[k]).registered,
            r is Some ==> r == Some(ProgressEvent::AllRegistered) && final(self).announced
                && sum_done(final(self).transfers@) == 0,
            r is None ==> final(self).announced == old(self).announced,
    {
        if self.announced {
            return None;
        }
        let mut k: usize = 0;
        while k < self.transfers.len()
            invariant
                self.wf(),
                !self.announced,
                self.transfers@ == old(self).transfers@,
                k <= self.transfers@.len(),
                forall|j: int| 0 <= j < k ==> (#[trigger] self.transfers@[j]).registered,
            decreases self.transfers@.len() - k,
        {
            if !self.transfers[k].registered {
                return None;
            }
            k = k + 1;
        }
        proof {
            lemma_sum_done_zero(self.transfers@);
        }
        self.announced = true;
        Some(ProgressEvent::AllRegistered)
    }

    /// Records `n` more bytes of transfer `id`. Bytes beyond the declared size
    /// are a network error and change nothing.
    pub fn receive(&mut self, id: usize, n: u64) -> (r: Result<ProgressEvent, AbortCause>)
        requires
            old(self).wf(),
            old(self).announced,
            id < old(self).transfers@.len(),
            !old(self).transfers@[id as int].finished,
        ensures
            final(self).wf(),
            final(self).announced,
            ({
                let t = old(self).transfers@[id as int];
                if t.state.done + n <= t.state.total {
                    &&& r == Ok::<ProgressEvent, AbortCause>(
                        ProgressEvent::FileProgress(id as u64, (t.state.done + n) as u64),
                    )
                    &&& final(self).transfers@ == old(self).transfers@.update(
                        id as int,
                        Transfer {
                            state: DownloadState {
                                total: t.state.total,
                                done: (t.state.done + n) as u64,
                            },
                            ..t
                        },
                    )
                } else {
                    &&& r == Err::<ProgressEvent, AbortCause>(AbortCause::NetworkError)
                    &&& final(self).transfers@ == old(self).transfers@
                }
            }),
    {
        let total = self.transfers[id].state.total;
        let done = self.transfers[id].state.done;
        if n > total - done {
            return Err(AbortCause::NetworkError);
        }
        let t = Transfer {
            entry: self.transfers[id].entry.duplicate(),
            state: DownloadState { total, done: done + n },
            registered: self.transfers[id].registered,
            finished: self.transfers[id].finished,
        };
        self.transfers.set(id, t);
        Ok(ProgressEvent::FileProgress(id as u64, done + n))
    }

    /// Closes transfer `id` once its stream has ended, given the hash computed
    /// of what arrived. A short transfer is a network error; a hash other than
    /// the manifest's is a mismatch. On success the file may be moved into place.
    pub fn finish(&mut self, id: usize, computed: &String) -> (r: Result<(), AbortCause>)
        requires
            old(self).wf(),
            old(self).announced,
            id < old(self).transfers@.len(),
            !old(self).transfers@[id as int].finished,
        ensures
            final(self).wf(),
            final(self).announced,
            ({
                let t = old(self).transfers@[id as int];
                if t.state.done != t.state.total {
                    &&& r == Err::<(), AbortCause>(AbortCause::NetworkError)
                    &&& final(self).transfers@ == old(self).transfers@
                } else if computed@ != t.entry.hash@ {
                    &&& r == Err::<(), AbortCause>(AbortCause::HashMismatch)
                    &&& final(self).transfers@ == old(self).transfers@
                } else {
                    &&& r == Ok::<(), AbortCause>(())
                    &&& final(self).transfers@ == old(self).transfers@.update(
                        id as int,
                        Transfer { finished: true, ..t },
                    )
                }
            }),
    {
        if self.transfers[id].state.done != self.transfers[id].state.total {
            return Err(AbortCause::NetworkError);
        }
        if !crate::digest::hash_verified(computed, &self.transfers[id].entry.hash) {
            return Err(AbortCause::HashMismatch);
        }
        let t = Transfer {
            entry: self.transfers[id].entry.duplicate(),
            state: self.transfers[id].state,
            registered: self.transfers[id].registered,
            finished: true,
        };
        self.transfers.set(id, t);
        Ok(())
    }

    /// Whether every transfer is finished.
    pub fn is_complete(&self) -> (r: bool)
        requires
            self.wf(),
        ensures
            r == self.complete(),
    {
        let mut k: usize = 0;
        while k < self.transfers.len()
            invariant
                k <= self.transfers@.len(),
                forall|j: int| 0 <= j < k ==> (#[trigger] self.transfers@[j]).finished,
            decreases self.transfers@.len() - k,
        {
            if !self.transfers[k].finished {
                return false;
            }
            k = k + 1;
        }
        true
    }
}

proof fn lemma_sum_done_zero(ts: Seq<Transfer>)
    requires
        forall|k: int| 0 <= k < ts.len() ==> (#[trigger] ts[k]).state.done == 0,
    ensures
        sum_done(ts) == 0,
    decreases ts.len(),
{
    if ts.len() > 0 {
        assert(forall|k: int| 0 <= k < ts.drop_last().len() ==> ts.drop_last()[k] == ts[k]);
        lemma_sum_done_zero(ts.drop_last());
    }
}

proof fn lemma_sum_done_total(ts: Seq<Transfer>)
    requires
        forall|k: int| 0 <= k < ts.len() ==> (#[trigger] ts[k]).state.done == ts[k].state.total,
    ensures
        sum_done(ts) == sum_total(ts),
    decreases ts.len(),
{
    if ts.len() > 0 {
        assert(forall|k: int| 0 <= k < ts.drop_last().len() ==> ts.drop_last()[k] == ts[k]);
        lemma_sum_done_total(ts.drop_last());
    }
}

/// Before every transfer is registered and announced, no byte has been
/// counted: the progress of all transfers sums to zero.
pub proof fn lemma_nothing_received_before_announce(c: DownloadCoordinator)
    requires
        c.wf(),
        !c.announced,
    ensures
        sum_done(c.transfers@) == 0,
{
    lemma_sum_done_zero(c.transfers@);
}

/// When every transfer is finished, the bytes received sum to the declared
/// sizes.
pub proof fn lemma_conservation(c: DownloadCoordinator)
    requires
        c.wf(),
        c.complete(),
    ensures
        sum_done(c.transfers@) == sum_total(c.transfers@),
{
    lemma_sum_done_total(c.transfers@);
}

} // verus!
