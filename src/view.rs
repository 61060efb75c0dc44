//! A consumer's picture of a run, folded from the progress events it reads.
use vstd::prelude::*;

use crate::progress::{DownloadState, ProgressEvent};

verus! {

/// An event that breaks the order or the bounds that a run guarantees.
#[derive(Clone, Copy, Debug, PartialEq, Eq, Structural)]
pub enum ViewError {
    /// A transfer id was registered twice.
    DuplicateTransfer,
    /// Progress came for an id that was never registered.
    UnknownTransfer,
    /// Progress exceeds the transfer's declared size.
    ProgressBeyondSize,
}

/// Whether some entry of `s` has the id `id`.
pub open spec fn has_id(s: Seq<(u64, DownloadState)>, id: u64) -> bool {
    exists|k: int| 0 <= k < s.len() && (#[trigger] s[k]).0 == id
}

/// Sum of the bytes received over `s`.
pub open spec fn view_done(s: Seq<(u64, DownloadState)>) -> int
    decreases s.len(),
{
    if s.len() == 0 {
        0
    } else {
        view_done(s.drop_last()) + s.last().1.done
    }
}

/// Sum of the declared sizes over `s`.
pub open spec fn view_total(s: Seq<(u64, DownloadState)>) -> int
    decreases s.len(),
{
    if s.len() == 0 {
        0
    } else {
        view_total(s.drop_last()) + s.last().1.total
    }
}

/// What a consumer knows of a run: one state per registered transfer, whether
/// every size is known, and whether the run has ended.
pub struct ProgressView {
    pub states: Vec<(u64, DownloadState)>,
    pub sizes_known: bool,
    pub ended: bool,
}

impl ProgressView {
    /// Ids are distinct and every state is within bounds.
    pub open spec fn wf(&self) -> bool {
        &&& forall|i: int, j: int|
            0 <= i < j < self.states@.len() ==> (#[trigger] self.states@[i]).0
                != (#[trigger] self.states@[j]).0
        &&& forall|k: int| 0 <= k < self.states@.len() ==> (#[trigger] self.states@[k]).1.wf()
    }

    /// Nothing seen yet.
    pub fn new() -> (r: ProgressView)
        ensures
            r.wf(),
            r.states@.len() == 0,
            !r.sizes_known,
            !r.ended,
    {
        ProgressView { states: Vec::new(), sizes_known: false, ended: false }
    }

    fn position(&self, id: u64) -> (r: Option<usize>)
        ensures
            match r {
                Some(k) => k < self.states@.len() && self.states@[k as int].0 == id,
                None => !has_id(self.states@, id),
            },
    {
        let mut k: usize = 0;
        while k < self.states.len()
            invariant
                k <= self.states@.len(),
                forall|j: int| 0 <= j < k ==> (#[trigger] self.states@[j]).0 != id,
            decreases self.states@.len() - k,
        {
            if self.states[k].0 == id {
                return Some(k);
            }
            k = k + 1;
        }
        None
    }

    /// Folds one event into the view. A second registration of an id, progress
    /// for an unknown id, or progress beyond a known size is refused and
    /// leaves the view unchanged.
    pub fn apply(&mut self, ev: ProgressEvent) -> (r: Result<(), ViewError>)
        requires
            old(self).wf(),
        ensures
            final(self).wf(),
            match ev {
                ProgressEvent::FileRegistered(id, size) => if has_id(old(self).states@, id) {
                    r == Err::<(), ViewError>(ViewError::DuplicateTransfer) && *final(self)
                        == *old(self)
                } else {
                    r is Ok && final(self).states@ == old(self).states@.push(
                        (id, DownloadState { total: size, done: 0 }),
                    ) && final(self).sizes_known == old(self).sizes_known && final(self).ended
                        == old(self).ended
                },
                ProgressEvent::FileProgress(id, done) => if !has_id(old(self).states@, id) {
                    r == Err::<(), ViewError>(ViewError::UnknownTransfer) && *final(self)
                        == *old(self)
                } else {
                    let k = choose|k: int|
                        0 <= k < old(self).states@.len() && (#[trigger] old(self).states@[k]).0
                            == id;
                    let st = old(self).states@[k].1;
                    if st.total > 0 && done > st.total {
                        r == Err::<(), ViewError>(ViewError::ProgressBeyondSize) && *final(self)
                            == *old(self)
                    } else {
                        r is Ok && final(self).states@ == old(self).states@.update(
                            k,
                            (id, DownloadState { total: st.total, done }),
                        ) && final(self).sizes_known == old(self).sizes_known && final(self).ended == old(self).ended
                    }
                },
                ProgressEvent::AllRegistered => r is Ok && final(self).states@ == old(self).states@ && final(self).sizes_known && final(self).ended == old(self).ended,
                ProgressEvent::CleanupComplete => r is Ok && *final(self) == *old(self),
                _ => r is Ok && final(self).states@ == old(self).states@ && final(self).sizes_known
                    == old(self).sizes_known && final(self).ended,
            },
    {
        match ev {
            ProgressEvent::FileRegistered(id, size) => {
                match self.position(id) {
                    Some(_) => Err(ViewError::DuplicateTransfer),
                    None => {
                        self.states.push((id, DownloadState::new(size)));
                        assert forall|i: int, j: int|
                            0 <= i < j < self.states@.len() implies (#[trigger] self.states@[i]).0
                            != (#[trigger] self.states@[j]).0 by {
                            if j == self.states@.len() - 1 {
                                assert(old(self).states@[i] == self.states@[i]);
                            } else {
                                assert(old(self).states@[i] == self.states@[i]);
                                assert(old(self).states@[j] == self.states@[j]);
                            }
                        }
                        Ok(())
                    },
                }
            },
            ProgressEvent::FileProgress(id, done) => {
                match self.position(id) {
                    None => Err(ViewError::UnknownTransfer),
                    Some(k) => {
                        let ghost kk = choose|k: int|
                            0 <= k < old(self).states@.len() && (#[trigger] old(self).states@[k]).0 == id;
                        assert(kk == k as int) by {
                            if kk != k as int {
                                if kk < k as int {
                                    assert(self.states@[kk].0 != self.states@[k as int].0);
                                } else {
                                    assert(self.states@[k as int].0 != self.states@[kk].0);
                                }
                            }
                        }
                        let mut st = self.states[k].1;
                        if st.total > 0 && done > st.total {
                            Err(ViewError::ProgressBeyondSize)
                        } else {
                            st.set_done(done);
                            self.states.set(k, (id, st));
                            assert forall|i: int, j: int|
                                0 <= i < j < self.states@.len() implies (#[trigger] self.states@[i]).0
                                != (#[trigger] self.states@[j]).0 by {
                                assert(self.states@[i].0 == old(self).states@[i].0);
                                assert(self.states@[j].0 == old(self).states@[j].0);
                            }
                            Ok(())
                        }
                    },
                }
            },
            ProgressEvent::AllRegistered => {
                self.sizes_known = true;
                Ok(())
            },
            ProgressEvent::CleanupComplete => Ok(()),
            _ => {
                self.ended = true;
                Ok(())
            },
        }
    }

    /// Bytes received over all transfers.
    pub fn done_sum(&self) -> (r: u128)
        ensures
            r == view_done(self.states@),
    {
        let mut acc: u128 = 0;
        let mut k: usize = 0;
        while k < self.states.len()
            invariant
                k <= self.states@.len(),
                acc == view_done(self.states@.subrange(0, k as int)),
                acc <= k * 0xFFFF_FFFF_FFFF_FFFFu64,
            decreases self.states@.len() - k,
        {
            let ghost s1 = self.states@.subrange(0, k + 1);
            assert(s1.drop_last() =~= self.states@.subrange(0, k as int));
            let x = self.states[k].1.done;
            assert(acc + x <= (k + 1) * 0xFFFF_FFFF_FFFF_FFFFu64) by (nonlinear_arith)
                requires
                    acc <= k * 0xFFFF_FFFF_FFFF_FFFFu64,
                    x <= 0xFFFF_FFFF_FFFF_FFFFu64,
            ;
            assert((k + 1) * 0xFFFF_FFFF_FFFF_FFFFu64 <= 0xFFFF_FFFF_FFFF_FFFF_FFFF_FFFF_FFFF_FFFFu128)
                by (nonlinear_arith)
                requires
                    k < 0x1_0000_0000_0000_0000int,
            ;
            acc = acc + x as u128;
            k = k + 1;
        }
        assert(self.states@.subrange(0, k as int) =~= self.states@);
        acc
    }

    /// Declared sizes over all transfers.
    pub fn total_sum(&self) -> (r: u128)
        ensures
            r == view_total(self.states@),
    {
        let mut acc: u128 = 0;
        let mut k: usize = 0;
        while k < self.states.len()
            invariant
                k <= self.states@.len(),
                acc == view_total(self.states@.subrange(0, k as int)),
                acc <= k * 0xFFFF_FFFF_FFFF_FFFFu64,
            decreases self.states@.len() - k,
        {
            let ghost s1 = self.states@.subrange(0, k + 1);
            assert(s1.drop_last() =~= self.states@.subrange(0, k as int));
            let x = self.states[k].1.total;
            assert(acc + x <= (k + 1) * 0xFFFF_FFFF_FFFF_FFFFu64) by (nonlinear_arith)
                requires
                    acc <= k * 0xFFFF_FFFF_FFFF_FFFFu64,
                    x <= 0xFFFF_FFFF_FFFF_FFFFu64,
            ;
            assert((k + 1) * 0xFFFF_FFFF_FFFF_FFFFu64 <= 0xFFFF_FFFF_FFFF_FFFF_FFFF_FFFF_FFFF_FFFFu128)
                by (nonlinear_arith)
                requires
                    k < 0x1_0000_0000_0000_0000int,
            ;
            acc = acc + x as u128;
            k = k + 1;
        }
        assert(self.states@.subrange(0, k as int) =~= self.states@);
        acc
    }
}

} // verus!
