//! The diff between a manifest and the local installation: what to download
//! and what to delete.
use vstd::prelude::*;

use crate::manifest::{FileInfo, Info};
use crate::scan::{is_ignored, path_ignored};

verus! {

/// Whether the local index holds `path` with the hash `hash`.
pub open spec fn local_has(local: Seq<FileInfo>, path: Seq<char>, hash: Seq<char>) -> bool {
    exists|k: int|
        0 <= k < local.len() && (#[trigger] local[k]).path@ == path && local[k].hash@ == hash
}

/// Whether some manifest entry has the path `path`.
pub open spec fn in_manifest(files: Seq<FileInfo>, path: Seq<char>) -> bool {
    exists|k: int| 0 <= k < files.len() && (#[trigger] files[k]).path@ == path
}

/// A manifest entry is fetched when it is not ignored and the local index
/// lacks it or holds it with another hash.
pub open spec fn must_download(ignored: Seq<String>, local: Seq<FileInfo>, e: FileInfo) -> bool {
    !is_ignored(e.path@, ignored) && !local_has(local, e.path@, e.hash@)
}

/// A local file is deleted when no manifest entry has its path and it is not ignored.
pub open spec fn must_delete(files: Seq<FileInfo>, ignored: Seq<String>, l: FileInfo) -> bool {
    !in_manifest(files, l.path@) && !is_ignored(l.path@, ignored)
}

/// The entries to download, in manifest order.
pub open spec fn download_set(info: Info, local: Seq<FileInfo>) -> Seq<FileInfo> {
    info.files@.filter(|e: FileInfo| must_download(info.ignored_files@, local, e))
}

/// The local paths to delete, in the order of the local index.
pub open spec fn delete_set(info: Info, local: Seq<FileInfo>) -> Seq<String> {
    local.filter(|l: FileInfo| must_delete(info.files@, info.ignored_files@, l)).map_values(
        |l: FileInfo| l.path,
    )
}

/// The local installation matches the manifest: every entry that is not
/// ignored is there with its hash, and every other local file is ignored.
pub open spec fn synchronized(info: Info, local: Seq<FileInfo>) -> bool {
    &&& forall|k: int|
        0 <= k < info.files@.len() && !is_ignored(info.files@[k].path@, info.ignored_files@)
            ==> local_has(local, #[trigger] info.files@[k].path@, info.files@[k].hash@)
    &&& forall|k: int|
        0 <= k < local.len() ==> in_manifest(info.files@, #[trigger] local[k].path@)
            || is_ignored(local[k].path@, info.ignored_files@)
}

/// What an update must do to bring the local installation in line with a manifest.
pub struct DiffPlan {
    /// Manifest entries to fetch, in manifest order.
    pub to_download: Vec<FileInfo>,
    /// Local paths to remove.
    pub to_delete: Vec<String>,
}

impl DiffPlan {
    /// This plan is the one for `info` and the local index `local`.
    pub open spec fn is_plan_of(&self, info: Info, local: Seq<FileInfo>) -> bool {
        &&& self.to_download@ == download_set(info, local)
        &&& self.to_delete@ == delete_set(info, local)
    }

    /// Nothing to download and nothing to delete.
    pub fn is_empty(&self) -> (r: bool)
        ensures
            r == (self.to_download@.len() == 0 && self.to_delete@.len() == 0),
    {
        self.to_download.len() == 0 && self.to_delete.len() == 0
    }
}

impl FileInfo {
    /// A copy of this entry.
    pub fn duplicate(&self) -> (r: FileInfo)
        ensures
            r == *self,
    {
        FileInfo { path: self.path.clone(), hash: self.hash.clone() }
    }
}

fn local_contains(local: &Vec<FileInfo>, path: &String, hash: &String) -> (r: bool)
    ensures
        r == local_has(local@, path@, hash@),
{
    let mut k: usize = 0;
    while k < local.len()
        invariant
            k <= local.len(),
            forall|j: int|
                0 <= j < k ==> !((#[trigger] local@[j]).path@ == path@ && local@[j].hash@
                    == hash@),
        decreases local.len() - k,
    {
        if local[k].path == *path && local[k].hash == *hash {
            return true;
        }
        k = k + 1;
    }
    false
}

fn manifest_contains(files: &Vec<FileInfo>, path: &String) -> (r: bool)
    ensures
        r == in_manifest(files@, path@),
{
    let mut k: usize = 0;
    while k < files.len()
        invariant
            k <= files.len(),
            forall|j: int| 0 <= j < k ==> (#[trigger] files@[j]).path@ != path@,
        decreases files.len() - k,
    {
        if files[k].path == *path {
            return true;
        }
        k = k + 1;
    }
    false
}

/// Compares the manifest with the local index. Performs no I/O: the plan is a
/// function of its two arguments.
pub fn plan_update(info: &Info, local: &Vec<FileInfo>) -> (r: DiffPlan)
    ensures
        r.is_plan_of(*info, local@),
{
    let ghost dl = |e: FileInfo| must_download(info.ignored_files@, local@, e);
    let ghost del = |l: FileInfo| must_delete(info.files@, info.ignored_files@, l);
    let ghost to_path = |l: FileInfo| l.path;
    proof {
        reveal(Seq::filter);
        assert(info.files@.subrange(0, 0) =~= Seq::<FileInfo>::empty());
        assert(local@.subrange(0, 0) =~= Seq::<FileInfo>::empty());
    }
    let mut to_download: Vec<FileInfo> = Vec::new();
    let mut i: usize = 0;
    while i < info.files.len()
        invariant
            i <= info.files.len(),
            dl == (|e: FileInfo| must_download(info.ignored_files@, local@, e)),
            to_download@ == info.files@.subrange(0, i as int).filter(dl),
        decreases info.files.len() - i,
    {
        let ghost s1 = info.files@.subrange(0, i + 1);
        proof {
            reveal(Seq::filter);
        }
        assert(s1.drop_last() =~= info.files@.subrange(0, i as int));
        assert(s1.last() == info.files@[i as int]);
        let e = &info.files[i];
        if !path_ignored(e.path.as_str(), &info.ignored_files) && !local_contains(
            local,
            &e.path,
            &e.hash,
        ) {
            to_download.push(e.duplicate());
        }
        assert(to_download@ == s1.filter(dl));
        i = i + 1;
    }
    assert(info.files@.subrange(0, info.files.len() as int) =~= info.files@);
    let mut to_delete: Vec<String> = Vec::new();
    let mut j: usize = 0;
    while j < local.len()
        invariant
            j <= local.len(),
            del == (|l: FileInfo| must_delete(info.files@, info.ignored_files@, l)),
            to_path == (|l: FileInfo| l.path),
            to_delete@ == local@.subrange(0, j as int).filter(del).map_values(to_path),
        decreases local.len() - j,
    {
        let ghost s1 = local@.subrange(0, j + 1);
        proof {
            reveal(Seq::filter);
        }
        assert(s1.drop_last() =~= local@.subrange(0, j as int));
        assert(s1.last() == local@[j as int]);
        let l = &local[j];
        if !manifest_contains(&info.files, &l.path) && !path_ignored(
            l.path.as_str(),
            &info.ignored_files,
        ) {
            to_delete.push(l.path.clone());
            assert(s1.filter(del) == local@.subrange(0, j as int).filter(del).push(local@[j as int]));
            assert(to_delete@ =~= s1.filter(del).map_values(to_path));
        } else {
            assert(s1.filter(del) == local@.subrange(0, j as int).filter(del));
        }
        j = j + 1;
    }
    assert(local@.subrange(0, local.len() as int) =~= local@);
    DiffPlan { to_download, to_delete }
}

proof fn lemma_filter_none<A>(s: Seq<A>, pred: spec_fn(A) -> bool)
    requires
        forall|i: int| 0 <= i < s.len() ==> !pred(#[trigger] s[i]),
    ensures
        s.filter(pred).len() == 0,
    decreases s.len(),
{
    reveal(Seq::filter);
    if s.len() > 0 {
        assert(forall|i: int| 0 <= i < s.drop_last().len() ==> s.drop_last()[i] == s[i]);
        lemma_filter_none(s.drop_last(), pred);
    }
}

/// The plan is determined by the manifest and the local index: two plans of
/// the same inputs have the same download and delete lists.
pub proof fn lemma_plan_deterministic(info: Info, local: Seq<FileInfo>, a: DiffPlan, b: DiffPlan)
    requires
        a.is_plan_of(info, local),
        b.is_plan_of(info, local),
    ensures
        a.to_download@ == b.to_download@,
        a.to_delete@ == b.to_delete@,
{
}

/// No ignored path is ever planned for download or deletion.
pub proof fn lemma_plan_respects_ignored(info: Info, local: Seq<FileInfo>, plan: DiffPlan)
    requires
        plan.is_plan_of(info, local),
    ensures
        forall|k: int|
            0 <= k < plan.to_download@.len() ==> !is_ignored(
                (#[trigger] plan.to_download@[k]).path@,
                info.ignored_files@,
            ),
        forall|k: int|
            0 <= k < plan.to_delete@.len() ==> !is_ignored(
                (#[trigger] plan.to_delete@[k])@,
                info.ignored_files@,
            ),
{
    let dl = |e: FileInfo| must_download(info.ignored_files@, local, e);
    let del = |l: FileInfo| must_delete(info.files@, info.ignored_files@, l);
    assert forall|k: int| 0 <= k < plan.to_download@.len() implies !is_ignored(
        (#[trigger] plan.to_download@[k]).path@,
        info.ignored_files@,
    ) by {
        info.files@.lemma_filter_pred(dl, k);
    }
    assert forall|k: int| 0 <= k < plan.to_delete@.len() implies !is_ignored(
        (#[trigger] plan.to_delete@[k])@,
        info.ignored_files@,
    ) by {
        local.lemma_filter_pred(del, k);
    }
}

/// Planning against an installation that already matches the manifest gives
/// an empty plan: nothing to download and nothing to delete.
pub proof fn lemma_synchronized_plan_empty(info: Info, local: Seq<FileInfo>, plan: DiffPlan)
    requires
        plan.is_plan_of(info, local),
        synchronized(info, local),
    ensures
        plan.to_download@.len() == 0,
        plan.to_delete@.len() == 0,
{
    let dl = |e: FileInfo| must_download(info.ignored_files@, local, e);
    let del = |l: FileInfo| must_delete(info.files@, info.ignored_files@, l);
    assert forall|i: int| 0 <= i < info.files@.len() implies !dl(#[trigger] info.files@[i]) by {
        if !is_ignored(info.files@[i].path@, info.ignored_files@) {
            assert(local_has(local, info.files@[i].path@, info.files@[i].hash@));
        }
    }
    lemma_filter_none(info.files@, dl);
    assert forall|i: int| 0 <= i < local.len() implies !del(#[trigger] local[i]) by {
        assert(in_manifest(info.files@, local[i].path@) || is_ignored(
            local[i].path@,
            info.ignored_files@,
        ));
    }
    lemma_filter_none(local, del);
}

} // verus!
