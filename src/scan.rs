//! Which local paths an update may look at: everything but the ignored paths
//! and what lies beneath them.
use vstd::prelude::*;

use crate::text::chars_of;

verus! {

/// `dir` without one trailing separator.
pub open spec fn trim_separator(dir: Seq<char>) -> Seq<char> {
    if dir.len() > 0 && dir.last() == '/' {
        dir.drop_last()
    } else {
        dir
    }
}

/// Whether `path` is `dir` itself or lies beneath it.
pub open spec fn path_under(path: Seq<char>, dir: Seq<char>) -> bool {
    let d = trim_separator(dir);
    path == d || (path.len() > d.len() && path.subrange(0, d.len() as int) == d
        && path[d.len() as int] == '/')
}

/// Whether `path` is one of the `ignored` paths or lies beneath one of them.
pub open spec fn is_ignored(path: Seq<char>, ignored: Seq<String>) -> bool {
    exists|k: int| 0 <= k < ignored.len() && path_under(path, #[trigger] ignored[k]@)
}

fn under(path: &Vec<char>, dir: &Vec<char>) -> (r: bool)
    ensures
        r == path_under(path@, dir@),
{
    let mut n: usize = dir.len();
    if n > 0 && dir[n - 1] == '/' {
        n = n - 1;
    }
    let ghost d = trim_separator(dir@);
    assert(d =~= dir@.subrange(0, n as int));
    if path.len() < n {
        return false;
    }
    let mut i: usize = 0;
    while i < n
        invariant
            i <= n,
            n <= path.len(),
            n <= dir.len(),
            d == dir@.subrange(0, n as int),
            forall|j: int| 0 <= j < i ==> path@[j] == dir@[j],
        decreases n - i,
    {
        if path[i] != dir[i] {
            assert(path@.subrange(0, n as int)[i as int] != d[i as int]);
            assert(path@ != d);
            return false;
        }
        i = i + 1;
    }
    assert(path@.subrange(0, n as int) =~= d);
    if path.len() == n {
        assert(path@ =~= d);
        true
    } else {
        path[n] == '/'
    }
}

/// Whether `path` is ignored under the list `ignored`.
pub fn path_ignored(path: &str, ignored: &Vec<String>) -> (r: bool)
    ensures
        r == is_ignored(path@, ignored@),
{
    let p = chars_of(path);
    let mut k: usize = 0;
    while k < ignored.len()
        invariant
            p@ == path@,
            k <= ignored.len(),
            forall|j: int| 0 <= j < k ==> !path_under(path@, #[trigger] ignored@[j]@),
        decreases ignored.len() - k,
    {
        let d = chars_of(ignored[k].as_str());
        if under(&p, &d) {
            return true;
        }
        k = k + 1;
    }
    false
}

/// Keeps the files of a directory listing that are not ignored, in listing order.
pub fn scan_dir(files: Vec<String>, ignored: &Vec<String>) -> (r: Vec<String>)
    ensures
        r@ == files@.filter(|f: String| !is_ignored(f@, ignored@)),
{
    let ghost keep = |f: String| !is_ignored(f@, ignored@);
    let mut r: Vec<String> = Vec::new();
    let mut i: usize = 0;
    proof {
        reveal(Seq::filter);
        assert(files@.subrange(0, 0) =~= Seq::<String>::empty());
    }
    while i < files.len()
        invariant
            i <= files.len(),
            keep == (|f: String| !is_ignored(f@, ignored@)),
            r@ == files@.subrange(0, i as int).filter(keep),
        decreases files.len() - i,
    {
        let ghost s1 = files@.subrange(0, i + 1);
        proof {
            reveal(Seq::filter);
        }
        assert(s1.drop_last() =~= files@.subrange(0, i as int));
        assert(s1.last() == files@[i as int]);
        if !path_ignored(files[i].as_str(), ignored) {
            r.push(files[i].clone());
            assert(keep(files@[i as int]));
        } else {
            assert(!keep(files@[i as int]));
        }
        assert(r@ == s1.filter(keep));
        i = i + 1;
    }
    proof {
        reveal(Seq::filter);
    }
    assert(files@.subrange(0, files.len() as int) =~= files@);
    r
}

/// Whether cleanup may remove the directory `dir` (relative to the
/// installation root) once it is empty: never the root itself, never an
/// ignored path or what lies beneath one.
pub fn dir_removable(dir: &str, ignored: &Vec<String>) -> (r: bool)
    ensures
        r == (dir@.len() > 0 && !is_ignored(dir@, ignored@)),
{
    !dir.is_empty() && !path_ignored(dir, ignored)
}

} // verus!
