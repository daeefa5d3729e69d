//! Locates the governing manifest by walking upward from a starting
//! directory. A directory is modelled as its list of path components; the
//! filesystem is modelled as the set of directories that contain a manifest
//! file. The caller that probes a real filesystem drives the same walk one
//! step at a time through `locate_step`.

use vstd::prelude::*;

use crate::text::clone_strings;

verus! {

/// The nearest ancestor-or-self of `start` that lies in `dirs` (the set of
/// directories containing a manifest), searching upward, parent by parent.
pub open spec fn located(dirs: Set<Seq<Seq<char>>>, start: Seq<Seq<char>>) -> Option<
    Seq<Seq<char>>,
>
    decreases start.len(),
{
    if dirs.contains(start) {
        Some(start)
    } else if start.len() == 0 {
        None
    } else {
        located(dirs, start.drop_last())
    }
}

/// The set of directories a listing stands for.
pub open spec fn spec_dir_set(dirs: Seq<Seq<Seq<char>>>) -> Set<Seq<Seq<char>>> {
    dirs.to_set()
}

/// Whether two directories have the same components.
fn dir_eq(a: &Vec<String>, b: &Vec<String>) -> (r: bool)
    ensures
        r == (a.deep_view() == b.deep_view()),
{
    if a.len() != b.len() {
        proof {
            assert(a.deep_view().len() != b.deep_view().len());
        }
        return false;
    }
    let mut i: usize = 0;
    while i < a.len()
        invariant
            i <= a.len(),
            a.len() == b.len(),
            forall|j: int| 0 <= j < i ==> a.deep_view()[j] == b.deep_view()[j],
        decreases a.len() - i,
    {
        let same = a[i] == b[i];
        if !same {
            proof {
                assert(a.deep_view()[i as int] != b.deep_view()[i as int]);
            }
            return false;
        }
        i = i + 1;
    }
    proof {
        assert(a.deep_view() =~= b.deep_view());
    }
    true
}

fn contains_dir(dirs: &Vec<Vec<String>>, d: &Vec<String>) -> (r: bool)
    ensures
        r == spec_dir_set(dirs.deep_view()).contains(d.deep_view()),
{
    let mut i: usize = 0;
    while i < dirs.len()
        invariant
            i <= dirs.len(),
            forall|j: int| 0 <= j < i ==> dirs.deep_view()[j] != d.deep_view(),
        decreases dirs.len() - i,
    {
        if dir_eq(&dirs[i], d) {
            proof {
                assert(dirs.deep_view()[i as int] == d.deep_view());
                assert(dirs.deep_view().contains(d.deep_view()));
            }
            return true;
        }
        i = i + 1;
    }
    proof {
        assert(!dirs.deep_view().contains(d.deep_view()));
    }
    false
}

/// Searches upward from `start` for the nearest directory that appears in
/// `manifest_dirs`, the listing of directories that contain a manifest.
pub fn locate_in(manifest_dirs: &Vec<Vec<String>>, start: &Vec<String>) -> (r: Option<
    Vec<String>,
>)
    ensures
        match r {
            Some(p) => located(spec_dir_set(manifest_dirs.deep_view()), start.deep_view())
                == Some(p.deep_view()),
            None => located(spec_dir_set(manifest_dirs.deep_view()), start.deep_view()) is None,
        },
{
    let ghost ds = spec_dir_set(manifest_dirs.deep_view());
    let mut cur: Vec<String> = clone_strings(start);
    proof {
        assert(cur.deep_view() =~= start.deep_view());
    }
    loop
        invariant
            located(ds, start.deep_view()) == located(ds, cur.deep_view()),
            ds == spec_dir_set(manifest_dirs.deep_view()),
        decreases cur.len(),
    {
        if contains_dir(manifest_dirs, &cur) {
            return Some(cur);
        }
        if cur.len() == 0 {
            return None;
        }
        let ghost before = cur.deep_view();
        cur.pop();
        proof {
            assert(cur.deep_view() =~= before.drop_last());
        }
    }
}

/// One decision of the upward walk, for a caller that probes a real
/// filesystem: stop at the current directory when it holds a manifest,
/// otherwise ascend to the parent, and give up at the root.
#[derive(Clone, Copy, PartialEq, Eq, Structural, Debug)]
pub enum LocateStep {
    UseHere,
    Ascend,
    GiveUp,
}

/// Decides the next step of the walk from what a probe of the current
/// directory found and whether it has a parent.
pub fn locate_step(has_manifest: bool, has_parent: bool) -> (s: LocateStep)
    ensures
        has_manifest ==> s == LocateStep::UseHere,
        !has_manifest && has_parent ==> s == LocateStep::Ascend,
        !has_manifest && !has_parent ==> s == LocateStep::GiveUp,
{
    if has_manifest {
        LocateStep::UseHere
    } else if has_parent {
        LocateStep::Ascend
    } else {
        LocateStep::GiveUp
    }
}

/// A successful search returns the nearest manifest directory: the result
/// is an ancestor-or-self of the start, it holds a manifest, and no
/// directory strictly between it and the start holds one.
pub proof fn lemma_located_is_nearest(dirs: Set<Seq<Seq<char>>>, start: Seq<Seq<char>>)
    requires
        located(dirs, start) is Some,
    ensures
        ({
            let p = located(dirs, start)->Some_0;
            &&& dirs.contains(p)
            &&& p.len() <= start.len()
            &&& p == start.take(p.len() as int)
            &&& forall|i: int| p.len() < i <= start.len() ==> !dirs.contains(start.take(i))
        }),
    decreases start.len(),
{
    if dirs.contains(start) {
        assert(start.take(start.len() as int) =~= start);
    } else {
        let parent = start.drop_last();
        lemma_located_is_nearest(dirs, parent);
        let p = located(dirs, parent)->Some_0;
        assert(parent =~= start.take(start.len() - 1));
        assert(p =~= start.take(p.len() as int)) by {
            assert(p =~= parent.take(p.len() as int));
        }
        assert forall|i: int| p.len() < i <= start.len() implies !dirs.contains(
            start.take(i),
        ) by {
            if i < start.len() {
                assert(start.take(i) =~= parent.take(i));
            } else {
                assert(start.take(i) =~= start);
            }
        }
    }
}

/// Manifest location is idempotent: starting the search from the found
/// directory, or from any directory on the chain between it and the
/// original start, finds the same manifest directory.
pub proof fn lemma_located_idempotent(dirs: Set<Seq<Seq<char>>>, start: Seq<Seq<char>>, i: int)
    requires
        located(dirs, start) is Some,
        located(dirs, start)->Some_0.len() <= i <= start.len(),
    ensures
        located(dirs, start.take(i)) == located(dirs, start),
    decreases i,
{
    let p = located(dirs, start)->Some_0;
    lemma_located_is_nearest(dirs, start);
    if i == p.len() {
        assert(start.take(i) == p);
        assert(dirs.contains(start.take(i)));
    } else {
        assert(!dirs.contains(start.take(i)));
        assert(start.take(i).len() == i > 0);
        lemma_located_idempotent(dirs, start, i - 1);
        assert(start.take(i).drop_last() =~= start.take(i - 1));
    }
}

} // verus!
