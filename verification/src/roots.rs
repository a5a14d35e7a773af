//! The projects that have agents.

use crate::order::Placement;
use crate::paths::{place_path, WorkspacePath};
#[allow(unused_imports)]
use crate::paths::{path_before, path_before_is_irreflexive, path_before_is_transitive, PathView};
#[allow(unused_imports)]
use crate::run::push_keeps;
use vstd::prelude::*;

verus! {

/// The paths that are there, in order.
pub open spec fn present(found: Seq<Option<WorkspacePath>>) -> Seq<PathView>
    decreases found.len(),
{
    if found.len() == 0 {
        Seq::empty()
    } else {
        match found.last() {
            Some(path) => present(found.drop_last()).push(path@),
            None => present(found.drop_last()),
        }
    }
}

/// The values of a list of paths.
pub open spec fn path_views(paths: Seq<WorkspacePath>) -> Seq<PathView> {
    paths.map_values(|p: WorkspacePath| p@)
}

/// Whether the paths stand in their order, each once.
pub open spec fn ascending(paths: Seq<PathView>) -> bool {
    forall|i: int, j: int|
        0 <= i < j < paths.len() ==> path_before(
            (#[trigger] paths[i]).key(),
            (#[trigger] paths[j]).key(),
        )
}

/// Whether `roots` are the paths of `paths`, in order and without repetition; of paths that are
/// equal but spelled differently, one stays.
pub open spec fn distinct_in_order(paths: Seq<PathView>, roots: Seq<PathView>) -> bool {
    &&& ascending(roots)
    &&& forall|i: int| 0 <= i < roots.len() ==> paths.contains(#[trigger] roots[i])
    &&& forall|i: int|
        0 <= i < paths.len() ==> exists|j: int|
            0 <= j < roots.len() && (#[trigger] roots[j]).key() == (#[trigger] paths[i]).key()
}

proof fn insertion_keeps_order(roots: Seq<PathView>, at: int, path: PathView)
    requires
        ascending(roots),
        0 <= at <= roots.len(),
        forall|i: int| 0 <= i < at ==> path_before((#[trigger] roots[i]).key(), path.key()),
        at < roots.len() ==> path_before(path.key(), roots[at].key()),
    ensures
        ascending(roots.insert(at, path)),
        forall|i: int| 0 <= i < roots.len() ==> (#[trigger] roots[i]).key() != path.key(),
{
    path_before_is_irreflexive(path.key());
    assert forall|i: int| at <= i < roots.len() implies path_before(
        path.key(),
        (#[trigger] roots[i]).key(),
    ) by {
        if i > at {
            path_before_is_transitive(path.key(), roots[at].key(), roots[i].key());
        }
    }
    let after = roots.insert(at, path);
    assert forall|i: int, j: int| 0 <= i < j < after.len() implies path_before(
        (#[trigger] after[i]).key(),
        (#[trigger] after[j]).key(),
    ) by {
        if j < at {
            assert(after[i] == roots[i] && after[j] == roots[j]);
        } else if j == at {
            assert(after[i] == roots[i]);
        } else if i < at {
            assert(after[i] == roots[i] && after[j] == roots[j - 1]);
        } else if i == at {
            assert(after[j] == roots[j - 1]);
        } else {
            assert(after[i] == roots[i - 1] && after[j] == roots[j - 1]);
        }
    }
}

proof fn insertion_adds_the_path(
    paths: Seq<PathView>,
    roots: Seq<PathView>,
    at: int,
    path: PathView,
)
    requires
        distinct_in_order(paths, roots),
        0 <= at <= roots.len(),
        ascending(roots.insert(at, path)),
        forall|i: int| 0 <= i < roots.len() ==> (#[trigger] roots[i]).key() != path.key(),
    ensures
        distinct_in_order(paths.push(path), roots.insert(at, path)),
{
    let longer = paths.push(path);
    let after = roots.insert(at, path);
    push_keeps(paths, path);
    assert forall|i: int| 0 <= i < after.len() implies longer.contains(#[trigger] after[i]) by {
        if i < at {
            assert(after[i] == roots[i]);
        } else if i > at {
            assert(after[i] == roots[i - 1]);
        }
    }
    assert forall|i: int| 0 <= i < longer.len() implies exists|j: int|
        0 <= j < after.len() && (#[trigger] after[j]).key() == (#[trigger] longer[i]).key() by {
        if i < paths.len() {
            assert(longer[i] == paths[i]);
            let k = choose|k: int|
                0 <= k < roots.len() && (#[trigger] roots[k]).key() == paths[i].key();
            if k < at {
                assert(after[k] == roots[k]);
            } else {
                assert(after[k + 1] == roots[k]);
            }
        } else {
            assert(after[at].key() == longer[i].key());
        }
    }
}

proof fn repetition_adds_nothing(
    paths: Seq<PathView>,
    roots: Seq<PathView>,
    at: int,
    path: PathView,
)
    requires
        distinct_in_order(paths, roots),
        0 <= at < roots.len(),
        roots[at].key() == path.key(),
    ensures
        distinct_in_order(paths.push(path), roots),
{
    let longer = paths.push(path);
    push_keeps(paths, path);
    assert forall|i: int| 0 <= i < longer.len() implies exists|j: int|
        0 <= j < roots.len() && (#[trigger] roots[j]).key() == (#[trigger] longer[i]).key() by {
        if i < paths.len() {
            assert(longer[i] == paths[i]);
        } else {
            assert(roots[at].key() == longer[i].key());
        }
    }
}

/// Puts `path` among `roots`, unless an equal one is there.
#[verifier::spinoff_prover]
#[verifier::rlimit(40)]
fn add_root(roots: &mut Vec<WorkspacePath>, path: WorkspacePath, Ghost(paths): Ghost<Seq<PathView>>)
    requires
        distinct_in_order(paths, path_views(old(roots)@)),
    ensures
        distinct_in_order(paths.push(path@), path_views(final(roots)@)),
{
    let ghost before = path_views(roots@);
    let mut at: usize = 0;
    while at < roots.len()
        invariant
            roots@ == old(roots)@,
            before == path_views(roots@),
            at <= roots@.len(),
            distinct_in_order(paths, before),
            forall|i: int| 0 <= i < at ==> path_before((#[trigger] before[i]).key(), path@.key()),
        ensures
            at < roots@.len() ==> path_before(path@.key(), before[at as int].key()),
        decreases roots@.len() - at,
    {
        assert(before[at as int] == roots@[at as int]@);
        match place_path(&roots[at], &path) {
            Placement::Before => {},
            Placement::Same => {
                proof {
                    repetition_adds_nothing(paths, before, at as int, path@);
                }
                return ;
            },
            Placement::After => {
                break ;
            },
        }
        at = at + 1;
    }
    proof {
        insertion_keeps_order(before, at as int, path@);
        insertion_adds_the_path(paths, before, at as int, path@);
    }
    let ghost value = path@;
    roots.insert(at, path);
    assert(path_views(roots@) =~= before.insert(at as int, value));
}

/// The roots of the projects that have agents, in order, each once. `found` holds for each
/// agent the root of its project, or nothing where none could be found.
pub fn discover_project_roots(found: Vec<Option<WorkspacePath>>) -> (roots: Vec<WorkspacePath>)
    ensures
        distinct_in_order(present(found@), path_views(roots@)),
{
    let mut roots: Vec<WorkspacePath> = Vec::new();
    assert(path_views(roots@) =~= Seq::<PathView>::empty());
    for i in 0..found.len()
        invariant
            distinct_in_order(present(found@.take(i as int)), path_views(roots@)),
    {
        assert(found@.take(i + 1).drop_last() =~= found@.take(i as int));
        if let Some(path) = &found[i] {
            add_root(&mut roots, path.clone(), Ghost(present(found@.take(i as int))));
        }
    }
    assert(found@.take(found@.len() as int) =~= found@);
    roots
}

/// A path that was found is kept, behind those before it; where none was found, nothing is.
pub proof fn found_paths_are_kept(found: Seq<Option<WorkspacePath>>, path: WorkspacePath)
    ensures
        present(Seq::<Option<WorkspacePath>>::empty()) == Seq::<PathView>::empty(),
        present(found.push(Some(path))) == present(found).push(path@),
        present(found.push(None)) == present(found),
{
    assert(found.push(Some(path)).drop_last() =~= found);
    assert(found.push(None).drop_last() =~= found);
}

/// Of the roots no two are equal, each comes before the next ones, each is one of the paths, and
/// each path is equal to one of them.
pub proof fn roots_stand_in_order_each_once(
    paths: Seq<PathView>,
    roots: Seq<PathView>,
    i: int,
    j: int,
    k: int,
)
    requires
        distinct_in_order(paths, roots),
        0 <= i < j < roots.len(),
        0 <= k < paths.len(),
    ensures
        path_before(roots[i].key(), roots[j].key()),
        roots[i].key() != roots[j].key(),
        paths.contains(roots[i]),
        paths.contains(roots[j]),
        exists|m: int| 0 <= m < roots.len() && (#[trigger] roots[m]).key() == paths[k].key(),
{
    path_before_is_irreflexive(roots[i].key());
    let m = choose|m: int| 0 <= m < roots.len() && (#[trigger] roots[m]).key() == paths[k].key();
    assert(roots[m].key() == paths[k].key());
}

/// A single path is its own list of roots, and no paths have none.
pub proof fn few_roots(paths: Seq<PathView>, roots: Seq<PathView>)
    requires
        distinct_in_order(paths, roots),
    ensures
        paths.len() == 0 ==> roots.len() == 0,
        paths.len() == 1 ==> roots == paths,
        roots.len() <= paths.len(),
{
    if roots.len() > 0 {
        assert(paths.contains(roots[0]));
    }
    if paths.len() == 1 {
        let m = choose|m: int|
            0 <= m < roots.len() && (#[trigger] roots[m]).key() == paths[0].key();
        assert(paths.contains(roots[0]));
        assert(roots[0] == paths[0]);
        if roots.len() > 1 {
            assert(paths.contains(roots[1]));
            path_before_is_irreflexive(roots[0].key());
            assert(path_before(roots[0].key(), roots[1].key()));
        }
        assert(roots =~= paths);
    }
    roots_are_no_more_than_paths(paths, roots);
}

proof fn roots_are_no_more_than_paths(paths: Seq<PathView>, roots: Seq<PathView>)
    requires
        ascending(roots),
        forall|i: int| 0 <= i < roots.len() ==> paths.contains(#[trigger] roots[i]),
    ensures
        roots.len() <= paths.len(),
    decreases roots.len(),
{
    if roots.len() > 0 {
        let last = roots.last();
        assert(paths.contains(roots[roots.len() - 1]));
        let at = choose|at: int| 0 <= at < paths.len() && paths[at] == last;
        let rest = paths.remove(at);
        let before = roots.drop_last();
        assert forall|i: int| 0 <= i < before.len() implies rest.contains(#[trigger] before[i]) by {
            assert(before[i] == roots[i]);
            let k = choose|k: int| 0 <= k < paths.len() && paths[k] == roots[i];
            path_before_is_irreflexive(last.key());
            assert(path_before(roots[i].key(), roots[roots.len() - 1].key()));
            assert(k != at);
            if k < at {
                assert(rest[k] == paths[k]);
            } else {
                assert(rest[k - 1] == paths[k]);
            }
        }
        assert(ascending(before)) by {
            assert forall|i: int, j: int| 0 <= i < j < before.len() implies path_before(
                (#[trigger] before[i]).key(),
                (#[trigger] before[j]).key(),
            ) by {
                assert(before[i] == roots[i] && before[j] == roots[j]);
            }
        }
        roots_are_no_more_than_paths(rest, before);
    }
}

} // verus!
