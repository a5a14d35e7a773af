//! The workspaces of a repository and how they are looked up.

use crate::paths::WorkspacePath;
use crate::text::same_text;
use vstd::prelude::*;

verus! {

/// One workspace, as the version control backend lists it.
pub struct WorkspaceEntry {
    /// The directory of the workspace.
    pub path: WorkspacePath,
    /// The branch or bookmark that it holds, if any.
    pub branch_or_bookmark: Option<String>,
}

/// The value of a [`WorkspaceEntry`].
pub struct EntryView {
    pub path: crate::paths::PathView,
    pub branch_or_bookmark: Option<Seq<char>>,
}

impl View for WorkspaceEntry {
    type V = EntryView;

    open spec fn view(&self) -> EntryView {
        EntryView {
            path: self.path@,
            branch_or_bookmark: crate::text::opt_text(self.branch_or_bookmark),
        }
    }
}

/// The values of a list of workspaces.
pub open spec fn entries_view(entries: Seq<WorkspaceEntry>) -> Seq<EntryView> {
    entries.map_values(|e: WorkspaceEntry| e@)
}

/// No workspace answers to a name.
pub struct WorktreeNotFound {
    /// The name that was looked for.
    pub name: String,
}

/// The first element of `list` that `wanted` accepts.
pub open spec fn first_where<T>(list: Seq<T>, wanted: spec_fn(T) -> bool) -> Option<T>
    decreases list.len(),
{
    if list.len() == 0 {
        None
    } else if wanted(list[0]) {
        Some(list[0])
    } else {
        first_where(list.drop_first(), wanted)
    }
}

/// What [`first_where`] finds: an accepted element with no accepted one before it, or nothing
/// exactly if no element is accepted.
pub proof fn first_where_is_first<T>(list: Seq<T>, wanted: spec_fn(T) -> bool)
    ensures
        match first_where(list, wanted) {
            Some(found) => exists|i: int|
                #![trigger list[i]]
                0 <= i < list.len() && list[i] == found && wanted(found) && forall|j: int|
                    0 <= j < i ==> !wanted(#[trigger] list[j]),
            None => forall|i: int| 0 <= i < list.len() ==> !wanted(#[trigger] list[i]),
        },
    decreases list.len(),
{
    if list.len() > 0 {
        let rest = list.drop_first();
        first_where_is_first(rest, wanted);
        if wanted(list[0]) {
            assert(list[0] == first_where(list, wanted)->0);
        } else if first_where(rest, wanted) is Some {
            let found = first_where(rest, wanted)->0;
            let i = choose|i: int|
                #![trigger rest[i]]
                0 <= i < rest.len() && rest[i] == found && wanted(found) && forall|j: int|
                    0 <= j < i ==> !wanted(#[trigger] rest[j]);
            assert(list[i + 1] == found);
            assert forall|j: int| 0 <= j < i + 1 implies !wanted(#[trigger] list[j]) by {
                if j > 0 {
                    assert(list[j] == rest[j - 1]);
                }
            }
        } else {
            assert forall|i: int| 0 <= i < list.len() implies !wanted(#[trigger] list[i]) by {
                if i > 0 {
                    assert(list[i] == rest[i - 1]);
                }
            }
        }
    }
}

/// Whether the directory of a workspace is called `name`.
pub open spec fn has_handle(name: Seq<char>) -> spec_fn(EntryView) -> bool {
    |e: EntryView|
        match e.path.file_name() {
            Some(dir_name) => dir_name.text == name,
            None => false,
        }
}

/// Whether a workspace holds the branch or bookmark `name`.
pub open spec fn has_branch(name: Seq<char>) -> spec_fn(EntryView) -> bool {
    |e: EntryView| e.branch_or_bookmark == Some(name)
}

/// The branch that is reported for a workspace that holds none.
pub open spec fn detached_branch() -> Seq<char> {
    "(detached)"@
}

/// The workspace that answers to `name`, with its branch: the first one whose directory has
/// that name, else the first one that holds the branch of that name.
pub open spec fn workspace_named(entries: Seq<EntryView>, name: Seq<char>) -> Option<
    (crate::paths::PathView, Seq<char>),
> {
    match first_where(entries, has_handle(name)) {
        Some(e) => Some(
            (
                e.path,
                match e.branch_or_bookmark {
                    Some(branch) => branch,
                    None => detached_branch(),
                },
            ),
        ),
        None => match first_where(entries, has_branch(name)) {
            Some(e) => Some((e.path, name)),
            None => None,
        },
    }
}

/// Finds a workspace by its handle (the name of its directory) or by its branch or bookmark,
/// trying the handle first.
pub fn find_workspace_in(entries: &Vec<WorkspaceEntry>, name: &str) -> (res: Result<
    (WorkspacePath, String),
    WorktreeNotFound,
>)
    ensures
        match res {
            Ok((path, branch)) => workspace_named(entries_view(entries@), name@) == Some(
                (path@, branch@),
            ),
            Err(e) => workspace_named(entries_view(entries@), name@) is None && e.name@ == name@,
        },
{
    let ghost all = entries_view(entries@);
    let mut i: usize = 0;
    assert(all.subrange(0, all.len() as int) =~= all);
    while i < entries.len()
        invariant
            all == entries_view(entries@),
            i <= all.len(),
            first_where(all, has_handle(name@)) == first_where(
                all.subrange(i as int, all.len() as int),
                has_handle(name@),
            ),
        decreases all.len() - i,
    {
        let entry = &entries[i];
        let ghost rest = all.subrange(i as int, all.len() as int);
        assert(rest[0] == entry@);
        assert(rest.drop_first() =~= all.subrange(i + 1, all.len() as int));
        if let Some(dir_name) = entry.path.file_name() {
            if same_text(dir_name.text.as_str(), name) {
                let branch = match &entry.branch_or_bookmark {
                    Some(branch) => branch.clone(),
                    None => "(detached)".to_owned(),
                };
                return Ok((entry.path.clone(), branch));
            }
        }
        i = i + 1;
    }
    match find_by_branch(entries, name) {
        Some(k) => Ok((entries[k].path.clone(), name.to_owned())),
        None => Err(WorktreeNotFound { name: name.to_owned() }),
    }
}

/// The position of the first workspace that holds the branch or bookmark `name`.
pub fn find_by_branch(entries: &Vec<WorkspaceEntry>, name: &str) -> (res: Option<usize>)
    ensures
        match res {
            Some(k) => k < entries@.len() && first_where(
                entries_view(entries@),
                has_branch(name@),
            ) == Some(entries@[k as int]@),
            None => first_where(entries_view(entries@), has_branch(name@)) is None,
        },
{
    let ghost all = entries_view(entries@);
    let mut i: usize = 0;
    assert(all.subrange(0, all.len() as int) =~= all);
    while i < entries.len()
        invariant
            all == entries_view(entries@),
            i <= all.len(),
            first_where(all, has_branch(name@)) == first_where(
                all.subrange(i as int, all.len() as int),
                has_branch(name@),
            ),
        decreases all.len() - i,
    {
        let entry = &entries[i];
        let ghost rest = all.subrange(i as int, all.len() as int);
        assert(rest[0] == entry@);
        assert(rest.drop_first() =~= all.subrange(i + 1, all.len() as int));
        if let Some(branch) = &entry.branch_or_bookmark {
            if same_text(branch.as_str(), name) {
                return Some(i);
            }
        }
        i = i + 1;
    }
    None
}

/// A name that some handle matches is never taken for a branch: the first workspace with that
/// handle is found, whichever branches the others hold.
pub proof fn handles_come_before_branches(entries: Seq<EntryView>, name: Seq<char>, i: int)
    requires
        0 <= i < entries.len(),
        has_handle(name)(entries[i]),
    ensures
        exists|k: int|
            #![trigger entries[k]]
            {
                &&& 0 <= k <= i
                &&& has_handle(name)(entries[k])
                &&& forall|j: int| 0 <= j < k ==> !has_handle(name)(#[trigger] entries[j])
                &&& workspace_named(entries, name) == Some(
                    (
                        entries[k].path,
                        match entries[k].branch_or_bookmark {
                            Some(branch) => branch,
                            None => detached_branch(),
                        },
                    ),
                )
            },
{
    first_where_is_first(entries, has_handle(name));
    let found = first_where(entries, has_handle(name))->0;
    let k = choose|k: int|
        #![trigger entries[k]]
        0 <= k < entries.len() && entries[k] == found && has_handle(name)(found) && forall|j: int|
            0 <= j < k ==> !has_handle(name)(#[trigger] entries[j]);
    assert(entries[k] == found);
    assert(k <= i);
}

/// A workspace is found exactly if some workspace has the name as its handle or its branch.
pub proof fn found_if_named(entries: Seq<EntryView>, name: Seq<char>)
    ensures
        workspace_named(entries, name) is Some <==> exists|i: int|
            #![trigger entries[i]]
            0 <= i < entries.len() && (has_handle(name)(entries[i]) || has_branch(name)(
                entries[i],
            )),
{
    first_where_is_first(entries, has_handle(name));
    first_where_is_first(entries, has_branch(name));
}

/// A workspace has a handle if the last component of its path is that name, and a branch if the
/// listing says so.
pub proof fn handle_and_branch_are_as_listed(entry: EntryView, name: Seq<char>)
    ensures
        has_handle(name)(entry) <==> {
            let parts = entry.path.parts;
            &&& parts.len() > 0
            &&& parts[parts.len() - 1] matches crate::paths::PartView::Normal(last)
            &&& last.text == name
        },
        has_branch(name)(entry) <==> entry.branch_or_bookmark == Some(name),
{
}

/// The first workspace whose directory has the name is found, with its branch, or as detached if
/// it holds none.
pub proof fn first_with_the_handle_is_found(entries: Seq<EntryView>, name: Seq<char>, k: int)
    requires
        0 <= k < entries.len(),
        has_handle(name)(entries[k]),
        forall|j: int| 0 <= j < k ==> !has_handle(name)(#[trigger] entries[j]),
    ensures
        entries[k].branch_or_bookmark matches Some(branch) ==> workspace_named(entries, name)
            == Some((entries[k].path, branch)),
        entries[k].branch_or_bookmark is None ==> workspace_named(entries, name) == Some(
            (entries[k].path, "(detached)"@),
        ),
{
    handles_come_before_branches(entries, name, k);
}

/// Where no directory has the name, the first workspace that holds the branch of that name is
/// found; where none holds it either, no workspace is.
pub proof fn first_with_the_branch_is_found(entries: Seq<EntryView>, name: Seq<char>, k: int)
    requires
        forall|j: int| 0 <= j < entries.len() ==> !has_handle(name)(#[trigger] entries[j]),
        0 <= k <= entries.len(),
        forall|j: int| 0 <= j < k ==> (#[trigger] entries[j]).branch_or_bookmark != Some(name),
    ensures
        k < entries.len() && entries[k].branch_or_bookmark == Some(name) ==> workspace_named(
            entries,
            name,
        ) == Some((entries[k].path, name)),
        k == entries.len() ==> workspace_named(entries, name) is None,
{
    let wanted = has_branch(name);
    first_where_is_first(entries, has_handle(name));
    first_where_is_first(entries, wanted);
    if first_where(entries, wanted) is Some {
        let found = first_where(entries, wanted)->0;
        let i = choose|i: int|
            #![trigger entries[i]]
            0 <= i < entries.len() && entries[i] == found && wanted(found) && forall|j: int|
                0 <= j < i ==> !wanted(#[trigger] entries[j]);
        assert(entries[i] == found);
        if k < entries.len() && entries[k].branch_or_bookmark == Some(name) {
            assert(wanted(entries[k]));
            assert(i == k);
        }
    } else if k < entries.len() {
        assert(!wanted(entries[k]));
    }
}

} // verus!
