//! Listing the worktrees of a project, or of all projects.

use crate::meta::MuxMode;
#[allow(unused_imports)]
use crate::meta::mode_value;
#[allow(unused_imports)]
use crate::paths::PathView;
use crate::paths::WorkspacePath;
use crate::relative::path_label;
#[allow(unused_imports)]
use crate::relative::path_label_text;
use crate::text::{decimal, join, same_text, with_text};
#[allow(unused_imports)]
use crate::text::{decimal_text, joined, opt_text, texts};
use vstd::prelude::*;
use vstd::string::StringExecFns;

verus! {

/// What an agent is doing.
#[derive(Clone, Copy, Debug, PartialEq, Eq, Structural)]
pub enum AgentStatus {
    Working,
    Waiting,
    Done,
}

/// What the agents of a worktree are doing.
pub struct AgentStatusSummary {
    pub statuses: Vec<AgentStatus>,
}

/// The icons that stand for what an agent is doing.
pub struct StatusIcons {
    pub working: String,
    pub waiting: String,
    pub done: String,
}

/// The icons that stand for the state of a pull request.
pub struct PrIcons {
    pub draft: String,
    pub open: String,
    pub merged: String,
    pub closed: String,
}

/// A pull request.
pub struct PrSummary {
    pub number: u64,
    pub state: String,
    pub is_draft: bool,
}

/// A worktree and what is known of it.
pub struct WorktreeInfo {
    pub handle: String,
    pub branch: String,
    pub path: WorkspacePath,
    pub is_main: bool,
    pub mode: MuxMode,
    pub has_mux_window: bool,
    pub has_unmerged: bool,
    pub agent_status: Option<AgentStatusSummary>,
    /// When it was created, in seconds since the epoch.
    pub created_at: Option<u64>,
    pub pr_info: Option<PrSummary>,
}

/// A worktree and the project that it belongs to.
pub struct ProjectWorktree {
    pub project: String,
    pub project_path: WorkspacePath,
    pub worktree: WorktreeInfo,
}

/// A line of the table, over texts `S`.
pub struct WorktreeRowOf<S> {
    pub project: S,
    pub branch: S,
    pub age: S,
    pub pr_status: S,
    pub agent_status: S,
    pub mux_status: S,
    pub unmerged_status: S,
    pub path_str: S,
}

/// A line of the table.
pub type WorktreeRow = WorktreeRowOf<String>;

/// The value of a [`WorktreeRow`].
pub type RowView = WorktreeRowOf<Seq<char>>;

impl View for WorktreeRowOf<String> {
    type V = RowView;

    open spec fn view(&self) -> RowView {
        WorktreeRowOf {
            project: self.project@,
            branch: self.branch@,
            age: self.age@,
            pr_status: self.pr_status@,
            agent_status: self.agent_status@,
            mux_status: self.mux_status@,
            unmerged_status: self.unmerged_status@,
            path_str: self.path_str@,
        }
    }
}

/// An entry of the machine-readable listing, over texts `S` and lists of statuses `L`.
pub struct JsonWorktreeOf<S, L> {
    pub project: S,
    pub project_path: S,
    pub handle: S,
    pub branch: S,
    pub path: S,
    pub is_main: bool,
    pub mode: S,
    pub has_uncommitted_changes: bool,
    pub is_open: bool,
    pub agent_statuses: L,
    pub created_at: Option<u64>,
}

/// An entry of the machine-readable listing.
pub type JsonWorktree = JsonWorktreeOf<String, Vec<AgentStatus>>;

/// The value of a [`JsonWorktree`].
pub type JsonView = JsonWorktreeOf<Seq<char>, Seq<AgentStatus>>;

impl View for JsonWorktreeOf<String, Vec<AgentStatus>> {
    type V = JsonView;

    open spec fn view(&self) -> JsonView {
        JsonWorktreeOf {
            project: self.project@,
            project_path: self.project_path@,
            handle: self.handle@,
            branch: self.branch@,
            path: self.path@,
            is_main: self.is_main,
            mode: self.mode@,
            has_uncommitted_changes: self.has_uncommitted_changes,
            is_open: self.is_open,
            agent_statuses: self.agent_statuses@,
            created_at: self.created_at,
        }
    }
}

/// The icon and the colour of a pull request: gray for a draft, green for an open one, purple
/// for a merged one, red for a closed one, and as for an open one in any other state.
pub open spec fn pr_mark(pr: PrSummary, icons: PrIcons) -> (Seq<char>, Seq<char>) {
    if pr.state@ == "OPEN"@ && pr.is_draft {
        (icons.draft@, "\x1b[90m"@)
    } else if pr.state@ == "MERGED"@ {
        (icons.merged@, "\x1b[35m"@)
    } else if pr.state@ == "CLOSED"@ {
        (icons.closed@, "\x1b[31m"@)
    } else {
        (icons.open@, "\x1b[32m"@)
    }
}

/// How a pull request is shown.
pub open spec fn pr_text(pr: Option<PrSummary>, icons: PrIcons) -> Seq<char> {
    match pr {
        Some(pr) => {
            let (icon, color) = pr_mark(pr, icons);
            "#"@ + decimal_text(pr.number as nat) + " "@ + color + icon + "\x1b[0m"@
        },
        None => "-"@,
    }
}

/// Shows a pull request.
pub fn format_pr_status(pr_info: &Option<PrSummary>, icons: &PrIcons) -> (res: String)
    ensures
        res@ == pr_text(*pr_info, *icons),
{
    match pr_info {
        Some(pr) => {
            let state = pr.state.as_str();
            proof {
                reveal_strlit("OPEN");
                reveal_strlit("MERGED");
                reveal_strlit("CLOSED");
            }
            let (icon, color) = if same_text(state, "OPEN") && pr.is_draft {
                (icons.draft.as_str(), "\x1b[90m")
            } else if same_text(state, "MERGED") {
                (icons.merged.as_str(), "\x1b[35m")
            } else if same_text(state, "CLOSED") {
                (icons.closed.as_str(), "\x1b[31m")
            } else {
                (icons.open.as_str(), "\x1b[32m")
            };
            "#".to_owned().concat(decimal(pr.number).as_str()).concat(" ").concat(color).concat(
                icon,
            ).concat("\x1b[0m")
        },
        None => "-".to_owned(),
    }
}

/// How what an agent is doing is shown: by an icon, or by a word.
pub open spec fn status_label(
    status: AgentStatus,
    icons: StatusIcons,
    use_icons: bool,
) -> Seq<char> {
    match status {
        AgentStatus::Working => if use_icons {
            icons.working@
        } else {
            "working"@
        },
        AgentStatus::Waiting => if use_icons {
            icons.waiting@
        } else {
            "waiting"@
        },
        AgentStatus::Done => if use_icons {
            icons.done@
        } else {
            "done"@
        },
    }
}

/// Shows what one agent is doing, as an icon on a terminal and as a word elsewhere.
pub fn format_status_label(status: AgentStatus, icons: &StatusIcons, use_icons: bool) -> (res:
    String)
    ensures
        res@ == status_label(status, *icons, use_icons),
{
    if use_icons {
        match status {
            AgentStatus::Working => icons.working.clone(),
            AgentStatus::Waiting => icons.waiting.clone(),
            AgentStatus::Done => icons.done.clone(),
        }
    } else {
        match status {
            AgentStatus::Working => "working".to_owned(),
            AgentStatus::Waiting => "waiting".to_owned(),
            AgentStatus::Done => "done".to_owned(),
        }
    }
}

/// How many agents are doing the same.
pub open spec fn how_many(statuses: Seq<AgentStatus>, status: AgentStatus) -> nat
    decreases statuses.len(),
{
    if statuses.len() == 0 {
        0
    } else {
        how_many(statuses.drop_last(), status) + (if statuses.last() == status {
            1nat
        } else {
            0
        })
    }
}

/// How many agents are doing the same, if any, as a part of the breakdown.
pub open spec fn breakdown_part(
    statuses: Seq<AgentStatus>,
    status: AgentStatus,
    icons: StatusIcons,
    use_icons: bool,
) -> Seq<Seq<char>> {
    if how_many(statuses, status) > 0 {
        seq![decimal_text(how_many(statuses, status)) + status_label(status, icons, use_icons)]
    } else {
        seq![]
    }
}

/// How what the agents of a worktree are doing is shown: a dash for none, the label for one,
/// and for more how many are doing what.
pub open spec fn agents_text(
    statuses: Seq<AgentStatus>,
    icons: StatusIcons,
    use_icons: bool,
) -> Seq<char> {
    if statuses.len() == 0 {
        "-"@
    } else if statuses.len() == 1 {
        status_label(statuses[0], icons, use_icons)
    } else {
        joined(
            breakdown_part(statuses, AgentStatus::Working, icons, use_icons) + breakdown_part(
                statuses,
                AgentStatus::Waiting,
                icons,
                use_icons,
            ) + breakdown_part(statuses, AgentStatus::Done, icons, use_icons),
            " "@,
        )
    }
}

/// What the agents of a worktree are doing; nothing where nothing is known.
pub open spec fn statuses_of(summary: Option<AgentStatusSummary>) -> Seq<AgentStatus> {
    match summary {
        Some(summary) => summary.statuses@,
        None => Seq::empty(),
    }
}

fn count_status(statuses: &Vec<AgentStatus>, status: AgentStatus) -> (res: usize)
    ensures
        res == how_many(statuses@, status),
{
    let mut count: usize = 0;
    for i in 0..statuses.len()
        invariant
            count == how_many(statuses@.take(i as int), status),
            count <= i,
    {
        assert(statuses@.take(i + 1).drop_last() =~= statuses@.take(i as int));
        if statuses[i] == status {
            count = count + 1;
        }
    }
    assert(statuses@.take(statuses@.len() as int) =~= statuses@);
    count
}

fn with_breakdown_part(
    parts: Vec<String>,
    statuses: &Vec<AgentStatus>,
    status: AgentStatus,
    icons: &StatusIcons,
    use_icons: bool,
) -> (res: Vec<String>)
    ensures
        texts(res@) == texts(parts@) + breakdown_part(statuses@, status, *icons, use_icons),
{
    let count: usize = count_status(statuses, status);
    if count > 0 {
        let label = format_status_label(status, icons, use_icons);
        let part = decimal(count as u64).concat(label.as_str());
        let res = with_text(parts, part.as_str());
        assert(texts(res@) =~= texts(parts@) + breakdown_part(
            statuses@,
            status,
            *icons,
            use_icons,
        ));
        res
    } else {
        assert(texts(parts@) =~= texts(parts@) + breakdown_part(
            statuses@,
            status,
            *icons,
            use_icons,
        ));
        parts
    }
}

/// Shows what the agents of a worktree are doing.
pub fn format_agent_status(
    summary: &Option<AgentStatusSummary>,
    icons: &StatusIcons,
    use_icons: bool,
) -> (res: String)
    ensures
        res@ == agents_text(statuses_of(*summary), *icons, use_icons),
{
    match summary {
        Some(summary) => {
            let total = summary.statuses.len();
            if total == 0 {
                "-".to_owned()
            } else if total == 1 {
                format_status_label(summary.statuses[0], icons, use_icons)
            } else {
                let parts: Vec<String> = Vec::new();
                assert(texts(parts@) =~= Seq::<Seq<char>>::empty());
                let parts = with_breakdown_part(
                    parts,
                    &summary.statuses,
                    AgentStatus::Working,
                    icons,
                    use_icons,
                );
                assert(texts(parts@) =~= breakdown_part(
                    summary.statuses@,
                    AgentStatus::Working,
                    *icons,
                    use_icons,
                ));
                let parts = with_breakdown_part(
                    parts,
                    &summary.statuses,
                    AgentStatus::Waiting,
                    icons,
                    use_icons,
                );
                let parts = with_breakdown_part(
                    parts,
                    &summary.statuses,
                    AgentStatus::Done,
                    icons,
                    use_icons,
                );
                join(&parts, " ")
            }
        },
        None => "-".to_owned(),
    }
}

/// The breakdown leaves no agent out: the three counts make up the whole.
pub proof fn breakdown_is_complete(statuses: Seq<AgentStatus>)
    ensures
        how_many(statuses, AgentStatus::Working) + how_many(statuses, AgentStatus::Waiting)
            + how_many(statuses, AgentStatus::Done) == statuses.len(),
    decreases statuses.len(),
{
    if statuses.len() > 0 {
        breakdown_is_complete(statuses.drop_last());
    }
}

/// The name of the project at `root`: the name of its directory, else the whole path.
pub open spec fn project_name_text(root: PathView) -> Seq<char> {
    match root.file_name() {
        Some(name) => name.text,
        None => root.text,
    }
}

/// The name of the project at `root`.
pub fn project_name(root: &WorkspacePath) -> (res: String)
    ensures
        res@ == project_name_text(root@),
{
    match root.file_name() {
        Some(name) => name.text.clone(),
        None => root.text.clone(),
    }
}

/// The worktrees of the project at `root`, each with the project.
pub fn list_project(root: &WorkspacePath, worktrees: Vec<WorktreeInfo>) -> (res: Vec<
    ProjectWorktree,
>)
    ensures
        res@.len() == worktrees@.len(),
        forall|i: int|
            0 <= i < worktrees@.len() ==> listed(#[trigger] res@[i], *root, worktrees@[i]),
{
    let project = project_name(root);
    let mut res: Vec<ProjectWorktree> = Vec::new();
    for worktree in it: worktrees
        invariant
            project@ == project_name_text(root@),
            it.seq() == worktrees@,
            res@.len() == it.index(),
            forall|i: int|
                0 <= i < it.index() ==> listed(#[trigger] res@[i], *root, worktrees@[i]),
    {
        res.push(
            ProjectWorktree { project: project.clone(), project_path: root.clone(), worktree },
        );
    }
    res
}

/// Whether `entry` is `worktree`, listed under the project at `root`.
pub open spec fn listed(
    entry: ProjectWorktree,
    root: WorkspacePath,
    worktree: WorktreeInfo,
) -> bool {
    &&& entry.worktree == worktree
    &&& entry.project@ == project_name_text(root@)
    &&& entry.project_path@ == root@
}

/// Adds the worktrees of the project at `root` to a listing, behind those of the projects before
/// it. Where they could not be found out, the listing ends with that error.
pub fn add_project<E>(
    listing: Vec<ProjectWorktree>,
    root: &WorkspacePath,
    worktrees: Result<Vec<WorktreeInfo>, E>,
) -> (res: Result<Vec<ProjectWorktree>, E>)
    ensures
        match worktrees {
            Ok(worktrees) => res matches Ok(longer) && {
                &&& longer@.len() == listing@.len() + worktrees@.len()
                &&& longer@.take(listing@.len() as int) == listing@
                &&& forall|i: int|
                    0 <= i < worktrees@.len() ==> listed(
                        longer@[listing@.len() + i],
                        *root,
                        #[trigger] worktrees@[i],
                    )
            },
            Err(error) => res == Err::<Vec<ProjectWorktree>, E>(error),
        },
{
    match worktrees {
        Ok(worktrees) => {
            let mut longer = listing;
            let mut more = list_project(root, worktrees);
            let ghost added = more@;
            longer.append(&mut more);
            assert(longer@ == listing@ + added);
            assert(longer@.take(listing@.len() as int) =~= listing@);
            assert forall|i: int| 0 <= i < worktrees@.len() implies listed(
                longer@[listing@.len() + i],
                *root,
                #[trigger] worktrees@[i],
            ) by {
                assert(longer@[listing@.len() + i] == added[i]);
            }
            Ok(longer)
        },
        Err(error) => Err(error),
    }
}

/// Whether a listing looks up pull requests: a machine-readable one never does.
pub fn looks_up_pull_requests(show_pr: bool, json: bool) -> (res: bool)
    ensures
        res == (show_pr && !json),
{
    show_pr && !json
}

/// How a listing is shown.
pub enum ListingForm {
    /// As a fixed line, since there is nothing to list.
    Line { text: &'static str },
    /// As machine-readable entries.
    Json,
    /// As a table.
    Table,
}

/// How a listing of `count` worktrees is shown.
pub fn listing_form(count: usize, json: bool) -> (res: ListingForm)
    ensures
        match res {
            ListingForm::Line { text } => count == 0 && text@ == (if json {
                "[]"@
            } else {
                "No worktrees found"@
            }),
            ListingForm::Json => count > 0 && json,
            ListingForm::Table => count > 0 && !json,
        },
{
    if count == 0 {
        if json {
            ListingForm::Line { text: "[]" }
        } else {
            ListingForm::Line { text: "No worktrees found" }
        }
    } else if json {
        ListingForm::Json
    } else {
        ListingForm::Table
    }
}

/// The entry of a worktree in the machine-readable listing. `dirty` is whether it has
/// uncommitted changes, if that could be found out; where not, it counts as having some.
pub open spec fn json_of(entry: ProjectWorktree, dirty: Option<bool>) -> JsonView {
    JsonWorktreeOf {
        project: entry.project@,
        project_path: entry.project_path@.text,
        handle: entry.worktree.handle@,
        branch: entry.worktree.branch@,
        path: entry.worktree.path@.text,
        is_main: entry.worktree.is_main,
        mode: mode_value(entry.worktree.mode),
        has_uncommitted_changes: match dirty {
            Some(dirty) => dirty,
            None => true,
        },
        is_open: entry.worktree.has_mux_window,
        agent_statuses: statuses_of(entry.worktree.agent_status),
        created_at: entry.worktree.created_at,
    }
}

/// Makes the entry of a worktree in the machine-readable listing.
pub fn json_worktree(entry: ProjectWorktree, dirty: Option<bool>) -> (res: JsonWorktree)
    ensures
        res@ == json_of(entry, dirty),
{
    let wt = entry.worktree;
    JsonWorktreeOf {
        project: entry.project,
        project_path: entry.project_path.text,
        handle: wt.handle,
        branch: wt.branch,
        path: wt.path.text,
        is_main: wt.is_main,
        mode: wt.mode.as_meta_value().to_owned(),
        has_uncommitted_changes: match dirty {
            Some(dirty) => dirty,
            None => true,
        },
        is_open: wt.has_mux_window,
        agent_statuses: match wt.agent_status {
            Some(summary) => summary.statuses,
            None => Vec::new(),
        },
        created_at: wt.created_at,
    }
}

/// The machine-readable listing. Each worktree comes with whether it has uncommitted changes, if
/// that could be found out.
pub fn json_listing(worktrees: Vec<(ProjectWorktree, Option<bool>)>) -> (res: Vec<JsonWorktree>)
    ensures
        res@.len() == worktrees@.len(),
        forall|i: int|
            0 <= i < res@.len() ==> (#[trigger] res@[i])@ == json_of(
                worktrees@[i].0,
                worktrees@[i].1,
            ),
{
    let mut res: Vec<JsonWorktree> = Vec::new();
    for entry in it: worktrees
        invariant
            it.seq() == worktrees@,
            res@.len() == it.index(),
            forall|i: int|
                0 <= i < res@.len() ==> (#[trigger] res@[i])@ == json_of(
                    worktrees@[i].0,
                    worktrees@[i].1,
                ),
    {
        let (worktree, dirty) = entry;
        res.push(json_worktree(worktree, dirty));
    }
    res
}

/// The age of a worktree in seconds, where one is shown: not for the main worktree, nor where
/// it is not known when it was created. A time of creation in the future counts as now.
pub open spec fn age_of(worktree: WorktreeInfo, now: u64) -> Option<u64> {
    match worktree.created_at {
        Some(created_at) => if worktree.is_main {
            None
        } else if created_at <= now {
            Some((now - created_at) as u64)
        } else {
            Some(0)
        },
        None => None,
    }
}

/// The age of a worktree in seconds, where one is shown.
pub fn worktree_age(worktree: &WorktreeInfo, now: u64) -> (res: Option<u64>)
    ensures
        res == age_of(*worktree, now),
{
    if worktree.is_main {
        return None;
    }
    match worktree.created_at {
        Some(created_at) => Some(now.saturating_sub(created_at)),
        None => None,
    }
}

/// How and for whom the table is made.
pub struct TableStyle {
    /// The directory that paths are shown from.
    pub cwd: WorkspacePath,
    pub status_icons: StatusIcons,
    pub pr_icons: PrIcons,
    /// Whether icons stand for what agents are doing.
    pub use_icons: bool,
}

/// The line of a worktree in the table. `age` is its age, where one is shown.
pub open spec fn row_of(
    entry: ProjectWorktree,
    age: Option<Seq<char>>,
    style: TableStyle,
) -> RowView {
    WorktreeRowOf {
        project: entry.project@,
        branch: entry.worktree.branch@,
        age: match age {
            Some(age) => age,
            None => "-"@,
        },
        pr_status: pr_text(entry.worktree.pr_info, style.pr_icons),
        agent_status: agents_text(
            statuses_of(entry.worktree.agent_status),
            style.status_icons,
            style.use_icons,
        ),
        mux_status: if entry.worktree.has_mux_window {
            "✓"@
        } else {
            "-"@
        },
        unmerged_status: if entry.worktree.has_unmerged {
            "●"@
        } else {
            "-"@
        },
        path_str: path_label_text(entry.worktree.path@, style.cwd@),
    }
}

/// Makes the line of a worktree in the table.
pub fn worktree_row(entry: &ProjectWorktree, age: &Option<String>, style: &TableStyle) -> (res:
    WorktreeRow)
    requires
        entry.worktree.path@.well_formed(),
        style.cwd@.well_formed(),
        style.cwd@.is_absolute(),
    ensures
        res@ == row_of(*entry, opt_text(*age), *style),
{
    let wt = &entry.worktree;
    WorktreeRowOf {
        project: entry.project.clone(),
        branch: wt.branch.clone(),
        age: match age {
            Some(age) => age.clone(),
            None => "-".to_owned(),
        },
        pr_status: format_pr_status(&wt.pr_info, &style.pr_icons),
        agent_status: format_agent_status(&wt.agent_status, &style.status_icons, style.use_icons),
        mux_status: if wt.has_mux_window {
            "✓".to_owned()
        } else {
            "-".to_owned()
        },
        unmerged_status: if wt.has_unmerged {
            "●".to_owned()
        } else {
            "-".to_owned()
        },
        path_str: path_label(&wt.path, &style.cwd),
    }
}

/// Whether every worktree lies at a path that can be shown.
pub open spec fn showable(worktrees: Seq<(ProjectWorktree, Option<String>)>) -> bool {
    forall|i: int|
        0 <= i < worktrees.len() ==> (#[trigger] worktrees[i]).0.worktree.path@.well_formed()
}

/// The lines of the table for `worktrees`, each with its age where one is shown.
pub open spec fn rows_of(
    worktrees: Seq<(ProjectWorktree, Option<String>)>,
    style: TableStyle,
) -> Seq<RowView> {
    worktrees.map_values(
        |w: (ProjectWorktree, Option<String>)| row_of(w.0, opt_text(w.1), style),
    )
}

/// The values of a list of lines.
pub open spec fn row_views(rows: Seq<WorktreeRow>) -> Seq<RowView> {
    rows.map_values(|r: WorktreeRow| r@)
}

/// Makes the lines of the table, one for each worktree.
pub fn worktree_rows(
    worktrees: &Vec<(ProjectWorktree, Option<String>)>,
    style: &TableStyle,
) -> (res: Vec<WorktreeRow>)
    requires
        showable(worktrees@),
        style.cwd@.well_formed(),
        style.cwd@.is_absolute(),
    ensures
        row_views(res@) == rows_of(worktrees@, *style),
{
    let mut res: Vec<WorktreeRow> = Vec::new();
    for i in 0..worktrees.len()
        invariant
            showable(worktrees@),
            style.cwd@.well_formed(),
            style.cwd@.is_absolute(),
            res@.len() == i,
            forall|j: int|
                0 <= j < res@.len() ==> (#[trigger] res@[j])@ == row_of(
                    worktrees@[j].0,
                    opt_text(worktrees@[j].1),
                    *style,
                ),
    {
        assert(worktrees@[i as int].0.worktree.path@.well_formed());
        res.push(worktree_row(&worktrees[i].0, &worktrees[i].1, style));
    }
    assert(row_views(res@) =~= rows_of(worktrees@, *style));
    res
}

} // verus!
