//! What holds of every listing.

use crate::list::{
    age_of, agents_text, how_many, json_of, listed, pr_text, project_name_text, row_of, row_views,
    rows_of, showable, status_label, statuses_of, AgentStatus, AgentStatusSummary, PrIcons,
    PrSummary, ProjectWorktree, StatusIcons, TableStyle, WorktreeInfo, WorktreeRow,
};
use crate::meta::MuxMode;
use crate::paths::{NameView, PartView, PathView, WorkspacePath};
use crate::relative::path_label_text;
use crate::text::decimal_text;
use vstd::prelude::*;

verus! {

/// A machine-readable entry says that a worktree has uncommitted changes exactly if its status
/// is dirty or could not be found out.
pub proof fn changes_are_reported_unless_ruled_out(entry: ProjectWorktree, dirty: Option<bool>)
    ensures
        json_of(entry, dirty).has_uncommitted_changes <==> dirty != Some(false),
        dirty matches Some(d) ==> json_of(entry, dirty).has_uncommitted_changes == d,
        dirty is None ==> json_of(entry, dirty).has_uncommitted_changes,
{
}

/// A machine-readable entry holds, field by field, what is known of the worktree and its
/// project, and only the uncommitted changes depend on the status.
pub proof fn entry_holds_what_is_known(entry: ProjectWorktree, dirty: Option<bool>)
    ensures
        json_of(entry, dirty).project == entry.project@,
        json_of(entry, dirty).project_path == entry.project_path.text@,
        json_of(entry, dirty).handle == entry.worktree.handle@,
        json_of(entry, dirty).branch == entry.worktree.branch@,
        json_of(entry, dirty).path == entry.worktree.path.text@,
        json_of(entry, dirty).is_main == entry.worktree.is_main,
        json_of(entry, dirty).is_open == entry.worktree.has_mux_window,
        json_of(entry, dirty).created_at == entry.worktree.created_at,
        entry.worktree.mode == MuxMode::Window ==> json_of(entry, dirty).mode == "window"@,
        entry.worktree.mode == MuxMode::Session ==> json_of(entry, dirty).mode == "session"@,
        entry.worktree.agent_status matches Some(summary) ==> json_of(entry, dirty).agent_statuses
            == summary.statuses@,
        entry.worktree.agent_status is None ==> json_of(entry, dirty).agent_statuses.len() == 0,
{
}

/// The cell for unmerged commits shows a dot exactly if the worktree has some, and depends on
/// nothing else; the cell for the window shows a tick exactly if one is open, and depends on
/// nothing else.
pub proof fn marks_show_their_own_fact(
    entry: ProjectWorktree,
    age: Option<Seq<char>>,
    style: TableStyle,
    other: ProjectWorktree,
    other_age: Option<Seq<char>>,
    other_style: TableStyle,
)
    ensures
        entry.worktree.has_unmerged ==> row_of(entry, age, style).unmerged_status == "●"@,
        !entry.worktree.has_unmerged ==> row_of(entry, age, style).unmerged_status == "-"@,
        entry.worktree.has_mux_window ==> row_of(entry, age, style).mux_status == "✓"@,
        !entry.worktree.has_mux_window ==> row_of(entry, age, style).mux_status == "-"@,
        row_of(entry, age, style).unmerged_status == row_of(
            other,
            other_age,
            other_style,
        ).unmerged_status <==> entry.worktree.has_unmerged == other.worktree.has_unmerged,
        row_of(entry, age, style).mux_status == row_of(other, other_age, other_style).mux_status
            <==> entry.worktree.has_mux_window == other.worktree.has_mux_window,
{
    reveal_strlit("●");
    reveal_strlit("✓");
    reveal_strlit("-");
    assert("●"@[0] == '●');
    assert("✓"@[0] == '✓');
    assert("-"@[0] == '-');
}

/// Each of the other cells of a line shows its own fact: the project, the branch, the age or a
/// dash, the pull request, the agents, and the path as seen from the current directory.
pub proof fn cells_show_their_own_fact(
    entry: ProjectWorktree,
    age: Option<Seq<char>>,
    style: TableStyle,
)
    ensures
        row_of(entry, age, style).project == entry.project@,
        row_of(entry, age, style).branch == entry.worktree.branch@,
        age matches Some(text) ==> row_of(entry, age, style).age == text,
        age is None ==> row_of(entry, age, style).age == "-"@,
        row_of(entry, age, style).pr_status == pr_text(entry.worktree.pr_info, style.pr_icons),
        entry.worktree.agent_status matches Some(summary) ==> row_of(entry, age, style).agent_status
            == agents_text(summary.statuses@, style.status_icons, style.use_icons),
        entry.worktree.agent_status is None ==> row_of(entry, age, style).agent_status == "-"@,
        row_of(entry, age, style).path_str == path_label_text(
            entry.worktree.path@,
            style.cwd@,
        ),
{
}

/// A table has one line for each worktree, in order, each made of the worktree and its age.
pub proof fn rows_follow_the_worktrees(
    worktrees: Seq<(ProjectWorktree, Option<String>)>,
    style: TableStyle,
    i: int,
)
    requires
        0 <= i < worktrees.len(),
    ensures
        rows_of(worktrees, style).len() == worktrees.len(),
        worktrees[i].1 matches Some(age) ==> rows_of(worktrees, style)[i] == row_of(
            worktrees[i].0,
            Some(age@),
            style,
        ),
        worktrees[i].1 is None ==> rows_of(worktrees, style)[i] == row_of(
            worktrees[i].0,
            None,
            style,
        ),
        showable(worktrees) ==> worktrees[i].0.worktree.path@.well_formed(),
{
}

/// The values of lines are their texts, cell by cell.
pub proof fn row_values_are_their_texts(rows: Seq<WorktreeRow>, i: int)
    requires
        0 <= i < rows.len(),
    ensures
        row_views(rows).len() == rows.len(),
        row_views(rows)[i].project == rows[i].project@,
        row_views(rows)[i].branch == rows[i].branch@,
        row_views(rows)[i].age == rows[i].age@,
        row_views(rows)[i].pr_status == rows[i].pr_status@,
        row_views(rows)[i].agent_status == rows[i].agent_status@,
        row_views(rows)[i].mux_status == rows[i].mux_status@,
        row_views(rows)[i].unmerged_status == rows[i].unmerged_status@,
        row_views(rows)[i].path_str == rows[i].path_str@,
{
}

/// A pull request is shown by its number and an icon in a colour: a draft that is open in gray,
/// a merged one in purple, a closed one in red, and every other one in green as an open one.
/// Where there is none, a dash is shown.
pub proof fn pull_request_shows_number_and_state(pr: PrSummary, icons: PrIcons)
    ensures
        pr_text(None, icons) == "-"@,
        pr.state@ == "OPEN"@ && pr.is_draft ==> pr_text(Some(pr), icons) == "#"@ + decimal_text(
            pr.number as nat,
        ) + " "@ + "\x1b[90m"@ + icons.draft@ + "\x1b[0m"@,
        pr.state@ == "OPEN"@ && !pr.is_draft ==> pr_text(Some(pr), icons) == "#"@ + decimal_text(
            pr.number as nat,
        ) + " "@ + "\x1b[32m"@ + icons.open@ + "\x1b[0m"@,
        pr.state@ == "MERGED"@ ==> pr_text(Some(pr), icons) == "#"@ + decimal_text(
            pr.number as nat,
        ) + " "@ + "\x1b[35m"@ + icons.merged@ + "\x1b[0m"@,
        pr.state@ == "CLOSED"@ ==> pr_text(Some(pr), icons) == "#"@ + decimal_text(
            pr.number as nat,
        ) + " "@ + "\x1b[31m"@ + icons.closed@ + "\x1b[0m"@,
        pr.state@ != "OPEN"@ && pr.state@ != "MERGED"@ && pr.state@ != "CLOSED"@ ==> pr_text(
            Some(pr),
            icons,
        ) == "#"@ + decimal_text(pr.number as nat) + " "@ + "\x1b[32m"@ + icons.open@
            + "\x1b[0m"@,
{
    reveal_strlit("OPEN");
    reveal_strlit("MERGED");
    reveal_strlit("CLOSED");
    assert("OPEN"@.len() == 4 && "MERGED"@.len() == 6 && "CLOSED"@.len() == 6);
    assert("MERGED"@[0] == 'M' && "CLOSED"@[0] == 'C');
}

/// What an agent is doing is shown by the icon for it or by the word for it.
pub proof fn status_is_an_icon_or_a_word(icons: StatusIcons)
    ensures
        status_label(AgentStatus::Working, icons, true) == icons.working@,
        status_label(AgentStatus::Waiting, icons, true) == icons.waiting@,
        status_label(AgentStatus::Done, icons, true) == icons.done@,
        status_label(AgentStatus::Working, icons, false) == "working"@,
        status_label(AgentStatus::Waiting, icons, false) == "waiting"@,
        status_label(AgentStatus::Done, icons, false) == "done"@,
{
}

/// One more agent counts for what it is doing, and for nothing else; of none, none is counted.
pub proof fn counts_grow_by_one(
    statuses: Seq<AgentStatus>,
    next: AgentStatus,
    status: AgentStatus,
)
    ensures
        how_many(Seq::<AgentStatus>::empty(), status) == 0,
        next == status ==> how_many(statuses.push(next), status) == how_many(statuses, status) + 1,
        next != status ==> how_many(statuses.push(next), status) == how_many(statuses, status),
{
    assert(statuses.push(next).drop_last() =~= statuses);
}

/// No agents are shown as a dash, one agent by its label, and more agents by how many are doing
/// what: the working ones, the waiting ones, then those that are done, without those that are
/// none, with one space between them.
pub proof fn agents_are_broken_down(
    statuses: Seq<AgentStatus>,
    icons: StatusIcons,
    use_icons: bool,
)
    ensures
        statuses.len() == 0 ==> agents_text(statuses, icons, use_icons) == "-"@,
        statuses.len() == 1 ==> agents_text(statuses, icons, use_icons) == status_label(
            statuses[0],
            icons,
            use_icons,
        ),
        statuses.len() > 1 ==> {
            let w = how_many(statuses, AgentStatus::Working);
            let t = how_many(statuses, AgentStatus::Waiting);
            let d = how_many(statuses, AgentStatus::Done);
            let working = decimal_text(w) + status_label(AgentStatus::Working, icons, use_icons);
            let waiting = decimal_text(t) + status_label(AgentStatus::Waiting, icons, use_icons);
            let done = decimal_text(d) + status_label(AgentStatus::Done, icons, use_icons);
            let text = agents_text(statuses, icons, use_icons);
            &&& w > 0 && t > 0 && d > 0 ==> text == working + " "@ + waiting + " "@ + done
            &&& w > 0 && t > 0 && d == 0 ==> text == working + " "@ + waiting
            &&& w > 0 && t == 0 && d > 0 ==> text == working + " "@ + done
            &&& w > 0 && t == 0 && d == 0 ==> text == working
            &&& w == 0 && t > 0 && d > 0 ==> text == waiting + " "@ + done
            &&& w == 0 && t > 0 && d == 0 ==> text == waiting
            &&& w == 0 && t == 0 && d > 0 ==> text == done
        },
{
    if statuses.len() > 1 {
        let w = how_many(statuses, AgentStatus::Working);
        let t = how_many(statuses, AgentStatus::Waiting);
        let d = how_many(statuses, AgentStatus::Done);
        let working = decimal_text(w) + status_label(AgentStatus::Working, icons, use_icons);
        let waiting = decimal_text(t) + status_label(AgentStatus::Waiting, icons, use_icons);
        let done = decimal_text(d) + status_label(AgentStatus::Done, icons, use_icons);
        let parts = crate::list::breakdown_part(
            statuses,
            AgentStatus::Working,
            icons,
            use_icons,
        ) + crate::list::breakdown_part(statuses, AgentStatus::Waiting, icons, use_icons)
            + crate::list::breakdown_part(statuses, AgentStatus::Done, icons, use_icons);
        crate::text::one_text_stays(working, " "@);
        crate::text::one_text_stays(waiting, " "@);
        crate::text::one_text_stays(done, " "@);
        if w > 0 && t > 0 && d > 0 {
            assert(parts =~= seq![working, waiting, done]);
            crate::text::texts_are_joined(seq![working, waiting], done, " "@);
            crate::text::texts_are_joined(seq![working], waiting, " "@);
            assert(seq![working, waiting].push(done) =~= parts);
            assert(seq![working].push(waiting) =~= seq![working, waiting]);
        } else if w > 0 && t > 0 {
            assert(parts =~= seq![working].push(waiting));
            crate::text::texts_are_joined(seq![working], waiting, " "@);
        } else if w > 0 && d > 0 {
            assert(parts =~= seq![working].push(done));
            crate::text::texts_are_joined(seq![working], done, " "@);
        } else if t > 0 && d > 0 {
            assert(parts =~= seq![waiting].push(done));
            crate::text::texts_are_joined(seq![waiting], done, " "@);
        } else if w > 0 {
            assert(parts =~= seq![working]);
        } else if t > 0 {
            assert(parts =~= seq![waiting]);
        } else if d > 0 {
            assert(parts =~= seq![done]);
        }
    }
}

/// What is known of the agents is what was found out of them; nothing where nothing was.
pub proof fn known_agents_are_those_found(summary: AgentStatusSummary)
    ensures
        statuses_of(Some(summary)) == summary.statuses@,
        statuses_of(None) == Seq::<AgentStatus>::empty(),
{
}

/// A project is called like the last component of its path where that is a name, else like the
/// whole path.
pub proof fn project_is_called_like_its_directory(root: PathView, name: NameView)
    ensures
        root.parts.len() > 0 && root.parts[root.parts.len() - 1] == PartView::Normal(name)
            ==> project_name_text(root) == name.text,
        root.parts.len() == 0 ==> project_name_text(root) == root.text,
        root.parts.len() > 0 && !(root.parts[root.parts.len() - 1] is Normal)
            ==> project_name_text(root) == root.text,
{
}

/// A listed worktree is the worktree itself, with the name and the path of its project.
pub proof fn listed_worktree_has_its_project(
    entry: ProjectWorktree,
    root: WorkspacePath,
    worktree: WorktreeInfo,
)
    ensures
        listed(entry, root, worktree) <==> {
            &&& entry.worktree == worktree
            &&& entry.project@ == project_name_text(root@)
            &&& entry.project_path@ == root@
        },
{
}

/// The main worktree has no age, nor has one of which it is not known when it was created. The
/// others are as old as the time that has passed since, and never less than nothing.
pub proof fn age_is_the_time_since_creation(worktree: WorktreeInfo, now: u64)
    ensures
        worktree.is_main ==> age_of(worktree, now) is None,
        worktree.created_at is None ==> age_of(worktree, now) is None,
        !worktree.is_main ==> (worktree.created_at matches Some(created) ==> {
            &&& age_of(worktree, now) matches Some(age)
            &&& created <= now ==> age + created == now
            &&& created > now ==> age == 0
        }),
{
}

} // verus!
