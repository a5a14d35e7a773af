use std::borrow::Cow;
use std::path::{Component, Path};
use tabled::settings::disable::Remove;
use tabled::settings::location::ByColumnName;
use tabled::settings::object::Columns;
use tabled::settings::{Padding, Style};
use tabled::{Table, Tabled};
use workmux::list::{
    add_project, format_agent_status, format_pr_status, format_status_label, json_listing,
    list_project, listing_form, looks_up_pull_requests, project_name, worktree_age, worktree_rows,
    AgentStatus, AgentStatusSummary, ListingForm, PrIcons, PrSummary, ProjectWorktree, StatusIcons,
    TableStyle, WorktreeInfo, WorktreeRow, WorktreeRowOf,
};
use workmux::meta::MuxMode;
use workmux::paths::{PathName, PathPart, WorkspacePath};
use workmux::printable::is_printable;
use workmux::table::{
    is_listing_printable, is_table_printable, render_table, table_listing, table_records,
};

fn path(text: &str) -> WorkspacePath {
    let parts = Path::new(text)
        .components()
        .map(|part| match part {
            Component::RootDir => PathPart::Root,
            Component::CurDir => PathPart::Current,
            Component::ParentDir => PathPart::Parent,
            Component::Normal(name) => PathPart::Normal(PathName {
                bytes: name.as_encoded_bytes().to_vec(),
                text: name.to_string_lossy().into_owned(),
            }),
            Component::Prefix(_) => unreachable!(),
        })
        .collect();
    WorkspacePath { text: text.to_string(), parts }
}

fn status_icons() -> StatusIcons {
    StatusIcons { working: "W".to_string(), waiting: "?".to_string(), done: "D".to_string() }
}

fn pr_icons() -> PrIcons {
    PrIcons {
        draft: "d".to_string(),
        open: "o".to_string(),
        merged: "m".to_string(),
        closed: "c".to_string(),
    }
}

fn pr(state: &str, is_draft: bool) -> Option<PrSummary> {
    Some(PrSummary { number: 42, state: state.to_string(), is_draft })
}

fn agents(statuses: &[AgentStatus]) -> Option<AgentStatusSummary> {
    Some(AgentStatusSummary { statuses: statuses.to_vec() })
}

fn worktree(branch: &str) -> WorktreeInfo {
    WorktreeInfo {
        handle: format!("{branch}-wt"),
        branch: branch.to_string(),
        path: path(&format!("/w/{branch}-wt")),
        is_main: false,
        mode: MuxMode::Window,
        has_mux_window: false,
        has_unmerged: false,
        agent_status: None,
        created_at: None,
        pr_info: None,
    }
}

fn style() -> TableStyle {
    TableStyle {
        cwd: path("/w/one-wt"),
        status_icons: status_icons(),
        pr_icons: pr_icons(),
        use_icons: false,
    }
}

#[test]
fn pull_requests_are_coloured_by_state() {
    let icons = pr_icons();
    assert_eq!(format_pr_status(&None, &icons), "-");
    assert_eq!(format_pr_status(&pr("OPEN", true), &icons), "#42 \x1b[90md\x1b[0m");
    assert_eq!(format_pr_status(&pr("OPEN", false), &icons), "#42 \x1b[32mo\x1b[0m");
    assert_eq!(format_pr_status(&pr("MERGED", true), &icons), "#42 \x1b[35mm\x1b[0m");
    assert_eq!(format_pr_status(&pr("CLOSED", false), &icons), "#42 \x1b[31mc\x1b[0m");
    assert_eq!(format_pr_status(&pr("LOCKED", true), &icons), "#42 \x1b[32mo\x1b[0m");
}

#[test]
fn statuses_are_icons_or_words() {
    let icons = status_icons();
    let cases = [
        (AgentStatus::Working, "W", "working"),
        (AgentStatus::Waiting, "?", "waiting"),
        (AgentStatus::Done, "D", "done"),
    ];
    for (status, icon, word) in cases {
        assert_eq!(format_status_label(status, &icons, true), icon);
        assert_eq!(format_status_label(status, &icons, false), word);
    }
}

#[test]
fn several_agents_are_counted() {
    let (done, waiting, working) = (AgentStatus::Done, AgentStatus::Waiting, AgentStatus::Working);
    let icons = status_icons();
    assert_eq!(format_agent_status(&None, &icons, true), "-");
    assert_eq!(format_agent_status(&agents(&[]), &icons, true), "-");
    assert_eq!(format_agent_status(&agents(&[waiting]), &icons, false), "waiting");
    assert_eq!(format_agent_status(&agents(&[waiting]), &icons, true), "?");
    assert_eq!(
        format_agent_status(&agents(&[done, working, done, waiting]), &icons, true),
        "1W 1? 2D"
    );
    assert_eq!(format_agent_status(&agents(&[done, done]), &icons, false), "2done");
    let many = vec![working; 12];
    assert_eq!(format_agent_status(&agents(&many), &icons, false), "12working");
}

#[test]
fn a_project_is_called_like_its_directory() {
    assert_eq!(project_name(&path("/src/tool")), "tool");
    assert_eq!(project_name(&path("/")), "/");
    assert_eq!(project_name(&path("/src/..")), "/src/..");
}

#[test]
fn worktrees_keep_their_order_across_projects() {
    let projects = [
        (path("/p/b"), vec![worktree("one"), worktree("two")]),
        (path("/p/c"), Vec::new()),
        (path("/p/a"), vec![worktree("three")]),
    ];
    let mut listing = Vec::new();
    for (root, worktrees) in projects {
        let found: Result<Vec<WorktreeInfo>, String> = Ok(worktrees);
        listing = add_project(listing, &root, found).ok().unwrap();
    }
    let listed: Vec<(&str, &str, &str)> = listing
        .iter()
        .map(|entry| {
            (
                entry.project.as_str(),
                entry.project_path.text.as_str(),
                entry.worktree.branch.as_str(),
            )
        })
        .collect();
    assert_eq!(listed, [("b", "/p/b", "one"), ("b", "/p/b", "two"), ("a", "/p/a", "three")]);
}

#[test]
fn a_project_that_fails_ends_the_listing() {
    let listing = list_project(&path("/p/b"), vec![worktree("one")]);
    let failed: Result<Vec<WorktreeInfo>, &str> = Err("broken");
    assert_eq!(add_project(listing, &path("/p/a"), failed).err(), Some("broken"));
}

#[test]
fn the_form_of_a_listing() {
    assert!(matches!(listing_form(0, true), ListingForm::Line { text: "[]" }));
    assert!(matches!(listing_form(0, false), ListingForm::Line { text: "No worktrees found" }));
    assert!(matches!(listing_form(1, true), ListingForm::Json));
    assert!(matches!(listing_form(1, false), ListingForm::Table));
}

#[test]
fn only_tables_look_up_pull_requests() {
    assert!(looks_up_pull_requests(true, false));
    assert!(!looks_up_pull_requests(true, true));
    assert!(!looks_up_pull_requests(false, false));
}

#[test]
fn ages_count_from_the_creation() {
    let mut wt = worktree("one");
    assert_eq!(worktree_age(&wt, 100), None);
    wt.created_at = Some(40);
    assert_eq!(worktree_age(&wt, 100), Some(60));
    assert_eq!(worktree_age(&wt, 10), Some(0));
    wt.is_main = true;
    assert_eq!(worktree_age(&wt, 100), None);
}

#[test]
fn json_entries_hold_what_is_known() {
    let mut wt = worktree("one");
    wt.mode = MuxMode::Session;
    wt.has_mux_window = true;
    wt.agent_status = agents(&[AgentStatus::Done]);
    wt.created_at = Some(7);
    let mut listed = list_project(&path("/src/tool"), vec![wt, worktree("two")]).into_iter();
    let first = listed.next().unwrap();
    let second = listed.next().unwrap();
    let entries = json_listing(vec![(first, Some(false)), (second, None)]);
    assert_eq!(entries.len(), 2);
    assert_eq!(entries[0].project, "tool");
    assert_eq!(entries[0].project_path, "/src/tool");
    assert_eq!(entries[0].handle, "one-wt");
    assert_eq!(entries[0].branch, "one");
    assert_eq!(entries[0].path, "/w/one-wt");
    assert!(!entries[0].is_main);
    assert_eq!(entries[0].mode, "session");
    assert!(!entries[0].has_uncommitted_changes);
    assert!(entries[0].is_open);
    assert_eq!(entries[0].agent_statuses, vec![AgentStatus::Done]);
    assert_eq!(entries[0].created_at, Some(7));
    assert_eq!(entries[1].mode, "window");
    assert!(entries[1].has_uncommitted_changes);
    assert!(!entries[1].is_open);
    assert!(entries[1].agent_statuses.is_empty());
    assert_eq!(entries[1].created_at, None);
}

fn sample_entries() -> Vec<(ProjectWorktree, Option<String>)> {
    let mut one = worktree("one");
    one.has_mux_window = true;
    one.pr_info = pr("OPEN", false);
    one.agent_status = agents(&[AgentStatus::Working]);
    let mut two = worktree("a-longer-branch");
    two.has_unmerged = true;
    let ages = [Some("3d".to_string()), None];
    list_project(&path("/src/tool"), vec![one, two]).into_iter().zip(ages).collect()
}

/// A row as `tabled` takes it.
struct Row(WorktreeRow);

impl Tabled for Row {
    const LENGTH: usize = 8;

    fn fields(&self) -> Vec<Cow<'_, str>> {
        self.0.fields().into_iter().map(Cow::Owned).collect()
    }

    fn headers() -> Vec<Cow<'static, str>> {
        WorktreeRow::headers().into_iter().map(Cow::Owned).collect()
    }
}

#[test]
fn rows_hold_what_is_shown() {
    let rows = worktree_rows(&sample_entries(), &style());
    assert_eq!(
        rows[0].fields(),
        ["tool", "one", "3d", "#42 \x1b[32mo\x1b[0m", "working", "✓", "-", "(here)"]
    );
    assert_eq!(
        rows[1].fields(),
        ["tool", "a-longer-branch", "-", "-", "-", "-", "●", "../a-longer-branch-wt"]
    );
    assert_eq!(
        WorktreeRow::headers(),
        ["PROJECT", "BRANCH", "AGE", "PR", "AGENT", "MUX", "UNMERGED", "PATH"]
    );
}

#[test]
fn columns_are_shown_on_request() {
    let rows = worktree_rows(&sample_entries(), &style());
    let plain = table_records(&rows, false, false);
    assert_eq!(plain.len(), 3);
    assert_eq!(plain[0], ["BRANCH", "AGE", "AGENT", "MUX", "UNMERGED", "PATH"]);
    assert_eq!(plain[1], ["one", "3d", "working", "✓", "-", "(here)"]);
    let full = table_records(&rows, true, true);
    assert_eq!(full[0], WorktreeRow::headers());
    assert_eq!(full[2], rows[1].fields());
    assert_eq!(table_records(&rows, true, false)[0][0], "PROJECT");
    assert_eq!(table_records(&rows, false, true)[0][2], "PR");
}

#[test]
fn tables_look_like_filtered_full_tables() {
    for all in [false, true] {
        for show_pr in [false, true] {
            let mut table = Table::new(worktree_rows(&sample_entries(), &style()).into_iter().map(Row));
            table.with(Style::blank()).modify(Columns::new(0..8), Padding::new(0, 1, 0, 0));
            if !all {
                table.with(Remove::column(ByColumnName::new("PROJECT")));
            }
            if !show_pr {
                table.with(Remove::column(ByColumnName::new("PR")));
            }
            assert!(is_listing_printable(&sample_entries(), &style(), all, show_pr));
            let listing = table_listing(&sample_entries(), &style(), all, show_pr);
            assert_eq!(listing, table.to_string());
        }
    }
}

fn row(branch: &str, path: &str) -> WorktreeRow {
    WorktreeRowOf {
        project: "p".to_string(),
        branch: branch.to_string(),
        age: "-".to_string(),
        pr_status: "-".to_string(),
        agent_status: "-".to_string(),
        mux_status: "✓".to_string(),
        unmerged_status: "●".to_string(),
        path_str: path.to_string(),
    }
}

#[test]
fn a_small_table() {
    assert_eq!(
        render_table(&vec![row("main", "(here)")], false, false),
        "BRANCH  AGE  AGENT  MUX  UNMERGED  PATH   \nmain    -    -      ✓    ●         (here) "
    );
}

#[test]
fn colours_take_no_width() {
    assert_eq!(
        render_table(&vec![row("\x1b[31mmain\x1b[0m", "(here)")], false, false),
        "BRANCH  AGE  AGENT  MUX  UNMERGED  PATH   \n\x1b[31mmain\x1b[0m    -    -      ✓    ●         (here) "
    );
}

#[test]
fn escape_characters_must_begin_a_complete_sequence() {
    let numbers = |separator: &str, count: usize| {
        format!("\x1b[{}m", vec!["1"; count].join(separator))
    };
    for cell in [
        "",
        "main",
        "é\u{85}\t\n\u{7f}\0",
        "\x1b[m",
        "\x1b[;;m",
        "\x1b[4:3m",
        "\x1b[0K",
        "\x1b[?25h",
        "\x1b[2 q",
        "a\x1b[38;2;1;2;3mb\x1b[0m\nc\x1b[1m\x1b[4md",
        "\u{85}éa\x1b[0m",
        "\x1b[99999999999m é",
        "\x1b]8;;https://é/\x1b\\link\x1b]8;;\x1b\\",
        "\x1b]0;title\x07",
        "\x1bPq#0\x1b\\",
        "\x1b_x\x1b\\",
        "\x1b\\",
        "\x1bc",
        "\x1b(B",
    ] {
        assert!(is_printable(cell), "{cell:?}");
    }
    for cell in [
        "\x1b",
        "a\x1b[",
        "\x1b[0",
        "\x1b]0m",
        "\x1b]0\n\x07",
        "\x1b]0\x1b[0m",
        "\x1bPÜ\x1b\\",
        "\x1bP",
        "\x1b(",
        "\x1bé",
        "\x1b\x1b[0m",
        "\x1b[3 1m",
        "\x1b[1?h",
        "\x1b[? q",
        "\x1b[1\t2m",
        "\x1b[  qéééé\x1b[0m",
        "\x1b[31\u{661}m",
    ] {
        assert!(!is_printable(cell), "{cell:?}");
    }
    for separator in [";", ":"] {
        assert!(is_printable(&numbers(separator, 32)));
        assert!(!is_printable(&numbers(separator, 33)));
    }
}

#[test]
fn printable_cells_are_laid_out() {
    let many = format!("\x1b[{}mé", vec!["4"; 32].join(";"));
    for cell in [
        "é\u{85}\t\n\u{7f}\0",
        "\x1b[mé\x1b[0m",
        "é\x1b[38;2;1;2;3mé\x1b[0m\né\x1b[1m\x1b[4mé",
        "\u{85}éa\x1b[0mé",
        "\x1b[1;2;3;4;5;6;7;8;9;20;21;26;38;2;1;2;3;48;2;1;2;3;58;2;1;2;3mé\n\x1b[51;52;53;60;61;62;63;64;73;74mé\né",
        many.as_str(),
    ] {
        let rows = vec![row(cell, cell)];
        assert!(is_table_printable(&rows, false, false), "{cell:?}");
        assert!(render_table(&rows, false, false).starts_with("BRANCH"));
    }
    assert!(!is_table_printable(&vec![row("main", "\x1b[  qéééé\x1b[0m")], false, false));
}

#[test]
fn sequences_take_no_width() {
    let plain = render_table(&vec![row("main", "(here)")], false, false);
    for sequence in [
        "\x1b[0m",
        "\x1b[4:3m",
        "\x1b[0K",
        "\x1b[?25h",
        "\x1b[2 q",
        "\x1b]8;;https://é/\x1b\\",
        "\x1b]0;é\x07",
        "\x1bPq#0\x1b\\",
        "\x1b_x\x1b\\",
        "\x1bc",
        "\x1b(B",
    ] {
        let rows = vec![row(&format!("ma{sequence}in{sequence}"), "(here)")];
        assert!(is_table_printable(&rows, false, false));
        let text = render_table(&rows, false, false);
        assert_eq!(text.replace(sequence, ""), plain, "{sequence:?}");
    }
}

/// Numbers that look random.
struct Numbers(u64);

impl Numbers {
    fn below(&mut self, bound: usize) -> usize {
        self.0 = self.0.wrapping_mul(6364136223846793005).wrapping_add(1442695040888963407);
        ((self.0 >> 33) as usize) % bound
    }
}

#[test]
fn every_printable_mixture_is_laid_out() {
    let pieces = [
        "é", "Ü", "\u{9c}", "a", "\n", "\t", "漢", "\u{85}", "\x1b[1;31m", "\x1b[0m", "\x1b[?25h",
        "\x1b[2 q", "\x1b[4:3m", "\x1b]8;;é\x1b\\", "\x1b]0;Ü\x07", "\x1bPq#1\x1b\\", "\x1b^x\x1b\\",
        "\x1b(B", "\x1bc", "\x1b[K", "\x1b[", "\x1b]", "\x1bP", "\x1b", "m", "[", "\\", ";", " ", "1",
        "?", "\x07", "\x18", "\x7f",
    ];
    let mut numbers = Numbers(1);
    let mut rows = Vec::new();
    for _ in 0..30000 {
        let length = numbers.below(7);
        // Most mixtures hold complete sequences only.
        let bound = if numbers.below(3) == 0 { pieces.len() } else { 20 };
        let cell: String = (0..length).map(|_| pieces[numbers.below(bound)]).collect();
        if is_printable(&cell) {
            rows.push(row(&cell, "é"));
        }
    }
    assert!(rows.len() > 15000);
    assert!(is_table_printable(&rows, false, false));
    assert!(render_table(&rows, false, false).lines().count() > rows.len());
}

#[test]
fn only_the_columns_that_are_shown_must_be_printable() {
    let odd = WorktreeRowOf { pr_status: "\x1b".to_string(), ..row("main", "(here)") };
    assert!(is_table_printable(&vec![row("main", "(here)")], true, true));
    let rows = vec![odd];
    assert!(is_table_printable(&rows, true, false));
    assert!(!is_table_printable(&rows, true, true));
}
