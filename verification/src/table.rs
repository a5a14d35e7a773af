//! The table of worktrees.

use crate::list::{worktree_rows, ProjectWorktree, TableStyle, WorktreeRow, WorktreeRowOf};
#[allow(unused_imports)]
use crate::list::{row_views, rows_of, showable, RowView};
use crate::printable::is_printable;
#[allow(unused_imports)]
use crate::printable::printable;
use crate::text::with_text;
#[allow(unused_imports)]
use crate::text::texts;
use vstd::prelude::*;

verus! {

/// The headings of the table.
pub open spec fn headings() -> Seq<Seq<char>> {
    seq![
        "PROJECT"@,
        "BRANCH"@,
        "AGE"@,
        "PR"@,
        "AGENT"@,
        "MUX"@,
        "UNMERGED"@,
        "PATH"@,
    ]
}

/// The cells of a line of the table, in the order of the headings.
pub open spec fn cells(row: RowView) -> Seq<Seq<char>> {
    seq![
        row.project,
        row.branch,
        row.age,
        row.pr_status,
        row.agent_status,
        row.mux_status,
        row.unmerged_status,
        row.path_str,
    ]
}

impl WorktreeRowOf<String> {
    /// The headings of the table.
    pub fn headers() -> (res: Vec<String>)
        ensures
            texts(res@) == headings(),
    {
        let res = with_text(Vec::new(), "PROJECT");
        let res = with_text(res, "BRANCH");
        let res = with_text(res, "AGE");
        let res = with_text(res, "PR");
        let res = with_text(res, "AGENT");
        let res = with_text(res, "MUX");
        let res = with_text(res, "UNMERGED");
        let res = with_text(res, "PATH");
        assert(texts(res@) =~= headings());
        res
    }

    /// The cells of the line, in the order of the headings.
    pub fn fields(&self) -> (res: Vec<String>)
        ensures
            texts(res@) == cells(self@),
    {
        let res = with_text(Vec::new(), self.project.as_str());
        let res = with_text(res, self.branch.as_str());
        let res = with_text(res, self.age.as_str());
        let res = with_text(res, self.pr_status.as_str());
        let res = with_text(res, self.agent_status.as_str());
        let res = with_text(res, self.mux_status.as_str());
        let res = with_text(res, self.unmerged_status.as_str());
        let res = with_text(res, self.path_str.as_str());
        assert(texts(res@) =~= cells(self@));
        res
    }
}

/// The columns that are shown: the project only in a listing of all projects, pull requests
/// only where they were asked for.
pub open spec fn shown_columns(all: bool, show_pr: bool) -> Seq<int> {
    (if all {
        seq![0int]
    } else {
        seq![]
    }) + seq![1int, 2] + (if show_pr {
        seq![3int]
    } else {
        seq![]
    }) + seq![4int, 5, 6, 7]
}

/// The cells of a line that are shown.
pub open spec fn shown(line: Seq<Seq<char>>, all: bool, show_pr: bool) -> Seq<Seq<char>> {
    shown_columns(all, show_pr).map_values(|i: int| line[i])
}

/// The lines of the table, the headings first.
pub open spec fn table_lines(rows: Seq<RowView>, all: bool, show_pr: bool) -> Seq<Seq<Seq<char>>> {
    seq![shown(headings(), all, show_pr)] + rows.map_values(
        |row: RowView| shown(cells(row), all, show_pr),
    )
}

/// The texts of a list of lists of strings.
pub open spec fn line_texts(lines: Seq<Vec<String>>) -> Seq<Seq<Seq<char>>> {
    lines.map_values(|line: Vec<String>| texts(line@))
}

fn shown_cells(line: Vec<String>, all: bool, show_pr: bool) -> (res: Vec<String>)
    requires
        line@.len() == 8,
    ensures
        texts(res@) == shown(texts(line@), all, show_pr),
{
    let ghost columns = shown_columns(all, show_pr);
    let mut res: Vec<String> = Vec::new();
    for i in 0..line.len()
        invariant
            line@.len() == 8,
            columns == shown_columns(all, show_pr),
            res@.len() == shown_before(i as int, all, show_pr),
            forall|j: int|
                0 <= j < res@.len() ==> (#[trigger] res@[j])@ == line@[columns[j]]@,
    {
        if (i != 0 || all) && (i != 3 || show_pr) {
            res.push(line[i].clone());
        }
    }
    assert(texts(res@) =~= shown(texts(line@), all, show_pr));
    res
}

spec fn shown_before(i: int, all: bool, show_pr: bool) -> int {
    i - (if i > 0 && !all {
        1int
    } else {
        0
    }) - (if i > 3 && !show_pr {
        1int
    } else {
        0
    })
}

/// The lines of the table, the headings first, without the columns that are not shown.
pub fn table_records(rows: &Vec<WorktreeRow>, all: bool, show_pr: bool) -> (res: Vec<Vec<String>>)
    ensures
        line_texts(res@) == table_lines(row_views(rows@), all, show_pr),
{
    let mut res: Vec<Vec<String>> = Vec::new();
    let headers = WorktreeRow::headers();
    assert(texts(headers@).len() == 8);
    res.push(shown_cells(headers, all, show_pr));
    for i in 0..rows.len()
        invariant
            res@.len() == i + 1,
            texts(res@[0]@) == shown(headings(), all, show_pr),
            forall|j: int|
                1 <= j <= i ==> texts((#[trigger] res@[j])@) == shown(
                    cells(rows@[j - 1]@),
                    all,
                    show_pr,
                ),
    {
        let fields = rows[i].fields();
        assert(texts(fields@).len() == 8);
        res.push(shown_cells(fields, all, show_pr));
    }
    assert(line_texts(res@) =~= table_lines(row_views(rows@), all, show_pr));
    res
}

/// Whether all lines have the same number of cells.
pub open spec fn rectangular(lines: Seq<Seq<Seq<char>>>, columns: nat) -> bool {
    forall|i: int| 0 <= i < lines.len() ==> (#[trigger] lines[i]).len() == columns
}

/// Whether every cell can be laid out.
pub open spec fn all_printable(lines: Seq<Seq<Seq<char>>>) -> bool {
    forall|i: int, j: int|
        0 <= i < lines.len() && 0 <= j < lines[i].len() ==> printable(#[trigger] lines[i][j])
}

/// Whether every cell of `lines` can be laid out.
fn are_printable(lines: &Vec<Vec<String>>) -> (res: bool)
    ensures
        res == all_printable(line_texts(lines@)),
{
    let ghost all = line_texts(lines@);
    for i in 0..lines.len()
        invariant
            all == line_texts(lines@),
            forall|k: int, j: int|
                0 <= k < i && 0 <= j < all[k].len() ==> printable(#[trigger] all[k][j]),
    {
        let line = &lines[i];
        assert(all[i as int] == texts(line@));
        for j in 0..line.len()
            invariant
                i < lines@.len(),
                *line == lines@[i as int],
                all == line_texts(lines@),
                all[i as int] == texts(line@),
                forall|k: int| 0 <= k < j ==> printable(#[trigger] all[i as int][k]),
        {
            assert(all[i as int][j as int] == line@[j as int]@);
            if !is_printable(line[j].as_str()) {
                return false;
            }
        }
    }
    true
}

/// Whether the table of `rows` can be laid out.
pub fn is_table_printable(rows: &Vec<WorktreeRow>, all: bool, show_pr: bool) -> (res: bool)
    ensures
        res == all_printable(table_lines(row_views(rows@), all, show_pr)),
{
    are_printable(&table_records(rows, all, show_pr))
}

/// Whether the table of a listing can be laid out.
pub fn is_listing_printable(
    worktrees: &Vec<(ProjectWorktree, Option<String>)>,
    style: &TableStyle,
    all: bool,
    show_pr: bool,
) -> (res: bool)
    requires
        showable(worktrees@),
        style.cwd@.well_formed(),
        style.cwd@.is_absolute(),
    ensures
        res == all_printable(table_lines(rows_of(worktrees@, *style), all, show_pr)),
{
    is_table_printable(&worktree_rows(worktrees, style), all, show_pr)
}

/// The space around the text of a cell.
#[derive(Clone, Copy, Debug, PartialEq, Eq, Structural)]
pub struct CellPadding {
    pub left: u8,
    pub right: u8,
    pub top: u8,
    pub bottom: u8,
}

/// The text of a table without borders, with `padding` around its cells, as `tabled` lays it
/// out.
pub uninterp spec fn borderless_table(
    lines: Seq<Seq<Seq<char>>>,
    columns: nat,
    padding: (nat, nat, nat, nat),
) -> Seq<char>;

/// Builds a `tabled::Table` of the given lines and columns with `tabled::builder::Builder`,
/// gives it `Style::blank`, puts `Padding` around the cells of its columns, and prints it with
/// `Table::to_string`. The text depends on these arguments alone. Complete escape sequences in
/// the cells take no width. One that is not complete, or a control sequence with more parameters
/// or intermediates than the parser of `tabled` keeps, can make the measuring of a cell fail, so
/// that such cells are left out.
#[verifier::external_body]
fn lay_out(lines: Vec<Vec<String>>, columns: usize, padding: CellPadding) -> (res: String)
    requires
        lines@.len() > 0,
        rectangular(line_texts(lines@), columns as nat),
        all_printable(line_texts(lines@)),
    ensures
        res@ == borderless_table(
            line_texts(lines@),
            columns as nat,
            (padding.left as nat, padding.right as nat, padding.top as nat, padding.bottom as nat),
        ),
{
    let mut table = tabled::builder::Builder::from(lines).build();
    table.with(tabled::settings::Style::blank()).modify(
        tabled::settings::object::Columns::new(0..columns),
        tabled::settings::Padding::new(
            padding.left as usize,
            padding.right as usize,
            padding.top as usize,
            padding.bottom as usize,
        ),
    );
    table.to_string()
}

/// The table of worktrees as it is printed: no borders, and one space behind each cell.
pub open spec fn table_text(rows: Seq<RowView>, all: bool, show_pr: bool) -> Seq<char> {
    borderless_table(
        table_lines(rows, all, show_pr),
        shown_columns(all, show_pr).len(),
        (0, 1, 0, 0),
    )
}

/// Lays out the table of worktrees.
pub fn render_table(rows: &Vec<WorktreeRow>, all: bool, show_pr: bool) -> (res: String)
    requires
        all_printable(table_lines(row_views(rows@), all, show_pr)),
    ensures
        res@ == table_text(row_views(rows@), all, show_pr),
{
    let records = table_records(rows, all, show_pr);
    let ghost lines = table_lines(row_views(rows@), all, show_pr);
    assert(line_texts(records@).len() == lines.len());
    proof {
        lines_match_the_columns(row_views(rows@), all, show_pr);
    }
    let columns: usize = records[0].len();
    assert(line_texts(records@)[0] == texts(records@[0]@));
    assert(lines[0].len() == columns);
    lay_out(records, columns, CellPadding { left: 0, right: 1, top: 0, bottom: 0 })
}

/// The table of a listing. Each worktree comes with its age, where one is shown.
pub fn table_listing(
    worktrees: &Vec<(ProjectWorktree, Option<String>)>,
    style: &TableStyle,
    all: bool,
    show_pr: bool,
) -> (res: String)
    requires
        showable(worktrees@),
        style.cwd@.well_formed(),
        style.cwd@.is_absolute(),
        all_printable(table_lines(rows_of(worktrees@, *style), all, show_pr)),
    ensures
        res@ == table_text(rows_of(worktrees@, *style), all, show_pr),
{
    let rows = worktree_rows(worktrees, style);
    render_table(&rows, all, show_pr)
}

/// The project column is there exactly in a listing of all projects, the pull request column
/// exactly where pull requests were asked for, and every other column always.
pub proof fn columns_follow_the_request(all: bool, show_pr: bool)
    ensures
        shown_columns(all, show_pr).contains(0) == all,
        shown_columns(all, show_pr).contains(3) == show_pr,
        forall|i: int|
            0 <= i < 8 && i != 0 && i != 3 ==> #[trigger] shown_columns(all, show_pr).contains(i),
{
    let columns = shown_columns(all, show_pr);
    let a: int = if all {
        1
    } else {
        0
    };
    let p: int = if show_pr {
        1
    } else {
        0
    };
    if all {
        assert(columns[0] == 0);
    }
    if show_pr {
        assert(columns[a + 2] == 3);
    }
    assert(columns[a] == 1);
    assert(columns[a + 1] == 2);
    assert(columns[a + p + 2] == 4);
    assert(columns[a + p + 3] == 5);
    assert(columns[a + p + 4] == 6);
    assert(columns[a + p + 5] == 7);
}

/// Every line of the table has a cell for each column that is shown.
pub proof fn lines_match_the_columns(rows: Seq<RowView>, all: bool, show_pr: bool)
    ensures
        rectangular(table_lines(rows, all, show_pr), shown_columns(all, show_pr).len()),
        table_lines(rows, all, show_pr).len() == rows.len() + 1,
{
    let lines = table_lines(rows, all, show_pr);
    assert forall|i: int| 0 <= i < lines.len() implies (#[trigger] lines[i]).len()
        == shown_columns(all, show_pr).len() by {
        if i > 0 {
            assert(lines[i] == shown(cells(rows[i - 1]), all, show_pr));
        }
    }
}

/// The headings that are shown: the project first in a listing of all projects, pull requests
/// behind the age where they were asked for, and the others always.
pub proof fn headings_follow_the_request()
    ensures
        shown(headings(), false, false) == seq![
            "BRANCH"@,
            "AGE"@,
            "AGENT"@,
            "MUX"@,
            "UNMERGED"@,
            "PATH"@,
        ],
        shown(headings(), false, true) == seq![
            "BRANCH"@,
            "AGE"@,
            "PR"@,
            "AGENT"@,
            "MUX"@,
            "UNMERGED"@,
            "PATH"@,
        ],
        shown(headings(), true, false) == seq![
            "PROJECT"@,
            "BRANCH"@,
            "AGE"@,
            "AGENT"@,
            "MUX"@,
            "UNMERGED"@,
            "PATH"@,
        ],
        shown(headings(), true, true) == seq![
            "PROJECT"@,
            "BRANCH"@,
            "AGE"@,
            "PR"@,
            "AGENT"@,
            "MUX"@,
            "UNMERGED"@,
            "PATH"@,
        ],
{
}

/// The cells of a line that are shown stand under their headings.
pub proof fn cells_stand_under_their_headings(row: RowView)
    ensures
        shown(cells(row), false, false) == seq![
            row.branch,
            row.age,
            row.agent_status,
            row.mux_status,
            row.unmerged_status,
            row.path_str,
        ],
        shown(cells(row), false, true) == seq![
            row.branch,
            row.age,
            row.pr_status,
            row.agent_status,
            row.mux_status,
            row.unmerged_status,
            row.path_str,
        ],
        shown(cells(row), true, false) == seq![
            row.project,
            row.branch,
            row.age,
            row.agent_status,
            row.mux_status,
            row.unmerged_status,
            row.path_str,
        ],
        shown(cells(row), true, true) == seq![
            row.project,
            row.branch,
            row.age,
            row.pr_status,
            row.agent_status,
            row.mux_status,
            row.unmerged_status,
            row.path_str,
        ],
{
}

/// The table begins with the headings; the lines of the worktrees follow in their order, and
/// nothing follows them.
pub proof fn lines_follow_the_rows(rows: Seq<RowView>, all: bool, show_pr: bool, i: int)
    requires
        0 <= i < rows.len(),
    ensures
        table_lines(rows, all, show_pr).len() == rows.len() + 1,
        table_lines(rows, all, show_pr)[0] == shown(headings(), all, show_pr),
        table_lines(rows, all, show_pr)[i + 1] == shown(cells(rows[i]), all, show_pr),
{
}

/// The table has no space before and one space behind each cell, and as many columns as cells
/// are shown of a line: six, one more for the project, and one more for pull requests.
pub proof fn table_has_a_column_for_each_cell(rows: Seq<RowView>)
    ensures
        table_text(rows, false, false) == borderless_table(
            table_lines(rows, false, false),
            6,
            (0, 1, 0, 0),
        ),
        table_text(rows, true, false) == borderless_table(
            table_lines(rows, true, false),
            7,
            (0, 1, 0, 0),
        ),
        table_text(rows, false, true) == borderless_table(
            table_lines(rows, false, true),
            7,
            (0, 1, 0, 0),
        ),
        table_text(rows, true, true) == borderless_table(
            table_lines(rows, true, true),
            8,
            (0, 1, 0, 0),
        ),
{
}

/// A table can be laid out exactly if each of its cells can.
pub proof fn every_cell_counts(lines: Seq<Seq<Seq<char>>>)
    ensures
        all_printable(lines) <==> forall|i: int, j: int|
            0 <= i < lines.len() && 0 <= j < lines[i].len() ==> printable(#[trigger] lines[i][j]),
{
}

} // verus!
