//! The list of repos.

use vstd::prelude::*;
use vstd::string::*;

use crate::app::{finished, tally, AppState};
use crate::groups::{basename, own_name};
use crate::icons::{IconSet, IconStyle};
use crate::options::{ColumnFlags, Gauge, SortColumn, SortDir};
use crate::order::{count_trees, tree_count};
use crate::plain::{countable, larger};
use crate::repo::{RepoDetails, RepoState, RepoStatus, WorktreeEntry};
use crate::rows::{folder_name, name_of_folder, ListRow};
use crate::screen::{
    across, blank_line, cells_less, colored, in_bold, inside, inside_of, less, lit, most, no_lines,
    one_span, plain_style, step_across, Color, Line, Lines, Rect, Region, SpanView, Style,
};
use crate::spans::{
    ahead_behind, ahead_behind_spans, border_of, count_cell, count_span, folder_head,
    folder_header_item, frame_of, glyph_color, glyph_of, group_head, group_header_item, header_line,
    highlight_name, highlighted, pane_border_style, scrollbar_track, spinner_frame,
    status_glyph_colored, status_tail, status_tail_for, track_of, GroupState,
};
use crate::text::{
    byte_len, bytes_of, cat, cat3, cat5, copies, count_text, decimal, number, pad_right, padded,
    repeat_char,
};
use crate::times::{format_tenths, tenths_text};
use crate::widths::{cut_right, filled, pad_display, shown_width, truncate_str, width_of};

verus! {

// ---- the columns ----

/// The widths of the list's columns, and which of them are shown.
#[derive(Debug, Clone, Copy, PartialEq, Eq, Structural)]
pub struct Grid {
    pub icon: usize,
    pub name: usize,
    pub branch: usize,
    pub dirty: usize,
    pub count: usize,
    pub columns: ColumnFlags,
}

/// The length in bytes of the longest name among the first `n` repos, but at least ten.
pub open spec fn longest_name(repos: Seq<RepoState>, n: nat) -> nat
    decreases n,
{
    if n == 0 || n > repos.len() {
        10
    } else {
        larger(longest_name(repos, (n - 1) as nat), countable(byte_len(repos[n - 1].name@)))
    }
}

fn name_width(repos: &Vec<RepoState>) -> (res: usize)
    ensures
        res == longest_name(repos@, repos@.len()),
{
    let mut width: usize = 10;
    let mut i: usize = 0;
    while i < repos.len()
        invariant
            i <= repos@.len(),
            width == longest_name(repos@, i as nat),
        decreases repos@.len() - i,
    {
        let bytes: usize = bytes_of(repos[i].name.as_str());
        if bytes > width {
            width = bytes;
        }
        i += 1;
    }
    width
}

/// A width where something is shown.
pub open spec fn if_shown(shown: bool, width: int) -> int {
    if shown {
        width
    } else {
        0
    }
}

/// The columns that the optional columns take.
pub open spec fn extra_width(columns: ColumnFlags, dirty: int, count: int) -> int {
    if_shown(columns.ahead_behind, 10) + (dirty + 1) + if_shown(columns.last_commit, 15) + if_shown(
        columns.worktrees,
        count + 1,
    ) + if_shown(columns.branches, count + 1) + if_shown(columns.stashes, count + 1)
}

/// The widths of the columns: emoji are a cell wider than the other glyphs; the branch takes
/// what is left.
pub open spec fn grid_for(
    style: IconStyle,
    columns: ColumnFlags,
    name: nat,
    inner_width: u16,
) -> Grid {
    let wide: int = if style is Emoji {
        1
    } else {
        0
    };
    let dirty = 3 + wide;
    let count = 4 + wide;
    let icon = 2 + wide;
    Grid {
        icon: icon as usize,
        name: name as usize,
        branch: less(
            inner_width as int,
            icon + name + 1 + 2 + extra_width(columns, dirty, count),
        ) as usize,
        dirty: dirty as usize,
        count: count as usize,
        columns,
    }
}

fn shown_width_of(shown: bool, width: u64) -> (res: u64)
    ensures
        res == if_shown(shown, width as int),
{
    if shown {
        width
    } else {
        0
    }
}

fn make_grid(style: IconStyle, columns: ColumnFlags, name: usize, inner_width: u16) -> (res: Grid)
    ensures
        res == grid_for(style, columns, name as nat, inner_width),
{
    let wide: u64 = match style {
        IconStyle::Emoji => 1,
        IconStyle::Unicode => 0,
    };
    let dirty: u64 = 3 + wide;
    let count: u64 = 4 + wide;
    let icon: u64 = 2 + wide;
    let extra: u64 = shown_width_of(columns.ahead_behind, 10) + (dirty + 1) + shown_width_of(
        columns.last_commit,
        15,
    ) + shown_width_of(columns.worktrees, count + 1) + shown_width_of(columns.branches, count + 1)
        + shown_width_of(columns.stashes, count + 1);
    let used: u128 = icon as u128 + name as u128 + 1 + 2 + extra as u128;
    let branch: usize = if used < inner_width as u128 {
        (inner_width as u128 - used) as usize
    } else {
        0
    };
    Grid {
        icon: icon as usize,
        name,
        branch,
        dirty: dirty as usize,
        count: count as usize,
        columns,
    }
}

// ---- a repo's row ----

/// The style of a repo's name.
pub open spec fn name_style(status: RepoStatus) -> Style {
    match status {
        RepoStatus::Failed => colored(Color::Red),
        RepoStatus::Updated => colored(Color::Green),
        RepoStatus::Throttled => colored(Color::Magenta),
        RepoStatus::Skipped => colored(Color::DarkGray),
        RepoStatus::NoUpstream => colored(Color::DarkGray),
        RepoStatus::Running { .. } => colored(Color::Yellow),
        _ => plain_style(),
    }
}

fn style_of_name(status: &RepoStatus) -> (res: Style)
    ensures
        res == name_style(*status),
{
    match status {
        RepoStatus::Failed => Style::color(Color::Red),
        RepoStatus::Updated => Style::color(Color::Green),
        RepoStatus::Throttled => Style::color(Color::Magenta),
        RepoStatus::Skipped => Style::color(Color::DarkGray),
        RepoStatus::NoUpstream => Style::color(Color::DarkGray),
        RepoStatus::Running { .. } => Style::color(Color::Yellow),
        _ => Style::plain(),
    }
}

/// The dirty marker of a repo: it is always shown for uncommitted changes, which a skipped repo
/// has; with the column on, their number is shown as soon as it is known.
pub open spec fn dirty_text(repo: RepoState, counted: bool, marker: Seq<char>) -> Seq<char> {
    match repo.details {
        Some(details) => if details.dirty_count == 0 {
            ""@
        } else if counted {
            marker + decimal(details.dirty_count as nat)
        } else {
            marker
        },
        None => if repo.status is Skipped {
            marker
        } else {
            ""@
        },
    }
}

fn dirty_cell(repo: &RepoState, counted: bool, marker: &str) -> (res: String)
    ensures
        res@ == dirty_text(*repo, counted, marker@),
{
    match &repo.details {
        Some(details) => {
            if details.dirty_count == 0 {
                "".to_owned()
            } else if counted {
                cat(marker, number(details.dirty_count as u64).as_str())
            } else {
                marker.to_owned()
            }
        },
        None => match repo.status {
            RepoStatus::Skipped => marker.to_owned(),
            _ => "".to_owned(),
        },
    }
}

/// The branch of a repo.
pub open spec fn branch_text(repo: RepoState) -> Seq<char> {
    match repo.branch {
        Some(branch) => branch@,
        None => "—"@,
    }
}

/// The start of a row: the glyph, the name and the branch.
pub open spec fn row_start(
    repo: RepoState,
    name: Seq<char>,
    grid: Grid,
    filter: Option<String>,
    icons: IconSet,
    tick: u64,
) -> Seq<SpanView> {
    let glyph = glyph_of(repo.status, tick, icons);
    let pad = most(less(grid.icon as int, shown_width(glyph) as int), 1);
    let start = lit(
        one_span(glyph, colored(glyph_color(repo.status))),
        repo.flash_on && repo.flash.status,
    ).push((copies(' ', pad as nat), plain_style()));
    let named = start + highlighted(name, filter, name_style(repo.status), grid.name);
    let room = most(grid.branch as int, 1) as usize;
    named.push((" "@, plain_style())).push(
        (
            padded(cut_right(branch_text(repo), room), grid.branch as nat),
            colored(Color::Cyan),
        ),
    )
}

fn build_row_start(
    repo: &RepoState,
    name: &str,
    grid: Grid,
    filter: &Option<String>,
    icons: &IconSet,
    tick: u64,
) -> (res: Line)
    ensures
        res@ == row_start(*repo, name@, grid, *filter, *icons, tick),
{
    let (glyph, style) = status_glyph_colored(&repo.status, tick, icons);
    let wide: usize = width_of(glyph);
    let pad: usize = if wide < grid.icon {
        grid.icon - wide
    } else {
        1
    };
    let mut line = Line::of(glyph, style).light(repo.flash_on && repo.flash.status);
    line.push(repeat_char(' ', pad).as_str(), Style::plain());
    line.extend(
        highlight_name(name, filter, style_of_name(&repo.status), grid.name),
    );
    line.push(" ", Style::plain());
    let branch: &str = match &repo.branch {
        Some(branch) => branch.as_str(),
        None => "—",
    };
    let room: usize = if grid.branch > 1 {
        grid.branch
    } else {
        1
    };
    let shown = truncate_str(branch, room);
    line.push(pad_right(shown.as_str(), grid.branch).as_str(), Style::color(Color::Cyan));
    line
}

/// A row with the ahead/behind cell.
pub open spec fn with_ahead(row: Seq<SpanView>, repo: RepoState, icons: IconSet) -> Seq<SpanView> {
    row.push((" "@, plain_style())) + match repo.details {
        Some(details) => lit(
            ahead_behind(details.ahead, details.behind, 9, icons),
            repo.flash_on && repo.flash.ahead_behind,
        ),
        None => one_span(padded("…"@, 9), colored(Color::DarkGray)),
    }
}

fn push_ahead(row: &mut Line, repo: &RepoState, icons: &IconSet)
    ensures
        final(row)@ == with_ahead(old(row)@, *repo, *icons),
{
    row.push(" ", Style::plain());
    match &repo.details {
        Some(details) => row.extend(
            ahead_behind_spans(details.ahead, details.behind, 9, icons).light(
                repo.flash_on && repo.flash.ahead_behind,
            ),
        ),
        None => row.extend(Line::of(pad_right("…", 9).as_str(), Style::color(Color::DarkGray))),
    }
}

/// The age of a repo's last commit, in its cell.
pub open spec fn age_text(repo: RepoState) -> Seq<char> {
    match repo.details {
        Some(details) => cut_right(details.commit_rel_date@, 14),
        None => "…"@,
    }
}

fn age_cell(repo: &RepoState) -> (res: String)
    ensures
        res@ == age_text(*repo),
{
    match &repo.details {
        Some(details) => truncate_str(details.commit_rel_date.as_str(), 14),
        None => "…".to_owned(),
    }
}

/// The counts of a repo's row: none while they are not known.
pub open spec fn known_trees(repo: RepoState, trees: Seq<WorktreeEntry>, done: bool) -> Option<u32> {
    if done {
        Some((tree_count(trees, repo.name@) as usize) as u32)
    } else {
        None
    }
}

/// The number of a repo's branches, where it is known.
pub open spec fn known_branches(repo: RepoState) -> Option<u32> {
    match repo.details {
        Some(details) => Some(details.branch_count),
        None => None,
    }
}

/// The number of a repo's stashes, where it is known.
pub open spec fn known_stashes(repo: RepoState) -> Option<u32> {
    match repo.details {
        Some(details) => Some(details.stash_count),
        None => None,
    }
}

/// The row of a repo under a name. The cells that changed in a refetch stand out while they
/// flash.
pub open spec fn repo_row(
    repo: RepoState,
    name: Seq<char>,
    grid: Grid,
    filter: Option<String>,
    trees: Seq<WorktreeEntry>,
    trees_done: bool,
    icons: IconSet,
    tick: u64,
) -> Seq<SpanView> {
    let columns = grid.columns;
    let on = repo.flash_on;
    let start = row_start(repo, name, grid, filter, icons, tick);
    let ahead = if columns.ahead_behind {
        with_ahead(start, repo, icons)
    } else {
        start
    };
    let dirty = ahead + lit(
        one_span(
            " "@ + filled(dirty_text(repo, columns.dirty, icons.dirty@), grid.dirty),
            colored(Color::Yellow),
        ),
        on && repo.flash.dirty,
    );
    let age = if columns.last_commit {
        dirty + lit(
            one_span(" "@ + padded(age_text(repo), 14), colored(Color::DarkGray)),
            on && repo.flash.last_commit,
        )
    } else {
        dirty
    };
    let worktrees = if columns.worktrees {
        age + lit(
            blank_line().push(
                count_span(
                    icons.worktrees@,
                    known_trees(repo, trees, trees_done),
                    grid.count,
                    Color::Cyan,
                ),
            ),
            on && repo.flash.worktrees,
        )
    } else {
        age
    };
    let branches = if columns.branches {
        worktrees + lit(
            blank_line().push(
                count_span(icons.branches@, known_branches(repo), grid.count, Color::Green),
            ),
            on && repo.flash.branches,
        )
    } else {
        worktrees
    };
    if columns.stashes {
        branches + lit(
            blank_line().push(
                count_span(icons.stashes@, known_stashes(repo), grid.count, Color::Magenta),
            ),
            on && repo.flash.stashes,
        )
    } else {
        branches
    }
}

fn push_count(
    line: &mut Line,
    glyph: &str,
    count: Option<u32>,
    width: usize,
    color: Color,
    on: bool,
)
    ensures
        final(line)@ == old(line)@ + lit(
            blank_line().push(count_span(glyph@, count, width, color)),
            on,
        ),
{
    let mut cell = Line::new();
    count_cell(&mut cell, glyph, count, width, color);
    line.extend(cell.light(on));
}

fn build_repo_row(
    repo: &RepoState,
    name: &str,
    grid: Grid,
    filter: &Option<String>,
    trees: &Vec<WorktreeEntry>,
    trees_done: bool,
    icons: &IconSet,
    tick: u64,
) -> (res: Line)
    ensures
        res@ == repo_row(*repo, name@, grid, *filter, trees@, trees_done, *icons, tick),
{
    let columns = grid.columns;
    let mut line = build_row_start(repo, name, grid, filter, icons, tick);
    if columns.ahead_behind {
        push_ahead(&mut line, repo, icons);
    }
    let marker = dirty_cell(repo, columns.dirty, icons.dirty);
    let on = repo.flash_on;
    line.extend(
        Line::of(
            cat(" ", pad_display(marker.as_str(), grid.dirty).as_str()).as_str(),
            Style::color(Color::Yellow),
        ).light(on && repo.flash.dirty),
    );
    if columns.last_commit {
        let age = age_cell(repo);
        line.extend(
            Line::of(
                cat(" ", pad_right(age.as_str(), 14).as_str()).as_str(),
                Style::color(Color::DarkGray),
            ).light(on && repo.flash.last_commit),
        );
    }
    if columns.worktrees {
        let count: Option<u32> = if trees_done {
            Some(count_trees(trees, repo.name.as_str()) as u32)
        } else {
            None
        };
        push_count(
            &mut line,
            icons.worktrees,
            count,
            grid.count,
            Color::Cyan,
            on && repo.flash.worktrees,
        );
    }
    if columns.branches {
        let count: Option<u32> = match &repo.details {
            Some(details) => Some(details.branch_count),
            None => None,
        };
        push_count(
            &mut line,
            icons.branches,
            count,
            grid.count,
            Color::Green,
            on && repo.flash.branches,
        );
    }
    if columns.stashes {
        let count: Option<u32> = match &repo.details {
            Some(details) => Some(details.stash_count),
            None => None,
        };
        push_count(
            &mut line,
            icons.stashes,
            count,
            grid.count,
            Color::Magenta,
            on && repo.flash.stashes,
        );
    }
    line
}

// ---- the rows ----

/// How far a row is indented, in levels.
pub open spec fn indent(depth: usize) -> u16 {
    if depth < u16::MAX {
        depth as u16
    } else {
        u16::MAX
    }
}

fn indent_of(depth: usize) -> (res: u16)
    ensures
        res == indent(depth),
{
    if depth < u16::MAX as usize {
        depth as u16
    } else {
        u16::MAX
    }
}

/// What the row of a repo shows as its name: in the tree view the last part of its path, indented.
pub open spec fn row_name(app: AppState, idx: usize, depth: usize, width: usize) -> Seq<char> {
    let name = app.repos@[idx as int].name@;
    if app.tree_active() {
        cut_right(copies(' ', (2 * indent(depth)) as nat) + own_name(name), width)
    } else {
        name
    }
}

fn build_row_name(app: &AppState, idx: usize, depth: usize, width: usize) -> (res: String)
    requires
        idx < app.repos@.len(),
    ensures
        res@ == row_name(*app, idx, depth, width),
{
    let name = app.repos[idx].name.as_str();
    if app.is_tree() {
        let blank = repeat_char(' ', 2 * indent_of(depth) as usize);
        truncate_str(cat(blank.as_str(), basename(name).as_str()).as_str(), width)
    } else {
        name.to_owned()
    }
}

/// How the members of a group are known.
pub open spec fn group_state(app: AppState, group: int) -> GroupState {
    if 0 <= group < app.outline.groups@.len() {
        if app.outline.groups@[group].resolving {
            GroupState::Resolving
        } else if app.outline.groups@[group].error is Some {
            GroupState::Broken
        } else {
            GroupState::Known
        }
    } else {
        GroupState::Ungrouped
    }
}

fn state_of_group(app: &AppState, group: usize) -> (res: GroupState)
    ensures
        res == group_state(*app, group as int),
{
    if group < app.outline.groups.len() {
        if app.outline.groups[group].resolving {
            GroupState::Resolving
        } else if app.outline.groups[group].error.is_some() {
            GroupState::Broken
        } else {
            GroupState::Known
        }
    } else {
        GroupState::Ungrouped
    }
}

/// A row of the list. The header of a group tells of the members in the whole list, that of a
/// folder of all that lies below it.
pub open spec fn list_item(
    app: AppState,
    row: ListRow,
    grid: Grid,
    icons: IconSet,
    tick: u64,
    width: u16,
) -> Seq<SpanView> {
    let shown = app.visible();
    match row {
        ListRow::Repo { idx, depth } => repo_row(
            app.repos@[idx as int],
            row_name(app, idx, depth, grid.name),
            grid,
            app.filter,
            app.progress.worktrees@,
            app.progress.worktrees_done,
            icons,
            tick,
        ),
        ListRow::Group { of, group, within, collapsible } => {
            let members = app.in_group_upto(shown, group as int, shown.len());
            header_line(
                group_head(
                    app.group_name(group as int),
                    group_state(app, group as int),
                    collapsible,
                    app.row_folded(row),
                    indent(within),
                    icons,
                    tick,
                ),
                status_tail(app.repos@, members, members.len() as usize, icons, tick),
                width as usize,
            )
        },
        ListRow::Folder { of, level } => {
            let members = app.in_folder_upto(shown, of, level as int, shown.len());
            header_line(
                folder_head(
                    folder_name(app.repos@[of as int], level as int),
                    app.row_folded(row),
                    indent(level),
                ),
                status_tail(app.repos@, members, members.len() as usize, icons, tick),
                width as usize,
            )
        },
        ListRow::Spacer => one_span(""@, plain_style()),
    }
}

fn build_item(
    app: &AppState,
    row: ListRow,
    grid: Grid,
    icons: &IconSet,
    tick: u64,
    width: u16,
) -> (res: Line)
    requires
        app.wf(),
        app.row_ok(row),
    ensures
        res@ == list_item(*app, row, grid, *icons, tick, width),
{
    match row {
        ListRow::Repo { idx, depth } => {
            let name = build_row_name(app, idx, depth, grid.name);
            build_repo_row(
                &app.repos[idx],
                name.as_str(),
                grid,
                &app.filter,
                &app.progress.worktrees,
                app.progress.worktrees_done,
                icons,
                tick,
            )
        },
        ListRow::Group { of: _, group, within, collapsible } => {
            let members = app.members_in_group(&app.visible_indices(), group);
            let tail = status_tail_for(&app.repos, &members, members.len(), icons, tick);
            group_header_item(
                app.name_of_group(group),
                state_of_group(app, group),
                collapsible,
                app.is_row_folded(row),
                indent_of(within),
                tail,
                width as usize,
                icons,
                tick,
            )
        },
        ListRow::Folder { of, level } => {
            let members = app.members_in_folder(&app.visible_indices(), of, level);
            let tail = status_tail_for(&app.repos, &members, members.len(), icons, tick);
            folder_header_item(
                name_of_folder(&app.repos[of], level).as_str(),
                app.is_row_folded(row),
                indent_of(level),
                tail,
                width as usize,
            )
        },
        ListRow::Spacer => Line::of("", Style::plain()),
    }
}

/// The first `n` rows.
pub open spec fn rows_upto(
    app: AppState,
    grid: Grid,
    icons: IconSet,
    tick: u64,
    width: u16,
    n: nat,
) -> Seq<Seq<SpanView>>
    decreases n,
{
    if n == 0 || n > app.lines().len() {
        no_lines()
    } else {
        rows_upto(app, grid, icons, tick, width, (n - 1) as nat).push(
            list_item(app, app.lines()[n - 1], grid, icons, tick, width),
        )
    }
}

/// The glyph of the Result row.
pub open spec fn result_glyph(app: AppState, icons: IconSet) -> SpanView {
    if !app.progress.all_done {
        ("—"@, colored(Color::DarkGray))
    } else if app.any_failed() {
        (icons.failed@, colored(Color::Red))
    } else {
        (icons.ok@, colored(Color::Green))
    }
}

/// A line between the parts of the list.
pub open spec fn rule(width: u16) -> Seq<SpanView> {
    one_span(copies('─', less(width as int, 2) as nat), colored(Color::DarkGray))
}

/// All rows of the list: the repos with their headers, the Result, the Errors where a repo failed, and a note where
/// no repo was found.
pub open spec fn list_items(app: AppState, grid: Grid, icons: IconSet, tick: u64, width: u16) -> Seq<
    Seq<SpanView>,
> {
    let glyph = result_glyph(app, icons);
    let repos = rows_upto(app, grid, icons, tick, width, app.lines().len());
    let result = repos.push(rule(width)).push(
        one_span(glyph.0, glyph.1).push((" "@, plain_style())).push(("Result"@, plain_style())),
    );
    let errors = if app.any_failed() {
        result.push(rule(width)).push(
            one_span(icons.failed@, colored(Color::Red)).push((" "@, plain_style())).push(
                (
                    "Errors ("@ + decimal(tally(app.repos@, RepoStatus::Failed)) + ")"@,
                    colored(Color::Red),
                ),
            ),
        )
    } else {
        result
    };
    if app.progress.discovery_done && app.repos@.len() == 0 {
        errors.push(one_span(""@, plain_style())).push(
            one_span(
                "  no git repositories found — q to quit"@,
                Style { italic: true, ..colored(Color::DarkGray) },
            ),
        )
    } else {
        errors
    }
}

fn build_rule(width: u16) -> (res: Line)
    ensures
        res@ == rule(width),
{
    Line::of(
        repeat_char('─', cells_less(width, 2) as usize).as_str(),
        Style::color(Color::DarkGray),
    )
}

fn build_items(app: &AppState, grid: Grid, icons: &IconSet, tick: u64, width: u16) -> (res: Lines)
    requires
        app.wf(),
    ensures
        res@ == list_items(*app, grid, *icons, tick, width),
{
    let rows = app.visible_rows();
    let failed: usize = app.counts().5;
    let mut items = Lines::new();
    let mut i: usize = 0;
    while i < rows.len()
        invariant
            app.wf(),
            rows@ == app.lines(),
            app.rows_ok(rows@),
            i <= rows@.len(),
            items@ == rows_upto(*app, grid, *icons, tick, width, i as nat),
        decreases rows@.len() - i,
    {
        assert(app.row_ok(rows@[i as int]));
        items.push(build_item(app, rows[i], grid, icons, tick, width));
        i += 1;
    }
    items.push(build_rule(width));
    let mut result = if !app.progress.all_done {
        Line::of("—", Style::color(Color::DarkGray))
    } else if failed > 0 {
        Line::of(icons.failed, Style::color(Color::Red))
    } else {
        Line::of(icons.ok, Style::color(Color::Green))
    };
    result.push(" ", Style::plain());
    result.push("Result", Style::plain());
    items.push(result);
    if failed > 0 {
        items.push(build_rule(width));
        let mut errors = Line::of(icons.failed, Style::color(Color::Red));
        errors.push(" ", Style::plain());
        errors.push(
            cat3("Errors (", count_text(failed).as_str(), ")").as_str(),
            Style::color(Color::Red),
        );
        items.push(errors);
    }
    if app.progress.discovery_done && app.repos.len() == 0 {
        items.push(Line::of("", Style::plain()));
        items.push(
            Line::of(
                "  no git repositories found — q to quit",
                Style::color(Color::DarkGray).with_italic(),
            ),
        );
    }
    items
}

// ---- the header ----

/// A cell of the list's header.
#[derive(Debug, Clone, Copy)]
pub struct HeadCell {
    pub label: &'static str,
    pub width: usize,
    /// A blank stands before it.
    pub lead: bool,
    pub sort: Option<SortColumn>,
}

/// The cells of the header, as wide as those of the rows.
pub open spec fn head_cells(grid: Grid) -> Seq<HeadCell> {
    let columns = grid.columns;
    let start = Seq::<HeadCell>::empty().push(
        HeadCell { label: "", width: grid.icon, lead: false, sort: None },
    ).push(
        HeadCell { label: "name", width: grid.name, lead: false, sort: Some(SortColumn::Name) },
    ).push(HeadCell { label: "", width: 1, lead: false, sort: None }).push(
        HeadCell {
            label: "branch",
            width: grid.branch,
            lead: false,
            sort: Some(SortColumn::Branch),
        },
    );
    let ahead = if columns.ahead_behind {
        start.push(
            HeadCell { label: "↑↓", width: 9, lead: true, sort: Some(SortColumn::AheadBehind) },
        )
    } else {
        start
    };
    let dirty = ahead.push(
        HeadCell { label: "Δ", width: grid.dirty, lead: true, sort: Some(SortColumn::Dirty) },
    );
    let age = if columns.last_commit {
        dirty.push(
            HeadCell { label: "age", width: 14, lead: true, sort: Some(SortColumn::LastCommit) },
        )
    } else {
        dirty
    };
    let worktrees = if columns.worktrees {
        age.push(
            HeadCell {
                label: "wt",
                width: grid.count,
                lead: true,
                sort: Some(SortColumn::Worktrees),
            },
        )
    } else {
        age
    };
    let branches = if columns.branches {
        worktrees.push(
            HeadCell {
                label: "br",
                width: grid.count,
                lead: true,
                sort: Some(SortColumn::Branches),
            },
        )
    } else {
        worktrees
    };
    if columns.stashes {
        branches.push(
            HeadCell {
                label: "st",
                width: grid.count,
                lead: true,
                sort: Some(SortColumn::Stashes),
            },
        )
    } else {
        branches
    }
}

fn build_head_cells(grid: Grid) -> (res: Vec<HeadCell>)
    ensures
        res@ == head_cells(grid),
{
    let columns = grid.columns;
    let mut cells: Vec<HeadCell> = Vec::new();
    cells.push(HeadCell { label: "", width: grid.icon, lead: false, sort: None });
    cells.push(
        HeadCell { label: "name", width: grid.name, lead: false, sort: Some(SortColumn::Name) },
    );
    cells.push(HeadCell { label: "", width: 1, lead: false, sort: None });
    cells.push(
        HeadCell {
            label: "branch",
            width: grid.branch,
            lead: false,
            sort: Some(SortColumn::Branch),
        },
    );
    if columns.ahead_behind {
        cells.push(
            HeadCell { label: "↑↓", width: 9, lead: true, sort: Some(SortColumn::AheadBehind) },
        );
    }
    cells.push(
        HeadCell { label: "Δ", width: grid.dirty, lead: true, sort: Some(SortColumn::Dirty) },
    );
    if columns.last_commit {
        cells.push(
            HeadCell { label: "age", width: 14, lead: true, sort: Some(SortColumn::LastCommit) },
        );
    }
    if columns.worktrees {
        cells.push(
            HeadCell {
                label: "wt",
                width: grid.count,
                lead: true,
                sort: Some(SortColumn::Worktrees),
            },
        );
    }
    if columns.branches {
        cells.push(
            HeadCell {
                label: "br",
                width: grid.count,
                lead: true,
                sort: Some(SortColumn::Branches),
            },
        );
    }
    if columns.stashes {
        cells.push(
            HeadCell {
                label: "st",
                width: grid.count,
                lead: true,
                sort: Some(SortColumn::Stashes),
            },
        );
    }
    cells
}

/// The list is sorted by a cell's column.
pub open spec fn is_active(cell: HeadCell, column: SortColumn) -> bool {
    cell.sort == Some(column)
}

/// The span of a header cell: its label, with an arrow where the list is sorted by it.
pub open spec fn head_span(cell: HeadCell, column: SortColumn, dir: SortDir) -> SpanView {
    let text = if is_active(cell, column) {
        cell.label@ + dir.pointer()
    } else {
        cell.label@
    };
    let style = if is_active(cell, column) {
        in_bold(colored(Color::Yellow))
    } else if cell.sort is Some {
        in_bold(colored(Color::Gray))
    } else {
        colored(Color::DarkGray)
    };
    (filled(cut_right(text, most(cell.width as int, 1) as usize), cell.width), style)
}

/// The spans of the first `n` cells of the header.
pub open spec fn head_spans(
    cells: Seq<HeadCell>,
    column: SortColumn,
    dir: SortDir,
    n: nat,
) -> Seq<SpanView>
    decreases n,
{
    if n == 0 || n > cells.len() {
        blank_line()
    } else {
        let before = head_spans(cells, column, dir, (n - 1) as nat);
        let led = if cells[n - 1].lead {
            before.push((" "@, plain_style()))
        } else {
            before
        };
        led.push(head_span(cells[n - 1], column, dir))
    }
}

/// The column at which cell `n` of the header begins.
pub open spec fn head_col(cells: Seq<HeadCell>, x: u16, n: nat) -> u16
    decreases n,
{
    if n == 0 || n > cells.len() {
        x
    } else {
        across(head_start(cells, x, n), (cells[n - 1].width as u16) as int)
    }
}

/// The column at which the label of the cell before `n` begins.
pub open spec fn head_start(cells: Seq<HeadCell>, x: u16, n: nat) -> u16
    decreases n,
{
    if n == 0 || n > cells.len() {
        x
    } else {
        across(
            if n == 1 {
                x
            } else {
                across(
                    head_start(cells, x, (n - 1) as nat),
                    (cells[n - 2].width as u16) as int,
                )
            },
            if cells[n - 1].lead {
                1
            } else {
                0
            },
        )
    }
}

/// What can be clicked among the first `n` cells of the header, on both of its rows.
pub open spec fn head_clicks(cells: Seq<HeadCell>, x: u16, y: u16, n: nat) -> Seq<(Region, SortColumn)>
    decreases n,
{
    if n == 0 || n > cells.len() {
        Seq::empty()
    } else {
        let before = head_clicks(cells, x, y, (n - 1) as nat);
        match cells[n - 1].sort {
            Some(sort) => before.push(
                ((y, head_start(cells, x, n), head_col(cells, x, n)), sort),
            ).push(((across(y, 1), head_start(cells, x, n), head_col(cells, x, n)), sort)),
            None => before,
        }
    }
}

fn build_head_span(cell: HeadCell, column: SortColumn, dir: SortDir) -> (res: (String, Style))
    ensures
        (res.0@, res.1) == head_span(cell, column, dir),
{
    let active = match cell.sort {
        Some(sort) => sort == column,
        None => false,
    };
    let text = if active {
        cat(cell.label, dir.arrow())
    } else {
        cell.label.to_owned()
    };
    let style = if active {
        Style::color(Color::Yellow).with_bold()
    } else if cell.sort.is_some() {
        Style::color(Color::Gray).with_bold()
    } else {
        Style::color(Color::DarkGray)
    };
    let room: usize = if cell.width > 1 {
        cell.width
    } else {
        1
    };
    (pad_display(truncate_str(text.as_str(), room).as_str(), cell.width), style)
}

/// Build the 2-row repo-list column header: titles aligned to the row column widths with a
/// `▲`/`▼` indicator on the active sort column, plus the clickable sort-cell regions.
pub fn build_list_header(inner: Rect, grid: Grid, column: SortColumn, dir: SortDir) -> (res: (
    Lines,
    Vec<(Region, SortColumn)>,
))
    ensures
        res.0@ == no_lines().push(
            head_spans(head_cells(grid), column, dir, head_cells(grid).len()),
        ).push(one_span(copies('─', inner.width as nat), colored(Color::DarkGray))),
        res.1@ == head_clicks(head_cells(grid), inner.x, inner.y, head_cells(grid).len()),
{
    let cells = build_head_cells(grid);
    let mut line = Line::new();
    let mut clicks: Vec<(Region, SortColumn)> = Vec::new();
    let mut col: u16 = inner.x;
    let mut i: usize = 0;
    while i < cells.len()
        invariant
            cells@ == head_cells(grid),
            i <= cells@.len(),
            line@ == head_spans(cells@, column, dir, i as nat),
            col == head_col(cells@, inner.x, i as nat),
            clicks@ == head_clicks(cells@, inner.x, inner.y, i as nat),
        decreases cells@.len() - i,
    {
        let cell = cells[i];
        if cell.lead {
            line.push(" ", Style::plain());
        }
        let start: u16 = step_across(
            col,
            if cell.lead {
                1
            } else {
                0
            },
        );
        assert(start == head_start(cells@, inner.x, (i + 1) as nat));
        let (text, style) = build_head_span(cell, column, dir);
        line.push(text.as_str(), style);
        let end: u16 = step_across(start, cell.width as u16);
        match cell.sort {
            Some(sort) => {
                clicks.push(((inner.y, start, end), sort));
                clicks.push(((step_across(inner.y, 1), start, end), sort));
            },
            None => {},
        }
        col = end;
        i += 1;
    }
    let mut lines = Lines::new();
    lines.push(line);
    lines.push(
        Line::of(
            repeat_char('─', inner.width as usize).as_str(),
            Style::color(Color::DarkGray),
        ),
    );
    (lines, clicks)
}

// ---- the pane ----

/// How many pulls run of how many that may; a lowered limit shows the configured one too.
pub open spec fn concurrency(app: AppState, jobs: usize) -> Seq<char> {
    let running = decimal(tally(app.repos@, RepoStatus::Running { pid: 0 }));
    if app.progress.all_done {
        ""@
    } else if jobs < app.progress.max_jobs {
        " · ⇄ "@ + running + "/"@ + decimal(jobs as nat) + (
        "↓"@ + decimal(app.progress.max_jobs as nat))
    } else {
        " · ⇄ "@ + running + "/"@ + decimal(jobs as nat)
    }
}

/// The title of the list: while the scan runs, how many repos were found; then how many are
/// done.
pub open spec fn list_title(
    app: AppState,
    jobs: usize,
    elapsed: u64,
    icons: IconSet,
    tick: u64,
) -> Seq<char> {
    let total = decimal(app.repos@.len());
    let state = if !app.progress.discovery_done {
        frame_of(tick, icons) + " scanning… "@ + total + " found"@
    } else {
        decimal(finished(app.repos@)) + "/"@ + total
    };
    " [1] pull-all · "@ + state + concurrency(app, jobs) + " · "@ + (tenths_text(elapsed) + "s "@)
}

fn build_title(app: &AppState, jobs: usize, elapsed: u64, icons: &IconSet, tick: u64) -> (res: String)
    ensures
        res@ == list_title(*app, jobs, elapsed, *icons, tick),
{
    let running: usize = app.counts().1;
    let done: usize = app.done_count();
    let load = if app.progress.all_done {
        "".to_owned()
    } else {
        let plain = cat(
            cat3(" · ⇄ ", count_text(running).as_str(), "/").as_str(),
            count_text(jobs).as_str(),
        );
        if jobs < app.progress.max_jobs {
            cat(plain.as_str(), cat("↓", count_text(app.progress.max_jobs).as_str()).as_str())
        } else {
            plain
        }
    };
    let total = count_text(app.repos.len());
    let state = if !app.progress.discovery_done {
        cat(
            cat3(spinner_frame(tick, icons), " scanning… ", total.as_str()).as_str(),
            " found",
        )
    } else {
        cat3(count_text(done).as_str(), "/", total.as_str())
    };
    let time = cat(format_tenths(elapsed).as_str(), "s ");
    cat5(" [1] pull-all · ", state.as_str(), load.as_str(), " · ", time.as_str())
}

/// The list pane.
#[derive(Debug)]
pub struct ListView {
    pub title: String,
    pub border: Style,
    /// The header, empty where the pane is too low for it, and where it stands.
    pub header: Lines,
    pub header_area: Rect,
    pub header_clicks: Vec<(Region, SortColumn)>,
    pub items: Lines,
    /// The item that is selected.
    pub selected: usize,
    pub rows_area: Rect,
    /// The scrollbar on the pane's right border, beside the rows.
    pub scrollbar: Gauge,
}

/// The item of the list that the selection stands for: behind the rows a rule comes before the
/// Result, and another before the Errors.
pub open spec fn selected_item(app: AppState) -> int {
    let shown = app.lines().len() as int;
    if app.selected < shown {
        app.selected as int
    } else if app.selected == shown {
        shown + 1
    } else {
        shown + 3
    }
}

/// The number of rows of the header.
pub open spec fn header_height(inner: Rect) -> int {
    if inner.height >= 4 {
        2
    } else {
        0
    }
}

/// What the list pane shows.
pub open spec fn is_list_view(
    app: AppState,
    area: Rect,
    jobs: usize,
    elapsed: u64,
    icons: IconSet,
    tick: u64,
    view: ListView,
) -> bool {
    let inner = inside(area, app.prefs.panel_padding);
    let grid = grid_for(
        app.prefs.icon_style,
        app.shown_columns(),
        longest_name(app.repos@, app.repos@.len()),
        inner.width,
    );
    let high = header_height(inner);
    let cells = head_cells(grid);
    &&& view.title@ == list_title(app, jobs, elapsed, icons, tick)
    &&& view.border == border_of(!app.preview_focused)
    &&& view.items@ == list_items(app, grid, icons, tick, inner.width)
    &&& view.selected == selected_item(app)
    &&& view.rows_area == (Rect {
        x: inner.x,
        y: across(inner.y, high),
        width: inner.width,
        height: less(inner.height as int, high) as u16,
    })
    &&& view.scrollbar == (Gauge {
        track: track_of(area, view.rows_area),
        total: view.items@.len() as usize,
        viewport: view.rows_area.height as usize,
    })
    &&& if high > 0 {
        &&& view.header_area == (Rect { height: 2, ..inner })
        &&& view.header@ == no_lines().push(
            head_spans(cells, app.prefs.sort_column, app.prefs.sort_dir, cells.len()),
        ).push(one_span(copies('─', inner.width as nat), colored(Color::DarkGray)))
        &&& view.header_clicks@ == head_clicks(cells, inner.x, inner.y, cells.len())
    } else {
        &&& view.header_area == crate::screen::empty_rect()
        &&& view.header@ == no_lines()
        &&& view.header_clicks@ == Seq::<(Region, SortColumn)>::empty()
    }
}

/// The list pane: its title, its header and its rows. `jobs` is how many pulls may run at a
/// time, `elapsed` the age of the batch in nanoseconds.
pub fn list_view(
    app: &AppState,
    area: Rect,
    jobs: usize,
    elapsed: u64,
    icons: &IconSet,
    tick: u64,
) -> (res: ListView)
    requires
        app.wf(),
    ensures
        is_list_view(*app, area, jobs, elapsed, *icons, tick, res),
{
    let inner = inside_of(area, app.prefs.panel_padding);
    let grid = make_grid(
        app.prefs.icon_style,
        app.effective_columns(),
        name_width(&app.repos),
        inner.width,
    );
    let title = build_title(app, jobs, elapsed, icons, tick);
    let items = build_items(app, grid, icons, tick, inner.width);
    let shown: usize = app.visible_rows().len();
    let selected: usize = if app.selected < shown {
        app.selected
    } else if app.selected == shown {
        shown + 1
    } else {
        shown + 3
    };
    let high: u16 = if inner.height >= 4 {
        2
    } else {
        0
    };
    let rows_area = Rect {
        x: inner.x,
        y: step_across(inner.y, high),
        width: inner.width,
        height: cells_less(inner.height, high),
    };
    let scrollbar = Gauge {
        track: scrollbar_track(area, rows_area),
        total: items.len(),
        viewport: rows_area.height as usize,
    };
    let border = pane_border_style(!app.preview_focused);
    if high > 0 {
        let (header, header_clicks) = build_list_header(
            inner,
            grid,
            app.prefs.sort_column,
            app.prefs.sort_dir,
        );
        let header_area = Rect { x: inner.x, y: inner.y, width: inner.width, height: 2 };
        ListView {
            title,
            border,
            header,
            header_area,
            header_clicks,
            items,
            selected,
            rows_area,
            scrollbar,
        }
    } else {
        ListView {
            title,
            border,
            header: Lines::new(),
            header_area: Rect::empty(),
            header_clicks: Vec::new(),
            items,
            selected,
            rows_area,
            scrollbar,
        }
    }
}

// ---- what a row of the list says ----

/// The name of a repo is colored by its state.
pub proof fn law_colors_of_names(running: RepoStatus)
    requires
        running is Running,
    ensures
        name_style(RepoStatus::Failed) == colored(Color::Red),
        name_style(RepoStatus::Updated) == colored(Color::Green),
        name_style(RepoStatus::Throttled) == colored(Color::Magenta),
        name_style(RepoStatus::Skipped) == colored(Color::DarkGray),
        name_style(RepoStatus::NoUpstream) == colored(Color::DarkGray),
        name_style(running) == colored(Color::Yellow),
        name_style(RepoStatus::UpToDate) == plain_style(),
        name_style(RepoStatus::Queued) == plain_style(),
{
}

/// A repo is marked as dirty where it has changes, with their number where that is shown; as long
/// as nothing is known of it, where it was skipped.
pub proof fn law_dirty_marks(repo: RepoState, counted: bool, marker: Seq<char>, details: RepoDetails)
    ensures
        repo.details == Some(details) && details.dirty_count == 0 ==> dirty_text(
            repo,
            counted,
            marker,
        ) == ""@,
        repo.details == Some(details) && details.dirty_count > 0 && counted ==> dirty_text(
            repo,
            counted,
            marker,
        ) == marker + decimal(details.dirty_count as nat),
        repo.details == Some(details) && details.dirty_count > 0 && !counted ==> dirty_text(
            repo,
            counted,
            marker,
        ) == marker,
        repo.details is None && repo.status is Skipped ==> dirty_text(repo, counted, marker)
            == marker,
        repo.details is None && repo.status !is Skipped ==> dirty_text(repo, counted, marker)
            == ""@,
{
}

/// The last cells of a row: worktrees, branches and stashes, each with its own glyph, count and
/// color.
pub proof fn law_counts_of_a_row(
    repo: RepoState,
    name: Seq<char>,
    grid: Grid,
    filter: Option<String>,
    trees: Seq<WorktreeEntry>,
    icons: IconSet,
    tick: u64,
    details: RepoDetails,
)
    requires
        repo.details == Some(details),
        !repo.flash_on,
        grid.columns.worktrees && grid.columns.branches && grid.columns.stashes,
    ensures
        ({
            let row = repo_row(repo, name, grid, filter, trees, true, icons, tick);
            &&& row.len() >= 3
            &&& row[row.len() - 1] == count_span(
                icons.stashes@,
                Some(details.stash_count),
                grid.count,
                Color::Magenta,
            )
            &&& row[row.len() - 2] == count_span(
                icons.branches@,
                Some(details.branch_count),
                grid.count,
                Color::Green,
            )
            &&& row[row.len() - 3] == count_span(
                icons.worktrees@,
                Some((tree_count(trees, repo.name@) as usize) as u32),
                grid.count,
                Color::Cyan,
            )
        }),
{
}

/// The result shows whether the run goes on, went wrong, or went well.
pub proof fn law_mark_of_the_result(app: AppState, icons: IconSet)
    ensures
        !app.progress.all_done ==> result_glyph(app, icons).0 == "—"@,
        app.progress.all_done && tally(app.repos@, RepoStatus::Failed) > 0 ==> result_glyph(
            app,
            icons,
        ) == (icons.failed@, colored(Color::Red)),
        app.progress.all_done && tally(app.repos@, RepoStatus::Failed) == 0 ==> result_glyph(
            app,
            icons,
        ) == (icons.ok@, colored(Color::Green)),
{
}

/// A group that is being looked up shows that before it shows an error of the last time.
pub proof fn law_states_of_groups(app: AppState, group: int)
    requires
        0 <= group < app.outline.groups@.len(),
    ensures
        group_state(app, group) is Resolving <==> app.outline.groups@[group].resolving,
        group_state(app, group) is Broken <==> !app.outline.groups@[group].resolving
            && app.outline.groups@[group].error is Some,
        group_state(app, app.outline.groups@.len() as int) is Ungrouped,
{
}

/// Every column that is shown has its header, which sorts by it, in the order of the cells.
pub proof fn law_headers_sort_by_their_column(grid: Grid)
    requires
        grid.columns.ahead_behind && grid.columns.last_commit && grid.columns.worktrees
            && grid.columns.branches && grid.columns.stashes,
    ensures
        ({
            let cells = head_cells(grid);
            &&& cells.len() == 10
            &&& cells[1].label@ == "name"@ && cells[1].sort == Some(SortColumn::Name)
            &&& cells[3].label@ == "branch"@ && cells[3].sort == Some(SortColumn::Branch)
            &&& cells[4].label@ == "↑↓"@ && cells[4].sort == Some(SortColumn::AheadBehind)
            &&& cells[5].label@ == "Δ"@ && cells[5].sort == Some(SortColumn::Dirty)
            &&& cells[6].label@ == "age"@ && cells[6].sort == Some(SortColumn::LastCommit)
            &&& cells[7].label@ == "wt"@ && cells[7].sort == Some(SortColumn::Worktrees)
            &&& cells[8].label@ == "br"@ && cells[8].sort == Some(SortColumn::Branches)
            &&& cells[9].label@ == "st"@ && cells[9].sort == Some(SortColumn::Stashes)
        }),
{
}

/// Only the header of the column that the list is sorted by points in a direction.
pub proof fn law_sorted_header_points(cell: HeadCell, column: SortColumn, dir: SortDir)
    ensures
        cell.sort == Some(column) ==> head_span(cell, column, dir).1 == in_bold(
            colored(Color::Yellow),
        ),
        cell.sort is Some && cell.sort != Some(column) ==> head_span(cell, column, dir).1 == in_bold(
            colored(Color::Gray),
        ),
        SortDir::Asc.pointer() == "▲"@,
        SortDir::Desc.pointer() == "▼"@,
{
}

/// The title says how many repos are done and how many run, while they do.
pub proof fn law_title_of_the_list(app: AppState, jobs: usize)
    ensures
        app.progress.all_done ==> concurrency(app, jobs) == ""@,
        !app.progress.all_done && jobs >= app.progress.max_jobs ==> concurrency(app, jobs)
            == " · ⇄ "@ + decimal(tally(app.repos@, RepoStatus::Running { pid: 0 })) + "/"@
            + decimal(jobs as nat),
{
}

} // verus!
