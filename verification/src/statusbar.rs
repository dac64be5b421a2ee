//! The three rows of hints at the bottom of the screen.

use vstd::prelude::*;
use vstd::string::*;

use crate::app::AppState;
use crate::options::{
    ClickRegion, Column, ColumnFlags, Command, Leader, RightView, SortColumn, SortDir, StatusFilter,
};
use crate::screen::{
    across, colored, in_bold, no_lines, one_span, plain_style, step_across, Color, Line, Lines,
    Rect, Style,
};
use crate::spans::{
    compose_status_row, composed, composed_regions, no_segments, Segments, SegmentView,
};
use crate::text::{cat, cat3, cat5, decimal, number};

verus! {

// ---- styles ----

/// A hint.
pub open spec fn hint_style() -> Style {
    colored(Color::DarkGray)
}

/// A hint of what is switched on.
pub open spec fn active_style() -> Style {
    colored(Color::Gray)
}

/// A key.
pub open spec fn key_style() -> Style {
    in_bold(colored(Color::Cyan))
}

/// A style of what would do nothing.
pub open spec fn off(style: Style) -> Style {
    Style { dim: true, ..style }
}

fn hint() -> (res: Style)
    ensures
        res == hint_style(),
{
    Style::color(Color::DarkGray)
}

fn active() -> (res: Style)
    ensures
        res == active_style(),
{
    Style::color(Color::Gray)
}

fn key() -> (res: Style)
    ensures
        res == key_style(),
{
    Style::color(Color::Cyan).with_bold()
}

/// A hint that is brighter while what it names is switched on.
pub open spec fn lit(on: bool) -> Style {
    if on {
        active_style()
    } else {
        hint_style()
    }
}

fn lit_style(on: bool) -> (res: Style)
    ensures
        res == lit(on),
{
    if on {
        active()
    } else {
        hint()
    }
}

// ---- pieces of rows ----

/// A row with a separator after it.
pub open spec fn dot(row: Seq<SegmentView>) -> Seq<SegmentView> {
    row.push((" · "@, hint_style(), None))
}

/// A row with a key and its label after it; both run the command.
pub open spec fn with_key(
    row: Seq<SegmentView>,
    letter: Seq<char>,
    label: Seq<char>,
    label_style: Style,
    command: Command,
) -> Seq<SegmentView> {
    row.push((letter, key_style(), Some(command))).push((label, label_style, Some(command)))
}

/// A row with a menu item after it.
pub open spec fn with_item(
    row: Seq<SegmentView>,
    prefix: Seq<char>,
    letter: Seq<char>,
    label: Seq<char>,
    command: Command,
) -> Seq<SegmentView> {
    row.push((prefix, active_style(), Some(command))).push(
        (letter, key_style(), Some(command)),
    ).push((" "@ + label, active_style(), Some(command)))
}

/// A menu with its way out after it.
pub open spec fn menu_end(row: Seq<SegmentView>) -> Seq<SegmentView> {
    dot(row).push(("esc"@, key_style(), Some(Command::LeaderCancel)))
}

fn push_dot(row: &mut Segments)
    ensures
        final(row)@ == dot(old(row)@),
{
    row.push(" · ", hint(), None);
}

fn push_key(row: &mut Segments, letter: &str, label: &str, label_style: Style, command: Command)
    ensures
        final(row)@ == with_key(old(row)@, letter@, label@, label_style, command),
{
    row.push(letter, key(), Some(command));
    row.push(label, label_style, Some(command));
}

fn push_item(row: &mut Segments, prefix: &str, letter: &str, label: &str, command: Command)
    ensures
        final(row)@ == with_item(old(row)@, prefix@, letter@, label@, command),
{
    row.push(prefix, active(), Some(command));
    row.push(letter, key(), Some(command));
    row.push(cat(" ", label).as_str(), active(), Some(command));
}

fn push_menu_end(row: &mut Segments)
    ensures
        final(row)@ == menu_end(old(row)@),
{
    push_dot(row);
    row.push("esc", key(), Some(Command::LeaderCancel));
}

// ---- the menus ----

/// The mark before a column in the column menu.
pub open spec fn box_mark(on: bool) -> Seq<char> {
    if on {
        "[x] "@
    } else {
        "[ ] "@
    }
}

/// The mark before an option in a menu.
pub open spec fn pick_mark(on: bool) -> Seq<char> {
    if on {
        "● "@
    } else {
        "○ "@
    }
}

fn box_for(on: bool) -> (res: &'static str)
    ensures
        res@ == box_mark(on),
{
    if on {
        "[x] "
    } else {
        "[ ] "
    }
}

fn pick_for(on: bool) -> (res: &'static str)
    ensures
        res@ == pick_mark(on),
{
    if on {
        "● "
    } else {
        "○ "
    }
}

/// A column in the column menu; one that no repo fills is dim and does nothing.
pub open spec fn with_column(
    row: Seq<SegmentView>,
    columns: ColumnFlags,
    available: bool,
    letter: Seq<char>,
    label: Seq<char>,
    column: Column,
) -> Seq<SegmentView> {
    if available {
        with_item(
            row,
            box_mark(columns.shows(column)),
            letter,
            label,
            Command::ToggleColumn(column),
        )
    } else {
        row.push(("[ ] "@, hint_style(), None)).push((letter, hint_style(), None)).push(
            (" "@ + label + " (none)"@, hint_style(), None),
        )
    }
}

fn column_on(columns: ColumnFlags, column: Column) -> (res: bool)
    ensures
        res == columns.shows(column),
{
    match column {
        Column::AheadBehind => columns.ahead_behind,
        Column::Dirty => columns.dirty,
        Column::LastCommit => columns.last_commit,
        Column::Worktrees => columns.worktrees,
        Column::Branches => columns.branches,
        Column::Stashes => columns.stashes,
    }
}

fn push_column(
    row: &mut Segments,
    columns: ColumnFlags,
    available: bool,
    letter: &str,
    label: &str,
    column: Column,
)
    ensures
        final(row)@ == with_column(old(row)@, columns, available, letter@, label@, column),
{
    if available {
        push_item(
            row,
            box_for(column_on(columns, column)),
            letter,
            label,
            Command::ToggleColumn(column),
        );
    } else {
        row.push("[ ] ", hint(), None);
        row.push(letter, hint(), None);
        row.push(cat3(" ", label, " (none)").as_str(), hint(), None);
    }
}

/// Which of the columns that may be empty some repo fills.
#[derive(Debug, Clone, Copy, PartialEq, Eq, Structural)]
pub struct Available {
    pub worktrees: bool,
    pub branches: bool,
    pub stashes: bool,
}

/// The column menu.
pub open spec fn column_menu(columns: ColumnFlags, available: Available) -> Seq<SegmentView> {
    let start = no_segments().push(("cols: "@, hint_style(), None));
    let a = with_column(start, columns, true, "a"@, "ahead/behind"@, Column::AheadBehind);
    let d = with_column(dot(a), columns, true, "d"@, "dirty"@, Column::Dirty);
    let l = with_column(dot(d), columns, true, "l"@, "last-commit"@, Column::LastCommit);
    let w = with_column(
        dot(l),
        columns,
        available.worktrees,
        "w"@,
        "worktrees"@,
        Column::Worktrees,
    );
    let b = with_column(
        dot(w),
        columns,
        available.branches,
        "b"@,
        "branches"@,
        Column::Branches,
    );
    let s = with_column(dot(b), columns, available.stashes, "s"@, "stashes"@, Column::Stashes);
    menu_end(s)
}

fn build_column_menu(columns: ColumnFlags, available: Available) -> (res: Segments)
    ensures
        res@ == column_menu(columns, available),
{
    let mut row = Segments::new();
    row.push("cols: ", hint(), None);
    push_column(&mut row, columns, true, "a", "ahead/behind", Column::AheadBehind);
    push_dot(&mut row);
    push_column(&mut row, columns, true, "d", "dirty", Column::Dirty);
    push_dot(&mut row);
    push_column(&mut row, columns, true, "l", "last-commit", Column::LastCommit);
    push_dot(&mut row);
    push_column(&mut row, columns, available.worktrees, "w", "worktrees", Column::Worktrees);
    push_dot(&mut row);
    push_column(&mut row, columns, available.branches, "b", "branches", Column::Branches);
    push_dot(&mut row);
    push_column(&mut row, columns, available.stashes, "s", "stashes", Column::Stashes);
    push_menu_end(&mut row);
    row
}

/// A filter in the filter menu.
pub open spec fn with_filter(
    row: Seq<SegmentView>,
    chosen: StatusFilter,
    letter: Seq<char>,
    label: Seq<char>,
    filter: StatusFilter,
) -> Seq<SegmentView> {
    with_item(row, pick_mark(chosen == filter), letter, label, Command::SetFilter(filter))
}

fn push_filter(
    row: &mut Segments,
    chosen: StatusFilter,
    letter: &str,
    label: &str,
    filter: StatusFilter,
)
    ensures
        final(row)@ == with_filter(old(row)@, chosen, letter@, label@, filter),
{
    push_item(row, pick_for(chosen == filter), letter, label, Command::SetFilter(filter));
}

/// The filter menu.
pub open spec fn filter_menu(chosen: StatusFilter) -> Seq<SegmentView> {
    let start = no_segments().push(("filter: "@, hint_style(), None));
    let a = with_filter(start, chosen, "a"@, "all"@, StatusFilter::All);
    let u = with_filter(dot(a), chosen, "u"@, "updated"@, StatusFilter::Updated);
    let c = with_filter(dot(u), chosen, "c"@, "up-to-date"@, StatusFilter::UpToDate);
    let s = with_filter(dot(c), chosen, "s"@, "skipped"@, StatusFilter::Skipped);
    let f = with_filter(dot(s), chosen, "f"@, "failed"@, StatusFilter::Failed);
    let i = with_filter(dot(f), chosen, "i"@, "issues"@, StatusFilter::Issues);
    menu_end(i)
}

fn build_filter_menu(chosen: StatusFilter) -> (res: Segments)
    ensures
        res@ == filter_menu(chosen),
{
    let mut row = Segments::new();
    row.push("filter: ", hint(), None);
    push_filter(&mut row, chosen, "a", "all", StatusFilter::All);
    push_dot(&mut row);
    push_filter(&mut row, chosen, "u", "updated", StatusFilter::Updated);
    push_dot(&mut row);
    push_filter(&mut row, chosen, "c", "up-to-date", StatusFilter::UpToDate);
    push_dot(&mut row);
    push_filter(&mut row, chosen, "s", "skipped", StatusFilter::Skipped);
    push_dot(&mut row);
    push_filter(&mut row, chosen, "f", "failed", StatusFilter::Failed);
    push_dot(&mut row);
    push_filter(&mut row, chosen, "i", "issues", StatusFilter::Issues);
    push_menu_end(&mut row);
    row
}

/// A column in the sort menu; the one that is sorted by shows the direction.
pub open spec fn with_sort(
    row: Seq<SegmentView>,
    chosen: SortColumn,
    dir: SortDir,
    letter: Seq<char>,
    column: SortColumn,
) -> Seq<SegmentView> {
    with_item(
        row,
        pick_mark(chosen == column),
        letter,
        if chosen == column {
            column.named() + dir.pointer()
        } else {
            column.named()
        },
        Command::SetSort(column),
    )
}

fn push_sort(row: &mut Segments, chosen: SortColumn, dir: SortDir, letter: &str, column: SortColumn)
    ensures
        final(row)@ == with_sort(old(row)@, chosen, dir, letter@, column),
{
    if chosen == column {
        let label = cat(column.label(), dir.arrow());
        push_item(row, pick_for(true), letter, label.as_str(), Command::SetSort(column));
    } else {
        push_item(row, pick_for(false), letter, column.label(), Command::SetSort(column));
    }
}

/// The sort menu.
pub open spec fn sort_menu(chosen: SortColumn, dir: SortDir) -> Seq<SegmentView> {
    let start = no_segments().push(("sort: "@, hint_style(), None));
    let n = with_sort(start, chosen, dir, "n"@, SortColumn::Name);
    let c = with_sort(dot(n), chosen, dir, "c"@, SortColumn::Branch);
    let s = with_sort(dot(c), chosen, dir, "s"@, SortColumn::Status);
    let a = with_sort(dot(s), chosen, dir, "a"@, SortColumn::AheadBehind);
    let d = with_sort(dot(a), chosen, dir, "d"@, SortColumn::Dirty);
    let l = with_sort(dot(d), chosen, dir, "l"@, SortColumn::LastCommit);
    let w = with_sort(dot(l), chosen, dir, "w"@, SortColumn::Worktrees);
    let b = with_sort(dot(w), chosen, dir, "b"@, SortColumn::Branches);
    let k = with_sort(dot(b), chosen, dir, "k"@, SortColumn::Stashes);
    menu_end(k)
}

fn build_sort_menu(chosen: SortColumn, dir: SortDir) -> (res: Segments)
    ensures
        res@ == sort_menu(chosen, dir),
{
    let mut row = Segments::new();
    row.push("sort: ", hint(), None);
    push_sort(&mut row, chosen, dir, "n", SortColumn::Name);
    push_dot(&mut row);
    push_sort(&mut row, chosen, dir, "c", SortColumn::Branch);
    push_dot(&mut row);
    push_sort(&mut row, chosen, dir, "s", SortColumn::Status);
    push_dot(&mut row);
    push_sort(&mut row, chosen, dir, "a", SortColumn::AheadBehind);
    push_dot(&mut row);
    push_sort(&mut row, chosen, dir, "d", SortColumn::Dirty);
    push_dot(&mut row);
    push_sort(&mut row, chosen, dir, "l", SortColumn::LastCommit);
    push_dot(&mut row);
    push_sort(&mut row, chosen, dir, "w", SortColumn::Worktrees);
    push_dot(&mut row);
    push_sort(&mut row, chosen, dir, "b", SortColumn::Branches);
    push_dot(&mut row);
    push_sort(&mut row, chosen, dir, "k", SortColumn::Stashes);
    push_menu_end(&mut row);
    row
}

/// What there is to show besides the flat list, and what of it is shown.
#[derive(Debug, Clone, Copy, PartialEq, Eq, Structural)]
pub struct Sections {
    /// Groups are configured.
    pub groups: bool,
    /// The scan found nested folders.
    pub folders: bool,
    pub grouping_on: bool,
    pub tree_on: bool,
}

/// What there is to show besides the flat list.
pub open spec fn sections_in(app: AppState) -> Sections {
    Sections {
        groups: app.outline.groups@.len() > 0,
        folders: app.deepest() > 0,
        grouping_on: app.grouping_active(),
        tree_on: app.tree_active(),
    }
}

/// What there is to show besides the flat list.
pub fn sections_of(app: &AppState) -> (res: Sections)
    ensures
        res == sections_in(*app),
{
    Sections {
        groups: app.outline.groups.len() > 0,
        folders: app.deepest_repo() > 0,
        grouping_on: app.is_grouping(),
        tree_on: app.is_tree(),
    }
}

/// The view menu.
pub open spec fn view_menu(sections: Sections) -> Seq<SegmentView> {
    let start = no_segments().push(("view: "@, hint_style(), None));
    let g = with_item(
        start,
        pick_mark(sections.grouping_on),
        "g"@,
        "grouped"@,
        Command::GroupingToggle,
    );
    let t = with_item(dot(g), pick_mark(sections.tree_on), "t"@, "tree"@, Command::TreeToggle);
    menu_end(t)
}

fn build_view_menu(sections: Sections) -> (res: Segments)
    ensures
        res@ == view_menu(sections),
{
    let mut row = Segments::new();
    row.push("view: ", hint(), None);
    push_item(&mut row, pick_for(sections.grouping_on), "g", "grouped", Command::GroupingToggle);
    push_dot(&mut row);
    push_item(&mut row, pick_for(sections.tree_on), "t", "tree", Command::TreeToggle);
    push_menu_end(&mut row);
    row
}

/// The fold menu.
pub open spec fn fold_menu() -> Seq<SegmentView> {
    let start = no_segments().push(("fold: "@, hint_style(), None));
    let c = with_item(start, ""@, "-"@, "collapse all"@, Command::FoldCollapseAll);
    let e = with_item(dot(c), ""@, "+"@, "expand all"@, Command::FoldExpandAll);
    let s = with_item(dot(e), ""@, "*"@, "expand subtree"@, Command::FoldExpandSubtree);
    menu_end(s)
}

fn build_fold_menu() -> (res: Segments)
    ensures
        res@ == fold_menu(),
{
    let mut row = Segments::new();
    row.push("fold: ", hint(), None);
    push_item(&mut row, "", "-", "collapse all", Command::FoldCollapseAll);
    push_dot(&mut row);
    push_item(&mut row, "", "+", "expand all", Command::FoldExpandAll);
    push_dot(&mut row);
    push_item(&mut row, "", "*", "expand subtree", Command::FoldExpandSubtree);
    push_menu_end(&mut row);
    row
}

// ---- the first row ----

/// The first row without a menu: moving and viewing. There is something to fold only in the
/// tree and the grouped view.
pub open spec fn move_row(info_on: bool, diff_on: bool, sections: Sections) -> Seq<SegmentView> {
    let start = no_segments().push(("j/k"@, key_style(), None)).push(
        (" move · "@, hint_style(), None),
    );
    let result = with_key(start, "space"@, " result"@, hint_style(), Command::ResultOverlay);
    let info = with_key(dot(result), "i"@, " info"@, lit(info_on), Command::Info);
    let diff = with_key(dot(info), "d"@, " diff"@, lit(diff_on), Command::DiffView);
    let focus = with_key(dot(diff), "tab"@, " focus"@, hint_style(), Command::FocusToggle);
    if sections.tree_on || sections.grouping_on {
        let arrows = dot(focus).push(("←/→"@, key_style(), None)).push(
            (" fold"@, hint_style(), None),
        );
        let collapse = dot(arrows).push(("-"@, key_style(), Some(Command::FoldCollapseAll))).push(
            ("/"@, hint_style(), None),
        );
        let all = with_key(collapse, "+"@, " all"@, hint_style(), Command::FoldExpandAll);
        with_key(dot(all), "*"@, " subtree"@, hint_style(), Command::FoldExpandSubtree)
    } else {
        focus
    }
}

fn build_move_row(info_on: bool, diff_on: bool, sections: Sections) -> (res: Segments)
    ensures
        res@ == move_row(info_on, diff_on, sections),
{
    let mut row = Segments::new();
    row.push("j/k", key(), None);
    row.push(" move · ", hint(), None);
    push_key(&mut row, "space", " result", hint(), Command::ResultOverlay);
    push_dot(&mut row);
    push_key(&mut row, "i", " info", lit_style(info_on), Command::Info);
    push_dot(&mut row);
    push_key(&mut row, "d", " diff", lit_style(diff_on), Command::DiffView);
    push_dot(&mut row);
    push_key(&mut row, "tab", " focus", hint(), Command::FocusToggle);
    if sections.tree_on || sections.grouping_on {
        push_dot(&mut row);
        row.push("←/→", key(), None);
        row.push(" fold", hint(), None);
        push_dot(&mut row);
        row.push("-", key(), Some(Command::FoldCollapseAll));
        row.push("/", hint(), None);
        push_key(&mut row, "+", " all", hint(), Command::FoldExpandAll);
        push_dot(&mut row);
        push_key(&mut row, "*", " subtree", hint(), Command::FoldExpandSubtree);
    }
    row
}

/// Which columns of the list some repo fills.
pub open spec fn available(app: AppState) -> Available {
    Available {
        worktrees: app.has_data(Column::Worktrees),
        branches: app.has_data(Column::Branches),
        stashes: app.has_data(Column::Stashes),
    }
}

/// The left side of the first row: a menu, or moving and viewing.
pub open spec fn first_row(app: AppState, sections: Sections) -> Seq<SegmentView> {
    match app.pending_leader {
        Some(Leader::Toggle) => column_menu(app.prefs.columns, available(app)),
        Some(Leader::Filter) => filter_menu(app.status_filter),
        Some(Leader::Sort) => sort_menu(app.prefs.sort_column, app.prefs.sort_dir),
        Some(Leader::View) => view_menu(sections),
        Some(Leader::Fold) => fold_menu(),
        None => move_row(app.prefs.info_pinned, app.right_view is Diff, sections),
    }
}

/// The right side of the first row: the version, but not beside a menu.
pub open spec fn first_right(app: AppState, version: Seq<char>) -> Seq<SegmentView> {
    if app.pending_leader is None {
        no_segments().push(("v"@ + version, hint_style(), None))
    } else {
        no_segments()
    }
}

fn build_first_row(app: &AppState, sections: Sections) -> (res: Segments)
    requires
        app.wf(),
    ensures
        res@ == first_row(*app, sections),
{
    match app.pending_leader {
        Some(Leader::Toggle) => {
            let available = Available {
                worktrees: app.column_available(Column::Worktrees),
                branches: app.column_available(Column::Branches),
                stashes: app.column_available(Column::Stashes),
            };
            build_column_menu(app.prefs.columns, available)
        },
        Some(Leader::Filter) => build_filter_menu(app.status_filter),
        Some(Leader::Sort) => build_sort_menu(app.prefs.sort_column, app.prefs.sort_dir),
        Some(Leader::View) => build_view_menu(sections),
        Some(Leader::Fold) => build_fold_menu(),
        None => {
            let diff_on = match app.right_view {
                RightView::Diff => true,
                RightView::Log => false,
            };
            build_move_row(app.prefs.info_pinned, diff_on, sections)
        },
    }
}

// ---- the second row ----

/// The text of the name filter.
pub open spec fn filter_text(app: AppState) -> Seq<char> {
    match app.filter {
        Some(filter) => filter@,
        None => ""@,
    }
}

/// The second row: finding and layout. What is filtered or sorted by stands after its hint and
/// can be clicked away.
pub open spec fn find_row(
    needle: Option<String>,
    filter: StatusFilter,
    column: SortColumn,
    dir: SortDir,
    sections: Sections,
) -> Seq<SegmentView> {
    let by_name = with_key(no_segments(), "/"@, " filter"@, hint_style(), Command::NameFilter);
    let named = match needle {
        Some(needle) => if needle@.len() > 0 {
            by_name.push((" "@, hint_style(), None)).push(
                ("["@ + needle@ + "]"@, active_style(), Some(Command::ClearNameFilter)),
            )
        } else {
            by_name
        },
        None => by_name,
    };
    let by_status = with_key(
        dot(named),
        "f"@,
        " by-status"@,
        hint_style(),
        Command::FilterLeader,
    );
    let filtered = match filter.label() {
        Some(tag) => by_status.push((" "@, hint_style(), None)).push(
            ("{"@ + tag + "}"@, active_style(), Some(Command::SetFilter(StatusFilter::All))),
        ),
        None => by_status,
    };
    let sort = with_key(dot(filtered), "s"@, " sort"@, hint_style(), Command::SortLeader);
    let sorted = sort.push((" "@, hint_style(), None)).push(
        (
            "⟪"@ + column.named() + " "@ + dir.pointer() + "⟫"@,
            active_style(),
            Some(Command::FlipSort),
        ),
    );
    let cols = with_key(dot(sorted), "t"@, " cols"@, hint_style(), Command::ToggleLeader);
    let groups = if sections.groups {
        with_key(
            dot(cols),
            "vg"@,
            " groups"@,
            lit(sections.grouping_on),
            Command::GroupingToggle,
        )
    } else {
        cols
    };
    let tree = if sections.folders {
        with_key(dot(groups), "vt"@, " tree"@, lit(sections.tree_on), Command::TreeToggle)
    } else {
        groups
    };
    dot(tree).push(("[ "@, key_style(), Some(Command::SplitNarrow))).push(
        ("] "@, key_style(), Some(Command::SplitWiden)),
    ).push(("resize"@, hint_style(), None))
}

fn build_find_row(
    needle: &Option<String>,
    filter: StatusFilter,
    column: SortColumn,
    dir: SortDir,
    sections: Sections,
) -> (res: Segments)
    ensures
        res@ == find_row(*needle, filter, column, dir, sections),
{
    let mut row = Segments::new();
    push_key(&mut row, "/", " filter", hint(), Command::NameFilter);
    match needle {
        Some(needle) => {
            if !needle.as_str().is_empty() {
                row.push(" ", hint(), None);
                row.push(
                    cat3("[", needle.as_str(), "]").as_str(),
                    active(),
                    Some(Command::ClearNameFilter),
                );
            }
        },
        None => {},
    }
    push_dot(&mut row);
    push_key(&mut row, "f", " by-status", hint(), Command::FilterLeader);
    match filter.tag() {
        Some(tag) => {
            row.push(" ", hint(), None);
            row.push(
                cat3("{", tag, "}").as_str(),
                active(),
                Some(Command::SetFilter(StatusFilter::All)),
            );
        },
        None => {},
    }
    push_dot(&mut row);
    push_key(&mut row, "s", " sort", hint(), Command::SortLeader);
    row.push(" ", hint(), None);
    row.push(
        cat5("⟪", column.label(), " ", dir.arrow(), "⟫").as_str(),
        active(),
        Some(Command::FlipSort),
    );
    push_dot(&mut row);
    push_key(&mut row, "t", " cols", hint(), Command::ToggleLeader);
    if sections.groups {
        push_dot(&mut row);
        push_key(
            &mut row,
            "vg",
            " groups",
            lit_style(sections.grouping_on),
            Command::GroupingToggle,
        );
    }
    if sections.folders {
        push_dot(&mut row);
        push_key(&mut row, "vt", " tree", lit_style(sections.tree_on), Command::TreeToggle);
    }
    push_dot(&mut row);
    row.push("[ ", key(), Some(Command::SplitNarrow));
    row.push("] ", key(), Some(Command::SplitWiden));
    row.push("resize", hint(), None);
    row
}

/// How long ago something was.
pub open spec fn ago(seconds: u64) -> Seq<char> {
    if seconds < 60 {
        decimal(seconds as nat) + "s ago"@
    } else if seconds < 3_600 {
        decimal((seconds / 60) as nat) + "m ago"@
    } else if seconds < 86_400 {
        decimal((seconds / 3_600) as nat) + "h ago"@
    } else {
        decimal((seconds / 86_400) as nat) + "d ago"@
    }
}

/// How long ago something was, in its largest unit.
pub fn format_ago(seconds: u64) -> (res: String)
    ensures
        res@ == ago(seconds),
{
    if seconds < 60 {
        cat(number(seconds).as_str(), "s ago")
    } else if seconds < 3_600 {
        cat(number(seconds / 60).as_str(), "m ago")
    } else if seconds < 86_400 {
        cat(number(seconds / 3_600).as_str(), "h ago")
    } else {
        cat(number(seconds / 86_400).as_str(), "d ago")
    }
}

/// The right side of the second row: the age of the build, where it is known.
pub open spec fn second_right(built: Option<u64>) -> Seq<SegmentView> {
    match built {
        Some(seconds) => no_segments().push(
            ("built "@ + ago(seconds), hint_style(), Some(Command::ShowBuildInfo)),
        ),
        None => no_segments(),
    }
}

// ---- the third row ----

/// Which reruns would do something.
#[derive(Debug, Clone, Copy, PartialEq, Eq, Structural)]
pub struct Reruns {
    pub retry: bool,
    pub retry_all: bool,
    pub refetch: bool,
    pub refetch_all: bool,
}

/// Which reruns would do something.
pub open spec fn is_reruns(app: AppState, reruns: Reruns) -> bool {
    &&& reruns.retry == (app.current_status() is Some && app.current_status()->0.retryable())
    &&& reruns.refetch == (app.current_status() is Some && app.current_status()->0.terminal())
    &&& reruns.retry_all == exists|k: int|
        0 <= k < app.repos@.len() && (#[trigger] app.repos@[k]).status.retryable()
    &&& reruns.refetch_all == exists|k: int|
        0 <= k < app.repos@.len() && (#[trigger] app.repos@[k]).status.terminal()
}

/// A key that is faded where it would do nothing.
pub open spec fn key_if(on: bool) -> Style {
    if on {
        key_style()
    } else {
        off(hint_style())
    }
}

/// A hint that is faded where it would do nothing.
pub open spec fn hint_if(on: bool) -> Style {
    if on {
        hint_style()
    } else {
        off(hint_style())
    }
}

fn key_when(on: bool) -> (res: Style)
    ensures
        res == key_if(on),
{
    if on {
        key()
    } else {
        hint().with_dim()
    }
}

fn hint_when(on: bool) -> (res: Style)
    ensures
        res == hint_if(on),
{
    if on {
        hint()
    } else {
        hint().with_dim()
    }
}

/// The third row: the actions.
pub open spec fn action_row(reruns: Reruns, assistant: Seq<char>) -> Seq<SegmentView> {
    let refetch = no_segments().push(("e"@, key_if(reruns.refetch), Some(Command::Refetch))).push(
        ("/"@, hint_if(reruns.refetch_all), None),
    ).push(("E"@, key_if(reruns.refetch_all), Some(Command::RefetchAll))).push(
        (" refetch"@, hint_if(reruns.refetch_all), Some(Command::RefetchAll)),
    );
    let retry = dot(refetch).push(("r"@, key_if(reruns.retry), Some(Command::Retry))).push(
        ("/"@, hint_if(reruns.retry_all), None),
    ).push(("R"@, key_if(reruns.retry_all), Some(Command::RetryAll))).push(
        (" retry"@, hint_if(reruns.retry_all), Some(Command::RetryAll)),
    );
    let page = with_key(dot(retry), "enter"@, " page"@, hint_style(), Command::OpenPage);
    let run = with_key(dot(page), "c"@, " "@ + assistant, hint_style(), Command::Claude);
    let lazygit = with_key(dot(run), "l"@, " lazygit"@, hint_style(), Command::Lazygit);
    let open = with_key(dot(lazygit), "o"@, " open"@, hint_style(), Command::OpenRemote);
    dot(open).push(("y"@, key_style(), Some(Command::CopyPath))).push(
        ("/"@, hint_style(), None),
    ).push(("Y"@, key_style(), Some(Command::CopyRemote))).push(
        (" copy"@, hint_style(), Some(Command::CopyPath)),
    )
}

fn build_action_row(reruns: Reruns, assistant: &str) -> (res: Segments)
    ensures
        res@ == action_row(reruns, assistant@),
{
    let mut row = Segments::new();
    row.push("e", key_when(reruns.refetch), Some(Command::Refetch));
    row.push("/", hint_when(reruns.refetch_all), None);
    row.push("E", key_when(reruns.refetch_all), Some(Command::RefetchAll));
    row.push(" refetch", hint_when(reruns.refetch_all), Some(Command::RefetchAll));
    push_dot(&mut row);
    row.push("r", key_when(reruns.retry), Some(Command::Retry));
    row.push("/", hint_when(reruns.retry_all), None);
    row.push("R", key_when(reruns.retry_all), Some(Command::RetryAll));
    row.push(" retry", hint_when(reruns.retry_all), Some(Command::RetryAll));
    push_dot(&mut row);
    push_key(&mut row, "enter", " page", hint(), Command::OpenPage);
    push_dot(&mut row);
    push_key(&mut row, "c", cat(" ", assistant).as_str(), hint(), Command::Claude);
    push_dot(&mut row);
    push_key(&mut row, "l", " lazygit", hint(), Command::Lazygit);
    push_dot(&mut row);
    push_key(&mut row, "o", " open", hint(), Command::OpenRemote);
    push_dot(&mut row);
    row.push("y", key(), Some(Command::CopyPath));
    row.push("/", hint(), None);
    row.push("Y", key(), Some(Command::CopyRemote));
    row.push(" copy", hint(), Some(Command::CopyPath));
    row
}

/// The right side of the third row: settings, help, quit.
pub open spec fn third_right() -> Seq<SegmentView> {
    let settings = with_key(no_segments(), ","@, " settings"@, hint_style(), Command::Settings);
    let help = with_key(dot(settings), "?"@, " help"@, hint_style(), Command::Help);
    with_key(dot(help), "q"@, " quit"@, hint_style(), Command::Quit)
}

fn build_third_right() -> (res: Segments)
    ensures
        res@ == third_right(),
{
    let mut row = Segments::new();
    push_key(&mut row, ",", " settings", hint(), Command::Settings);
    push_dot(&mut row);
    push_key(&mut row, "?", " help", hint(), Command::Help);
    push_dot(&mut row);
    push_key(&mut row, "q", " quit", hint(), Command::Quit);
    row
}

// ---- the bar ----

/// The status bar: its rows, and what can be clicked in them.
#[derive(Debug)]
pub struct StatusBar {
    pub lines: Lines,
    pub clickable: Vec<ClickRegion>,
}

/// What the status bar shows and does.
pub open spec fn is_status_bar(
    app: AppState,
    sections: Sections,
    version: Seq<char>,
    built: Option<u64>,
    assistant: Seq<char>,
    area: Rect,
    reruns: Reruns,
    bar: StatusBar,
) -> bool {
    let prompt = one_span("Filter: "@ + filter_text(app), plain_style());
    let row1 = first_row(app, sections);
    let right1 = first_right(app, version);
    let row2 = find_row(
        app.filter,
        app.status_filter,
        app.prefs.sort_column,
        app.prefs.sort_dir,
        sections,
    );
    let right2 = second_right(built);
    let row3 = action_row(reruns, assistant);
    let right3 = third_right();
    &&& bar.lines@ == no_lines().push(
        if app.filter_input_mode {
            prompt
        } else {
            composed(row1, right1, area, hint_style())
        },
    ).push(composed(row2, right2, area, hint_style())).push(
        composed(row3, right3, area, hint_style()),
    )
    &&& bar.clickable@ == (if app.filter_input_mode {
        Seq::<ClickRegion>::empty()
    } else {
        composed_regions(row1, right1, area, area.y)
    }) + composed_regions(row2, right2, area, across(area.y, 1)) + composed_regions(
        row3,
        right3,
        area,
        across(area.y, 2),
    )
}

/// The status bar. While the name filter is typed, its prompt takes the first row. `assistant`
/// is the name of the coding assistant that `c` runs.
pub fn status_bar(
    app: &AppState,
    version: &str,
    built: Option<u64>,
    assistant: &str,
    area: Rect,
) -> (res: StatusBar)
    requires
        app.wf(),
    ensures
        exists|reruns: Reruns|
            #[trigger] is_reruns(*app, reruns) && is_status_bar(
                *app,
                sections_in(*app),
                version@,
                built,
                assistant@,
                area,
                reruns,
                res,
            ),
{
    let sections = sections_of(app);
    let reruns = Reruns {
        retry: app.selected_repo_retryable(),
        retry_all: app.any_retryable(),
        refetch: app.selected_repo_refetchable(),
        refetch_all: app.any_refetchable(),
    };
    assert(is_reruns(*app, reruns));
    let mut lines = Lines::new();
    let mut clickable: Vec<ClickRegion> = Vec::new();
    if app.filter_input_mode {
        let typed: &str = match &app.filter {
            Some(filter) => filter.as_str(),
            None => "",
        };
        lines.push(Line::of(cat("Filter: ", typed).as_str(), Style::plain()));
    } else {
        let row = build_first_row(app, sections);
        let mut right = Segments::new();
        if app.pending_leader.is_none() {
            right.push(cat("v", version).as_str(), hint(), None);
        }
        lines.push(compose_status_row(&row, &right, area, area.y, &mut clickable, hint()));
    }
    let ghost first = clickable@;
    assert(first =~= if app.filter_input_mode {
        Seq::<ClickRegion>::empty()
    } else {
        composed_regions(first_row(*app, sections), first_right(*app, version@), area, area.y)
    });
    let row = build_find_row(
        &app.filter,
        app.status_filter,
        app.prefs.sort_column,
        app.prefs.sort_dir,
        sections,
    );
    let mut right = Segments::new();
    match built {
        Some(seconds) => right.push(
            cat("built ", format_ago(seconds).as_str()).as_str(),
            hint(),
            Some(Command::ShowBuildInfo),
        ),
        None => {},
    }
    let y: u16 = step_across(area.y, 1);
    lines.push(compose_status_row(&row, &right, area, y, &mut clickable, hint()));
    let row = build_action_row(reruns, assistant);
    let right = build_third_right();
    let y: u16 = step_across(area.y, 2);
    lines.push(compose_status_row(&row, &right, area, y, &mut clickable, hint()));
    StatusBar { lines, clickable }
}

// ---- the menus name what the keys do ----

/// Each entry of the filter menu shows the letter of its filter, is marked exactly if that filter
/// is on, and a click on it sets that filter.
pub proof fn law_filter_menu(chosen: StatusFilter)
    ensures
        filter_menu(chosen)[1].0 == (if chosen is All { "● "@ } else { "○ "@ }),
        filter_menu(chosen)[2].0 == "a"@ && filter_menu(chosen)[2].2 == Some(Command::SetFilter(StatusFilter::All)),
        filter_menu(chosen)[3].0 == " "@ + "all"@ && filter_menu(chosen)[3].2 == Some(Command::SetFilter(StatusFilter::All)),
        filter_menu(chosen)[5].0 == (if chosen is Updated { "● "@ } else { "○ "@ }),
        filter_menu(chosen)[6].0 == "u"@ && filter_menu(chosen)[6].2 == Some(Command::SetFilter(StatusFilter::Updated)),
        filter_menu(chosen)[7].0 == " "@ + "updated"@ && filter_menu(chosen)[7].2 == Some(Command::SetFilter(StatusFilter::Updated)),
        filter_menu(chosen)[9].0 == (if chosen is UpToDate { "● "@ } else { "○ "@ }),
        filter_menu(chosen)[10].0 == "c"@ && filter_menu(chosen)[10].2 == Some(Command::SetFilter(StatusFilter::UpToDate)),
        filter_menu(chosen)[11].0 == " "@ + "up-to-date"@ && filter_menu(chosen)[11].2 == Some(Command::SetFilter(StatusFilter::UpToDate)),
        filter_menu(chosen)[13].0 == (if chosen is Skipped { "● "@ } else { "○ "@ }),
        filter_menu(chosen)[14].0 == "s"@ && filter_menu(chosen)[14].2 == Some(Command::SetFilter(StatusFilter::Skipped)),
        filter_menu(chosen)[15].0 == " "@ + "skipped"@ && filter_menu(chosen)[15].2 == Some(Command::SetFilter(StatusFilter::Skipped)),
        filter_menu(chosen)[17].0 == (if chosen is Failed { "● "@ } else { "○ "@ }),
        filter_menu(chosen)[18].0 == "f"@ && filter_menu(chosen)[18].2 == Some(Command::SetFilter(StatusFilter::Failed)),
        filter_menu(chosen)[19].0 == " "@ + "failed"@ && filter_menu(chosen)[19].2 == Some(Command::SetFilter(StatusFilter::Failed)),
        filter_menu(chosen)[21].0 == (if chosen is Issues { "● "@ } else { "○ "@ }),
        filter_menu(chosen)[22].0 == "i"@ && filter_menu(chosen)[22].2 == Some(Command::SetFilter(StatusFilter::Issues)),
        filter_menu(chosen)[23].0 == " "@ + "issues"@ && filter_menu(chosen)[23].2 == Some(Command::SetFilter(StatusFilter::Issues)),
{
}

/// Each entry of the sort menu shows the letter of its column, is marked exactly if the list is
/// sorted by it, and a click on it sorts by that column.
pub proof fn law_sort_menu(chosen: SortColumn, dir: SortDir)
    ensures
        sort_menu(chosen, dir)[1].0 == (if chosen is Name { "● "@ } else { "○ "@ }),
        sort_menu(chosen, dir)[2].0 == "n"@ && sort_menu(chosen, dir)[2].2 == Some(Command::SetSort(SortColumn::Name)),
        chosen !is Name ==> sort_menu(chosen, dir)[3].0 == " "@ + "name"@,
        sort_menu(chosen, dir)[5].0 == (if chosen is Branch { "● "@ } else { "○ "@ }),
        sort_menu(chosen, dir)[6].0 == "c"@ && sort_menu(chosen, dir)[6].2 == Some(Command::SetSort(SortColumn::Branch)),
        chosen !is Branch ==> sort_menu(chosen, dir)[7].0 == " "@ + "branch"@,
        sort_menu(chosen, dir)[9].0 == (if chosen is Status { "● "@ } else { "○ "@ }),
        sort_menu(chosen, dir)[10].0 == "s"@ && sort_menu(chosen, dir)[10].2 == Some(Command::SetSort(SortColumn::Status)),
        chosen !is Status ==> sort_menu(chosen, dir)[11].0 == " "@ + "status"@,
        sort_menu(chosen, dir)[13].0 == (if chosen is AheadBehind { "● "@ } else { "○ "@ }),
        sort_menu(chosen, dir)[14].0 == "a"@ && sort_menu(chosen, dir)[14].2 == Some(Command::SetSort(SortColumn::AheadBehind)),
        chosen !is AheadBehind ==> sort_menu(chosen, dir)[15].0 == " "@ + "ahead/behind"@,
        sort_menu(chosen, dir)[17].0 == (if chosen is Dirty { "● "@ } else { "○ "@ }),
        sort_menu(chosen, dir)[18].0 == "d"@ && sort_menu(chosen, dir)[18].2 == Some(Command::SetSort(SortColumn::Dirty)),
        chosen !is Dirty ==> sort_menu(chosen, dir)[19].0 == " "@ + "dirty"@,
        sort_menu(chosen, dir)[21].0 == (if chosen is LastCommit { "● "@ } else { "○ "@ }),
        sort_menu(chosen, dir)[22].0 == "l"@ && sort_menu(chosen, dir)[22].2 == Some(Command::SetSort(SortColumn::LastCommit)),
        chosen !is LastCommit ==> sort_menu(chosen, dir)[23].0 == " "@ + "last-commit"@,
        sort_menu(chosen, dir)[25].0 == (if chosen is Worktrees { "● "@ } else { "○ "@ }),
        sort_menu(chosen, dir)[26].0 == "w"@ && sort_menu(chosen, dir)[26].2 == Some(Command::SetSort(SortColumn::Worktrees)),
        chosen !is Worktrees ==> sort_menu(chosen, dir)[27].0 == " "@ + "worktrees"@,
        sort_menu(chosen, dir)[29].0 == (if chosen is Branches { "● "@ } else { "○ "@ }),
        sort_menu(chosen, dir)[30].0 == "b"@ && sort_menu(chosen, dir)[30].2 == Some(Command::SetSort(SortColumn::Branches)),
        chosen !is Branches ==> sort_menu(chosen, dir)[31].0 == " "@ + "branches"@,
        sort_menu(chosen, dir)[33].0 == (if chosen is Stashes { "● "@ } else { "○ "@ }),
        sort_menu(chosen, dir)[34].0 == "k"@ && sort_menu(chosen, dir)[34].2 == Some(Command::SetSort(SortColumn::Stashes)),
        chosen !is Stashes ==> sort_menu(chosen, dir)[35].0 == " "@ + "stashes"@,
{
}

/// Each entry of the column menu shows the letter of its column, and is ticked exactly if the
/// column is shown.
pub proof fn law_column_menu(columns: ColumnFlags, available: Available)
    requires
        available.worktrees && available.branches && available.stashes,
    ensures
        column_menu(columns, available)[1].0 == (if columns.ahead_behind { "[x] "@ } else { "[ ] "@ }),
        column_menu(columns, available)[2].0 == "a"@ && column_menu(columns, available)[2].2 == Some(
            Command::ToggleColumn(Column::AheadBehind),
        ),
        column_menu(columns, available)[3].0 == " "@ + "ahead/behind"@,
        column_menu(columns, available)[5].0 == (if columns.dirty { "[x] "@ } else { "[ ] "@ }),
        column_menu(columns, available)[6].0 == "d"@ && column_menu(columns, available)[6].2 == Some(
            Command::ToggleColumn(Column::Dirty),
        ),
        column_menu(columns, available)[7].0 == " "@ + "dirty"@,
        column_menu(columns, available)[9].0 == (if columns.last_commit { "[x] "@ } else { "[ ] "@ }),
        column_menu(columns, available)[10].0 == "l"@ && column_menu(columns, available)[10].2 == Some(
            Command::ToggleColumn(Column::LastCommit),
        ),
        column_menu(columns, available)[11].0 == " "@ + "last-commit"@,
        column_menu(columns, available)[13].0 == (if columns.worktrees { "[x] "@ } else { "[ ] "@ }),
        column_menu(columns, available)[14].0 == "w"@ && column_menu(columns, available)[14].2 == Some(
            Command::ToggleColumn(Column::Worktrees),
        ),
        column_menu(columns, available)[15].0 == " "@ + "worktrees"@,
        column_menu(columns, available)[17].0 == (if columns.branches { "[x] "@ } else { "[ ] "@ }),
        column_menu(columns, available)[18].0 == "b"@ && column_menu(columns, available)[18].2 == Some(
            Command::ToggleColumn(Column::Branches),
        ),
        column_menu(columns, available)[19].0 == " "@ + "branches"@,
        column_menu(columns, available)[21].0 == (if columns.stashes { "[x] "@ } else { "[ ] "@ }),
        column_menu(columns, available)[22].0 == "s"@ && column_menu(columns, available)[22].2 == Some(
            Command::ToggleColumn(Column::Stashes),
        ),
        column_menu(columns, available)[23].0 == " "@ + "stashes"@,
{
}

/// The entries of the view and the fold menu run what their keys run.
pub proof fn law_view_and_fold_menu(sections: Sections)
    ensures
        view_menu(sections)[1].0 == (if sections.grouping_on { "● "@ } else { "○ "@ }),
        view_menu(sections)[2].0 == "g"@ && view_menu(sections)[2].2 == Some(
            Command::GroupingToggle,
        ),
        view_menu(sections)[5].0 == (if sections.tree_on { "● "@ } else { "○ "@ }),
        view_menu(sections)[6].0 == "t"@ && view_menu(sections)[6].2 == Some(Command::TreeToggle),
        fold_menu()[2].0 == "-"@ && fold_menu()[2].2 == Some(Command::FoldCollapseAll),
        fold_menu()[6].0 == "+"@ && fold_menu()[6].2 == Some(Command::FoldExpandAll),
        fold_menu()[10].0 == "*"@ && fold_menu()[10].2 == Some(Command::FoldExpandSubtree),
{
}

/// The last row runs on a click what its keys run, and shows as available what is: a retry where
/// something failed or was skipped, a refetch where something is done.
pub proof fn law_action_row(app: AppState, reruns: Reruns, assistant: Seq<char>)
    requires
        is_reruns(app, reruns),
    ensures
        reruns.retry_all <==> exists|k: int|
            0 <= k < app.repos@.len() && ((#[trigger] app.repos@[k]).status is Failed
                || app.repos@[k].status is Skipped),
        reruns.retry <==> app.current_status() is Some && (app.current_status()->0 is Failed
            || app.current_status()->0 is Skipped),
        ({
            let row = action_row(reruns, assistant);
            &&& row[0] == ("e"@, key_if(reruns.refetch), Some(Command::Refetch))
            &&& row[2] == ("E"@, key_if(reruns.refetch_all), Some(Command::RefetchAll))
            &&& row[5] == ("r"@, key_if(reruns.retry), Some(Command::Retry))
            &&& row[7] == ("R"@, key_if(reruns.retry_all), Some(Command::RetryAll))
            &&& row[10] == ("enter"@, key_style(), Some(Command::OpenPage))
            &&& row[13] == ("c"@, key_style(), Some(Command::Claude))
            &&& row[16] == ("l"@, key_style(), Some(Command::Lazygit))
            &&& row[19] == ("o"@, key_style(), Some(Command::OpenRemote))
            &&& row[22] == ("y"@, key_style(), Some(Command::CopyPath))
            &&& row[24] == ("Y"@, key_style(), Some(Command::CopyRemote))
        }),
        ({
            let right = third_right();
            &&& right[0] == (","@, key_style(), Some(Command::Settings))
            &&& right[3] == ("?"@, key_style(), Some(Command::Help))
            &&& right[6] == ("q"@, key_style(), Some(Command::Quit))
        }),
{
    if exists|k: int|
        0 <= k < app.repos@.len() && ((#[trigger] app.repos@[k]).status is Failed
            || app.repos@[k].status is Skipped) {
        let k = choose|k: int|
            0 <= k < app.repos@.len() && ((#[trigger] app.repos@[k]).status is Failed
                || app.repos@[k].status is Skipped);
        assert(app.repos@[k].status.retryable());
    }
}

/// The first row shows as lit what is on, and runs on a click what its keys run.
pub proof fn law_move_row(info_on: bool, diff_on: bool, sections: Sections)
    ensures
        ({
            let row = move_row(info_on, diff_on, sections);
            &&& row[2] == ("space"@, key_style(), Some(Command::ResultOverlay))
            &&& row[5] == ("i"@, key_style(), Some(Command::Info))
            &&& row[6] == (" info"@, lit(info_on), Some(Command::Info))
            &&& row[8] == ("d"@, key_style(), Some(Command::DiffView))
            &&& row[9] == (" diff"@, lit(diff_on), Some(Command::DiffView))
            &&& row[11] == ("tab"@, key_style(), Some(Command::FocusToggle))
        }),
        lit(true) != lit(false),
        key_if(true) != key_if(false),
{
}

/// The menu of a pending chord takes the place of the first row.
pub proof fn law_menu_of_a_chord(app: AppState, sections: Sections)
    ensures
        app.pending_leader == Some(Leader::Toggle) ==> first_row(app, sections)[0].0 == "cols: "@,
        app.pending_leader == Some(Leader::Filter) ==> first_row(app, sections)[0].0 == "filter: "@,
        app.pending_leader == Some(Leader::Sort) ==> first_row(app, sections)[0].0 == "sort: "@,
        app.pending_leader == Some(Leader::View) ==> first_row(app, sections)[0].0 == "view: "@,
        app.pending_leader == Some(Leader::Fold) ==> first_row(app, sections)[0].0 == "fold: "@,
        app.pending_leader is None ==> first_row(app, sections)[0].0 == "j/k"@,
{
}

/// How long ago: in the largest unit of which it is at least one whole, rounded down.
pub proof fn law_ago(n: u64)
    ensures
        n < 60 ==> ago(n) == decimal(n as nat) + "s ago"@,
        60 <= n < 60 * 60 ==> ago(n) == decimal((n / 60) as nat) + "m ago"@,
        60 * 60 <= n < 24 * 60 * 60 ==> ago(n) == decimal((n / 3600) as nat) + "h ago"@,
        n >= 24 * 60 * 60 ==> ago(n) == decimal((n / 86400) as nat) + "d ago"@,
{
}

} // verus!
