//! The repo page.

use vstd::prelude::*;
use vstd::string::*;

use crate::app::AppState;
use crate::calls::{stash_name, stash_ref};
use crate::dialogs::{PageRow, PageRowKind};
use crate::icons::IconSet;
use crate::options::{RepoPageColumn, RepoPageColumns, ScrollHit, ScrollKind};
use crate::page::is_row_at;
use crate::repo::{BranchStats, RepoState};
use crate::screen::{
    across, blank_line, cap, capped, cells_less, colored, in_bold, inside, inside_of, least, less, no_lines,
    one_span, plain_style, step_across, Color, Line, Lines, Rect, Region, SpanView, Style,
};
use crate::spans::{
    ahead_behind, ahead_behind_spans, count_cell, count_span, frame_of, scrollbar_track,
    spinner_frame, track_of,
};
use crate::text::{
    cat, cat3, cat4, cat5, char_count, count_text, decimal, join, joined, number, pad_right, padded,
};
use crate::widths::{
    counted, cut_right, line_width, shown_width, truncate_str, width_of, width_of_line,
};

verus! {

// ---- the info panel ----

/// A line of the info panel.
pub open spec fn pair(label: Seq<char>, value: Seq<char>) -> Seq<SpanView> {
    one_span(padded(label, 13), colored(Color::DarkGray)).push((value, colored(Color::Gray)))
}

fn push_pair(lines: &mut Lines, label: &str, value: &str)
    ensures
        final(lines)@ == old(lines)@.push(pair(label@, value@)),
{
    let mut line = Line::of(pad_right(label, 13).as_str(), Style::color(Color::DarkGray));
    line.push(value, Style::color(Color::Gray));
    lines.push(line);
}

/// An optional text, or another in its place.
pub open spec fn text_or(text: Option<String>, other: Seq<char>) -> Seq<char> {
    match text {
        Some(text) => text@,
        None => other,
    }
}

fn str_or<'a>(text: &'a Option<String>, other: &'a str) -> (res: &'a str)
    ensures
        res@ == text_or(*text, other@),
{
    match text {
        Some(text) => text.as_str(),
        None => other,
    }
}

/// The base that a row is compared against, with the commit at which they part.
pub open spec fn base_text(base: Option<String>, point: Option<String>) -> Seq<char> {
    match (base, point) {
        (Some(base), Some(point)) => base@ + " @ "@ + point@,
        (Some(base), None) => base@,
        _ => "(unknown)"@,
    }
}

/// The changes of a row against its base.
pub open spec fn changes_text(stats: Option<BranchStats>) -> Seq<char> {
    match stats {
        Some(stats) => "+"@ + decimal(stats.added as nat) + " ~"@ + decimal(stats.modified as nat)
            + (" -"@ + decimal(stats.deleted as nat) + "  (Σ "@ + decimal(stats.sum()) + ")"@),
        None => "computing…"@,
    }
}

/// The parts of a row's last commit that are known.
pub open spec fn commit_parts(row: PageRow) -> Seq<Seq<char>> {
    let none = Seq::<Seq<char>>::empty();
    let a = if row.commit_sha@.len() > 0 {
        none.push(row.commit_sha@)
    } else {
        none
    };
    let b = if row.author@.len() > 0 {
        a.push(row.author@)
    } else {
        a
    };
    if row.last_commit_rel@.len() > 0 {
        b.push(row.last_commit_rel@)
    } else {
        b
    }
}

/// The info panel of a branch or a worktree.
pub open spec fn branch_info(row: PageRow, base: Option<String>) -> Seq<Seq<SpanView>> {
    let start = no_lines().push(
        pair(
            "branch"@,
            row.branch@ + if row.is_head {
                "  (HEAD)"@
            } else {
                ""@
            },
        ),
    ).push(pair("upstream"@, text_or(row.upstream, "(none)"@))).push(
        pair("base"@, base_text(base, row.merge_base_short)),
    );
    let ahead = match (row.ahead, row.behind) {
        (Some(ahead), Some(behind)) => start.push(
            pair(
                "ahead/behind"@,
                "↑"@ + decimal(ahead as nat) + " ↓"@ + decimal(behind as nat),
            ),
        ),
        _ => start,
    };
    let changes = ahead.push(pair("changes"@, changes_text(row.stats)));
    let commit = if row.commit_sha@.len() > 0 || row.author@.len() > 0 {
        changes.push(pair("commit"@, joined(commit_parts(row), " · "@)))
    } else {
        changes
    };
    let subject = if row.subject@.len() > 0 {
        commit.push(pair("subject"@, cut_right(row.subject@, 60)))
    } else {
        commit
    };
    let path = if row.kind is Worktree {
        subject.push(pair("path"@, row.path@))
    } else {
        subject
    };
    if row.dirty_count > 0 {
        path.push(pair("uncommitted"@, decimal(row.dirty_count as nat) + " file(s)"@))
    } else {
        path
    }
}

/// The number of a stash row.
pub open spec fn stash_number(row: PageRow) -> usize {
    match row.stash_index {
        Some(index) => index,
        None => 0,
    }
}

/// The info panel of a row.
pub open spec fn row_info(row: PageRow, base: Option<String>) -> Seq<Seq<SpanView>> {
    match row.kind {
        PageRowKind::Stash => no_lines().push(pair("stash"@, stash_name(stash_number(row)))).push(
            pair("label"@, row.branch@),
        ),
        _ => branch_info(row, base),
    }
}

fn base_of(base: &Option<String>, point: &Option<String>) -> (res: String)
    ensures
        res@ == base_text(*base, *point),
{
    match (base, point) {
        (Some(base), Some(point)) => cat3(base.as_str(), " @ ", point.as_str()),
        (Some(base), None) => base.clone(),
        _ => "(unknown)".to_owned(),
    }
}

fn changes_of(stats: &Option<BranchStats>) -> (res: String)
    ensures
        res@ == changes_text(*stats),
{
    match stats {
        Some(stats) => {
            let rest = cat5(
                " -",
                number(stats.deleted as u64).as_str(),
                "  (Σ ",
                number(stats.total() as u64).as_str(),
                ")",
            );
            cat5(
                "+",
                number(stats.added as u64).as_str(),
                " ~",
                number(stats.modified as u64).as_str(),
                rest.as_str(),
            )
        },
        None => "computing…".to_owned(),
    }
}

fn add_text(parts: &mut Vec<String>, text: &String)
    ensures
        final(parts).deep_view() == if text@.len() > 0 {
            old(parts).deep_view().push(text@)
        } else {
            old(parts).deep_view()
        },
{
    let ghost before = parts.deep_view();
    if !text.as_str().is_empty() {
        parts.push(text.clone());
        assert(parts.deep_view() =~= before.push(text@));
    }
}

fn commit_of(row: &PageRow) -> (res: String)
    ensures
        res@ == joined(commit_parts(*row), " · "@),
{
    let mut parts: Vec<String> = Vec::new();
    assert(parts.deep_view() =~= Seq::<Seq<char>>::empty());
    add_text(&mut parts, &row.commit_sha);
    add_text(&mut parts, &row.author);
    add_text(&mut parts, &row.last_commit_rel);
    join(&parts, " · ")
}

/// Build the repo-page info panel lines for the selected row: branch/upstream/base, ahead-behind,
/// change stats, last commit, and worktree/stash specifics.
pub fn build_repo_page_info_lines(row: &PageRow, base: &Option<String>) -> (res: Lines)
    ensures
        res@ == row_info(*row, *base),
{
    let mut lines = Lines::new();
    if row.kind == PageRowKind::Stash {
        let index: usize = match row.stash_index {
            Some(index) => index,
            None => 0,
        };
        push_pair(&mut lines, "stash", stash_ref(index).as_str());
        push_pair(&mut lines, "label", row.branch.as_str());
        return lines;
    }
    let head = if row.is_head {
        "  (HEAD)"
    } else {
        ""
    };
    push_pair(&mut lines, "branch", cat(row.branch.as_str(), head).as_str());
    push_pair(&mut lines, "upstream", str_or(&row.upstream, "(none)"));
    push_pair(&mut lines, "base", base_of(base, &row.merge_base_short).as_str());
    match (row.ahead, row.behind) {
        (Some(ahead), Some(behind)) => {
            let text = cat4(
                "↑",
                number(ahead as u64).as_str(),
                " ↓",
                number(behind as u64).as_str(),
            );
            push_pair(&mut lines, "ahead/behind", text.as_str());
        },
        _ => {},
    }
    push_pair(&mut lines, "changes", changes_of(&row.stats).as_str());
    if !row.commit_sha.as_str().is_empty() || !row.author.as_str().is_empty() {
        push_pair(&mut lines, "commit", commit_of(row).as_str());
    }
    if !row.subject.as_str().is_empty() {
        push_pair(&mut lines, "subject", truncate_str(row.subject.as_str(), 60).as_str());
    }
    if row.kind == PageRowKind::Worktree {
        push_pair(&mut lines, "path", row.path.as_str());
    }
    if row.dirty_count > 0 {
        let text = cat(number(row.dirty_count as u64).as_str(), " file(s)");
        push_pair(&mut lines, "uncommitted", text.as_str());
    }
    lines
}

// ---- the cells of a row ----

/// A count of a row's changes, where they are known.
pub open spec fn stat_of(stats: Option<BranchStats>, column: RepoPageColumn) -> Option<u32> {
    match stats {
        Some(stats) => Some(
            match column {
                RepoPageColumn::Added => stats.added,
                RepoPageColumn::Modified => stats.modified,
                RepoPageColumn::Deleted => stats.deleted,
                _ => stats.sum() as u32,
            },
        ),
        None => None,
    }
}

fn stat(stats: &Option<BranchStats>, column: RepoPageColumn) -> (res: Option<u32>)
    ensures
        res == stat_of(*stats, column),
{
    match stats {
        Some(stats) => Some(
            match column {
                RepoPageColumn::Added => stats.added,
                RepoPageColumn::Modified => stats.modified,
                RepoPageColumn::Deleted => stats.deleted,
                _ => stats.total(),
            },
        ),
        None => None,
    }
}

/// A row with a count cell after it, if its column is shown.
pub open spec fn with_count(
    line: Seq<SpanView>,
    shown: bool,
    glyph: Seq<char>,
    count: Option<u32>,
    color: Color,
) -> Seq<SpanView> {
    if shown {
        line.push(count_span(glyph, count, 5, color))
    } else {
        line
    }
}

fn push_count(line: &mut Line, shown: bool, glyph: &str, count: Option<u32>, color: Color)
    ensures
        final(line)@ == with_count(old(line)@, shown, glyph@, count, color),
{
    if shown {
        count_cell(line, glyph, count, 5, color);
    }
}

/// A row with its cells up to the base.
pub open spec fn cells_before_base(
    line: Seq<SpanView>,
    row: PageRow,
    columns: RepoPageColumns,
    icons: IconSet,
) -> Seq<SpanView> {
    let ahead = if columns.ahead_behind {
        line.push(("  "@, plain_style())) + ahead_behind(row.ahead, row.behind, 10, icons)
    } else {
        line
    };
    let dirty = with_count(
        ahead,
        columns.dirty,
        icons.dirty@,
        Some(row.dirty_count),
        Color::Yellow,
    );
    let added = with_count(
        dirty,
        columns.added,
        "+"@,
        stat_of(row.stats, RepoPageColumn::Added),
        Color::Green,
    );
    let modified = with_count(
        added,
        columns.modified,
        "~"@,
        stat_of(row.stats, RepoPageColumn::Modified),
        Color::Yellow,
    );
    let deleted = with_count(
        modified,
        columns.deleted,
        "-"@,
        stat_of(row.stats, RepoPageColumn::Deleted),
        Color::Red,
    );
    let total = with_count(
        deleted,
        columns.total,
        "Σ"@,
        stat_of(row.stats, RepoPageColumn::Total),
        Color::Gray,
    );
    if columns.upstream {
        total.push(
            (
                "  "@ + cut_right(text_or(row.upstream, ""@), 28),
                colored(Color::DarkGray),
            ),
        )
    } else {
        total
    }
}

fn push_cells_before_base(
    line: &mut Line,
    row: &PageRow,
    columns: RepoPageColumns,
    icons: &IconSet,
)
    ensures
        final(line)@ == cells_before_base(old(line)@, *row, columns, *icons),
{
    if columns.ahead_behind {
        line.push("  ", Style::plain());
        line.extend(ahead_behind_spans(row.ahead, row.behind, 10, icons));
    }
    push_count(line, columns.dirty, icons.dirty, Some(row.dirty_count), Color::Yellow);
    let added: Option<u32> = stat(&row.stats, RepoPageColumn::Added);
    push_count(line, columns.added, "+", added, Color::Green);
    let modified: Option<u32> = stat(&row.stats, RepoPageColumn::Modified);
    push_count(line, columns.modified, "~", modified, Color::Yellow);
    let deleted: Option<u32> = stat(&row.stats, RepoPageColumn::Deleted);
    push_count(line, columns.deleted, "-", deleted, Color::Red);
    let total: Option<u32> = stat(&row.stats, RepoPageColumn::Total);
    push_count(line, columns.total, "Σ", total, Color::Gray);
    if columns.upstream {
        let shown = truncate_str(str_or(&row.upstream, ""), 28);
        line.push(cat("  ", shown.as_str()).as_str(), Style::color(Color::DarkGray));
    }
}

/// The base cell of a row: blue where the base was found on its own, magenta with a mark where
/// it was chosen.
pub open spec fn base_span(row: PageRow) -> SpanView {
    let base = text_or(row.base, ""@);
    if base.len() == 0 {
        ("  …"@, colored(Color::DarkGray))
    } else if row.base_is_override {
        ("  "@ + cut_right(base, 27) + "*"@, in_bold(colored(Color::Magenta)))
    } else {
        ("  "@ + cut_right(base, 28), colored(Color::Blue))
    }
}

fn push_base(line: &mut Line, row: &PageRow)
    ensures
        final(line)@ == old(line)@.push(base_span(*row)),
{
    let base: &str = str_or(&row.base, "");
    if base.is_empty() {
        line.push("  …", Style::color(Color::DarkGray));
    } else if row.base_is_override {
        let shown = truncate_str(base, 27);
        line.push(
            cat3("  ", shown.as_str(), "*").as_str(),
            Style::color(Color::Magenta).with_bold(),
        );
    } else {
        let shown = truncate_str(base, 28);
        line.push(cat("  ", shown.as_str()).as_str(), Style::color(Color::Blue));
    }
}

/// A row with all its cells; `detail` is its subject, or the path of a worktree.
pub open spec fn with_cells(
    line: Seq<SpanView>,
    row: PageRow,
    detail: Seq<char>,
    columns: RepoPageColumns,
    icons: IconSet,
) -> Seq<SpanView> {
    let start = cells_before_base(line, row, columns, icons);
    let base = if columns.base {
        start.push(base_span(row))
    } else {
        start
    };
    let age = if columns.age {
        base.push(
            (
                "  "@ + padded(cut_right(row.last_commit_rel@, 14), 14),
                colored(Color::DarkGray),
            ),
        )
    } else {
        base
    };
    if columns.subject {
        age.push(("  "@ + cut_right(detail, 50), colored(Color::DarkGray)))
    } else {
        age
    }
}

/// The columns of a row's base cell, counted from the start of the row.
pub open spec fn base_columns(
    line: Seq<SpanView>,
    row: PageRow,
    columns: RepoPageColumns,
    icons: IconSet,
) -> Option<(u16, u16)> {
    let start = cells_before_base(line, row, columns, icons);
    if columns.base {
        Some(
            (
                capped(counted(line_width(start)) as int),
                capped(counted(line_width(start.push(base_span(row)))) as int),
            ),
        )
    } else {
        None
    }
}

fn push_cells(
    line: &mut Line,
    row: &PageRow,
    detail: &str,
    columns: RepoPageColumns,
    icons: &IconSet,
) -> (res: Option<(u16, u16)>)
    ensures
        final(line)@ == with_cells(old(line)@, *row, detail@, columns, *icons),
        res == base_columns(old(line)@, *row, columns, *icons),
{
    push_cells_before_base(line, row, columns, icons);
    let range: Option<(u16, u16)> = if columns.base {
        let start: u16 = cap(width_of_line(line));
        push_base(line, row);
        Some((start, cap(width_of_line(line))))
    } else {
        None
    };
    if columns.age {
        let shown = pad_right(truncate_str(row.last_commit_rel.as_str(), 14).as_str(), 14);
        line.push(cat("  ", shown.as_str()).as_str(), Style::color(Color::DarkGray));
    }
    if columns.subject {
        let shown = truncate_str(detail, 50);
        line.push(cat("  ", shown.as_str()).as_str(), Style::color(Color::DarkGray));
    }
    range
}

// ---- the items ----

/// A line of the page, with the row that it shows and the columns of its base cell.
#[derive(Debug)]
pub struct PageItem {
    pub line: Line,
    pub row: Option<usize>,
    pub base: Option<(u16, u16)>,
}

/// A line of the page, with the row that it shows and the columns of its base cell.
pub type ItemView = (Seq<SpanView>, Option<usize>, Option<(u16, u16)>);

/// The lines of the page.
#[derive(Debug)]
pub struct PageItems {
    pub list: Vec<PageItem>,
}

/// A line of the page.
pub open spec fn item_view(item: PageItem) -> ItemView {
    (item.line@, item.row, item.base)
}

impl View for PageItems {
    type V = Seq<ItemView>;

    open spec fn view(&self) -> Seq<ItemView> {
        Seq::new(self.list@.len(), |i: int| item_view(self.list@[i]))
    }
}

impl PageItems {
    fn new() -> (res: PageItems)
        ensures
            res@ == Seq::<ItemView>::empty(),
    {
        let res = PageItems { list: Vec::new() };
        assert(res@ =~= Seq::<ItemView>::empty());
        res
    }

    fn push(&mut self, line: Line, row: Option<usize>, base: Option<(u16, u16)>)
        ensures
            final(self)@ == old(self)@.push((line@, row, base)),
    {
        let ghost before = self@;
        self.list.push(PageItem { line, row, base });
        assert(self@ =~= before.push((line@, row, base)));
    }
}

/// The width of the name column: that of the longest name, between six and forty.
pub open spec fn longest_upto(rows: Seq<PageRow>, n: nat) -> nat
    decreases n,
{
    if n == 0 || n > rows.len() {
        0
    } else {
        let before = longest_upto(rows, (n - 1) as nat);
        if rows[n - 1].branch@.len() > before {
            rows[n - 1].branch@.len()
        } else {
            before
        }
    }
}

/// The width of the name column.
pub open spec fn name_pad(rows: Seq<PageRow>) -> usize {
    let longest = if rows.len() == 0 {
        8nat
    } else {
        longest_upto(rows, rows.len())
    };
    if longest > 40 {
        40
    } else if longest < 6 {
        6
    } else {
        longest as usize
    }
}

fn name_width(rows: &Vec<PageRow>) -> (res: usize)
    ensures
        res == name_pad(rows@),
{
    let mut longest: usize = 0;
    let mut i: usize = 0;
    while i < rows.len()
        invariant
            i <= rows@.len(),
            longest == longest_upto(rows@, i as nat),
        decreases rows@.len() - i,
    {
        let chars: usize = char_count(rows[i].branch.as_str());
        if chars > longest {
            longest = chars;
        }
        i += 1;
    }
    if rows.len() == 0 {
        longest = 8;
    }
    if longest > 40 {
        40
    } else if longest < 6 {
        6
    } else {
        longest
    }
}

/// How many of the first `n` rows are of a kind.
pub open spec fn kind_count(rows: Seq<PageRow>, kind: PageRowKind, n: nat) -> nat
    decreases n,
{
    if n == 0 || n > rows.len() {
        0
    } else {
        kind_count(rows, kind, (n - 1) as nat) + if rows[n - 1].kind == kind {
            1nat
        } else {
            0nat
        }
    }
}

fn count_kind(rows: &Vec<PageRow>, kind: PageRowKind) -> (res: usize)
    ensures
        res == kind_count(rows@, kind, rows@.len()),
{
    let mut count: usize = 0;
    let mut i: usize = 0;
    while i < rows.len()
        invariant
            i <= rows@.len(),
            count <= i,
            count == kind_count(rows@, kind, i as nat),
        decreases rows@.len() - i,
    {
        if rows[i].kind == kind {
            count += 1;
        }
        i += 1;
    }
    count
}

/// The start of a branch's line: a mark for the current branch, and the name.
pub open spec fn branch_start(row: PageRow, pad: usize) -> Seq<SpanView> {
    let name = padded(cut_right(row.branch@, pad), pad as nat);
    if row.is_head {
        one_span("* "@, colored(Color::Green)).push((name, colored(Color::Green)))
    } else {
        one_span("  "@, plain_style()).push((name, colored(Color::Gray)))
    }
}

/// The start of a worktree's line.
pub open spec fn tree_start(row: PageRow, pad: usize) -> Seq<SpanView> {
    one_span("  "@ + padded(cut_right(row.branch@, pad), pad as nat), colored(Color::Cyan))
}

/// The line of a stash.
pub open spec fn stash_line(row: PageRow) -> Seq<SpanView> {
    one_span(
        "  "@ + padded(stash_name(stash_number(row)), 10),
        colored(Color::Magenta),
    ).push(("  "@ + cut_right(row.branch@, 70), colored(Color::Gray)))
}

/// The item of a row.
pub open spec fn row_item(
    row: PageRow,
    index: usize,
    pad: usize,
    columns: RepoPageColumns,
    icons: IconSet,
) -> ItemView {
    match row.kind {
        PageRowKind::Branch => (
            with_cells(branch_start(row, pad), row, row.subject@, columns, icons),
            Some(index),
            base_columns(branch_start(row, pad), row, columns, icons),
        ),
        PageRowKind::Worktree => (
            with_cells(tree_start(row, pad), row, row.path@, columns, icons),
            Some(index),
            base_columns(tree_start(row, pad), row, columns, icons),
        ),
        PageRowKind::Stash => (stash_line(row), Some(index), None),
    }
}

fn push_row(
    items: &mut PageItems,
    row: &PageRow,
    index: usize,
    pad: usize,
    columns: RepoPageColumns,
    icons: &IconSet,
)
    ensures
        final(items)@ == old(items)@.push(row_item(*row, index, pad, columns, *icons)),
{
    let name = truncate_str(row.branch.as_str(), pad);
    match row.kind {
        PageRowKind::Branch => {
            let shown = pad_right(name.as_str(), pad);
            let mut line = if row.is_head {
                let mut line = Line::of("* ", Style::color(Color::Green));
                line.push(shown.as_str(), Style::color(Color::Green));
                line
            } else {
                let mut line = Line::of("  ", Style::plain());
                line.push(shown.as_str(), Style::color(Color::Gray));
                line
            };
            let base: Option<(u16, u16)> = push_cells(
                &mut line,
                row,
                row.subject.as_str(),
                columns,
                icons,
            );
            items.push(line, Some(index), base);
        },
        PageRowKind::Worktree => {
            let shown = cat("  ", pad_right(name.as_str(), pad).as_str());
            let mut line = Line::of(shown.as_str(), Style::color(Color::Cyan));
            let base: Option<(u16, u16)> = push_cells(
                &mut line,
                row,
                row.path.as_str(),
                columns,
                icons,
            );
            items.push(line, Some(index), base);
        },
        PageRowKind::Stash => {
            let number: usize = match row.stash_index {
                Some(index) => index,
                None => 0,
            };
            let mut line = Line::of(
                cat("  ", pad_right(stash_ref(number).as_str(), 10).as_str()).as_str(),
                Style::color(Color::Magenta),
            );
            let label = truncate_str(row.branch.as_str(), 70);
            line.push(cat("  ", label.as_str()).as_str(), Style::color(Color::Gray));
            items.push(line, Some(index), None);
        },
    }
}

/// Items with those of the first `n` rows of a kind after them.
pub open spec fn with_rows(
    items: Seq<ItemView>,
    rows: Seq<PageRow>,
    kind: PageRowKind,
    columns: RepoPageColumns,
    icons: IconSet,
    n: nat,
) -> Seq<ItemView>
    decreases n,
{
    if n == 0 || n > rows.len() {
        items
    } else {
        let before = with_rows(items, rows, kind, columns, icons, (n - 1) as nat);
        if rows[n - 1].kind == kind {
            before.push(row_item(rows[n - 1], (n - 1) as usize, name_pad(rows), columns, icons))
        } else {
            before
        }
    }
}

fn push_rows(
    items: &mut PageItems,
    rows: &Vec<PageRow>,
    kind: PageRowKind,
    columns: RepoPageColumns,
    icons: &IconSet,
)
    ensures
        final(items)@ == with_rows(old(items)@, rows@, kind, columns, *icons, rows@.len()),
{
    let ghost before = items@;
    let pad: usize = name_width(rows);
    let mut i: usize = 0;
    while i < rows.len()
        invariant
            i <= rows@.len(),
            pad == name_pad(rows@),
            items@ == with_rows(before, rows@, kind, columns, *icons, i as nat),
        decreases rows@.len() - i,
    {
        if rows[i].kind == kind {
            push_row(items, &rows[i], i, pad, columns, icons);
        }
        i += 1;
    }
}

/// The header of a section: its icon, its name and its number of rows.
pub open spec fn section_header(
    icon: Seq<char>,
    color: Color,
    name: Seq<char>,
    count: nat,
) -> ItemView {
    (
        one_span(icon + " "@, colored(color)).push(
            (name + " ("@ + decimal(count) + ")"@, in_bold(colored(Color::Yellow))),
        ),
        None,
        None,
    )
}

fn push_section(items: &mut PageItems, icon: &str, color: Color, name: &str, count: usize)
    ensures
        final(items)@ == old(items)@.push(section_header(icon@, color, name@, count as nat)),
{
    let mut line = Line::of(cat(icon, " ").as_str(), Style::color(color));
    line.push(
        cat4(name, " (", count_text(count).as_str(), ")").as_str(),
        Style::color(Color::Yellow).with_bold(),
    );
    items.push(line, None, None);
}

/// A header with a label after it, if its column is shown.
pub open spec fn with_label(line: Seq<SpanView>, shown: bool, text: Seq<char>) -> Seq<SpanView> {
    if shown {
        line.push((text, colored(Color::DarkGray)))
    } else {
        line
    }
}

fn push_label(line: &mut Line, shown: bool, text: &str)
    ensures
        final(line)@ == with_label(old(line)@, shown, text@),
{
    if shown {
        line.push(text, Style::color(Color::DarkGray));
    }
}

/// The labels over the branches, as wide as the cells.
pub open spec fn column_header(columns: RepoPageColumns, pad: usize) -> Seq<SpanView> {
    let start = one_span("  "@, plain_style()).push(
        (padded("branch"@, pad as nat), colored(Color::DarkGray)),
    );
    let a = with_label(start, columns.ahead_behind, "  "@ + padded("↑↓"@, 10));
    let b = with_label(a, columns.dirty, " "@ + padded("Δ"@, 5));
    let c = with_label(b, columns.added, " "@ + padded("+a"@, 5));
    let d = with_label(c, columns.modified, " "@ + padded("~m"@, 5));
    let e = with_label(d, columns.deleted, " "@ + padded("-d"@, 5));
    let f = with_label(e, columns.total, " "@ + padded("Σ"@, 5));
    let g = with_label(f, columns.upstream, "  "@ + padded("upstream"@, 28));
    let h = with_label(g, columns.base, "  "@ + padded("base"@, 28));
    let i = with_label(h, columns.age, "  "@ + padded("age"@, 14));
    with_label(i, columns.subject, "  subject"@)
}

fn build_column_header(columns: RepoPageColumns, pad: usize) -> (res: Line)
    ensures
        res@ == column_header(columns, pad),
{
    let mut line = Line::of("  ", Style::plain());
    line.push(pad_right("branch", pad).as_str(), Style::color(Color::DarkGray));
    push_label(&mut line, columns.ahead_behind, cat("  ", pad_right("↑↓", 10).as_str()).as_str());
    push_label(&mut line, columns.dirty, cat(" ", pad_right("Δ", 5).as_str()).as_str());
    push_label(&mut line, columns.added, cat(" ", pad_right("+a", 5).as_str()).as_str());
    push_label(&mut line, columns.modified, cat(" ", pad_right("~m", 5).as_str()).as_str());
    push_label(&mut line, columns.deleted, cat(" ", pad_right("-d", 5).as_str()).as_str());
    push_label(&mut line, columns.total, cat(" ", pad_right("Σ", 5).as_str()).as_str());
    push_label(
        &mut line,
        columns.upstream,
        cat("  ", pad_right("upstream", 28).as_str()).as_str(),
    );
    push_label(&mut line, columns.base, cat("  ", pad_right("base", 28).as_str()).as_str());
    push_label(&mut line, columns.age, cat("  ", pad_right("age", 14).as_str()).as_str());
    push_label(&mut line, columns.subject, "  subject");
    line
}

/// All lines of the page: the branches, and the worktrees and the stashes where there are any.
pub open spec fn page_items(rows: Seq<PageRow>, columns: RepoPageColumns, icons: IconSet) -> Seq<
    ItemView,
> {
    let branches = kind_count(rows, PageRowKind::Branch, rows.len());
    let trees = kind_count(rows, PageRowKind::Worktree, rows.len());
    let stashes = kind_count(rows, PageRowKind::Stash, rows.len());
    let a = with_rows(
        Seq::<ItemView>::empty().push(
            section_header(icons.branches@, Color::Green, "BRANCHES"@, branches),
        ).push((column_header(columns, name_pad(rows)), None, None)),
        rows,
        PageRowKind::Branch,
        columns,
        icons,
        rows.len(),
    );
    let b = if trees > 0 {
        with_rows(
            a.push((blank_line(), None, None)).push(
                section_header(icons.worktrees@, Color::Cyan, "WORKTREES"@, trees),
            ),
            rows,
            PageRowKind::Worktree,
            columns,
            icons,
            rows.len(),
        )
    } else {
        a
    };
    if stashes > 0 {
        with_rows(
            b.push((blank_line(), None, None)).push(
                section_header(icons.stashes@, Color::Magenta, "STASHES"@, stashes),
            ),
            rows,
            PageRowKind::Stash,
            columns,
            icons,
            rows.len(),
        )
    } else {
        b
    }
}

fn build_items(rows: &Vec<PageRow>, columns: RepoPageColumns, icons: &IconSet) -> (res: PageItems)
    ensures
        res@ == page_items(rows@, columns, *icons),
{
    let branches: usize = count_kind(rows, PageRowKind::Branch);
    let trees: usize = count_kind(rows, PageRowKind::Worktree);
    let stashes: usize = count_kind(rows, PageRowKind::Stash);
    let mut items = PageItems::new();
    push_section(&mut items, icons.branches, Color::Green, "BRANCHES", branches);
    items.push(build_column_header(columns, name_width(rows)), None, None);
    push_rows(&mut items, rows, PageRowKind::Branch, columns, icons);
    if trees > 0 {
        items.push(Line::new(), None, None);
        push_section(&mut items, icons.worktrees, Color::Cyan, "WORKTREES", trees);
        push_rows(&mut items, rows, PageRowKind::Worktree, columns, icons);
    }
    if stashes > 0 {
        items.push(Line::new(), None, None);
        push_section(&mut items, icons.stashes, Color::Magenta, "STASHES", stashes);
        push_rows(&mut items, rows, PageRowKind::Stash, columns, icons);
    }
    items
}

// ---- title and footer ----

/// The name of the current branch among the rows from `from` on.
pub open spec fn head_name(rows: Seq<PageRow>, from: int) -> Seq<char>
    decreases rows.len() - from,
{
    if from < 0 || from >= rows.len() {
        "—"@
    } else if rows[from].is_head {
        rows[from].branch@
    } else {
        head_name(rows, from + 1)
    }
}

fn head_of(rows: &Vec<PageRow>) -> (res: String)
    ensures
        res@ == head_name(rows@, 0),
{
    let mut i: usize = 0;
    while i < rows.len()
        invariant
            i <= rows@.len(),
            head_name(rows@, 0) == head_name(rows@, i as int),
        decreases rows@.len() - i,
    {
        if rows[i].is_head {
            return rows[i].branch.clone();
        }
        i += 1;
    }
    "—".to_owned()
}

/// The remote was asked for a repo's page.
pub open spec fn is_fetched(repo: RepoState) -> bool {
    match repo.page {
        Some(page) => page.fetched,
        None => false,
    }
}

/// The title of the page, with a spinner while a pull runs or the page is being read.
pub open spec fn page_title(repo: RepoState, head: Seq<char>, icons: IconSet, tick: u64) -> Seq<char> {
    " "@ + repo.name@ + " · "@ + head + (" · "@ + repo.path@ + " "@) + if repo.pull_loading {
        "· "@ + frame_of(tick, icons) + " pulling… "@
    } else if repo.page_loading || !is_fetched(repo) {
        "· "@ + frame_of(tick, icons) + " fetching… "@
    } else {
        ""@
    }
}

fn title_of(repo: &RepoState, rows: &Vec<PageRow>, icons: &IconSet, tick: u64) -> (res: String)
    ensures
        res@ == page_title(*repo, head_name(rows@, 0), *icons, tick),
{
    let head = head_of(rows);
    let fetched = match &repo.page {
        Some(page) => page.fetched,
        None => false,
    };
    let frame = spinner_frame(tick, icons);
    let note = if repo.pull_loading {
        cat3("· ", frame, " pulling… ")
    } else if repo.page_loading || !fetched {
        cat3("· ", frame, " fetching… ")
    } else {
        "".to_owned()
    };
    let path = cat3(" · ", repo.path.as_str(), " ");
    let start = cat5(" ", repo.name.as_str(), " · ", head.as_str(), path.as_str());
    cat(start.as_str(), note.as_str())
}

/// The footer of the page; what `d` does depends on the selected row.
pub open spec fn page_footer(row: Option<PageRow>) -> Seq<char> {
    let verb = match row {
        Some(row) => match row.delete_verb() {
            Some(verb) => " · d "@ + verb,
            None => ""@,
        },
        None => ""@,
    };
    " ↑↓ move · enter diff · ⇧enter checkout · p pull"@ + verb
        + " · t cols · i info · y copy · ? help · esc "@
}

fn footer_for(row: Option<&PageRow>) -> (res: String)
    ensures
        res@ == page_footer(
            match row {
                Some(row) => Some(*row),
                None => None,
            },
        ),
{
    let verb = match row {
        Some(row) => match row.delete_action() {
            Some(verb) => cat(" · d ", verb),
            None => "".to_owned(),
        },
        None => "".to_owned(),
    };
    cat3(
        " ↑↓ move · enter diff · ⇧enter checkout · p pull",
        verb.as_str(),
        " · t cols · i info · y copy · ? help · esc ",
    )
}

/// Where the back button stands on the border of the page.
pub open spec fn back_region(area: Rect) -> Region {
    let end = across(area.x, less(area.width as int, 1));
    (area.y, less(end as int, 10) as u16, end)
}

// ---- the column menu ----

/// The chips of the column menu: the column, its letter and its name.
pub open spec fn page_chips() -> Seq<(RepoPageColumn, Seq<char>, Seq<char>)> {
    seq![
        (RepoPageColumn::AheadBehind, "b"@, "↑↓"@),
        (RepoPageColumn::Dirty, "y"@, "dirty"@),
        (RepoPageColumn::Added, "a"@, "added"@),
        (RepoPageColumn::Modified, "m"@, "modified"@),
        (RepoPageColumn::Deleted, "d"@, "deleted"@),
        (RepoPageColumn::Total, "c"@, "total"@),
        (RepoPageColumn::Upstream, "u"@, "upstream"@),
        (RepoPageColumn::Base, "f"@, "base"@),
        (RepoPageColumn::Age, "g"@, "age"@),
        (RepoPageColumn::Subject, "s"@, "subject"@),
    ]
}

/// The text of a chip: whether its column is shown, its letter and its name.
pub open spec fn chip_text(on: bool, letter: Seq<char>, name: Seq<char>) -> Seq<char> {
    (if on {
        "● "@
    } else {
        "○ "@
    }) + letter + " "@ + name
}

/// The column menu so far: its spans, the column after them, and what can be clicked.
pub type MenuView = (Seq<SpanView>, u16, Seq<(Region, RepoPageColumn)>);

/// The column menu with a chip after it; one whose column is empty is dim and does nothing.
pub open spec fn with_chip(
    menu: MenuView,
    row: u16,
    column: RepoPageColumn,
    letter: Seq<char>,
    name: Seq<char>,
    on: bool,
    available: bool,
) -> MenuView {
    let text = chip_text(on, letter, name);
    let end = across(menu.1, (shown_width(text) as u16) as int);
    let style = colored(
        if !available {
            Color::DarkGray
        } else if on {
            Color::Green
        } else {
            Color::Gray
        },
    );
    (
        menu.0.push((text, style)).push(("  "@, plain_style())),
        across(end, 2),
        if available {
            menu.2.push(((row, menu.1, end), column))
        } else {
            menu.2
        },
    )
}

/// The column menu up to its first `n` chips.
pub open spec fn menu_upto(app: AppState, area: Rect, n: nat) -> MenuView
    decreases n,
{
    if n == 0 || n > page_chips().len() {
        (one_span(" cols: "@, colored(Color::DarkGray)), across(area.x, 7), Seq::empty())
    } else {
        let chip = page_chips()[n - 1];
        with_chip(
            menu_upto(app, area, (n - 1) as nat),
            area.y,
            chip.0,
            chip.1,
            chip.2,
            app.shown_page_columns().shows(chip.0),
            app.page_column_filled(chip.0),
        )
    }
}

/// The column menu.
pub open spec fn column_menu(app: AppState, area: Rect) -> (
    Seq<SpanView>,
    Seq<(Region, RepoPageColumn)>,
) {
    let menu = menu_upto(app, area, 10);
    (menu.0.push(("esc"@, colored(Color::Cyan))), menu.2)
}

fn chip_at(i: usize) -> (res: (RepoPageColumn, &'static str, &'static str))
    requires
        i < 10,
    ensures
        (res.0, res.1@, res.2@) == page_chips()[i as int],
{
    if i == 0 {
        (RepoPageColumn::AheadBehind, "b", "↑↓")
    } else if i == 1 {
        (RepoPageColumn::Dirty, "y", "dirty")
    } else if i == 2 {
        (RepoPageColumn::Added, "a", "added")
    } else if i == 3 {
        (RepoPageColumn::Modified, "m", "modified")
    } else if i == 4 {
        (RepoPageColumn::Deleted, "d", "deleted")
    } else if i == 5 {
        (RepoPageColumn::Total, "c", "total")
    } else if i == 6 {
        (RepoPageColumn::Upstream, "u", "upstream")
    } else if i == 7 {
        (RepoPageColumn::Base, "f", "base")
    } else if i == 8 {
        (RepoPageColumn::Age, "g", "age")
    } else {
        (RepoPageColumn::Subject, "s", "subject")
    }
}

fn column_on(columns: RepoPageColumns, column: RepoPageColumn) -> (res: bool)
    ensures
        res == columns.shows(column),
{
    match column {
        RepoPageColumn::AheadBehind => columns.ahead_behind,
        RepoPageColumn::Dirty => columns.dirty,
        RepoPageColumn::Added => columns.added,
        RepoPageColumn::Modified => columns.modified,
        RepoPageColumn::Deleted => columns.deleted,
        RepoPageColumn::Total => columns.total,
        RepoPageColumn::Upstream => columns.upstream,
        RepoPageColumn::Base => columns.base,
        RepoPageColumn::Age => columns.age,
        RepoPageColumn::Subject => columns.subject,
    }
}

fn build_menu(app: &AppState, area: Rect) -> (res: (Line, Vec<(Region, RepoPageColumn)>))
    requires
        app.wf(),
    ensures
        (res.0@, res.1@) == column_menu(*app, area),
{
    let columns = app.effective_repo_page_columns();
    let mut line = Line::of(" cols: ", Style::color(Color::DarkGray));
    let mut clicks: Vec<(Region, RepoPageColumn)> = Vec::new();
    let mut col: u16 = step_across(area.x, 7);
    let mut i: usize = 0;
    while i < 10
        invariant
            app.wf(),
            i <= 10,
            columns == app.shown_page_columns(),
            (line@, col, clicks@) == menu_upto(*app, area, i as nat),
        decreases 10 - i,
    {
        let (column, letter, name) = chip_at(i);
        let on = column_on(columns, column);
        let available = app.repo_page_column_available(column);
        let mark = if on {
            "● "
        } else {
            "○ "
        };
        let text = cat4(mark, letter, " ", name);
        let width: u16 = width_of(text.as_str()) as u16;
        let end: u16 = step_across(col, width);
        let color = if !available {
            Color::DarkGray
        } else if on {
            Color::Green
        } else {
            Color::Gray
        };
        if available {
            clicks.push(((area.y, col, end), column));
        }
        line.push(text.as_str(), Style::color(color));
        line.push("  ", Style::plain());
        col = step_across(end, 2);
        i += 1;
    }
    line.push("esc", Style::color(Color::Cyan));
    (line, clicks)
}

// ---- the areas ----

/// The bottom rows of an area.
pub open spec fn bottom(area: Rect, height: int) -> Rect {
    let high = least(height, area.height as int);
    Rect { y: across(area.y, area.height - high), height: high as u16, ..area }
}

/// An area without its bottom rows.
pub open spec fn above(area: Rect, height: int) -> Rect {
    Rect { height: (area.height - least(height, area.height as int)) as u16, ..area }
}

fn take_bottom(area: Rect, height: u16) -> (res: (Rect, Rect))
    ensures
        res == (bottom(area, height as int), above(area, height as int)),
{
    let high: u16 = if height < area.height {
        height
    } else {
        area.height
    };
    let low = Rect {
        x: area.x,
        y: step_across(area.y, area.height - high),
        width: area.width,
        height: high,
    };
    let rest = Rect { x: area.x, y: area.y, width: area.width, height: area.height - high };
    (low, rest)
}

// ---- what is visible ----

/// What can be clicked on the visible lines up to the first `n`: the rows.
pub open spec fn row_hits(items: Seq<ItemView>, start: int, body: Rect, n: nat) -> Seq<(u16, usize)>
    decreases n,
{
    if n == 0 || start + n > items.len() {
        Seq::empty()
    } else {
        let before = row_hits(items, start, body, (n - 1) as nat);
        match items[start + n - 1].1 {
            Some(row) => before.push((across(body.y, n - 1), row)),
            None => before,
        }
    }
}

/// What can be clicked on the visible lines up to the first `n`: the base cells.
pub open spec fn base_hits(items: Seq<ItemView>, start: int, body: Rect, n: nat) -> Seq<(Region, usize)>
    decreases n,
{
    if n == 0 || start + n > items.len() {
        Seq::empty()
    } else {
        let before = base_hits(items, start, body, (n - 1) as nat);
        match (items[start + n - 1].1, items[start + n - 1].2) {
            (Some(row), Some((from, to))) => before.push(
                (
                    (
                        across(body.y, n - 1),
                        across(body.x, from as int),
                        across(body.x, to as int),
                    ),
                    row,
                ),
            ),
            _ => before,
        }
    }
}

/// The visible lines up to the first `n`.
pub open spec fn shown_lines(items: Seq<ItemView>, start: int, n: nat) -> Seq<Seq<SpanView>>
    decreases n,
{
    if n == 0 || start + n > items.len() {
        no_lines()
    } else {
        shown_lines(items, start, (n - 1) as nat).push(items[start + n - 1].0)
    }
}

/// The line that shows a row among the visible ones up to the first `n`.
pub open spec fn row_line(items: Seq<ItemView>, start: int, row: usize, n: nat) -> Option<usize>
    decreases n,
{
    if n == 0 || start + n > items.len() {
        None
    } else if items[start + n - 1].1 == Some(row) {
        Some((n - 1) as usize)
    } else {
        row_line(items, start, row, (n - 1) as nat)
    }
}

/// What is visible of the page.
#[derive(Debug)]
pub struct VisibleRows {
    pub lines: Lines,
    /// The line of the selected row.
    pub selected: Option<usize>,
    pub rows: Vec<(u16, usize)>,
    pub bases: Vec<(Region, usize)>,
}

/// What is visible of the page from a line on, in a body of some height.
pub open spec fn is_visible_rows(
    items: Seq<ItemView>,
    start: int,
    count: nat,
    selected: usize,
    body: Rect,
    view: VisibleRows,
) -> bool {
    &&& view.lines@ == shown_lines(items, start, count)
    &&& view.selected == row_line(items, start, selected, count)
    &&& view.rows@ == row_hits(items, start, body, count)
    &&& view.bases@ == base_hits(items, start, body, count)
}

fn visible_rows(items: &PageItems, start: usize, count: usize, selected: usize, body: Rect) -> (res:
    VisibleRows)
    requires
        start + count <= items@.len(),
        count <= body.height,
    ensures
        is_visible_rows(items@, start as int, count as nat, selected, body, res),
{
    let total: usize = items.list.len();
    let mut lines = Lines::new();
    let mut at: Option<usize> = None;
    let mut rows: Vec<(u16, usize)> = Vec::new();
    let mut bases: Vec<(Region, usize)> = Vec::new();
    let mut i: usize = 0;
    while i < count
        invariant
            i <= count,
            count <= body.height,
            total == items@.len(),
            start + count <= total,
            lines@ == shown_lines(items@, start as int, i as nat),
            at == row_line(items@, start as int, selected, i as nat),
            rows@ == row_hits(items@, start as int, body, i as nat),
            bases@ == base_hits(items@, start as int, body, i as nat),
        decreases count - i,
    {
        let item = &items.list[start + i];
        assert(items@[start + i] == item_view(*item));
        let y: u16 = step_across(body.y, i as u16);
        match item.row {
            Some(row) => {
                rows.push((y, row));
                match item.base {
                    Some((from, to)) => bases.push(
                        ((y, step_across(body.x, from), step_across(body.x, to)), row),
                    ),
                    None => {},
                }
                if row == selected {
                    at = Some(i);
                }
            },
            None => {},
        }
        let mut line = Line::new();
        line.extend_from(&item.line);
        assert(line@ =~= item.line@);
        lines.push(line);
        i += 1;
    }
    VisibleRows { lines, selected: at, rows, bases }
}

// ---- the page ----

/// What stands at the bottom of the page, with the areas, and what is left above.
#[derive(Debug)]
pub struct PagePanels {
    pub info: Option<(Rect, Lines)>,
    pub menu: Option<(Rect, Line)>,
    pub menu_clicks: Vec<(Region, RepoPageColumn)>,
    pub banner: Option<(Rect, Line)>,
    pub body: Rect,
}

/// The repo page on the screen.
#[derive(Debug)]
pub struct PageView {
    pub title: String,
    pub footer: String,
    pub back: Region,
    pub panels: PagePanels,
    pub visible: VisibleRows,
    /// The first line shown.
    pub scroll: usize,
    pub scrollbar: ScrollHit,
}

/// The banner of the page: a message, or that asking the remote failed.
pub open spec fn banner_of(app: AppState, repo: RepoState) -> Option<Seq<SpanView>> {
    match app.page.message {
        Some(message) => Some(one_span(" "@ + message@, in_bold(colored(Color::Yellow)))),
        None => match repo.page {
            Some(page) => match page.fetch_error {
                Some(error) => Some(
                    one_span(" fetch: "@ + error@, in_bold(colored(Color::Red))),
                ),
                None => None,
            },
            None => None,
        },
    }
}

fn banner_for(app: &AppState, repo: &RepoState) -> (res: Option<Line>)
    ensures
        match res {
            Some(line) => banner_of(*app, *repo) == Some(line@),
            None => banner_of(*app, *repo) is None,
        },
{
    match &app.page.message {
        Some(message) => Some(
            Line::of(
                cat(" ", message.as_str()).as_str(),
                Style::color(Color::Yellow).with_bold(),
            ),
        ),
        None => match &repo.page {
            Some(page) => match &page.fetch_error {
                Some(error) => Some(
                    Line::of(
                        cat(" fetch: ", error.as_str()).as_str(),
                        Style::color(Color::Red).with_bold(),
                    ),
                ),
                None => None,
            },
            None => None,
        },
    }
}

/// The branch that a repo's branches are compared against.
pub open spec fn page_base(repo: RepoState) -> Option<String> {
    match repo.page {
        Some(page) => page.base_branch,
        None => None,
    }
}

/// The selected row of the page.
pub open spec fn selected_row(app: AppState, rows: nat) -> int {
    if rows == 0 {
        0
    } else {
        least(app.page.selected as int, rows - 1)
    }
}

/// The row under the selection.
pub open spec fn row_under(app: AppState, rows: Seq<PageRow>) -> Option<PageRow> {
    if rows.len() > 0 {
        Some(rows[selected_row(app, rows.len())])
    } else {
        None
    }
}

/// The lines of the info panel, where it is switched on and a row is selected.
pub open spec fn info_of(app: AppState, repo: RepoState, rows: Seq<PageRow>) -> Option<
    Seq<Seq<SpanView>>,
> {
    match row_under(app, rows) {
        Some(row) => if app.prefs.repo_page_info {
            Some(row_info(row, page_base(repo)))
        } else {
            None
        },
        None => None,
    }
}

/// The rows that a panel at the bottom takes.
pub open spec fn taken(there: bool, height: int) -> int {
    if there {
        height
    } else {
        0
    }
}

/// The panels at the bottom of the page.
pub open spec fn are_page_panels(
    app: AppState,
    repo: RepoState,
    rows: Seq<PageRow>,
    inner: Rect,
    panels: PagePanels,
) -> bool {
    let banner = banner_of(app, repo);
    let info = info_of(app, repo, rows);
    let over_banner = above(inner, taken(banner is Some, 1));
    let over_menu = above(over_banner, taken(app.page.toggle, 1));
    let info_rows: int = match info {
        Some(lines) => capped(lines.len() as int + 2) as int,
        None => 0,
    };
    &&& match panels.info {
        Some((at, lines)) => info == Some(lines@) && at == bottom(over_menu, info_rows),
        None => info is None,
    }
    &&& match panels.menu {
        Some((at, line)) => app.page.toggle && at == bottom(over_banner, 1) && (
            line@,
            panels.menu_clicks@,
        ) == column_menu(app, at),
        None => !app.page.toggle && panels.menu_clicks@.len() == 0,
    }
    &&& match panels.banner {
        Some((at, line)) => banner == Some(line@) && at == bottom(inner, 1),
        None => banner is None,
    }
    &&& panels.body == above(over_menu, info_rows)
}

fn info_lines(app: &AppState, repo: &RepoState, under: Option<&PageRow>) -> (res: Option<Lines>)
    ensures
        match (under, res) {
            (Some(row), Some(lines)) => app.prefs.repo_page_info && lines@ == row_info(
                *row,
                page_base(*repo),
            ),
            (_, Some(lines)) => false,
            (_, None) => under is None || !app.prefs.repo_page_info,
        },
{
    match under {
        Some(row) => {
            if !app.prefs.repo_page_info {
                return None;
            }
            let base = match &repo.page {
                Some(page) => crate::app::clone_text(&page.base_branch),
                None => None,
            };
            Some(build_repo_page_info_lines(row, &base))
        },
        None => None,
    }
}

fn page_panels(
    app: &AppState,
    repo: &RepoState,
    rows: &Vec<PageRow>,
    under: Option<&PageRow>,
    inner: Rect,
) -> (res: PagePanels)
    requires
        app.wf(),
        match under {
            Some(row) => row_under(*app, rows@) == Some(*row),
            None => row_under(*app, rows@) is None,
        },
    ensures
        are_page_panels(*app, *repo, rows@, inner, res),
{
    let (banner, over_banner) = match banner_for(app, repo) {
        Some(line) => {
            let (at, rest) = take_bottom(inner, 1);
            (Some((at, line)), rest)
        },
        None => (None, inner),
    };
    assert(over_banner == above(inner, taken(banner is Some, 1)));
    let (menu, menu_clicks, over_menu) = if app.page.toggle {
        let (at, rest) = take_bottom(over_banner, 1);
        let (line, clicks) = build_menu(app, at);
        (Some((at, line)), clicks, rest)
    } else {
        (None, Vec::new(), over_banner)
    };
    assert(over_menu == above(over_banner, taken(app.page.toggle, 1)));
    let (info, body) = match info_lines(app, repo, under) {
        Some(lines) => {
            let (at, rest) = take_bottom(over_menu, step_across(cap(lines.len()), 2));
            (Some((at, lines)), rest)
        },
        None => (None, over_menu),
    };
    PagePanels { info, menu, menu_clicks, banner, body }
}

/// What the repo page shows.
pub open spec fn is_page_view(
    app: AppState,
    repo: RepoState,
    rows: Seq<PageRow>,
    area: Rect,
    icons: IconSet,
    tick: u64,
    view: PageView,
) -> bool {
    let body = view.panels.body;
    let items = page_items(rows, app.shown_page_columns(), icons);
    let start = least(app.page.scroll as int, less(items.len() as int, body.height as int));
    let count = least(body.height as int, items.len() - start) as nat;
    &&& view.title@ == page_title(repo, head_name(rows, 0), icons, tick)
    &&& view.footer@ == page_footer(row_under(app, rows))
    &&& view.back == back_region(area)
    &&& are_page_panels(app, repo, rows, inside(area, app.prefs.panel_padding), view.panels)
    &&& is_visible_rows(
        items,
        start,
        count,
        selected_row(app, rows.len()) as usize,
        body,
        view.visible,
    )
    &&& view.scroll == start
    &&& view.scrollbar == (ScrollHit {
        kind: ScrollKind::RepoPage,
        track: track_of(area, body),
        total: items.len() as usize,
        viewport: body.height as usize,
    })
}

fn selected_of(app: &AppState, rows: &Vec<PageRow>) -> (res: usize)
    ensures
        res == selected_row(*app, rows@.len()),
        rows@.len() > 0 ==> res < rows@.len(),
{
    if rows.len() == 0 {
        0
    } else if app.page.selected < rows.len() - 1 {
        app.page.selected
    } else {
        rows.len() - 1
    }
}

/// The repo page of a repo with the given rows.
pub fn page_view(
    app: &AppState,
    repo: &RepoState,
    rows: &Vec<PageRow>,
    area: Rect,
    icons: &IconSet,
    tick: u64,
) -> (res: PageView)
    requires
        app.wf(),
    ensures
        is_page_view(*app, *repo, rows@, area, *icons, tick, res),
{
    let selected: usize = selected_of(app, rows);
    let under: Option<&PageRow> = if rows.len() > 0 {
        Some(&rows[selected])
    } else {
        None
    };
    let back_end: u16 = step_across(area.x, cells_less(area.width, 1));
    let back: Region = (area.y, cells_less(back_end, 10), back_end);
    let panels = page_panels(app, repo, rows, under, inside_of(area, app.prefs.panel_padding));
    let body = panels.body;

    let items = build_items(rows, app.effective_repo_page_columns(), icons);
    let total: usize = items.list.len();
    let viewport: usize = body.height as usize;
    let last: usize = if viewport < total {
        total - viewport
    } else {
        0
    };
    let scroll: usize = if app.page.scroll < last {
        app.page.scroll
    } else {
        last
    };
    let left: usize = total - scroll;
    let count: usize = if viewport < left {
        viewport
    } else {
        left
    };
    let visible = visible_rows(&items, scroll, count, selected, body);
    PageView {
        title: title_of(repo, rows, icons, tick),
        footer: footer_for(under),
        back,
        panels,
        visible,
        scroll,
        scrollbar: ScrollHit {
            kind: ScrollKind::RepoPage,
            track: scrollbar_track(area, body),
            total,
            viewport,
        },
    }
}

/// The rows of an open repo page.
pub open spec fn are_page_rows(app: AppState, idx: usize, rows: Seq<PageRow>) -> bool {
    &&& rows.len() == app.page_len()
    &&& forall|i: int|
        0 <= i < rows.len() ==> is_row_at(app.repos@[idx as int], i, #[trigger] rows[i])
}

/// The repo page that is open.
pub fn repo_page_view(app: &AppState, area: Rect, icons: &IconSet, tick: u64) -> (res: Option<
    PageView,
>)
    requires
        app.wf(),
    ensures
        match (app.page.repo, res) {
            (Some(idx), Some(view)) => exists|rows: Seq<PageRow>|
                #[trigger] are_page_rows(*app, idx, rows) && is_page_view(
                    *app,
                    app.repos@[idx as int],
                    rows,
                    area,
                    *icons,
                    tick,
                    view,
                ),
            (None, None) => true,
            _ => false,
        },
{
    match app.page.repo {
        Some(idx) => {
            let rows = app.repo_page_rows();
            let view = page_view(app, &app.repos[idx], &rows, area, icons, tick);
            assert(are_page_rows(*app, idx, rows@));
            Some(view)
        },
        None => None,
    }
}

// ---- what a row of the page says ----

/// The changes of a branch: what was added, modified and deleted, in this order, and their sum.
pub proof fn law_changes_of_a_branch(stats: BranchStats, column: RepoPageColumn)
    ensures
        changes_text(None) == "computing…"@,
        changes_text(Some(stats)) == "+"@ + decimal(stats.added as nat) + " ~"@ + decimal(
            stats.modified as nat,
        ) + (" -"@ + decimal(stats.deleted as nat) + "  (Σ "@ + decimal(stats.sum()) + ")"@),
        stat_of(Some(stats), RepoPageColumn::Added) == Some(stats.added),
        stat_of(Some(stats), RepoPageColumn::Modified) == Some(stats.modified),
        stat_of(Some(stats), RepoPageColumn::Deleted) == Some(stats.deleted),
        stat_of(Some(stats), RepoPageColumn::Total) == Some(stats.sum() as u32),
        stat_of(None, column) is None,
        stats.added + stats.modified + stats.deleted <= u32::MAX ==> stats.sum() == stats.added
            + stats.modified + stats.deleted,
{
}

/// The base of a branch is marked where it was picked by hand, and shown as unknown until it is
/// found.
pub proof fn law_base_of_a_row(row: PageRow, base: String)
    ensures
        row.base is None ==> base_span(row).0 == "  …"@,
        row.base == Some(base) && base@.len() > 0 && row.base_is_override ==> base_span(row) == (
            "  "@ + cut_right(base@, 27) + "*"@,
            in_bold(colored(Color::Magenta)),
        ),
        row.base == Some(base) && base@.len() > 0 && !row.base_is_override ==> base_span(row) == (
            "  "@ + cut_right(base@, 28),
            colored(Color::Blue),
        ),
{
    reveal_strlit("");
}

/// The current branch is marked with a star, and no other is.
pub proof fn law_star_of_the_current_branch(row: PageRow, pad: usize)
    ensures
        row.is_head ==> branch_start(row, pad)[0].0 == "* "@,
        !row.is_head ==> branch_start(row, pad)[0].0 == "  "@,
        branch_start(row, pad)[1].0 == padded(cut_right(row.branch@, pad), pad as nat),
        stash_line(row)[0].0 == "  "@ + padded(stash_name(stash_number(row)), 10),
{
}

/// What the info of a row says first: the branch and whether it is the current one, its upstream
/// and its base; of a stash its number and its label.
pub proof fn law_info_of_a_row(row: PageRow, base: Option<String>)
    ensures
        row.kind !is Stash ==> {
            let info = row_info(row, base);
            &&& info[0] == pair(
                "branch"@,
                row.branch@ + if row.is_head { "  (HEAD)"@ } else { ""@ },
            )
            &&& info[1] == pair(
                "upstream"@,
                if row.upstream is Some { row.upstream->0@ } else { "(none)"@ },
            )
            &&& info[2] == pair("base"@, base_text(base, row.merge_base_short))
        },
        row.kind is Stash && row.stash_index is Some ==> {
            let info = row_info(row, base);
            &&& info[0] == pair("stash"@, stash_name(row.stash_index->0))
            &&& info[1] == pair("label"@, row.branch@)
        },
{
}

proof fn lemma_kinds(rows: Seq<PageRow>, kind: PageRowKind, n: nat)
    requires
        n <= rows.len(),
    ensures
        kind_count(rows, kind, n) == rows.take(n as int).filter(
            |row: PageRow| row.kind == kind,
        ).len(),
    decreases n,
{
    reveal(Seq::filter);
    if n > 0 {
        lemma_kinds(rows, kind, (n - 1) as nat);
        assert(rows.take(n as int).drop_last() =~= rows.take(n - 1));
        assert(rows.take(n as int).last() == rows[n - 1]);
    } else {
        assert(rows.take(0) =~= Seq::empty());
    }
}

proof fn lemma_rows_keep(
    items: Seq<ItemView>,
    rows: Seq<PageRow>,
    kind: PageRowKind,
    columns: RepoPageColumns,
    icons: IconSet,
    n: nat,
)
    ensures
        ({
            let all = with_rows(items, rows, kind, columns, icons, n);
            &&& all.len() >= items.len()
            &&& forall|i: int| 0 <= i < items.len() ==> all[i] == #[trigger] items[i]
        }),
    decreases n,
{
    if n > 0 && n <= rows.len() {
        lemma_rows_keep(items, rows, kind, columns, icons, (n - 1) as nat);
    }
}

/// The page begins with its branches, under a header that counts them, and so does every header
/// count the rows of its kind.
pub proof fn law_headers_count_their_rows(
    rows: Seq<PageRow>,
    columns: RepoPageColumns,
    icons: IconSet,
    kind: PageRowKind,
)
    ensures
        kind_count(rows, kind, rows.len()) == rows.filter(|row: PageRow| row.kind == kind).len(),
        page_items(rows, columns, icons)[0].0[1].0 == "BRANCHES"@ + " ("@ + decimal(
            kind_count(rows, PageRowKind::Branch, rows.len()),
        ) + ")"@,
        page_items(rows, columns, icons)[0].0[0].0 == icons.branches@ + " "@,
{
    lemma_kinds(rows, kind, rows.len());
    assert(rows.take(rows.len() as int) =~= rows);
    let head = Seq::<ItemView>::empty().push(
        section_header(
            icons.branches@,
            Color::Green,
            "BRANCHES"@,
            kind_count(rows, PageRowKind::Branch, rows.len()),
        ),
    ).push((column_header(columns, name_pad(rows)), None, None));
    lemma_rows_keep(head, rows, PageRowKind::Branch, columns, icons, rows.len());
    let a = with_rows(head, rows, PageRowKind::Branch, columns, icons, rows.len());
    assert(a[0] == head[0]);
    let trees = kind_count(rows, PageRowKind::Worktree, rows.len());
    let titled = a.push((blank_line(), None, None)).push(
        section_header(icons.worktrees@, Color::Cyan, "WORKTREES"@, trees),
    );
    lemma_rows_keep(titled, rows, PageRowKind::Worktree, columns, icons, rows.len());
    assert(titled[0] == a[0]);
    let b = if trees > 0 {
        with_rows(titled, rows, PageRowKind::Worktree, columns, icons, rows.len())
    } else {
        a
    };
    assert(b[0] == head[0]);
    let stashed = b.push((blank_line(), None, None)).push(
        section_header(
            icons.stashes@,
            Color::Magenta,
            "STASHES"@,
            kind_count(rows, PageRowKind::Stash, rows.len()),
        ),
    );
    lemma_rows_keep(stashed, rows, PageRowKind::Stash, columns, icons, rows.len());
    assert(stashed[0] == b[0]);
}

} // verus!
