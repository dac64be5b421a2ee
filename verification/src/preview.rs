//! The preview of what is selected: a repo's log or diff, a group, a folder, the Result or the
//! Errors.

use vstd::prelude::*;
use vstd::string::*;

use crate::app::AppState;
use crate::dialogs::InfoAction;
use crate::icons::IconSet;
use crate::infoview::{
    action_view, build_info_lines, click_regions, info_block, place_clicks, placed_upto,
    visible_lines, ActionView,
};
use crate::layout::{divide, lemma_two, spans_across, Part, Way};
use crate::options::{ClickRegion, Command, Gauge, RightView, ScrollHit, ScrollKind};
use crate::repo::{texts, RepoState, RepoStatus};
use crate::rows::{
    all_below, count_folders, folder_name, folder_path, folders_of, name_of_folder, path_of_folder,
    ListRow,
};
use crate::screen::{
    across, cells_less, colored, in_bold, inside, inside_of, less, no_lines, one_span, step_across,
    Color, Line, Lines, Rect, Region, SpanView, Style,
};
use crate::spans::{
    ansi, ansi_line, border_of, build_status_row, label_of, no_segments, pane_border_style,
    regions_of, row_width, scrollbar_track, segment_spans, status_label, track_of, width_of_segments,
    SegmentView, Segments,
};
use crate::summaries::{
    build_error_summary, build_folder_summary, build_group_summary, build_result_summary,
    error_summary, folder_summary, group_summary, result_summary,
};
use crate::text::{cat, cat3, cat5, decimal, join, joined, number};
use crate::times::{format_seconds, seconds_text};
use crate::widths::{shown_width, width_of};

verus! {

/// What the preview shows.
#[derive(Debug, Clone, Copy, PartialEq, Eq, Structural)]
pub enum Shown {
    Errors,
    Result,
    Log(usize),
    Diff(usize),
    Group(usize),
    /// The folder of a repo that lies in so many others.
    Folder { of: usize, level: usize },
}

/// What is shown is there.
pub open spec fn shown_ok(app: AppState, shown: Shown) -> bool {
    match shown {
        Shown::Log(idx) => idx < app.repos@.len(),
        Shown::Diff(idx) => idx < app.repos@.len(),
        Shown::Folder { of, level } => of < app.repos@.len() && level < folders_of(
            app.repos@[of as int],
        ),
        _ => true,
    }
}

/// What the preview shows: what is selected, but the Result where it is laid over.
pub open spec fn shown_in(app: AppState) -> Shown {
    if app.result_overlay {
        Shown::Result
    } else {
        match app.picked() {
            Some(ListRow::Repo { idx, .. }) => match app.right_view {
                RightView::Log => Shown::Log(idx),
                RightView::Diff => Shown::Diff(idx),
            },
            Some(ListRow::Group { group, .. }) => Shown::Group(group),
            Some(ListRow::Folder { of, level }) => Shown::Folder { of, level },
            _ => if app.any_failed() && app.selected == app.lines().len() + 1 {
                Shown::Errors
            } else {
                Shown::Result
            },
        }
    }
}

/// What the preview shows.
pub fn what_is_shown(app: &AppState) -> (res: Shown)
    requires
        app.wf(),
    ensures
        res == shown_in(*app),
        shown_ok(*app, res),
{
    if app.result_overlay {
        return Shown::Result;
    }
    match app.selected_row() {
        Some(ListRow::Repo { idx, .. }) => match app.right_view {
            RightView::Log => Shown::Log(idx),
            RightView::Diff => Shown::Diff(idx),
        },
        Some(ListRow::Group { group, .. }) => Shown::Group(group),
        Some(ListRow::Folder { of, level }) => Shown::Folder { of, level },
        _ => {
            let shown: usize = app.visible_rows().len();
            if app.has_errors() && app.selected == shown + 1 {
                Shown::Errors
            } else {
                Shown::Result
            }
        },
    }
}

/// The repo that the preview shows.
pub open spec fn shown_repo(shown: Shown) -> Option<usize> {
    match shown {
        Shown::Log(idx) => Some(idx),
        Shown::Diff(idx) => Some(idx),
        _ => None,
    }
}

// ---- the content ----

/// The title of a repo's log; `running` is how long its pull has been running.
pub open spec fn log_title(repo: RepoState, running: Option<u64>) -> Seq<char> {
    let pid = match repo.status {
        RepoStatus::Running { pid } => "pid "@ + decimal(pid as nat),
        _ => "pid —"@,
    };
    let time = match repo.elapsed {
        Some(elapsed) => " · "@ + seconds_text(elapsed) + "s"@,
        None => match running {
            Some(elapsed) => " · "@ + seconds_text(elapsed) + "s"@,
            None => ""@,
        },
    };
    " "@ + repo.name@ + " · "@ + label_of(repo.status) + (" · "@ + pid + (time + " "@))
}

fn time_note(elapsed: u64) -> (res: String)
    ensures
        res@ == " · "@ + seconds_text(elapsed) + "s"@,
{
    cat3(" · ", format_seconds(elapsed).as_str(), "s")
}

fn title_of_log(repo: &RepoState, running: Option<u64>) -> (res: String)
    ensures
        res@ == log_title(*repo, running),
{
    let pid = match repo.status {
        RepoStatus::Running { pid } => cat("pid ", number(pid as u64).as_str()),
        _ => "pid —".to_owned(),
    };
    let time = match repo.elapsed {
        Some(elapsed) => time_note(elapsed),
        None => match running {
            Some(elapsed) => time_note(elapsed),
            None => "".to_owned(),
        },
    };
    let tail = cat3(" · ", pid.as_str(), cat(time.as_str(), " ").as_str());
    cat5(" ", repo.name.as_str(), " · ", status_label(&repo.status), tail.as_str())
}

/// The lines of a diff view.
pub open spec fn diff_view(repo: RepoState) -> Seq<Seq<char>> {
    match repo.diff {
        Some(lines) => lines.deep_view(),
        None => seq!["(loading…)"@],
    }
}

/// The title of the preview.
pub open spec fn preview_title(app: AppState, shown: Shown, running: Option<u64>) -> Seq<char> {
    " [2]"@ + match shown {
        Shown::Errors => " Errors "@,
        Shown::Result => " Result "@,
        Shown::Diff(idx) => " "@ + app.repos@[idx as int].name@ + " · diff "@,
        Shown::Log(idx) => log_title(app.repos@[idx as int], running),
        Shown::Group(group) => " "@ + app.group_name(group as int) + " · group "@,
        Shown::Folder { of, level } => " "@ + folder_path(app.repos@[of as int], level + 1)
            + " · folder "@,
    }
}

/// The names of the folders that the first `n` repos of a list lie in, at a level.
pub open spec fn folder_names_upto(app: AppState, firsts: Seq<usize>, level: int, n: nat) -> Seq<
    Seq<char>,
>
    decreases n,
{
    if n == 0 || n > firsts.len() {
        Seq::empty()
    } else {
        folder_names_upto(app, firsts, level, (n - 1) as nat).push(
            folder_name(app.repo_at(firsts[n - 1]), level),
        )
    }
}

/// What the preview of a group shows: of the repos in the list that are in it.
pub open spec fn group_view(app: AppState, group: int) -> Seq<Seq<char>> {
    let shown = app.visible();
    group_summary(
        app.repos@,
        if 0 <= group < app.outline.groups@.len() {
            Some(app.outline.groups@[group])
        } else {
            None
        },
        app.in_group_upto(shown, group, shown.len()),
    )
}

/// What the preview of a folder shows: of the repos in the list that lie below it.
pub open spec fn folder_view(app: AppState, of: usize, level: int) -> Seq<Seq<char>> {
    let shown = app.visible();
    let below = app.in_folder_upto(shown, of, level, shown.len());
    let firsts = app.firsts_upto(below, level + 1, below.len());
    folder_summary(
        app.repos@,
        folder_path(app.repo_at(of), level + 1),
        below,
        folder_names_upto(app, firsts, level + 1, firsts.len()),
    )
}

fn lines_of_group(app: &AppState, group: usize) -> (res: Vec<String>)
    requires
        app.wf(),
    ensures
        res.deep_view() == group_view(*app, group as int),
{
    let members = app.members_in_group(&app.visible_indices(), group);
    let facts = if group < app.outline.groups.len() {
        Some(&app.outline.groups[group])
    } else {
        None
    };
    build_group_summary(&app.repos, facts, &members)
}

fn lines_of_folder(app: &AppState, of: usize, level: usize) -> (res: Vec<String>)
    requires
        app.wf(),
        of < app.repos@.len(),
        level < folders_of(app.repos@[of as int]),
    ensures
        res.deep_view() == folder_view(*app, of, level as int),
{
    let own: usize = count_folders(&app.repos[of]);
    assert(level < own);
    let below = app.members_in_folder(&app.visible_indices(), of, level);
    let firsts = app.firsts(&below, level + 1);
    let mut names: Vec<String> = Vec::new();
    let mut i: usize = 0;
    assert(names.deep_view() =~= Seq::<Seq<char>>::empty());
    while i < firsts.len()
        invariant
            i <= firsts@.len(),
            level < own,
            all_below(firsts@, app.repos@.len()),
            forall|k: int|
                0 <= k < firsts@.len() ==> folders_of(app.repo_at(#[trigger] firsts@[k])) > level
                    + 1,
            names.deep_view() == folder_names_upto(*app, firsts@, level + 1, i as nat),
        decreases firsts@.len() - i,
    {
        let ghost so_far = names.deep_view();
        let first: usize = firsts[i];
        let name = name_of_folder(&app.repos[first], level + 1);
        names.push(name);
        assert(names.deep_view() =~= so_far.push(name@));
        i += 1;
    }
    let path = path_of_folder(&app.repos[of], level + 1);
    build_folder_summary(&app.repos, path.as_str(), &below, &names)
}

/// The lines of the preview.
pub open spec fn preview_lines(app: AppState, shown: Shown, icons: IconSet) -> Seq<Seq<char>> {
    match shown {
        Shown::Errors => error_summary(app, icons),
        Shown::Result => result_summary(app, icons),
        Shown::Diff(idx) => diff_view(app.repos@[idx as int]),
        Shown::Log(idx) => app.repos@[idx as int].log@,
        Shown::Group(group) => group_view(app, group as int),
        Shown::Folder { of, level } => folder_view(app, of, level as int),
    }
}

fn copy_lines(lines: &Vec<String>) -> (res: Vec<String>)
    ensures
        res.deep_view() == lines.deep_view(),
{
    let mut out: Vec<String> = Vec::new();
    let mut i: usize = 0;
    while i < lines.len()
        invariant
            i <= lines@.len(),
            out@.len() == i,
            forall|j: int| 0 <= j < i ==> (#[trigger] out@[j])@ == lines@[j]@,
        decreases lines@.len() - i,
    {
        out.push(lines[i].clone());
        i += 1;
    }
    assert(out.deep_view() =~= lines.deep_view());
    out
}

fn lines_of_log(repo: &RepoState) -> (res: Vec<String>)
    ensures
        res.deep_view() == repo.log@,
{
    let log = repo.log.lines();
    let mut out: Vec<String> = Vec::new();
    let mut i: usize = 0;
    while i < log.len()
        invariant
            i <= log@.len(),
            repo.log@ == texts(log@),
            out@.len() == i,
            forall|j: int| 0 <= j < i ==> (#[trigger] out@[j])@ == log@[j]@,
        decreases log@.len() - i,
    {
        out.push(log[i].clone());
        i += 1;
    }
    assert(out.deep_view() =~= repo.log@);
    out
}

fn lines_of_preview(app: &AppState, shown: Shown, icons: &IconSet) -> (res: Vec<String>)
    requires
        app.wf(),
        shown_ok(*app, shown),
    ensures
        res.deep_view() == preview_lines(*app, shown, *icons),
{
    match shown {
        Shown::Errors => build_error_summary(app, icons),
        Shown::Result => build_result_summary(app, icons),
        Shown::Diff(idx) => match &app.repos[idx].diff {
            Some(lines) => copy_lines(lines),
            None => {
                let mut lines: Vec<String> = Vec::new();
                lines.push("(loading…)".to_owned());
                assert(lines.deep_view() =~= diff_view(app.repos@[idx as int]));
                lines
            },
        },
        Shown::Log(idx) => lines_of_log(&app.repos[idx]),
        Shown::Group(group) => lines_of_group(app, group),
        Shown::Folder { of, level } => lines_of_folder(app, of, level),
    }
}

fn title_of_preview(app: &AppState, shown: Shown, running: Option<u64>) -> (res: String)
    requires
        shown_ok(*app, shown),
    ensures
        res@ == preview_title(*app, shown, running),
{
    let title = match shown {
        Shown::Errors => " Errors ".to_owned(),
        Shown::Result => " Result ".to_owned(),
        Shown::Diff(idx) => cat3(" ", app.repos[idx].name.as_str(), " · diff "),
        Shown::Log(idx) => title_of_log(&app.repos[idx], running),
        Shown::Group(group) => cat3(" ", app.name_of_group(group), " · group "),
        Shown::Folder { of, level } => {
            let own: usize = count_folders(&app.repos[of]);
            assert(level < own);
            let path = path_of_folder(&app.repos[of], level + 1);
            cat3(" ", path.as_str(), " · folder ")
        },
    };
    cat(" [2]", title.as_str())
}

/// Lines with their colors, up to the first `n`.
pub open spec fn ansi_upto(lines: Seq<Seq<char>>, n: nat) -> Seq<Seq<SpanView>>
    decreases n,
{
    if n == 0 || n > lines.len() {
        no_lines()
    } else {
        ansi_upto(lines, (n - 1) as nat).push(ansi(lines[n - 1]))
    }
}

/// Lines with their colors.
pub fn ansi_lines(lines: &Vec<String>) -> (res: Lines)
    ensures
        res@ == ansi_upto(lines.deep_view(), lines.deep_view().len()),
{
    let mut out = Lines::new();
    let mut i: usize = 0;
    while i < lines.len()
        invariant
            i <= lines@.len(),
            out@ == ansi_upto(lines.deep_view(), i as nat),
        decreases lines@.len() - i,
    {
        assert(lines.deep_view()[i as int] == lines@[i as int]@);
        out.push(ansi_line(lines[i].as_str()));
        i += 1;
    }
    out
}

// ---- scrolling ----

/// The last line that content can be scrolled to.
pub open spec fn last_scroll(total: nat, viewport: nat) -> int {
    less(total as int, viewport as int)
}

/// The first line of the preview: a log that is followed shows its end, other content stands
/// where it was scrolled to; nothing is scrolled past its end.
pub open spec fn first_line(app: AppState, shown: Shown, total: nat, viewport: nat) -> int {
    let last = last_scroll(total, viewport);
    match shown {
        Shown::Log(idx) => {
            let repo = app.repos@[idx as int];
            if repo.auto_scroll || repo.preview_scroll > last {
                last
            } else {
                repo.preview_scroll as int
            }
        },
        Shown::Diff(idx) => {
            let scroll = app.repos@[idx as int].preview_scroll;
            if scroll > last {
                last
            } else {
                scroll as int
            }
        },
        _ => 0,
    }
}

fn scroll_of(app: &AppState, shown: Shown, total: usize, viewport: usize) -> (res: usize)
    requires
        shown_ok(*app, shown),
    ensures
        res == first_line(*app, shown, total as nat, viewport as nat),
{
    let last: usize = if viewport < total {
        total - viewport
    } else {
        0
    };
    match shown {
        Shown::Log(idx) => {
            let repo = &app.repos[idx];
            if repo.auto_scroll || repo.preview_scroll > last {
                last
            } else {
                repo.preview_scroll
            }
        },
        Shown::Diff(idx) => {
            let scroll: usize = app.repos[idx].preview_scroll;
            if scroll > last {
                last
            } else {
                scroll
            }
        },
        _ => 0,
    }
}

// ---- the pane ----

/// The pane below the info block, or all of the preview.
#[derive(Debug)]
pub struct PreviewView {
    pub title: String,
    pub border: Style,
    pub inner: Rect,
    pub content: Lines,
    /// The first line shown.
    pub scroll: usize,
    pub scrollbar: ScrollHit,
    /// The copy button on the border, where a repo is shown.
    pub copy: Option<(Region, InfoAction)>,
    /// The hints on the bottom border, where a group is shown, and what clicks on them run.
    pub footer: Line,
    pub footer_clicks: Vec<ClickRegion>,
}

/// The hints on the border of a group's preview.
pub open spec fn group_footer(group: usize) -> Seq<SegmentView> {
    let key = in_bold(colored(Color::Cyan));
    let hint = colored(Color::DarkGray);
    no_segments().push((" enter/space"@, key, Some(Command::ToggleGroupCollapsed(group)))).push(
        (" collapse/expand"@, hint, Some(Command::ToggleGroupCollapsed(group))),
    ).push((" · "@, hint, None)).push(("z"@, key, Some(Command::GroupingToggle))).push(
        (" ungrouped view "@, hint, Some(Command::GroupingToggle)),
    )
}

/// The hints on the border of the preview.
pub open spec fn preview_footer(shown: Shown) -> Seq<SegmentView> {
    match shown {
        Shown::Group(group) => group_footer(group),
        _ => no_segments(),
    }
}

/// The column at which the hints on the bottom border begin: they end before its corner.
pub open spec fn footer_start(footer: Seq<SegmentView>, area: Rect) -> u16 {
    across(area.x, less(area.width as int, row_width(footer) + 1))
}

fn build_footer(shown: Shown) -> (res: Segments)
    ensures
        res@ == preview_footer(shown),
{
    let mut footer = Segments::new();
    match shown {
        Shown::Group(group) => {
            let key = Style::color(Color::Cyan).with_bold();
            let hint = Style::color(Color::DarkGray);
            footer.push(" enter/space", key, Some(Command::ToggleGroupCollapsed(group)));
            footer.push(" collapse/expand", hint, Some(Command::ToggleGroupCollapsed(group)));
            footer.push(" · ", hint, None);
            footer.push("z", key, Some(Command::GroupingToggle));
            footer.push(" ungrouped view ", hint, Some(Command::GroupingToggle));
        },
        _ => {},
    }
    footer
}

fn place_footer(footer: &Segments, area: Rect) -> (res: (Line, Vec<ClickRegion>))
    ensures
        res.0@ == segment_spans(footer@),
        res.1@ == regions_of(
            footer@,
            footer_start(footer@, area),
            across(area.y, less(area.height as int, 1)),
        ),
{
    let wide: usize = width_of_segments(footer);
    let gap: u16 = if (wide as u128) + 1 < area.width as u128 {
        area.width - 1 - wide as u16
    } else {
        0
    };
    let start: u16 = step_across(area.x, gap);
    let row: u16 = step_across(area.y, cells_less(area.height, 1));
    let mut clicks: Vec<ClickRegion> = Vec::new();
    let line = build_status_row(footer, start, row, &mut clicks);
    assert(clicks@ =~= regions_of(footer@, start, row));
    (line, clicks)
}

/// Where the copy button stands on the border of a pane.
pub open spec fn copy_region(area: Rect) -> Region {
    let end = across(area.x, less(area.width as int, 2));
    (area.y, less(end as int, (shown_width("⧉"@) as u16) as int) as u16, end)
}

/// What the pane shows.
pub open spec fn is_preview(
    app: AppState,
    shown: Shown,
    area: Rect,
    running: Option<u64>,
    icons: IconSet,
    view: PreviewView,
) -> bool {
    let inner = inside(area, app.prefs.panel_padding);
    let lines = preview_lines(app, shown, icons);
    &&& view.title@ == preview_title(app, shown, running)
    &&& view.border == border_of(app.preview_focused)
    &&& view.inner == inner
    &&& view.content@ == ansi_upto(lines, lines.len())
    &&& view.scroll == first_line(app, shown, lines.len(), inner.height as nat)
    &&& view.scrollbar == (ScrollHit {
        kind: ScrollKind::Preview,
        track: track_of(area, inner),
        total: lines.len() as usize,
        viewport: inner.height as usize,
    })
    &&& view.footer@ == segment_spans(preview_footer(shown))
    &&& view.footer_clicks@ == regions_of(
        preview_footer(shown),
        footer_start(preview_footer(shown), area),
        across(area.y, less(area.height as int, 1)),
    )
    &&& if shown_repo(shown) is Some && lines.len() > 0 {
        match view.copy {
            Some((region, action)) => region == copy_region(area) && action_view(action)
                == ActionView::Copy(joined(lines, "\n"@)),
            None => false,
        }
    } else {
        view.copy is None
    }
}

/// The pane that shows a log, a diff, a group, a folder, the Result or the Errors.
pub fn preview_pane(
    app: &AppState,
    shown: Shown,
    area: Rect,
    running: Option<u64>,
    icons: &IconSet,
) -> (res: PreviewView)
    requires
        app.wf(),
        shown_ok(*app, shown),
    ensures
        is_preview(*app, shown, area, running, *icons, res),
{
    let inner = inside_of(area, app.prefs.panel_padding);
    let lines = lines_of_preview(app, shown, icons);
    let total: usize = lines.len();
    let viewport: usize = inner.height as usize;
    let of_repo = match shown {
        Shown::Log(_) => true,
        Shown::Diff(_) => true,
        _ => false,
    };
    let copy: Option<(Region, InfoAction)> = if of_repo && total > 0 {
        let end: u16 = step_across(area.x, cells_less(area.width, 2));
        let start: u16 = cells_less(end, width_of("⧉") as u16);
        Some(((area.y, start, end), InfoAction::CopyText(join(&lines, "\n"))))
    } else {
        None
    };
    let (footer, footer_clicks) = place_footer(&build_footer(shown), area);
    PreviewView {
        title: title_of_preview(app, shown, running),
        border: pane_border_style(app.preview_focused),
        inner,
        content: ansi_lines(&lines),
        scroll: scroll_of(app, shown, total, viewport),
        scrollbar: ScrollHit {
            kind: ScrollKind::Preview,
            track: scrollbar_track(area, inner),
            total,
            viewport,
        },
        copy,
        footer,
        footer_clicks,
    }
}

/// The copy button as it is drawn.
pub fn copy_button() -> (res: Line)
    ensures
        res@ == one_span("⧉"@, in_bold(colored(Color::Cyan))),
{
    Line::of("⧉", Style::color(Color::Cyan).with_bold())
}

// ---- the info block ----

/// The border and the padding of a panel take this many rows and columns.
pub open spec fn chrome(padded: bool) -> int {
    if padded {
        4
    } else {
        2
    }
}

/// The height that the info block asks for: its lines and its border, at least three rows, and
/// three less than there are.
pub open spec fn info_height(lines: nat, area: Rect, padded: bool) -> int {
    let most = if area.height > 6 {
        area.height - 3
    } else {
        3
    };
    let wanted = lines + chrome(padded);
    if wanted < 3 {
        3
    } else if wanted > most {
        most
    } else {
        wanted
    }
}

/// The info block on the screen.
#[derive(Debug)]
pub struct InfoPane {
    pub title: String,
    pub border: Style,
    pub inner: Rect,
    pub lines: Lines,
    pub clicks: Vec<(Region, InfoAction)>,
    /// Shows that there are more lines; they cannot be scrolled.
    pub scrollbar: Gauge,
}

/// The width of the info block's content in a pane.
pub open spec fn info_width(area: Rect, padded: bool) -> usize {
    less(area.width as int, chrome(padded)) as usize
}

/// What the info block shows in an area; the content was laid out for the pane it is in.
pub open spec fn is_info_pane(
    app: AppState,
    idx: usize,
    pane: Rect,
    area: Rect,
    view: InfoPane,
) -> bool {
    let inner = inside(area, app.prefs.panel_padding);
    let info = info_block(app, idx, info_width(pane, app.prefs.panel_padding));
    &&& view.title@ == " "@ + app.repos@[idx as int].name@ + " · info "@
    &&& view.border == border_of(app.preview_focused)
    &&& view.inner == inner
    &&& view.lines@ == info.0
    &&& click_regions(view.clicks@) == placed_upto(
        info.1,
        inner,
        visible_lines(info.0.len(), inner),
        info.1.len(),
    )
    &&& view.scrollbar == (Gauge {
        track: track_of(area, inner),
        total: info.0.len() as usize,
        viewport: inner.height as usize,
    })
}

/// The width of the info block's content in a pane.
fn width_for_info(app: &AppState, area: Rect) -> (res: usize)
    ensures
        res == info_width(area, app.prefs.panel_padding),
{
    if app.prefs.panel_padding {
        cells_less(area.width, 4) as usize
    } else {
        cells_less(area.width, 2) as usize
    }
}

/// The height that the info block of a repo asks for in a pane.
pub fn wanted_info_height(app: &AppState, idx: usize, area: Rect) -> (res: u16)
    requires
        idx < app.repos@.len(),
    ensures
        res == info_height(
            info_block(*app, idx, info_width(area, app.prefs.panel_padding)).0.len(),
            area,
            app.prefs.panel_padding,
        ),
{
    let lines: usize = build_info_lines(app, idx, width_for_info(app, area)).lines.len();
    let most: u16 = if area.height > 6 {
        area.height - 3
    } else {
        3
    };
    let edge: usize = if app.prefs.panel_padding {
        4
    } else {
        2
    };
    if lines > most as usize {
        return most;
    }
    let wanted: usize = lines + edge;
    if wanted < 3 {
        3
    } else if wanted > most as usize {
        most
    } else {
        wanted as u16
    }
}

/// The info block of a repo in an area of the preview pane.
pub fn info_pane(app: &AppState, idx: usize, pane: Rect, area: Rect) -> (res: InfoPane)
    requires
        idx < app.repos@.len(),
    ensures
        is_info_pane(*app, idx, pane, area, res),
{
    let inner = inside_of(area, app.prefs.panel_padding);
    let info = build_info_lines(app, idx, width_for_info(app, pane));
    let (lines, clicks) = place_clicks(info, inner);
    let scrollbar = Gauge {
        track: scrollbar_track(area, inner),
        total: lines.len(),
        viewport: inner.height as usize,
    };
    InfoPane {
        title: cat3(" ", app.repos[idx].name.as_str(), " · info "),
        border: pane_border_style(app.preview_focused),
        inner,
        lines,
        clicks,
        scrollbar,
    }
}

/// The areas of the info block and of what lies below it: there is an info block where it is
/// switched on and a repo is shown.
pub fn preview_areas(app: &AppState, area: Rect) -> (res: (Option<Rect>, Rect))
    requires
        app.wf(),
    ensures
        res.0 is Some <==> app.prefs.info_pinned && shown_repo(shown_in(*app)) is Some,
        res.0 is None ==> res.1 == area,
        res.0 is Some ==> spans_across(res.0->0, Way::Down, area),
        spans_across(res.1, Way::Down, area),
        res.0 is Some && area.height >= 3 && area.y + area.height <= u16::MAX ==> {
            let idx = shown_repo(shown_in(*app))->0;
            let high = info_height(
                info_block(*app, idx, info_width(area, app.prefs.panel_padding)).0.len(),
                area,
                app.prefs.panel_padding,
            );
            &&& res.0->0 == (Rect { height: high as u16, ..area })
            &&& res.1 == (Rect {
                y: (area.y + high) as u16,
                height: (area.height - high) as u16,
                ..area
            })
        },
{
    let repo: Option<usize> = match what_is_shown(app) {
        Shown::Log(idx) => Some(idx),
        Shown::Diff(idx) => Some(idx),
        _ => None,
    };
    match repo {
        Some(idx) => {
            if app.prefs.info_pinned {
                let high: u16 = wanted_info_height(app, idx, area);
                proof {
                    lemma_two(Way::Down, Part::Length(high), Part::Min(0), area);
                }
                let (top, rest) = divide(Way::Down, Part::Length(high), Part::Min(0), area);
                (Some(top), rest)
            } else {
                (None, area)
            }
        },
        None => (None, area),
    }
}

/// What the right pane shows: the result while it is called up, else what the selected row
/// stands for.
pub proof fn law_what_is_previewed(app: AppState, idx: usize, depth: usize)
    ensures
        app.result_overlay ==> shown_in(app) is Result,
        !app.result_overlay && app.picked() == Some(ListRow::Repo { idx, depth })
            && app.right_view is Log ==> shown_in(app) == Shown::Log(idx),
        !app.result_overlay && app.picked() == Some(ListRow::Repo { idx, depth })
            && app.right_view is Diff ==> shown_in(app) == Shown::Diff(idx),
        !app.result_overlay && app.picked() is None && app.selected == app.lines().len()
            ==> shown_in(app) is Result,
        !app.result_overlay && app.picked() is None && app.selected == app.lines().len() + 1
            && app.any_failed() ==> shown_in(app) is Errors,
{
}

/// A log that follows shows its last lines; one that was scrolled shows what it was scrolled to,
/// as far as there is something.
pub proof fn law_where_a_log_starts(app: AppState, idx: usize, total: nat, viewport: nat)
    ensures
        app.repos@[idx as int].auto_scroll ==> first_line(app, Shown::Log(idx), total, viewport)
            == last_scroll(total, viewport),
        !app.repos@[idx as int].auto_scroll && app.repos@[idx as int].preview_scroll <= last_scroll(
            total,
            viewport,
        ) ==> first_line(app, Shown::Log(idx), total, viewport)
            == app.repos@[idx as int].preview_scroll,
        total >= viewport ==> last_scroll(total, viewport) + viewport == total,
        total < viewport ==> last_scroll(total, viewport) == 0,
{
}

} // verus!
