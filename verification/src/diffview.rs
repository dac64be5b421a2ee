//! The diff modal: the changed files over the selected file's diff.

use vstd::prelude::*;
use vstd::string::*;

use crate::app::AppState;
use crate::dialogs::{DiffFile, DiffModal, DiffSource};
use crate::layout::{divide_three, lemma_three, spans_across, Part, Way};
use crate::options::{DiffFocus, DiffMode, ScrollHit, ScrollKind};
use crate::preview::chrome;
use crate::screen::{
    across, blank_line, cells_less, centered, centered_rect, colored, in_bold, inside, inside_of,
    least, less, most, no_lines, one_span, plain_style, step_across, Color, Line, Lines, Rect,
    Region, SpanView, Style,
};
use crate::calls::{stash_name, stash_ref};
use crate::spans::{
    ansi, ansi_line, close_region, diff_modal_footer, diff_status_color, file_color, footer_parts,
    modal_close_button,
};
use crate::text::{cat3, cat5, count_text, decimal, joined};
use crate::widths::{
    cut_left, cut_right, shown_width, truncate_left, truncate_str, width_of,
};

verus! {

// ---- sizes ----

/// Nine tenths of a length.
pub open spec fn nine_tenths(n: u16) -> int {
    n * 9 / 10
}

/// The modal: nine tenths of the screen, and at least twenty by eight.
pub open spec fn modal_area(area: Rect) -> Rect {
    centered(
        most(nine_tenths(area.width), 20) as u16,
        most(nine_tenths(area.height), 8) as u16,
        area,
    )
}

/// The modal's area on the screen.
pub fn diff_modal_area(area: Rect) -> (res: Rect)
    ensures
        res == modal_area(area),
{
    let wide: u16 = (area.width as u32 * 9 / 10) as u16;
    let high: u16 = (area.height as u32 * 9 / 10) as u16;
    centered_rect(
        if wide > 20 {
            wide
        } else {
            20
        },
        if high > 8 {
            high
        } else {
            8
        },
        area,
    )
}

/// The part of the modal that holds the two panels.
pub open spec fn panels_area(modal: Rect, padded: bool) -> Rect {
    let inner = inside(modal, padded);
    Rect { x: across(inner.x, 1), width: less(inner.width as int, 2) as u16, ..inner }
}

fn panels_of(modal: Rect, padded: bool) -> (res: Rect)
    ensures
        res == panels_area(modal, padded),
{
    let inner = inside_of(modal, padded);
    Rect {
        x: step_across(inner.x, 1),
        y: inner.y,
        width: cells_less(inner.width, 2),
        height: inner.height,
    }
}

/// The height of the file panel: its files and its chips, and at most four tenths of the modal.
pub open spec fn files_height(modal: DiffModal, panels: Rect, padded: bool) -> int {
    let chips: int = if modal.has_chips() {
        1
    } else {
        0
    };
    let low = 3 + chips;
    let high = most(most(panels.height * 4 / 10, 3), low);
    least(most(modal.listed().len() + chrome(padded) + chips, low), high)
}

/// The height that the file panel asks for.
pub fn height_of_files(modal: &DiffModal, panels: Rect, padded: bool) -> (res: u16)
    ensures
        res == files_height(*modal, panels, padded),
{
    let chips: u16 = if modal.chips_active() {
        1
    } else {
        0
    };
    let low: u16 = 3 + chips;
    let tenths: u16 = (panels.height as u32 * 4 / 10) as u16;
    let at_least_three: u16 = if tenths > 3 {
        tenths
    } else {
        3
    };
    let high: u16 = if at_least_three > low {
        at_least_three
    } else {
        low
    };
    let listed: usize = modal.visible_file_indices().len();
    let border: usize = if padded {
        4
    } else {
        2
    };
    if listed >= high as usize {
        return high;
    }
    let wanted: usize = listed + border + chips as usize;
    if wanted >= high as usize {
        high
    } else if wanted > low as usize {
        wanted as u16
    } else {
        low
    }
}

// ---- title ----

/// The title of the modal.
pub open spec fn modal_title(source: DiffSource, mode: DiffMode) -> Seq<char> {
    match source {
        DiffSource::Stash { index, label, .. } => " "@ + stash_name(index) + " · "@ + cut_right(
            label@,
            50,
        ) + " "@,
        DiffSource::Dirty { name, .. } => " "@ + name@ + match mode {
            DiffMode::Uncommitted => " · uncommitted "@,
            DiffMode::BaseBranch => " · vs base branch "@,
        },
        DiffSource::Branch { name, .. } => " "@ + name@ + " · vs base branch "@,
    }
}

fn title_for(source: &DiffSource, mode: DiffMode) -> (res: String)
    ensures
        res@ == modal_title(*source, mode),
{
    match source {
        DiffSource::Stash { index, label, .. } => {
            let shown = truncate_str(label.as_str(), 50);
            cat5(" ", stash_ref(*index).as_str(), " · ", shown.as_str(), " ")
        },
        DiffSource::Dirty { name, .. } => match mode {
            DiffMode::Uncommitted => cat3(" ", name.as_str(), " · uncommitted "),
            DiffMode::BaseBranch => cat3(" ", name.as_str(), " · vs base branch "),
        },
        DiffSource::Branch { name, .. } => cat3(" ", name.as_str(), " · vs base branch "),
    }
}

// ---- the chips ----

/// A chip: its text, the letter that it filters by, its color, and whether it is the filter.
pub type ChipView = (Seq<char>, Option<char>, Color, bool);

/// The chips: one for all files, and one for each letter.
pub open spec fn chip_of(modal: DiffModal, k: int) -> ChipView {
    if k == 0 {
        (
            "[ all "@ + decimal(modal.files@.len()) + " ]"@,
            None,
            Color::Gray,
            modal.status_filter is None,
        )
    } else {
        let (letter, count) = modal.chips()[k - 1];
        (
            "[ "@ + seq![letter] + " "@ + decimal(count as nat) + " ]"@,
            Some(letter),
            file_color(seq![letter]),
            modal.status_filter == Some(letter),
        )
    }
}

/// The style of a chip.
pub open spec fn chip_style(color: Color, active: bool) -> Style {
    if active {
        in_bold(Style { bg: Some(Color::Cyan), ..colored(Color::Black) })
    } else {
        colored(color)
    }
}

/// The row of chips so far: its spans, the column after them, and what can be clicked.
pub type ChipRowView = (Seq<SpanView>, u16, Seq<(Region, Option<char>)>);

/// The row of chips up to the first `n`.
pub open spec fn chip_row(modal: DiffModal, area: Rect, n: nat) -> ChipRowView
    decreases n,
{
    if n == 0 {
        (blank_line(), area.x, Seq::empty())
    } else {
        let (spans, col, clicks) = chip_row(modal, area, (n - 1) as nat);
        let (text, letter, color, active) = chip_of(modal, n - 1);
        let end = across(col, (shown_width(text) as u16) as int);
        (
            spans.push((text, chip_style(color, active))).push((" "@, plain_style())),
            across(end, 1),
            clicks.push(((area.y, col, end), letter)),
        )
    }
}

fn letter_text(letter: char) -> (res: String)
    ensures
        res@ == seq![letter],
{
    let mut text = String::new();
    text.push(letter);
    assert(text@ =~= seq![letter]);
    text
}

fn chip_at(modal: &DiffModal, chips: &Vec<(char, usize)>, k: usize) -> (res: (
    String,
    Option<char>,
    Color,
    bool,
))
    requires
        chips@ == modal.chips(),
        k <= chips@.len(),
    ensures
        (res.0@, res.1, res.2, res.3) == chip_of(*modal, k as int),
{
    if k == 0 {
        let text = cat3("[ all ", count_text(modal.files.len()).as_str(), " ]");
        (text, None, Color::Gray, modal.status_filter.is_none())
    } else {
        let (letter, count) = chips[k - 1];
        let shown = letter_text(letter);
        let text = cat5("[ ", shown.as_str(), " ", count_text(count).as_str(), " ]");
        let active = match modal.status_filter {
            Some(filter) => filter == letter,
            None => false,
        };
        (text, Some(letter), diff_status_color(shown.as_str()), active)
    }
}

fn build_chips(modal: &DiffModal, area: Rect) -> (res: (Line, Vec<(Region, Option<char>)>))
    ensures
        ({
            let row = chip_row(*modal, area, modal.chips().len() + 1);
            (res.0@, res.1@) == (row.0, row.2)
        }),
{
    let chips = modal.status_chips();
    let total: usize = chips.len();
    let mut line = Line::new();
    let mut clicks: Vec<(Region, Option<char>)> = Vec::new();
    let mut col: u16 = area.x;
    let mut k: usize = 0;
    let mut more = true;
    while more
        invariant
            chips@ == modal.chips(),
            total == chips@.len(),
            more ==> k <= total,
            more ==> (line@, col, clicks@) == chip_row(*modal, area, k as nat),
            !more ==> (line@, col, clicks@) == chip_row(*modal, area, total as nat + 1),
        decreases if more { total - k + 1 } else { 0 },
    {
        let (text, letter, color, active) = chip_at(modal, &chips, k);
        let width: u16 = width_of(text.as_str()) as u16;
        let end: u16 = step_across(col, width);
        let style = if active {
            Style::color(Color::Black).with_bg(Color::Cyan).with_bold()
        } else {
            Style::color(color)
        };
        line.push(text.as_str(), style);
        line.push(" ", Style::plain());
        clicks.push(((area.y, col, end), letter));
        col = step_across(end, 1);
        if k < total {
            k += 1;
        } else {
            more = false;
        }
    }
    (line, clicks)
}

// ---- the file panel ----

/// The file panel.
#[derive(Debug)]
pub struct FilePanel {
    pub area: Rect,
    pub title: String,
    pub chips: Option<(Rect, Line)>,
    pub chip_clicks: Vec<(Region, Option<char>)>,
    pub content: Rect,
    pub lines: Lines,
    /// The line of the selected file.
    pub selected: Option<usize>,
    /// The first file shown.
    pub scroll: usize,
    pub scrollbar: Option<ScrollHit>,
}

/// The title of the file panel.
pub open spec fn files_title(modal: DiffModal) -> Seq<char> {
    if modal.status_filter is Some {
        " files ("@ + decimal(modal.listed().len()) + "/"@ + decimal(modal.files@.len()) + ") "@
    } else {
        " files ("@ + decimal(modal.files@.len()) + ") "@
    }
}

/// The line of a file: its status and its path, cut to the panel.
pub open spec fn file_line(file: DiffFile, width: usize) -> Seq<SpanView> {
    one_span(" "@ + file.status@ + " "@, colored(file_color(file.status@))).push(
        (cut_right(file.path@, width), plain_style()),
    )
}

/// The width that a path has in the file panel.
pub open spec fn path_width(content: Rect) -> usize {
    most(less(content.width as int, 5), 1) as usize
}

/// The lines of the files from `start` on, up to the first `n`.
pub open spec fn file_lines(modal: DiffModal, start: int, width: usize, n: nat) -> Seq<
    Seq<SpanView>,
>
    decreases n,
{
    if n == 0 || start + n > modal.listed().len() {
        no_lines()
    } else {
        file_lines(modal, start, width, (n - 1) as nat).push(
            file_line(modal.files@[modal.listed()[start + n - 1] as int], width),
        )
    }
}

/// The line of the selected file among the first `n` from `start` on.
pub open spec fn selected_line(modal: DiffModal, start: int, n: nat) -> Option<usize>
    decreases n,
{
    if n == 0 || start + n > modal.listed().len() {
        None
    } else if modal.listed()[start + n - 1] == modal.selected {
        Some((n - 1) as usize)
    } else {
        selected_line(modal, start, (n - 1) as nat)
    }
}

/// The rows of the file panel below the chips, and without its scrollbar's column.
pub open spec fn files_list_area(modal: DiffModal, area: Rect, padded: bool) -> Rect {
    let inner = inside(area, padded);
    if modal.has_chips() {
        Rect { y: across(inner.y, 1), height: less(inner.height as int, 1) as u16, ..inner }
    } else {
        inner
    }
}

/// An area without its last column.
pub open spec fn narrowed(area: Rect) -> Rect {
    Rect { width: less(area.width as int, 1) as u16, ..area }
}

fn narrower(area: Rect) -> (res: Rect)
    ensures
        res == narrowed(area),
{
    Rect { x: area.x, y: area.y, width: cells_less(area.width, 1), height: area.height }
}

/// What the file panel shows.
pub open spec fn is_file_panel(modal: DiffModal, area: Rect, padded: bool, panel: FilePanel) -> bool {
    let inner = inside(area, padded);
    let list = files_list_area(modal, area, padded);
    let content = narrowed(list);
    let listed = modal.listed();
    let chips = Rect { height: 1, ..inner };
    let row = chip_row(modal, chips, modal.chips().len() + 1);
    let scroll = least(
        modal.file_scroll as int,
        less(listed.len() as int, content.height as int),
    );
    let count = least(content.height as int, listed.len() - scroll) as nat;
    &&& panel.area == area
    &&& panel.title@ == files_title(modal)
    &&& panel.content == content
    &&& panel.scroll == scroll
    &&& match panel.chips {
        Some((at, line)) => modal.has_chips() && at == chips && (line@, panel.chip_clicks@) == (
            row.0,
            row.2,
        ),
        None => !modal.has_chips() && panel.chip_clicks@.len() == 0,
    }
    &&& if listed.len() == 0 {
        &&& panel.lines@ == no_lines().push(
            one_span("(no changed files)"@, colored(Color::DarkGray)),
        )
        &&& panel.selected is None
        &&& panel.scrollbar is None
    } else {
        &&& panel.lines@ == file_lines(modal, scroll, path_width(content), count)
        &&& panel.selected == selected_line(modal, scroll, count)
        &&& panel.scrollbar == Some(
            (ScrollHit {
                kind: ScrollKind::DiffFiles,
                track: list,
                total: listed.len() as usize,
                viewport: content.height as usize,
            }),
        )
    }
}

fn files_shown(
    modal: &DiffModal,
    listed: &Vec<usize>,
    start: usize,
    width: usize,
    count: usize,
) -> (res: (Lines, Option<usize>))
    requires
        listed@ == modal.listed(),
        start + count <= listed@.len(),
        forall|i: int| 0 <= i < listed@.len() ==> #[trigger] listed@[i] < modal.files@.len(),
    ensures
        res.0@ == file_lines(*modal, start as int, width, count as nat),
        res.1 == selected_line(*modal, start as int, count as nat),
{
    let total: usize = listed.len();
    let mut lines = Lines::new();
    let mut at: Option<usize> = None;
    let mut i: usize = 0;
    while i < count
        invariant
            i <= count,
            total == listed@.len(),
            start + count <= total,
            listed@ == modal.listed(),
            forall|i: int| 0 <= i < listed@.len() ==> #[trigger] listed@[i] < modal.files@.len(),
            lines@ == file_lines(*modal, start as int, width, i as nat),
            at == selected_line(*modal, start as int, i as nat),
        decreases count - i,
    {
        let index: usize = listed[start + i];
        let file = &modal.files[index];
        let mut line = Line::of(
            cat3(" ", file.status.as_str(), " ").as_str(),
            Style::color(diff_status_color(file.status.as_str())),
        );
        line.push(truncate_str(file.path.as_str(), width).as_str(), Style::plain());
        lines.push(line);
        if index == modal.selected {
            at = Some(i);
        }
        i += 1;
    }
    (lines, at)
}

fn title_of_files(modal: &DiffModal, listed: usize) -> (res: String)
    requires
        listed == modal.listed().len(),
    ensures
        res@ == files_title(*modal),
{
    let all = count_text(modal.files.len());
    if modal.status_filter.is_some() {
        cat5(" files (", count_text(listed).as_str(), "/", all.as_str(), ") ")
    } else {
        cat3(" files (", all.as_str(), ") ")
    }
}

/// The file panel of a diff modal.
pub fn file_panel(modal: &DiffModal, area: Rect, padded: bool) -> (res: FilePanel)
    ensures
        is_file_panel(*modal, area, padded, res),
{
    let inner = inside_of(area, padded);
    let chips_area = Rect { x: inner.x, y: inner.y, width: inner.width, height: 1 };
    let (chips, chip_clicks, list) = if modal.chips_active() {
        let (line, clicks) = build_chips(modal, chips_area);
        let below = Rect {
            x: inner.x,
            y: step_across(inner.y, 1),
            width: inner.width,
            height: cells_less(inner.height, 1),
        };
        (Some((chips_area, line)), clicks, below)
    } else {
        (None, Vec::new(), inner)
    };
    assert(list == files_list_area(*modal, area, padded));
    let content = narrower(list);
    let listed = modal.visible_file_indices();
    let total: usize = listed.len();
    let viewport: usize = content.height as usize;
    let last: usize = if viewport < total {
        total - viewport
    } else {
        0
    };
    let scroll: usize = if modal.file_scroll < last {
        modal.file_scroll
    } else {
        last
    };
    let left: usize = total - scroll;
    let count: usize = if viewport < left {
        viewport
    } else {
        left
    };
    let title = title_of_files(modal, total);
    if total == 0 {
        let mut lines = Lines::new();
        lines.push(Line::of("(no changed files)", Style::color(Color::DarkGray)));
        return FilePanel {
            area,
            title,
            chips,
            chip_clicks,
            content,
            lines,
            selected: None,
            scroll,
            scrollbar: None,
        };
    }
    let room: u16 = cells_less(content.width, 5);
    let width: usize = if room > 1 {
        room as usize
    } else {
        1
    };
    let (lines, selected) = files_shown(modal, &listed, scroll, width, count);
    FilePanel {
        area,
        title,
        chips,
        chip_clicks,
        content,
        lines,
        selected,
        scroll,
        scrollbar: Some(ScrollHit { kind: ScrollKind::DiffFiles, track: list, total, viewport }),
    }
}

// ---- the diff panel ----

/// The diff panel.
#[derive(Debug)]
pub struct DiffPanel {
    pub area: Rect,
    pub title: String,
    pub content: Rect,
    pub lines: Lines,
    /// The first line shown.
    pub scroll: usize,
    pub scrollbar: ScrollHit,
}

/// The place of a file among those listed from `from` on; the first where it is not listed.
pub open spec fn place_of(listed: Seq<usize>, file: usize, from: int) -> int
    decreases listed.len() - from,
{
    if from < 0 || from >= listed.len() {
        0
    } else if listed[from] == file {
        from
    } else {
        place_of(listed, file, from + 1)
    }
}

fn find_place(listed: &Vec<usize>, file: usize) -> (res: usize)
    ensures
        res == place_of(listed@, file, 0),
        res == 0 || res < listed@.len(),
{
    let mut i: usize = 0;
    while i < listed.len()
        invariant
            i <= listed@.len(),
            place_of(listed@, file, 0) == place_of(listed@, file, i as int),
        decreases listed@.len() - i,
    {
        if listed[i] == file {
            return i;
        }
        i += 1;
    }
    0
}

/// The path of the selected file.
pub open spec fn selected_path(modal: DiffModal) -> Seq<char> {
    if modal.selected < modal.files@.len() {
        modal.files@[modal.selected as int].path@
    } else {
        ""@
    }
}

/// The place of the selected file, before its path in the title.
pub open spec fn place_text(modal: DiffModal) -> Seq<char> {
    " file "@ + decimal((place_of(modal.listed(), modal.selected, 0) + 1) as nat) + "/"@ + decimal(
        modal.listed().len(),
    ) + " — "@
}

/// The title of the diff panel: the selected file, its path cut on the left to what is left of
/// the border, and to no less than eight columns.
pub open spec fn diff_title(modal: DiffModal, width: u16) -> Seq<char> {
    if modal.listed().len() == 0 {
        " diff "@
    } else {
        let prefix = place_text(modal);
        prefix + cut_left(
            selected_path(modal),
            most(less(width as int, shown_width(prefix) + 3), 8) as usize,
        ) + " "@
    }
}

fn title_of_diff(modal: &DiffModal, width: u16) -> (res: String)
    ensures
        res@ == diff_title(*modal, width),
{
    let listed = modal.visible_file_indices();
    if listed.len() == 0 {
        return " diff ".to_owned();
    }
    let place: usize = find_place(&listed, modal.selected);
    let prefix = cat5(
        " file ",
        count_text(place + 1).as_str(),
        "/",
        count_text(listed.len()).as_str(),
        " — ",
    );
    let used: usize = width_of(prefix.as_str());
    let room: usize = if used < width as usize && used + 3 < width as usize {
        width as usize - used - 3
    } else {
        0
    };
    let room: usize = if room > 8 {
        room
    } else {
        8
    };
    let path: &str = if modal.selected < modal.files.len() {
        modal.files[modal.selected].path.as_str()
    } else {
        ""
    };
    cat3(prefix.as_str(), truncate_left(path, room).as_str(), " ")
}

/// Lines with their colors from `start` on, up to the first `n`.
pub open spec fn ansi_between(lines: Seq<Seq<char>>, start: int, n: nat) -> Seq<Seq<SpanView>>
    decreases n,
{
    if n == 0 || start + n > lines.len() {
        no_lines()
    } else {
        ansi_between(lines, start, (n - 1) as nat).push(ansi(lines[start + n - 1]))
    }
}

fn ansi_range(lines: &Vec<String>, start: usize, count: usize) -> (res: Lines)
    requires
        start + count <= lines@.len(),
    ensures
        res@ == ansi_between(lines.deep_view(), start as int, count as nat),
{
    let total: usize = lines.len();
    let mut out = Lines::new();
    let mut i: usize = 0;
    while i < count
        invariant
            i <= count,
            total == lines@.len(),
            start + count <= total,
            out@ == ansi_between(lines.deep_view(), start as int, i as nat),
        decreases count - i,
    {
        assert(lines.deep_view()[start + i] == lines@[start + i]@);
        out.push(ansi_line(lines[start + i].as_str()));
        i += 1;
    }
    out
}

/// What the diff panel shows.
pub open spec fn is_diff_panel(modal: DiffModal, area: Rect, padded: bool, panel: DiffPanel) -> bool {
    let inner = inside(area, padded);
    let content = narrowed(inner);
    let total = modal.lines.deep_view().len();
    let scroll = least(modal.scroll as int, less(total as int, content.height as int));
    let count = least(content.height as int, total - scroll) as nat;
    &&& panel.area == area
    &&& panel.title@ == diff_title(modal, area.width)
    &&& panel.content == content
    &&& panel.scroll == scroll
    &&& panel.lines@ == ansi_between(modal.lines.deep_view(), scroll, count)
    &&& panel.scrollbar == (ScrollHit {
        kind: ScrollKind::DiffBody,
        track: inner,
        total: total as usize,
        viewport: content.height as usize,
    })
}

/// The diff panel of a diff modal.
pub fn diff_panel(modal: &DiffModal, area: Rect, padded: bool) -> (res: DiffPanel)
    ensures
        is_diff_panel(*modal, area, padded, res),
{
    let inner = inside_of(area, padded);
    let content = narrower(inner);
    let total: usize = modal.lines.len();
    let viewport: usize = content.height as usize;
    let last: usize = if viewport < total {
        total - viewport
    } else {
        0
    };
    let scroll: usize = if modal.scroll < last {
        modal.scroll
    } else {
        last
    };
    let left: usize = total - scroll;
    let count: usize = if viewport < left {
        viewport
    } else {
        left
    };
    DiffPanel {
        area,
        title: title_of_diff(modal, area.width),
        content,
        lines: ansi_range(&modal.lines, scroll, count),
        scroll,
        scrollbar: ScrollHit { kind: ScrollKind::DiffBody, track: inner, total, viewport },
    }
}

// ---- the modal ----

/// The diff modal on the screen.
#[derive(Debug)]
pub struct DiffView {
    pub area: Rect,
    pub title: String,
    pub footer: String,
    pub close: Region,
    pub files: FilePanel,
    pub diff: DiffPanel,
}

/// What the diff modal shows, its panels being where they are.
pub open spec fn is_diff_view(modal: DiffModal, area: Rect, padded: bool, view: DiffView) -> bool {
    &&& view.area == modal_area(area)
    &&& view.title@ == modal_title(modal.source, modal.mode)
    &&& view.footer@ == " "@ + joined(
        footer_parts(modal.source, modal.focus, modal.has_chips()),
        " · "@,
    ) + " "@
    &&& view.close == close_region(view.area)
    &&& is_file_panel(modal, view.files.area, padded, view.files)
    &&& is_diff_panel(modal, view.diff.area, padded, view.diff)
}

/// The diff modal, with its panels in the given areas.
pub fn diff_view(modal: &DiffModal, area: Rect, padded: bool, files: Rect, diff: Rect) -> (res:
    DiffView)
    ensures
        is_diff_view(*modal, area, padded, res),
        res.files.area == files,
        res.diff.area == diff,
{
    let at = diff_modal_area(area);
    let close: Region = match modal_close_button(at).1 {
        Some(region) => region,
        None => (0, 0, 0),
    };
    DiffView {
        area: at,
        title: title_for(&modal.source, modal.mode),
        footer: diff_modal_footer(&modal.source, modal.focus, modal.chips_active()),
        close,
        files: file_panel(modal, files, padded),
        diff: diff_panel(modal, diff, padded),
    }
}

/// Where the two panels lie when they fit: the file panel at the top, and the diff panel below
/// it after a blank row.
pub open spec fn panels_lie(modal: DiffModal, panels: Rect, padded: bool, view: DiffView) -> bool {
    let high = files_height(modal, panels, padded);
    &&& view.files.area == (Rect { height: high as u16, ..panels })
    &&& view.diff.area == (Rect {
        y: (panels.y + high + 1) as u16,
        height: (panels.height - high - 1) as u16,
        ..panels
    })
}

/// The diff modal that is open, its panels one over the other.
pub fn diff_modal_view(app: &AppState, area: Rect) -> (res: Option<DiffView>)
    ensures
        match (app.overlays.diff, res) {
            (Some(modal), Some(view)) => {
                let panels = panels_area(modal_area(area), app.prefs.panel_padding);
                &&& is_diff_view(modal, area, app.prefs.panel_padding, view)
                &&& spans_across(view.files.area, Way::Down, panels)
                &&& spans_across(view.diff.area, Way::Down, panels)
                &&& files_height(modal, panels, app.prefs.panel_padding) + 4 <= panels.height
                    && panels.y + panels.height <= u16::MAX ==> panels_lie(
                    modal,
                    panels,
                    app.prefs.panel_padding,
                    view,
                )
            },
            (None, None) => true,
            _ => false,
        },
{
    match &app.overlays.diff {
        Some(modal) => {
            let padded = app.prefs.panel_padding;
            let panels = panels_of(diff_modal_area(area), padded);
            let high: u16 = height_of_files(modal, panels, padded);
            proof {
                lemma_three(Way::Down, high, 1, 3, panels);
            }
            let (files, _gap, diff) = divide_three(
                Way::Down,
                Part::Length(high),
                Part::Length(1),
                Part::Min(3),
                panels,
            );
            Some(diff_view(modal, area, padded, files, diff))
        },
        None => None,
    }
}

// ---- what the diff modal says ----

/// The title of the diff modal says what is compared with what.
pub proof fn law_title_of_a_diff(path: String, name: String, index: usize, mode: DiffMode)
    ensures
        modal_title(DiffSource::Branch { path, name }, mode) == " "@ + name@
            + " · vs base branch "@,
        modal_title(DiffSource::Dirty { path, name }, DiffMode::Uncommitted) == " "@ + name@
            + " · uncommitted "@,
        modal_title(DiffSource::Dirty { path, name }, DiffMode::BaseBranch) == " "@ + name@
            + " · vs base branch "@,
        modal_title(DiffSource::Stash { path, index, label: name }, mode) == " "@ + stash_name(index)
            + " · "@ + cut_right(name@, 50) + " "@,
{
}

/// The first chip stands for all files and each other for the files of its letter; the one that
/// is in force is marked.
pub proof fn law_chips_of_a_diff(modal: DiffModal, k: int)
    requires
        0 <= k < modal.chips().len(),
    ensures
        chip_of(modal, 0).0 == "[ all "@ + decimal(modal.files@.len()) + " ]"@,
        chip_of(modal, 0).1 is None && (chip_of(modal, 0).3 <==> modal.status_filter is None),
        chip_of(modal, k + 1).0 == "[ "@ + seq![modal.chips()[k].0] + " "@ + decimal(
            modal.chips()[k].1 as nat,
        ) + " ]"@,
        chip_of(modal, k + 1).1 == Some(modal.chips()[k].0),
        chip_of(modal, k + 1).3 <==> modal.status_filter == Some(modal.chips()[k].0),
{
}

/// The title of the file panel counts the files that are listed, and all of them where some are
/// not.
pub proof fn law_title_of_the_files(modal: DiffModal)
    ensures
        modal.status_filter is None ==> files_title(modal) == " files ("@ + decimal(
            modal.files@.len(),
        ) + ") "@,
        modal.status_filter is Some ==> files_title(modal) == " files ("@ + decimal(
            modal.listed().len(),
        ) + "/"@ + decimal(modal.files@.len()) + ") "@,
        modal.selected < modal.files@.len() ==> selected_path(modal)
            == modal.files@[modal.selected as int].path@,
{
}

/// New files are green, deleted ones red, renamed and copied ones cyan, and all others yellow.
pub proof fn law_colors_of_files(status: Seq<char>)
    ensures
        file_color("A"@) == Color::Green && file_color("?"@) == Color::Green,
        file_color("D"@) == Color::Red,
        file_color("R"@) == Color::Cyan && file_color("C"@) == Color::Cyan,
        file_color("M"@) == Color::Yellow,
        status != "A"@ && status != "?"@ && status != "D"@ && status != "R"@ && status != "C"@
            ==> file_color(status) == Color::Yellow,
{
    reveal_strlit("A");
    reveal_strlit("?");
    reveal_strlit("D");
    reveal_strlit("R");
    reveal_strlit("C");
    reveal_strlit("M");
    assert("D"@[0] == 'D' && "A"@[0] == 'A' && "?"@[0] == '?' && "R"@[0] == 'R' && "C"@[0] == 'C'
        && "M"@[0] == 'M');
}

/// The footer offers what the keys do: a stash can be dropped, changes toggled and discarded, a
/// branch neither; filters only where there are chips.
pub proof fn law_footer_of_a_diff(path: String, name: String, index: usize)
    ensures
        footer_parts(
            DiffSource::Stash { path, index, label: name },
            DiffFocus::Files,
            false,
        ).skip(4) == seq!["d drop"@, "esc"@],
        footer_parts(DiffSource::Dirty { path, name }, DiffFocus::Files, false).skip(4) == seq![
            "t toggle"@,
            "d discard/remove"@,
            "esc"@,
        ],
        footer_parts(DiffSource::Branch { path, name }, DiffFocus::Files, false).skip(4) == seq![
            "esc"@,
        ],
        footer_parts(DiffSource::Branch { path, name }, DiffFocus::Files, true).skip(4) == seq![
            "f filter"@,
            "esc"@,
        ],
        footer_parts(DiffSource::Branch { path, name }, DiffFocus::Files, true)[3]
            == "tab → diff"@,
        footer_parts(DiffSource::Branch { path, name }, DiffFocus::Diff, true)[3]
            == "tab → files"@,
{
}

} // verus!
