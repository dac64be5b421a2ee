//! The smaller modals and notices: what they show, and where they can be clicked.

use vstd::prelude::*;
use vstd::string::*;

use crate::app::{AppState, COPY_MENU_ROWS};
use crate::dialogs::{BasePicker, ConfirmDialog};
use crate::helpview::padding;
use crate::icons::IconSet;
use crate::screen::{
    across, blank_line, cap, capped, cells_less, centered, centered_rect, colored, in_bold, inside,
    inside_of, least, less, most, no_lines, one_span, step_across, Color, Line, Lines, Rect,
    Region, SpanView, Style,
};
use crate::spans::{close_region, modal_close_button};
use crate::statusbar::{ago, format_ago};
use crate::text::{
    cat, cat3, cat4, cat5, char_count, count_text, decimal, pad_right, padded, same,
};
use crate::widths::{
    counted, cut_right, line_width, shown_width, truncate_str, width_of, width_of_line,
};

verus! {

// ---- sizes ----

fn smaller(a: u16, b: u16) -> (res: u16)
    ensures
        res == least(a as int, b as int),
{
    if a < b {
        a
    } else {
        b
    }
}

fn larger(a: u16, b: u16) -> (res: u16)
    ensures
        res == most(a as int, b as int),
{
    if a > b {
        a
    } else {
        b
    }
}

fn pad_cells(padded: bool) -> (res: u16)
    ensures
        res == padding(padded),
{
    if padded {
        2
    } else {
        0
    }
}

/// A length held between a least one and what the screen leaves, but for a margin.
pub open spec fn held(wanted: int, low: int, screen: u16, margin: int) -> int {
    least(most(wanted, low), most(less(screen as int, margin), low))
}

fn hold(wanted: u16, low: u16, screen: u16, margin: u16) -> (res: u16)
    ensures
        res == held(wanted as int, low as int, screen, margin as int),
{
    smaller(larger(wanted, low), larger(cells_less(screen, margin), low))
}

/// A length held under what the screen leaves, but for two rows; a small screen counts as one
/// of a least length.
pub open spec fn under(wanted: int, low: int, screen: u16) -> int {
    least(wanted, most(less(screen as int, 2), low))
}

fn hold_under(wanted: u16, low: u16, screen: u16) -> (res: u16)
    ensures
        res == under(wanted as int, low as int, screen),
{
    smaller(wanted, larger(cells_less(screen, 2), low))
}

/// A fixed width, less on a narrow screen, but no less than a least one.
pub open spec fn narrow(wanted: int, low: int, screen: u16) -> int {
    most(least(wanted, less(screen as int, 2)), low)
}

fn narrow_to(wanted: u16, low: u16, screen: u16) -> (res: u16)
    ensures
        res == narrow(wanted as int, low as int, screen),
{
    larger(smaller(wanted, cells_less(screen, 2)), low)
}

/// Whether a row is one of an area's.
pub open spec fn in_view(area: Rect, row: u16) -> bool {
    row < area.y + area.height
}

fn is_in_view(area: Rect, row: u16) -> (res: bool)
    ensures
        res == in_view(area, row),
{
    (row as u32) < area.y as u32 + area.height as u32
}

fn close_of(modal: Rect) -> (res: Region)
    ensures
        res == close_region(modal),
{
    match modal_close_button(modal).1 {
        Some(region) => region,
        None => (0, 0, 0),
    }
}

/// A hint at the foot of a modal.
pub open spec fn hint(text: Seq<char>) -> Seq<SpanView> {
    one_span(text, colored(Color::DarkGray))
}

fn push_hint(lines: &mut Lines, text: &str)
    ensures
        final(lines)@ == old(lines)@.push(blank_line()).push(hint(text@)),
{
    lines.push(Line::new());
    lines.push(Line::of(text, Style::color(Color::DarkGray)));
}

/// The width of the widest of the first `n` lines.
pub open spec fn width_upto(lines: Seq<Seq<SpanView>>, n: nat) -> usize
    decreases n,
{
    if n == 0 || n > lines.len() {
        0
    } else {
        let before = width_upto(lines, (n - 1) as nat);
        let width = counted(line_width(lines[n - 1]));
        if width > before {
            width
        } else {
            before
        }
    }
}

fn width_of_lines(lines: &Lines) -> (res: usize)
    ensures
        res == width_upto(lines@, lines@.len()),
{
    let mut widest: usize = 0;
    let mut i: usize = 0;
    while i < lines.lines.len()
        invariant
            i <= lines@.len(),
            widest == width_upto(lines@, i as nat),
        decreases lines@.len() - i,
    {
        assert(lines@[i as int] == lines.lines@[i as int]@);
        let width: usize = width_of_line(&lines.lines[i]);
        if width > widest {
            widest = width;
        }
        i += 1;
    }
    widest
}

// ---- build info ----

/// A field of the build info.
pub open spec fn build_field(name: Seq<char>, text: Seq<char>) -> Seq<SpanView> {
    one_span(padded(name, 9), in_bold(colored(Color::White))).push((text, colored(Color::Gray)))
}

/// Whether a newer build is waiting.
pub open spec fn build_status(app: AppState) -> SpanView {
    if app.notices.update_available && !app.notices.update_dismissed {
        ("● A new build is available — click [reload] to restart."@, colored(Color::Yellow))
    } else if app.notices.update_dismissed {
        (
            "○ A new build was dismissed; it re-arms if the file changes."@,
            colored(Color::DarkGray),
        )
    } else {
        ("✓ Running the latest build on disk."@, colored(Color::Green))
    }
}

/// The age of the build.
pub open spec fn build_age(built: Option<u64>) -> Seq<char> {
    match built {
        Some(seconds) => ago(seconds),
        None => "unknown"@,
    }
}

/// The lines of the build info.
pub open spec fn build_lines(
    app: AppState,
    version: Seq<char>,
    built: Option<u64>,
    path: Seq<char>,
) -> Seq<Seq<SpanView>> {
    let facts = no_lines().push(build_field("Version"@, "v"@ + version)).push(
        build_field("Built"@, build_age(built)),
    ).push(build_field("Path"@, path)).push(blank_line());
    let watch = facts.push(
        one_span("Watching this file for new builds"@, in_bold(colored(Color::White))),
    ).push(
        hint("pull-all polls this executable's size + mtime every few seconds. When a newer"@),
    ).push(
        hint("build lands at the same path (e.g. make install's atomic rename), a ↺ [reload]"@),
    ).push(hint("notice appears top-right on every screen."@));
    watch.push(blank_line()).push(Seq::empty().push(build_status(app)))
}

fn push_field(lines: &mut Lines, name: &str, text: &str)
    ensures
        final(lines)@ == old(lines)@.push(build_field(name@, text@)),
{
    let mut line = Line::of(
        pad_right(name, 9).as_str(),
        Style::color(Color::White).with_bold(),
    );
    line.push(text, Style::color(Color::Gray));
    lines.push(line);
}

fn push_dim(lines: &mut Lines, text: &str)
    ensures
        final(lines)@ == old(lines)@.push(hint(text@)),
{
    lines.push(Line::of(text, Style::color(Color::DarkGray)));
}

fn build_info_lines(app: &AppState, version: &str, built: Option<u64>, path: &str) -> (res: Lines)
    ensures
        res@ == build_lines(*app, version@, built, path@),
{
    let age = match built {
        Some(seconds) => format_ago(seconds),
        None => "unknown".to_owned(),
    };
    let mut lines = Lines::new();
    push_field(&mut lines, "Version", cat("v", version).as_str());
    push_field(&mut lines, "Built", age.as_str());
    push_field(&mut lines, "Path", path);
    lines.push(Line::new());
    lines.push(
        Line::of("Watching this file for new builds", Style::color(Color::White).with_bold()),
    );
    push_dim(
        &mut lines,
        "pull-all polls this executable's size + mtime every few seconds. When a newer",
    );
    push_dim(
        &mut lines,
        "build lands at the same path (e.g. make install's atomic rename), a ↺ [reload]",
    );
    push_dim(&mut lines, "notice appears top-right on every screen.");
    lines.push(Line::new());
    let mut status = Line::new();
    if app.notices.update_available && !app.notices.update_dismissed {
        status.push(
            "● A new build is available — click [reload] to restart.",
            Style::color(Color::Yellow),
        );
    } else if app.notices.update_dismissed {
        status.push(
            "○ A new build was dismissed; it re-arms if the file changes.",
            Style::color(Color::DarkGray),
        );
    } else {
        status.push("✓ Running the latest build on disk.", Style::color(Color::Green));
    }
    lines.push(status);
    lines
}

/// The build-info modal on the screen.
#[derive(Debug)]
pub struct BuildInfo {
    pub area: Rect,
    pub inner: Rect,
    pub close: Region,
    pub restart: Region,
    pub lines: Lines,
}

/// The modal: as wide as its lines, and two rows higher, for a path that wraps.
pub open spec fn build_area(lines: Seq<Seq<SpanView>>, padded: bool, area: Rect) -> Rect {
    let pad = padding(padded);
    centered(
        held(
            across(capped(width_upto(lines, lines.len()) as int), 4 + pad) as int,
            40,
            area.width,
            4,
        ) as u16,
        under(across(capped(lines.len() as int), 4 + pad) as int, 8, area.height) as u16,
        area,
    )
}

/// Where the restart button stands on the bottom border.
pub open spec fn restart_region(modal: Rect) -> Region {
    let start = across(modal.x, 1);
    (
        across(modal.y, less(modal.height as int, 1)),
        start,
        across(start, (shown_width(" [restart] "@) as u16) as int),
    )
}

/// What the build-info modal shows.
pub open spec fn is_build_info(
    app: AppState,
    version: Seq<char>,
    built: Option<u64>,
    path: Seq<char>,
    area: Rect,
    modal: BuildInfo,
) -> bool {
    let lines = build_lines(app, version, built, path);
    let at = build_area(lines, app.prefs.panel_padding, area);
    &&& modal.area == at
    &&& modal.inner == inside(at, app.prefs.panel_padding)
    &&& modal.close == close_region(at)
    &&& modal.restart == restart_region(at)
    &&& modal.lines@ == lines
}

/// The build-info modal: the running version, the watched executable path, when it was built,
/// and how new-build watching works.
pub fn build_info(app: &AppState, version: &str, built: Option<u64>, path: &str, area: Rect) -> (res:
    BuildInfo)
    ensures
        is_build_info(*app, version@, built, path@, area, res),
{
    let padded = app.prefs.panel_padding;
    let pad: u16 = pad_cells(padded);
    let lines = build_info_lines(app, version, built, path);
    let wide: u16 = hold(step_across(cap(width_of_lines(&lines)), 4 + pad), 40, area.width, 4);
    let high: u16 = hold_under(step_across(cap(lines.len()), 4 + pad), 8, area.height);
    let at = centered_rect(wide, high, area);
    let start: u16 = step_across(at.x, 1);
    let restart: Region = (
        step_across(at.y, cells_less(at.height, 1)),
        start,
        step_across(start, width_of(" [restart] ") as u16),
    );
    BuildInfo { area: at, inner: inside_of(at, padded), close: close_of(at), restart, lines }
}

// ---- the confirmation ----

/// How many files a section of the dialog lists.
pub const LISTED_FILES: usize = 10;

/// Lines with those of the first `n` files after them.
pub open spec fn with_files(
    lines: Seq<Seq<SpanView>>,
    files: Seq<Seq<char>>,
    color: Color,
    n: nat,
) -> Seq<Seq<SpanView>>
    decreases n,
{
    if n == 0 || n > files.len() {
        lines
    } else {
        with_files(lines, files, color, (n - 1) as nat).push(
            one_span("    "@ + files[n - 1], colored(color)),
        )
    }
}

/// Lines with a section of files after them: how many there are, and the first ten.
pub open spec fn with_file_section(
    lines: Seq<Seq<SpanView>>,
    files: Seq<Seq<char>>,
    label: Seq<char>,
    color: Color,
) -> Seq<Seq<SpanView>> {
    if files.len() == 0 {
        lines
    } else {
        let head = lines.push(
            one_span(
                "  "@ + label + " ("@ + decimal(files.len()) + "):"@,
                in_bold(colored(color)),
            ),
        );
        let shown = with_files(
            head,
            files,
            color,
            least(files.len() as int, LISTED_FILES as int) as nat,
        );
        if files.len() > LISTED_FILES {
            shown.push(
                hint("    … and "@ + decimal((files.len() - LISTED_FILES) as nat) + " more"@),
            )
        } else {
            shown
        }
    }
}

fn push_file_section(lines: &mut Lines, files: &Vec<String>, label: &str, color: Color)
    ensures
        final(lines)@ == with_file_section(old(lines)@, files.deep_view(), label@, color),
{
    assert(files@.len() == files.deep_view().len());
    if files.len() == 0 {
        return;
    }
    let head = cat5("  ", label, " (", count_text(files.len()).as_str(), "):");
    lines.push(Line::of(head.as_str(), Style::color(color).with_bold()));
    let ghost before = lines@;
    let shown: usize = if files.len() < LISTED_FILES {
        files.len()
    } else {
        LISTED_FILES
    };
    let mut i: usize = 0;
    while i < shown
        invariant
            i <= shown <= files@.len(),
            lines@ == with_files(before, files.deep_view(), color, i as nat),
        decreases shown - i,
    {
        assert(files.deep_view()[i as int] == files@[i as int]@);
        lines.push(Line::of(cat("    ", files[i].as_str()).as_str(), Style::color(color)));
        i += 1;
    }
    if files.len() > LISTED_FILES {
        let more = count_text(files.len() - LISTED_FILES);
        push_dim(lines, cat3("    … and ", more.as_str(), " more").as_str());
    }
}

/// The files that the dialog lists.
pub open spec fn file_details(confirm: ConfirmDialog) -> Seq<Seq<SpanView>> {
    with_file_section(
        with_file_section(
            no_lines(),
            confirm.restore_files.deep_view(),
            "Restore"@,
            Color::Yellow,
        ),
        confirm.delete_files.deep_view(),
        "Delete"@,
        Color::Red,
    )
}

/// The dialog lists files.
pub open spec fn lists_files(confirm: ConfirmDialog) -> bool {
    confirm.restore_files@.len() > 0 || confirm.delete_files@.len() > 0
}

/// The dialog's lines above its prompt.
pub open spec fn confirm_head(confirm: ConfirmDialog, icons: IconSet) -> Seq<Seq<SpanView>> {
    let message = no_lines().push(blank_line()).push(
        one_span("  "@ + confirm.message@, colored(Color::Gray)),
    );
    let files = if lists_files(confirm) {
        message.push(blank_line()) + file_details(confirm)
    } else {
        message
    };
    let danger = if confirm.danger {
        files.push(blank_line()).push(
            one_span(
                "  "@ + icons.warning@ + " This cannot be undone."@,
                in_bold(colored(Color::Red)),
            ),
        )
    } else {
        files
    };
    danger.push(blank_line())
}

/// The dialog's lines.
pub open spec fn confirm_lines(confirm: ConfirmDialog, icons: IconSet) -> Seq<Seq<SpanView>> {
    confirm_head(confirm, icons).push(hint("  [y/enter] yes     [n] no"@))
}

fn head_of_confirm(confirm: &ConfirmDialog, details: Lines, icons: &IconSet) -> (res: Lines)
    requires
        details@ == file_details(*confirm),
    ensures
        res@ == confirm_head(*confirm, *icons),
{
    let mut lines = Lines::new();
    lines.push(Line::new());
    lines.push(Line::of(cat("  ", confirm.message.as_str()).as_str(), Style::color(Color::Gray)));
    if confirm.restore_files.len() > 0 || confirm.delete_files.len() > 0 {
        lines.push(Line::new());
        lines.extend(details);
    }
    if confirm.danger {
        lines.push(Line::new());
        lines.push(
            Line::of(
                cat3("  ", icons.warning, " This cannot be undone.").as_str(),
                Style::color(Color::Red).with_bold(),
            ),
        );
    }
    lines.push(Line::new());
    lines
}

/// The length of the longest of the first `n` texts.
pub open spec fn longest_text(texts: Seq<Seq<char>>, n: nat) -> nat
    decreases n,
{
    if n == 0 || n > texts.len() {
        0
    } else {
        let before = longest_text(texts, (n - 1) as nat);
        if texts[n - 1].len() > before {
            texts[n - 1].len()
        } else {
            before
        }
    }
}

fn longest_of(texts: &Vec<String>) -> (res: usize)
    ensures
        res == longest_text(texts.deep_view(), texts.deep_view().len()),
{
    assert(texts@.len() == texts.deep_view().len());
    let mut longest: usize = 0;
    let mut i: usize = 0;
    while i < texts.len()
        invariant
            i <= texts@.len(),
            texts@.len() == texts.deep_view().len(),
            longest == longest_text(texts.deep_view(), i as nat),
        decreases texts@.len() - i,
    {
        assert(texts.deep_view()[i as int] == texts@[i as int]@);
        let chars: usize = char_count(texts[i].as_str());
        if chars > longest {
            longest = chars;
        }
        i += 1;
    }
    longest
}

/// The width that the files ask for.
pub open spec fn files_width(confirm: ConfirmDialog) -> int {
    if lists_files(confirm) {
        across(
            capped(
                most(
                    longest_text(
                        confirm.restore_files.deep_view(),
                        confirm.restore_files.deep_view().len(),
                    ) as int,
                    longest_text(
                        confirm.delete_files.deep_view(),
                        confirm.delete_files.deep_view().len(),
                    ) as int,
                ),
            ),
            4,
        ) as int
    } else {
        0
    }
}

fn width_for_files(confirm: &ConfirmDialog) -> (res: u16)
    ensures
        res == files_width(*confirm),
{
    if confirm.restore_files.len() > 0 || confirm.delete_files.len() > 0 {
        let restored: usize = longest_of(&confirm.restore_files);
        let deleted: usize = longest_of(&confirm.delete_files);
        let longest: usize = if restored > deleted {
            restored
        } else {
            deleted
        };
        step_across(cap(longest), 4)
    } else {
        0
    }
}

/// The dialog's area: wide enough for its message and its files, high enough for its lines.
pub open spec fn confirm_area(confirm: ConfirmDialog, padded: bool, area: Rect) -> Rect {
    let pad = padding(padded);
    let wide = across(
        most(across(capped(confirm.message@.len() as int), 8) as int, files_width(confirm)) as u16,
        pad,
    );
    let base: int = if confirm.danger {
        8
    } else {
        6
    };
    let files = if lists_files(confirm) {
        across(capped(file_details(confirm).len() as int), base + 1) as int
    } else {
        base
    };
    centered(
        held(wide as int, 30, area.width, 4) as u16,
        under(across(files as u16, pad) as int, 6, area.height) as u16,
        area,
    )
}

fn area_of_confirm(confirm: &ConfirmDialog, details: usize, padded: bool, area: Rect) -> (res: Rect)
    requires
        details == file_details(*confirm).len(),
    ensures
        res == confirm_area(*confirm, padded, area),
{
    let pad: u16 = pad_cells(padded);
    let message: u16 = step_across(cap(char_count(confirm.message.as_str())), 8);
    let wide: u16 = step_across(larger(message, width_for_files(confirm)), pad);
    let base: u16 = if confirm.danger {
        8
    } else {
        6
    };
    let high: u16 = if confirm.restore_files.len() > 0 || confirm.delete_files.len() > 0 {
        step_across(cap(details), base + 1)
    } else {
        base
    };
    centered_rect(
        hold(wide, 30, area.width, 4),
        hold_under(step_across(high, pad), 6, area.height),
        area,
    )
}

/// The confirmation dialog on the screen.
#[derive(Debug)]
pub struct ConfirmView {
    pub area: Rect,
    pub inner: Rect,
    pub title: String,
    pub border: Color,
    pub close: Region,
    pub yes: Option<Region>,
    pub no: Option<Region>,
    pub lines: Lines,
}

/// The border and the title of the dialog.
pub open spec fn confirm_title(confirm: ConfirmDialog, icons: IconSet) -> (Color, Seq<char>) {
    if confirm.danger {
        (Color::Red, " "@ + icons.warning@ + " Confirm — destructive "@)
    } else {
        (Color::Yellow, " Confirm "@)
    }
}

/// What the confirmation dialog shows: both halves of the prompt can be clicked while it is
/// inside the dialog.
pub open spec fn is_confirm(
    confirm: ConfirmDialog,
    padded: bool,
    area: Rect,
    icons: IconSet,
    view: ConfirmView,
) -> bool {
    let at = confirm_area(confirm, padded, area);
    let inner = inside(at, padded);
    let prompt = across(inner.y, capped(confirm_head(confirm, icons).len() as int) as int);
    let yes = across(inner.x, 2);
    let no = across(yes, 18);
    &&& view.area == at
    &&& view.inner == inner
    &&& (view.border, view.title@) == confirm_title(confirm, icons)
    &&& view.close == close_region(at)
    &&& view.lines@ == confirm_lines(confirm, icons)
    &&& if in_view(inner, prompt) {
        &&& view.yes == Some((prompt, yes, across(yes, 13)))
        &&& view.no == Some((prompt, no, across(no, 6)))
    } else {
        view.yes is None && view.no is None
    }
}

/// The yes/no confirmation dialog.
pub fn confirm_view(confirm: &ConfirmDialog, padded: bool, area: Rect, icons: &IconSet) -> (res:
    ConfirmView)
    ensures
        is_confirm(*confirm, padded, area, *icons, res),
{
    let mut details = Lines::new();
    push_file_section(&mut details, &confirm.restore_files, "Restore", Color::Yellow);
    push_file_section(&mut details, &confirm.delete_files, "Delete", Color::Red);
    let at = area_of_confirm(confirm, details.len(), padded, area);
    let inner = inside_of(at, padded);
    let (border, title) = if confirm.danger {
        (Color::Red, cat3(" ", icons.warning, " Confirm — destructive "))
    } else {
        (Color::Yellow, " Confirm ".to_owned())
    };
    let mut lines = head_of_confirm(confirm, details, icons);
    let prompt: u16 = step_across(inner.y, cap(lines.len()));
    let (yes, no): (Option<Region>, Option<Region>) = if is_in_view(inner, prompt) {
        let yes: u16 = step_across(inner.x, 2);
        let no: u16 = step_across(yes, 18);
        (Some((prompt, yes, step_across(yes, 13))), Some((prompt, no, step_across(no, 6))))
    } else {
        (None, None)
    };
    push_dim(&mut lines, "  [y/enter] yes     [n] no");
    ConfirmView { area: at, inner, title, border, close: close_of(at), yes, no, lines }
}

// ---- the copy menu ----

/// What the copy menu offers.
pub open spec fn copy_option(k: int) -> Seq<char> {
    if k == 0 {
        "absolute path"@
    } else if k == 1 {
        "branch name"@
    } else {
        "both (path + branch)"@
    }
}

fn copy_label(k: usize) -> (res: &'static str)
    ensures
        res@ == copy_option(k as int),
{
    if k == 0 {
        "absolute path"
    } else if k == 1 {
        "branch name"
    } else {
        "both (path + branch)"
    }
}

/// A row of a menu; the selected one is marked.
pub open spec fn menu_row(text: Seq<char>, selected: bool) -> Seq<SpanView> {
    if selected {
        one_span("  > "@ + text, in_bold(colored(Color::Cyan)))
    } else {
        one_span("    "@ + text, colored(Color::Gray))
    }
}

/// A menu on the screen.
#[derive(Debug)]
pub struct Menu {
    pub area: Rect,
    pub inner: Rect,
    pub title: String,
    pub close: Region,
    /// The rows that can be clicked, with what they offer.
    pub rows: Vec<(u16, usize)>,
    pub lines: Lines,
}

/// The lines and the clickable rows of a menu so far.
pub type MenuSoFar = (Seq<Seq<SpanView>>, Seq<(u16, usize)>);

/// The copy menu up to its first `n` rows.
pub open spec fn copy_upto(selected: usize, padded: bool, inner: Rect, n: nat) -> MenuSoFar
    decreases n,
{
    if n == 0 {
        (
            if padded {
                no_lines()
            } else {
                no_lines().push(blank_line())
            },
            Seq::empty(),
        )
    } else {
        let (lines, rows) = copy_upto(selected, padded, inner, (n - 1) as nat);
        let y = across(inner.y, capped(lines.len() as int) as int);
        (
            lines.push(menu_row(copy_option(n - 1), n - 1 == selected)),
            if in_view(inner, y) {
                rows.push((y, (n - 1) as usize))
            } else {
                rows
            },
        )
    }
}

/// The area of the copy menu.
pub open spec fn copy_area(padded: bool, area: Rect) -> Rect {
    let pad = padding(padded);
    let top: int = if padded {
        0
    } else {
        1
    };
    centered(
        across(narrow(38, 24, area.width) as u16, pad),
        under(top + 7 + pad, 6, area.height) as u16,
        area,
    )
}

/// What the copy menu shows.
pub open spec fn is_copy_menu(selected: usize, padded: bool, area: Rect, menu: Menu) -> bool {
    let at = copy_area(padded, area);
    let inner = inside(at, padded);
    let (lines, rows) = copy_upto(selected, padded, inner, COPY_MENU_ROWS as nat);
    &&& menu.area == at
    &&& menu.inner == inner
    &&& menu.title@ == " Copy "@
    &&& menu.close == close_region(at)
    &&& menu.rows@ == rows
    &&& menu.lines@ == lines.push(blank_line()).push(
        hint("  ↑↓ move · enter/click copy · esc close"@),
    )
}

/// The repo-page copy menu: pick what to copy — path, branch, or both.
pub fn copy_menu(selected: usize, padded: bool, area: Rect) -> (res: Menu)
    ensures
        is_copy_menu(selected, padded, area, res),
{
    let pad: u16 = pad_cells(padded);
    let top: u16 = if padded {
        0
    } else {
        1
    };
    let at = centered_rect(
        step_across(narrow_to(38, 24, area.width), pad),
        hold_under(top + 7 + pad, 6, area.height),
        area,
    );
    let inner = inside_of(at, padded);
    let mut lines = Lines::new();
    if !padded {
        lines.push(Line::new());
    }
    let mut rows: Vec<(u16, usize)> = Vec::new();
    let mut k: usize = 0;
    while k < COPY_MENU_ROWS
        invariant
            k <= COPY_MENU_ROWS,
            (lines@, rows@) == copy_upto(selected, padded, inner, k as nat),
        decreases COPY_MENU_ROWS - k,
    {
        let y: u16 = step_across(inner.y, cap(lines.len()));
        if is_in_view(inner, y) {
            rows.push((y, k));
        }
        let line = if k == selected {
            Line::of(cat("  > ", copy_label(k)).as_str(), Style::color(Color::Cyan).with_bold())
        } else {
            Line::of(cat("    ", copy_label(k)).as_str(), Style::color(Color::Gray))
        };
        lines.push(line);
        k += 1;
    }
    push_hint(&mut lines, "  ↑↓ move · enter/click copy · esc close");
    Menu { area: at, inner, title: " Copy ".to_owned(), close: close_of(at), rows, lines }
}

// ---- the base picker ----

/// What a row of the picker says: row 0 leaves the base to be found, the others name a branch.
pub open spec fn pick_text(picker: BasePicker, row: int) -> Seq<char> {
    if row == 0 {
        match picker.detected {
            Some(detected) => "auto-detect ("@ + detected@ + ")"@,
            None => "auto-detect"@,
        }
    } else {
        let candidate = picker.candidates@[row - 1]@;
        if picker.detected matches Some(detected) && detected@ == candidate {
            candidate + "  (detected)"@
        } else {
            candidate
        }
    }
}

/// A row of the picker is the choice in force.
pub open spec fn is_picked(picker: BasePicker, row: int) -> bool {
    if row == 0 {
        picker.current is None
    } else {
        picker.current matches Some(current) && current@ == picker.candidates@[row - 1]@
    }
}

/// The line of a row of the picker.
pub open spec fn pick_line(picker: BasePicker, row: int) -> Seq<SpanView> {
    let cursor = if row == picker.selected {
        "> "@
    } else {
        "  "@
    };
    let check = if is_picked(picker, row) {
        "✓ "@
    } else {
        "  "@
    };
    one_span(
        "  "@ + cursor + check + cut_right(pick_text(picker, row), 44),
        if row == picker.selected {
            in_bold(colored(Color::Magenta))
        } else if is_picked(picker, row) {
            colored(Color::White)
        } else {
            colored(Color::Gray)
        },
    )
}

fn names(text: &Option<String>, other: &str) -> (res: bool)
    ensures
        res == (text matches Some(text) && text@ == other@),
{
    match text {
        Some(text) => same(text.as_str(), other),
        None => false,
    }
}

fn line_of_pick(picker: &BasePicker, row: usize) -> (res: Line)
    requires
        row <= picker.candidates@.len(),
    ensures
        res@ == pick_line(*picker, row as int),
{
    let (text, picked) = if row == 0 {
        let text = match &picker.detected {
            Some(detected) => cat3("auto-detect (", detected.as_str(), ")"),
            None => "auto-detect".to_owned(),
        };
        (text, picker.current.is_none())
    } else {
        let candidate = picker.candidates[row - 1].as_str();
        let text = if names(&picker.detected, candidate) {
            cat(candidate, "  (detected)")
        } else {
            candidate.to_owned()
        };
        (text, names(&picker.current, candidate))
    };
    let cursor = if row == picker.selected {
        "> "
    } else {
        "  "
    };
    let check = if picked {
        "✓ "
    } else {
        "  "
    };
    let style = if row == picker.selected {
        Style::color(Color::Magenta).with_bold()
    } else if picked {
        Style::color(Color::White)
    } else {
        Style::color(Color::Gray)
    };
    Line::of(
        cat4("  ", cursor, check, truncate_str(text.as_str(), 44).as_str()).as_str(),
        style,
    )
}

/// The picker's lines from a row on, up to the first `n`.
pub open spec fn picker_upto(picker: BasePicker, inner: Rect, start: int, n: nat) -> MenuSoFar
    decreases n,
{
    if n == 0 {
        (no_lines(), Seq::empty())
    } else {
        let (lines, rows) = picker_upto(picker, inner, start, (n - 1) as nat);
        let y = across(inner.y, capped(lines.len() as int) as int);
        (
            lines.push(pick_line(picker, start + n - 1)),
            if in_view(inner, y) {
                rows.push((y, (start + n - 1) as usize))
            } else {
                rows
            },
        )
    }
}

/// The area of the picker.
pub open spec fn picker_area(padded: bool, area: Rect) -> Rect {
    let pad = padding(padded);
    centered(
        across(narrow(56, 32, area.width) as u16, pad),
        under(16 + pad, 8, area.height) as u16,
        area,
    )
}

/// The first row shown: the list is scrolled so far that the selected row is the last one.
pub open spec fn picker_start(selected: usize, height: int) -> int {
    if selected >= height {
        selected - height + 1
    } else {
        0
    }
}

/// What the base picker shows.
pub open spec fn is_base_picker(picker: BasePicker, padded: bool, area: Rect, menu: Menu) -> bool {
    let at = picker_area(padded, area);
    let inner = inside(at, padded);
    let height = less(inner.height as int, 2);
    let start = picker_start(picker.selected, height);
    let count = most(least(height, picker.candidates@.len() + 1 - start), 0) as nat;
    let (lines, rows) = picker_upto(picker, inner, start, count);
    &&& menu.area == at
    &&& menu.inner == inner
    &&& menu.title@ == " base for "@ + cut_right(picker.branch@, 30) + " "@
    &&& menu.close == close_region(at)
    &&& menu.rows@ == rows
    &&& menu.lines@ == lines.push(blank_line()).push(
        hint("  ↑↓ move · enter/click set · esc close"@),
    )
}

/// The base-branch picker: row 0 is "auto-detect" (clears any override), then every candidate
/// branch. The current override is checked; the detected fork parent is tagged. It scrolls to
/// keep the highlighted row in view.
pub fn base_picker(picker: &BasePicker, padded: bool, area: Rect) -> (res: Menu)
    requires
        picker.candidates@.len() < usize::MAX,
    ensures
        is_base_picker(*picker, padded, area, res),
{
    let pad: u16 = pad_cells(padded);
    let at = centered_rect(
        step_across(narrow_to(56, 32, area.width), pad),
        hold_under(16 + pad, 8, area.height),
        area,
    );
    let inner = inside_of(at, padded);
    let height: usize = cells_less(inner.height, 2) as usize;
    let total: usize = picker.candidates.len() + 1;
    let mut lines = Lines::new();
    let mut rows: Vec<(u16, usize)> = Vec::new();
    let ghost start = picker_start(picker.selected, height as int);
    let ghost count = most(least(height as int, total - start), 0) as nat;
    // With no rows there is nothing to show, whatever is selected.
    if height > 0 {
        let first: usize = if picker.selected >= height {
            picker.selected - height + 1
        } else {
            0
        };
        let left: usize = if first < total {
            total - first
        } else {
            0
        };
        let shown: usize = if left < height {
            left
        } else {
            height
        };
        let mut i: usize = 0;
        while i < shown
            invariant
                i <= shown,
                first == start,
                first + shown <= total || shown == 0,
                total == picker.candidates@.len() + 1,
                (lines@, rows@) == picker_upto(*picker, inner, start, i as nat),
            decreases shown - i,
        {
            let y: u16 = step_across(inner.y, cap(lines.len()));
            if is_in_view(inner, y) {
                rows.push((y, first + i));
            }
            lines.push(line_of_pick(picker, first + i));
            i += 1;
        }
        assert(shown == count);
    }
    push_hint(&mut lines, "  ↑↓ move · enter/click set · esc close");
    let branch = truncate_str(picker.branch.as_str(), 30);
    Menu {
        area: at,
        inner,
        title: cat3(" base for ", branch.as_str(), " "),
        close: close_of(at),
        rows,
        lines,
    }
}

// ---- what the dialogs say ----

proof fn lemma_files(lines: Seq<Seq<SpanView>>, files: Seq<Seq<char>>, color: Color, n: nat)
    requires
        n <= files.len(),
    ensures
        with_files(lines, files, color, n) =~= lines + files.take(n as int).map_values(
            |file: Seq<char>| one_span("    "@ + file, colored(color)),
        ),
    decreases n,
{
    if n > 0 {
        lemma_files(lines, files, color, (n - 1) as nat);
        assert(files.take(n as int) =~= files.take(n - 1).push(files[n - 1]));
    } else {
        assert(files.take(0) =~= Seq::empty());
    }
}

/// A list of files in a dialog says how many there are, shows the first ten in their order, and
/// how many more there are.
pub proof fn law_listed_files_of_a_dialog(files: Seq<Seq<char>>, label: Seq<char>, color: Color)
    ensures
        files.len() == 0 ==> with_file_section(no_lines(), files, label, color) == no_lines(),
        files.len() > 0 ==> with_file_section(no_lines(), files, label, color)[0] == one_span(
            "  "@ + label + " ("@ + decimal(files.len()) + "):"@,
            in_bold(colored(color)),
        ),
        0 < files.len() <= 10 ==> with_file_section(no_lines(), files, label, color).skip(1)
            == files.map_values(|file: Seq<char>| one_span("    "@ + file, colored(color))),
        files.len() > 10 ==> with_file_section(no_lines(), files, label, color).len() == 12
            && with_file_section(no_lines(), files, label, color)[11] == hint(
            "    … and "@ + decimal((files.len() - 10) as nat) + " more"@,
        ),
{
    let head = no_lines().push(
        one_span("  "@ + label + " ("@ + decimal(files.len()) + "):"@, in_bold(colored(color))),
    );
    if files.len() <= 10 {
        lemma_files(head, files, color, files.len());
        assert(files.take(files.len() as int) =~= files);
        if files.len() > 0 {
            assert(with_file_section(no_lines(), files, label, color).skip(1) =~= files.map_values(
                |file: Seq<char>| one_span("    "@ + file, colored(color)),
            ));
        }
    } else {
        lemma_files(head, files, color, 10);
    }
}

/// What a discard restores is listed under that word and first, and what it deletes under its own
/// and in red.
pub proof fn law_restore_before_delete(confirm: ConfirmDialog)
    ensures
        ({
            let restore = confirm.restore_files.deep_view();
            let delete = confirm.delete_files.deep_view();
            let details = file_details(confirm);
            &&& restore.len() > 0 ==> details[0] == one_span(
                "  Restore ("@ + decimal(restore.len()) + "):"@,
                in_bold(colored(Color::Yellow)),
            )
            &&& restore.len() == 0 && delete.len() > 0 ==> details[0] == one_span(
                "  Delete ("@ + decimal(delete.len()) + "):"@,
                in_bold(colored(Color::Red)),
            )
            &&& 0 < restore.len() <= 10 && delete.len() > 0 ==> details[restore.len() as int + 1] == one_span(
                "  Delete ("@ + decimal(delete.len()) + "):"@,
                in_bold(colored(Color::Red)),
            )
        }),
        lists_files(confirm) <==> confirm.restore_files@.len() + confirm.delete_files@.len() > 0,
{
    reveal_strlit("  ");
    reveal_strlit("Restore");
    reveal_strlit("Delete");
    reveal_strlit(" (");
    reveal_strlit("  Restore (");
    reveal_strlit("  Delete (");
    assert("  "@ + "Restore"@ + " ("@ =~= "  Restore ("@);
    assert("  "@ + "Delete"@ + " ("@ =~= "  Delete ("@);
    let restore = confirm.restore_files.deep_view();
    let delete = confirm.delete_files.deep_view();
    let first = with_file_section(no_lines(), restore, "Restore"@, Color::Yellow);
    law_listed_files_of_a_dialog(restore, "Restore"@, Color::Yellow);
    lemma_section_starts(first, delete, "Delete"@, Color::Red);
    if 0 < restore.len() <= 10 {
        assert(first.skip(1).len() == restore.len());
    }
}

proof fn lemma_section_starts(
    lines: Seq<Seq<SpanView>>,
    files: Seq<Seq<char>>,
    label: Seq<char>,
    color: Color,
)
    ensures
        ({
            let all = with_file_section(lines, files, label, color);
            &&& all.len() >= lines.len()
            &&& all.take(lines.len() as int) == lines
            &&& forall|i: int| 0 <= i < lines.len() ==> all[i] == #[trigger] lines[i]
            &&& files.len() > 0 ==> all.len() > lines.len() && all[lines.len() as int] == one_span(
                "  "@ + label + " ("@ + decimal(files.len()) + "):"@,
                in_bold(colored(color)),
            )
        }),
{
    let head = lines.push(
        one_span("  "@ + label + " ("@ + decimal(files.len()) + "):"@, in_bold(colored(color))),
    );
    let n = least(files.len() as int, LISTED_FILES as int) as nat;
    lemma_files(head, files, color, n);
    let all = with_file_section(lines, files, label, color);
    assert(all.take(lines.len() as int) =~= lines);
}

/// A dangerous dialog says so in its title and its text, and a harmless one in neither.
pub proof fn law_danger_is_shown(confirm: ConfirmDialog, icons: IconSet)
    ensures
        confirm.danger ==> confirm_title(confirm, icons) == (
            Color::Red,
            " "@ + icons.warning@ + " Confirm — destructive "@,
        ),
        !confirm.danger ==> confirm_title(confirm, icons) == (Color::Yellow, " Confirm "@),
        confirm_lines(confirm, icons)[1] == one_span(
            "  "@ + confirm.message@,
            colored(Color::Gray),
        ),
        confirm.danger ==> confirm_head(confirm, icons)[confirm_head(confirm, icons).len() - 2]
            == one_span(
            "  "@ + icons.warning@ + " This cannot be undone."@,
            in_bold(colored(Color::Red)),
        ),
        !confirm.danger && !lists_files(confirm) ==> confirm_head(confirm, icons).len() == 3,
        confirm_lines(confirm, icons).last() == hint("  [y/enter] yes     [n] no"@),
{
}

/// What the entries of the copy menu are called.
pub proof fn law_copy_entries()
    ensures
        copy_option(0) == "absolute path"@,
        copy_option(1) == "branch name"@,
        copy_option(2) == "both (path + branch)"@,
{
}

/// The base that is in force is the one that is ticked: the first row where none was picked by
/// hand, and else the one that was.
pub proof fn law_base_in_force_is_ticked(picker: BasePicker, row: int)
    requires
        0 < row <= picker.candidates@.len(),
    ensures
        is_picked(picker, 0) <==> picker.current is None,
        is_picked(picker, row) <==> picker.current is Some && picker.current->0@
            == picker.candidates@[row - 1]@,
        picker.detected is None ==> pick_text(picker, 0) == "auto-detect"@ && pick_text(picker, row)
            == picker.candidates@[row - 1]@,
        picker.detected is Some ==> pick_text(picker, 0) == "auto-detect ("@ + picker.detected->0@
            + ")"@,
        picker.detected is Some && picker.detected->0@ == picker.candidates@[row - 1]@
            ==> pick_text(picker, row) == picker.candidates@[row - 1]@ + "  (detected)"@,
        picker.detected is Some && picker.detected->0@ != picker.candidates@[row - 1]@
            ==> pick_text(picker, row) == picker.candidates@[row - 1]@,
{
}

/// The build box says whether a newer build waits, was put off, or is not there.
pub proof fn law_state_of_the_build(app: AppState)
    ensures
        app.notices.update_available && !app.notices.update_dismissed ==> build_status(app)
            == ("● A new build is available — click [reload] to restart."@, colored(Color::Yellow)),
        app.notices.update_dismissed ==> build_status(app).0
            == "○ A new build was dismissed; it re-arms if the file changes."@,
        !app.notices.update_available && !app.notices.update_dismissed ==> build_status(app)
            == ("✓ Running the latest build on disk."@, colored(Color::Green)),
        build_age(None) == "unknown"@,
{
}

} // verus!
