//! The help modal on the screen.

use vstd::prelude::*;
use vstd::string::*;

use crate::app::AppState;
use crate::help::{
    about_items, cli_items, help_item, help_items_about, help_items_cli, help_items_hotkeys,
    help_items_legend, hotkey_items, legend_items, HelpItemView, HelpItems, HelpView,
};
use crate::options::{HelpTab, ScrollHit, ScrollKind};
use crate::screen::{
    across, blank_line, cap, capped, cells_less, centered, centered_rect, colored, in_bold, inside,
    inside_of, least, less, most, no_lines, plain_style, step_across, Color, Line, Lines, Rect,
    Region, SpanView, Style,
};
use crate::spans::{scrollbar_track, track_of};
use crate::text::{cat3, copies, repeat_char};
use crate::widths::{counted, line_width, shown_width, width_of, width_of_line};

verus! {

/// The view that the help was opened over.
pub open spec fn helped_view(app: AppState) -> HelpView {
    if app.overlays.diff is Some {
        HelpView::DiffModal
    } else if app.page.repo is Some {
        HelpView::RepoPage
    } else {
        HelpView::List
    }
}

fn view_of(app: &AppState) -> (res: HelpView)
    ensures
        res == helped_view(*app),
{
    if app.overlays.diff.is_some() {
        HelpView::DiffModal
    } else if app.page.repo.is_some() {
        HelpView::RepoPage
    } else {
        HelpView::List
    }
}

/// The lines of a tab.
pub open spec fn tab_items(view: HelpView, assistant: Seq<char>, tab: HelpTab) -> Seq<HelpItemView> {
    match tab {
        HelpTab::Hotkeys => hotkey_items(view, assistant),
        HelpTab::Cli => cli_items(),
        HelpTab::Legend => legend_items(),
        HelpTab::About => about_items(),
    }
}

fn items_of(view: HelpView, assistant: &str, tab: HelpTab) -> (res: HelpItems)
    ensures
        res@ == tab_items(view, assistant@, tab),
{
    match tab {
        HelpTab::Hotkeys => help_items_hotkeys(view, assistant),
        HelpTab::Cli => help_items_cli(),
        HelpTab::Legend => help_items_legend(),
        HelpTab::About => help_items_about(),
    }
}

// ---- the size ----

/// The width of the widest of the first `n` lines.
pub open spec fn widest_item(items: Seq<HelpItemView>, n: nat) -> usize
    decreases n,
{
    if n == 0 || n > items.len() {
        0
    } else {
        let before = widest_item(items, (n - 1) as nat);
        let width = counted(line_width(items[n - 1].0));
        if width > before {
            width
        } else {
            before
        }
    }
}

fn width_of_items(items: &HelpItems) -> (res: usize)
    ensures
        res == widest_item(items@, items@.len()),
{
    let mut widest: usize = 0;
    let mut i: usize = 0;
    while i < items.list.len()
        invariant
            i <= items@.len(),
            widest == widest_item(items@, i as nat),
        decreases items@.len() - i,
    {
        assert(items@[i as int] == help_item(items.list@[i as int]));
        let width: usize = width_of_line(&items.list[i].line);
        if width > widest {
            widest = width;
        }
        i += 1;
    }
    widest
}

/// The width and the height of a tab's content.
pub open spec fn tab_size(view: HelpView, assistant: Seq<char>, tab: HelpTab) -> (int, int) {
    let items = tab_items(view, assistant, tab);
    (widest_item(items, items.len()) as int, items.len() as int)
}

/// The width and the height that hold every tab's content.
pub open spec fn help_size(view: HelpView, assistant: Seq<char>) -> (int, int) {
    let hotkeys = tab_size(view, assistant, HelpTab::Hotkeys);
    let cli = tab_size(view, assistant, HelpTab::Cli);
    let legend = tab_size(view, assistant, HelpTab::Legend);
    let about = tab_size(view, assistant, HelpTab::About);
    (
        most(most(hotkeys.0, cli.0), most(legend.0, about.0)),
        most(most(hotkeys.1, cli.1), most(legend.1, about.1)),
    )
}

fn larger(a: usize, b: usize) -> (res: usize)
    ensures
        res == most(a as int, b as int),
{
    if a > b {
        a
    } else {
        b
    }
}

fn size_of_tab(view: HelpView, assistant: &str, tab: HelpTab) -> (res: (usize, usize))
    ensures
        (res.0 as int, res.1 as int) == tab_size(view, assistant@, tab),
{
    let items = items_of(view, assistant, tab);
    (width_of_items(&items), items.list.len())
}

fn size_of_help(view: HelpView, assistant: &str) -> (res: (usize, usize))
    ensures
        (res.0 as int, res.1 as int) == help_size(view, assistant@),
{
    let hotkeys: (usize, usize) = size_of_tab(view, assistant, HelpTab::Hotkeys);
    let cli: (usize, usize) = size_of_tab(view, assistant, HelpTab::Cli);
    let legend: (usize, usize) = size_of_tab(view, assistant, HelpTab::Legend);
    let about: (usize, usize) = size_of_tab(view, assistant, HelpTab::About);
    (
        larger(larger(hotkeys.0, cli.0), larger(legend.0, about.0)),
        larger(larger(hotkeys.1, cli.1), larger(legend.1, about.1)),
    )
}

/// A length between a least one and the most that there is.
pub open spec fn fitted(wanted: int, low: int, room: int) -> int {
    most(least(wanted, room), least(low, room))
}

fn fit(wanted: u16, low: u16, room: u16) -> (res: u16)
    ensures
        res == fitted(wanted as int, low as int, room as int),
{
    let held: u16 = if wanted < room {
        wanted
    } else {
        room
    };
    let floor: u16 = if low < room {
        low
    } else {
        room
    };
    if held > floor {
        held
    } else {
        floor
    }
}

/// The rows and columns that the padding takes.
pub open spec fn padding(padded: bool) -> int {
    if padded {
        2
    } else {
        0
    }
}

/// The modal: as large as its largest tab, so that it keeps its size from tab to tab.
pub open spec fn help_area(view: HelpView, assistant: Seq<char>, padded: bool, area: Rect) -> Rect {
    let (widest, tallest) = help_size(view, assistant);
    let pad = padding(padded);
    centered(
        fitted(
            across(capped(widest), 4 + pad) as int,
            40,
            less(area.width as int, 2),
        ) as u16,
        fitted(
            across(capped(tallest), 3 + pad) as int,
            8,
            less(area.height as int, 2),
        ) as u16,
        area,
    )
}

fn area_of_help(view: HelpView, assistant: &str, padded: bool, area: Rect) -> (res: Rect)
    ensures
        res == help_area(view, assistant@, padded, area),
{
    let (widest, tallest) = size_of_help(view, assistant);
    let pad: u16 = if padded {
        2
    } else {
        0
    };
    let wide: u16 = fit(step_across(cap(widest), 4 + pad), 40, cells_less(area.width, 2));
    let high: u16 = fit(step_across(cap(tallest), 3 + pad), 8, cells_less(area.height, 2));
    centered_rect(wide, high, area)
}

// ---- the tab bar ----

/// The tabs in the order of the bar.
pub open spec fn tab_at(k: int) -> (HelpTab, Seq<char>) {
    if k == 0 {
        (HelpTab::Hotkeys, " Hotkeys "@)
    } else if k == 1 {
        (HelpTab::Cli, " CLI & Flags "@)
    } else if k == 2 {
        (HelpTab::Legend, " Legend "@)
    } else {
        (HelpTab::About, " About "@)
    }
}

fn tab_of(k: usize) -> (res: (HelpTab, &'static str))
    ensures
        (res.0, res.1@) == tab_at(k as int),
{
    if k == 0 {
        (HelpTab::Hotkeys, " Hotkeys ")
    } else if k == 1 {
        (HelpTab::Cli, " CLI & Flags ")
    } else if k == 2 {
        (HelpTab::Legend, " Legend ")
    } else {
        (HelpTab::About, " About ")
    }
}

/// The style of a tab's chip.
pub open spec fn tab_style(active: bool) -> Style {
    if active {
        in_bold(Style { bg: Some(Color::LightCyan), ..colored(Color::Black) })
    } else {
        colored(Color::Gray)
    }
}

/// The tab bar so far: its spans, the column after them, and what can be clicked.
pub type TabBarView = (Seq<SpanView>, u16, Seq<(Region, HelpTab)>);

/// The tab bar up to the first `n` chips.
pub open spec fn tabs_upto(current: HelpTab, bar: Rect, n: nat) -> TabBarView
    decreases n,
{
    if n == 0 {
        (blank_line(), bar.x, Seq::empty())
    } else {
        let (spans, col, clicks) = tabs_upto(current, bar, (n - 1) as nat);
        let (tab, text) = tab_at(n - 1);
        let end = across(col, (shown_width(text) as u16) as int);
        (
            spans.push((text, tab_style(tab == current))).push((" "@, plain_style())),
            across(end, 1),
            clicks.push(((bar.y, col, end), tab)),
        )
    }
}

/// The first column of the `[esc]` at the end of the bar.
pub open spec fn esc_column(bar: Rect) -> u16 {
    across(bar.x, less(bar.width as int, 5))
}

/// The tab bar: the tabs on the left, and `[esc]` on the right.
pub open spec fn tab_bar(current: HelpTab, bar: Rect) -> Seq<SpanView> {
    let (spans, col, _) = tabs_upto(current, bar, 4);
    let gap = if esc_column(bar) > col {
        spans.push((copies(' ', (esc_column(bar) - col) as nat), plain_style()))
    } else {
        spans
    };
    gap.push(("[esc]"@, colored(Color::DarkGray)))
}

fn build_tab_bar(current: HelpTab, bar: Rect) -> (res: (Line, Vec<(Region, HelpTab)>, Region))
    ensures
        res.0@ == tab_bar(current, bar),
        res.1@ == tabs_upto(current, bar, 4).2,
        res.2 == (bar.y, esc_column(bar), across(esc_column(bar), 5)),
{
    let mut line = Line::new();
    let mut clicks: Vec<(Region, HelpTab)> = Vec::new();
    let mut col: u16 = bar.x;
    let mut k: usize = 0;
    while k < 4
        invariant
            k <= 4,
            (line@, col, clicks@) == tabs_upto(current, bar, k as nat),
        decreases 4 - k,
    {
        let (tab, text) = tab_of(k);
        let end: u16 = step_across(col, width_of(text) as u16);
        let style = if tab == current {
            Style::color(Color::Black).with_bg(Color::LightCyan).with_bold()
        } else {
            Style::color(Color::Gray)
        };
        line.push(text, style);
        line.push(" ", Style::plain());
        clicks.push(((bar.y, col, end), tab));
        col = step_across(end, 1);
        k += 1;
    }
    let esc: u16 = step_across(bar.x, cells_less(bar.width, 5));
    if esc > col {
        line.push(repeat_char(' ', (esc - col) as usize).as_str(), Style::plain());
    }
    line.push("[esc]", Style::color(Color::DarkGray));
    (line, clicks, (bar.y, esc, step_across(esc, 5)))
}

// ---- the content ----

/// The lines from `start` on, up to the first `n`.
pub open spec fn help_lines(items: Seq<HelpItemView>, start: int, n: nat) -> Seq<Seq<SpanView>>
    decreases n,
{
    if n == 0 || start + n > items.len() {
        no_lines()
    } else {
        help_lines(items, start, (n - 1) as nat).push(items[start + n - 1].0)
    }
}

/// The rows of the links on the lines from `start` on, up to the first `n`.
pub open spec fn help_links(items: Seq<HelpItemView>, start: int, y: u16, n: nat) -> Seq<
    (u16, Seq<char>),
>
    decreases n,
{
    if n == 0 || start + n > items.len() {
        Seq::empty()
    } else {
        let before = help_links(items, start, y, (n - 1) as nat);
        match items[start + n - 1].1 {
            Some(url) => before.push((across(y, n - 1), url)),
            None => before,
        }
    }
}

/// Rows with their links.
pub open spec fn link_texts(links: Seq<(u16, String)>) -> Seq<(u16, Seq<char>)> {
    Seq::new(links.len(), |i: int| (links[i].0, links[i].1@))
}

fn help_slice(items: &HelpItems, start: usize, count: usize, y: u16) -> (res: (
    Lines,
    Vec<(u16, String)>,
))
    requires
        start + count <= items@.len(),
        count <= u16::MAX,
    ensures
        res.0@ == help_lines(items@, start as int, count as nat),
        link_texts(res.1@) == help_links(items@, start as int, y, count as nat),
{
    let total: usize = items.list.len();
    let mut lines = Lines::new();
    let mut links: Vec<(u16, String)> = Vec::new();
    assert(link_texts(links@) =~= Seq::<(u16, Seq<char>)>::empty());
    let mut i: usize = 0;
    while i < count
        invariant
            i <= count,
            count <= u16::MAX,
            total == items@.len(),
            start + count <= total,
            lines@ == help_lines(items@, start as int, i as nat),
            link_texts(links@) == help_links(items@, start as int, y, i as nat),
        decreases count - i,
    {
        let item = &items.list[start + i];
        assert(items@[start + i] == help_item(*item));
        let mut line = Line::new();
        line.extend_from(&item.line);
        assert(line@ =~= item.line@);
        lines.push(line);
        match &item.link {
            Some(url) => {
                let ghost before = links@;
                links.push((step_across(y, i as u16), url.clone()));
                assert(link_texts(links@) =~= link_texts(before).push((across(y, i as int), url@)));
            },
            None => {},
        }
        i += 1;
    }
    (lines, links)
}

/// The help modal on the screen.
#[derive(Debug)]
pub struct HelpModal {
    pub area: Rect,
    pub title: String,
    pub bar: Rect,
    pub tab_bar: Line,
    pub tabs: Vec<(Region, HelpTab)>,
    pub close: Region,
    pub content: Rect,
    pub lines: Lines,
    pub links: Vec<(u16, String)>,
    /// The first line shown.
    pub scroll: usize,
    pub scrollbar: ScrollHit,
}

/// The first row inside an area.
pub open spec fn first_row(inner: Rect) -> Rect {
    Rect { height: 1, ..inner }
}

/// The rows below the tab bar and a blank row.
pub open spec fn below_bar(inner: Rect) -> Rect {
    Rect { y: across(inner.y, 2), height: less(inner.height as int, 2) as u16, ..inner }
}

/// What the help modal shows.
pub open spec fn is_help(app: AppState, assistant: Seq<char>, area: Rect, modal: HelpModal) -> bool {
    let view = helped_view(app);
    let padded = app.prefs.panel_padding;
    let at = help_area(view, assistant, padded, area);
    let inner = inside(at, padded);
    let bar = first_row(inner);
    let content = below_bar(inner);
    let items = tab_items(view, assistant, app.prefs.help_tab);
    let scroll = least(
        app.overlays.help_scroll as int,
        less(items.len() as int, content.height as int),
    );
    let count = least(content.height as int, items.len() - scroll) as nat;
    &&& modal.area == at
    &&& modal.title@ == " pull-all — help · "@ + view.named() + " "@
    &&& modal.bar == bar
    &&& modal.tab_bar@ == tab_bar(app.prefs.help_tab, bar)
    &&& modal.tabs@ == tabs_upto(app.prefs.help_tab, bar, 4).2
    &&& modal.close == (bar.y, esc_column(bar), across(esc_column(bar), 5))
    &&& modal.content == content
    &&& modal.lines@ == help_lines(items, scroll, count)
    &&& link_texts(modal.links@) == help_links(items, scroll, content.y, count)
    &&& modal.scroll == scroll
    &&& modal.scrollbar == (ScrollHit {
        kind: ScrollKind::Help,
        track: track_of(at, content),
        total: items.len() as usize,
        viewport: content.height as usize,
    })
}

/// The hints on the bottom border of the help modal.
pub fn help_footer() -> (res: &'static str)
    ensures
        res@ == " tab switch · ↑/↓ scroll · click a link · ?/Esc close "@,
{
    " tab switch · ↑/↓ scroll · click a link · ?/Esc close "
}

/// The `?` help modal: a bar of tabs over the lines of the current one.
pub fn help_modal(app: &AppState, assistant: &str, area: Rect) -> (res: HelpModal)
    ensures
        is_help(*app, assistant@, area, res),
{
    let view = view_of(app);
    let padded = app.prefs.panel_padding;
    let tab = app.prefs.help_tab;
    let at = area_of_help(view, assistant, padded, area);
    let inner = inside_of(at, padded);
    let bar = Rect { x: inner.x, y: inner.y, width: inner.width, height: 1 };
    let content = Rect {
        x: inner.x,
        y: step_across(inner.y, 2),
        width: inner.width,
        height: cells_less(inner.height, 2),
    };
    let (line, tabs, close) = build_tab_bar(tab, bar);
    let items = items_of(view, assistant, tab);
    let total: usize = items.list.len();
    let viewport: usize = content.height as usize;
    let last: usize = if viewport < total {
        total - viewport
    } else {
        0
    };
    let scroll: usize = if app.overlays.help_scroll < last {
        app.overlays.help_scroll
    } else {
        last
    };
    let left: usize = total - scroll;
    let count: usize = if viewport < left {
        viewport
    } else {
        left
    };
    let (lines, links) = help_slice(&items, scroll, count, content.y);
    HelpModal {
        area: at,
        title: cat3(" pull-all — help · ", view.label(), " "),
        bar,
        tab_bar: line,
        tabs,
        close,
        content,
        lines,
        links,
        scroll,
        scrollbar: ScrollHit {
            kind: ScrollKind::Help,
            track: scrollbar_track(at, content),
            total,
            viewport,
        },
    }
}

/// The help modal keeps its place and its size from tab to tab.
pub proof fn law_help_keeps_its_size(
    app: AppState,
    tab: HelpTab,
    assistant: Seq<char>,
    area: Rect,
    modal: HelpModal,
    other: HelpModal,
)
    requires
        is_help(app, assistant, area, modal),
        is_help(app.with_help_tab(tab), assistant, area, other),
    ensures
        modal.area == other.area,
{
    reveal(AppState::with_help_tab);
}

/// The help is about what is in front: the diff modal, the repo page, or the list.
pub proof fn law_help_is_about_what_is_open(app: AppState)
    ensures
        app.overlays.diff is Some ==> helped_view(app) is DiffModal,
        app.overlays.diff is None && app.page.repo is Some ==> helped_view(app) is RepoPage,
        app.overlays.diff is None && app.page.repo is None ==> helped_view(app) is List,
{
}

} // verus!
