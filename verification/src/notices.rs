//! What lies over the screen without being asked for: the notice of a new build, the throttle
//! banner, the toast, the grip of the divider, and the shadows of modals.

use vstd::prelude::*;
use vstd::string::*;

use crate::app::{tally, AppState};
use crate::icons::IconSet;
use crate::repo::RepoStatus;
use crate::screen::{
    across, cells_less, colored, in_bold, inside, inside_of, least, less, most, one_span,
    plain_style, step_across, Color, Line, Rect, Region, SpanView, Style,
};
use crate::text::{cat3, cat5, count_text, decimal};
use crate::widths::{shown_width, width_of};

verus! {

// ---- the notice of a new build ----

/// The notice of a new build on the screen.
#[derive(Debug)]
pub struct UpdateNotice {
    pub area: Rect,
    pub inner: Rect,
    pub line: Line,
    pub reload: Region,
    pub close: Region,
    /// The cells of the border that shine.
    pub glint: Vec<(u16, u16)>,
}

/// A newer build waits, and its notice was not closed.
pub open spec fn update_waits(app: AppState) -> bool {
    app.notices.update_available && !app.notices.update_dismissed
}

/// The notice's line.
pub open spec fn update_line() -> Seq<SpanView> {
    one_span(" ↺ new build installed · "@, colored(Color::Yellow)).push(
        ("[reload]"@, in_bold(Style { bg: Some(Color::Yellow), ..colored(Color::Black) })),
    ).push((" [x] "@, in_bold(colored(Color::DarkGray))))
}

/// The width of the notice's text.
pub open spec fn update_width() -> u16 {
    across(
        across(
            shown_width(" ↺ new build installed · "@) as u16,
            (shown_width("[reload]"@) as u16) as int,
        ),
        (shown_width(" [x] "@) as u16) as int,
    )
}

/// The notice's area: in the top right corner, one cell in, and one more with padding.
pub open spec fn update_area(padded: bool, area: Rect) -> Rect {
    let width = least(across(update_width(), 2) as int, area.width as int);
    let inset: int = if padded {
        1
    } else {
        0
    };
    Rect {
        x: across(area.x, less(area.width as int, width + 2 + inset)),
        y: across(area.y, 1 + inset),
        width: width as u16,
        height: least(3, area.height as int) as u16,
    }
}

/// The number of cells of an area's border.
pub open spec fn border_length(area: Rect) -> int {
    2 * area.width + 2 * (area.height - 2)
}

/// The cell of an area's border at a distance from its top left corner, clockwise.
pub open spec fn border_cell(area: Rect, k: int) -> (u16, u16) {
    let right = across(area.x, area.width - 1);
    let bottom = across(area.y, area.height - 1);
    let side = area.height - 2;
    if k < area.width {
        (across(area.x, k), area.y)
    } else if k < area.width + side {
        (right, across(area.y, 1 + k - area.width))
    } else if k < 2 * area.width + side {
        (less(right as int, k - area.width - side) as u16, bottom)
    } else {
        (area.x, less(bottom as int, 1 + k - 2 * area.width - side) as u16)
    }
}

/// The glint's `n` first cells: it starts one cell further on at each tick, and goes round.
pub open spec fn glint_upto(area: Rect, tick: u64, n: nat) -> Seq<(u16, u16)>
    decreases n,
{
    if n == 0 {
        Seq::empty()
    } else {
        glint_upto(area, tick, (n - 1) as nat).push(
            border_cell(area, (tick % border_length(area) as u64 + n - 1) % border_length(area)),
        )
    }
}

/// The cells of the border that shine: six of them, on a border that is large enough.
pub open spec fn glint_of(area: Rect, tick: u64) -> Seq<(u16, u16)> {
    if area.width >= 4 && area.height >= 3 {
        glint_upto(area, tick, 6)
    } else {
        Seq::empty()
    }
}

/// Every cell of a border lies on it.
pub proof fn law_glint_stays_on_the_border(area: Rect, k: int)
    requires
        area.addressable(),
        area.width >= 4,
        area.height >= 3,
        0 <= k < border_length(area),
    ensures
        ({
            let (col, row) = border_cell(area, k);
            &&& area.holds(col as int, row as int)
            &&& (col == area.x || col == area.x + area.width - 1 || row == area.y || row == area.y
                + area.height - 1)
        }),
{
}

fn cell_of_border(area: Rect, k: u32) -> (res: (u16, u16))
    requires
        area.width >= 4,
        area.height >= 3,
        k < border_length(area),
    ensures
        res == border_cell(area, k as int),
{
    let right: u16 = step_across(area.x, area.width - 1);
    let bottom: u16 = step_across(area.y, area.height - 1);
    let wide: u32 = area.width as u32;
    let side: u32 = area.height as u32 - 2;
    if k < wide {
        (step_across(area.x, k as u16), area.y)
    } else if k < wide + side {
        (right, step_across(area.y, (1 + k - wide) as u16))
    } else if k < 2 * wide + side {
        (cells_less(right, (k - wide - side) as u16), bottom)
    } else {
        (area.x, cells_less(bottom, (1 + k - 2 * wide - side) as u16))
    }
}

fn build_glint(area: Rect, tick: u64) -> (res: Vec<(u16, u16)>)
    ensures
        res@ == glint_of(area, tick),
{
    let mut cells: Vec<(u16, u16)> = Vec::new();
    if area.width < 4 || area.height < 3 {
        return cells;
    }
    let length: u32 = 2 * area.width as u32 + 2 * (area.height as u32 - 2);
    let start: u32 = (tick % length as u64) as u32;
    let mut k: u32 = 0;
    while k < 6
        invariant
            k <= 6,
            area.width >= 4,
            area.height >= 3,
            length == border_length(area),
            start < length,
            start == tick % border_length(area) as u64,
            cells@ == glint_upto(area, tick, k as nat),
        decreases 6 - k,
    {
        cells.push(cell_of_border(area, (start + k) % length));
        k += 1;
    }
    cells
}

/// What the notice of a new build shows.
pub open spec fn is_update_notice(app: AppState, area: Rect, tick: u64, notice: UpdateNotice) -> bool {
    let at = update_area(app.prefs.panel_padding, area);
    let inner = inside(at, false);
    let reload = across(inner.x, (shown_width(" ↺ new build installed · "@) as u16) as int);
    let close = across(across(reload, 8), 1);
    &&& notice.area == at
    &&& notice.inner == inner
    &&& notice.line@ == update_line()
    &&& notice.reload == (inner.y, reload, across(reload, 8))
    &&& notice.close == (inner.y, close, across(close, 3))
    &&& notice.glint@ == glint_of(at, tick)
}

/// The persistent new-build notice (top right): shown when a newer binary replaced the running
/// one on disk, with clickable `[reload]` and `[x]`.
pub fn update_notice(app: &AppState, area: Rect, tick: u64) -> (res: Option<UpdateNotice>)
    ensures
        match res {
            Some(notice) => update_waits(*app) && is_update_notice(*app, area, tick, notice),
            None => !update_waits(*app),
        },
{
    if !app.notices.update_available || app.notices.update_dismissed {
        return None;
    }
    let text: u16 = width_of(" ↺ new build installed · ") as u16;
    let button: u16 = width_of("[reload]") as u16;
    let cross: u16 = width_of(" [x] ") as u16;
    let wanted: u16 = step_across(step_across(step_across(text, button), cross), 2);
    let width: u16 = if wanted < area.width {
        wanted
    } else {
        area.width
    };
    let inset: u16 = if app.prefs.panel_padding {
        1
    } else {
        0
    };
    let at = Rect {
        x: step_across(area.x, cells_less(cells_less(area.width, width), 2 + inset)),
        y: step_across(area.y, 1 + inset),
        width,
        height: if area.height > 3 {
            3
        } else {
            area.height
        },
    };
    let inner = inside_of(at, false);
    let mut line = Line::of(" ↺ new build installed · ", Style::color(Color::Yellow));
    line.push("[reload]", Style::color(Color::Black).with_bg(Color::Yellow).with_bold());
    line.push(" [x] ", Style::color(Color::DarkGray).with_bold());
    let reload: u16 = step_across(inner.x, text);
    let reload_end: u16 = step_across(reload, 8);
    let close: u16 = step_across(reload_end, 1);
    Some(
        UpdateNotice {
            area: at,
            inner,
            line,
            reload: (inner.y, reload, reload_end),
            close: (inner.y, close, step_across(close, 3)),
            glint: build_glint(at, tick),
        },
    )
}

// ---- the throttle banner ----

/// What is known of the remote's patience: whether it ran out within the last minute, and how
/// many pulls may run of those configured.
#[derive(Debug, Clone, Copy, PartialEq, Eq, Structural)]
pub struct Throttle {
    pub recent: bool,
    pub effective: usize,
    pub configured: usize,
}

/// A banner on the screen.
#[derive(Debug)]
pub struct Banner {
    pub area: Rect,
    pub inner: Rect,
    pub line: Line,
}

/// What the throttle banner says.
pub open spec fn throttle_text(app: AppState, throttle: Throttle, icons: IconSet) -> Seq<char> {
    let waiting = decimal(tally(app.repos@, RepoStatus::Throttled));
    if throttle.effective < throttle.configured {
        " "@ + icons.throttled@ + " remote throttling — concurrency "@ + decimal(
            throttle.effective as nat,
        ) + ("↓"@ + decimal(throttle.configured as nat) + " · retrying "@ + waiting + " "@)
    } else {
        " "@ + icons.throttled@ + " remote throttling detected · "@ + waiting
            + " repo(s) backing off "@
    }
}

/// The width of a banner: that of its text and its border, and at most the screen's.
pub open spec fn banner_width(text: Seq<char>, area: Rect) -> int {
    least(across(shown_width(text) as u16, 2) as int, area.width as int)
}

/// The banner is shown while repos back off or the remote ran out of patience lately, on a
/// screen that holds it.
pub open spec fn throttle_shown(
    app: AppState,
    throttle: Throttle,
    area: Rect,
    icons: IconSet,
) -> bool {
    &&& throttle.recent || tally(app.repos@, RepoStatus::Throttled) > 0
    &&& banner_width(throttle_text(app, throttle, icons), area) >= 4
    &&& area.height >= 3
}

/// What the throttle banner shows.
pub open spec fn is_throttle_banner(
    app: AppState,
    throttle: Throttle,
    area: Rect,
    icons: IconSet,
    banner: Banner,
) -> bool {
    let text = throttle_text(app, throttle, icons);
    let width = banner_width(text, area);
    &&& banner.area == (Rect {
        x: across(area.x, (area.width - width) / 2),
        y: area.y,
        width: width as u16,
        height: 3,
    })
    &&& banner.inner == inside(banner.area, false)
    &&& banner.line@ == one_span(text, in_bold(colored(Color::Magenta)))
}

/// The throttle warning (top center) while the remote is rate-limiting: the reduced concurrency
/// and how many repos are backing off.
pub fn throttle_banner(app: &AppState, throttle: Throttle, area: Rect, icons: &IconSet) -> (res:
    Option<Banner>)
    ensures
        match res {
            Some(banner) => throttle_shown(*app, throttle, area, *icons) && is_throttle_banner(
                *app,
                throttle,
                area,
                *icons,
                banner,
            ),
            None => !throttle_shown(*app, throttle, area, *icons),
        },
{
    let waiting: usize = app.counts().7;
    if !throttle.recent && waiting == 0 {
        return None;
    }
    let count = count_text(waiting);
    let text = if throttle.effective < throttle.configured {
        let rest = cat5(
            "↓",
            count_text(throttle.configured).as_str(),
            " · retrying ",
            count.as_str(),
            " ",
        );
        cat5(
            " ",
            icons.throttled,
            " remote throttling — concurrency ",
            count_text(throttle.effective).as_str(),
            rest.as_str(),
        )
    } else {
        cat5(
            " ",
            icons.throttled,
            " remote throttling detected · ",
            count.as_str(),
            " repo(s) backing off ",
        )
    };
    let wanted: u16 = step_across(width_of(text.as_str()) as u16, 2);
    let width: u16 = if wanted < area.width {
        wanted
    } else {
        area.width
    };
    if width < 4 || area.height < 3 {
        return None;
    }
    let at = Rect { x: step_across(area.x, (area.width - width) / 2), y: area.y, width, height: 3 };
    Some(
        Banner {
            area: at,
            inner: inside_of(at, false),
            line: Line::of(text.as_str(), Style::color(Color::Magenta).with_bold()),
        },
    )
}

// ---- the toast ----

/// The toast is shown on a screen that holds it.
pub open spec fn toast_shown(app: AppState, area: Rect) -> bool {
    app.notices.toast is Some && area.width >= 8 && area.height >= 3
}

/// What the toast shows, near the bottom of the screen.
pub open spec fn is_toast(message: Seq<char>, area: Rect, toast: Banner) -> bool {
    let text = "  "@ + message + "  "@;
    let width = least(
        most(across(shown_width(text) as u16, 2) as int, 8),
        area.width as int,
    );
    &&& toast.area == (Rect {
        x: across(area.x, (area.width - width) / 2),
        y: across(area.y, less(area.height as int, 6)),
        width: width as u16,
        height: 3,
    })
    &&& toast.inner == inside(toast.area, false)
    &&& toast.line@ == one_span(text, in_bold(plain_style()))
}

/// The transient toast: a small rounded notice near the bottom center.
pub fn toast_view(app: &AppState, area: Rect) -> (res: Option<Banner>)
    ensures
        match res {
            Some(toast) => toast_shown(*app, area) && is_toast(
                app.notices.toast->0@,
                area,
                toast,
            ),
            None => !toast_shown(*app, area),
        },
{
    if area.width < 8 || area.height < 3 {
        return None;
    }
    match &app.notices.toast {
        Some(message) => {
            let text = cat3("  ", message.as_str(), "  ");
            let wanted: u16 = step_across(width_of(text.as_str()) as u16, 2);
            let wide: u16 = if wanted > 8 {
                wanted
            } else {
                8
            };
            let width: u16 = if wide < area.width {
                wide
            } else {
                area.width
            };
            let at = Rect {
                x: step_across(area.x, (area.width - width) / 2),
                y: step_across(area.y, cells_less(area.height, 6)),
                width,
                height: 3,
            };
            Some(
                Banner {
                    area: at,
                    inner: inside_of(at, false),
                    line: Line::of(text.as_str(), Style::plain().with_bold()),
                },
            )
        },
        None => None,
    }
}

// ---- the divider ----

/// The grip of the divider between the panes.
#[derive(Debug, Clone, Copy, PartialEq, Eq, Structural)]
pub struct Grip {
    /// The two columns that the divider takes.
    pub left: u16,
    pub right: u16,
    /// The rows of the divider, without the corners.
    pub top: u16,
    pub bottom: u16,
    /// The rows of the grip.
    pub start: u16,
    pub end: u16,
    /// It is being dragged.
    pub dragged: bool,
}

/// The divider stands between the panes, and they are high enough for a grip.
pub open spec fn has_grip(app: AppState) -> bool {
    let area = app.hits.main_area;
    &&& area.height >= 3
    &&& area.x < app.hits.divider_col < area.x + area.width
}

/// The grip of the divider: around the middle, and longer in a higher pane.
pub open spec fn grip_of(app: AppState) -> Grip {
    let area = app.hits.main_area;
    let col = app.hits.divider_col;
    let center = across(area.y, (area.height / 2) as int);
    let half = least(most((area.height / 5) as int, 3), 9) / 2;
    let top = across(area.y, 1);
    let bottom = across(area.y, area.height - 1);
    Grip {
        left: less(col as int, 1) as u16,
        right: col,
        top,
        bottom,
        start: most(less(center as int, half), top as int) as u16,
        end: least(across(center, half + 1) as int, bottom as int) as u16,
        dragged: app.drag.divider,
    }
}

/// The grip of the divider, so that it reads as draggable.
pub fn divider_grip(app: &AppState) -> (res: Option<Grip>)
    ensures
        match res {
            Some(grip) => has_grip(*app) && grip == grip_of(*app),
            None => !has_grip(*app),
        },
{
    let area = app.hits.main_area;
    let col: u16 = app.hits.divider_col;
    if area.height < 3 || col <= area.x || col as u32 >= area.x as u32 + area.width as u32 {
        return None;
    }
    let center: u16 = step_across(area.y, area.height / 2);
    let fifth: u16 = area.height / 5;
    let half: u16 = (if fifth < 3 {
        3
    } else if fifth > 9 {
        9
    } else {
        fifth
    }) / 2;
    let top: u16 = step_across(area.y, 1);
    let bottom: u16 = step_across(area.y, area.height - 1);
    let low: u16 = cells_less(center, half);
    let high: u16 = step_across(center, half + 1);
    Some(
        Grip {
            left: cells_less(col, 1),
            right: col,
            top,
            bottom,
            start: if low > top {
                low
            } else {
                top
            },
            end: if high < bottom {
                high
            } else {
                bottom
            },
            dragged: app.drag.divider,
        },
    )
}

/// The grip is never longer than the divider.
pub proof fn law_grip_lies_on_the_divider(app: AppState)
    requires
        has_grip(app),
        app.hits.main_area.addressable(),
    ensures
        ({
            let grip = grip_of(app);
            &&& grip.top <= grip.start <= grip.end <= grip.bottom
            &&& grip.left + 1 == grip.right
        }),
{
}

// ---- shadows ----

/// A cell lies in the shadow of a box: one cell to its right, or one below it, and on the
/// screen.
pub open spec fn in_shadow(modal: Rect, screen: Rect, col: int, row: int) -> bool {
    &&& col < screen.x + screen.width
    &&& row < screen.y + screen.height
    &&& {
        ||| col == modal.x + modal.width && modal.y < row <= modal.y + modal.height
        ||| row == modal.y + modal.height && modal.x < col <= modal.x + modal.width
    }
}

/// Whether a cell lies in the shadow of a box.
pub fn shadowed(modal: Rect, screen: Rect, col: u16, row: u16) -> (res: bool)
    ensures
        res == in_shadow(modal, screen, col as int, row as int),
{
    let col: u32 = col as u32;
    let row: u32 = row as u32;
    let right: u32 = modal.x as u32 + modal.width as u32;
    let bottom: u32 = modal.y as u32 + modal.height as u32;
    if col >= screen.x as u32 + screen.width as u32 || row >= screen.y as u32 + screen.height as u32
    {
        return false;
    }
    let beside = col == right && row > modal.y as u32 && row <= bottom;
    let below = row == bottom && col > modal.x as u32 && col <= right;
    beside || below
}

/// A shadow never falls on its own box.
pub proof fn law_shadow_lies_outside(modal: Rect, screen: Rect, col: int, row: int)
    requires
        in_shadow(modal, screen, col, row),
    ensures
        !modal.holds(col, row),
{
}

/// The notice of a newer build is shown until it is closed.
pub proof fn law_when_an_update_waits(app: AppState)
    ensures
        update_waits(app) <==> app.notices.update_available && !app.notices.update_dismissed,
{
}

/// The banner says how far the pulls were slowed down, the smaller number first, and how many
/// repos wait.
pub proof fn law_throttle_banner(app: AppState, throttle: Throttle, icons: IconSet)
    ensures
        throttle.effective < throttle.configured ==> throttle_text(app, throttle, icons) == " "@
            + icons.throttled@ + " remote throttling — concurrency "@ + decimal(
            throttle.effective as nat,
        ) + ("↓"@ + decimal(throttle.configured as nat) + " · retrying "@ + decimal(
            tally(app.repos@, RepoStatus::Throttled),
        ) + " "@),
        throttle.effective >= throttle.configured ==> throttle_text(app, throttle, icons) == " "@
            + icons.throttled@ + " remote throttling detected · "@ + decimal(
            tally(app.repos@, RepoStatus::Throttled),
        ) + " repo(s) backing off "@,
{
}

/// The banner is shown only while the remote throttles or some repo waits for it.
pub proof fn law_when_the_banner_shows(app: AppState, throttle: Throttle, area: Rect, icons: IconSet)
    ensures
        throttle_shown(app, throttle, area, icons) ==> throttle.recent || tally(
            app.repos@,
            RepoStatus::Throttled,
        ) > 0,
        !throttle.recent && tally(app.repos@, RepoStatus::Throttled) == 0 ==> !throttle_shown(
            app,
            throttle,
            area,
            icons,
        ),
        app.notices.toast is None ==> !toast_shown(app, area),
{
}

} // verus!
