//! The settings modal.

use vstd::prelude::*;
use vstd::string::*;

use crate::app::{AppState, Prefs, SETTINGS_ROWS};
use crate::boxes::{hint, in_view, narrow, under};
use crate::helpview::padding;
use crate::icons::IconStyle;
use crate::options::{Background, Contrast, Theme};
use crate::screen::{
    across, blank_line, cap, capped, cells_less, centered, centered_rect, colored, in_bold, inside,
    inside_of, no_lines, one_span, plain_style, step_across, Color, Line, Lines, Rect, Region,
    SpanView, Style,
};
use crate::spans::{close_region, modal_close_button};
use crate::text::{cat, pad_right, padded};
use crate::widths::{shown_width, width_of};

verus! {

/// The name of a setting.
pub open spec fn setting_label(row: int) -> Seq<char> {
    if row == 0 {
        "Panel padding"@
    } else if row == 1 {
        "Grouping"@
    } else if row == 2 {
        "Tree view"@
    } else if row == 3 {
        "Icons"@
    } else if row == 4 {
        "Theme"@
    } else if row == 5 {
        "Background"@
    } else {
        "Contrast"@
    }
}

fn label_of_setting(row: usize) -> (res: &'static str)
    ensures
        res@ == setting_label(row as int),
{
    if row == 0 {
        "Panel padding"
    } else if row == 1 {
        "Grouping"
    } else if row == 2 {
        "Tree view"
    } else if row == 3 {
        "Icons"
    } else if row == 4 {
        "Theme"
    } else if row == 5 {
        "Background"
    } else {
        "Contrast"
    }
}

/// How many values a setting has.
pub open spec fn option_count(row: int) -> nat {
    if row == 4 || row == 5 {
        3
    } else {
        2
    }
}

/// The name of a setting's value.
pub open spec fn option_name(row: int, option: int) -> Seq<char> {
    if row < 3 {
        if option == 0 {
            "on"@
        } else {
            "off"@
        }
    } else if row == 3 {
        if option == 0 {
            "unicode"@
        } else {
            "emoji"@
        }
    } else if row == 4 {
        if option == 0 {
            "auto"@
        } else if option == 1 {
            "dark"@
        } else {
            "light"@
        }
    } else {
        if option == 0 {
            "normal"@
        } else if option == 1 {
            "soft"@
        } else {
            "terminal"@
        }
    }
}

fn name_of_option(row: usize, option: usize) -> (res: &'static str)
    ensures
        res@ == option_name(row as int, option as int),
{
    if row < 3 {
        if option == 0 {
            "on"
        } else {
            "off"
        }
    } else if row == 3 {
        if option == 0 {
            "unicode"
        } else {
            "emoji"
        }
    } else if row == 4 {
        if option == 0 {
            "auto"
        } else if option == 1 {
            "dark"
        } else {
            "light"
        }
    } else {
        if option == 0 {
            "normal"
        } else if option == 1 {
            "soft"
        } else {
            "terminal"
        }
    }
}

/// Which of its values a setting has.
pub open spec fn current_option(prefs: Prefs, row: int) -> int {
    if row == 0 {
        if prefs.panel_padding {
            0
        } else {
            1
        }
    } else if row == 1 {
        if prefs.grouping_enabled {
            0
        } else {
            1
        }
    } else if row == 2 {
        if prefs.tree_enabled {
            0
        } else {
            1
        }
    } else if row == 3 {
        match prefs.icon_style {
            IconStyle::Unicode => 0,
            IconStyle::Emoji => 1,
        }
    } else if row == 4 {
        match prefs.theme {
            Theme::Auto => 0,
            Theme::Dark => 1,
            Theme::Light => 2,
        }
    } else if row == 5 {
        match prefs.background {
            Background::Normal => 0,
            Background::Soft => 1,
            Background::Terminal => 2,
        }
    } else {
        match prefs.contrast {
            Contrast::Normal => 0,
            Contrast::Soft => 1,
        }
    }
}

fn switch(on: bool) -> (res: usize)
    ensures
        res == if on {
            0int
        } else {
            1int
        },
{
    if on {
        0
    } else {
        1
    }
}

fn option_of(prefs: &Prefs, row: usize) -> (res: usize)
    ensures
        res == current_option(*prefs, row as int),
{
    if row == 0 {
        switch(prefs.panel_padding)
    } else if row == 1 {
        switch(prefs.grouping_enabled)
    } else if row == 2 {
        switch(prefs.tree_enabled)
    } else if row == 3 {
        match prefs.icon_style {
            IconStyle::Unicode => 0,
            IconStyle::Emoji => 1,
        }
    } else if row == 4 {
        match prefs.theme {
            Theme::Auto => 0,
            Theme::Dark => 1,
            Theme::Light => 2,
        }
    } else if row == 5 {
        match prefs.background {
            Background::Normal => 0,
            Background::Soft => 1,
            Background::Terminal => 2,
        }
    } else {
        match prefs.contrast {
            Contrast::Normal => 0,
            Contrast::Soft => 1,
        }
    }
}

/// A chip that is picked becomes the setting's value, and the value of no other setting
/// changes.
pub proof fn law_picked_chip_is_current(prefs: Prefs, row: usize, option: usize, other: usize)
    requires
        row < SETTINGS_ROWS,
        option < option_count(row as int),
        other < SETTINGS_ROWS,
    ensures
        current_option(AppState::chosen(prefs, row, option), row as int) == option,
        other != row ==> current_option(AppState::chosen(prefs, row, option), other as int)
            == current_option(prefs, other as int),
{
    reveal(AppState::chosen);
}

/// Toggling a setting goes on to its next value; the first follows the last, and no other
/// setting changes.
pub proof fn law_toggled_setting_goes_on(prefs: Prefs, row: usize, other: usize)
    requires
        row < SETTINGS_ROWS,
        other < SETTINGS_ROWS,
    ensures
        current_option(AppState::toggled(prefs, row), row as int) == (current_option(
            prefs,
            row as int,
        ) + 1) % option_count(row as int) as int,
        other != row ==> current_option(AppState::toggled(prefs, row), other as int)
            == current_option(prefs, other as int),
{
    reveal(AppState::toggled);
}

// ---- the rows ----

/// A row so far: its spans, the column after them, and what can be clicked.
pub type SettingView = (Seq<SpanView>, u16, Seq<(Region, usize, Option<usize>)>);

/// The text of a chip.
pub open spec fn option_text(row: int, option: int, active: bool) -> Seq<char> {
    (if active {
        "● "@
    } else {
        "○ "@
    }) + option_name(row, option)
}

/// The style of a chip.
pub open spec fn option_style(active: bool) -> Style {
    if active {
        in_bold(colored(Color::Green))
    } else {
        colored(Color::DarkGray)
    }
}

/// The style of a setting's name.
pub open spec fn setting_style(selected: bool) -> Style {
    if selected {
        in_bold(plain_style())
    } else {
        colored(Color::Gray)
    }
}

/// A row up to its first `n` chips. Its name selects it, its chips set its value, where the
/// row is in view.
pub open spec fn setting_upto(
    prefs: Prefs,
    row: usize,
    selected: bool,
    inner: Rect,
    y: u16,
    n: nat,
) -> SettingView
    decreases n,
{
    let start = across(inner.x, 4);
    if n == 0 {
        (
            one_span(
                if selected {
                    "  > "@
                } else {
                    "    "@
                },
                setting_style(selected),
            ).push((padded(setting_label(row as int), 14), setting_style(selected))),
            across(start, 14),
            if in_view(inner, y) {
                Seq::empty().push(((y, start, across(start, 14)), row, None))
            } else {
                Seq::empty()
            },
        )
    } else {
        let (spans, after, clicks) = setting_upto(
            prefs,
            row,
            selected,
            inner,
            y,
            (n - 1) as nat,
        );
        let active = current_option(prefs, row as int) == n - 1;
        let text = option_text(row as int, n - 1, active);
        let col = if n > 1 {
            across(after, 2)
        } else {
            after
        };
        let end = across(col, (shown_width(text) as u16) as int);
        let gap = if n > 1 {
            spans.push(("  "@, plain_style()))
        } else {
            spans
        };
        (
            gap.push((text, option_style(active))),
            end,
            if in_view(inner, y) {
                clicks.push(((y, col, end), row, Some((n - 1) as usize)))
            } else {
                clicks
            },
        )
    }
}

/// A row of the modal.
pub open spec fn setting_row(prefs: Prefs, row: usize, selected: bool, inner: Rect, y: u16) -> SettingView {
    setting_upto(prefs, row, selected, inner, y, option_count(row as int))
}

fn is_in_view(area: Rect, row: u16) -> (res: bool)
    ensures
        res == in_view(area, row),
{
    (row as u32) < area.y as u32 + area.height as u32
}

fn build_row(
    prefs: &Prefs,
    row: usize,
    selected: bool,
    inner: Rect,
    y: u16,
    clicks: &mut Vec<(Region, usize, Option<usize>)>,
) -> (res: Line)
    requires
        row < SETTINGS_ROWS,
    ensures
        res@ == setting_row(*prefs, row, selected, inner, y).0,
        final(clicks)@ == old(clicks)@ + setting_row(*prefs, row, selected, inner, y).2,
{
    let ghost before = clicks@;
    let shown = is_in_view(inner, y);
    let style = if selected {
        Style::plain().with_bold()
    } else {
        Style::color(Color::Gray)
    };
    let mut line = Line::of(
        if selected {
            "  > "
        } else {
            "    "
        },
        style,
    );
    line.push(pad_right(label_of_setting(row), 14).as_str(), style);
    let start: u16 = step_across(inner.x, 4);
    let mut col: u16 = step_across(start, 14);
    if shown {
        clicks.push(((y, start, col), row, None));
    }
    let total: usize = if row == 4 || row == 5 {
        3
    } else {
        2
    };
    let current: usize = option_of(prefs, row);
    let ghost mut own = setting_upto(*prefs, row, selected, inner, y, 0).2;
    assert(clicks@ =~= before + own);
    let mut k: usize = 0;
    while k < total
        invariant
            k <= total,
            current == current_option(*prefs, row as int),
            shown == in_view(inner, y),
            (line@, col, own) == setting_upto(*prefs, row, selected, inner, y, k as nat),
            clicks@ == before + own,
        decreases total - k,
    {
        if k > 0 {
            line.push("  ", Style::plain());
            col = step_across(col, 2);
        }
        let active = current == k;
        let mark = if active {
            "● "
        } else {
            "○ "
        };
        let text = cat(mark, name_of_option(row, k));
        let end: u16 = step_across(col, width_of(text.as_str()) as u16);
        if shown {
            clicks.push(((y, col, end), row, Some(k)));
        }
        let style = if active {
            Style::color(Color::Green).with_bold()
        } else {
            Style::color(Color::DarkGray)
        };
        line.push(text.as_str(), style);
        proof {
            own = setting_upto(*prefs, row, selected, inner, y, (k + 1) as nat).2;
            assert(clicks@ =~= before + own);
        }
        col = end;
        k += 1;
    }
    line
}

// ---- the modal ----

/// The modal so far: its lines, and what can be clicked.
pub type SettingsSoFar = (Seq<Seq<SpanView>>, Seq<(Region, usize, Option<usize>)>);

/// The title of a section.
pub open spec fn section_title(name: Seq<char>) -> Seq<SpanView> {
    one_span(name, in_bold(colored(Color::Cyan)))
}

/// What stands above a row: the title of its section above the first one in it.
pub open spec fn with_title(lines: Seq<Seq<SpanView>>, row: int) -> Seq<Seq<SpanView>> {
    if row == 0 {
        lines.push(section_title("  General"@))
    } else if row == 3 {
        lines.push(blank_line()).push(section_title("  Theming"@))
    } else {
        lines
    }
}

/// What stands below a row: where no groups are defined, the grouping row says where to.
pub open spec fn with_note(lines: Seq<Seq<SpanView>>, row: int, groups: bool) -> Seq<Seq<SpanView>> {
    if row == 1 && !groups {
        lines.push(hint("      no groups defined — ~/.config/pull-all/groups.json"@))
    } else {
        lines
    }
}

/// The modal up to its first `n` rows.
pub open spec fn settings_upto(app: AppState, groups: bool, inner: Rect, n: nat) -> SettingsSoFar
    decreases n,
{
    if n == 0 {
        (
            if app.prefs.panel_padding {
                no_lines()
            } else {
                no_lines().push(blank_line())
            },
            Seq::empty(),
        )
    } else {
        let (above, clicks) = settings_upto(app, groups, inner, (n - 1) as nat);
        let lines = with_title(above, n - 1);
        let row = setting_row(
            app.prefs,
            (n - 1) as usize,
            app.overlays.settings_selected == n - 1,
            inner,
            across(inner.y, capped(lines.len() as int) as int),
        );
        (with_note(lines.push(row.0), n - 1, groups), clicks + row.2)
    }
}

/// The area of the modal.
pub open spec fn settings_area(padded: bool, groups: bool, area: Rect) -> Rect {
    let pad = padding(padded);
    let top: int = if padded {
        0
    } else {
        1
    };
    let note: int = if groups {
        0
    } else {
        1
    };
    centered(
        across(narrow(48, 20, area.width) as u16, pad),
        under(top + note + 14 + pad, 6, area.height) as u16,
        area,
    )
}

/// The settings modal on the screen.
#[derive(Debug)]
pub struct SettingsView {
    pub area: Rect,
    pub inner: Rect,
    pub close: Region,
    pub clicks: Vec<(Region, usize, Option<usize>)>,
    pub lines: Lines,
}

/// What the settings modal shows.
pub open spec fn is_settings(app: AppState, groups: bool, area: Rect, view: SettingsView) -> bool {
    let at = settings_area(app.prefs.panel_padding, groups, area);
    let inner = inside(at, app.prefs.panel_padding);
    let (lines, clicks) = settings_upto(app, groups, inner, SETTINGS_ROWS as nat);
    &&& view.area == at
    &&& view.inner == inner
    &&& view.close == close_region(at)
    &&& view.clicks@ == clicks
    &&& view.lines@ == lines.push(blank_line()).push(
        hint("  ↑↓ move · space/enter toggle · esc close"@),
    )
}

fn area_of_settings(padded: bool, groups: bool, area: Rect) -> (res: Rect)
    ensures
        res == settings_area(padded, groups, area),
{
    let pad: u16 = if padded {
        2
    } else {
        0
    };
    let top: u16 = if padded {
        0
    } else {
        1
    };
    let note: u16 = if groups {
        0
    } else {
        1
    };
    let room: u16 = cells_less(area.width, 2);
    let wide: u16 = if room > 48 {
        48
    } else if room > 20 {
        room
    } else {
        20
    };
    let rows: u16 = cells_less(area.height, 2);
    let most_rows: u16 = if rows > 6 {
        rows
    } else {
        6
    };
    let wanted: u16 = top + note + 14 + pad;
    let high: u16 = if wanted < most_rows {
        wanted
    } else {
        most_rows
    };
    centered_rect(step_across(wide, pad), high, area)
}

/// The settings modal: a section of general settings over one of theming.
pub fn settings_view(app: &AppState, area: Rect) -> (res: SettingsView)
    ensures
        is_settings(*app, app.outline.groups@.len() > 0, area, res),
{
    let groups = app.outline.groups.len() > 0;
    let at = area_of_settings(app.prefs.panel_padding, groups, area);
    let inner = inside_of(at, app.prefs.panel_padding);
    let close: Region = match modal_close_button(at).1 {
        Some(region) => region,
        None => (0, 0, 0),
    };
    let mut lines = Lines::new();
    if !app.prefs.panel_padding {
        lines.push(Line::new());
    }
    let mut clicks: Vec<(Region, usize, Option<usize>)> = Vec::new();
    let mut row: usize = 0;
    while row < SETTINGS_ROWS
        invariant
            row <= SETTINGS_ROWS,
            (lines@, clicks@) == settings_upto(*app, groups, inner, row as nat),
        decreases SETTINGS_ROWS - row,
    {
        if row == 0 {
            lines.push(Line::of("  General", Style::color(Color::Cyan).with_bold()));
        } else if row == 3 {
            lines.push(Line::new());
            lines.push(Line::of("  Theming", Style::color(Color::Cyan).with_bold()));
        }
        let y: u16 = step_across(inner.y, cap(lines.len()));
        let selected = app.overlays.settings_selected == row;
        let line = build_row(&app.prefs, row, selected, inner, y, &mut clicks);
        lines.push(line);
        if row == 1 && !groups {
            lines.push(
                Line::of(
                    "      no groups defined — ~/.config/pull-all/groups.json",
                    Style::color(Color::DarkGray),
                ),
            );
        }
        row += 1;
    }
    lines.push(Line::new());
    lines.push(
        Line::of("  ↑↓ move · space/enter toggle · esc close", Style::color(Color::DarkGray)),
    );
    SettingsView { area: at, inner, close, clicks, lines }
}

/// What each row of the settings is called.
pub proof fn law_names_of_settings()
    ensures
        setting_label(0) == "Panel padding"@,
        setting_label(1) == "Grouping"@,
        setting_label(2) == "Tree view"@,
        setting_label(3) == "Icons"@,
        setting_label(4) == "Theme"@,
        setting_label(5) == "Background"@,
        setting_label(6) == "Contrast"@,
{
}

/// What each chip is called, and that the one which names the value in force is current.
pub proof fn law_names_of_chips(prefs: Prefs)
    ensures
        option_name(0, current_option(prefs, 0)) == (if prefs.panel_padding {
            "on"@
        } else {
            "off"@
        }),
        option_name(1, current_option(prefs, 1)) == (if prefs.grouping_enabled {
            "on"@
        } else {
            "off"@
        }),
        option_name(2, current_option(prefs, 2)) == (if prefs.tree_enabled {
            "on"@
        } else {
            "off"@
        }),
        prefs.icon_style is Unicode ==> option_name(3, current_option(prefs, 3)) == "unicode"@,
        prefs.icon_style is Emoji ==> option_name(3, current_option(prefs, 3)) == "emoji"@,
        prefs.theme is Auto ==> option_name(4, current_option(prefs, 4)) == "auto"@,
        prefs.theme is Dark ==> option_name(4, current_option(prefs, 4)) == "dark"@,
        prefs.theme is Light ==> option_name(4, current_option(prefs, 4)) == "light"@,
        prefs.background is Normal ==> option_name(5, current_option(prefs, 5)) == "normal"@,
        prefs.background is Soft ==> option_name(5, current_option(prefs, 5)) == "soft"@,
        prefs.background is Terminal ==> option_name(5, current_option(prefs, 5)) == "terminal"@,
        prefs.contrast is Normal ==> option_name(6, current_option(prefs, 6)) == "normal"@,
        prefs.contrast is Soft ==> option_name(6, current_option(prefs, 6)) == "soft"@,
{
}

/// Only the chip that is current is filled.
pub proof fn law_current_chip_is_filled(row: int, option: int)
    ensures
        option_text(row, option, true) == "● "@ + option_name(row, option),
        option_text(row, option, false) == "○ "@ + option_name(row, option),
{
}

} // verus!
