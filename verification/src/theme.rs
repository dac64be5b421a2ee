//! Theme palettes and terminal background detection.
//!
//! Everything is drawn with the standard ANSI palette (`Color::Cyan`, `Color::DarkGray`, …).
//! After a frame is drawn, `Palette::map_fg`/`map_bg` remap those ANSI colors (and
//! `Color::Reset`) to explicit RGB values for the active theme + contrast, so the screen looks
//! identical in every terminal regardless of its palette.

use vstd::prelude::*;

use crate::app::AppState;
use crate::options::{Background, Contrast, Theme};
use crate::screen::Color;
use crate::text::{
    contains, has_text, lines_of, nonempty, parse_number, parsed, pieces, same, split,
    split_nonempty, text_lines, trim, trimmed, Separator,
};

verus! {

/// The resolved RGB colors for one theme + contrast combination. Fields are semantic roles;
/// `map_fg`/`map_bg` translate the ANSI colors used at draw time into these.
#[derive(Debug, Clone, Copy, PartialEq, Eq, Structural)]
pub struct Palette {
    /// Base background (also what `Color::Reset` backgrounds resolve to).
    pub bg: Color,
    /// Base foreground (also what `Color::Reset` foregrounds resolve to).
    pub fg: Color,
    /// Selection / elevated-surface background (`Color::DarkGray` backgrounds).
    pub selection_bg: Color,
    /// Modal drop-shadow background (`Color::Black` backgrounds).
    pub shadow: Color,
    /// Primary accent — focused borders, links, active chips (`Color::Cyan`).
    pub accent: Color,
    /// Success (`Color::Green`).
    pub ok: Color,
    /// Warning / in-progress (`Color::Yellow`).
    pub warn: Color,
    /// Error (`Color::Red`).
    pub error: Color,
    /// Secondary accent (`Color::Magenta`).
    pub info: Color,
    /// Tertiary accent (`Color::Blue`, mostly from git's own ANSI output).
    pub blue: Color,
    /// Secondary text (`Color::Gray`).
    pub muted: Color,
    /// Tertiary text, dim borders (`Color::DarkGray` foregrounds).
    pub faint: Color,
    /// Strongest text (`Color::White`).
    pub bright: Color,
    /// Deep accent surface (`Color::LightCyan`) — active chip backgrounds. Dark enough in the
    /// light themes that inverse (background-colored) text keeps a high contrast ratio, so
    /// terminals with minimum-contrast enforcement don't repaint it black.
    pub accent_deep: Color,
}

impl Palette {
    /// What a foreground color is drawn as.
    pub open spec fn fg_of(self, color: Color) -> Color {
        match color {
            Color::Reset => self.fg,
            Color::Cyan => self.accent,
            Color::LightCyan => self.accent_deep,
            Color::Green => self.ok,
            Color::LightGreen => self.ok,
            Color::Yellow => self.warn,
            Color::LightYellow => self.warn,
            Color::Red => self.error,
            Color::LightRed => self.error,
            Color::Magenta => self.info,
            Color::LightMagenta => self.info,
            Color::Blue => self.blue,
            Color::LightBlue => self.blue,
            Color::Gray => self.muted,
            Color::DarkGray => self.faint,
            Color::White => self.bright,
            Color::Black => self.bg,
            other => other,
        }
    }

    /// What a background color is drawn as.
    pub open spec fn bg_of(self, color: Color) -> Color {
        match color {
            Color::Reset => self.bg,
            Color::DarkGray => self.selection_bg,
            Color::Black => self.shadow,
            other => self.fg_of(other),
        }
    }

    /// Remap a foreground color drawn with the ANSI palette to this palette's RGB value.
    /// RGB/indexed colors pass through untouched.
    pub fn map_fg(&self, color: Color) -> (res: Color)
        ensures
            res == self.fg_of(color),
    {
        match color {
            Color::Reset => self.fg,
            Color::Cyan => self.accent,
            Color::LightCyan => self.accent_deep,
            Color::Green => self.ok,
            Color::LightGreen => self.ok,
            Color::Yellow => self.warn,
            Color::LightYellow => self.warn,
            Color::Red => self.error,
            Color::LightRed => self.error,
            Color::Magenta => self.info,
            Color::LightMagenta => self.info,
            Color::Blue => self.blue,
            Color::LightBlue => self.blue,
            Color::Gray => self.muted,
            Color::DarkGray => self.faint,
            Color::White => self.bright,
            // Inverse text on accent-colored chips reads as the base background.
            Color::Black => self.bg,
            other => other,
        }
    }

    /// Remap a background color drawn with the ANSI palette to this palette's RGB value.
    pub fn map_bg(&self, color: Color) -> (res: Color)
        ensures
            res == self.bg_of(color),
    {
        match color {
            Color::Reset => self.bg,
            Color::DarkGray => self.selection_bg,
            Color::Black => self.shadow,
            other => self.map_fg(other),
        }
    }

    /// The colors of a cell, and whether its foreground is to be faded toward its background:
    /// that stands for a dim cell wherever both are RGB colors.
    pub fn map_cell(&self, fg: Color, bg: Color, dim: bool) -> (res: (Color, Color, bool))
        ensures
            res.0 == self.fg_of(fg),
            res.1 == self.bg_of(bg),
            res.2 == (dim && self.fg_of(fg) is Rgb && self.bg_of(bg) is Rgb),
    {
        let fg = self.map_fg(fg);
        let bg = self.map_bg(bg);
        let fade = dim && matches!(fg, Color::Rgb(..)) && matches!(bg, Color::Rgb(..));
        (fg, bg, fade)
    }
}

/// The dark palette at full strength.
pub open spec fn dark_normal_colors() -> Palette {
    Palette {
        bg: Color::Rgb(26, 27, 38),
        fg: Color::Rgb(192, 197, 206),
        selection_bg: Color::Rgb(59, 66, 97),
        shadow: Color::Rgb(16, 16, 24),
        accent: Color::Rgb(125, 207, 255),
        ok: Color::Rgb(158, 206, 106),
        warn: Color::Rgb(224, 175, 104),
        error: Color::Rgb(247, 118, 142),
        info: Color::Rgb(187, 154, 247),
        blue: Color::Rgb(122, 162, 247),
        muted: Color::Rgb(160, 168, 189),
        faint: Color::Rgb(86, 95, 137),
        bright: Color::Rgb(230, 233, 240),
        accent_deep: Color::Rgb(125, 207, 255),
    }
}

/// The dark palette at full strength.
pub fn dark_normal() -> (res: Palette)
    ensures
        res == dark_normal_colors(),
{
    Palette {
        bg: Color::Rgb(26, 27, 38),
        fg: Color::Rgb(192, 197, 206),
        selection_bg: Color::Rgb(59, 66, 97),
        shadow: Color::Rgb(16, 16, 24),
        accent: Color::Rgb(125, 207, 255),
        ok: Color::Rgb(158, 206, 106),
        warn: Color::Rgb(224, 175, 104),
        error: Color::Rgb(247, 118, 142),
        info: Color::Rgb(187, 154, 247),
        blue: Color::Rgb(122, 162, 247),
        muted: Color::Rgb(160, 168, 189),
        faint: Color::Rgb(86, 95, 137),
        bright: Color::Rgb(230, 233, 240),
        accent_deep: Color::Rgb(125, 207, 255),
    }
}

/// The softened dark palette.
pub open spec fn dark_soft_colors() -> Palette {
    Palette {
        bg: Color::Rgb(35, 37, 48),
        fg: Color::Rgb(170, 176, 189),
        selection_bg: Color::Rgb(62, 66, 84),
        shadow: Color::Rgb(27, 29, 38),
        accent: Color::Rgb(108, 178, 209),
        ok: Color::Rgb(143, 174, 115),
        warn: Color::Rgb(201, 167, 109),
        error: Color::Rgb(211, 128, 143),
        info: Color::Rgb(169, 149, 214),
        blue: Color::Rgb(126, 152, 207),
        muted: Color::Rgb(139, 146, 168),
        faint: Color::Rgb(92, 99, 120),
        bright: Color::Rgb(201, 205, 217),
        accent_deep: Color::Rgb(108, 178, 209),
    }
}

/// The softened dark palette.
pub fn dark_soft() -> (res: Palette)
    ensures
        res == dark_soft_colors(),
{
    Palette {
        bg: Color::Rgb(35, 37, 48),
        fg: Color::Rgb(170, 176, 189),
        selection_bg: Color::Rgb(62, 66, 84),
        shadow: Color::Rgb(27, 29, 38),
        accent: Color::Rgb(108, 178, 209),
        ok: Color::Rgb(143, 174, 115),
        warn: Color::Rgb(201, 167, 109),
        error: Color::Rgb(211, 128, 143),
        info: Color::Rgb(169, 149, 214),
        blue: Color::Rgb(126, 152, 207),
        muted: Color::Rgb(139, 146, 168),
        faint: Color::Rgb(92, 99, 120),
        bright: Color::Rgb(201, 205, 217),
        accent_deep: Color::Rgb(108, 178, 209),
    }
}

/// The light palette at full strength.
pub open spec fn light_normal_colors() -> Palette {
    Palette {
        bg: Color::Rgb(245, 246, 248),
        fg: Color::Rgb(40, 42, 48),
        selection_bg: Color::Rgb(212, 214, 228),
        shadow: Color::Rgb(200, 202, 212),
        accent: Color::Rgb(0, 138, 173),
        ok: Color::Rgb(26, 127, 55),
        warn: Color::Rgb(140, 108, 62),
        error: Color::Rgb(207, 34, 46),
        info: Color::Rgb(120, 71, 189),
        blue: Color::Rgb(59, 130, 246),
        muted: Color::Rgb(94, 100, 115),
        faint: Color::Rgb(157, 163, 178),
        bright: Color::Rgb(14, 16, 20),
        accent_deep: Color::Rgb(0, 96, 122),
    }
}

/// The light palette at full strength.
pub fn light_normal() -> (res: Palette)
    ensures
        res == light_normal_colors(),
{
    Palette {
        bg: Color::Rgb(245, 246, 248),
        fg: Color::Rgb(40, 42, 48),
        selection_bg: Color::Rgb(212, 214, 228),
        shadow: Color::Rgb(200, 202, 212),
        accent: Color::Rgb(0, 138, 173),
        ok: Color::Rgb(26, 127, 55),
        warn: Color::Rgb(140, 108, 62),
        error: Color::Rgb(207, 34, 46),
        info: Color::Rgb(120, 71, 189),
        blue: Color::Rgb(59, 130, 246),
        muted: Color::Rgb(94, 100, 115),
        faint: Color::Rgb(157, 163, 178),
        bright: Color::Rgb(14, 16, 20),
        accent_deep: Color::Rgb(0, 96, 122),
    }
}

/// The softened light palette.
pub open spec fn light_soft_colors() -> Palette {
    Palette {
        bg: Color::Rgb(235, 237, 240),
        fg: Color::Rgb(75, 80, 92),
        selection_bg: Color::Rgb(215, 218, 226),
        shadow: Color::Rgb(197, 200, 209),
        accent: Color::Rgb(38, 148, 178),
        ok: Color::Rgb(45, 138, 75),
        warn: Color::Rgb(153, 121, 74),
        error: Color::Rgb(196, 66, 78),
        info: Color::Rgb(138, 104, 184),
        blue: Color::Rgb(86, 138, 222),
        muted: Color::Rgb(111, 116, 128),
        faint: Color::Rgb(166, 171, 182),
        bright: Color::Rgb(42, 46, 56),
        accent_deep: Color::Rgb(31, 104, 126),
    }
}

/// The softened light palette.
pub fn light_soft() -> (res: Palette)
    ensures
        res == light_soft_colors(),
{
    Palette {
        bg: Color::Rgb(235, 237, 240),
        fg: Color::Rgb(75, 80, 92),
        selection_bg: Color::Rgb(215, 218, 226),
        shadow: Color::Rgb(197, 200, 209),
        accent: Color::Rgb(38, 148, 178),
        ok: Color::Rgb(45, 138, 75),
        warn: Color::Rgb(153, 121, 74),
        error: Color::Rgb(196, 66, 78),
        info: Color::Rgb(138, 104, 184),
        blue: Color::Rgb(86, 138, 222),
        muted: Color::Rgb(111, 116, 128),
        faint: Color::Rgb(166, 171, 182),
        bright: Color::Rgb(42, 46, 56),
        accent_deep: Color::Rgb(31, 104, 126),
    }
}

/// The base (normal vs soft) palette for a resolved dark/light mode — the source for one axis.
pub open spec fn base_colors(dark: bool, soft: bool) -> Palette {
    match (dark, soft) {
        (true, false) => dark_normal_colors(),
        (true, true) => dark_soft_colors(),
        (false, false) => light_normal_colors(),
        (false, true) => light_soft_colors(),
    }
}

fn base(dark: bool, soft: bool) -> (res: Palette)
    ensures
        res == base_colors(dark, soft),
{
    match (dark, soft) {
        (true, false) => dark_normal(),
        (true, true) => dark_soft(),
        (false, false) => light_normal(),
        (false, true) => light_soft(),
    }
}

/// The palette composed from two independent axes: `Background` picks the surface tones,
/// `Contrast` picks the text, accent and semantic colors.
pub open spec fn composed(dark: bool, background: Background, contrast: Contrast) -> Palette {
    let surface = base_colors(dark, background is Soft);
    Palette {
        bg: if background is Terminal {
            Color::Reset
        } else {
            surface.bg
        },
        selection_bg: surface.selection_bg,
        shadow: surface.shadow,
        ..base_colors(dark, contrast is Soft)
    }
}

/// Compose a palette from two independent axes: `Background` picks the surface tones
/// (`bg`/`selection_bg`/`shadow`), `Contrast` picks the text + accent + semantic colors.
/// When both axes agree this reproduces one of the four base palettes exactly. `Terminal`
/// leaves `bg` as `Color::Reset` so the terminal's own background shows through (the row-selection
/// and modal-shadow surfaces still get a tone, from the normal base, so they stay visible).
pub fn palette(dark: bool, background: Background, contrast: Contrast) -> (res: Palette)
    ensures
        res == composed(dark, background, contrast),
{
    let surface = base(dark, background == Background::Soft);
    let mut res = base(dark, contrast == Contrast::Soft);
    res.bg = if background == Background::Terminal {
        Color::Reset
    } else {
        surface.bg
    };
    res.selection_bg = surface.selection_bg;
    res.shadow = surface.shadow;
    res
}

/// Where both axes agree, the composed palette is one of the base palettes.
pub proof fn law_equal_axes_give_a_base_palette(dark: bool)
    ensures
        composed(dark, Background::Normal, Contrast::Normal) == base_colors(dark, false),
        composed(dark, Background::Soft, Contrast::Soft) == base_colors(dark, true),
{
}

/// The two axes are independent: the contrast does not touch the surface tones, and the
/// background does not touch the other colors.
pub proof fn law_axes_are_independent(
    dark: bool,
    background: Background,
    contrast: Contrast,
    other_background: Background,
    other_contrast: Contrast,
)
    ensures
        ({
            let here = composed(dark, background, contrast);
            let recolored = composed(dark, background, other_contrast);
            &&& here.bg == recolored.bg
            &&& here.selection_bg == recolored.selection_bg
            &&& here.shadow == recolored.shadow
        }),
        ({
            let here = composed(dark, background, contrast);
            let moved = composed(dark, other_background, contrast);
            moved == (Palette {
                bg: moved.bg,
                selection_bg: moved.selection_bg,
                shadow: moved.shadow,
                ..here
            })
        }),
{
}

/// In every palette but one over the terminal's own background, every ANSI color is drawn as an
/// RGB color, so that the screen looks the same in every terminal.
pub proof fn law_every_named_color_is_rgb(
    dark: bool,
    background: Background,
    contrast: Contrast,
    color: Color,
)
    requires
        background !is Terminal,
        color !is Indexed,
    ensures
        composed(dark, background, contrast).fg_of(color) is Rgb,
        composed(dark, background, contrast).bg_of(color) is Rgb,
{
}

/// Selected rows stand out from dim text in every palette.
pub proof fn law_selection_differs_from_faint_text(
    dark: bool,
    background: Background,
    contrast: Contrast,
)
    ensures
        composed(dark, background, contrast).bg_of(Color::DarkGray) != composed(
            dark,
            background,
            contrast,
        ).fg_of(Color::DarkGray),
{
}

impl AppState {
    /// Whether the dark palettes apply: the theme says so, or for `Auto` the terminal does.
    pub open spec fn is_dark(self) -> bool {
        match self.prefs.theme {
            Theme::Auto => self.notices.auto_dark,
            Theme::Dark => true,
            Theme::Light => false,
        }
    }

    /// The palette of the current theme, background and contrast.
    pub fn palette(&self) -> (res: Palette)
        ensures
            res == composed(self.is_dark(), self.prefs.background, self.prefs.contrast),
    {
        let dark = match self.prefs.theme {
            Theme::Auto => self.notices.auto_dark,
            Theme::Dark => true,
            Theme::Light => false,
        };
        palette(dark, self.prefs.background, self.prefs.contrast)
    }
}

// ---- detection ----

/// The background color index of a `COLORFGBG` value: its last segment.
pub open spec fn background_index(raw: Seq<char>) -> Option<nat> {
    parsed(trimmed(pieces(raw, Separator::One(';')).last()), 255)
}

/// What a `COLORFGBG` value says: 0-6 and 8 are dark.
pub open spec fn colorfgbg_says(raw: Seq<char>) -> Option<bool> {
    match background_index(raw) {
        Some(index) => Some(index <= 6 || index == 8),
        None => None,
    }
}

/// Parse a `COLORFGBG` value ("15;0" or "15;default;0") — the last segment is the background
/// color index: 0-6 and 8 are dark, 7 and 9-15 are light.
pub fn colorfgbg_dark(raw: &str) -> (res: Option<bool>)
    ensures
        res == colorfgbg_says(raw@),
{
    let parts = split(raw, Separator::One(';'));
    let last: usize = parts.len() - 1;
    assert(parts.deep_view()[last as int] == parts@[last as int]@);
    let segment = trim(parts[last].as_str());
    match parse_number(segment.as_str(), 255) {
        Some(index) => Some(index <= 6 || index == 8),
        None => None,
    }
}

/// The first line from `from` on that holds a text.
pub open spec fn line_with(lines: Seq<Seq<char>>, needle: Seq<char>, from: int) -> Option<Seq<char>>
    decreases lines.len() - from,
{
    if from < 0 || from >= lines.len() {
        None
    } else if has_text(lines[from], needle) {
        Some(lines[from])
    } else {
        line_with(lines, needle, from + 1)
    }
}

/// What the output of `reg.exe query` says: the last word of the value's line is `0x0` for dark
/// and `0x1` for light.
pub open spec fn reg_says(output: Seq<char>) -> Option<bool> {
    match line_with(text_lines(output), "AppsUseLightTheme"@, 0) {
        Some(line) => {
            let words = nonempty(pieces(line, Separator::Space));
            if words.len() == 0 {
                None
            } else if words.last() == "0x0"@ {
                Some(true)
            } else if words.last() == "0x1"@ {
                Some(false)
            } else {
                None
            }
        },
        None => None,
    }
}

/// Parse `reg.exe query` output: `AppsUseLightTheme REG_DWORD 0x1` → light (not dark).
pub fn reg_output_dark(output: &str) -> (res: Option<bool>)
    ensures
        res == reg_says(output@),
{
    let lines = lines_of(output);
    let ghost all = lines.deep_view();
    let mut i: usize = 0;
    while i < lines.len()
        invariant
            i <= lines@.len(),
            all == lines.deep_view(),
            all == text_lines(output@),
            line_with(all, "AppsUseLightTheme"@, 0) == line_with(
                all,
                "AppsUseLightTheme"@,
                i as int,
            ),
        decreases lines@.len() - i,
    {
        assert(all[i as int] == lines@[i as int]@);
        if contains(lines[i].as_str(), "AppsUseLightTheme") {
            let words = split_nonempty(lines[i].as_str(), Separator::Space);
            assert(words@.len() == words.deep_view().len());
            if words.len() == 0 {
                return None;
            }
            let last: usize = words.len() - 1;
            assert(words.deep_view().last() == words@[last as int]@);
            if same(words[last].as_str(), "0x0") {
                return Some(true);
            }
            if same(words[last].as_str(), "0x1") {
                return Some(false);
            }
            return None;
        }
        i += 1;
    }
    None
}

/// What the macOS appearance setting says: `defaults read` prints "Dark" in dark mode and fails
/// in light mode.
pub fn appearance_dark(success: bool, stdout: &str) -> (res: bool)
    ensures
        res == (success && has_text(stdout@, "Dark"@)),
{
    success && contains(stdout, "Dark")
}

/// What the sources that leave the terminal alone say, in order: `COLORFGBG`, the Windows
/// setting (the output of `reg.exe`), the macOS setting.
pub open spec fn runtime_says(
    colorfgbg: Option<String>,
    reg_output: Option<String>,
    appearance: Option<bool>,
) -> Option<bool> {
    let first = match colorfgbg {
        Some(raw) => colorfgbg_says(raw@),
        None => None,
    };
    let second = match reg_output {
        Some(output) => reg_says(output@),
        None => None,
    };
    if first is Some {
        first
    } else if second is Some {
        second
    } else {
        appearance
    }
}

/// Re-detect dark/light at runtime from the sources that leave the terminal alone. `None` when
/// none of them applies.
pub fn detect_dark_background_runtime(
    colorfgbg: &Option<String>,
    reg_output: &Option<String>,
    appearance: Option<bool>,
) -> (res: Option<bool>)
    ensures
        res == runtime_says(*colorfgbg, *reg_output, appearance),
{
    let first = match colorfgbg {
        Some(raw) => colorfgbg_dark(raw.as_str()),
        None => None,
    };
    if first.is_some() {
        return first;
    }
    let second = match reg_output {
        Some(output) => reg_output_dark(output.as_str()),
        None => None,
    };
    if second.is_some() {
        return second;
    }
    appearance
}

/// Whether the terminal background is dark, for the Auto theme: what the terminal itself
/// answered, else what the other sources say, else dark.
pub fn detect_dark_background(
    answered: Option<bool>,
    colorfgbg: &Option<String>,
    reg_output: &Option<String>,
    appearance: Option<bool>,
) -> (res: bool)
    ensures
        res == (match answered {
            Some(dark) => dark,
            None => match runtime_says(*colorfgbg, *reg_output, appearance) {
                Some(dark) => dark,
                None => true,
            },
        }),
{
    match answered {
        Some(dark) => dark,
        None => match detect_dark_background_runtime(colorfgbg, reg_output, appearance) {
            Some(dark) => dark,
            None => true,
        },
    }
}

// ---- what decides the colors ----

/// The theme decides whether the screen is dark; only where it is automatic the terminal does.
pub proof fn law_what_is_dark(app: AppState)
    ensures
        app.prefs.theme is Dark ==> app.is_dark(),
        app.prefs.theme is Light ==> !app.is_dark(),
        app.prefs.theme is Auto ==> app.is_dark() == app.notices.auto_dark,
{
}

/// What tells whether the terminal is dark, in this order: its own word, the setting of the
/// desktop, its appearance. The first that says anything decides.
pub proof fn law_first_word_decides(
    colorfgbg: Option<String>,
    reg_output: Option<String>,
    appearance: Option<bool>,
)
    ensures
        colorfgbg is Some && colorfgbg_says(colorfgbg->0@) is Some ==> runtime_says(
            colorfgbg,
            reg_output,
            appearance,
        ) == colorfgbg_says(colorfgbg->0@),
        (colorfgbg is None || colorfgbg_says(colorfgbg->0@) is None) && reg_output is Some
            && reg_says(reg_output->0@) is Some ==> runtime_says(colorfgbg, reg_output, appearance)
            == reg_says(reg_output->0@),
        (colorfgbg is None || colorfgbg_says(colorfgbg->0@) is None) && (reg_output is None
            || reg_says(reg_output->0@) is None) ==> runtime_says(colorfgbg, reg_output, appearance)
            == appearance,
{
}

/// A background is dark if it is one of the dark colors of a terminal, the bright black among
/// them.
pub proof fn law_dark_backgrounds(raw: Seq<char>)
    ensures
        background_index(raw) matches Some(n) ==> (colorfgbg_says(raw) == Some(true) <==> n <= 6 || n
            == 8) && (colorfgbg_says(raw) == Some(false) <==> n == 7 || n > 8),
        background_index(raw) is None ==> colorfgbg_says(raw) is None,
{
}

/// What each color of the screen stands for in a palette.
pub proof fn law_roles_of_colors(palette: Palette)
    ensures
        palette.fg_of(Color::Reset) == palette.fg && palette.bg_of(Color::Reset) == palette.bg,
        palette.fg_of(Color::Cyan) == palette.accent,
        palette.fg_of(Color::LightCyan) == palette.accent_deep,
        palette.fg_of(Color::Green) == palette.ok && palette.fg_of(Color::LightGreen)
            == palette.ok,
        palette.fg_of(Color::Yellow) == palette.warn && palette.fg_of(Color::LightYellow)
            == palette.warn,
        palette.fg_of(Color::Red) == palette.error && palette.fg_of(Color::LightRed)
            == palette.error,
        palette.fg_of(Color::Magenta) == palette.info && palette.fg_of(Color::LightMagenta)
            == palette.info,
        palette.fg_of(Color::Blue) == palette.blue && palette.fg_of(Color::LightBlue)
            == palette.blue,
        palette.fg_of(Color::Gray) == palette.muted && palette.fg_of(Color::DarkGray)
            == palette.faint,
        palette.fg_of(Color::White) == palette.bright && palette.fg_of(Color::Black) == palette.bg,
        palette.bg_of(Color::DarkGray) == palette.selection_bg && palette.bg_of(Color::Black)
            == palette.shadow,
{
}

} // verus!
