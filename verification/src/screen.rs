//! What the screen shows, as plain values: colors, styles, styled text and areas.

use vstd::prelude::*;
use vstd::string::*;

verus! {

/// A terminal color.
#[derive(Debug, Clone, Copy, PartialEq, Eq, Structural)]
pub enum Color {
    Reset,
    Black,
    Red,
    Green,
    Yellow,
    Blue,
    Magenta,
    Cyan,
    Gray,
    DarkGray,
    LightRed,
    LightGreen,
    LightYellow,
    LightBlue,
    LightMagenta,
    LightCyan,
    White,
    Rgb(u8, u8, u8),
    Indexed(u8),
}

/// How a piece of text is drawn.
#[derive(Debug, Clone, Copy, PartialEq, Eq, Structural)]
pub struct Style {
    pub fg: Option<Color>,
    pub bg: Option<Color>,
    pub bold: bool,
    pub dim: bool,
    pub italic: bool,
    pub underlined: bool,
    pub reversed: bool,
}

/// The style that changes nothing.
pub open spec fn plain_style() -> Style {
    Style {
        fg: None,
        bg: None,
        bold: false,
        dim: false,
        italic: false,
        underlined: false,
        reversed: false,
    }
}

/// The style that only sets the foreground.
pub open spec fn colored(color: Color) -> Style {
    Style { fg: Some(color), ..plain_style() }
}

/// A style in bold.
pub open spec fn in_bold(style: Style) -> Style {
    Style { bold: true, ..style }
}

/// A style in italics.
pub open spec fn in_italic(style: Style) -> Style {
    Style { italic: true, ..style }
}

/// A style underlined.
pub open spec fn in_underline(style: Style) -> Style {
    Style { underlined: true, ..style }
}

impl Style {
    /// The style that changes nothing.
    pub fn plain() -> (res: Style)
        ensures
            res == plain_style(),
    {
        Style {
            fg: None,
            bg: None,
            bold: false,
            dim: false,
            italic: false,
            underlined: false,
            reversed: false,
        }
    }

    /// The style that only sets the foreground.
    pub fn color(color: Color) -> (res: Style)
        ensures
            res == colored(color),
    {
        Style {
            fg: Some(color),
            bg: None,
            bold: false,
            dim: false,
            italic: false,
            underlined: false,
            reversed: false,
        }
    }

    /// This style with the given foreground.
    pub fn with_fg(self, color: Color) -> (res: Style)
        ensures
            res == (Style { fg: Some(color), ..self }),
    {
        let mut style = self;
        style.fg = Some(color);
        style
    }

    /// This style with the given background.
    pub fn with_bg(self, color: Color) -> (res: Style)
        ensures
            res == (Style { bg: Some(color), ..self }),
    {
        let mut style = self;
        style.bg = Some(color);
        style
    }

    /// This style in bold.
    pub fn with_bold(self) -> (res: Style)
        ensures
            res == (Style { bold: true, ..self }),
    {
        let mut style = self;
        style.bold = true;
        style
    }

    /// This style dimmed.
    pub fn with_dim(self) -> (res: Style)
        ensures
            res == (Style { dim: true, ..self }),
    {
        let mut style = self;
        style.dim = true;
        style
    }

    /// This style in italics.
    pub fn with_italic(self) -> (res: Style)
        ensures
            res == (Style { italic: true, ..self }),
    {
        let mut style = self;
        style.italic = true;
        style
    }

    /// This style underlined.
    pub fn with_underline(self) -> (res: Style)
        ensures
            res == (Style { underlined: true, ..self }),
    {
        let mut style = self;
        style.underlined = true;
        style
    }
}

/// A piece of text in one style.
#[derive(Debug, Clone)]
pub struct Span {
    pub content: String,
    pub style: Style,
}

/// What a span shows: its characters and their style.
pub type SpanView = (Seq<char>, Style);

impl DeepView for Span {
    type V = SpanView;

    open spec fn deep_view(&self) -> SpanView {
        (self.content@, self.style)
    }
}

impl Span {
    /// A piece of text in one style.
    pub fn new(content: &str, style: Style) -> (res: Span)
        ensures
            res.deep_view() == (content@, style),
    {
        Span { content: content.to_owned(), style }
    }
}

/// One line of styled text.
#[derive(Debug, Clone)]
pub struct Line {
    pub spans: Vec<Span>,
}

impl View for Line {
    type V = Seq<SpanView>;

    open spec fn view(&self) -> Seq<SpanView> {
        self.spans.deep_view()
    }
}

/// A line that shows nothing.
pub open spec fn blank_line() -> Seq<SpanView> {
    Seq::empty()
}

/// A line with one piece of text.
pub open spec fn one_span(content: Seq<char>, style: Style) -> Seq<SpanView> {
    Seq::<SpanView>::empty().push((content, style))
}

impl Line {
    /// A line that shows nothing.
    pub fn new() -> (res: Line)
        ensures
            res@ == blank_line(),
    {
        let res = Line { spans: Vec::new() };
        assert(res@ =~= blank_line());
        res
    }

    /// A line with one piece of text.
    pub fn of(content: &str, style: Style) -> (res: Line)
        ensures
            res@ == one_span(content@, style),
    {
        let mut line = Line::new();
        line.push(content, style);
        line
    }

    /// Appends a piece of text.
    pub fn push(&mut self, content: &str, style: Style)
        ensures
            final(self)@ == old(self)@.push((content@, style)),
    {
        let ghost before = self@;
        self.spans.push(Span::new(content, style));
        assert(self@ =~= before.push((content@, style)));
    }

    /// Appends another line's pieces.
    pub fn extend(&mut self, other: Line)
        ensures
            final(self)@ == old(self)@ + other@,
    {
        let ghost before = self@;
        let ghost added = other@;
        let mut tail = other.spans;
        self.spans.append(&mut tail);
        assert(self@ =~= before + added);
    }
}

impl Line {
    /// Appends a copy of another line's pieces.
    pub fn extend_from(&mut self, other: &Line)
        ensures
            final(self)@ == old(self)@ + other@,
    {
        let ghost before = self@;
        let mut i: usize = 0;
        while i < other.spans.len()
            invariant
                i <= other.spans@.len(),
                self@ =~= before + other@.take(i as int),
            decreases other.spans@.len() - i,
        {
            self.push(other.spans[i].content.as_str(), other.spans[i].style);
            i += 1;
        }
        assert(other@.take(other@.len() as int) =~= other@);
    }
}

/// A piece of text in reversed colors.
pub open spec fn reversed(span: SpanView) -> SpanView {
    (span.0, Style { reversed: true, ..span.1 })
}

/// Pieces of text, in reversed colors where they are to stand out.
pub open spec fn lit(spans: Seq<SpanView>, on: bool) -> Seq<SpanView> {
    if on {
        spans.map_values(|span: SpanView| reversed(span))
    } else {
        spans
    }
}

impl Line {
    /// The line, in reversed colors where it is to stand out.
    pub fn light(self, on: bool) -> (res: Line)
        ensures
            res@ == lit(self@, on),
    {
        if !on {
            return self;
        }
        let mut line = Line::new();
        let mut i: usize = 0;
        assert(line@ =~= self@.take(0).map_values(|span: SpanView| reversed(span)));
        while i < self.spans.len()
            invariant
                i <= self.spans@.len(),
                line@ == self@.take(i as int).map_values(|span: SpanView| reversed(span)),
            decreases self.spans@.len() - i,
        {
            let span = &self.spans[i];
            let style = Style { reversed: true, ..span.style };
            let ghost before = line@;
            line.push(span.content.as_str(), style);
            assert(self@[i as int] == span.deep_view());
            assert(line@ =~= before.push(reversed(self@[i as int])));
            assert(self@.take(i + 1) =~= self@.take(i as int).push(self@[i as int]));
            assert(line@ =~= self@.take(i + 1).map_values(|span: SpanView| reversed(span)));
            i += 1;
        }
        assert(self@.take(i as int) =~= self@);
        line
    }
}

/// Several lines of styled text.
#[derive(Debug, Clone)]
pub struct Lines {
    pub lines: Vec<Line>,
}

impl View for Lines {
    type V = Seq<Seq<SpanView>>;

    open spec fn view(&self) -> Seq<Seq<SpanView>> {
        Seq::new(self.lines@.len(), |i: int| self.lines@[i]@)
    }
}

/// No lines.
pub open spec fn no_lines() -> Seq<Seq<SpanView>> {
    Seq::empty()
}

impl Lines {
    /// No lines.
    pub fn new() -> (res: Lines)
        ensures
            res@ == no_lines(),
    {
        let res = Lines { lines: Vec::new() };
        assert(res@ =~= no_lines());
        res
    }

    /// Appends a line.
    pub fn push(&mut self, line: Line)
        ensures
            final(self)@ == old(self)@.push(line@),
    {
        let ghost before = self@;
        self.lines.push(line);
        assert(self@ =~= before.push(line@));
    }

    /// Appends other lines.
    pub fn extend(&mut self, other: Lines)
        ensures
            final(self)@ == old(self)@ + other@,
    {
        let ghost before = self@;
        let ghost added = other@;
        let mut tail = other.lines;
        self.lines.append(&mut tail);
        assert(self@ =~= before + added);
    }

    /// The number of lines.
    pub fn len(&self) -> (res: usize)
        ensures
            res == self@.len(),
    {
        self.lines.len()
    }
}

/// A rectangle of cells.
#[derive(Debug, Clone, Copy, PartialEq, Eq, Structural)]
pub struct Rect {
    pub x: u16,
    pub y: u16,
    pub width: u16,
    pub height: u16,
}

/// The rectangle without cells at the origin.
pub open spec fn empty_rect() -> Rect {
    Rect { x: 0, y: 0, width: 0, height: 0 }
}

impl Rect {
    /// The rectangle without cells at the origin.
    pub fn empty() -> (res: Rect)
        ensures
            res == empty_rect(),
    {
        Rect { x: 0, y: 0, width: 0, height: 0 }
    }

    /// Whether a cell lies in the rectangle.
    pub open spec fn holds(self, col: int, row: int) -> bool {
        self.x <= col < self.x + self.width && self.y <= row < self.y + self.height
    }

    /// Whether the far edges of the rectangle can be addressed.
    pub open spec fn addressable(self) -> bool {
        self.x + self.width <= u16::MAX && self.y + self.height <= u16::MAX
    }
}

/// Whether a cell lies in a rectangle.
pub fn point_in(area: Rect, col: u16, row: u16) -> (res: bool)
    ensures
        res == area.holds(col as int, row as int),
{
    area.x <= col && (col as u32) < area.x as u32 + area.width as u32 && area.y <= row && (
    row as u32) < area.y as u32 + area.height as u32
}

/// A column or row further on, as far as one can be addressed.
pub open spec fn across(from: u16, by: int) -> u16 {
    if from + by > u16::MAX {
        u16::MAX
    } else {
        (from + by) as u16
    }
}

/// A column or row further on, as far as one can be addressed.
pub fn step_across(from: u16, by: u16) -> (res: u16)
    ensures
        res == across(from, by as int),
{
    if by > u16::MAX - from {
        u16::MAX
    } else {
        from + by
    }
}

/// What is left of a number of cells without some of them.
pub open spec fn less(from: int, by: int) -> int {
    if by < from {
        from - by
    } else {
        0
    }
}

/// What is left of a number of cells without some of them.
pub fn cells_less(from: u16, by: u16) -> (res: u16)
    ensures
        res == less(from as int, by as int),
{
    if by < from {
        from - by
    } else {
        0
    }
}

/// A number as a row or column of the screen.
pub open spec fn capped(n: int) -> u16 {
    if n > u16::MAX {
        u16::MAX
    } else {
        n as u16
    }
}

/// A number as a row or column of the screen.
pub fn cap(n: usize) -> (res: u16)
    ensures
        res == capped(n as int),
{
    if n > u16::MAX as usize {
        u16::MAX
    } else {
        n as u16
    }
}

/// The smaller of two numbers.
pub open spec fn least(a: int, b: int) -> int {
    if a < b {
        a
    } else {
        b
    }
}

/// The larger of two numbers.
pub open spec fn most(a: int, b: int) -> int {
    if a < b {
        b
    } else {
        a
    }
}

/// The inside of a bordered panel: one cell less at each edge, and one more with padding.
pub open spec fn inside(area: Rect, padded: bool) -> Rect {
    let by: int = if padded {
        2
    } else {
        1
    };
    Rect {
        x: if padded {
            across(
                if area.width == 0 {
                    area.x
                } else {
                    across(area.x, 1)
                },
                1,
            )
        } else if area.width == 0 {
            area.x
        } else {
            across(area.x, 1)
        },
        y: if padded {
            across(
                if area.height == 0 {
                    area.y
                } else {
                    across(area.y, 1)
                },
                1,
            )
        } else if area.height == 0 {
            area.y
        } else {
            across(area.y, 1)
        },
        width: less(area.width as int, 2 * by) as u16,
        height: less(area.height as int, 2 * by) as u16,
    }
}

/// The inside of a bordered panel.
pub fn inside_of(area: Rect, padded: bool) -> (res: Rect)
    ensures
        res == inside(area, padded),
{
    let by: u16 = if padded {
        2
    } else {
        1
    };
    let x: u16 = if area.width == 0 {
        area.x
    } else {
        step_across(area.x, 1)
    };
    let y: u16 = if area.height == 0 {
        area.y
    } else {
        step_across(area.y, 1)
    };
    Rect {
        x: if padded {
            step_across(x, 1)
        } else {
            x
        },
        y: if padded {
            step_across(y, 1)
        } else {
            y
        },
        width: cells_less(area.width, 2 * by),
        height: cells_less(area.height, 2 * by),
    }
}

/// A rectangle of at most the given size in the middle of another.
pub open spec fn centered(width: u16, height: u16, area: Rect) -> Rect {
    let w = least(width as int, area.width as int);
    let h = least(height as int, area.height as int);
    Rect {
        x: across(area.x, (area.width - w) / 2),
        y: across(area.y, (area.height - h) / 2),
        width: w as u16,
        height: h as u16,
    }
}

/// A centered rect of the given size within `area`.
pub fn centered_rect(width: u16, height: u16, area: Rect) -> (res: Rect)
    ensures
        res == centered(width, height, area),
{
    let w: u16 = if width < area.width {
        width
    } else {
        area.width
    };
    let h: u16 = if height < area.height {
        height
    } else {
        area.height
    };
    Rect {
        x: step_across(area.x, (area.width - w) / 2),
        y: step_across(area.y, (area.height - h) / 2),
        width: w,
        height: h,
    }
}

/// A centered rectangle lies within the area it is centered in, with the same space at both
/// sides but for one cell.
pub proof fn law_centered_rect_lies_inside(width: u16, height: u16, area: Rect)
    requires
        area.addressable(),
    ensures
        ({
            let rect = centered(width, height, area);
            &&& area.x <= rect.x
            &&& rect.x + rect.width <= area.x + area.width
            &&& area.y <= rect.y
            &&& rect.y + rect.height <= area.y + area.height
            &&& 0 <= (area.x + area.width - rect.x - rect.width) - (rect.x - area.x) <= 1
            &&& 0 <= (area.y + area.height - rect.y - rect.height) - (rect.y - area.y) <= 1
        }),
{
}

/// A clickable stretch of one row: the row, its first column and the column after
/// its last.
pub type Region = (u16, u16, u16);

/// Whether a cell lies in a region.
pub open spec fn in_region(region: Region, col: u16, row: u16) -> bool {
    row == region.0 && region.1 <= col < region.2
}

/// Whether a cell lies in the region, if there is one.
pub open spec fn hit(region: Option<Region>, col: u16, row: u16) -> bool {
    match region {
        Some(region) => in_region(region, col, row),
        None => false,
    }
}

/// Whether a cell lies in the region, if there is one.
pub fn region_hit(region: Option<Region>, col: u16, row: u16) -> (res: bool)
    ensures
        res == hit(region, col, row),
{
    match region {
        Some(region) => row == region.0 && region.1 <= col && col < region.2,
        None => false,
    }
}

/// What lies inside a box leaves its border free on every side, and one more cell where it is
/// padded.
pub proof fn law_inside_a_box(area: Rect)
    requires
        area.width >= 4,
        area.height >= 4,
        area.addressable(),
    ensures
        inside(area, false) == (Rect {
            x: (area.x + 1) as u16,
            y: (area.y + 1) as u16,
            width: (area.width - 2) as u16,
            height: (area.height - 2) as u16,
        }),
        inside(area, true) == (Rect {
            x: (area.x + 2) as u16,
            y: (area.y + 2) as u16,
            width: (area.width - 4) as u16,
            height: (area.height - 4) as u16,
        }),
{
}

/// A region is the cells of its row from its first column on, without its last.
pub proof fn law_cells_of_a_region(row: u16, from: u16, to: u16, col: u16, at: u16)
    ensures
        in_region((row, from, to), col, at) <==> at == row && from <= col && col < to,
        hit(None, col, at) == false,
        hit(Some((row, from, to)), col, at) == in_region((row, from, to), col, at),
{
}

} // verus!
