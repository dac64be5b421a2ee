//! Dividing the screen.

use vstd::prelude::*;

use crate::screen::Rect;

verus! {

/// Which way an area is divided.
#[derive(Debug, Clone, Copy, PartialEq, Eq, Structural)]
pub enum Way {
    /// One part over the other.
    Down,
    /// One part beside the other.
    Along,
}

/// How much of an area a part of it takes.
#[derive(Debug, Clone, Copy, PartialEq, Eq, Structural)]
pub enum Part {
    /// This many cells.
    Length(u16),
    /// At least this many cells.
    Min(u16),
}

/// A part spans an area across the way that the area is divided.
pub open spec fn spans_across(part: Rect, way: Way, area: Rect) -> bool {
    match way {
        Way::Down => part.x == area.x && part.width == area.width,
        Way::Along => part.y == area.y && part.height == area.height,
    }
}

/// The cells that a part asks for.
pub open spec fn asked(part: Part) -> int {
    match part {
        Part::Length(n) => n as int,
        Part::Min(n) => n as int,
    }
}

/// The cells that the first `n` parts ask for.
pub open spec fn asked_upto(parts: Seq<Part>, n: nat) -> int
    decreases n,
{
    if n == 0 || n > parts.len() {
        0
    } else {
        asked_upto(parts, (n - 1) as nat) + asked(parts[n - 1])
    }
}

/// How many of the first `n` parts can grow.
pub open spec fn growing_upto(parts: Seq<Part>, n: nat) -> nat
    decreases n,
{
    if n == 0 || n > parts.len() {
        0
    } else {
        growing_upto(parts, (n - 1) as nat) + (if parts[n - 1] is Min {
            1nat
        } else {
            0nat
        })
    }
}

/// The cells of an area along the way that it is divided.
pub open spec fn extent(way: Way, area: Rect) -> int {
    match way {
        Way::Down => area.height as int,
        Way::Along => area.width as int,
    }
}

/// The area ends within the cells that can be counted.
pub open spec fn area_ends(way: Way, area: Rect) -> bool {
    match way {
        Way::Down => area.y + area.height <= u16::MAX,
        Way::Along => area.x + area.width <= u16::MAX,
    }
}

/// Parts fit an area, and one of them takes what is left.
pub open spec fn parts_fit(way: Way, parts: Seq<Part>, area: Rect) -> bool {
    &&& growing_upto(parts, parts.len()) == 1
    &&& asked_upto(parts, parts.len()) <= extent(way, area)
    &&& area_ends(way, area)
}

/// The cells that a part gets: what it asks for, and all that is left for the one that grows.
pub open spec fn granted(way: Way, parts: Seq<Part>, area: Rect, k: int) -> int {
    match parts[k] {
        Part::Length(n) => n as int,
        Part::Min(n) => n + extent(way, area) - asked_upto(parts, parts.len()),
    }
}

/// The cells that the first `n` parts get.
pub open spec fn granted_upto(way: Way, parts: Seq<Part>, area: Rect, n: nat) -> int
    decreases n,
{
    if n == 0 || n > parts.len() {
        0
    } else {
        granted_upto(way, parts, area, (n - 1) as nat) + granted(way, parts, area, n - 1)
    }
}

/// Some cells of an area, from a distance to its start on.
pub open spec fn stretch(way: Way, area: Rect, from: int, cells: int) -> Rect {
    match way {
        Way::Down => Rect { y: (area.y + from) as u16, height: cells as u16, ..area },
        Way::Along => Rect { x: (area.x + from) as u16, width: cells as u16, ..area },
    }
}

/// A part of an area that is divided: the parts lie one after the other from its start.
pub open spec fn part_of(way: Way, parts: Seq<Part>, area: Rect, k: int) -> Rect {
    stretch(
        way,
        area,
        granted_upto(way, parts, area, k as nat),
        granted(way, parts, area, k),
    )
}

/// Calls `Layout::split` of `ratatui` with default margin, spacing and flex. There is one
/// rectangle for each part, which spans the area across the way of the split. Where the parts fit
/// and exactly one of them can grow, they lie one after the other from the start of the area,
/// each `Length` has its cells, and the `Min` has the rest. Of parts that do not fit, or of which
/// none or several can grow, it is left unsaid which of them gives way.
#[verifier::external_body]
fn split(way: Way, parts: &Vec<Part>, area: Rect) -> (res: Vec<Rect>)
    ensures
        res@.len() == parts@.len(),
        forall|i: int| 0 <= i < res@.len() ==> spans_across(#[trigger] res@[i], way, area),
        parts_fit(way, parts@, area) ==> forall|i: int|
            0 <= i < res@.len() ==> #[trigger] res@[i] == part_of(way, parts@, area, i),
{
    let direction = match way {
        Way::Down => ratatui::layout::Direction::Vertical,
        Way::Along => ratatui::layout::Direction::Horizontal,
    };
    let constraints = parts.iter().map(|part| match part {
        Part::Length(n) => ratatui::layout::Constraint::Length(*n),
        Part::Min(n) => ratatui::layout::Constraint::Min(*n),
    });
    let outer = ratatui::layout::Rect { x: area.x, y: area.y, width: area.width, height: area.height };
    let layout = ratatui::layout::Layout::default().direction(direction).constraints(constraints);
    let found = layout.split(outer);
    found.iter().map(|r| Rect { x: r.x, y: r.y, width: r.width, height: r.height }).collect()
}

/// What two parts of an area get, of which one grows.
pub proof fn lemma_two(way: Way, first: Part, second: Part, area: Rect)
    ensures
        ({
            let parts = seq![first, second];
            &&& asked_upto(parts, 2) == asked(first) + asked(second)
            &&& growing_upto(parts, 2) == 1 <==> (first is Min) != (second is Min)
            &&& granted_upto(way, parts, area, 0) == 0
            &&& granted_upto(way, parts, area, 1) == granted(way, parts, area, 0)
        }),
{
    reveal_with_fuel(asked_upto, 3);
    reveal_with_fuel(growing_upto, 3);
    reveal_with_fuel(granted_upto, 3);
}

/// What three parts of an area get, of which the last one grows.
pub proof fn lemma_three(way: Way, first: u16, second: u16, third: u16, area: Rect)
    ensures
        ({
            let parts = seq![Part::Length(first), Part::Length(second), Part::Min(third)];
            &&& asked_upto(parts, 3) == first + second + third
            &&& growing_upto(parts, 3) == 1
            &&& granted_upto(way, parts, area, 0) == 0
            &&& granted_upto(way, parts, area, 1) == first
            &&& granted_upto(way, parts, area, 2) == first + second
        }),
{
    reveal_with_fuel(asked_upto, 4);
    reveal_with_fuel(growing_upto, 4);
    reveal_with_fuel(granted_upto, 4);
}

/// Parts that fit fill the area: they get all of its cells, and none twice.
pub proof fn law_parts_fill_the_area(way: Way, parts: Seq<Part>, area: Rect)
    requires
        parts_fit(way, parts, area),
    ensures
        granted_upto(way, parts, area, parts.len()) == extent(way, area),
        forall|k: int|
            0 <= k < parts.len() ==> #[trigger] granted(way, parts, area, k) >= asked(parts[k]),
{
    lemma_granted(way, parts, area, parts.len());
}

proof fn lemma_granted(way: Way, parts: Seq<Part>, area: Rect, n: nat)
    requires
        n <= parts.len(),
        growing_upto(parts, parts.len()) <= 1,
    ensures
        growing_upto(parts, n) <= growing_upto(parts, parts.len()),
        granted_upto(way, parts, area, n) == asked_upto(parts, n) + (if growing_upto(parts, n) == 0 {
            0
        } else {
            extent(way, area) - asked_upto(parts, parts.len())
        }),
    decreases n,
{
    lemma_growing(parts, n, parts.len());
    if n > 0 {
        lemma_granted(way, parts, area, (n - 1) as nat);
    }
}

proof fn lemma_growing(parts: Seq<Part>, n: nat, m: nat)
    requires
        n <= m <= parts.len(),
    ensures
        growing_upto(parts, n) <= growing_upto(parts, m),
    decreases m,
{
    if n < m {
        lemma_growing(parts, n, (m - 1) as nat);
    }
}

/// Divides an area in two.
pub fn divide(way: Way, first: Part, second: Part, area: Rect) -> (res: (Rect, Rect))
    ensures
        spans_across(res.0, way, area),
        spans_across(res.1, way, area),
        parts_fit(way, seq![first, second], area) ==> {
            &&& res.0 == part_of(way, seq![first, second], area, 0)
            &&& res.1 == part_of(way, seq![first, second], area, 1)
        },
{
    let mut parts: Vec<Part> = Vec::new();
    parts.push(first);
    parts.push(second);
    assert(parts@ =~= seq![first, second]);
    let found = split(way, &parts, area);
    (found[0], found[1])
}

/// Divides an area in three.
pub fn divide_three(way: Way, first: Part, second: Part, third: Part, area: Rect) -> (res: (
    Rect,
    Rect,
    Rect,
))
    ensures
        spans_across(res.0, way, area),
        spans_across(res.1, way, area),
        spans_across(res.2, way, area),
        parts_fit(way, seq![first, second, third], area) ==> {
            &&& res.0 == part_of(way, seq![first, second, third], area, 0)
            &&& res.1 == part_of(way, seq![first, second, third], area, 1)
            &&& res.2 == part_of(way, seq![first, second, third], area, 2)
        },
{
    let mut parts: Vec<Part> = Vec::new();
    parts.push(first);
    parts.push(second);
    parts.push(third);
    assert(parts@ =~= seq![first, second, third]);
    let found = split(way, &parts, area);
    (found[0], found[1], found[2])
}

/// The screen above the status bar, and the status bar's three rows.
pub fn screen_rows(area: Rect) -> (res: (Rect, Rect))
    ensures
        spans_across(res.0, Way::Down, area),
        spans_across(res.1, Way::Down, area),
        area.height >= 6 && area.y + area.height <= u16::MAX ==> {
            &&& res.0 == (Rect { height: (area.height - 3) as u16, ..area })
            &&& res.1 == (Rect { y: (area.y + area.height - 3) as u16, height: 3, ..area })
        },
{
    proof {
        lemma_two(Way::Down, Part::Min(3), Part::Length(3), area);
    }
    divide(Way::Down, Part::Min(3), Part::Length(3), area)
}

/// The width of the list that is asked for, but at least one cell, and one less than there are.
pub open spec fn list_width(wanted: u16, width: u16) -> u16 {
    let most: u16 = if width > 2 {
        (width - 1) as u16
    } else {
        1
    };
    if wanted < 1 {
        1
    } else if wanted > most {
        most
    } else {
        wanted
    }
}

/// The width of the list pane: what is asked for, within the screen.
pub fn clamp_list_width(wanted: u16, width: u16) -> (res: u16)
    ensures
        res == list_width(wanted, width),
{
    let most: u16 = if width > 2 {
        width - 1
    } else {
        1
    };
    if wanted < 1 {
        1
    } else if wanted > most {
        most
    } else {
        wanted
    }
}

/// The list pane and the preview pane.
pub fn screen_panes(main: Rect, wanted: u16) -> (res: (Rect, Rect))
    ensures
        spans_across(res.0, Way::Along, main),
        spans_across(res.1, Way::Along, main),
        main.width >= 1 && main.x + main.width <= u16::MAX ==> {
            let wide = list_width(wanted, main.width);
            &&& res.0 == (Rect { width: wide, ..main })
            &&& res.1 == (Rect {
                x: (main.x + wide) as u16,
                width: (main.width - wide) as u16,
                ..main
            })
        },
{
    let wide: u16 = clamp_list_width(wanted, main.width);
    proof {
        lemma_two(Way::Along, Part::Length(wide), Part::Min(0), main);
    }
    divide(Way::Along, Part::Length(wide), Part::Min(0), main)
}

} // verus!
