//! Small pieces of styled text that the views are put together from.

use vstd::prelude::*;
use vstd::string::*;

use crate::dialogs::DiffSource;
use crate::icons::IconSet;
use crate::options::{ClickRegion, Command, DiffFocus, Gauge, ScrollHit, ScrollKind};
use crate::repo::{RepoState, RepoStatus};
use crate::screen::{
    across, blank_line, colored, in_bold, in_underline, less, one_span, plain_style, step_across,
    Color, Line, Rect, Region, SpanView, Style,
};
use crate::text::{
    cat, cat3, cat4, chars_of, copies, count_text, cut_end, decimal, join, joined, number, padded,
    pad_right, parse_number, parsed, pieces, repeat_char, split, starts, starts_with,
    strip_suffix, text_between, trim, trim_end_of, trimmed, without_suffix, Separator,
};
use crate::widths::{
    clip_spans, counted, filled, line_width, pad_display, shown_width, spans_width, spans_within,
    width_of, width_of_line,
};

verus! {

// ---- glyphs ----

/// The spinner frame of a tick: it advances every second tick.
pub open spec fn frame_of(tick: u64, icons: IconSet) -> Seq<char> {
    icons.spinner@[((tick / 2) % 4) as int]@
}

/// The spinner frame for the current render tick (advances every 2 ticks). Shared by the
/// list status glyph and the repo-page loading indicator so they animate identically.
pub fn spinner_frame(tick: u64, icons: &IconSet) -> (res: &'static str)
    ensures
        res@ == frame_of(tick, *icons),
{
    let i: usize = ((tick / 2) % 4) as usize;
    icons.spinner[i]
}

/// Spinner frames come round every eighth tick.
pub proof fn law_spinner_goes_round(tick: u64, icons: IconSet)
    requires
        tick <= u64::MAX - 8,
    ensures
        frame_of((tick + 8) as u64, icons) == frame_of(tick, icons),
{
    assert(((tick + 8) / 2) % 4 == (tick / 2) % 4) by (nonlinear_arith);
}

/// The glyph of a status.
pub open spec fn glyph_of(status: RepoStatus, tick: u64, icons: IconSet) -> Seq<char> {
    match status {
        RepoStatus::Queued => icons.queued@,
        RepoStatus::Running { .. } => frame_of(tick, icons),
        RepoStatus::UpToDate => icons.up_to_date@,
        RepoStatus::Updated => icons.updated@,
        RepoStatus::NoUpstream => icons.no_upstream@,
        RepoStatus::Skipped => icons.skipped@,
        RepoStatus::Throttled => icons.throttled@,
        RepoStatus::Failed => icons.failed@,
    }
}

/// The color of a status glyph.
pub open spec fn glyph_color(status: RepoStatus) -> Color {
    match status {
        RepoStatus::Queued => Color::DarkGray,
        RepoStatus::Running { .. } => Color::Yellow,
        RepoStatus::UpToDate => Color::Gray,
        RepoStatus::Updated => Color::Green,
        RepoStatus::NoUpstream => Color::DarkGray,
        RepoStatus::Skipped => Color::DarkGray,
        RepoStatus::Throttled => Color::Magenta,
        RepoStatus::Failed => Color::Red,
    }
}

/// The glyph of a status, in its color.
pub fn status_glyph_colored(status: &RepoStatus, tick: u64, icons: &IconSet) -> (res: (
    &'static str,
    Style,
))
    ensures
        res.0@ == glyph_of(*status, tick, *icons),
        res.1 == colored(glyph_color(*status)),
{
    match status {
        RepoStatus::Queued => (icons.queued, Style::color(Color::DarkGray)),
        RepoStatus::Running { .. } => (spinner_frame(tick, icons), Style::color(Color::Yellow)),
        RepoStatus::UpToDate => (icons.up_to_date, Style::color(Color::Gray)),
        RepoStatus::Updated => (icons.updated, Style::color(Color::Green)),
        RepoStatus::NoUpstream => (icons.no_upstream, Style::color(Color::DarkGray)),
        RepoStatus::Skipped => (icons.skipped, Style::color(Color::DarkGray)),
        RepoStatus::Throttled => (icons.throttled, Style::color(Color::Magenta)),
        RepoStatus::Failed => (icons.failed, Style::color(Color::Red)),
    }
}

/// The label of a status.
pub open spec fn label_of(status: RepoStatus) -> Seq<char> {
    match status {
        RepoStatus::Queued => "queued"@,
        RepoStatus::Running { .. } => "running"@,
        RepoStatus::UpToDate => "up-to-date"@,
        RepoStatus::Updated => "updated"@,
        RepoStatus::NoUpstream => "no upstream"@,
        RepoStatus::Skipped => "skipped"@,
        RepoStatus::Throttled => "throttled"@,
        RepoStatus::Failed => "failed"@,
    }
}

/// Human-readable label for a repo's status.
pub fn status_label(status: &RepoStatus) -> (res: &'static str)
    ensures
        res@ == label_of(*status),
{
    match status {
        RepoStatus::Queued => "queued",
        RepoStatus::Running { .. } => "running",
        RepoStatus::UpToDate => "up-to-date",
        RepoStatus::Updated => "updated",
        RepoStatus::NoUpstream => "no upstream",
        RepoStatus::Skipped => "skipped",
        RepoStatus::Throttled => "throttled",
        RepoStatus::Failed => "failed",
    }
}

/// The border style of a main pane.
pub open spec fn border_of(active: bool) -> Style {
    colored(
        if active {
            Color::Cyan
        } else {
            Color::DarkGray
        },
    )
}

/// Border color for a main pane: a bright accent when it's the focused pane, dim otherwise.
pub fn pane_border_style(active: bool) -> (res: Style)
    ensures
        res == border_of(active),
{
    if active {
        Style::color(Color::Cyan)
    } else {
        Style::color(Color::DarkGray)
    }
}

// ---- count cells ----

/// The text of a count cell, and whether it is dim.
pub open spec fn count_shown(glyph: Seq<char>, count: Option<u32>) -> (Seq<char>, bool) {
    match count {
        None => ("…"@, true),
        Some(n) => (glyph + decimal(n as nat), n == 0),
    }
}

/// Tri-state text for a count cell, plus whether it should render dim. `None` = still loading
/// (`…`); `Some(0)` = a dim `{glyph}0` (visible zero, not a blank); `Some(n)` = `{glyph}n`.
pub fn count_cell_text(glyph: &str, count: Option<u32>) -> (res: (String, bool))
    ensures
        (res.0@, res.1) == count_shown(glyph@, count),
{
    match count {
        None => ("…".to_owned(), true),
        Some(n) => (cat(glyph, number(n as u64).as_str()), n == 0),
    }
}

/// A padded count cell: colored when positive, dim gray when zero or still loading.
pub open spec fn count_span(glyph: Seq<char>, count: Option<u32>, width: usize, color: Color) -> SpanView {
    let (text, dim) = count_shown(glyph, count);
    (
        " "@ + filled(text, width),
        colored(
            if dim {
                Color::DarkGray
            } else {
                color
            },
        ),
    )
}

/// Appends a padded count cell: `color` when positive, dim gray when zero or still loading.
pub fn count_cell(line: &mut Line, glyph: &str, count: Option<u32>, width: usize, color: Color)
    ensures
        final(line)@ == old(line)@.push(count_span(glyph@, count, width, color)),
{
    let (text, dim) = count_cell_text(glyph, count);
    let shade = if dim {
        Color::DarkGray
    } else {
        color
    };
    line.push(cat(" ", pad_display(text.as_str(), width).as_str()).as_str(), Style::color(shade));
}

// ---- ahead and behind ----

/// The ahead/behind cell: each arrow colored by its own count, padded to a width.
pub open spec fn ahead_behind(
    ahead: Option<u32>,
    behind: Option<u32>,
    width: usize,
    icons: IconSet,
) -> Seq<SpanView> {
    match (ahead, behind) {
        (Some(ahead), Some(behind)) => {
            let up = icons.ahead@ + decimal(ahead as nat);
            let down = icons.behind@ + decimal(behind as nat);
            let used = shown_width(up) + 1 + shown_width(down);
            blank_line().push(
                (
                    up,
                    colored(
                        if ahead > 0 {
                            Color::Yellow
                        } else {
                            Color::DarkGray
                        },
                    ),
                ),
            ).push((" "@, plain_style())).push(
                (
                    down,
                    colored(
                        if behind > 0 {
                            Color::Cyan
                        } else {
                            Color::DarkGray
                        },
                    ),
                ),
            ).push((copies(' ', less(width as int, used) as nat), plain_style()))
        },
        _ => one_span(padded("no-up"@, width as nat), colored(Color::DarkGray)),
    }
}

/// Fixed-width ahead/behind spans (`↑a ↓b`), each arrow colored by its own count: a zero
/// count is dim gray, a positive ahead is yellow, a positive behind is cyan. No upstream
/// renders a dim `no-up`. Padded with trailing spaces to `width`.
pub fn ahead_behind_spans(
    ahead: Option<u32>,
    behind: Option<u32>,
    width: usize,
    icons: &IconSet,
) -> (res: Line)
    ensures
        res@ == ahead_behind(ahead, behind, width, *icons),
{
    match (ahead, behind) {
        (Some(ahead), Some(behind)) => {
            let up = cat(icons.ahead, number(ahead as u64).as_str());
            let down = cat(icons.behind, number(behind as u64).as_str());
            let used: u128 = width_of(up.as_str()) as u128 + 1 + width_of(down.as_str()) as u128;
            let pad: usize = if used < width as u128 {
                (width as u128 - used) as usize
            } else {
                0
            };
            let mut line = Line::new();
            line.push(
                up.as_str(),
                Style::color(
                    if ahead > 0 {
                        Color::Yellow
                    } else {
                        Color::DarkGray
                    },
                ),
            );
            line.push(" ", Style::plain());
            line.push(
                down.as_str(),
                Style::color(
                    if behind > 0 {
                        Color::Cyan
                    } else {
                        Color::DarkGray
                    },
                ),
            );
            line.push(repeat_char(' ', pad).as_str(), Style::plain());
            line
        },
        _ => Line::of(pad_right("no-up", width).as_str(), Style::color(Color::DarkGray)),
    }
}

// ---- names ----

/// The number of a character with ASCII letters taken as small ones.
pub open spec fn folded(c: char) -> int {
    if 65 <= c as int && c as int <= 90 {
        c as int + 32
    } else {
        c as int
    }
}

fn folded_code(c: char) -> (res: u32)
    ensures
        res == folded(c),
{
    let n: u32 = c as u32;
    if 65 <= n && n <= 90 {
        n + 32
    } else {
        n
    }
}

/// A text stands at a place of another but for the case of ASCII letters.
pub open spec fn stands_ci(name: Seq<char>, needle: Seq<char>, at: int) -> bool {
    &&& 0 <= at
    &&& at + needle.len() <= name.len()
    &&& forall|j: int| 0 <= j < needle.len() ==> folded(#[trigger] name[at + j]) == folded(needle[j])
}

/// The first place from `from` on at which a text stands but for the case of ASCII letters.
pub open spec fn found_ci(name: Seq<char>, needle: Seq<char>, from: int) -> Option<int>
    decreases name.len() - from + 1,
{
    if needle.len() == 0 || from < 0 || from + needle.len() > name.len() {
        None
    } else if stands_ci(name, needle, from) {
        Some(from)
    } else {
        found_ci(name, needle, from + 1)
    }
}

fn matches_ci(name: &Vec<char>, needle: &Vec<char>, at: usize) -> (res: bool)
    requires
        at + needle@.len() <= name@.len(),
    ensures
        res == stands_ci(name@, needle@, at as int),
{
    let total: usize = name.len();
    let mut j: usize = 0;
    while j < needle.len()
        invariant
            total == name@.len(),
            at + needle@.len() <= total,
            j <= needle@.len(),
            forall|k: int|
                0 <= k < j ==> folded(#[trigger] name@[at + k]) == folded(needle@[k]),
        decreases needle@.len() - j,
    {
        if folded_code(name[at + j]) != folded_code(needle[j]) {
            assert(folded(name@[at + j]) != folded(needle@[j as int]));
            return false;
        }
        j += 1;
    }
    true
}

/// First case-insensitive (ASCII) occurrence of `needle` in `name_chars`, as a (start, len)
/// pair in char units. Char-based so multibyte names stay aligned.
pub fn find_ci(name_chars: &Vec<char>, needle: &str) -> (res: Option<(usize, usize)>)
    ensures
        match res {
            Some((start, len)) => found_ci(name_chars@, needle@, 0) == Some(start as int) && len
                == needle@.len() && start + len <= name_chars@.len(),
            None => found_ci(name_chars@, needle@, 0) is None,
        },
{
    let wanted = chars_of(needle);
    if wanted.len() == 0 || wanted.len() > name_chars.len() {
        return None;
    }
    let total: usize = name_chars.len();
    let last: usize = total - wanted.len();
    let mut start: usize = 0;
    while start <= last
        invariant
            wanted@ == needle@,
            wanted@.len() > 0,
            total == name_chars@.len(),
            last + wanted@.len() == total,
            start <= last + 1,
            found_ci(name_chars@, needle@, 0) == found_ci(name_chars@, needle@, start as int),
        decreases last + 1 - start,
    {
        if matches_ci(name_chars, &wanted, start) {
            return Some((start, wanted.len()));
        }
        start += 1;
    }
    None
}

/// A name in which the match of the filter is underlined, padded to a number of characters.
pub open spec fn highlighted(
    name: Seq<char>,
    filter: Option<String>,
    base: Style,
    width: usize,
) -> Seq<SpanView> {
    let marked = match filter {
        Some(filter) => match found_ci(name, filter@, 0) {
            Some(start) => {
                let end = start + filter@.len();
                let head = if start > 0 {
                    one_span(name.take(start), base)
                } else {
                    blank_line()
                };
                let with_match = head.push((name.subrange(start, end), in_underline(base)));
                if end < name.len() {
                    with_match.push((name.skip(end), base))
                } else {
                    with_match
                }
            },
            None => one_span(name, base),
        },
        None => one_span(name, base),
    };
    if width > name.len() {
        marked.push((copies(' ', (width - name.len()) as nat), base))
    } else {
        marked
    }
}

/// Repo-name spans for the list, underlining the substring that matches the active filter.
/// Padded with trailing spaces to `width` chars in `base` style (no truncation).
pub fn highlight_name(name: &str, filter: &Option<String>, base: Style, width: usize) -> (res: Line)
    ensures
        res@ == highlighted(name@, *filter, base, width),
{
    let chars = chars_of(name);
    let total: usize = chars.len();
    let mut line = Line::new();
    let found: Option<(usize, usize)> = match filter {
        Some(filter) => find_ci(&chars, filter.as_str()),
        None => None,
    };
    match found {
        Some((start, len)) => {
            if start > 0 {
                let before = text_between(&chars, 0, start);
                assert(before@ =~= name@.take(start as int));
                line.push(before.as_str(), base);
            }
            line.push(text_between(&chars, start, start + len).as_str(), base.with_underline());
            if start + len < total {
                let after = text_between(&chars, start + len, total);
                assert(after@ =~= name@.skip(start + len));
                line.push(after.as_str(), base);
            }
        },
        None => line.push(name, base),
    }
    if width > total {
        line.push(repeat_char(' ', width - total).as_str(), base);
    }
    line
}

// ---- section headers ----

/// The collapse marker of a header.
pub open spec fn marker_of(collapsible: bool, collapsed: bool) -> Seq<char> {
    if !collapsible {
        "  "@
    } else if collapsed {
        "▸ "@
    } else {
        "▾ "@
    }
}

/// The collapse marker for a header: two spaces (static), `▸ ` (collapsed), or `▾ ` (expanded).
pub fn header_marker(collapsible: bool, collapsed: bool) -> (res: &'static str)
    ensures
        res@ == marker_of(collapsible, collapsed),
{
    if !collapsible {
        "  "
    } else if collapsed {
        "▸ "
    } else {
        "▾ "
    }
}

/// The repos of a list that have a status of a kind.
pub open spec fn members_in(repos: Seq<RepoState>, members: Seq<usize>, kind: RepoStatus) -> nat
    decreases members.len(),
{
    if members.len() == 0 {
        0
    } else {
        members_in(repos, members.drop_last(), kind) + if repos[members.last() as int].status.kind()
            == kind {
            1nat
        } else {
            0nat
        }
    }
}

/// A tally after a header's name, if it is not zero.
pub open spec fn with_tally(
    tail: Seq<SpanView>,
    glyph: Seq<char>,
    count: nat,
    color: Color,
) -> Seq<SpanView> {
    if count > 0 {
        tail.push((" "@ + glyph + " "@ + decimal(count), colored(color)))
    } else {
        tail
    }
}

/// The tallies after a header's name, and the total.
pub open spec fn status_tail(
    repos: Seq<RepoState>,
    members: Seq<usize>,
    total: usize,
    icons: IconSet,
    tick: u64,
) -> Seq<SpanView> {
    let running = members_in(repos, members, RepoStatus::Running { pid: 0 });
    let updated = members_in(repos, members, RepoStatus::Updated);
    let throttled = members_in(repos, members, RepoStatus::Throttled);
    let failed = members_in(repos, members, RepoStatus::Failed);
    let skipped = members_in(repos, members, RepoStatus::Skipped);
    let a = with_tally(blank_line(), frame_of(tick, icons), running, Color::Yellow);
    let b = with_tally(a, icons.updated@, updated, Color::Green);
    let c = with_tally(b, icons.throttled@, throttled, Color::Magenta);
    let d = with_tally(c, icons.failed@, failed, Color::Red);
    let e = with_tally(d, icons.skipped@, skipped, Color::DarkGray);
    e.push((" ("@ + decimal(total as nat) + ")"@, colored(Color::DarkGray)))
}

proof fn lemma_members(repos: Seq<RepoState>, members: Seq<usize>, kind: RepoStatus)
    ensures
        members_in(repos, members, kind) <= members.len(),
    decreases members.len(),
{
    if members.len() > 0 {
        lemma_members(repos, members.drop_last(), kind);
    }
}

pub(crate) fn count_members(repos: &Vec<RepoState>, members: &Vec<usize>, kind: RepoStatus) -> (res: usize)
    requires
        forall|k: int| 0 <= k < members@.len() ==> #[trigger] members@[k] < repos@.len(),
    ensures
        res == members_in(repos@, members@, kind),
{
    let mut count: usize = 0;
    let mut k: usize = 0;
    assert(members@.take(0) =~= Seq::<usize>::empty());
    while k < members.len()
        invariant
            forall|k: int| 0 <= k < members@.len() ==> #[trigger] members@[k] < repos@.len(),
            k <= members@.len(),
            count <= k,
            count == members_in(repos@, members@.take(k as int), kind),
        decreases members@.len() - k,
    {
        assert(members@.take(k + 1).drop_last() =~= members@.take(k as int));
        if repos[members[k]].status.kind_of() == kind {
            count += 1;
        }
        k += 1;
    }
    assert(members@.take(members@.len() as int) =~= members@);
    count
}

fn push_tally(tail: &mut Line, glyph: &str, count: usize, color: Color)
    ensures
        final(tail)@ == with_tally(old(tail)@, glyph@, count as nat, color),
{
    if count > 0 {
        tail.push(cat4(" ", glyph, " ", count_text(count).as_str()).as_str(), Style::color(color));
    }
}

/// Build the status-count tail for the repos of a section (the non-zero
/// running/updated/throttled/failed/skipped tallies plus the `(total)` count), in real colors.
pub fn status_tail_for(
    repos: &Vec<RepoState>,
    members: &Vec<usize>,
    total: usize,
    icons: &IconSet,
    tick: u64,
) -> (res: Line)
    requires
        forall|k: int| 0 <= k < members@.len() ==> #[trigger] members@[k] < repos@.len(),
    ensures
        res@ == status_tail(repos@, members@, total, *icons, tick),
{
    let mut tail = Line::new();
    let running: usize = count_members(repos, members, RepoStatus::Running { pid: 0 });
    push_tally(&mut tail, spinner_frame(tick, icons), running, Color::Yellow);
    let updated: usize = count_members(repos, members, RepoStatus::Updated);
    push_tally(&mut tail, icons.updated, updated, Color::Green);
    let throttled: usize = count_members(repos, members, RepoStatus::Throttled);
    push_tally(&mut tail, icons.throttled, throttled, Color::Magenta);
    let failed: usize = count_members(repos, members, RepoStatus::Failed);
    push_tally(&mut tail, icons.failed, failed, Color::Red);
    let skipped: usize = count_members(repos, members, RepoStatus::Skipped);
    push_tally(&mut tail, icons.skipped, skipped, Color::DarkGray);
    tail.push(cat3(" (", count_text(total).as_str(), ")").as_str(), Style::color(Color::DarkGray));
    tail
}

/// A header line: its head, dashes, and its tail at the right edge.
pub open spec fn header_line(
    head: Seq<SpanView>,
    tail: Seq<SpanView>,
    inner_width: usize,
) -> Seq<SpanView> {
    let fill = less(inner_width as int, counted(line_width(head)) + counted(line_width(tail)) + 3);
    head.push((" "@ + copies('─', fill as nat), colored(Color::DarkGray))) + tail
}

/// Join a header's `head` spans and `tail` spans with a dash fill so the tail is right-aligned.
pub fn finish_header_line(head: Line, tail: Line, inner_width: usize) -> (res: Line)
    ensures
        res@ == header_line(head@, tail@, inner_width),
{
    let used: u128 = width_of_line(&head) as u128 + width_of_line(&tail) as u128 + 3;
    let fill: usize = if used < inner_width as u128 {
        (inner_width as u128 - used) as usize
    } else {
        0
    };
    let mut line = head;
    line.push(cat(" ", repeat_char('─', fill).as_str()).as_str(), Style::color(Color::DarkGray));
    line.extend(tail);
    line
}

/// How a group's members are known.
#[derive(Debug, Clone, Copy, PartialEq, Eq, Structural)]
pub enum GroupState {
    /// The repos that belong to no group.
    Ungrouped,
    Known,
    /// The members are being looked up.
    Resolving,
    /// Looking up the members failed.
    Broken,
}

/// The head of a group's header.
pub open spec fn group_head(
    name: Seq<char>,
    state: GroupState,
    collapsible: bool,
    collapsed: bool,
    depth: u16,
    icons: IconSet,
    tick: u64,
) -> Seq<SpanView> {
    let head = one_span(copies(' ', (2 * depth) as nat), plain_style()).push(
        (marker_of(collapsible, collapsible && collapsed), colored(Color::DarkGray)),
    ).push(
        (
            name,
            if state is Ungrouped {
                colored(Color::DarkGray)
            } else {
                in_bold(colored(Color::Gray))
            },
        ),
    );
    match state {
        GroupState::Resolving => head.push((" "@ + frame_of(tick, icons), colored(Color::Yellow))),
        GroupState::Broken => head.push((" "@ + icons.warning@, colored(Color::Red))),
        _ => head,
    }
}

/// Build a group-header list row: a collapse marker (collapsible headers only), the group
/// name, a dash fill, then non-zero status counts and the member total.
#[allow(clippy::too_many_arguments)]
pub fn group_header_item(
    name: &str,
    state: GroupState,
    collapsible: bool,
    collapsed: bool,
    depth: u16,
    tail: Line,
    inner_width: usize,
    icons: &IconSet,
    tick: u64,
) -> (res: Line)
    ensures
        res@ == header_line(
            group_head(name@, state, collapsible, collapsed, depth, *icons, tick),
            tail@,
            inner_width,
        ),
{
    let mut head = Line::of(repeat_char(' ', 2 * depth as usize).as_str(), Style::plain());
    head.push(header_marker(collapsible, collapsible && collapsed), Style::color(Color::DarkGray));
    let name_style = match state {
        GroupState::Ungrouped => Style::color(Color::DarkGray),
        _ => Style::color(Color::Gray).with_bold(),
    };
    head.push(name, name_style);
    match state {
        GroupState::Resolving => head.push(
            cat(" ", spinner_frame(tick, icons)).as_str(),
            Style::color(Color::Yellow),
        ),
        GroupState::Broken => head.push(
            cat(" ", icons.warning).as_str(),
            Style::color(Color::Red),
        ),
        _ => {},
    }
    finish_header_line(head, tail, inner_width)
}

/// The head of a folder's header.
pub open spec fn folder_head(name: Seq<char>, collapsed: bool, depth: u16) -> Seq<SpanView> {
    one_span(copies(' ', (2 * depth) as nat), plain_style()).push(
        (marker_of(true, collapsed), colored(Color::Cyan)),
    ).push((name + "/"@, in_bold(colored(Color::Cyan))))
}

/// A directory-tree folder header: collapse marker, indented folder name, dash fill, then the
/// aggregated status counts + total over the folder's whole subtree.
pub fn folder_header_item(
    name: &str,
    collapsed: bool,
    depth: u16,
    tail: Line,
    inner_width: usize,
) -> (res: Line)
    ensures
        res@ == header_line(folder_head(name@, collapsed, depth), tail@, inner_width),
{
    let mut head = Line::of(repeat_char(' ', 2 * depth as usize).as_str(), Style::plain());
    head.push(header_marker(true, collapsed), Style::color(Color::Cyan));
    head.push(cat(name, "/").as_str(), Style::color(Color::Cyan).with_bold());
    finish_header_line(head, tail, inner_width)
}

// ---- links ----

/// The browsable base of a remote URL, if it is an https one.
pub open spec fn web_base(remote: Seq<char>) -> Option<Seq<char>> {
    let base = without_suffix(cut_end(trimmed(remote), "/"@), ".git"@);
    if starts(base, "https://"@) {
        Some(base)
    } else {
        None
    }
}

/// A browsable https base for a remote URL (strips a trailing `.git`), or None for non-web
/// remotes.
pub fn web_remote(remote: &str) -> (res: Option<String>)
    ensures
        match res {
            Some(base) => web_base(remote@) == Some(base@),
            None => web_base(remote@) is None,
        },
{
    let base = strip_suffix(trim_end_of(trim(remote).as_str(), "/").as_str(), ".git");
    if starts_with(base.as_str(), "https://") {
        Some(base)
    } else {
        None
    }
}

// ---- escape sequences ----

/// What one code of a color sequence does to a style, if it does something.
pub open spec fn sgr_code(style: Style, code: nat) -> Option<Style> {
    if code == 0 {
        Some(plain_style())
    } else if code == 1 {
        Some(Style { bold: true, ..style })
    } else if code == 2 {
        Some(Style { dim: true, ..style })
    } else if code == 4 {
        Some(Style { underlined: true, ..style })
    } else if code == 7 {
        Some(Style { reversed: true, ..style })
    } else {
        match sgr_color(code) {
            Some(color) => Some(Style { fg: Some(color), ..style }),
            None => None,
        }
    }
}

/// The color that a code stands for.
pub open spec fn sgr_color(code: nat) -> Option<Color> {
    if code == 30 {
        Some(Color::Black)
    } else if code == 31 {
        Some(Color::Red)
    } else if code == 32 {
        Some(Color::Green)
    } else if code == 33 {
        Some(Color::Yellow)
    } else if code == 34 {
        Some(Color::Blue)
    } else if code == 35 {
        Some(Color::Magenta)
    } else if code == 36 {
        Some(Color::Cyan)
    } else if code == 37 {
        Some(Color::White)
    } else if code == 90 {
        Some(Color::DarkGray)
    } else if code == 91 {
        Some(Color::LightRed)
    } else if code == 92 {
        Some(Color::LightGreen)
    } else if code == 93 {
        Some(Color::LightYellow)
    } else if code == 94 {
        Some(Color::LightBlue)
    } else if code == 95 {
        Some(Color::LightMagenta)
    } else if code == 96 {
        Some(Color::LightCyan)
    } else if code == 97 {
        Some(Color::Gray)
    } else {
        None
    }
}

fn color_of_code(code: u32) -> (res: Option<Color>)
    ensures
        res == sgr_color(code as nat),
{
    match code {
        30 => Some(Color::Black),
        31 => Some(Color::Red),
        32 => Some(Color::Green),
        33 => Some(Color::Yellow),
        34 => Some(Color::Blue),
        35 => Some(Color::Magenta),
        36 => Some(Color::Cyan),
        37 => Some(Color::White),
        90 => Some(Color::DarkGray),
        91 => Some(Color::LightRed),
        92 => Some(Color::LightGreen),
        93 => Some(Color::LightYellow),
        94 => Some(Color::LightBlue),
        95 => Some(Color::LightMagenta),
        96 => Some(Color::LightCyan),
        97 => Some(Color::Gray),
        _ => None,
    }
}

/// The number of a code; what is no number up to 255 counts as 0.
pub open spec fn code_number(code: Seq<char>) -> nat {
    match parsed(trimmed(code), 255) {
        Some(n) => n,
        None => 0,
    }
}

/// A style after the codes from `i` on: the first that does something counts.
pub open spec fn sgr_from(style: Style, codes: Seq<Seq<char>>, i: int) -> Style
    decreases codes.len() - i,
{
    if i < 0 || i >= codes.len() {
        style
    } else {
        match sgr_code(style, code_number(codes[i])) {
            Some(changed) => changed,
            None => sgr_from(style, codes, i + 1),
        }
    }
}

/// A style after a color sequence.
pub open spec fn after_sgr(style: Style, codes: Seq<char>) -> Style {
    sgr_from(style, pieces(codes, Separator::One(';')), 0)
}

fn apply_code(style: Style, code: u32) -> (res: Option<Style>)
    ensures
        res == sgr_code(style, code as nat),
{
    if code == 0 {
        return Some(Style::plain());
    }
    let mut changed = style;
    if code == 1 {
        changed.bold = true;
        return Some(changed);
    }
    if code == 2 {
        changed.dim = true;
        return Some(changed);
    }
    if code == 4 {
        changed.underlined = true;
        return Some(changed);
    }
    if code == 7 {
        changed.reversed = true;
        return Some(changed);
    }
    match color_of_code(code) {
        Some(color) => Some(style.with_fg(color)),
        None => None,
    }
}

/// Applies the codes of a color sequence to a style.
pub fn apply_sgr(style: Style, codes: &str) -> (res: Style)
    ensures
        res == after_sgr(style, codes@),
{
    let list = split(codes, Separator::One(';'));
    let mut i: usize = 0;
    while i < list.len()
        invariant
            list.deep_view() == pieces(codes@, Separator::One(';')),
            i <= list@.len(),
            after_sgr(style, codes@) == sgr_from(style, list.deep_view(), i as int),
        decreases list@.len() - i,
    {
        let code: u32 = match parse_number(trim(list[i].as_str()).as_str(), 255) {
            Some(n) => n,
            None => 0,
        };
        assert(list.deep_view()[i as int] == list@[i as int]@);
        match apply_code(style, code) {
            Some(changed) => return changed,
            None => {},
        }
        i += 1;
    }
    style
}

/// The first `m` from a place on, or the end.
pub open spec fn sequence_end(text: Seq<char>, pos: int) -> int
    decreases text.len() - pos,
{
    if pos < 0 || pos >= text.len() {
        pos
    } else if text[pos] == 'm' {
        pos
    } else {
        sequence_end(text, pos + 1)
    }
}

/// The spans so far, with the text at hand if there is any.
pub open spec fn flushed(current: Seq<char>, style: Style) -> Seq<SpanView> {
    if current.len() > 0 {
        one_span(current, style)
    } else {
        blank_line()
    }
}

/// A place at which a color sequence begins.
pub open spec fn begins_sequence(text: Seq<char>, pos: int) -> bool {
    0 <= pos && pos + 1 < text.len() && text[pos] == '\x1b' && text[pos + 1] == '['
}

/// Where a color sequence ends.
pub proof fn lemma_sequence_end(text: Seq<char>, pos: int)
    requires
        0 <= pos <= text.len(),
    ensures
        pos <= sequence_end(text, pos) <= text.len(),
    decreases text.len() - pos,
{
    if pos < text.len() && text[pos] != 'm' {
        lemma_sequence_end(text, pos + 1);
    }
}

/// The spans of a text with color sequences from a place on.
pub open spec fn ansi_from(
    text: Seq<char>,
    pos: int,
    style: Style,
    current: Seq<char>,
) -> Seq<SpanView>
    decreases text.len() - pos,
{
    if pos < 0 || pos >= text.len() {
        flushed(current, style)
    } else if begins_sequence(text, pos) {
        proof {
            lemma_sequence_end(text, pos + 2);
        }
        let end = sequence_end(text, pos + 2);
        flushed(current, style) + if end < text.len() {
            ansi_from(
                text,
                end + 1,
                after_sgr(style, text.subrange(pos + 2, end)),
                Seq::empty(),
            )
        } else {
            blank_line()
        }
    } else {
        ansi_from(text, pos + 1, style, current.push(text[pos]))
    }
}

/// A text with color sequences as styled spans.
pub open spec fn ansi(text: Seq<char>) -> Seq<SpanView> {
    ansi_from(text, 0, plain_style(), Seq::empty())
}

fn flush(line: &mut Line, current: &String, style: Style)
    ensures
        final(line)@ == old(line)@ + flushed(current@, style),
{
    if !current.as_str().is_empty() {
        let ghost before = line@;
        line.push(current.as_str(), style);
        assert(line@ =~= before + flushed(current@, style));
    } else {
        assert(line@ =~= line@ + flushed(current@, style));
    }
}

/// Convert a string that may contain ANSI escape codes to a styled line.
/// We use a simple parser for the common SGR codes git produces.
pub fn ansi_line(text: &str) -> (res: Line)
    ensures
        res@ == ansi(text@),
{
    let chars = chars_of(text);
    let mut line = Line::new();
    let mut style = Style::plain();
    let mut current = String::new();
    let mut pos: usize = 0;
    while pos < chars.len()
        invariant
            chars@ == text@,
            pos <= chars@.len(),
            line@ + ansi_from(chars@, pos as int, style, current@) =~= ansi(text@),
        decreases chars@.len() - pos,
    {
        if chars[pos] == '\x1b' && pos + 1 < chars.len() && chars[pos + 1] == '[' {
            let ghost at = pos as int;
            let ghost before = line@;
            let ghost shown = current@;
            flush(&mut line, &current, style);
            current = String::new();
            let start: usize = pos + 2;
            let mut end: usize = start;
            while end < chars.len() && chars[end] != 'm'
                invariant
                    start <= end <= chars@.len(),
                    sequence_end(chars@, start as int) == sequence_end(chars@, end as int),
                decreases chars@.len() - end,
            {
                end += 1;
            }
            assert(end == sequence_end(chars@, at + 2));
            if end < chars.len() {
                let codes = text_between(&chars, start, end);
                style = apply_sgr(style, codes.as_str());
                pos = end + 1;
            } else {
                pos = end;
            }
            assert(current@ =~= Seq::<char>::empty());
            assert(begins_sequence(chars@, at));
        } else {
            assert(!begins_sequence(chars@, pos as int));
            current.push(chars[pos]);
            pos += 1;
        }
    }
    flush(&mut line, &current, style);
    line
}

/// A text without color sequences is shown as it is.
pub proof fn law_plain_text_is_shown(text: Seq<char>)
    requires
        forall|i: int| 0 <= i < text.len() ==> #[trigger] text[i] != '\x1b',
        text.len() > 0,
    ensures
        ansi(text) == one_span(text, plain_style()),
{
    lemma_ansi_plain(text, 0, Seq::empty());
    assert(Seq::<char>::empty() + text.skip(0) =~= text);
}

proof fn lemma_ansi_plain(text: Seq<char>, pos: int, current: Seq<char>)
    requires
        0 <= pos <= text.len(),
        forall|i: int| 0 <= i < text.len() ==> #[trigger] text[i] != '\x1b',
    ensures
        ansi_from(text, pos, plain_style(), current) == flushed(
            current + text.skip(pos),
            plain_style(),
        ),
    decreases text.len() - pos,
{
    if pos < text.len() {
        assert(!begins_sequence(text, pos));
        lemma_ansi_plain(text, pos + 1, current.push(text[pos]));
        assert(current.push(text[pos]) + text.skip(pos + 1) =~= current + text.skip(pos));
    } else {
        assert(current + text.skip(pos) =~= current);
    }
}

// ---- rows of hints ----

/// A piece of a row of hints, with the command that a click on it runs.
#[derive(Debug)]
pub struct Segment {
    pub text: String,
    pub style: Style,
    pub command: Option<Command>,
}

/// What a segment shows and does.
pub type SegmentView = (Seq<char>, Style, Option<Command>);

/// A row of hints.
#[derive(Debug)]
pub struct Segments {
    pub list: Vec<Segment>,
}

impl View for Segments {
    type V = Seq<SegmentView>;

    open spec fn view(&self) -> Seq<SegmentView> {
        Seq::new(
            self.list@.len(),
            |i: int| (self.list@[i].text@, self.list@[i].style, self.list@[i].command),
        )
    }
}

/// A row without hints.
pub open spec fn no_segments() -> Seq<SegmentView> {
    Seq::empty()
}

impl Segments {
    /// A row without hints.
    pub fn new() -> (res: Segments)
        ensures
            res@ == no_segments(),
    {
        let res = Segments { list: Vec::new() };
        assert(res@ =~= no_segments());
        res
    }

    /// Appends a segment.
    pub fn push(&mut self, text: &str, style: Style, command: Option<Command>)
        ensures
            final(self)@ == old(self)@.push((text@, style, command)),
    {
        let ghost before = self@;
        self.list.push(Segment { text: text.to_owned(), style, command });
        assert(self@ =~= before.push((text@, style, command)));
    }
}

/// The spans of a row of hints.
pub open spec fn segment_spans(segments: Seq<SegmentView>) -> Seq<SpanView> {
    Seq::new(segments.len(), |i: int| (segments[i].0, segments[i].1))
}

/// The columns of the first `n` segments.
pub open spec fn segments_width(segments: Seq<SegmentView>, n: nat) -> int {
    spans_width(segment_spans(segments), n)
}

/// The column after the first `n` segments of a row that starts at a column.
pub open spec fn column_after(segments: Seq<SegmentView>, start: u16, n: nat) -> u16
    decreases n,
{
    if n == 0 || n > segments.len() {
        start
    } else {
        across(
            column_after(segments, start, (n - 1) as nat),
            (shown_width(segments[n - 1].0) as u16) as int,
        )
    }
}

/// The clickable regions of the first `n` segments of a row.
pub open spec fn regions_upto(segments: Seq<SegmentView>, start: u16, row: u16, n: nat) -> Seq<
    ClickRegion,
>
    decreases n,
{
    if n == 0 || n > segments.len() {
        Seq::empty()
    } else {
        let before = regions_upto(segments, start, row, (n - 1) as nat);
        match segments[n - 1].2 {
            Some(command) => before.push(
                ClickRegion {
                    row,
                    col_start: column_after(segments, start, (n - 1) as nat),
                    col_end: column_after(segments, start, n),
                    command,
                },
            ),
            None => before,
        }
    }
}

/// The clickable regions of a row of hints.
pub open spec fn regions_of(segments: Seq<SegmentView>, start: u16, row: u16) -> Seq<ClickRegion> {
    regions_upto(segments, start, row, segments.len())
}

/// Draws a row of hints from a column on; the segments with a command are clickable.
pub fn build_status_row(
    segments: &Segments,
    start_col: u16,
    row: u16,
    clickable: &mut Vec<ClickRegion>,
) -> (res: Line)
    ensures
        res@ == segment_spans(segments@),
        final(clickable)@ == old(clickable)@ + regions_of(segments@, start_col, row),
{
    let ghost before = clickable@;
    let mut line = Line::new();
    let mut col: u16 = start_col;
    let mut i: usize = 0;
    while i < segments.list.len()
        invariant
            i <= segments.list@.len(),
            line@ =~= segment_spans(segments@).take(i as int),
            col == column_after(segments@, start_col, i as nat),
            clickable@ =~= before + regions_upto(segments@, start_col, row, i as nat),
        decreases segments.list@.len() - i,
    {
        let segment = &segments.list[i];
        assert(segments@[i as int] == (segment.text@, segment.style, segment.command));
        let width: u16 = width_of(segment.text.as_str()) as u16;
        let end: u16 = step_across(col, width);
        match segment.command {
            Some(command) => clickable.push(
                ClickRegion { row, col_start: col, col_end: end, command },
            ),
            None => {},
        }
        col = end;
        line.push(segment.text.as_str(), segment.style);
        i += 1;
    }
    line
}

pub(crate) fn width_of_segments(segments: &Segments) -> (res: usize)
    ensures
        res == counted(segments_width(segments@, segments@.len())),
{
    let mut line = Line::new();
    let mut i: usize = 0;
    while i < segments.list.len()
        invariant
            i <= segments.list@.len(),
            line@ =~= segment_spans(segments@).take(i as int),
        decreases segments.list@.len() - i,
    {
        let segment = &segments.list[i];
        line.push(segment.text.as_str(), segment.style);
        i += 1;
    }
    assert(line@ =~= segment_spans(segments@));
    width_of_line(&line)
}

/// The columns of a row of hints, as far as they can be counted.
pub open spec fn row_width(segments: Seq<SegmentView>) -> usize {
    counted(segments_width(segments, segments.len()))
}

/// The column at which the right side of a row begins.
pub open spec fn right_start(right: Seq<SegmentView>, area: Rect) -> u16 {
    across(area.x, less(area.width as int, row_width(right) as int))
}

/// A row with hints at both sides: blanks between them where there is room, else the left side
/// is cut, with a mark.
pub open spec fn composed(
    left: Seq<SegmentView>,
    right: Seq<SegmentView>,
    area: Rect,
    hint: Style,
) -> Seq<SpanView> {
    let lw = row_width(left);
    let rw = row_width(right);
    let spans = segment_spans(left);
    if rw == 0 || area.width == 0 {
        spans
    } else if lw + rw + 3 <= area.width {
        spans.push((copies(' ', (area.width - lw - rw) as nat), plain_style())) + segment_spans(
            right,
        )
    } else {
        spans_within(spans, 0, 0, less(area.width as int, rw + 4) as usize).push(
            ("… · "@, hint),
        ) + segment_spans(right)
    }
}

/// The clickable regions of a row with hints at both sides.
pub open spec fn composed_regions(
    left: Seq<SegmentView>,
    right: Seq<SegmentView>,
    area: Rect,
    row: u16,
) -> Seq<ClickRegion> {
    if row_width(right) == 0 || area.width == 0 {
        regions_of(left, area.x, row)
    } else {
        regions_of(left, area.x, row) + regions_of(right, right_start(right, area), row)
    }
}

/// Build a footer row from clickable left segments plus right-aligned segments (justify-
/// between); the right side is clickable too. When the two sides have room, the gap is plain
/// spaces; when they'd touch or overlap, the left is truncated with `…` and a `·` separator.
pub fn compose_status_row(
    segments: &Segments,
    right: &Segments,
    area: Rect,
    row_y: u16,
    clickable: &mut Vec<ClickRegion>,
    hint: Style,
) -> (res: Line)
    ensures
        res@ == composed(segments@, right@, area, hint),
        final(clickable)@ == old(clickable)@ + composed_regions(segments@, right@, area, row_y),
{
    let ghost before = clickable@;
    let left_width: usize = width_of_segments(segments);
    let right_width: usize = width_of_segments(right);
    let mut line = build_status_row(segments, area.x, row_y, clickable);
    let avail: usize = area.width as usize;
    if right_width == 0 || avail == 0 {
        return line;
    }
    if left_width as u128 + right_width as u128 + 3 <= avail as u128 {
        line.push(repeat_char(' ', avail - left_width - right_width).as_str(), Style::plain());
    } else {
        let keep: usize = if right_width as u128 + 4 < avail as u128 {
            avail - right_width - 4
        } else {
            0
        };
        line = clip_spans(&line, keep);
        line.push("… · ", hint);
    }
    let gap: u16 = if right_width < avail {
        (avail - right_width) as u16
    } else {
        0
    };
    let start: u16 = step_across(area.x, gap);
    let tail = build_status_row(right, start, row_y, clickable);
    line.extend(tail);
    assert(clickable@ =~= before + composed_regions(segments@, right@, area, row_y));
    line
}

// ---- modals ----

/// The region of the `[x]` button in the top right corner of a modal.
pub open spec fn close_region(modal: Rect) -> Region {
    let end = across(modal.x, less(modal.width as int, 1));
    (modal.y, less(end as int, 3) as u16, end)
}

/// The `[x]` close-button title line + its click region for a modal's top-right border corner.
pub fn modal_close_button(modal: Rect) -> (res: (Line, Option<Region>))
    ensures
        res.0@ == one_span("[x]"@, in_bold(colored(Color::DarkGray))),
        res.1 == Some(close_region(modal)),
{
    let line = Line::of("[x]", Style::color(Color::DarkGray).with_bold());
    let end: u16 = step_across(
        modal.x,
        if modal.width > 1 {
            modal.width - 1
        } else {
            0
        },
    );
    let start: u16 = if end > 3 {
        end - 3
    } else {
        0
    };
    (line, Some((modal.y, start, end)))
}

/// The color of a file status.
pub open spec fn file_color(status: Seq<char>) -> Color {
    if status == "A"@ || status == "?"@ {
        Color::Green
    } else if status == "D"@ {
        Color::Red
    } else if status == "R"@ || status == "C"@ {
        Color::Cyan
    } else {
        Color::Yellow
    }
}

/// The accent color for a file's git status char in the diff-modal file list.
pub fn diff_status_color(status: &str) -> (res: Color)
    ensures
        res == file_color(status@),
{
    if crate::text::same(status, "A") || crate::text::same(status, "?") {
        Color::Green
    } else if crate::text::same(status, "D") {
        Color::Red
    } else if crate::text::same(status, "R") || crate::text::same(status, "C") {
        Color::Cyan
    } else {
        Color::Yellow
    }
}

/// The hints of the diff modal's footer.
pub open spec fn footer_parts(source: DiffSource, focus: DiffFocus, chips: bool) -> Seq<Seq<char>> {
    let moves = match focus {
        DiffFocus::Files => seq![
            "j/k pick"@,
            "⇧PgUp/PgDn page"@,
            "⌥/⇧wheel scroll"@,
            "tab → diff"@,
        ],
        DiffFocus::Diff => seq!["j/k scroll"@, "PgUp/PgDn page"@, "g/G top/end"@, "tab → files"@],
    };
    let filters = if chips {
        moves.push("f filter"@)
    } else {
        moves
    };
    let acts = match source {
        DiffSource::Stash { .. } => filters.push("d drop"@),
        DiffSource::Dirty { .. } => filters.push("t toggle"@).push("d discard/remove"@),
        DiffSource::Branch { .. } => filters,
    };
    acts.push("esc"@)
}

/// The diff-modal footer hint line, dependent on the focused pane (file list vs diff) and the
/// source's available verbs. Shows `f filter` only when the status chips are active.
pub fn diff_modal_footer(source: &DiffSource, focus: DiffFocus, chips: bool) -> (res: String)
    ensures
        res@ == " "@ + joined(footer_parts(*source, focus, chips), " · "@) + " "@,
{
    let mut parts: Vec<String> = Vec::new();
    match focus {
        DiffFocus::Files => {
            parts.push("j/k pick".to_owned());
            parts.push("⇧PgUp/PgDn page".to_owned());
            parts.push("⌥/⇧wheel scroll".to_owned());
            parts.push("tab → diff".to_owned());
        },
        DiffFocus::Diff => {
            parts.push("j/k scroll".to_owned());
            parts.push("PgUp/PgDn page".to_owned());
            parts.push("g/G top/end".to_owned());
            parts.push("tab → files".to_owned());
        },
    }
    if chips {
        parts.push("f filter".to_owned());
    }
    match source {
        DiffSource::Stash { .. } => {
            parts.push("d drop".to_owned());
        },
        DiffSource::Dirty { .. } => {
            parts.push("t toggle".to_owned());
            parts.push("d discard/remove".to_owned());
        },
        DiffSource::Branch { .. } => {},
    }
    parts.push("esc".to_owned());
    assert(parts.deep_view() =~= footer_parts(*source, focus, chips));
    cat3(" ", join(&parts, " · ").as_str(), " ")
}

/// The track of a panel's scrollbar: the columns of the panel, the rows of its inside.
pub open spec fn track_of(outer: Rect, inner: Rect) -> Rect {
    Rect { x: outer.x, y: inner.y, width: outer.width, height: inner.height }
}

/// The track rect for a panel's scrollbar: the panel's right border column, vertically clamped
/// to the inner content area (inside the border AND any panel padding).
pub fn scrollbar_track(outer: Rect, inner: Rect) -> (res: Rect)
    ensures
        res == track_of(outer, inner),
{
    Rect { x: outer.x, y: inner.y, width: outer.width, height: inner.height }
}

/// What a scrollbar draws.
#[derive(Debug, Clone, Copy, PartialEq, Eq, Structural)]
pub struct Thumb {
    /// The number of places that the thumb can take.
    pub places: usize,
    pub position: usize,
    pub viewport: usize,
    /// It is being dragged.
    pub highlighted: bool,
}

/// A scrollbar is drawn where the content overflows; its thumb reaches the bottom when the last
/// line is at the bottom.
pub open spec fn thumb_over(total: usize, viewport: usize, position: usize, highlighted: bool) -> Option<
    Thumb,
> {
    if total <= viewport {
        None
    } else {
        Some(
            Thumb { places: (total - viewport + 1) as usize, position, viewport, highlighted },
        )
    }
}

fn build_thumb(total: usize, viewport: usize, position: usize, highlighted: bool) -> (res: Option<
    Thumb,
>)
    requires
        viewport > 0 || total < usize::MAX,
    ensures
        res == thumb_over(total, viewport, position, highlighted),
{
    if total <= viewport {
        return None;
    }
    Some(Thumb { places: total - viewport + 1, position, viewport, highlighted })
}

/// The thumb of a scrollbar that cannot be dragged, where the content overflows.
pub fn gauge_thumb(bar: Gauge, position: usize) -> (res: Option<Thumb>)
    requires
        bar.viewport > 0 || bar.total < usize::MAX,
    ensures
        res == thumb_over(bar.total, bar.viewport, position, false),
{
    build_thumb(bar.total, bar.viewport, position, false)
}

/// The thumb of a scrollbar, where the content overflows.
pub fn scrollbar_thumb(bar: ScrollHit, position: usize, dragged: Option<ScrollKind>) -> (res: Option<
    Thumb,
>)
    requires
        bar.viewport > 0 || bar.total < usize::MAX,
    ensures
        res == thumb_over(bar.total, bar.viewport, position, dragged == Some(bar.kind)),
{
    let highlighted = match dragged {
        Some(kind) => kind == bar.kind,
        None => false,
    };
    build_thumb(bar.total, bar.viewport, position, highlighted)
}

// ---- how states are shown ----

/// Each state has its own glyph, name and color.
pub proof fn law_how_states_look(waiting: RepoStatus, running: RepoStatus, tick: u64, icons: IconSet)
    requires
        waiting is Queued,
        running is Running,
    ensures
        glyph_of(waiting, tick, icons) == icons.queued@ && label_of(waiting) == "queued"@,
        glyph_color(waiting) == Color::DarkGray,
        glyph_of(running, tick, icons) == frame_of(tick, icons) && label_of(running) == "running"@,
        glyph_color(running) == Color::Yellow,
        glyph_of(RepoStatus::UpToDate, tick, icons) == icons.up_to_date@,
        label_of(RepoStatus::UpToDate) == "up-to-date"@,
        glyph_color(RepoStatus::UpToDate) == Color::Gray,
        glyph_of(RepoStatus::Updated, tick, icons) == icons.updated@,
        label_of(RepoStatus::Updated) == "updated"@,
        glyph_color(RepoStatus::Updated) == Color::Green,
        glyph_of(RepoStatus::NoUpstream, tick, icons) == icons.no_upstream@,
        label_of(RepoStatus::NoUpstream) == "no upstream"@,
        glyph_color(RepoStatus::NoUpstream) == Color::DarkGray,
        glyph_of(RepoStatus::Skipped, tick, icons) == icons.skipped@,
        label_of(RepoStatus::Skipped) == "skipped"@,
        glyph_color(RepoStatus::Skipped) == Color::DarkGray,
        glyph_of(RepoStatus::Throttled, tick, icons) == icons.throttled@,
        label_of(RepoStatus::Throttled) == "throttled"@,
        glyph_color(RepoStatus::Throttled) == Color::Magenta,
        glyph_of(RepoStatus::Failed, tick, icons) == icons.failed@,
        label_of(RepoStatus::Failed) == "failed"@,
        glyph_color(RepoStatus::Failed) == Color::Red,
{
}

/// What is ahead comes first and what is behind second, each with its arrow; a branch without
/// an upstream says so.
pub proof fn law_ahead_before_behind(ahead: u32, behind: u32, width: usize, icons: IconSet)
    ensures
        ({
            let spans = ahead_behind(Some(ahead), Some(behind), width, icons);
            &&& spans[0].0 == icons.ahead@ + decimal(ahead as nat)
            &&& spans[0].1 == colored(if ahead > 0 { Color::Yellow } else { Color::DarkGray })
            &&& spans[2].0 == icons.behind@ + decimal(behind as nat)
            &&& spans[2].1 == colored(if behind > 0 { Color::Cyan } else { Color::DarkGray })
        }),
        ahead_behind(None, Some(behind), width, icons)[0].0 == padded("no-up"@, width as nat),
        ahead_behind(Some(ahead), None, width, icons)[0].0 == padded("no-up"@, width as nat),
{
}

/// A count that is not known yet shows as such; one of zero is faint.
pub proof fn law_counts_shown(glyph: Seq<char>, n: u32)
    ensures
        count_shown(glyph, None) == ("…"@, true),
        count_shown(glyph, Some(n)).0 == glyph + decimal(n as nat),
        count_shown(glyph, Some(n)).1 <==> n == 0,
{
}

/// The escape codes for colors and styles, as terminals know them.
pub proof fn law_escape_codes(style: Style, code: nat)
    ensures
        sgr_code(style, 0) == Some(plain_style()),
        sgr_code(style, 1) == Some(Style { bold: true, ..style }),
        sgr_code(style, 2) == Some(Style { dim: true, ..style }),
        sgr_code(style, 4) == Some(Style { underlined: true, ..style }),
        sgr_code(style, 7) == Some(Style { reversed: true, ..style }),
        sgr_code(style, 30) == Some(Style { fg: Some(Color::Black), ..style }),
        sgr_code(style, 31) == Some(Style { fg: Some(Color::Red), ..style }),
        sgr_code(style, 32) == Some(Style { fg: Some(Color::Green), ..style }),
        sgr_code(style, 33) == Some(Style { fg: Some(Color::Yellow), ..style }),
        sgr_code(style, 34) == Some(Style { fg: Some(Color::Blue), ..style }),
        sgr_code(style, 35) == Some(Style { fg: Some(Color::Magenta), ..style }),
        sgr_code(style, 36) == Some(Style { fg: Some(Color::Cyan), ..style }),
        sgr_code(style, 37) == Some(Style { fg: Some(Color::White), ..style }),
        sgr_code(style, 90) == Some(Style { fg: Some(Color::DarkGray), ..style }),
        sgr_code(style, 91) == Some(Style { fg: Some(Color::LightRed), ..style }),
        sgr_code(style, 92) == Some(Style { fg: Some(Color::LightGreen), ..style }),
        sgr_code(style, 93) == Some(Style { fg: Some(Color::LightYellow), ..style }),
        sgr_code(style, 94) == Some(Style { fg: Some(Color::LightBlue), ..style }),
        sgr_code(style, 95) == Some(Style { fg: Some(Color::LightMagenta), ..style }),
        sgr_code(style, 96) == Some(Style { fg: Some(Color::LightCyan), ..style }),
        sgr_code(style, 97) == Some(Style { fg: Some(Color::Gray), ..style }),
{
}

proof fn lemma_members_filter(repos: Seq<RepoState>, members: Seq<usize>, kind: RepoStatus)
    ensures
        members_in(repos, members, kind) == members.filter(
            |idx: usize| repos[idx as int].status.kind() == kind,
        ).len(),
    decreases members.len(),
{
    reveal(Seq::filter);
    if members.len() > 0 {
        lemma_members_filter(repos, members.drop_last(), kind);
    }
}

/// The members of a group or a folder in a state are those whose repo is in it.
pub proof fn law_members_in_a_state(repos: Seq<RepoState>, members: Seq<usize>, kind: RepoStatus)
    ensures
        members_in(repos, members, kind) == members.filter(
            |idx: usize| repos[idx as int].status.kind() == kind,
        ).len(),
{
    lemma_members_filter(repos, members, kind);
}

/// A header that can be folded shows whether it is.
pub proof fn law_fold_markers(collapsed: bool)
    ensures
        marker_of(false, collapsed) == "  "@,
        marker_of(true, true) == "▸ "@,
        marker_of(true, false) == "▾ "@,
{
}

proof fn lemma_found(name: Seq<char>, needle: Seq<char>, from: int)
    requires
        needle.len() > 0,
        0 <= from,
    ensures
        match found_ci(name, needle, from) {
            Some(at) => from <= at && stands_ci(name, needle, at) && forall|i: int|
                from <= i < at ==> !#[trigger] stands_ci(name, needle, i),
            None => forall|i: int| from <= i ==> !#[trigger] stands_ci(name, needle, i),
        },
    decreases name.len() - from + 1,
{
    if from + needle.len() <= name.len() && !stands_ci(name, needle, from) {
        lemma_found(name, needle, from + 1);
    }
}

/// What is marked in a name is the first place where the filter stands in it, whatever the case of
/// the letters from `A` to `Z`; where it stands nowhere nothing is marked.
pub proof fn law_first_match_is_marked(name: Seq<char>, needle: Seq<char>)
    requires
        needle.len() > 0,
    ensures
        match found_ci(name, needle, 0) {
            Some(at) => stands_ci(name, needle, at) && forall|i: int|
                0 <= i < at ==> !#[trigger] stands_ci(name, needle, i),
            None => forall|i: int| 0 <= i ==> !#[trigger] stands_ci(name, needle, i),
        },
        folded('A') == folded('a') && folded('Z') == folded('z') && folded('A') != folded('b'),
{
    lemma_found(name, needle, 0);
}

/// The web page of a remote is its address without what git adds at the end, and only where it
/// begins with `https://`.
pub proof fn law_web_page(remote: Seq<char>)
    ensures
        web_base(remote) matches Some(base) ==> starts(base, "https://"@) && base
            == without_suffix(cut_end(trimmed(remote), "/"@), ".git"@),
        web_base(remote) is Some <==> starts(
            without_suffix(cut_end(trimmed(remote), "/"@), ".git"@),
            "https://"@,
        ),
{
}

} // verus!
