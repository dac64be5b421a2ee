//! What the help modal says.

use vstd::prelude::*;
use vstd::string::*;

use crate::icons::{emoji_icons, unicode_icons};
use crate::screen::{
    colored, in_bold, in_italic, in_underline, no_lines, one_span, plain_style, Color, Line, Lines,
    SpanView, Style,
};
use crate::text::{cat, char_count, copies, pad_right, padded, repeat_char, shortfall};
use crate::widths::{counted, filled, line_width, pad_display, width_of_line};

verus! {

// ---- the lines ----

/// A line of the help, and where a click on it leads.
#[derive(Debug)]
pub struct HelpItem {
    pub line: Line,
    pub link: Option<String>,
}

/// A line of the help, and where a click on it leads.
pub type HelpItemView = (Seq<SpanView>, Option<Seq<char>>);

/// A line of the help.
pub open spec fn help_item(item: HelpItem) -> HelpItemView {
    (
        item.line@,
        match item.link {
            Some(link) => Some(link@),
            None => None,
        },
    )
}

/// The lines of a tab of the help.
#[derive(Debug)]
pub struct HelpItems {
    pub list: Vec<HelpItem>,
}

impl View for HelpItems {
    type V = Seq<HelpItemView>;

    open spec fn view(&self) -> Seq<HelpItemView> {
        Seq::new(self.list@.len(), |i: int| help_item(self.list@[i]))
    }
}

/// No lines.
pub open spec fn no_items() -> Seq<HelpItemView> {
    Seq::empty()
}

/// A heading.
pub open spec fn header(text: Seq<char>) -> HelpItemView {
    (one_span(text, in_bold(colored(Color::Yellow))), None)
}

/// A heading within a tab.
pub open spec fn subhead(text: Seq<char>) -> HelpItemView {
    (one_span(text, in_bold(colored(Color::Cyan))), None)
}

/// A note.
pub open spec fn note(text: Seq<char>) -> HelpItemView {
    (one_span(text, in_italic(colored(Color::DarkGray))), None)
}

/// A line of text.
pub open spec fn plain(text: Seq<char>) -> HelpItemView {
    (one_span(text, plain_style()), None)
}

/// A link with its label; a click opens it.
pub open spec fn link(label: Seq<char>, url: Seq<char>) -> HelpItemView {
    (
        one_span(padded(label, 9), colored(Color::Gray)).push(
            (url, in_underline(colored(Color::Cyan))),
        ),
        Some(url),
    )
}

/// Keys and what they do.
pub open spec fn binding(keys: Seq<char>, effect: Seq<char>) -> Seq<SpanView> {
    one_span("    "@ + padded(keys, 14), colored(Color::Cyan)).push((" "@ + effect, plain_style()))
}

/// A command or flag, its placeholder, its meaning and its default.
pub open spec fn entry(
    command: Seq<char>,
    meta: Seq<char>,
    meaning: Seq<char>,
    tail: Seq<char>,
) -> HelpItemView {
    let faint = in_italic(colored(Color::DarkGray));
    let start = one_span("  "@ + command, colored(Color::Cyan)).push((meta, faint)).push(
        (copies(' ', shortfall(29, command.len() + meta.len())), plain_style()),
    ).push((meaning, plain_style()));
    (
        if tail.len() > 0 {
            start.push((" "@ + tail, faint))
        } else {
            start
        },
        None,
    )
}

/// An exit code and what it says.
pub open spec fn code(value: Seq<char>, color: Color, meaning: Seq<char>) -> HelpItemView {
    (
        one_span("  "@ + padded(value, 6), in_bold(colored(color))).push((meaning, plain_style())),
        None,
    )
}

/// A glyph in both sets, in its color, and what it says.
pub open spec fn glyph(
    unicode: Seq<char>,
    emoji: Seq<char>,
    color: Color,
    meaning: Seq<char>,
) -> HelpItemView {
    (
        one_span("    "@, plain_style()).push((filled(unicode, 5), colored(color))).push(
            (filled(emoji, 7), colored(color)),
        ).push((meaning, plain_style())),
        None,
    )
}

/// A glyph that is the same in both sets.
pub open spec fn mark(shown: Seq<char>, color: Color, meaning: Seq<char>) -> HelpItemView {
    (
        one_span("    "@, plain_style()).push((filled(shown, 12), colored(color))).push(
            (meaning, plain_style()),
        ),
        None,
    )
}

impl HelpItems {
    fn new() -> (res: HelpItems)
        ensures
            res@ == no_items(),
    {
        let res = HelpItems { list: Vec::new() };
        assert(res@ =~= no_items());
        res
    }

    fn add_line(&mut self, line: Line)
        ensures
            final(self)@ == old(self)@.push((line@, None)),
    {
        let ghost before = self@;
        self.list.push(HelpItem { line, link: None });
        assert(self@ =~= before.push((line@, None)));
    }

    fn header(&mut self, text: &str)
        ensures
            final(self)@ == old(self)@.push(header(text@)),
    {
        self.add_line(Line::of(text, Style::color(Color::Yellow).with_bold()));
    }

    fn subhead(&mut self, text: &str)
        ensures
            final(self)@ == old(self)@.push(subhead(text@)),
    {
        self.add_line(Line::of(text, Style::color(Color::Cyan).with_bold()));
    }

    fn note(&mut self, text: &str)
        ensures
            final(self)@ == old(self)@.push(note(text@)),
    {
        self.add_line(Line::of(text, Style::color(Color::DarkGray).with_italic()));
    }

    fn plain(&mut self, text: &str)
        ensures
            final(self)@ == old(self)@.push(plain(text@)),
    {
        self.add_line(Line::of(text, Style::plain()));
    }

    fn link(&mut self, label: &str, url: &str)
        ensures
            final(self)@ == old(self)@.push(link(label@, url@)),
    {
        let ghost before = self@;
        let mut line = Line::of(pad_right(label, 9).as_str(), Style::color(Color::Gray));
        line.push(url, Style::color(Color::Cyan).with_underline());
        self.list.push(HelpItem { line, link: Some(url.to_owned()) });
        assert(self@ =~= before.push(link(label@, url@)));
    }

    fn binding(&mut self, keys: &str, effect: &str)
        ensures
            final(self)@ == old(self)@.push((binding(keys@, effect@), None)),
    {
        self.add_line(binding_line(keys, effect));
    }

    fn entry(&mut self, command: &str, meta: &str, meaning: &str, tail: &str)
        ensures
            final(self)@ == old(self)@.push(entry(command@, meta@, meaning@, tail@)),
    {
        let faint = Style::color(Color::DarkGray).with_italic();
        let mut line = Line::of(cat("  ", command).as_str(), Style::color(Color::Cyan));
        line.push(meta, faint);
        let named: usize = char_count(command);
        let short: usize = if named < 29 {
            29 - named
        } else {
            0
        };
        let meta_chars: usize = char_count(meta);
        let blanks: usize = if meta_chars < short {
            short - meta_chars
        } else {
            0
        };
        line.push(repeat_char(' ', blanks).as_str(), Style::plain());
        line.push(meaning, Style::plain());
        if !tail.is_empty() {
            line.push(cat(" ", tail).as_str(), faint);
        }
        self.add_line(line);
    }

    fn code(&mut self, value: &str, color: Color, meaning: &str)
        ensures
            final(self)@ == old(self)@.push(code(value@, color, meaning@)),
    {
        let shown = cat("  ", pad_right(value, 6).as_str());
        let mut line = Line::of(shown.as_str(), Style::color(color).with_bold());
        line.push(meaning, Style::plain());
        self.add_line(line);
    }

    fn glyph(&mut self, unicode: &str, emoji: &str, color: Color, meaning: &str)
        ensures
            final(self)@ == old(self)@.push(glyph(unicode@, emoji@, color, meaning@)),
    {
        let mut line = Line::of("    ", Style::plain());
        line.push(pad_display(unicode, 5).as_str(), Style::color(color));
        line.push(pad_display(emoji, 7).as_str(), Style::color(color));
        line.push(meaning, Style::plain());
        self.add_line(line);
    }

    fn mark(&mut self, shown: &str, color: Color, meaning: &str)
        ensures
            final(self)@ == old(self)@.push(mark(shown@, color, meaning@)),
    {
        let mut line = Line::of("    ", Style::plain());
        line.push(pad_display(shown, 12).as_str(), Style::color(color));
        line.push(meaning, Style::plain());
        self.add_line(line);
    }
}

fn binding_line(keys: &str, effect: &str) -> (res: Line)
    ensures
        res@ == binding(keys@, effect@),
{
    let shown = cat("    ", pad_right(keys, 14).as_str());
    let mut line = Line::of(shown.as_str(), Style::color(Color::Cyan));
    line.push(cat(" ", effect).as_str(), Style::plain());
    line
}

// ---- the tabs ----

/// What the program is, and where to read more.
pub open spec fn about_items() -> Seq<HelpItemView> {
    let none = no_items();
    let part_1 = none
        .push(header("pull-all — interactive multi-repo git pull dashboard"@))
        .push(plain(""@))
        .push(plain("Pull every git repo in a directory in parallel, with live per-repo logs,"@))
        .push(plain("branch / worktree / stash management, inline diffs, and a jump into lazygit."@))
        .push(plain("Built with Rust · ratatui · tokio."@))
        .push(plain(""@))
        .push(link("Docs"@, "https://steven-pribilinskiy.github.io/pull-all/"@))
        .push(link("GitHub"@, "https://github.com/steven-pribilinskiy/pull-all"@));
    part_1
        .push(link("lazygit"@, "https://github.com/jesseduffield/lazygit"@))
        .push(link("Notes"@, "https://notes.lvh.me/library/default/devtools/pull-all-tui-bake-off-2026.md"@))
        .push(link(""@, "https://notes.lvh.me/library/default/devtools/pull-all-tui-interaction-features-2026.md"@))
}

/// The content of the help modal's "About" tab: what pull-all is, plus clickable links.
pub fn help_items_about() -> (res: HelpItems)
    ensures
        res@ == about_items(),
{
    let mut items = HelpItems::new();
    items.header("pull-all — interactive multi-repo git pull dashboard");
    items.plain("");
    items.plain("Pull every git repo in a directory in parallel, with live per-repo logs,");
    items.plain("branch / worktree / stash management, inline diffs, and a jump into lazygit.");
    items.plain("Built with Rust · ratatui · tokio.");
    items.plain("");
    items.link("Docs", "https://steven-pribilinskiy.github.io/pull-all/");
    items.link("GitHub", "https://github.com/steven-pribilinskiy/pull-all");
    items.link("lazygit", "https://github.com/jesseduffield/lazygit");
    items.link("Notes", "https://notes.lvh.me/library/default/devtools/pull-all-tui-bake-off-2026.md");
    items.link("", "https://notes.lvh.me/library/default/devtools/pull-all-tui-interaction-features-2026.md");
    items
}

/// The subcommands, the flags and the exit codes.
pub open spec fn cli_items() -> Seq<HelpItemView> {
    let none = no_items();
    let part_1 = none
        .push(header("SUBCOMMANDS  (forward to sibling builds; args passed through)"@))
        .push(entry("pull-all go"@, " [args]"@, "Go / bubbletea build"@, ""@))
        .push(entry("pull-all bun"@, " [args]"@, "Bun / ink build (JIT)"@, ""@))
        .push(entry("pull-all cli"@, " [args]"@, "bash streaming version"@, ""@))
        .push(plain(""@))
        .push(header("FLAGS & ENVIRONMENT"@))
        .push(entry("[DIR]"@, ""@, "directory to scan (recursively)"@, "(default: cwd)"@))
        .push(entry("--depth N"@, ""@, "max scan depth"@, "(default: 16; 1 = flat)"@));
    let part_2 = part_1
        .push(entry("--no-recursive"@, ""@, "single-level scan"@, "(same as --depth 1)"@))
        .push(entry("-j N  / PULL_JOBS=N"@, ""@, "concurrency"@, "(default: nproc)"@))
        .push(entry("--timeout S / PULL_TIMEOUT=S"@, ""@, "per-pull timeout seconds"@, "(default: 30)"@))
        .push(entry("--no-tui"@, ""@, "plain streaming output"@, "(no TUI)"@))
        .push(entry("--no-worktrees"@, ""@, "skip worktree discovery"@, ""@))
        .push(entry("--profile / PULL_PROFILE=1"@, ""@, "per-repo timing report"@, "(slowest first)"@))
        .push(entry("--profile-out FILE"@, ""@, "write the profile report to FILE"@, ""@))
        .push(plain(""@));
    part_2
        .push(header("EXIT CODES"@))
        .push(code("0"@, Color::Green, "all ok"@))
        .push(code("1"@, Color::Red, "any failed"@))
        .push(code("2"@, Color::Yellow, "quit mid-run"@))
        .push(code("130"@, Color::DarkGray, "Ctrl-C"@))
}

/// The content of the help modal's "CLI & Flags" tab (subcommands, flags/env, exit codes).
pub fn help_items_cli() -> (res: HelpItems)
    ensures
        res@ == cli_items(),
{
    let mut items = HelpItems::new();
    items.header("SUBCOMMANDS  (forward to sibling builds; args passed through)");
    items.entry("pull-all go", " [args]", "Go / bubbletea build", "");
    items.entry("pull-all bun", " [args]", "Bun / ink build (JIT)", "");
    items.entry("pull-all cli", " [args]", "bash streaming version", "");
    items.plain("");
    items.header("FLAGS & ENVIRONMENT");
    items.entry("[DIR]", "", "directory to scan (recursively)", "(default: cwd)");
    items.entry("--depth N", "", "max scan depth", "(default: 16; 1 = flat)");
    items.entry("--no-recursive", "", "single-level scan", "(same as --depth 1)");
    items.entry("-j N  / PULL_JOBS=N", "", "concurrency", "(default: nproc)");
    items.entry("--timeout S / PULL_TIMEOUT=S", "", "per-pull timeout seconds", "(default: 30)");
    items.entry("--no-tui", "", "plain streaming output", "(no TUI)");
    items.entry("--no-worktrees", "", "skip worktree discovery", "");
    items.entry("--profile / PULL_PROFILE=1", "", "per-repo timing report", "(slowest first)");
    items.entry("--profile-out FILE", "", "write the profile report to FILE", "");
    items.plain("");
    items.header("EXIT CODES");
    items.code("0", Color::Green, "all ok");
    items.code("1", Color::Red, "any failed");
    items.code("2", Color::Yellow, "quit mid-run");
    items.code("130", Color::DarkGray, "Ctrl-C");
    items
}

/// Every glyph that the program draws.
pub open spec fn legend_items() -> Seq<HelpItemView> {
    let none = no_items();
    let part_1 = none
        .push(header("LEGEND — every glyph, in both icon sets"@))
        .push(note("    left: Unicode · right: emoji — switch via Settings (,) → Icons"@))
        .push(plain(""@))
        .push(subhead("  Status"@))
        .push(glyph("◯"@, "⏳"@, Color::DarkGray, "queued — waiting for a worker"@))
        .push(glyph("◐"@, "🌑"@, Color::Yellow, "running — pull in progress (spins)"@))
        .push(glyph("◌"@, "✅"@, Color::Gray, "up-to-date — nothing new"@))
        .push(glyph("✓"@, "✨"@, Color::Green, "updated — pulled new commits"@));
    let part_2 = part_1
        .push(glyph("⊝"@, "🔌"@, Color::DarkGray, "no upstream — nothing to pull (not an error)"@))
        .push(glyph("⊘"@, "🚫"@, Color::DarkGray, "skipped — uncommitted changes in the way"@))
        .push(glyph("↯"@, "🐢"@, Color::Magenta, "throttled — rate-limited; concurrency drops + auto-retry"@))
        .push(glyph("✗"@, "❌"@, Color::Red, "failed — pull error (see Errors)"@))
        .push(glyph("✓"@, "✅"@, Color::Green, "all-ok marker on the Result row"@))
        .push(plain(""@))
        .push(subhead("  Columns & markers"@))
        .push(glyph("•"@, "📝"@, Color::Yellow, "uncommitted changes (count with the Δ column on)"@));
    let part_3 = part_2
        .push(glyph("↑"@, "↑"@, Color::Gray, "commits ahead of upstream (↑N)"@))
        .push(glyph("↓"@, "↓"@, Color::Gray, "commits behind upstream (↓N)"@))
        .push(glyph("⑃"@, "🌳"@, Color::Cyan, "worktree count (wt column)"@))
        .push(glyph("⑂"@, "🌿"@, Color::Green, "feature-branch count (br column; local minus main/dev)"@))
        .push(glyph("≡"@, "📦"@, Color::Magenta, "stash count (st column)"@))
        .push(plain(""@))
        .push(subhead("  Log & notices"@))
        .push(glyph("⚠"@, "🛑"@, Color::Red, "warning (e.g. group resolve failed)"@));
    let part_4 = part_3
        .push(glyph("⊘"@, "🚫"@, Color::DarkGray, "skipped marker in the log"@))
        .push(glyph("↻"@, "🔄"@, Color::Yellow, "automatic retry marker in the log"@))
        .push(plain(""@))
        .push(subhead("  Structural (same in both sets)"@))
        .push(mark("▾ / ▸"@, Color::DarkGray, "group expanded / collapsed (collapsible header)"@))
        .push(mark("▲ / ▼"@, Color::Yellow, "sort direction (column header + ⟪tag⟫)"@))
        .push(mark("● / ○"@, Color::Green, "active / inactive option (settings, menus)"@))
        .push(mark("▒ → █"@, Color::Gray, "divider grip (fills solid while dragging)"@));
    part_4
        .push(mark("…"@, Color::DarkGray, "still loading"@))
}

/// The content of the help modal's "Legend" tab: every glyph the app draws, in both icon
/// sets side by side, in their real colors.
pub fn help_items_legend() -> (res: HelpItems)
    ensures
        res@ == legend_items(),
{
    let unicode = unicode_icons();
    let emoji = emoji_icons();
    let mut items = HelpItems::new();
    items.header("LEGEND — every glyph, in both icon sets");
    items.note("    left: Unicode · right: emoji — switch via Settings (,) → Icons");
    items.plain("");
    items.subhead("  Status");
    items.glyph(unicode.queued, emoji.queued, Color::DarkGray, "queued — waiting for a worker");
    items.glyph(unicode.spinner[0], emoji.spinner[0], Color::Yellow, "running — pull in progress (spins)");
    items.glyph(unicode.up_to_date, emoji.up_to_date, Color::Gray, "up-to-date — nothing new");
    items.glyph(unicode.updated, emoji.updated, Color::Green, "updated — pulled new commits");
    items.glyph(unicode.no_upstream, emoji.no_upstream, Color::DarkGray, "no upstream — nothing to pull (not an error)");
    items.glyph(unicode.skipped, emoji.skipped, Color::DarkGray, "skipped — uncommitted changes in the way");
    items.glyph(unicode.throttled, emoji.throttled, Color::Magenta, "throttled — rate-limited; concurrency drops + auto-retry");
    items.glyph(unicode.failed, emoji.failed, Color::Red, "failed — pull error (see Errors)");
    items.glyph(unicode.ok, emoji.ok, Color::Green, "all-ok marker on the Result row");
    items.plain("");
    items.subhead("  Columns & markers");
    items.glyph(unicode.dirty, emoji.dirty, Color::Yellow, "uncommitted changes (count with the Δ column on)");
    items.glyph(unicode.ahead, emoji.ahead, Color::Gray, "commits ahead of upstream (↑N)");
    items.glyph(unicode.behind, emoji.behind, Color::Gray, "commits behind upstream (↓N)");
    items.glyph(unicode.worktrees, emoji.worktrees, Color::Cyan, "worktree count (wt column)");
    items.glyph(unicode.branches, emoji.branches, Color::Green, "feature-branch count (br column; local minus main/dev)");
    items.glyph(unicode.stashes, emoji.stashes, Color::Magenta, "stash count (st column)");
    items.plain("");
    items.subhead("  Log & notices");
    items.glyph(unicode.warning, emoji.warning, Color::Red, "warning (e.g. group resolve failed)");
    items.glyph(unicode.skip_log, emoji.skip_log, Color::DarkGray, "skipped marker in the log");
    items.glyph(unicode.retry_log, emoji.retry_log, Color::Yellow, "automatic retry marker in the log");
    items.plain("");
    items.subhead("  Structural (same in both sets)");
    items.mark("▾ / ▸", Color::DarkGray, "group expanded / collapsed (collapsible header)");
    items.mark("▲ / ▼", Color::Yellow, "sort direction (column header + ⟪tag⟫)");
    items.mark("● / ○", Color::Green, "active / inactive option (settings, menus)");
    items.mark("▒ → █", Color::Gray, "divider grip (fills solid while dragging)");
    items.mark("…", Color::DarkGray, "still loading");
    items
}

// ---- the hotkeys ----

/// Which underlying view the help modal is over; drives the contextual Hotkeys tab.
#[derive(Debug, Clone, Copy, PartialEq, Eq, Structural)]
pub enum HelpView {
    List,
    RepoPage,
    DiffModal,
}

impl HelpView {
    /// What the view is called.
    pub open spec fn named(self) -> Seq<char> {
        match self {
            HelpView::List => "repo list"@,
            HelpView::RepoPage => "repo page"@,
            HelpView::DiffModal => "diff modal"@,
        }
    }

    /// What the view is called.
    pub fn label(self) -> (res: &'static str)
        ensures
            res@ == self.named(),
    {
        match self {
            HelpView::List => "repo list",
            HelpView::RepoPage => "repo page",
            HelpView::DiffModal => "diff modal",
        }
    }
}

/// The head of a section of bindings.
pub open spec fn section(title: Seq<char>) -> Seq<Seq<SpanView>> {
    no_lines().push(one_span("  "@ + title, in_bold(colored(Color::Cyan))))
}

fn start_section(title: &str) -> (res: Lines)
    ensures
        res@ == section(title@),
{
    let mut lines = Lines::new();
    lines.push(Line::of(cat("  ", title).as_str(), Style::color(Color::Cyan).with_bold()));
    lines
}

fn add_binding(lines: &mut Lines, keys: &str, effect: &str)
    ensures
        final(lines)@ == old(lines)@.push(binding(keys@, effect@)),
{
    lines.push(binding_line(keys, effect));
}

/// Moving through the list.
pub open spec fn navigate_keys() -> Seq<Seq<SpanView>> {
    section("Navigate"@)
        .push(binding("j/k  ↑/↓"@, "move"@))
        .push(binding("g / G"@, "jump to top / end"@))
        .push(binding("Home / End"@, "jump to top / bottom"@))
        .push(binding("PgUp / PgDn"@, "page up / down"@))
        .push(binding("wheel · click"@, "select a row"@))
}

fn list_navigate() -> (res: Lines)
    ensures
        res@ == navigate_keys(),
{
    let mut lines = start_section("Navigate");
    add_binding(&mut lines, "j/k  ↑/↓", "move");
    add_binding(&mut lines, "g / G", "jump to top / end");
    add_binding(&mut lines, "Home / End", "jump to top / bottom");
    add_binding(&mut lines, "PgUp / PgDn", "page up / down");
    add_binding(&mut lines, "wheel · click", "select a row");
    lines
}

/// What the panes show.
pub open spec fn view_keys() -> Seq<Seq<SpanView>> {
    section("Views & panes"@)
        .push(binding("space"@, "Result / Errors overlay"@))
        .push(binding("tab · 1/2"@, "focus list ⇄ preview"@))
        .push(binding("i"@, "info panel"@))
        .push(binding("d"@, "diff view"@))
        .push(binding("End"@, "resume autoscroll"@))
}

fn list_views() -> (res: Lines)
    ensures
        res@ == view_keys(),
{
    let mut lines = start_section("Views & panes");
    add_binding(&mut lines, "space", "Result / Errors overlay");
    add_binding(&mut lines, "tab · 1/2", "focus list ⇄ preview");
    add_binding(&mut lines, "i", "info panel");
    add_binding(&mut lines, "d", "diff view");
    add_binding(&mut lines, "End", "resume autoscroll");
    lines
}

/// Filtering and sorting.
pub open spec fn find_keys() -> Seq<Seq<SpanView>> {
    section("Find & sort"@)
        .push(binding("/"@, "filter by name"@))
        .push(binding("f"@, "filter by status: a/u/c/s/f/i"@))
        .push(binding("s"@, "sort: n/c/s/a/d/l/w/b/k (re-pick flips ▲▼); or click a header"@))
        .push(binding("t"@, "toggle columns: a/d/l/w/b/s"@))
}

fn list_find() -> (res: Lines)
    ensures
        res@ == find_keys(),
{
    let mut lines = start_section("Find & sort");
    add_binding(&mut lines, "/", "filter by name");
    add_binding(&mut lines, "f", "filter by status: a/u/c/s/f/i");
    add_binding(&mut lines, "s", "sort: n/c/s/a/d/l/w/b/k (re-pick flips ▲▼); or click a header");
    add_binding(&mut lines, "t", "toggle columns: a/d/l/w/b/s");
    lines
}

/// Grouping and folding.
pub open spec fn fold_keys() -> Seq<Seq<SpanView>> {
    section("Views & folding"@)
        .push(binding("v g · v t"@, "toggle grouped view · tree view"@))
        .push(binding("Z"@, "refresh dynamic group memberships"@))
        .push(binding("- / + / *"@, "collapse all · expand all · expand subtree"@))
        .push(binding("za zo zc zO zM zR"@, "fold: toggle/open/close/subtree/all"@))
        .push(binding("← / →"@, "collapse + jump to parent / expand"@))
        .push(binding("enter · space"@, "collapse/expand (on a folder/group header)"@))
}

fn list_folding() -> (res: Lines)
    ensures
        res@ == fold_keys(),
{
    let mut lines = start_section("Views & folding");
    add_binding(&mut lines, "v g · v t", "toggle grouped view · tree view");
    add_binding(&mut lines, "Z", "refresh dynamic group memberships");
    add_binding(&mut lines, "- / + / *", "collapse all · expand all · expand subtree");
    add_binding(&mut lines, "za zo zc zO zM zR", "fold: toggle/open/close/subtree/all");
    add_binding(&mut lines, "← / →", "collapse + jump to parent / expand");
    add_binding(&mut lines, "enter · space", "collapse/expand (on a folder/group header)");
    lines
}

/// Pulling again.
pub open spec fn pull_keys() -> Seq<Seq<SpanView>> {
    section("Pull / retry"@)
        .push(binding("r / R"@, "retry selected / all (failed or skipped)"@))
        .push(binding("e / E"@, "refetch selected / all (re-pull anything)"@))
}

fn list_pulls() -> (res: Lines)
    ensures
        res@ == pull_keys(),
{
    let mut lines = start_section("Pull / retry");
    add_binding(&mut lines, "r / R", "retry selected / all (failed or skipped)");
    add_binding(&mut lines, "e / E", "refetch selected / all (re-pull anything)");
    lines
}

/// Copying and opening.
pub open spec fn clipboard_keys() -> Seq<Seq<SpanView>> {
    section("Clipboard & open"@)
        .push(binding("y"@, "copy absolute path"@))
        .push(binding("Y"@, "copy remote (origin) url"@))
        .push(binding("o"@, "open remote in browser"@))
        .push(binding("x"@, "clear this repo's log buffer"@))
}

fn list_clipboard() -> (res: Lines)
    ensures
        res@ == clipboard_keys(),
{
    let mut lines = start_section("Clipboard & open");
    add_binding(&mut lines, "y", "copy absolute path");
    add_binding(&mut lines, "Y", "copy remote (origin) url");
    add_binding(&mut lines, "o", "open remote in browser");
    add_binding(&mut lines, "x", "clear this repo's log buffer");
    lines
}

/// Running other programs.
pub open spec fn run_keys(assistant: Seq<char>) -> Seq<Seq<SpanView>> {
    section("Run"@)
        .push(binding("c"@, assistant + " in repo dir"@))
        .push(binding("l"@, "lazygit in repo dir"@))
}

fn list_run(assistant: &str) -> (res: Lines)
    ensures
        res@ == run_keys(assistant@),
{
    let mut lines = start_section("Run");
    add_binding(&mut lines, "c", cat(assistant, " in repo dir").as_str());
    add_binding(&mut lines, "l", "lazygit in repo dir");
    lines
}

/// Everything else.
pub open spec fn other_keys() -> Seq<Seq<SpanView>> {
    section("Other"@)
        .push(binding(", · D"@, "settings · open docs site"@))
        .push(binding("? · q · ^C"@, "help · quit · exit"@))
}

fn list_other() -> (res: Lines)
    ensures
        res@ == other_keys(),
{
    let mut lines = start_section("Other");
    add_binding(&mut lines, ", · D", "settings · open docs site");
    add_binding(&mut lines, "? · q · ^C", "help · quit · exit");
    lines
}

/// Resizing the panes.
pub open spec fn layout_keys() -> Seq<Seq<SpanView>> {
    section("Layout"@)
        .push(binding("[ ]"@, "resize panes"@))
        .push(binding("drag divider"@, "resize with the mouse"@))
}

fn list_layout() -> (res: Lines)
    ensures
        res@ == layout_keys(),
{
    let mut lines = start_section("Layout");
    add_binding(&mut lines, "[ ]", "resize panes");
    add_binding(&mut lines, "drag divider", "resize with the mouse");
    lines
}

/// The width of the widest of the first `n` lines.
pub open spec fn widest_upto(lines: Seq<Seq<SpanView>>, n: nat) -> usize
    decreases n,
{
    if n == 0 || n > lines.len() {
        0
    } else {
        let before = widest_upto(lines, (n - 1) as nat);
        let width = counted(line_width(lines[n - 1]));
        if width > before {
            width
        } else {
            before
        }
    }
}

fn widest_of(lines: &Lines) -> (res: usize)
    ensures
        res == widest_upto(lines@, lines@.len()),
        forall|i: int| 0 <= i < lines@.len() ==> counted(line_width(#[trigger] lines@[i])) <= res,
{
    let mut widest: usize = 0;
    let mut i: usize = 0;
    while i < lines.lines.len()
        invariant
            i <= lines@.len(),
            widest == widest_upto(lines@, i as nat),
            forall|j: int| 0 <= j < i ==> counted(line_width(#[trigger] lines@[j])) <= widest,
        decreases lines@.len() - i,
    {
        assert(lines@[i as int] == lines.lines@[i as int]@);
        let width: usize = width_of_line(&lines.lines[i]);
        if width > widest {
            widest = width;
        }
        i += 1;
    }
    widest
}

/// The column at which the right one of two sections starts.
pub open spec fn right_column(left: Seq<Seq<SpanView>>) -> usize {
    let widest = widest_upto(left, left.len());
    if widest + 4 > usize::MAX {
        usize::MAX
    } else {
        (widest + 4) as usize
    }
}

/// A row of two sections side by side.
pub open spec fn side_row(left: Seq<Seq<SpanView>>, right: Seq<Seq<SpanView>>, row: int) -> Seq<
    SpanView,
> {
    let start = if row < left.len() {
        left[row]
    } else {
        Seq::<SpanView>::empty()
    };
    let used: int = if row < left.len() {
        counted(line_width(left[row])) as int
    } else {
        0
    };
    if row < right.len() {
        start.push((copies(' ', (right_column(left) - used) as nat), plain_style())) + right[row]
    } else {
        start
    }
}

/// Items with two sections side by side after them, up to the first `n` rows.
pub open spec fn with_side(
    items: Seq<HelpItemView>,
    left: Seq<Seq<SpanView>>,
    right: Seq<Seq<SpanView>>,
    n: nat,
) -> Seq<HelpItemView>
    decreases n,
{
    if n == 0 {
        items
    } else {
        with_side(items, left, right, (n - 1) as nat).push((side_row(left, right, n - 1), None))
    }
}

/// Items with a section after them, up to its first `n` lines.
pub open spec fn with_section(items: Seq<HelpItemView>, lines: Seq<Seq<SpanView>>, n: nat) -> Seq<
    HelpItemView,
>
    decreases n,
{
    if n == 0 || n > lines.len() {
        items
    } else {
        with_section(items, lines, (n - 1) as nat).push((lines[n - 1], None))
    }
}

/// Items with a blank line and a section after them.
pub open spec fn and_wide(items: Seq<HelpItemView>, lines: Seq<Seq<SpanView>>) -> Seq<
    HelpItemView,
> {
    with_section(items.push(plain(""@)), lines, lines.len())
}

/// Items with a blank line and two sections side by side after them.
pub open spec fn and_side(
    items: Seq<HelpItemView>,
    left: Seq<Seq<SpanView>>,
    right: Seq<Seq<SpanView>>,
) -> Seq<HelpItemView> {
    with_side(
        items.push(plain(""@)),
        left,
        right,
        if left.len() > right.len() {
            left.len()
        } else {
            right.len()
        },
    )
}

impl HelpItems {
    fn add_wide(&mut self, lines: Lines)
        ensures
            final(self)@ == and_wide(old(self)@, lines@),
    {
        self.plain("");
        let ghost before = self@;
        let mut i: usize = 0;
        while i < lines.lines.len()
            invariant
                i <= lines@.len(),
                self@ == with_section(before, lines@, i as nat),
            decreases lines@.len() - i,
        {
            assert(lines@[i as int] == lines.lines@[i as int]@);
            let mut line = Line::new();
            line.extend_from(&lines.lines[i]);
            assert(line@ =~= lines@[i as int]);
            self.add_line(line);
            i += 1;
        }
    }

    fn add_side(&mut self, left: Lines, right: Lines)
        ensures
            final(self)@ == and_side(old(self)@, left@, right@),
    {
        self.plain("");
        let ghost before = self@;
        let widest: usize = widest_of(&left);
        let column: usize = widest.saturating_add(4);
        assert(column == right_column(left@));
        let total: usize = if left.lines.len() > right.lines.len() {
            left.lines.len()
        } else {
            right.lines.len()
        };
        let mut row: usize = 0;
        while row < total
            invariant
                row <= total,
                total == if left@.len() > right@.len() {
                    left@.len()
                } else {
                    right@.len()
                },
                column == right_column(left@),
                widest <= column,
                forall|i: int|
                    0 <= i < left@.len() ==> counted(line_width(#[trigger] left@[i])) <= widest,
                self@ == with_side(before, left@, right@, row as nat),
            decreases total - row,
        {
            let mut line = Line::new();
            let mut used: usize = 0;
            if row < left.lines.len() {
                assert(left@[row as int] == left.lines@[row as int]@);
                line.extend_from(&left.lines[row]);
                used = width_of_line(&line);
            }
            if row < right.lines.len() {
                assert(right@[row as int] == right.lines@[row as int]@);
                line.push(repeat_char(' ', column - used).as_str(), Style::plain());
                line.extend_from(&right.lines[row]);
            }
            assert(line@ =~= side_row(left@, right@, row as int));
            self.add_line(line);
            row += 1;
        }
    }
}

/// The bindings of the list.
pub open spec fn list_items(assistant: Seq<char>) -> Seq<HelpItemView> {
    let head = no_items().push(header("HOTKEYS — repo list"@));
    let moving = and_side(head, navigate_keys(), view_keys());
    let folding = and_wide(and_wide(moving, find_keys()), fold_keys());
    let pulling = and_wide(folding, pull_keys());
    and_side(and_side(pulling, clipboard_keys(), run_keys(assistant)), other_keys(), layout_keys())
}

fn list_hotkeys(assistant: &str) -> (res: HelpItems)
    ensures
        res@ == list_items(assistant@),
{
    let mut items = HelpItems::new();
    items.header("HOTKEYS — repo list");
    items.add_side(list_navigate(), list_views());
    items.add_wide(list_find());
    items.add_wide(list_folding());
    items.add_wide(list_pulls());
    items.add_side(list_clipboard(), list_run(assistant));
    items.add_side(list_other(), list_layout());
    items
}

/// The bindings of the repo page.
pub open spec fn page_items(assistant: Seq<char>) -> Seq<HelpItemView> {
    let none = no_items();
    let part_1 = none
        .push(header("HOTKEYS — repo page"@))
        .push((binding("↑↓ · j/k"@, "move"@), None))
        .push((binding("g/G · Home/End"@, "jump to top / bottom"@), None))
        .push((binding("enter"@, "open diff (stash or dirty row)"@), None))
        .push((binding("shift+enter"@, "checkout (clean, non-current branch)"@), None))
        .push((binding("p / P"@, "pull branch / all branches"@), None))
        .push((binding("d"@, "delete branch · drop stash · remove worktree · discard (confirm)"@), None))
        .push((binding("t"@, "column menu — b/y/a/m/d/c/u/f/g/s toggle, esc closes"@), None));
    let part_2 = part_1
        .push((binding("i"@, "toggle the info panel"@), None))
        .push((binding("c"@, assistant + " in the row's path"@), None))
        .push((binding("l"@, "lazygit in the row's path"@), None))
        .push((binding("o"@, "open the branch on the remote (e.g. GitHub) in your browser"@), None))
        .push((binding("y"@, "copy menu — path / branch / both"@), None))
        .push((binding(","@, "settings"@), None))
        .push((binding("esc · q"@, "back to the repo list"@), None))
        .push(plain(""@));
    part_2
        .push(plain("    ● marks branches/worktrees with uncommitted changes"@))
}

fn page_hotkeys(assistant: &str) -> (res: HelpItems)
    ensures
        res@ == page_items(assistant@),
{
    let mut items = HelpItems::new();
    items.header("HOTKEYS — repo page");
    items.binding("↑↓ · j/k", "move");
    items.binding("g/G · Home/End", "jump to top / bottom");
    items.binding("enter", "open diff (stash or dirty row)");
    items.binding("shift+enter", "checkout (clean, non-current branch)");
    items.binding("p / P", "pull branch / all branches");
    items.binding("d", "delete branch · drop stash · remove worktree · discard (confirm)");
    items.binding("t", "column menu — b/y/a/m/d/c/u/f/g/s toggle, esc closes");
    items.binding("i", "toggle the info panel");
    items.binding("c", cat(assistant, " in the row's path").as_str());
    items.binding("l", "lazygit in the row's path");
    items.binding("o", "open the branch on the remote (e.g. GitHub) in your browser");
    items.binding("y", "copy menu — path / branch / both");
    items.binding(",", "settings");
    items.binding("esc · q", "back to the repo list");
    items.plain("");
    items.plain("    ● marks branches/worktrees with uncommitted changes");
    items
}

/// The bindings of the diff modal.
pub open spec fn diff_items() -> Seq<HelpItemView> {
    let none = no_items();
    let part_1 = none
        .push(header("HOTKEYS — diff modal"@))
        .push((binding("tab"@, "switch file list ⇄ diff focus"@), None))
        .push((binding("↑↓ · j/k"@, "pick a file / scroll the diff"@), None))
        .push((binding("g / G"@, "first / last file · diff top / bottom"@), None))
        .push((binding("PgUp/PgDn"@, "scroll the diff"@), None))
        .push((binding("⇧/⌥ PgUp/PgDn"@, "page the file list"@), None))
        .push((binding("⇧/⌥ wheel"@, "scroll the file list"@), None))
        .push((binding("f"@, "filter by status (>10 files)"@), None));
    part_1
        .push((binding("t"@, "toggle uncommitted ⇄ base branch"@), None))
        .push((binding("d"@, "discard / remove / drop (confirm)"@), None))
        .push((binding("esc · q"@, "close"@), None))
}

fn diff_hotkeys() -> (res: HelpItems)
    ensures
        res@ == diff_items(),
{
    let mut items = HelpItems::new();
    items.header("HOTKEYS — diff modal");
    items.binding("tab", "switch file list ⇄ diff focus");
    items.binding("↑↓ · j/k", "pick a file / scroll the diff");
    items.binding("g / G", "first / last file · diff top / bottom");
    items.binding("PgUp/PgDn", "scroll the diff");
    items.binding("⇧/⌥ PgUp/PgDn", "page the file list");
    items.binding("⇧/⌥ wheel", "scroll the file list");
    items.binding("f", "filter by status (>10 files)");
    items.binding("t", "toggle uncommitted ⇄ base branch");
    items.binding("d", "discard / remove / drop (confirm)");
    items.binding("esc · q", "close");
    items
}

/// The bindings that apply in a view.
pub open spec fn hotkey_items(view: HelpView, assistant: Seq<char>) -> Seq<HelpItemView> {
    match view {
        HelpView::List => list_items(assistant),
        HelpView::RepoPage => page_items(assistant),
        HelpView::DiffModal => diff_items(),
    }
}

/// The "Hotkeys" tab content for the current view: only the bindings that apply here.
/// `assistant` is the name of the coding assistant that `c` runs.
pub fn help_items_hotkeys(view: HelpView, assistant: &str) -> (res: HelpItems)
    ensures
        res@ == hotkey_items(view, assistant@),
{
    match view {
        HelpView::List => list_hotkeys(assistant),
        HelpView::RepoPage => page_hotkeys(assistant),
        HelpView::DiffModal => diff_hotkeys(),
    }
}

} // verus!
