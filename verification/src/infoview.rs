//! The info block above the log or the diff of the selected repo.

use vstd::prelude::*;
use vstd::string::*;

use crate::app::AppState;
use crate::dialogs::InfoAction;
use crate::repo::{RepoDetails, RepoState, WorktreeEntry};
use crate::screen::{
    across, colored, in_bold, in_underline, no_lines, one_span, plain_style, step_across, Color,
    Line, Lines, Rect, Region, SpanView, Style,
};
use crate::spans::{label_of, status_label, web_base, web_remote};
use crate::text::{
    cat, cat3, cat4, cat5, decimal, join, joined, number, pad_right, padded, same,
};
use crate::times::{format_seconds, seconds_text};
use crate::widths::{
    cut_left, cut_right, shown_width, truncate_left, truncate_str, width_of, wrap_chars, wrap_link,
    wrapped, wrapped_link,
};

verus! {

/// The width of the labels.
pub const LABEL_WIDTH: u16 = 13;

// ---- what can be clicked ----

/// What a click in the info block does.
pub enum ActionView {
    Open(Seq<char>),
    Copy(Seq<char>),
    Toggle(Seq<char>),
}

/// What a click in the info block does.
pub open spec fn action_view(action: InfoAction) -> ActionView {
    match action {
        InfoAction::OpenUrl(url) => ActionView::Open(url@),
        InfoAction::CopyText(text) => ActionView::Copy(text@),
        InfoAction::ToggleExpand(field) => ActionView::Toggle(field@),
    }
}

/// A clickable stretch of a line of the info block, in columns of the block's content.
#[derive(Debug)]
pub struct InfoClick {
    pub line: usize,
    pub start: u16,
    pub end: u16,
    pub action: InfoAction,
}

/// A clickable stretch: its line, its first column, the one after its last, and what it does.
pub type ClickView = (int, u16, u16, ActionView);

/// The lines of the info block and what can be clicked in them.
#[derive(Debug)]
pub struct InfoBlock {
    pub lines: Lines,
    pub clicks: Vec<InfoClick>,
}

/// The lines of the info block and what can be clicked in them.
pub type InfoView = (Seq<Seq<SpanView>>, Seq<ClickView>);

/// A clickable stretch.
pub open spec fn click_view(click: InfoClick) -> ClickView {
    (click.line as int, click.start, click.end, action_view(click.action))
}

impl View for InfoBlock {
    type V = InfoView;

    open spec fn view(&self) -> InfoView {
        (self.lines@, Seq::new(self.clicks@.len(), |i: int| click_view(self.clicks@[i])))
    }
}

/// An info block without lines.
pub open spec fn no_info() -> InfoView {
    (no_lines(), Seq::empty())
}

/// An info block with a line after it.
pub open spec fn with_line(info: InfoView, line: Seq<SpanView>) -> InfoView {
    (info.0.push(line), info.1)
}

/// An info block in which the columns of a text in the value column of the next line can be
/// clicked.
pub open spec fn with_click(info: InfoView, text: Seq<char>, action: ActionView) -> InfoView {
    (
        info.0,
        info.1.push(
            (
                info.0.len() as int,
                LABEL_WIDTH,
                across(LABEL_WIDTH, (shown_width(text) as u16) as int),
                action,
            ),
        ),
    )
}

impl InfoBlock {
    fn new() -> (res: InfoBlock)
        ensures
            res@ == no_info(),
    {
        let res = InfoBlock { lines: Lines::new(), clicks: Vec::new() };
        assert(res@.1 =~= no_info().1);
        res
    }

    fn push(&mut self, line: Line)
        ensures
            final(self)@ == with_line(old(self)@, line@),
    {
        let ghost before = self@;
        self.lines.push(line);
        assert(self@.1 =~= before.1);
    }

    fn click(&mut self, start: u16, end: u16, action: InfoAction)
        ensures
            final(self)@ == (
                old(self)@.0,
                old(self)@.1.push(
                    (old(self)@.0.len() as int, start, end, action_view(action)),
                ),
            ),
    {
        let ghost before = self@;
        let line: usize = self.lines.len();
        self.clicks.push(InfoClick { line, start, end, action });
        assert(self@.1 =~= before.1.push((before.0.len() as int, start, end, action_view(action))));
    }

    fn click_text(&mut self, text: &str, action: InfoAction)
        ensures
            final(self)@ == with_click(old(self)@, text@, action_view(action)),
    {
        let width: u16 = width_of(text) as u16;
        self.click(LABEL_WIDTH, step_across(LABEL_WIDTH, width), action);
    }
}

// ---- styles ----

/// A label.
pub open spec fn label_style() -> Style {
    in_bold(colored(Color::White))
}

/// A value.
pub open spec fn value_style() -> Style {
    colored(Color::Gray)
}

/// A value that is a link.
pub open spec fn link_style() -> Style {
    in_underline(colored(Color::Cyan))
}

fn label() -> (res: Style)
    ensures
        res == label_style(),
{
    Style::color(Color::White).with_bold()
}

fn value() -> (res: Style)
    ensures
        res == value_style(),
{
    Style::color(Color::Gray)
}

fn link() -> (res: Style)
    ensures
        res == link_style(),
{
    Style::color(Color::Cyan).with_underline()
}

/// A label in its column; only the first line of a value has one.
pub open spec fn label_span(name: Seq<char>, first: bool) -> SpanView {
    if first {
        (padded(name, 13), label_style())
    } else {
        (padded(""@, 13), plain_style())
    }
}

fn labelled(name: &str, first: bool) -> (res: Line)
    ensures
        res@ == one_span(label_span(name@, first).0, label_span(name@, first).1),
{
    if first {
        Line::of(pad_right(name, 13).as_str(), label())
    } else {
        Line::of(pad_right("", 13).as_str(), Style::plain())
    }
}

/// A line with a label, or none, and a value.
pub open spec fn value_line(
    name: Seq<char>,
    first: bool,
    text: Seq<char>,
    style: Style,
) -> Seq<SpanView> {
    one_span(label_span(name, first).0, label_span(name, first).1).push((text, style))
}

fn make_line(name: &str, first: bool, text: &str, style: Style) -> (res: Line)
    ensures
        res@ == value_line(name@, first, text@, style),
{
    let mut line = labelled(name, first);
    line.push(text, style);
    line
}

/// An info block with a labelled value after it.
pub open spec fn with_plain(info: InfoView, name: Seq<char>, text: Seq<char>) -> InfoView {
    with_line(info, value_line(name, true, text, value_style()))
}

fn push_plain(info: &mut InfoBlock, name: &str, text: &str)
    ensures
        final(info)@ == with_plain(old(info)@, name@, text@),
{
    info.push(make_line(name, true, text, value()));
}

// ---- links ----

/// An info block with the first `n` lines of a link after it, each of which opens the URL.
pub open spec fn with_link_upto(
    info: InfoView,
    name: Seq<char>,
    segments: Seq<Seq<char>>,
    url: Seq<char>,
    n: nat,
) -> InfoView
    decreases n,
{
    if n == 0 || n > segments.len() {
        info
    } else {
        let before = with_link_upto(info, name, segments, url, (n - 1) as nat);
        with_line(
            with_click(before, segments[n - 1], ActionView::Open(url)),
            value_line(name, n == 1, segments[n - 1], link_style()),
        )
    }
}

/// An info block with a link after it, which wraps.
pub open spec fn with_link(
    info: InfoView,
    name: Seq<char>,
    text: Seq<char>,
    url: Seq<char>,
    width: usize,
) -> InfoView {
    let segments = wrapped_link(text, width);
    with_link_upto(info, name, segments, url, segments.len())
}

fn push_link(info: &mut InfoBlock, name: &str, text: &str, url: &str, width: usize)
    ensures
        final(info)@ == with_link(old(info)@, name@, text@, url@, width),
{
    let ghost start = info@;
    let segments = wrap_link(text, width);
    let mut i: usize = 0;
    while i < segments.len()
        invariant
            segments.deep_view() == wrapped_link(text@, width),
            i <= segments@.len(),
            info@ == with_link_upto(start, name@, segments.deep_view(), url@, i as nat),
        decreases segments@.len() - i,
    {
        assert(segments.deep_view()[i as int] == segments@[i as int]@);
        info.click_text(segments[i].as_str(), InfoAction::OpenUrl(url.to_owned()));
        info.push(make_line(name, i == 0, segments[i].as_str(), link()));
        i += 1;
    }
}

// ---- the rows ----

/// The status, with how long the pull took.
pub open spec fn status_value(repo: RepoState) -> Seq<char> {
    match repo.elapsed {
        Some(elapsed) => label_of(repo.status) + " · pull took "@ + seconds_text(elapsed) + "s"@,
        None => label_of(repo.status),
    }
}

fn status_text(repo: &RepoState) -> (res: String)
    ensures
        res@ == status_value(*repo),
{
    match repo.elapsed {
        Some(elapsed) => cat4(
            status_label(&repo.status),
            " · pull took ",
            format_seconds(elapsed).as_str(),
            "s",
        ),
        None => status_label(&repo.status).to_owned(),
    }
}

/// The browsable base of a repo's remote.
pub open spec fn base_of(repo: RepoState) -> Option<Seq<char>> {
    match repo.remote_url {
        Some(url) => web_base(url@),
        None => None,
    }
}

fn web_base_of(repo: &RepoState) -> (res: Option<String>)
    ensures
        match res {
            Some(base) => base_of(*repo) == Some(base@),
            None => base_of(*repo) is None,
        },
{
    match &repo.remote_url {
        Some(url) => web_remote(url.as_str()),
        None => None,
    }
}

/// The branch, which opens its page where the remote can be browsed.
pub open spec fn with_branch(info: InfoView, repo: RepoState, width: usize) -> InfoView {
    match repo.branch {
        Some(branch) => match base_of(repo) {
            Some(base) => if branch@ != "—"@ {
                with_link(info, "Branch"@, branch@, base + "/tree/"@ + branch@, width)
            } else {
                with_plain(info, "Branch"@, branch@)
            },
            None => with_plain(info, "Branch"@, branch@),
        },
        None => with_plain(info, "Branch"@, "—"@),
    }
}

fn push_branch(info: &mut InfoBlock, repo: &RepoState, width: usize)
    ensures
        final(info)@ == with_branch(old(info)@, *repo, width),
{
    match &repo.branch {
        Some(branch) => match web_base_of(repo) {
            Some(base) => {
                if !same(branch.as_str(), "—") {
                    let url = cat3(base.as_str(), "/tree/", branch.as_str());
                    push_link(info, "Branch", branch.as_str(), url.as_str(), width);
                } else {
                    push_plain(info, "Branch", branch.as_str());
                }
            },
            None => push_plain(info, "Branch", branch.as_str()),
        },
        None => push_plain(info, "Branch", "—"),
    }
}

/// Commits ahead and behind, where there are any.
pub open spec fn with_ahead(info: InfoView, details: RepoDetails) -> InfoView {
    match (details.ahead, details.behind) {
        (Some(ahead), Some(behind)) => if ahead > 0 || behind > 0 {
            with_plain(
                info,
                "Ahead/behind"@,
                "↑"@ + decimal(ahead as nat) + "  ↓"@ + decimal(behind as nat),
            )
        } else {
            info
        },
        _ => info,
    }
}

fn push_ahead(info: &mut InfoBlock, details: &RepoDetails)
    ensures
        final(info)@ == with_ahead(old(info)@, *details),
{
    match (details.ahead, details.behind) {
        (Some(ahead), Some(behind)) => {
            if ahead > 0 || behind > 0 {
                let text = cat4(
                    "↑",
                    number(ahead as u64).as_str(),
                    "  ↓",
                    number(behind as u64).as_str(),
                );
                push_plain(info, "Ahead/behind", text.as_str());
            }
        },
        _ => {},
    }
}

/// The hash of the last commit, which opens its page where the remote can be browsed.
pub open spec fn with_hash(info: InfoView, repo: RepoState, hash: Seq<char>) -> InfoView {
    match base_of(repo) {
        Some(base) => with_line(
            with_click(info, hash, ActionView::Open(base + "/commit/"@ + hash)),
            value_line("Last commit"@, true, hash, link_style()),
        ),
        None => with_plain(info, "Last commit"@, hash),
    }
}

fn push_hash(info: &mut InfoBlock, repo: &RepoState, hash: &str)
    ensures
        final(info)@ == with_hash(old(info)@, *repo, hash@),
{
    match web_base_of(repo) {
        Some(base) => {
            let url = cat3(base.as_str(), "/commit/", hash);
            info.click_text(hash, InfoAction::OpenUrl(url));
            info.push(make_line("Last commit", true, hash, link()));
        },
        None => push_plain(info, "Last commit", hash),
    }
}

/// An info block with the first `n` lines of a subject after it, each of which folds it.
pub open spec fn with_subject_upto(info: InfoView, chunks: Seq<Seq<char>>, n: nat) -> InfoView
    decreases n,
{
    if n == 0 || n > chunks.len() {
        info
    } else {
        let before = with_subject_upto(info, chunks, (n - 1) as nat);
        with_line(
            with_click(before, chunks[n - 1], ActionView::Toggle("commit"@)),
            value_line(""@, false, chunks[n - 1], value_style()),
        )
    }
}

/// The subject of the last commit: one truncated line, or all of it where it is expanded.
pub open spec fn with_subject(
    info: InfoView,
    subject: Seq<char>,
    expanded: bool,
    width: usize,
) -> InfoView {
    let shown = cut_right(subject, width);
    if shown_width(subject) <= width {
        with_line(info, value_line(""@, false, shown, value_style()))
    } else if expanded {
        let chunks = wrapped(subject, width);
        with_subject_upto(info, chunks, chunks.len())
    } else {
        with_line(
            with_click(info, shown, ActionView::Toggle("commit"@)),
            value_line(""@, false, shown, in_underline(value_style())),
        )
    }
}

fn push_subject(info: &mut InfoBlock, subject: &str, expanded: bool, width: usize)
    ensures
        final(info)@ == with_subject(old(info)@, subject@, expanded, width),
{
    let ghost start = info@;
    if width_of(subject) <= width {
        let shown = truncate_str(subject, width);
        info.push(make_line("", false, shown.as_str(), value()));
        return;
    }
    if expanded {
        let chunks = wrap_chars(subject, width);
        let mut i: usize = 0;
        while i < chunks.len()
            invariant
                chunks.deep_view() == wrapped(subject@, width),
                i <= chunks@.len(),
                info@ == with_subject_upto(start, chunks.deep_view(), i as nat),
            decreases chunks@.len() - i,
        {
            assert(chunks.deep_view()[i as int] == chunks@[i as int]@);
            info.click_text(chunks[i].as_str(), InfoAction::ToggleExpand("commit".to_owned()));
            info.push(make_line("", false, chunks[i].as_str(), value()));
            i += 1;
        }
        return;
    }
    let shown = truncate_str(subject, width);
    info.click_text(shown.as_str(), InfoAction::ToggleExpand("commit".to_owned()));
    info.push(make_line("", false, shown.as_str(), value().with_underline()));
}

/// The last commit: its hash, its subject, and when and by whom it was made.
pub open spec fn with_commit(
    info: InfoView,
    repo: RepoState,
    details: RepoDetails,
    expanded: bool,
    width: usize,
) -> InfoView {
    if details.commit_hash@.len() == 0 {
        info
    } else {
        let meta = "("@ + details.commit_rel_date@ + ", "@ + details.commit_author@ + ")"@;
        with_line(
            with_subject(
                with_hash(info, repo, details.commit_hash@),
                details.commit_subject@,
                expanded,
                width,
            ),
            value_line(""@, false, cut_right(meta, width), colored(Color::DarkGray)),
        )
    }
}

fn push_commit(
    info: &mut InfoBlock,
    repo: &RepoState,
    details: &RepoDetails,
    expanded: bool,
    width: usize,
)
    ensures
        final(info)@ == with_commit(old(info)@, *repo, *details, expanded, width),
{
    if details.commit_hash.as_str().is_empty() {
        return;
    }
    push_hash(info, repo, details.commit_hash.as_str());
    push_subject(info, details.commit_subject.as_str(), expanded, width);
    let meta = cat5(
        "(",
        details.commit_rel_date.as_str(),
        ", ",
        details.commit_author.as_str(),
        ")",
    );
    let shown = truncate_str(meta.as_str(), width);
    info.push(make_line("", false, shown.as_str(), Style::color(Color::DarkGray)));
}

/// What is uncommitted, stashed and on branches, where there is anything.
pub open spec fn with_changes(info: InfoView, details: RepoDetails) -> InfoView {
    if details.dirty_count > 0 || details.stash_count > 0 || details.branch_count > 0 {
        with_plain(
            info,
            "Changes"@,
            decimal(details.dirty_count as nat) + " uncommitted · "@ + decimal(
                details.stash_count as nat,
            ) + " stashed · "@ + (decimal(details.branch_count as nat) + " feature branches"@),
        )
    } else {
        info
    }
}

fn push_changes(info: &mut InfoBlock, details: &RepoDetails)
    ensures
        final(info)@ == with_changes(old(info)@, *details),
{
    if details.dirty_count > 0 || details.stash_count > 0 || details.branch_count > 0 {
        let branches = cat(number(details.branch_count as u64).as_str(), " feature branches");
        let text = cat5(
            number(details.dirty_count as u64).as_str(),
            " uncommitted · ",
            number(details.stash_count as u64).as_str(),
            " stashed · ",
            branches.as_str(),
        );
        push_plain(info, "Changes", text.as_str());
    }
}

/// What is known of the last commit and the changes, or that it is being read.
pub open spec fn with_details(
    info: InfoView,
    repo: RepoState,
    expanded: bool,
    width: usize,
) -> InfoView {
    match repo.details {
        Some(details) => with_changes(
            with_commit(with_ahead(info, details), repo, details, expanded, width),
            details,
        ),
        None => with_plain(
            with_plain(info, "Ahead/behind"@, "(loading…)"@),
            "Last commit"@,
            "(loading…)"@,
        ),
    }
}

fn push_details(info: &mut InfoBlock, repo: &RepoState, expanded: bool, width: usize)
    ensures
        final(info)@ == with_details(old(info)@, *repo, expanded, width),
{
    match &repo.details {
        Some(details) => {
            push_ahead(info, details);
            push_commit(info, repo, details, expanded, width);
            push_changes(info, details);
        },
        None => {
            push_plain(info, "Ahead/behind", "(loading…)");
            push_plain(info, "Last commit", "(loading…)");
        },
    }
}

/// The branches of a repo's worktrees among the first `n`.
pub open spec fn tree_branches(trees: Seq<WorktreeEntry>, name: Seq<char>, n: nat) -> Seq<Seq<char>>
    decreases n,
{
    if n == 0 || n > trees.len() {
        Seq::empty()
    } else {
        let before = tree_branches(trees, name, (n - 1) as nat);
        if trees[n - 1].repo@ == name {
            before.push(trees[n - 1].branch@)
        } else {
            before
        }
    }
}

/// The worktrees, where there are any.
pub open spec fn with_trees(info: InfoView, trees: Seq<WorktreeEntry>, name: Seq<char>) -> InfoView {
    let branches = tree_branches(trees, name, trees.len());
    if branches.len() > 0 {
        with_plain(info, "Worktrees"@, joined(branches, ", "@))
    } else {
        info
    }
}

fn push_trees(info: &mut InfoBlock, trees: &Vec<WorktreeEntry>, name: &str)
    ensures
        final(info)@ == with_trees(old(info)@, trees@, name@),
{
    let mut branches: Vec<String> = Vec::new();
    let mut i: usize = 0;
    while i < trees.len()
        invariant
            i <= trees@.len(),
            branches.deep_view() =~= tree_branches(trees@, name@, i as nat),
        decreases trees@.len() - i,
    {
        if same(trees[i].repo.as_str(), name) {
            branches.push(trees[i].branch.clone());
        }
        i += 1;
    }
    if branches.len() > 0 {
        push_plain(info, "Worktrees", join(&branches, ", ").as_str());
    }
}

/// A line of the path. Where the path does not fit, a click folds or unfolds it; the copy button
/// stands behind the value.
pub open spec fn with_path_line(
    info: InfoView,
    path: Seq<char>,
    first: bool,
    text: Seq<char>,
    copy: bool,
    overflows: bool,
    expanded: bool,
) -> InfoView {
    let folds = if overflows {
        with_click(info, text, ActionView::Toggle("Path"@))
    } else {
        info
    };
    let style = if overflows && !expanded {
        in_underline(value_style())
    } else {
        value_style()
    };
    let line = value_line("Path"@, first, text, style);
    if copy {
        let col = across(across(LABEL_WIDTH, (shown_width(text) as u16) as int), 1);
        with_line(
            (
                folds.0,
                folds.1.push((folds.0.len() as int, col, across(col, 1), ActionView::Copy(path))),
            ),
            line.push((" "@, plain_style())).push(("⧉"@, link_style())),
        )
    } else {
        with_line(folds, line)
    }
}

fn push_path_line(
    info: &mut InfoBlock,
    path: &str,
    first: bool,
    text: &str,
    copy: bool,
    overflows: bool,
    expanded: bool,
)
    ensures
        final(info)@ == with_path_line(
            old(info)@,
            path@,
            first,
            text@,
            copy,
            overflows,
            expanded,
        ),
{
    if overflows {
        info.click_text(text, InfoAction::ToggleExpand("Path".to_owned()));
    }
    let style = if overflows && !expanded {
        value().with_underline()
    } else {
        value()
    };
    let mut line = make_line("Path", first, text, style);
    if copy {
        let width: u16 = width_of(text) as u16;
        let col: u16 = step_across(step_across(LABEL_WIDTH, width), 1);
        info.click(col, step_across(col, 1), InfoAction::CopyText(path.to_owned()));
        line.push(" ", Style::plain());
        line.push("⧉", link());
    }
    info.push(line);
}

/// An info block with the first `n` lines of an expanded path after it.
pub open spec fn with_path_upto(info: InfoView, path: Seq<char>, chunks: Seq<Seq<char>>, n: nat) -> InfoView
    decreases n,
{
    if n == 0 || n > chunks.len() {
        info
    } else {
        with_path_line(
            with_path_upto(info, path, chunks, (n - 1) as nat),
            path,
            n == 1,
            chunks[n - 1],
            n == 1,
            true,
            true,
        )
    }
}

/// The columns left of the value column beside the copy button.
pub open spec fn copy_room(width: usize) -> usize {
    if width > 3 {
        (width - 2) as usize
    } else {
        1
    }
}

/// The path: its end, where it does not fit, or all of it where it is expanded.
pub open spec fn with_path(info: InfoView, path: Seq<char>, expanded: bool, width: usize) -> InfoView {
    if shown_width(path) <= width {
        with_path_line(info, path, true, path, true, false, expanded)
    } else if expanded {
        let chunks = wrapped(path, copy_room(width));
        with_path_upto(info, path, chunks, chunks.len())
    } else {
        with_path_line(info, path, true, cut_left(path, copy_room(width)), true, true, false)
    }
}

fn push_path(info: &mut InfoBlock, path: &str, expanded: bool, width: usize)
    ensures
        final(info)@ == with_path(old(info)@, path@, expanded, width),
{
    let ghost start = info@;
    let room: usize = if width > 3 {
        width - 2
    } else {
        1
    };
    if width_of(path) <= width {
        push_path_line(info, path, true, path, true, false, expanded);
        return;
    }
    if expanded {
        let chunks = wrap_chars(path, room);
        let mut i: usize = 0;
        while i < chunks.len()
            invariant
                chunks.deep_view() == wrapped(path@, room),
                i <= chunks@.len(),
                info@ == with_path_upto(start, path@, chunks.deep_view(), i as nat),
            decreases chunks@.len() - i,
        {
            assert(chunks.deep_view()[i as int] == chunks@[i as int]@);
            push_path_line(info, path, i == 0, chunks[i].as_str(), i == 0, true, true);
            i += 1;
        }
        return;
    }
    let shown = truncate_left(path, room);
    push_path_line(info, path, true, shown.as_str(), true, true, false);
}

/// The width of the value column.
pub open spec fn value_width(content_width: usize) -> usize {
    if content_width > 14 {
        (content_width - 13) as usize
    } else {
        1
    }
}

/// The info block of a repo.
pub open spec fn info_block(app: AppState, repo_idx: usize, content_width: usize) -> InfoView {
    let repo = app.repos@[repo_idx as int];
    let width = value_width(content_width);
    let status = with_plain(no_info(), "Status"@, status_value(repo));
    let branch = with_branch(status, repo, width);
    let details = with_details(branch, repo, app.expands("commit"@), width);
    let remote = match repo.remote_url {
        Some(url) => with_link(details, "Remote"@, url@, url@, width),
        None => details,
    };
    let trees = with_trees(remote, app.progress.worktrees@, repo.name@);
    with_path(trees, repo.path@, app.expands("Path"@), width)
}

/// The info block of a repo: its status, branch, last commit, changes, remote, worktrees and
/// path, each where there is something to tell, and what can be clicked in it.
pub fn build_info_lines(app: &AppState, repo_idx: usize, content_width: usize) -> (res: InfoBlock)
    requires
        repo_idx < app.repos@.len(),
    ensures
        res@ == info_block(*app, repo_idx, content_width),
{
    let repo = &app.repos[repo_idx];
    let width: usize = if content_width > 14 {
        content_width - 13
    } else {
        1
    };
    let mut info = InfoBlock::new();
    push_plain(&mut info, "Status", status_text(repo).as_str());
    push_branch(&mut info, repo, width);
    push_details(&mut info, repo, app.is_expanded("commit"), width);
    match &repo.remote_url {
        Some(url) => push_link(&mut info, "Remote", url.as_str(), url.as_str(), width),
        None => {},
    }
    push_trees(&mut info, &app.progress.worktrees, repo.name.as_str());
    push_path(&mut info, repo.path.as_str(), app.is_expanded("Path"), width);
    info
}

// ---- on the screen ----

/// What can be clicked on the screen: the regions and what they do.
pub open spec fn click_regions(entries: Seq<(Region, InfoAction)>) -> Seq<(Region, ActionView)> {
    Seq::new(entries.len(), |i: int| (entries[i].0, action_view(entries[i].1)))
}

/// The regions of the first `n` clickable stretches whose line is visible, where the block's
/// content stands at a rectangle.
pub open spec fn placed_upto(clicks: Seq<ClickView>, inner: Rect, visible: int, n: nat) -> Seq<
    (Region, ActionView),
>
    decreases n,
{
    if n == 0 || n > clicks.len() {
        Seq::empty()
    } else {
        let before = placed_upto(clicks, inner, visible, (n - 1) as nat);
        let click = clicks[n - 1];
        if click.0 < visible {
            before.push(
                (
                    (
                        across(inner.y, click.0),
                        across(inner.x, click.1 as int),
                        across(inner.x, click.2 as int),
                    ),
                    click.3,
                ),
            )
        } else {
            before
        }
    }
}

/// The lines of a block that are visible in a rectangle.
pub open spec fn visible_lines(lines: nat, inner: Rect) -> int {
    if lines < inner.height {
        lines as int
    } else {
        inner.height as int
    }
}

/// Where the clickable stretches of an info block stand on the screen; those below the bottom of
/// the block cannot be clicked.
pub fn place_clicks(info: InfoBlock, inner: Rect) -> (res: (Lines, Vec<(Region, InfoAction)>))
    ensures
        res.0@ == info@.0,
        click_regions(res.1@) == placed_upto(
            info@.1,
            inner,
            visible_lines(info@.0.len(), inner),
            info@.1.len(),
        ),
{
    let total: usize = info.lines.len();
    let visible: usize = if total < inner.height as usize {
        total
    } else {
        inner.height as usize
    };
    let mut placed: Vec<(Region, InfoAction)> = Vec::new();
    let mut i: usize = 0;
    while i < info.clicks.len()
        invariant
            i <= info.clicks@.len(),
            visible == visible_lines(info@.0.len(), inner),
            click_regions(placed@) =~= placed_upto(info@.1, inner, visible as int, i as nat),
        decreases info.clicks@.len() - i,
    {
        let click = &info.clicks[i];
        assert(info@.1[i as int] == click_view(*click));
        if click.line < visible {
            let region: Region = (
                step_across(inner.y, click.line as u16),
                step_across(inner.x, click.start),
                step_across(inner.x, click.end),
            );
            placed.push((region, click.action.clone()));
        }
        i += 1;
    }
    (info.lines, placed)
}

// ---- what the info block says ----

/// What is ahead comes before what is behind, and neither is shown where there is nothing of
/// either.
pub proof fn law_ahead_and_behind(info: InfoView, details: RepoDetails, ahead: u32, behind: u32)
    requires
        details.ahead == Some(ahead),
        details.behind == Some(behind),
    ensures
        ahead == 0 && behind == 0 ==> with_ahead(info, details) == info,
        ahead > 0 || behind > 0 ==> with_ahead(info, details).0.last() == value_line(
            "Ahead/behind"@,
            true,
            "↑"@ + decimal(ahead as nat) + "  ↓"@ + decimal(behind as nat),
            value_style(),
        ),
{
}

/// Changes, stashes and branches are told in this order where there are any.
pub proof fn law_changes_are_told(info: InfoView, details: RepoDetails)
    ensures
        details.dirty_count == 0 && details.stash_count == 0 && details.branch_count == 0
            ==> with_changes(info, details) == info,
        details.dirty_count > 0 || details.stash_count > 0 || details.branch_count > 0
            ==> with_changes(info, details).0.last() == value_line(
            "Changes"@,
            true,
            decimal(details.dirty_count as nat) + " uncommitted · "@ + decimal(
                details.stash_count as nat,
            ) + " stashed · "@ + (decimal(details.branch_count as nat) + " feature branches"@),
            value_style(),
        ),
{
}

/// A commit and a branch are linked to their own page where the remote can be browsed.
pub proof fn law_links_of_the_info(info: InfoView, repo: RepoState, base: Seq<char>, hash: Seq<char>)
    requires
        base_of(repo) == Some(base),
    ensures
        with_hash(info, repo, hash).1.last().3 == ActionView::Open(base + "/commit/"@ + hash),
        with_hash(info, repo, hash).0.last() == value_line("Last commit"@, true, hash, link_style()),
{
}

/// The state is told with how long the pull took, once it is over.
pub proof fn law_state_is_told(repo: RepoState, elapsed: u64)
    ensures
        repo.elapsed is None ==> status_value(repo) == label_of(repo.status),
        repo.elapsed == Some(elapsed) ==> status_value(repo) == label_of(repo.status)
            + " · pull took "@ + seconds_text(elapsed) + "s"@,
{
}

proof fn lemma_tree_branches(trees: Seq<WorktreeEntry>, name: Seq<char>, n: nat)
    requires
        n <= trees.len(),
    ensures
        tree_branches(trees, name, n) =~= trees.take(n as int).filter(
            |tree: WorktreeEntry| tree.repo@ == name,
        ).map_values(|tree: WorktreeEntry| tree.branch@),
    decreases n,
{
    reveal(Seq::filter);
    if n > 0 {
        lemma_tree_branches(trees, name, (n - 1) as nat);
        assert(trees.take(n as int).drop_last() =~= trees.take(n - 1));
        assert(trees.take(n as int).last() == trees[n - 1]);
    } else {
        assert(trees.take(0) =~= Seq::empty());
    }
}

/// The worktrees of a repo are told by their branches, in their order.
pub proof fn law_worktrees_are_told(trees: Seq<WorktreeEntry>, name: Seq<char>)
    ensures
        tree_branches(trees, name, trees.len()) == trees.filter(
            |tree: WorktreeEntry| tree.repo@ == name,
        ).map_values(|tree: WorktreeEntry| tree.branch@),
{
    lemma_tree_branches(trees, name, trees.len());
    assert(trees.take(trees.len() as int) =~= trees);
}

} // verus!
