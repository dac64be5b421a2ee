//! What a key does while a modal is open.

use vstd::prelude::*;
use vstd::string::*;

use crate::app::{AppState, COPY_MENU_ROWS, SETTINGS_ROWS};
use crate::dialogs::{BasePicker, ConfirmAction, PageRow};
use crate::modals::{moved, shift};
use crate::repo::{BranchInfo, RepoPageData};
use crate::text::{chars_of, same, text_between};

verus! {

/// A key.
#[derive(Debug, Clone, Copy, PartialEq, Eq, Structural)]
pub enum KeyCode {
    Char(char),
    Esc,
    Enter,
    Backspace,
    Tab,
    BackTab,
    Up,
    Down,
    Left,
    Right,
    Home,
    End,
    PageUp,
    PageDown,
    Other,
}

/// A key press with its modifiers.
#[derive(Debug, Clone, Copy, PartialEq, Eq, Structural)]
pub struct Key {
    pub code: KeyCode,
    pub control: bool,
    pub shift: bool,
    pub alt: bool,
    /// Any further modifier.
    pub more: bool,
}

impl Key {
    /// Control and `c`.
    pub open spec fn interrupts(self) -> bool {
        self.code == KeyCode::Char('c') && self.control
    }

    /// The key is a given character.
    pub open spec fn types(self, c: char) -> bool {
        self.code == KeyCode::Char(c)
    }

    pub(crate) fn is_interrupt(self) -> (res: bool)
        ensures
            res == self.interrupts(),
    {
        self.code == KeyCode::Char('c') && self.control
    }
}

/// What is to be done outside the state.
#[derive(Debug)]
pub enum Effect {
    Nothing,
    /// Leave with an exit code.
    Exit(i32),
    /// Replace the process by the build on disk.
    Reload,
    /// Carry out a confirmed action.
    Confirmed(ConfirmAction),
    OpenUrl(String),
    CopyText(String),
    /// Suspend the screen and run the coding assistant in a directory.
    Claude(String),
    /// Suspend the screen and run lazygit in a directory.
    Lazygit(String),
    /// Fetch what the diff modal shows.
    LoadDiff,
    /// Fetch the diff of the selected file of the diff modal.
    LoadFile,
    /// Ask for confirmation with the files of a stash.
    PrepareDropStash { repo_idx: usize, index: usize },
    /// Ask for confirmation with the changes in a directory.
    PrepareDiscard { repo_idx: usize, path: String },
    Checkout { repo_idx: usize, branch: String },
    /// Fast-forward the selected row of the repo page.
    PullBranch { repo_idx: usize, row: PageRow },
    /// Fast-forward all branches of a repo.
    PullAllBranches { repo_idx: usize },
    /// Compare a branch with another base, or with the one found on its own.
    SetBase { repo_idx: usize, branch: String, base: Option<String> },
    /// Pull these repos again.
    Rerun(Vec<usize>),
    /// Keep the preferences for the next run.
    SavePrefs,
    /// Look up the members of the groups that have to be.
    ResolveGroups,
    /// Make the list wider or narrower.
    ResizeSplit { wider: bool },
    /// Put the divider at a column.
    SplitAt { col: u16 },
}

impl Effect {
    /// A URL is to be opened.
    pub open spec fn opens(self, url: Seq<char>) -> bool {
        match self {
            Effect::OpenUrl(opened) => opened@ == url,
            _ => false,
        }
    }

    /// A text is to be copied.
    pub open spec fn hands_out(self, text: Seq<char>) -> bool {
        match self {
            Effect::CopyText(copied) => copied@ == text,
            _ => false,
        }
    }
}

/// The exit code after Control and `c`.
pub const INTERRUPTED: i32 = 130;

// ---- the name filter ----

/// The name filter without its last character; none is left of a single one.
pub open spec fn is_shortened(before: Option<String>, after: Option<String>) -> bool {
    match before {
        Some(filter) => if filter@.len() <= 1 {
            after is None
        } else {
            after is Some && after->0@ == filter@.drop_last()
        },
        None => after is None,
    }
}

/// The name filter with one more character.
pub open spec fn is_lengthened(before: Option<String>, c: char, after: Option<String>) -> bool {
    after is Some && after->0@ == (match before {
        Some(filter) => filter@.push(c),
        None => Seq::<char>::empty().push(c),
    })
}

/// What a key does to the name filter while it is typed.
pub open spec fn filter_keyed(before: AppState, key: Key, after: AppState) -> bool {
    match key.code {
        KeyCode::Esc => after == (AppState { filter_input_mode: false, filter: None, ..before }),
        KeyCode::Enter => after == (AppState { filter_input_mode: false, ..before }),
        KeyCode::Backspace => {
            &&& is_shortened(before.filter, after.filter)
            &&& after == (AppState { filter: after.filter, ..before })
        },
        KeyCode::Char(c) => {
            &&& is_lengthened(before.filter, c, after.filter)
            &&& after == (AppState { filter: after.filter, ..before })
        },
        _ => after == before,
    }
}

fn shorten(filter: Option<String>) -> (res: Option<String>)
    ensures
        is_shortened(filter, res),
{
    match filter {
        Some(filter) => {
            let chars = chars_of(filter.as_str());
            let n: usize = chars.len();
            if n <= 1 {
                None
            } else {
                assert(chars@.subrange(0, n - 1) =~= chars@.drop_last());
                Some(text_between(&chars, 0, n - 1))
            }
        },
        None => None,
    }
}

fn lengthen(filter: Option<String>, c: char) -> (res: Option<String>)
    ensures
        is_lengthened(filter, c, res),
{
    let mut text = match filter {
        Some(filter) => filter,
        None => String::new(),
    };
    text.push(c);
    Some(text)
}

fn shorten_filter(app: &mut AppState)
    ensures
        final(app).wf() == old(app).wf(),
        is_shortened(old(app).filter, final(app).filter),
        *final(app) == (AppState { filter: final(app).filter, ..*old(app) }),
{
    let filter = app.filter.take();
    app.filter = shorten(filter);
}

fn lengthen_filter(app: &mut AppState, c: char)
    ensures
        final(app).wf() == old(app).wf(),
        is_lengthened(old(app).filter, c, final(app).filter),
        *final(app) == (AppState { filter: final(app).filter, ..*old(app) }),
{
    let filter = app.filter.take();
    app.filter = lengthen(filter, c);
}

/// A key while the name filter is typed: Esc drops the filter, Enter keeps it.
pub fn filter_key(app: &mut AppState, key: Key)
    requires
        old(app).wf(),
    ensures
        final(app).wf(),
        filter_keyed(*old(app), key, *final(app)),
{
    match key.code {
        KeyCode::Esc => {
            app.end_filter(true);
        },
        KeyCode::Enter => {
            app.end_filter(false);
        },
        KeyCode::Backspace => {
            shorten_filter(app);
        },
        KeyCode::Char(c) => {
            lengthen_filter(app, c);
        },
        _ => {},
    }
}

// ---- the confirmation dialog ----

/// What a key does to a confirmation dialog.
pub open spec fn confirm_keyed(before: AppState, key: Key, after: AppState, effect: Effect) -> bool {
    if key.interrupts() {
        after == before && effect == Effect::Exit(INTERRUPTED)
    } else if key.types('y') || key.code is Enter {
        match before.overlays.confirm {
            Some(dialog) => after == before.with_confirm(None) && effect == Effect::Confirmed(
                dialog.action,
            ),
            None => after == before.with_confirm(None) && effect is Nothing,
        }
    } else if key.types('n') || key.types('q') || key.code is Esc {
        after == before.with_confirm(None) && effect is Nothing
    } else {
        after == before && effect is Nothing
    }
}

/// A key over a confirmation dialog: y/Enter confirm, n/Esc/q cancel.
pub fn confirm_key(app: &mut AppState, key: Key) -> (res: Effect)
    requires
        old(app).wf(),
    ensures
        final(app).wf(),
        confirm_keyed(*old(app), key, *final(app), res),
{
    if key.is_interrupt() {
        return Effect::Exit(INTERRUPTED);
    }
    match key.code {
        KeyCode::Char('y') | KeyCode::Enter => accept(app),
        KeyCode::Char('n') | KeyCode::Char('q') | KeyCode::Esc => {
            app.set_confirm(None);
            Effect::Nothing
        },
        _ => Effect::Nothing,
    }
}

/// Accepts the confirmation dialog: it closes, and its action is to be carried out.
pub fn accept(app: &mut AppState) -> (res: Effect)
    ensures
        final(app).wf() == old(app).wf(),
        *final(app) == old(app).with_confirm(None),
        match old(app).overlays.confirm {
            Some(dialog) => res == Effect::Confirmed(dialog.action),
            None => res is Nothing,
        },
{
    reveal(AppState::with_confirm);
    match app.overlays.confirm.take() {
        Some(dialog) => Effect::Confirmed(dialog.action),
        None => Effect::Nothing,
    }
}

// ---- the build-info modal ----

/// A key over the build-info modal: `r` restarts, any other key closes it.
pub fn build_info_key(app: &mut AppState, key: Key) -> (res: Effect)
    requires
        old(app).wf(),
    ensures
        final(app).wf(),
        if key.interrupts() {
            *final(app) == *old(app) && res == Effect::Exit(INTERRUPTED)
        } else if key.types('r') {
            *final(app) == *old(app) && res is Reload
        } else {
            *final(app) == old(app).with_build_info(false) && res is Nothing
        },
{
    if key.is_interrupt() {
        Effect::Exit(INTERRUPTED)
    } else if key.code == KeyCode::Char('r') {
        Effect::Reload
    } else {
        app.set_build_info(false);
        Effect::Nothing
    }
}

// ---- the settings modal ----

/// What a key does to the settings modal.
pub open spec fn settings_keyed(
    before: AppState,
    key: Key,
    after: AppState,
    effect: Effect,
) -> bool {
    let row = before.overlays.settings_selected;
    if key.interrupts() {
        after == before && effect == Effect::Exit(INTERRUPTED)
    } else if key.code is Esc || key.types('q') || key.types(',') {
        after == before.with_settings(false) && effect is Nothing
    } else if key.types('j') || key.code is Down {
        &&& effect is Nothing
        &&& after == if row + 1 < SETTINGS_ROWS {
            before.with_settings_row((row + 1) as usize)
        } else {
            before
        }
    } else if key.types('k') || key.code is Up {
        &&& effect is Nothing
        &&& after == before.with_settings_row(
            if row > 0 {
                (row - 1) as usize
            } else {
                0
            },
        )
    } else if key.types(' ') || key.code is Enter {
        &&& effect is SavePrefs
        &&& after == before.with_prefs(AppState::toggled(before.prefs, row))
    } else {
        after == before && effect is Nothing
    }
}

/// A key over the settings modal: j/k move, space/enter toggle, esc/q/, close.
pub fn settings_key(app: &mut AppState, key: Key) -> (res: Effect)
    requires
        old(app).wf(),
    ensures
        final(app).wf(),
        settings_keyed(*old(app), key, *final(app), res),
{
    if key.is_interrupt() {
        return Effect::Exit(INTERRUPTED);
    }
    let row: usize = app.overlays.settings_selected;
    match key.code {
        KeyCode::Esc | KeyCode::Char('q') | KeyCode::Char(',') => {
            app.set_settings(false);
            Effect::Nothing
        },
        KeyCode::Char('j') | KeyCode::Down => {
            if row < SETTINGS_ROWS - 1 {
                app.set_settings_row(row + 1);
            }
            Effect::Nothing
        },
        KeyCode::Char('k') | KeyCode::Up => {
            app.set_settings_row(
                if row > 0 {
                    row - 1
                } else {
                    0
                },
            );
            Effect::Nothing
        },
        KeyCode::Char(' ') | KeyCode::Enter => {
            app.toggle_selected_setting();
            Effect::SavePrefs
        },
        _ => Effect::Nothing,
    }
}

// ---- the copy menu ----

/// The selected row of the copy menu.
pub open spec fn menu_row(app: AppState) -> usize {
    match app.overlays.copy_menu {
        Some(row) => row,
        None => 0,
    }
}

/// The text that the copy menu copies is handed out, if a row of the repo page is selected.
pub open spec fn is_copy(app: AppState, option: usize, effect: Effect) -> bool {
    if app.page.selected < app.page_len() {
        exists|row: PageRow|
            #![trigger app.is_target(row)]
            app.is_target(row) && effect.hands_out(AppState::copied(option, row))
    } else {
        effect is Nothing
    }
}

/// What a key does to the copy menu.
pub open spec fn copy_keyed(before: AppState, key: Key, after: AppState, effect: Effect) -> bool {
    let row = menu_row(before);
    if key.interrupts() {
        after == before && effect == Effect::Exit(INTERRUPTED)
    } else if key.code is Esc || key.types('q') || key.types('y') {
        after == before.with_copy_menu(None) && effect is Nothing
    } else if key.types('j') || key.code is Down {
        &&& effect is Nothing
        &&& after == if row + 1 < COPY_MENU_ROWS {
            before.with_copy_menu(Some((row + 1) as usize))
        } else {
            before
        }
    } else if key.types('k') || key.code is Up {
        &&& effect is Nothing
        &&& after == before.with_copy_menu(
            Some(
                if row > 0 {
                    (row - 1) as usize
                } else {
                    0
                },
            ),
        )
    } else if key.types(' ') || key.code is Enter {
        &&& after == before.with_copy_menu(None)
        &&& is_copy(before, row, effect)
    } else {
        after == before && effect is Nothing
    }
}

/// Copies what an option of the copy menu stands for, and closes the menu.
pub fn copy_chosen(app: &mut AppState, option: usize) -> (res: Effect)
    requires
        old(app).wf(),
    ensures
        final(app).wf(),
        *final(app) == old(app).with_copy_menu(None),
        is_copy(*old(app), option, res),
{
    reveal(AppState::with_copy_menu);
    let ghost before = *app;
    let target = app.repo_page_target();
    app.set_copy_menu(Some(option));
    let text: Option<String> = match &target {
        Some(row) => {
            assert(before.is_target(*row));
            Some(app.copy_menu_text(row))
        },
        None => None,
    };
    app.set_copy_menu(None);
    match text {
        Some(text) => Effect::CopyText(text),
        None => Effect::Nothing,
    }
}

/// A key over the copy menu: pick path, branch or both, then copy.
pub fn copy_key(app: &mut AppState, key: Key) -> (res: Effect)
    requires
        old(app).wf(),
    ensures
        final(app).wf(),
        copy_keyed(*old(app), key, *final(app), res),
{
    if key.is_interrupt() {
        return Effect::Exit(INTERRUPTED);
    }
    let row: usize = match app.overlays.copy_menu {
        Some(row) => row,
        None => 0,
    };
    match key.code {
        KeyCode::Esc | KeyCode::Char('q') | KeyCode::Char('y') => {
            app.set_copy_menu(None);
            Effect::Nothing
        },
        KeyCode::Char('j') | KeyCode::Down => {
            if row < COPY_MENU_ROWS - 1 {
                app.set_copy_menu(Some(row + 1));
            }
            Effect::Nothing
        },
        KeyCode::Char('k') | KeyCode::Up => {
            app.set_copy_menu(
                Some(
                    if row > 0 {
                        row - 1
                    } else {
                        0
                    },
                ),
            );
            Effect::Nothing
        },
        KeyCode::Char(' ') | KeyCode::Enter => copy_chosen(app, row),
        _ => Effect::Nothing,
    }
}

// ---- the base-branch picker ----

/// The picker with its selection moved.
pub open spec fn stepped_picker(picker: Option<BasePicker>, delta: int) -> Option<BasePicker> {
    match picker {
        Some(picker) => Some(
            BasePicker {
                selected: moved(
                    picker.selected as int,
                    delta,
                    picker.candidates@.len() as int,
                ) as usize,
                ..picker
            },
        ),
        None => None,
    }
}

fn step_picker(picker: Option<BasePicker>, delta: isize) -> (res: Option<BasePicker>)
    ensures
        res == stepped_picker(picker, delta as int),
{
    match picker {
        Some(picker) => {
            let mut picker = picker;
            let last: usize = picker.candidates.len();
            picker.selected = shift(picker.selected, delta, last);
            Some(picker)
        },
        None => None,
    }
}

/// The base that the picker's selection stands for: none for its first row.
pub open spec fn picked_base(picker: BasePicker, base: Option<String>) -> bool {
    if 0 < picker.selected <= picker.candidates@.len() {
        base == Some(picker.candidates@[picker.selected - 1])
    } else {
        base is None
    }
}

/// What confirming the picker hands out.
pub open spec fn is_set_base(picker: Option<BasePicker>, effect: Effect) -> bool {
    match picker {
        Some(picker) => effect matches Effect::SetBase { repo_idx, branch, base } && repo_idx
            == picker.repo_index && branch == picker.branch && picked_base(picker, base),
        None => effect is Nothing,
    }
}

impl AppState {
    /// Moves the picker's selection.
    pub fn move_base_picker(&mut self, delta: isize)
        ensures
            final(self).wf() == old(self).wf(),
            *final(self) == old(self).with_picker(
                stepped_picker(old(self).overlays.base_picker, delta as int),
            ),
    {
        reveal(AppState::with_picker);
        let picker = self.overlays.base_picker.take();
        self.overlays.base_picker = step_picker(picker, delta);
    }

    /// Closes the picker; the base that was selected is to be set.
    pub fn confirm_base_picker(&mut self) -> (res: Effect)
        ensures
            final(self).wf() == old(self).wf(),
            *final(self) == old(self).with_picker(None),
            is_set_base(old(self).overlays.base_picker, res),
    {
        reveal(AppState::with_picker);
        match self.overlays.base_picker.take() {
            Some(picker) => {
                let base = if 0 < picker.selected && picker.selected <= picker.candidates.len() {
                    Some(picker.candidates[picker.selected - 1].clone())
                } else {
                    None
                };
                Effect::SetBase { repo_idx: picker.repo_index, branch: picker.branch, base }
            },
            None => Effect::Nothing,
        }
    }

    /// The names of the branches among the first `n` that differ from a name.
    pub open spec fn others_upto(branches: Seq<BranchInfo>, name: Seq<char>, n: nat) -> Seq<
        Seq<char>,
    >
        decreases n,
    {
        if n == 0 || n > branches.len() {
            Seq::empty()
        } else if branches[n - 1].name@ == name {
            Self::others_upto(branches, name, (n - 1) as nat)
        } else {
            Self::others_upto(branches, name, (n - 1) as nat).push(branches[n - 1].name@)
        }
    }

    /// A picker for a branch of a repo page: the other branches are its candidates.
    pub open spec fn is_picker_for(
        picker: BasePicker,
        repo_index: usize,
        branch: BranchInfo,
        page: RepoPageData,
    ) -> bool {
        &&& picker.repo_index == repo_index
        &&& picker.branch == branch.name
        &&& picker.candidates.deep_view() == Self::others_upto(
            page.branches@,
            branch.name@,
            page.branches@.len(),
        )
        &&& picker.detected == (if branch.base_is_override {
            None
        } else {
            branch.base
        })
        &&& picker.current == (if branch.base_is_override {
            branch.base
        } else {
            None
        })
        &&& picker.selected == 0
    }

    /// Opens the base-branch picker for a branch of the repo page; any other row has none.
    pub fn open_base_picker(&mut self, selection: usize)
        requires
            old(self).wf(),
        ensures
            final(self).wf(),
            match old(self).page.repo {
                Some(idx) => match old(self).repos@[idx as int].page {
                    Some(page) => if selection < page.branches@.len() {
                        &&& final(self).overlays.base_picker is Some
                        &&& Self::is_picker_for(
                            final(self).overlays.base_picker->0,
                            idx,
                            page.branches@[selection as int],
                            page,
                        )
                        &&& *final(self) == old(self).with_picker(final(self).overlays.base_picker)
                    } else {
                        *final(self) == *old(self)
                    },
                    None => *final(self) == *old(self),
                },
                None => *final(self) == *old(self),
            },
    {
        reveal(AppState::with_picker);
        let picker: Option<BasePicker> = match self.page.repo {
            Some(idx) => match &self.repos[idx].page {
                Some(page) => if selection < page.branches.len() {
                    Some(picker_for(idx, page, selection))
                } else {
                    None
                },
                None => None,
            },
            None => None,
        };
        if picker.is_some() {
            self.set_picker(picker);
        }
    }
}

fn picker_for(repo_index: usize, page: &RepoPageData, selection: usize) -> (res: BasePicker)
    requires
        selection < page.branches@.len(),
    ensures
        AppState::is_picker_for(res, repo_index, page.branches@[selection as int], *page),
{
    let branch = &page.branches[selection];
    let mut candidates: Vec<String> = Vec::new();
    let mut i: usize = 0;
    assert(candidates.deep_view() =~= AppState::others_upto(page.branches@, branch.name@, 0));
    while i < page.branches.len()
        invariant
            i <= page.branches@.len(),
            candidates.deep_view() =~= AppState::others_upto(
                page.branches@,
                branch.name@,
                i as nat,
            ),
        decreases page.branches@.len() - i,
    {
        if !same(page.branches[i].name.as_str(), branch.name.as_str()) {
            candidates.push(page.branches[i].name.clone());
        }
        i += 1;
    }
    let base = crate::app::clone_text(&branch.base);
    let (detected, current) = if branch.base_is_override {
        (None, base)
    } else {
        (base, None)
    };
    BasePicker {
        repo_index,
        branch: branch.name.clone(),
        candidates,
        detected,
        current,
        selected: 0,
    }
}

/// What a key does to the base-branch picker.
pub open spec fn picker_keyed(before: AppState, key: Key, after: AppState, effect: Effect) -> bool {
    let picker = before.overlays.base_picker;
    if key.interrupts() {
        after == before && effect == Effect::Exit(INTERRUPTED)
    } else if key.code is Esc || key.types('q') {
        after == before.with_picker(None) && effect is Nothing
    } else if key.types('j') || key.code is Down {
        after == before.with_picker(stepped_picker(picker, 1)) && effect is Nothing
    } else if key.types('k') || key.code is Up {
        after == before.with_picker(stepped_picker(picker, -1)) && effect is Nothing
    } else if key.types('g') || key.code is Home {
        after == before.with_picker(stepped_picker(picker, isize::MIN as int)) && effect is Nothing
    } else if key.types('G') || key.code is End {
        after == before.with_picker(stepped_picker(picker, isize::MAX as int)) && effect is Nothing
    } else if key.types(' ') || key.code is Enter {
        after == before.with_picker(None) && is_set_base(picker, effect)
    } else {
        after == before && effect is Nothing
    }
}

/// A key over the base-branch picker: choose a base, or to have it found.
pub fn picker_key(app: &mut AppState, key: Key) -> (res: Effect)
    requires
        old(app).wf(),
    ensures
        final(app).wf(),
        picker_keyed(*old(app), key, *final(app), res),
{
    if key.is_interrupt() {
        return Effect::Exit(INTERRUPTED);
    }
    match key.code {
        KeyCode::Esc | KeyCode::Char('q') => {
            app.set_picker(None);
            Effect::Nothing
        },
        KeyCode::Char('j') | KeyCode::Down => {
            app.move_base_picker(1);
            Effect::Nothing
        },
        KeyCode::Char('k') | KeyCode::Up => {
            app.move_base_picker(-1);
            Effect::Nothing
        },
        KeyCode::Char('g') | KeyCode::Home => {
            app.move_base_picker(isize::MIN);
            Effect::Nothing
        },
        KeyCode::Char('G') | KeyCode::End => {
            app.move_base_picker(isize::MAX);
            Effect::Nothing
        },
        KeyCode::Char(' ') | KeyCode::Enter => app.confirm_base_picker(),
        _ => Effect::Nothing,
    }
}

// ---- the help modal ----

/// A line number some lines further on, as far as lines can be counted.
pub open spec fn further(line: usize, by: int) -> usize {
    moved(line as int, by, usize::MAX as int) as usize
}

/// The documentation site.
pub open spec fn docs_url() -> Seq<char> {
    "https://steven-pribilinskiy.github.io/pull-all/"@
}

/// What a key does to the help modal.
pub open spec fn help_keyed(before: AppState, key: Key, after: AppState, effect: Effect) -> bool {
    let line = before.overlays.help_scroll;
    if key.interrupts() {
        after == before && effect == Effect::Exit(INTERRUPTED)
    } else if key.types('?') || key.code is Esc || key.types('q') {
        after == before.with_help(false) && effect is Nothing
    } else if key.code is Tab {
        after == before.with_help_tab(before.prefs.help_tab.following()) && effect is SavePrefs
    } else if key.code is BackTab {
        after == before.with_help_tab(before.prefs.help_tab.preceding()) && effect is SavePrefs
    } else if key.types('j') || key.code is Down {
        after == before.with_help_scroll(further(line, 1)) && effect is Nothing
    } else if key.types('k') || key.code is Up {
        after == before.with_help_scroll(further(line, -1)) && effect is Nothing
    } else if key.code is PageDown {
        after == before.with_help_scroll(further(line, 10)) && effect is Nothing
    } else if key.code is PageUp {
        after == before.with_help_scroll(further(line, -10)) && effect is Nothing
    } else if key.types('g') || key.code is Home {
        after == before.with_help_scroll(0) && effect is Nothing
    } else if key.types('G') || key.code is End {
        after == before.with_help_scroll(usize::MAX) && effect is Nothing
    } else if key.types('D') {
        after == before && effect.opens(docs_url())
    } else {
        after == before && effect is Nothing
    }
}

/// Opens the documentation site.
pub fn open_docs() -> (res: Effect)
    ensures
        res.opens(docs_url()),
{
    Effect::OpenUrl("https://steven-pribilinskiy.github.io/pull-all/".to_owned())
}

/// A key over the help modal: scroll, switch tabs, or close.
pub fn help_key(app: &mut AppState, key: Key) -> (res: Effect)
    requires
        old(app).wf(),
    ensures
        final(app).wf(),
        help_keyed(*old(app), key, *final(app), res),
{
    if key.is_interrupt() {
        return Effect::Exit(INTERRUPTED);
    }
    let line: usize = app.overlays.help_scroll;
    match key.code {
        KeyCode::Char('?') | KeyCode::Esc | KeyCode::Char('q') => {
            app.set_help(false);
            return Effect::Nothing;
        },
        KeyCode::Tab => {
            let tab = app.prefs.help_tab.next();
            app.set_help_tab(tab);
            return Effect::SavePrefs;
        },
        KeyCode::BackTab => {
            let tab = app.prefs.help_tab.prev();
            app.set_help_tab(tab);
            return Effect::SavePrefs;
        },
        KeyCode::Char('j') | KeyCode::Down => {
            app.set_help_scroll(shift(line, 1, usize::MAX));
            return Effect::Nothing;
        },
        KeyCode::Char('k') | KeyCode::Up => {
            app.set_help_scroll(shift(line, -1, usize::MAX));
            return Effect::Nothing;
        },
        KeyCode::PageDown => {
            app.set_help_scroll(shift(line, 10, usize::MAX));
            return Effect::Nothing;
        },
        KeyCode::PageUp => {
            app.set_help_scroll(shift(line, -10, usize::MAX));
            return Effect::Nothing;
        },
        KeyCode::Char('g') | KeyCode::Home => {
            app.set_help_scroll(0);
            return Effect::Nothing;
        },
        KeyCode::Char('G') | KeyCode::End => {
            app.set_help_scroll(usize::MAX);
            return Effect::Nothing;
        },
        KeyCode::Char('D') => return open_docs(),
        _ => return Effect::Nothing,
    }
}

// ---- which key does what ----

/// Nothing is carried out but what was confirmed with `y` or `Enter`; every answer but a stray
/// key closes the dialog.
pub proof fn law_only_yes_confirms(before: AppState, key: Key, after: AppState, effect: Effect)
    requires
        confirm_keyed(before, key, after, effect),
    ensures
        effect is Confirmed ==> key.code == KeyCode::Char('y') || key.code is Enter,
        effect matches Effect::Confirmed(action) ==> before.overlays.confirm is Some && action
            == before.overlays.confirm->0.action,
        before.overlays.confirm is Some && (key.code == KeyCode::Char('y') || key.code is Enter)
            ==> effect is Confirmed && after.overlays.confirm is None,
        key.code == KeyCode::Char('n') || key.code == KeyCode::Char('q') || key.code is Esc
            ==> effect is Nothing && after.overlays.confirm is None,
        after.repos == before.repos && after.prefs == before.prefs,
{
    reveal(AppState::with_confirm);
}

/// Typing into the name filter: a character is put at its end, `Backspace` takes the last one
/// away, `Esc` clears the filter and `Enter` keeps it; both end the typing.
pub proof fn law_typing_the_filter(before: AppState, key: Key, after: AppState)
    requires
        filter_keyed(before, key, after),
    ensures
        key.code is Esc ==> after.filter is None && !after.filter_input_mode,
        key.code is Enter ==> after.filter == before.filter && !after.filter_input_mode,
        key.code matches KeyCode::Char(c) ==> after.filter is Some && after.filter->0@.len() > 0
            && after.filter->0@.last() == c && after.filter->0@.drop_last()
            =~= (if before.filter is Some {
            before.filter->0@
        } else {
            Seq::<char>::empty()
        }) && after.filter_input_mode == before.filter_input_mode,
        key.code is Backspace && before.filter is Some && before.filter->0@.len() > 1
            ==> after.filter is Some && after.filter->0@.push(before.filter->0@.last())
            =~= before.filter->0@,
        key.code is Backspace && before.filter is Some && before.filter->0@.len() <= 1
            ==> after.filter is None,
        after.repos == before.repos && after.prefs == before.prefs,
{
}

/// The settings are left with `Esc`, `q` and `,`; the other keys keep to the seven rows, and only
/// `Enter` and the space bar change a setting.
pub proof fn law_settings_keys(before: AppState, key: Key, after: AppState, effect: Effect)
    requires
        settings_keyed(before, key, after, effect),
        !key.interrupts(),
        before.overlays.settings,
        before.overlays.settings_selected < 7,
    ensures
        !after.overlays.settings <==> key.code is Esc || key.code == KeyCode::Char('q') || key.code
            == KeyCode::Char(','),
        after.overlays.settings_selected < 7,
        key.code == KeyCode::Char('j') || key.code is Down
            ==> after.overlays.settings_selected == if before.overlays.settings_selected < 6 {
            before.overlays.settings_selected + 1
        } else {
            6
        },
        key.code == KeyCode::Char('k') || key.code is Up
            ==> after.overlays.settings_selected == if before.overlays.settings_selected > 0 {
            before.overlays.settings_selected - 1
        } else {
            0
        },
        effect is SavePrefs <==> key.code is Enter || key.code == KeyCode::Char(' '),
        effect !is SavePrefs ==> after.prefs == before.prefs,
{
    reveal(AppState::with_settings);
    reveal(AppState::with_settings_row);
    reveal(AppState::with_prefs);
}

/// The base that a picker stands for: on the first row the one that is found on its own, below
/// it the candidates in their order. `Enter` and the space bar take it for the branch that the
/// picker was opened on.
pub proof fn law_picking_a_base(
    before: AppState,
    key: Key,
    after: AppState,
    effect: Effect,
    picker: BasePicker,
)
    requires
        picker_keyed(before, key, after, effect),
        before.overlays.base_picker == Some(picker),
        picker.selected <= picker.candidates@.len(),
        key.code is Enter || key.code == KeyCode::Char(' '),
    ensures
        after.overlays.base_picker is None,
        effect matches Effect::SetBase { repo_idx, branch, base } && {
            &&& repo_idx == picker.repo_index
            &&& branch == picker.branch
            &&& picker.selected == 0 ==> base is None
            &&& picker.selected > 0 ==> base == Some(picker.candidates@[picker.selected - 1])
        },
{
    reveal(AppState::with_picker);
}

proof fn lemma_others(branches: Seq<BranchInfo>, name: Seq<char>, n: nat)
    requires
        n <= branches.len(),
    ensures
        AppState::others_upto(branches, name, n) =~= branches.take(n as int).filter(
            |branch: BranchInfo| branch.name@ != name,
        ).map_values(|branch: BranchInfo| branch.name@),
    decreases n,
{
    reveal(Seq::filter);
    if n > 0 {
        lemma_others(branches, name, (n - 1) as nat);
        assert(branches.take(n as int).drop_last() =~= branches.take(n - 1));
        assert(branches.take(n as int).last() == branches[n - 1]);
    } else {
        assert(branches.take(0) =~= Seq::empty());
    }
}

/// A picker offers the names of all other branches of the repo, and marks the base that the
/// branch has as picked by hand only where it was.
pub proof fn law_what_a_picker_offers(
    picker: BasePicker,
    repo_index: usize,
    branch: BranchInfo,
    page: RepoPageData,
)
    requires
        AppState::is_picker_for(picker, repo_index, branch, page),
    ensures
        picker.repo_index == repo_index,
        picker.branch == branch.name,
        picker.selected == 0,
        ({
            let name = branch.name@;
            picker.candidates.deep_view() == page.branches@.filter(
                |branch: BranchInfo| branch.name@ != name,
            ).map_values(|branch: BranchInfo| branch.name@)
        }),
        branch.base_is_override ==> picker.current == branch.base && picker.detected is None,
        !branch.base_is_override ==> picker.detected == branch.base && picker.current is None,
{
    lemma_others(page.branches@, branch.name@, page.branches@.len());
    assert(page.branches@.take(page.branches@.len() as int) =~= page.branches@);
}

/// The help is left with `?`, `Esc` and `q`; its tabs go forward with `Tab` and back with
/// `BackTab`, and scrolling never goes above the first line.
pub proof fn law_help_keys(before: AppState, key: Key, after: AppState, effect: Effect)
    requires
        help_keyed(before, key, after, effect),
        before.overlays.help,
        !key.interrupts(),
    ensures
        !after.overlays.help <==> key.code == KeyCode::Char('?') || key.code is Esc || key.code
            == KeyCode::Char('q'),
        key.code is Tab ==> after.prefs.help_tab == before.prefs.help_tab.following(),
        key.code is BackTab ==> after.prefs.help_tab == before.prefs.help_tab.preceding(),
        !(key.code is Tab || key.code is BackTab) ==> after.prefs == before.prefs,
        key.code == KeyCode::Char('g') || key.code is Home ==> after.overlays.help_scroll == 0,
        (key.code == KeyCode::Char('j') || key.code is Down) && before.overlays.help_scroll
            < usize::MAX ==> after.overlays.help_scroll == before.overlays.help_scroll + 1,
        (key.code == KeyCode::Char('k') || key.code is Up) && before.overlays.help_scroll > 0
            ==> after.overlays.help_scroll == before.overlays.help_scroll - 1,
        key.code == KeyCode::Char('D') ==> effect.opens(docs_url()),
{
    reveal(AppState::with_help);
    reveal(AppState::with_help_tab);
    reveal(AppState::with_help_scroll);
}

/// The copy menu hands out the path, the branch, or both, for the row that is selected on the
/// page; `Esc`, `q` and `y` close it and hand out nothing.
pub proof fn law_copy_keys(before: AppState, key: Key, after: AppState, effect: Effect, row: usize)
    requires
        copy_keyed(before, key, after, effect),
        before.overlays.copy_menu == Some(row),
        !key.interrupts(),
    ensures
        key.code is Esc || key.code == KeyCode::Char('q') || key.code == KeyCode::Char('y')
            ==> after.overlays.copy_menu is None && effect is Nothing,
        key.code == KeyCode::Char('j') || key.code is Down ==> after.overlays.copy_menu == Some(
            if row < 2 { (row + 1) as usize } else { row },
        ) && effect is Nothing,
        key.code == KeyCode::Char('k') || key.code is Up ==> after.overlays.copy_menu == Some(
            if row > 0 { (row - 1) as usize } else { 0 },
        ) && effect is Nothing,
        (key.code is Enter || key.code == KeyCode::Char(' ')) && before.page.selected
            < before.page_len() ==> after.overlays.copy_menu is None && exists|target: PageRow|
            #[trigger] before.is_target(target) && effect.hands_out(
                if row == 0 {
                    target.path@
                } else if row == 1 {
                    target.branch@
                } else {
                    target.path@ + " "@ + target.branch@
                },
            ),
{
    reveal(AppState::with_copy_menu);
}

} // verus!
