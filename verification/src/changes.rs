//! Single changes of the state, from which what a key or a click does is put together.

use vstd::prelude::*;

use crate::app::{AppState, Drag, Overlays, PageState, Prefs};
use crate::dialogs::{BasePicker, ConfirmDialog, DiffModal};
use crate::options::{HelpTab, Leader, ScrollKind};
use crate::repo::RepoState;

verus! {

impl AppState {
    /// The state with another confirmation dialog.
    #[verifier::opaque]
    pub open spec fn with_confirm(self, confirm: Option<ConfirmDialog>) -> AppState {
        AppState { overlays: Overlays { confirm, ..self.overlays }, ..self }
    }

    /// The state with another row of the copy menu, or without the menu.
    #[verifier::opaque]
    pub open spec fn with_copy_menu(self, copy_menu: Option<usize>) -> AppState {
        AppState { overlays: Overlays { copy_menu, ..self.overlays }, ..self }
    }

    /// The state with another base-branch picker.
    #[verifier::opaque]
    pub open spec fn with_picker(self, base_picker: Option<BasePicker>) -> AppState {
        AppState { overlays: Overlays { base_picker, ..self.overlays }, ..self }
    }

    /// The state with the help modal open or closed.
    #[verifier::opaque]
    pub open spec fn with_help(self, help: bool) -> AppState {
        AppState { overlays: Overlays { help, ..self.overlays }, ..self }
    }

    /// The state with the help modal scrolled to a line.
    #[verifier::opaque]
    pub open spec fn with_help_scroll(self, help_scroll: usize) -> AppState {
        AppState { overlays: Overlays { help_scroll, ..self.overlays }, ..self }
    }

    /// The state with the help modal opened at its top.
    #[verifier::opaque]
    pub open spec fn with_help_opened(self) -> AppState {
        AppState { overlays: Overlays { help: true, help_scroll: 0, ..self.overlays }, ..self }
    }

    /// The state with another help tab, shown from its top.
    #[verifier::opaque]
    pub open spec fn with_help_tab(self, help_tab: HelpTab) -> AppState {
        AppState {
            overlays: Overlays { help_scroll: 0, ..self.overlays },
            prefs: Prefs { help_tab, ..self.prefs },
            ..self
        }
    }

    /// The state with the settings modal opened at its first row.
    #[verifier::opaque]
    pub open spec fn with_settings_opened(self) -> AppState {
        AppState {
            overlays: Overlays { settings: true, settings_selected: 0, ..self.overlays },
            ..self
        }
    }

    /// The state with the settings modal open or closed.
    #[verifier::opaque]
    pub open spec fn with_settings(self, settings: bool) -> AppState {
        AppState { overlays: Overlays { settings, ..self.overlays }, ..self }
    }

    /// The state with another settings row selected.
    #[verifier::opaque]
    pub open spec fn with_settings_row(self, settings_selected: usize) -> AppState {
        AppState { overlays: Overlays { settings_selected, ..self.overlays }, ..self }
    }

    /// The state with the build-info modal open or closed.
    #[verifier::opaque]
    pub open spec fn with_build_info(self, build_info: bool) -> AppState {
        AppState { overlays: Overlays { build_info, ..self.overlays }, ..self }
    }

    /// The state with another row of the repo page selected.
    #[verifier::opaque]
    pub open spec fn with_page_row(self, selected: usize) -> AppState {
        AppState { page: PageState { selected, ..self.page }, ..self }
    }

    /// The state with the repo page scrolled to a line.
    #[verifier::opaque]
    pub open spec fn with_page_scroll(self, scroll: usize) -> AppState {
        AppState { page: PageState { scroll, ..self.page }, ..self }
    }

    /// The state with the repo page's column menu open or closed.
    #[verifier::opaque]
    pub open spec fn with_page_menu(self, toggle: bool) -> AppState {
        AppState { page: PageState { toggle, ..self.page }, ..self }
    }

    /// The state with another banner on the repo page.
    #[verifier::opaque]
    pub open spec fn with_page_message(self, message: Option<String>) -> AppState {
        AppState { page: PageState { message, ..self.page }, ..self }
    }

    /// The state with the repo page closed.
    #[verifier::opaque]
    pub open spec fn with_page_closed(self) -> AppState {
        AppState { page: PageState { repo: None, message: None, ..self.page }, ..self }
    }

    /// The state with another pending chord.
    #[verifier::opaque]
    pub open spec fn with_leader(self, pending_leader: Option<Leader>) -> AppState {
        AppState { pending_leader, ..self }
    }

    /// The state with the keys driving the other pane, or a given one.
    #[verifier::opaque]
    pub open spec fn with_focus(self, preview_focused: bool) -> AppState {
        AppState { preview_focused, ..self }
    }

    /// The state with the divider dragged or not.
    #[verifier::opaque]
    pub open spec fn with_divider(self, divider: bool) -> AppState {
        AppState { drag: Drag { divider, ..self.drag }, ..self }
    }

    /// The state with a scrollbar dragged or none.
    #[verifier::opaque]
    pub open spec fn with_scrollbar(self, scrollbar: Option<ScrollKind>) -> AppState {
        AppState { drag: Drag { scrollbar, ..self.drag }, ..self }
    }

    /// A state that differs in one repo only.
    pub open spec fn with_repo(self, after: AppState, idx: int, repo: RepoState) -> bool {
        &&& after.repos@ == self.repos@.update(idx, repo)
        &&& after == (AppState { repos: after.repos, ..self })
    }

    pub(crate) fn end_filter(&mut self, drop: bool)
        ensures
            *final(self) == (if drop {
                AppState { filter_input_mode: false, filter: None, ..*old(self) }
            } else {
                AppState { filter_input_mode: false, ..*old(self) }
            }),
    {
        self.filter_input_mode = false;
        if drop {
            self.filter = None;
        }
    }

    pub(crate) fn set_confirm(&mut self, confirm: Option<ConfirmDialog>)
        ensures
            *final(self) == old(self).with_confirm(confirm),
            final(self).wf() == old(self).wf(),
    {
        reveal(AppState::with_confirm);
        self.overlays.confirm = confirm;
    }

    pub(crate) fn set_copy_menu(&mut self, row: Option<usize>)
        ensures
            *final(self) == old(self).with_copy_menu(row),
            final(self).wf() == old(self).wf(),
    {
        reveal(AppState::with_copy_menu);
        self.overlays.copy_menu = row;
    }

    pub(crate) fn set_picker(&mut self, picker: Option<BasePicker>)
        ensures
            *final(self) == old(self).with_picker(picker),
            final(self).wf() == old(self).wf(),
    {
        reveal(AppState::with_picker);
        self.overlays.base_picker = picker;
    }

    pub(crate) fn set_diff(&mut self, diff: Option<DiffModal>)
        ensures
            *final(self) == old(self).with_diff(diff),
            final(self).wf() == old(self).wf(),
    {
        reveal(AppState::with_diff);
        self.overlays.diff = diff;
    }

    pub(crate) fn set_help(&mut self, open: bool)
        ensures
            *final(self) == old(self).with_help(open),
            final(self).wf() == old(self).wf(),
    {
        reveal(AppState::with_help);
        self.overlays.help = open;
    }

    pub(crate) fn set_help_scroll(&mut self, line: usize)
        ensures
            *final(self) == old(self).with_help_scroll(line),
            final(self).wf() == old(self).wf(),
    {
        reveal(AppState::with_help_scroll);
        self.overlays.help_scroll = line;
    }

    pub(crate) fn open_help(&mut self)
        ensures
            *final(self) == old(self).with_help_opened(),
            final(self).wf() == old(self).wf(),
    {
        reveal(AppState::with_help_opened);
        self.overlays.help = true;
        self.overlays.help_scroll = 0;
    }

    pub(crate) fn set_help_tab(&mut self, tab: HelpTab)
        ensures
            *final(self) == old(self).with_help_tab(tab),
            final(self).wf() == old(self).wf(),
    {
        reveal(AppState::with_help_tab);
        let mut prefs = self.prefs;
        prefs.help_tab = tab;
        self.prefs = prefs;
        self.overlays.help_scroll = 0;
    }

    pub(crate) fn open_settings(&mut self)
        ensures
            *final(self) == old(self).with_settings_opened(),
            final(self).wf() == old(self).wf(),
    {
        reveal(AppState::with_settings_opened);
        self.overlays.settings = true;
        self.overlays.settings_selected = 0;
    }

    pub(crate) fn set_settings(&mut self, open: bool)
        ensures
            *final(self) == old(self).with_settings(open),
            final(self).wf() == old(self).wf(),
    {
        reveal(AppState::with_settings);
        self.overlays.settings = open;
    }

    pub(crate) fn set_settings_row(&mut self, row: usize)
        ensures
            *final(self) == old(self).with_settings_row(row),
            final(self).wf() == old(self).wf(),
    {
        reveal(AppState::with_settings_row);
        self.overlays.settings_selected = row;
    }

    pub(crate) fn set_build_info(&mut self, open: bool)
        ensures
            *final(self) == old(self).with_build_info(open),
            final(self).wf() == old(self).wf(),
    {
        reveal(AppState::with_build_info);
        self.overlays.build_info = open;
    }

    pub(crate) fn set_page_row(&mut self, row: usize)
        ensures
            *final(self) == old(self).with_page_row(row),
            final(self).wf() == old(self).wf(),
    {
        reveal(AppState::with_page_row);
        self.page.selected = row;
    }

    pub(crate) fn set_page_scroll(&mut self, line: usize)
        ensures
            *final(self) == old(self).with_page_scroll(line),
            final(self).wf() == old(self).wf(),
    {
        reveal(AppState::with_page_scroll);
        self.page.scroll = line;
    }

    pub(crate) fn set_page_menu(&mut self, open: bool)
        ensures
            *final(self) == old(self).with_page_menu(open),
            final(self).wf() == old(self).wf(),
    {
        reveal(AppState::with_page_menu);
        self.page.toggle = open;
    }

    pub(crate) fn set_page_message(&mut self, message: Option<String>)
        ensures
            *final(self) == old(self).with_page_message(message),
            final(self).wf() == old(self).wf(),
    {
        reveal(AppState::with_page_message);
        self.page.message = message;
    }

    pub(crate) fn set_leader(&mut self, leader: Option<Leader>)
        ensures
            *final(self) == old(self).with_leader(leader),
            final(self).wf() == old(self).wf(),
    {
        reveal(AppState::with_leader);
        self.pending_leader = leader;
    }

    pub(crate) fn set_focus(&mut self, preview: bool)
        ensures
            *final(self) == old(self).with_focus(preview),
            final(self).wf() == old(self).wf(),
    {
        reveal(AppState::with_focus);
        self.preview_focused = preview;
    }

    pub(crate) fn set_divider(&mut self, dragged: bool)
        ensures
            *final(self) == old(self).with_divider(dragged),
            final(self).wf() == old(self).wf(),
    {
        reveal(AppState::with_divider);
        self.drag.divider = dragged;
    }

    pub(crate) fn set_scrollbar(&mut self, dragged: Option<ScrollKind>)
        ensures
            *final(self) == old(self).with_scrollbar(dragged),
            final(self).wf() == old(self).wf(),
    {
        reveal(AppState::with_scrollbar);
        self.drag.scrollbar = dragged;
    }

    /// Scrolls the preview of a repo to a line; `auto` tells whether it follows the log.
    pub(crate) fn scroll_preview(&mut self, idx: usize, line: usize, auto: bool)
        requires
            idx < old(self).repos@.len(),
        ensures
            old(self).with_repo(
                *final(self),
                idx as int,
                (RepoState {
                    preview_scroll: line,
                    auto_scroll: auto,
                    ..old(self).repos@[idx as int]
                }),
            ),
    {
        set_scroll(&mut self.repos[idx], line, auto);
    }

    /// Empties the log of a repo.
    pub(crate) fn clear_log(&mut self, idx: usize)
        requires
            idx < old(self).repos@.len(),
        ensures
            final(self).repos@.len() == old(self).repos@.len(),
            final(self).repos@[idx as int].log@ == Seq::<Seq<char>>::empty(),
            old(self).with_repo(
                *final(self),
                idx as int,
                (RepoState {
                    log: final(self).repos@[idx as int].log,
                    ..old(self).repos@[idx as int]
                }),
            ),
    {
        empty_log(&mut self.repos[idx]);
    }
}

fn set_scroll(repo: &mut RepoState, line: usize, auto: bool)
    ensures
        *final(repo) == (RepoState { preview_scroll: line, auto_scroll: auto, ..*old(repo) }),
{
    repo.preview_scroll = line;
    repo.auto_scroll = auto;
}

fn empty_log(repo: &mut RepoState)
    ensures
        final(repo).log@ == Seq::<Seq<char>>::empty(),
        *final(repo) == (RepoState { log: final(repo).log, ..*old(repo) }),
{
    repo.log.clear();
}

/// Closing one layer leaves all others open, and opening the help or the settings starts at their
/// top.
pub proof fn law_layers_are_independent(app: AppState, row: usize, tab: HelpTab)
    ensures
        app.with_confirm(None).overlays == (Overlays { confirm: None, ..app.overlays }),
        app.with_copy_menu(None).overlays == (Overlays { copy_menu: None, ..app.overlays }),
        app.with_picker(None).overlays == (Overlays { base_picker: None, ..app.overlays }),
        app.with_help(false).overlays == (Overlays { help: false, ..app.overlays }),
        app.with_settings(false).overlays == (Overlays { settings: false, ..app.overlays }),
        app.with_build_info(false).overlays == (Overlays { build_info: false, ..app.overlays }),
        app.with_help_opened().overlays == (Overlays { help: true, help_scroll: 0, ..app.overlays }),
        app.with_settings_opened().overlays == (Overlays {
            settings: true,
            settings_selected: 0,
            ..app.overlays
        }),
        app.with_help_tab(tab).prefs.help_tab == tab && app.with_help_tab(tab).overlays.help_scroll
            == 0,
        app.with_settings_row(row).overlays.settings_selected == row,
        app.with_page_row(row).page == (PageState { selected: row, ..app.page }),
        app.with_page_scroll(row).page == (PageState { scroll: row, ..app.page }),
        app.with_page_closed().page.repo is None && app.with_page_closed().page.message is None,
        app.with_page_closed().overlays == app.overlays,
{
    reveal(AppState::with_confirm);
    reveal(AppState::with_copy_menu);
    reveal(AppState::with_picker);
    reveal(AppState::with_help);
    reveal(AppState::with_settings);
    reveal(AppState::with_build_info);
    reveal(AppState::with_help_opened);
    reveal(AppState::with_settings_opened);
    reveal(AppState::with_help_tab);
    reveal(AppState::with_settings_row);
    reveal(AppState::with_page_row);
    reveal(AppState::with_page_scroll);
    reveal(AppState::with_page_closed);
}

} // verus!
