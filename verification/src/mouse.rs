//! What the mouse does.

use vstd::prelude::*;

use crate::app::{AppState, Notices};
use crate::commands::{dispatch_command, dispatched, row_above, row_below, Layer};
use crate::dialogs::{BasePicker, DiffModal, InfoAction};
use crate::folds::header_toggled;
use crate::input::{
    accept, copy_chosen, further, is_copy, is_set_base, Effect,
};
use crate::keys::{choose_file, file_chosen, file_stepped, step_file};
use crate::modals::{listed_at, link_at, region_at, shift};
use crate::options::{Command, RightView, ScrollKind};
use crate::page::{find_at, first_at};
use crate::pagekeys::{
    flip_page_column, open_picker, open_row, picker_opened, row_opened, with_page_column,
};
use crate::repo::RepoState;
use crate::screen::{hit, point_in, region_hit};

verus! {

/// What the mouse did.
#[derive(Debug, Clone, Copy, PartialEq, Eq, Structural)]
pub enum MouseKind {
    /// The left button went down.
    Press,
    /// The mouse moved with the left button down.
    Drag,
    /// The left button went up.
    Release,
    WheelUp,
    WheelDown,
    Other,
}

/// A mouse event at a cell of the screen.
#[derive(Debug, Clone, Copy, PartialEq, Eq, Structural)]
pub struct Mouse {
    pub kind: MouseKind,
    pub col: u16,
    pub row: u16,
    pub shift: bool,
    pub alt: bool,
}

/// What is to be remembered of a click, to tell a double click by.
#[derive(Debug, Clone, Copy, PartialEq, Eq, Structural)]
pub enum ClickMemory {
    /// What was remembered stays.
    Keep,
    Clear,
    /// This row was clicked now.
    Remember(usize),
}

// ---- scrollbars ----

impl AppState {
    /// The file panel of the diff modal with its scroll offset at a line.
    pub open spec fn files_at(self, line: usize) -> AppState {
        self.with_diff(
            match self.overlays.diff {
                Some(modal) => Some(DiffModal { file_scroll: line, ..modal }),
                None => None,
            },
        )
    }

    /// Puts the file panel's scroll offset at a line.
    pub fn diff_files_scroll_to(&mut self, line: usize)
        ensures
            final(self).wf() == old(self).wf(),
            *final(self) == old(self).files_at(line),
    {
        reveal(AppState::with_diff);
        let modal = self.overlays.diff.take();
        self.overlays.diff = put_files(modal, line);
    }

    /// What scrolling a panel to an offset does: the preview no longer follows the log.
    pub open spec fn scroll_applied(self, kind: ScrollKind, value: usize, after: AppState) -> bool {
        match kind {
            ScrollKind::Preview => match self.current() {
                Some(idx) => self.with_repo(
                    after,
                    idx as int,
                    RepoState {
                        preview_scroll: value,
                        auto_scroll: false,
                        ..self.repos@[idx as int]
                    },
                ),
                None => after == self,
            },
            ScrollKind::DiffFiles => after == self.files_at(value),
            ScrollKind::DiffBody => after == self.diff_at(value),
            ScrollKind::Help => after == self.with_help_scroll(value),
            ScrollKind::RepoPage => after == self.with_page_scroll(value),
        }
    }

    /// Scrolls a panel to an offset.
    pub fn apply_scroll(&mut self, kind: ScrollKind, value: usize)
        requires
            old(self).wf(),
        ensures
            final(self).wf(),
            old(self).scroll_applied(kind, value, *final(self)),
    {
        match kind {
            ScrollKind::Preview => match self.selected_repo_index() {
                Some(idx) => self.scroll_preview(idx, value, false),
                None => {},
            },
            ScrollKind::DiffFiles => self.diff_files_scroll_to(value),
            ScrollKind::DiffBody => self.diff_scroll_to(value),
            ScrollKind::Help => self.set_help_scroll(value),
            ScrollKind::RepoPage => self.set_page_scroll(value),
        }
    }

    /// A panel was scrolled to where a row of the screen lies on its scrollbar.
    pub open spec fn bar_moved(self, kind: ScrollKind, row: u16, after: AppState) -> bool {
        match AppState::offset_for(self.hits.scrollbars@, kind, row, 0) {
            Some(value) => self.scroll_applied(kind, value as usize, after),
            None => after == self,
        }
    }

    fn move_bar(&mut self, kind: ScrollKind, row: u16)
        requires
            old(self).wf(),
        ensures
            final(self).wf(),
            old(self).bar_moved(kind, row, *final(self)),
    {
        match self.scroll_value_for(kind, row) {
            Some(value) => self.apply_scroll(kind, value),
            None => {},
        }
    }

    /// The scrollbar that a mouse event drags: the one that was pressed, or is being dragged.
    pub open spec fn dragged_bar(self, mouse: Mouse) -> Option<ScrollKind> {
        match mouse.kind {
            MouseKind::Press => AppState::bar_at(self.hits.scrollbars@, mouse.col, mouse.row, 0),
            MouseKind::Drag => self.drag.scrollbar,
            _ => None,
        }
    }

    fn bar_of(&self, mouse: Mouse) -> (res: Option<ScrollKind>)
        ensures
            res == self.dragged_bar(mouse),
    {
        match mouse.kind {
            MouseKind::Press => self.scrollbar_at(mouse.col, mouse.row),
            MouseKind::Drag => self.drag.scrollbar,
            _ => None,
        }
    }

    /// A mouse event lets go of a scrollbar.
    pub open spec fn releases_bar(self, mouse: Mouse) -> bool {
        mouse.kind is Release && self.drag.scrollbar is Some
    }

    // ---- notices ----

    /// The state with the notice of a newer build closed.
    #[verifier::opaque]
    pub open spec fn with_update_dismissed(self) -> AppState {
        AppState { notices: Notices { update_dismissed: true, ..self.notices }, ..self }
    }

    fn dismiss_update(&mut self)
        ensures
            final(self).wf() == old(self).wf(),
            *final(self) == old(self).with_update_dismissed(),
    {
        reveal(AppState::with_update_dismissed);
        self.notices.update_dismissed = true;
    }

    // ---- picking a row of the list ----

    /// The state with a row of the list picked by a click.
    #[verifier::opaque]
    pub open spec fn row_picked(self, selected: usize) -> AppState {
        AppState {
            selected,
            user_navigated: true,
            result_overlay: false,
            right_view: RightView::Log,
            ..self
        }
    }

    fn pick_row(&mut self, row: usize)
        ensures
            final(self).wf() == old(self).wf(),
            *final(self) == old(self).row_picked(row),
    {
        reveal(AppState::row_picked);
        self.selected = row;
        self.user_navigated = true;
        self.result_overlay = false;
        self.right_view = RightView::Log;
    }

    /// A field of the info block was shown in full, or cut again.
    #[verifier::opaque]
    pub open spec fn info_toggled(self, field: String, after: AppState) -> bool {
        &&& after.info_expanded@ == match listed_at(self.info_expanded@, field@, 0) {
            Some(i) => self.info_expanded@.remove(i),
            None => self.info_expanded@.push(field),
        }
        &&& after == (AppState { info_expanded: after.info_expanded, ..self })
    }

    fn toggle_info(&mut self, field: String)
        ensures
            final(self).wf() == old(self).wf(),
            old(self).info_toggled(field, *final(self)),
    {
        reveal(AppState::info_toggled);
        self.toggle_info_expanded(field);
    }
}

fn put_files(modal: Option<DiffModal>, line: usize) -> (res: Option<DiffModal>)
    ensures
        res == (match modal {
            Some(modal) => Some(DiffModal { file_scroll: line, ..modal }),
            None => None,
        }),
{
    match modal {
        Some(modal) => {
            let mut modal = modal;
            modal.file_scroll = line;
            Some(modal)
        },
        None => None,
    }
}

// ---- modals ----

/// A click over the build-info modal: the restart button reloads, any other click closes it.
pub open spec fn build_info_moused(
    before: AppState,
    mouse: Mouse,
    after: AppState,
    effect: Effect,
) -> bool {
    if !(mouse.kind is Press) {
        after == before && effect is Nothing
    } else if hit(before.hits.build_info_reload, mouse.col, mouse.row) {
        after == before && effect is Reload
    } else {
        after == before.with_build_info(false) && effect is Nothing
    }
}

fn build_info_mouse(app: &mut AppState, mouse: Mouse) -> (res: Effect)
    requires
        old(app).wf(),
    ensures
        final(app).wf(),
        build_info_moused(*old(app), mouse, *final(app), res),
{
    if mouse.kind != MouseKind::Press {
        return Effect::Nothing;
    }
    if region_hit(app.hits.build_info_reload, mouse.col, mouse.row) {
        return Effect::Reload;
    }
    app.set_build_info(false);
    Effect::Nothing
}

/// The state with a chip of the settings modal chosen.
pub open spec fn chip_chosen(app: AppState, row: usize, option: usize) -> AppState {
    app.with_prefs(AppState::chosen(app.prefs, row, option))
}

/// A click over the settings modal: on a row it selects it, on a chip it sets that value, on
/// `[x]` or outside it closes.
pub open spec fn settings_moused(
    before: AppState,
    mouse: Mouse,
    after: AppState,
    effect: Effect,
) -> bool {
    if !(mouse.kind is Press) {
        after == before && effect is Nothing
    } else if hit(before.hits.settings_close, mouse.col, mouse.row) {
        after == before.with_settings(false) && effect is Nothing
    } else {
        match AppState::setting_at(before.hits.settings@, mouse.col, mouse.row, 0) {
            Some((row, Some(option))) => after == chip_chosen(
                before.with_settings_row(row),
                row,
                option,
            ) && effect is SavePrefs,
            Some((row, None)) => after == before.with_settings_row(row) && effect is Nothing,
            None => {
                &&& effect is Nothing
                &&& after == if before.hits.settings_area.holds(
                    mouse.col as int,
                    mouse.row as int,
                ) {
                    before
                } else {
                    before.with_settings(false)
                }
            },
        }
    }
}

fn settings_mouse(app: &mut AppState, mouse: Mouse) -> (res: Effect)
    requires
        old(app).wf(),
    ensures
        final(app).wf(),
        settings_moused(*old(app), mouse, *final(app), res),
{
    if mouse.kind != MouseKind::Press {
        return Effect::Nothing;
    }
    if region_hit(app.hits.settings_close, mouse.col, mouse.row) {
        app.set_settings(false);
        return Effect::Nothing;
    }
    match app.settings_hit_at(mouse.col, mouse.row) {
        Some((row, Some(option))) => {
            app.set_settings_row(row);
            app.set_setting_option(row, option);
            return Effect::SavePrefs;
        },
        Some((row, None)) => {
            app.set_settings_row(row);
            return Effect::Nothing;
        },
        None => {},
    }
    if !point_in(app.hits.settings_area, mouse.col, mouse.row) {
        app.set_settings(false);
    }
    Effect::Nothing
}

/// A click over the confirmation dialog: `[y]` accepts; `[n]`, `[x]` or a click outside cancels.
pub open spec fn confirm_moused(
    before: AppState,
    mouse: Mouse,
    after: AppState,
    effect: Effect,
) -> bool {
    if !(mouse.kind is Press) {
        after == before && effect is Nothing
    } else if hit(before.hits.confirm_yes, mouse.col, mouse.row) {
        &&& after == before.with_confirm(None)
        &&& match before.overlays.confirm {
            Some(dialog) => effect == Effect::Confirmed(dialog.action),
            None => effect is Nothing,
        }
    } else if hit(before.hits.confirm_no, mouse.col, mouse.row) || hit(
        before.hits.confirm_close,
        mouse.col,
        mouse.row,
    ) || !before.hits.confirm_area.holds(mouse.col as int, mouse.row as int) {
        after == before.with_confirm(None) && effect is Nothing
    } else {
        after == before && effect is Nothing
    }
}

fn confirm_mouse(app: &mut AppState, mouse: Mouse) -> (res: Effect)
    requires
        old(app).wf(),
    ensures
        final(app).wf(),
        confirm_moused(*old(app), mouse, *final(app), res),
{
    if mouse.kind != MouseKind::Press {
        return Effect::Nothing;
    }
    if region_hit(app.hits.confirm_yes, mouse.col, mouse.row) {
        return accept(app);
    }
    if region_hit(app.hits.confirm_no, mouse.col, mouse.row) || region_hit(
        app.hits.confirm_close,
        mouse.col,
        mouse.row,
    ) || !point_in(app.hits.confirm_area, mouse.col, mouse.row) {
        app.set_confirm(None);
    }
    Effect::Nothing
}

/// A click over the copy menu: an option copies, `[x]` or a click outside closes it.
pub open spec fn copy_moused(before: AppState, mouse: Mouse, after: AppState, effect: Effect) -> bool {
    if !(mouse.kind is Press) {
        after == before && effect is Nothing
    } else if hit(before.hits.copy_close, mouse.col, mouse.row) || !before.hits.copy_area.holds(
        mouse.col as int,
        mouse.row as int,
    ) {
        after == before.with_copy_menu(None) && effect is Nothing
    } else {
        match first_at(before.hits.copy_rows@, mouse.row, 0) {
            Some(option) => after == before.with_copy_menu(None) && is_copy(before, option, effect),
            None => after == before && effect is Nothing,
        }
    }
}

fn copy_mouse(app: &mut AppState, mouse: Mouse) -> (res: Effect)
    requires
        old(app).wf(),
    ensures
        final(app).wf(),
        copy_moused(*old(app), mouse, *final(app), res),
{
    if mouse.kind != MouseKind::Press {
        return Effect::Nothing;
    }
    if region_hit(app.hits.copy_close, mouse.col, mouse.row) || !point_in(
        app.hits.copy_area,
        mouse.col,
        mouse.row,
    ) {
        app.set_copy_menu(None);
        return Effect::Nothing;
    }
    match app.copy_menu_option_at(mouse.row) {
        Some(option) => return copy_chosen(app, option),
        None => return Effect::Nothing,
    }
}

/// The picker with a row selected.
pub open spec fn picker_at(picker: Option<BasePicker>, selected: usize) -> Option<BasePicker> {
    match picker {
        Some(picker) => Some(BasePicker { selected, ..picker }),
        None => None,
    }
}

/// A click over the base-branch picker: an option is set as the base, `[x]` or a click outside
/// closes it.
pub open spec fn picker_moused(
    before: AppState,
    mouse: Mouse,
    after: AppState,
    effect: Effect,
) -> bool {
    if !(mouse.kind is Press) {
        after == before && effect is Nothing
    } else if hit(before.hits.picker_close, mouse.col, mouse.row)
        || !before.hits.picker_area.holds(mouse.col as int, mouse.row as int) {
        after == before.with_picker(None) && effect is Nothing
    } else {
        match first_at(before.hits.picker_rows@, mouse.row, 0) {
            Some(option) => {
                &&& after == before.with_picker(None)
                &&& is_set_base(picker_at(before.overlays.base_picker, option), effect)
            },
            None => after == before && effect is Nothing,
        }
    }
}

fn confirm_picker_at(app: &mut AppState, option: usize) -> (res: Effect)
    requires
        old(app).wf(),
    ensures
        final(app).wf(),
        *final(app) == old(app).with_picker(None),
        is_set_base(picker_at(old(app).overlays.base_picker, option), res),
{
    reveal(AppState::with_picker);
    match app.overlays.base_picker.take() {
        Some(picker) => {
            let mut picker = picker;
            picker.selected = option;
            app.overlays.base_picker = Some(picker);
        },
        None => {},
    }
    app.confirm_base_picker()
}

fn picker_mouse(app: &mut AppState, mouse: Mouse) -> (res: Effect)
    requires
        old(app).wf(),
    ensures
        final(app).wf(),
        picker_moused(*old(app), mouse, *final(app), res),
{
    if mouse.kind != MouseKind::Press {
        return Effect::Nothing;
    }
    if region_hit(app.hits.picker_close, mouse.col, mouse.row) || !point_in(
        app.hits.picker_area,
        mouse.col,
        mouse.row,
    ) {
        app.set_picker(None);
        return Effect::Nothing;
    }
    match app.base_picker_option_at(mouse.row) {
        Some(option) => return confirm_picker_at(app, option),
        None => return Effect::Nothing,
    }
}

impl AppState {
    /// The base-picker option at a screen row.
    pub fn base_picker_option_at(&self, row: u16) -> (res: Option<usize>)
        ensures
            res == first_at(self.hits.picker_rows@, row, 0),
    {
        find_at(&self.hits.picker_rows, row)
    }
}

// ---- the diff modal ----

/// What a chip of the diff modal does: the list is filtered, and a file that was selected
/// instead is to be fetched.
pub open spec fn chip_clicked(
    before: AppState,
    letter: Option<char>,
    after: AppState,
    effect: Effect,
) -> bool {
    match before.filtered(letter).reselected() {
        Some(index) => before.filtered(letter).file_picked(after, index as int)
            && effect is LoadFile,
        None => after == before.filtered(letter) && effect is Nothing,
    }
}

/// A row of the screen lies in the file panel of the diff modal.
pub open spec fn over_files(app: AppState, row: u16) -> bool {
    let area = app.hits.diff_files_area;
    area.y <= row < area.y + area.height
}

/// What the wheel does over the diff modal: with Shift or Alt it scrolls the file list, over the
/// file list it moves the selection, elsewhere it scrolls the diff.
pub open spec fn diff_wheeled(
    before: AppState,
    mouse: Mouse,
    down: bool,
    after: AppState,
    effect: Effect,
) -> bool {
    if mouse.shift || mouse.alt {
        after == before.files_scrolled(
            if down {
                3
            } else {
                -3
            },
        ) && effect is Nothing
    } else if over_files(before, mouse.row) {
        file_stepped(
            before,
            if down {
                1
            } else {
                -1
            },
            after,
            effect,
        )
    } else {
        after == before.diff_scrolled(
            if down {
                3
            } else {
                -3
            },
        ) && effect is Nothing
    }
}

/// What the mouse does over the diff modal: a click on a chip filters, on a file row selects it,
/// on `[x]` or outside closes the modal.
pub open spec fn diff_moused(before: AppState, mouse: Mouse, after: AppState, effect: Effect) -> bool {
    match mouse.kind {
        MouseKind::WheelDown => diff_wheeled(before, mouse, true, after, effect),
        MouseKind::WheelUp => diff_wheeled(before, mouse, false, after, effect),
        MouseKind::Press => if hit(before.hits.diff_close, mouse.col, mouse.row)
            || !before.hits.diff_area.holds(mouse.col as int, mouse.row as int) {
            after == before.with_diff(None) && effect is Nothing
        } else {
            match region_at(before.hits.diff_chips@, mouse.col, mouse.row, 0) {
                Some(letter) => chip_clicked(before, letter, after, effect),
                None => match before.file_at(mouse.row) {
                    Some(index) => file_chosen(before, index as int, after, effect),
                    None => after == before && effect is Nothing,
                },
            }
        },
        _ => after == before && effect is Nothing,
    }
}

fn diff_wheel(app: &mut AppState, mouse: Mouse, down: bool) -> (res: Effect)
    requires
        old(app).wf(),
        old(app).overlays.diff is Some,
    ensures
        final(app).wf(),
        diff_wheeled(*old(app), mouse, down, *final(app), res),
{
    let area = app.hits.diff_files_area;
    if mouse.shift || mouse.alt {
        app.diff_files_scroll(
            if down {
                3
            } else {
                -3
            },
        );
        return Effect::Nothing;
    }
    if mouse.row >= area.y && (mouse.row as u32) < area.y as u32 + area.height as u32 {
        return step_file(
            app,
            if down {
                1
            } else {
                -1
            },
        );
    }
    app.diff_scroll_by(
        if down {
            3
        } else {
            -3
        },
    );
    Effect::Nothing
}

fn click_chip(app: &mut AppState, letter: Option<char>) -> (res: Effect)
    ensures
        final(app).wf() == old(app).wf(),
        chip_clicked(*old(app), letter, *final(app), res),
{
    if app.diff_modal_set_filter(letter) {
        Effect::LoadFile
    } else {
        Effect::Nothing
    }
}

fn diff_mouse(app: &mut AppState, mouse: Mouse) -> (res: Effect)
    requires
        old(app).wf(),
        old(app).overlays.diff is Some,
    ensures
        final(app).wf(),
        diff_moused(*old(app), mouse, *final(app), res),
{
    match mouse.kind {
        MouseKind::WheelDown => return diff_wheel(app, mouse, true),
        MouseKind::WheelUp => return diff_wheel(app, mouse, false),
        MouseKind::Press => {
            if region_hit(app.hits.diff_close, mouse.col, mouse.row) || !point_in(
                app.hits.diff_area,
                mouse.col,
                mouse.row,
            ) {
                app.set_diff(None);
                return Effect::Nothing;
            }
            match app.diff_chip_at(mouse.col, mouse.row) {
                Some(letter) => return click_chip(app, letter),
                None => {},
            }
            match app.diff_modal_file_at(mouse.row) {
                Some(index) => return choose_file(app, index),
                None => return Effect::Nothing,
            }
        },
        _ => return Effect::Nothing,
    }
}

// ---- the repo page ----

/// What a click on a row of the repo page does: it selects the row; the second of two clicks on
/// it opens the row.
pub open spec fn page_row_clicked(
    before: AppState,
    selection: usize,
    recent: Option<usize>,
    after: AppState,
    effect: Effect,
    memory: ClickMemory,
) -> bool {
    if recent == Some(selection) {
        row_opened(before.with_page_row(selection), after, effect) && memory is Clear
    } else {
        after == before.with_page_row(selection) && effect is Nothing && memory
            == ClickMemory::Remember(selection)
    }
}

/// What a click on the repo page does: back closes it, a column chip flips the column, a base
/// cell opens the picker, a row selects or opens it.
pub open spec fn page_clicked(
    before: AppState,
    mouse: Mouse,
    recent: Option<usize>,
    after: AppState,
    effect: Effect,
    memory: ClickMemory,
) -> bool {
    if hit(before.hits.page_back, mouse.col, mouse.row) {
        after == before.with_page_closed() && effect is Nothing && memory is Keep
    } else {
        match region_at(before.hits.page_columns@, mouse.col, mouse.row, 0) {
            Some(column) => after == with_page_column(before, column) && effect is SavePrefs
                && memory is Keep,
            None => match region_at(before.hits.page_bases@, mouse.col, mouse.row, 0) {
                Some(selection) => picker_opened(
                    before.with_page_row(selection),
                    selection,
                    after,
                ) && effect is Nothing && memory is Keep,
                None => match first_at(before.hits.page_rows@, mouse.row, 0) {
                    Some(selection) => page_row_clicked(
                        before,
                        selection,
                        recent,
                        after,
                        effect,
                        memory,
                    ),
                    None => after == before && effect is Nothing && memory is Keep,
                },
            },
        }
    }
}

/// What the mouse does over the repo page; the wheel scrolls it.
pub open spec fn page_moused(
    before: AppState,
    mouse: Mouse,
    recent: Option<usize>,
    after: AppState,
    effect: Effect,
    memory: ClickMemory,
) -> bool {
    match mouse.kind {
        MouseKind::WheelDown => after == before.with_page_scroll(further(before.page.scroll, 3))
            && effect is Nothing && memory is Keep,
        MouseKind::WheelUp => after == before.with_page_scroll(further(before.page.scroll, -3))
            && effect is Nothing && memory is Keep,
        MouseKind::Press => page_clicked(before, mouse, recent, after, effect, memory),
        _ => after == before && effect is Nothing && memory is Keep,
    }
}

fn click_page_row(app: &mut AppState, selection: usize, recent: Option<usize>) -> (res: (
    Effect,
    ClickMemory,
))
    requires
        old(app).wf(),
    ensures
        final(app).wf(),
        page_row_clicked(*old(app), selection, recent, *final(app), res.0, res.1),
{
    app.set_page_row(selection);
    let double = match recent {
        Some(previous) => previous == selection,
        None => false,
    };
    if double {
        (open_row(app), ClickMemory::Clear)
    } else {
        (Effect::Nothing, ClickMemory::Remember(selection))
    }
}

fn click_page(app: &mut AppState, mouse: Mouse, recent: Option<usize>) -> (res: (
    Effect,
    ClickMemory,
))
    requires
        old(app).wf(),
    ensures
        final(app).wf(),
        page_clicked(*old(app), mouse, recent, *final(app), res.0, res.1),
{
    if region_hit(app.hits.page_back, mouse.col, mouse.row) {
        app.close_repo_page();
        return (Effect::Nothing, ClickMemory::Keep);
    }
    match app.repo_page_toggle_at(mouse.col, mouse.row) {
        Some(column) => {
            flip_page_column(app, column);
            return (Effect::SavePrefs, ClickMemory::Keep);
        },
        None => {},
    }
    match app.base_cell_at(mouse.col, mouse.row) {
        Some(selection) => {
            app.set_page_row(selection);
            open_picker(app, selection);
            return (Effect::Nothing, ClickMemory::Keep);
        },
        None => {},
    }
    match app.repo_page_row_at(mouse.row) {
        Some(selection) => return click_page_row(app, selection, recent),
        None => return (Effect::Nothing, ClickMemory::Keep),
    }
}

fn page_mouse(app: &mut AppState, mouse: Mouse, recent: Option<usize>) -> (res: (
    Effect,
    ClickMemory,
))
    requires
        old(app).wf(),
    ensures
        final(app).wf(),
        page_moused(*old(app), mouse, recent, *final(app), res.0, res.1),
{
    let line: usize = app.page.scroll;
    match mouse.kind {
        MouseKind::WheelDown => {
            app.set_page_scroll(shift(line, 3, usize::MAX));
            return (Effect::Nothing, ClickMemory::Keep);
        },
        MouseKind::WheelUp => {
            app.set_page_scroll(shift(line, -3, usize::MAX));
            return (Effect::Nothing, ClickMemory::Keep);
        },
        MouseKind::Press => return click_page(app, mouse, recent),
        _ => return (Effect::Nothing, ClickMemory::Keep),
    }
}

// ---- the help modal ----

/// What the mouse does over the help modal: a tab switches, the close button or a click outside
/// closes it, a link is opened; the wheel scrolls.
pub open spec fn help_moused(before: AppState, mouse: Mouse, after: AppState, effect: Effect) -> bool {
    let line = before.overlays.help_scroll;
    match mouse.kind {
        MouseKind::WheelDown => after == before.with_help_scroll(further(line, 3))
            && effect is Nothing,
        MouseKind::WheelUp => after == before.with_help_scroll(further(line, -3))
            && effect is Nothing,
        MouseKind::Press => match region_at(before.hits.help_tabs@, mouse.col, mouse.row, 0) {
            Some(tab) => after == before.with_help_tab(tab) && effect is SavePrefs,
            None => if hit(before.hits.help_close, mouse.col, mouse.row)
                || !before.hits.help_area.holds(mouse.col as int, mouse.row as int) {
                after == before.with_help(false) && effect is Nothing
            } else {
                &&& after == before
                &&& match link_at(before.hits.help_links@, mouse.row, 0) {
                    Some(url) => effect == Effect::OpenUrl(url),
                    None => effect is Nothing,
                }
            },
        },
        _ => after == before && effect is Nothing,
    }
}

fn help_mouse(app: &mut AppState, mouse: Mouse) -> (res: Effect)
    requires
        old(app).wf(),
    ensures
        final(app).wf(),
        help_moused(*old(app), mouse, *final(app), res),
{
    let line: usize = app.overlays.help_scroll;
    match mouse.kind {
        MouseKind::WheelDown => {
            app.set_help_scroll(shift(line, 3, usize::MAX));
            return Effect::Nothing;
        },
        MouseKind::WheelUp => {
            app.set_help_scroll(shift(line, -3, usize::MAX));
            return Effect::Nothing;
        },
        MouseKind::Press => {
            match app.help_tab_at(mouse.col, mouse.row) {
                Some(tab) => {
                    app.set_help_tab(tab);
                    return Effect::SavePrefs;
                },
                None => {},
            }
            if region_hit(app.hits.help_close, mouse.col, mouse.row) || !point_in(
                app.hits.help_area,
                mouse.col,
                mouse.row,
            ) {
                app.set_help(false);
                return Effect::Nothing;
            }
            match app.help_link_at(mouse.row) {
                Some(url) => return Effect::OpenUrl(url),
                None => return Effect::Nothing,
            }
        },
        _ => return Effect::Nothing,
    }
}

// ---- the list and the preview ----

/// A cell lies on the divider between the panes, or next to it.
pub open spec fn on_divider(app: AppState, col: u16, row: u16) -> bool {
    &&& -1 <= col - app.hits.divider_col <= 1
    &&& app.hits.main_area.y <= row < app.hits.main_area.y + app.hits.main_area.height
}

fn hits_divider(app: &AppState, col: u16, row: u16) -> (res: bool)
    ensures
        res == on_divider(*app, col, row),
{
    let area = app.hits.main_area;
    let c: i32 = col as i32;
    let divider: i32 = app.hits.divider_col as i32;
    c - divider <= 1 && divider - c <= 1 && row >= area.y && (row as u32) < area.y as u32
        + area.height as u32
}

/// What a click on a row of the list does: it selects the row; on a header it folds or unfolds it
/// too, and the second of two clicks on a repo opens its page.
pub open spec fn list_row_clicked(
    before: AppState,
    selection: usize,
    recent: Option<usize>,
    after: AppState,
    effect: Effect,
    memory: ClickMemory,
) -> bool {
    let picked = before.row_picked(selection);
    if picked.picked_key() is Some {
        header_toggled(picked, after) && effect is SavePrefs && memory is Clear
    } else if recent == Some(selection) && picked.current() is Some {
        picked.page_opened(after) && effect is Nothing && memory is Clear
    } else {
        after == picked && effect is Nothing && memory == ClickMemory::Remember(selection)
    }
}

fn click_list_row(app: &mut AppState, selection: usize, recent: Option<usize>) -> (res: (
    Effect,
    ClickMemory,
))
    requires
        old(app).wf(),
    ensures
        final(app).wf(),
        list_row_clicked(*old(app), selection, recent, *final(app), res.0, res.1),
{
    app.pick_row(selection);
    if app.toggle_selected_header() {
        return (Effect::SavePrefs, ClickMemory::Clear);
    }
    let double = match recent {
        Some(previous) => previous == selection,
        None => false,
    };
    if double && app.selected_repo_index().is_some() {
        app.open_repo_page();
        (Effect::Nothing, ClickMemory::Clear)
    } else {
        (Effect::Nothing, ClickMemory::Remember(selection))
    }
}

/// What a click on a value of the info block does.
pub open spec fn info_clicked(
    before: AppState,
    action: InfoAction,
    after: AppState,
    effect: Effect,
) -> bool {
    match action {
        InfoAction::OpenUrl(url) => after == before && effect == Effect::OpenUrl(url),
        InfoAction::CopyText(text) => after == before && effect == Effect::CopyText(text),
        InfoAction::ToggleExpand(field) => before.info_toggled(field, after) && effect is Nothing,
    }
}

fn click_info(app: &mut AppState, action: InfoAction) -> (res: Effect)
    requires
        old(app).wf(),
    ensures
        final(app).wf(),
        info_clicked(*old(app), action, *final(app), res),
{
    match action {
        InfoAction::OpenUrl(url) => return Effect::OpenUrl(url),
        InfoAction::CopyText(text) => return Effect::CopyText(text),
        InfoAction::ToggleExpand(field) => {
            app.toggle_info(field);
            return Effect::Nothing;
        },
    }
}

/// What a click does over the list and the preview: a command of the status bar takes
/// precedence, then a column header, a value of the info block, the divider, a row of the list.
pub open spec fn list_clicked(
    before: AppState,
    mouse: Mouse,
    recent: Option<usize>,
    after: AppState,
    effect: Effect,
    memory: ClickMemory,
) -> bool {
    match before.command_at(mouse.col, mouse.row, 0) {
        Some(command) => dispatched(before, command, after, effect) && memory is Keep,
        None => match region_at(before.hits.headers@, mouse.col, mouse.row, 0) {
            Some(column) => after == before.sorted_by(column) && effect is Nothing && memory is Keep,
            None => match region_at(before.hits.info@, mouse.col, mouse.row, 0) {
                Some(action) => info_clicked(before, action, after, effect) && memory is Keep,
                None => if on_divider(before, mouse.col, mouse.row) {
                    after == before.with_divider(true) && effect is Nothing && memory is Keep
                } else {
                    match before.selection_at(mouse.col, mouse.row) {
                        Some(selection) => list_row_clicked(
                            before,
                            selection,
                            recent,
                            after,
                            effect,
                            memory,
                        ),
                        None => after == before && effect is Nothing && memory is Keep,
                    }
                },
            },
        },
    }
}

fn click_list(app: &mut AppState, mouse: Mouse, recent: Option<usize>) -> (res: (
    Effect,
    ClickMemory,
))
    requires
        old(app).wf(),
    ensures
        final(app).wf(),
        list_clicked(*old(app), mouse, recent, *final(app), res.0, res.1),
{
    match app.clicked_command(mouse.col, mouse.row) {
        Some(command) => {
            let effect = dispatch_command(app, command);
            return (effect, ClickMemory::Keep);
        },
        None => {},
    }
    match app.header_sort_at(mouse.col, mouse.row) {
        Some(column) => {
            app.set_sort(column);
            return (Effect::Nothing, ClickMemory::Keep);
        },
        None => {},
    }
    match app.info_action_at(mouse.col, mouse.row) {
        Some(action) => {
            let effect = click_info(app, action);
            return (effect, ClickMemory::Keep);
        },
        None => {},
    }
    if hits_divider(app, mouse.col, mouse.row) {
        app.set_divider(true);
        return (Effect::Nothing, ClickMemory::Keep);
    }
    match app.list_selection_at(mouse.col, mouse.row) {
        Some(selection) => {
            return click_list_row(app, selection, recent);
        },
        None => return (Effect::Nothing, ClickMemory::Keep),
    }
}

/// The last line that the preview can be scrolled to.
pub open spec fn preview_last(app: AppState) -> int {
    if app.hits.preview_total > app.hits.preview_viewport {
        app.hits.preview_total - app.hits.preview_viewport
    } else {
        0
    }
}

/// What the wheel does: over the list it moves the selection, over the preview it scrolls it,
/// down to its last line.
pub open spec fn list_wheeled(before: AppState, mouse: Mouse, down: bool, after: AppState) -> bool {
    if mouse.col < before.hits.divider_col {
        after == before.navigated(
            if down {
                row_below(before)
            } else {
                row_above(before)
            },
        )
    } else {
        match before.current() {
            Some(idx) => {
                let repo = before.repos@[idx as int];
                let line = repo.preview_scroll;
                before.with_repo(
                    after,
                    idx as int,
                    RepoState {
                        auto_scroll: false,
                        preview_scroll: if !down {
                            further(line, -3)
                        } else if line + 3 < preview_last(before) {
                            (line + 3) as usize
                        } else {
                            preview_last(before) as usize
                        },
                        ..repo
                    },
                )
            },
            None => after == before,
        }
    }
}

fn list_wheel(app: &mut AppState, mouse: Mouse, down: bool)
    requires
        old(app).wf(),
    ensures
        final(app).wf(),
        list_wheeled(*old(app), mouse, down, *final(app)),
{
    if mouse.col < app.hits.divider_col {
        if down {
            app.nav_down();
        } else {
            app.nav_up();
        }
        return;
    }
    let last: usize = if app.hits.preview_total > app.hits.preview_viewport {
        app.hits.preview_total - app.hits.preview_viewport
    } else {
        0
    };
    match app.selected_repo_index() {
        Some(idx) => {
            let line: usize = app.repos[idx].preview_scroll;
            let to: usize = if !down {
                shift(line, -3, usize::MAX)
            } else if last > 3 && line < last - 3 {
                line + 3
            } else {
                last
            };
            app.scroll_preview(idx, to, false);
        },
        None => {},
    }
}

/// What the mouse does over the list and the preview.
pub open spec fn list_moused(
    before: AppState,
    mouse: Mouse,
    recent: Option<usize>,
    after: AppState,
    effect: Effect,
    memory: ClickMemory,
) -> bool {
    match mouse.kind {
        MouseKind::Press => list_clicked(before, mouse, recent, after, effect, memory),
        MouseKind::Drag => {
            &&& after == before
            &&& memory is Keep
            &&& effect == if before.drag.divider {
                Effect::SplitAt { col: mouse.col }
            } else {
                Effect::Nothing
            }
        },
        MouseKind::Release => after == before.with_divider(false) && effect is Nothing
            && memory is Keep,
        MouseKind::WheelUp => list_wheeled(before, mouse, false, after) && effect is Nothing
            && memory is Keep,
        MouseKind::WheelDown => list_wheeled(before, mouse, true, after) && effect is Nothing
            && memory is Keep,
        MouseKind::Other => after == before && effect is Nothing && memory is Keep,
    }
}

fn list_mouse(app: &mut AppState, mouse: Mouse, recent: Option<usize>) -> (res: (
    Effect,
    ClickMemory,
))
    requires
        old(app).wf(),
    ensures
        final(app).wf(),
        list_moused(*old(app), mouse, recent, *final(app), res.0, res.1),
{
    match mouse.kind {
        MouseKind::Press => return click_list(app, mouse, recent),
        MouseKind::Drag => {
            if app.drag.divider {
                return (Effect::SplitAt { col: mouse.col }, ClickMemory::Keep);
            }
            return (Effect::Nothing, ClickMemory::Keep);
        },
        MouseKind::Release => {
            app.set_divider(false);
            return (Effect::Nothing, ClickMemory::Keep);
        },
        MouseKind::WheelUp => {
            list_wheel(app, mouse, false);
            return (Effect::Nothing, ClickMemory::Keep);
        },
        MouseKind::WheelDown => {
            list_wheel(app, mouse, true);
            return (Effect::Nothing, ClickMemory::Keep);
        },
        MouseKind::Other => return (Effect::Nothing, ClickMemory::Keep),
    }
}

// ---- all of the mouse ----

/// What takes a mouse event: the topmost of what is open.
pub open spec fn mouse_layer(app: AppState) -> Layer {
    if app.overlays.build_info {
        Layer::BuildInfo
    } else if app.overlays.settings {
        Layer::Settings
    } else if app.overlays.confirm is Some {
        Layer::Confirm
    } else if app.overlays.copy_menu is Some {
        Layer::CopyMenu
    } else if app.overlays.base_picker is Some {
        Layer::BasePicker
    } else if app.overlays.diff is Some && !app.overlays.help {
        Layer::Diff
    } else if app.page.repo is Some && !app.overlays.help {
        Layer::Page
    } else if app.overlays.help {
        Layer::Help
    } else {
        Layer::List
    }
}

fn layer_under(app: &AppState) -> (res: Layer)
    ensures
        res == mouse_layer(*app),
{
    if app.overlays.build_info {
        Layer::BuildInfo
    } else if app.overlays.settings {
        Layer::Settings
    } else if app.overlays.confirm.is_some() {
        Layer::Confirm
    } else if app.overlays.copy_menu.is_some() {
        Layer::CopyMenu
    } else if app.overlays.base_picker.is_some() {
        Layer::BasePicker
    } else if app.overlays.diff.is_some() && !app.overlays.help {
        Layer::Diff
    } else if app.page.repo.is_some() && !app.overlays.help {
        Layer::Page
    } else if app.overlays.help {
        Layer::Help
    } else {
        Layer::List
    }
}

/// What a mouse event does to what lies topmost.
pub open spec fn layer_moused(
    before: AppState,
    mouse: Mouse,
    recent: Option<usize>,
    after: AppState,
    effect: Effect,
    memory: ClickMemory,
) -> bool {
    match mouse_layer(before) {
        Layer::BuildInfo => build_info_moused(before, mouse, after, effect) && memory is Keep,
        Layer::Settings => settings_moused(before, mouse, after, effect) && memory is Keep,
        Layer::Confirm => confirm_moused(before, mouse, after, effect) && memory is Keep,
        Layer::CopyMenu => copy_moused(before, mouse, after, effect) && memory is Keep,
        Layer::BasePicker => picker_moused(before, mouse, after, effect) && memory is Keep,
        Layer::Diff => diff_moused(before, mouse, after, effect) && memory is Keep,
        Layer::Page => page_moused(before, mouse, recent, after, effect, memory),
        Layer::Help => help_moused(before, mouse, after, effect) && memory is Keep,
        _ => list_moused(before, mouse, recent, after, effect, memory),
    }
}

fn layer_mouse(app: &mut AppState, mouse: Mouse, recent: Option<usize>) -> (res: (
    Effect,
    ClickMemory,
))
    requires
        old(app).wf(),
    ensures
        final(app).wf(),
        layer_moused(*old(app), mouse, recent, *final(app), res.0, res.1),
{
    let layer = layer_under(app);
    match layer {
        Layer::BuildInfo => {
            let effect = build_info_mouse(app, mouse);
            return (effect, ClickMemory::Keep);
        },
        Layer::Settings => {
            let effect = settings_mouse(app, mouse);
            return (effect, ClickMemory::Keep);
        },
        Layer::Confirm => {
            let effect = confirm_mouse(app, mouse);
            return (effect, ClickMemory::Keep);
        },
        Layer::CopyMenu => {
            let effect = copy_mouse(app, mouse);
            return (effect, ClickMemory::Keep);
        },
        Layer::BasePicker => {
            let effect = picker_mouse(app, mouse);
            return (effect, ClickMemory::Keep);
        },
        Layer::Diff => {
            let effect = diff_mouse(app, mouse);
            return (effect, ClickMemory::Keep);
        },
        Layer::Page => return page_mouse(app, mouse, recent),
        Layer::Help => {
            let effect = help_mouse(app, mouse);
            return (effect, ClickMemory::Keep);
        },
        _ => return list_mouse(app, mouse, recent),
    }
}

/// What a mouse event does: scrollbars and the notice of a newer build work over any view; the
/// rest goes to what lies topmost. `recent` is the row of a click that was just made.
pub open spec fn moused(
    before: AppState,
    mouse: Mouse,
    recent: Option<usize>,
    after: AppState,
    effect: Effect,
    memory: ClickMemory,
) -> bool {
    match before.dragged_bar(mouse) {
        Some(kind) => {
            &&& before.with_scrollbar(Some(kind)).bar_moved(kind, mouse.row, after)
            &&& effect is Nothing
            &&& memory is Keep
        },
        None => if before.releases_bar(mouse) {
            after == before.with_scrollbar(None) && effect is Nothing && memory is Keep
        } else if mouse.kind is Press && hit(before.hits.update_close, mouse.col, mouse.row) {
            after == before.with_update_dismissed() && effect is Nothing && memory is Keep
        } else if mouse.kind is Press && hit(before.hits.update_reload, mouse.col, mouse.row) {
            after == before && effect is Reload && memory is Keep
        } else {
            layer_moused(before, mouse, recent, after, effect, memory)
        },
    }
}

/// A mouse event: changes the state, and says what is to be done outside it and what to remember
/// of the click. `recent` is the row of a click that was just made.
pub fn handle_mouse(app: &mut AppState, mouse: Mouse, recent: Option<usize>) -> (res: (
    Effect,
    ClickMemory,
))
    requires
        old(app).wf(),
    ensures
        final(app).wf(),
        moused(*old(app), mouse, recent, *final(app), res.0, res.1),
{
    match app.bar_of(mouse) {
        Some(kind) => {
            app.set_scrollbar(Some(kind));
            app.move_bar(kind, mouse.row);
            return (Effect::Nothing, ClickMemory::Keep);
        },
        None => {},
    }
    if mouse.kind == MouseKind::Release && app.drag.scrollbar.is_some() {
        app.set_scrollbar(None);
        return (Effect::Nothing, ClickMemory::Keep);
    }
    if mouse.kind == MouseKind::Press && region_hit(
        app.hits.update_close,
        mouse.col,
        mouse.row,
    ) {
        app.dismiss_update();
        return (Effect::Nothing, ClickMemory::Keep);
    }
    if mouse.kind == MouseKind::Press && region_hit(
        app.hits.update_reload,
        mouse.col,
        mouse.row,
    ) {
        return (Effect::Reload, ClickMemory::Keep);
    }
    layer_mouse(app, mouse, recent)
}

/// Clicking the hint of a command in the status bar does what the command does, while nothing
/// lies over the list.
pub proof fn law_clicks_run_commands(
    before: AppState,
    mouse: Mouse,
    recent: Option<usize>,
    after: AppState,
    effect: Effect,
    memory: ClickMemory,
    command: Command,
)
    requires
        moused(before, mouse, recent, after, effect, memory),
        mouse.kind is Press,
        before.command_at(mouse.col, mouse.row, 0) == Some(command),
        mouse_layer(before) is List,
        before.dragged_bar(mouse) is None,
        !hit(before.hits.update_close, mouse.col, mouse.row),
        !hit(before.hits.update_reload, mouse.col, mouse.row),
    ensures
        dispatched(before, command, after, effect),
{
}

// ---- what a click does ----

/// A dialog is confirmed by a click on its yes and by no other; one on its no, on its cross or
/// beside it gives the action up.
pub proof fn law_only_yes_is_clicked(before: AppState, mouse: Mouse, after: AppState, effect: Effect)
    requires
        confirm_moused(before, mouse, after, effect),
    ensures
        effect is Confirmed ==> mouse.kind is Press && hit(
            before.hits.confirm_yes,
            mouse.col,
            mouse.row,
        ),
        effect matches Effect::Confirmed(action) ==> before.overlays.confirm is Some && action
            == before.overlays.confirm->0.action,
        mouse.kind is Press && hit(before.hits.confirm_yes, mouse.col, mouse.row)
            && before.overlays.confirm is Some ==> effect is Confirmed
            && after.overlays.confirm is None,
        mouse.kind is Press && !hit(before.hits.confirm_yes, mouse.col, mouse.row) && (hit(
            before.hits.confirm_no,
            mouse.col,
            mouse.row,
        ) || !before.hits.confirm_area.holds(mouse.col as int, mouse.row as int))
            ==> effect is Nothing && after.overlays.confirm is None,
        mouse.kind !is Press ==> after == before && effect is Nothing,
{
    reveal(AppState::with_confirm);
}

/// Scrolling by a bar moves what the bar belongs to, and nothing else.
pub proof fn law_bars_scroll_their_own(before: AppState, value: usize, after: AppState, kind: ScrollKind)
    requires
        before.scroll_applied(kind, value, after),
        before.overlays.diff is Some,
    ensures
        kind is DiffFiles ==> after.overlays.diff is Some && after.overlays.diff->0.file_scroll
            == value && after.overlays.diff->0.scroll == before.overlays.diff->0.scroll,
        kind is DiffBody ==> after.overlays.diff is Some && after.overlays.diff->0.scroll == value
            && after.overlays.diff->0.file_scroll == before.overlays.diff->0.file_scroll,
        kind is Help ==> after.overlays.help_scroll == value && after.page == before.page,
        kind is RepoPage ==> after.page.scroll == value && after.overlays.help_scroll
            == before.overlays.help_scroll,
{
    reveal(AppState::with_diff);
    reveal(AppState::with_help_scroll);
    reveal(AppState::with_page_scroll);
}

/// A first click on a row of the repo page selects it, a second one soon after opens it.
pub proof fn law_two_clicks_open(
    before: AppState,
    row: usize,
    recent: Option<usize>,
    after: AppState,
    effect: Effect,
    memory: ClickMemory,
)
    requires
        page_row_clicked(before, row, recent, after, effect, memory),
    ensures
        recent != Some(row) ==> after.page.selected == row && effect is Nothing && memory
            == ClickMemory::Remember(row) && after.overlays == before.overlays,
        recent == Some(row) ==> memory is Clear && row_opened(
            before.with_page_row(row),
            after,
            effect,
        ),
{
    reveal(AppState::with_page_row);
}

/// Dragging the divider puts it where the mouse is; letting go ends that.
pub proof fn law_dragging_the_divider(
    before: AppState,
    mouse: Mouse,
    recent: Option<usize>,
    after: AppState,
    effect: Effect,
    memory: ClickMemory,
)
    requires
        list_moused(before, mouse, recent, after, effect, memory),
    ensures
        mouse.kind is Drag && before.drag.divider ==> effect == (Effect::SplitAt {
            col: mouse.col,
        }),
        mouse.kind is Drag && !before.drag.divider ==> effect is Nothing,
        mouse.kind is Release ==> !after.drag.divider && effect is Nothing,
        mouse.kind is WheelDown && mouse.col < before.hits.divider_col ==> after.selected
            == row_below(before) as usize,
        mouse.kind is WheelUp && mouse.col < before.hits.divider_col ==> after.selected
            == row_above(before) as usize,
{
    reveal(AppState::with_divider);
    reveal(AppState::navigated);
}

/// The notice of a newer build is closed or followed by a click on it, whatever else is open.
pub proof fn law_clicks_on_the_update(
    before: AppState,
    mouse: Mouse,
    recent: Option<usize>,
    after: AppState,
    effect: Effect,
    memory: ClickMemory,
)
    requires
        moused(before, mouse, recent, after, effect, memory),
        mouse.kind is Press,
        before.dragged_bar(mouse) is None,
    ensures
        hit(before.hits.update_close, mouse.col, mouse.row) ==> after.notices.update_dismissed
            && effect is Nothing,
        !hit(before.hits.update_close, mouse.col, mouse.row) && hit(
            before.hits.update_reload,
            mouse.col,
            mouse.row,
        ) ==> after == before && effect is Reload,
{
    reveal(AppState::with_update_dismissed);
}

} // verus!
