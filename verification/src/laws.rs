//! What holds of the dashboard as a whole, whatever is open.

use vstd::prelude::*;

use crate::app::AppState;
use crate::commands::Layer;
use crate::dialogs::DiffModal;
use crate::input::Effect;
use crate::modals::{listed_at, moved, other_focus, other_mode, position_of};
use crate::mouse::{diff_moused, mouse_layer, moused, settings_moused, ClickMemory, Mouse};
use crate::options::{Column, DiffFocus, DiffMode, ScrollHit};
use crate::screen::{hit, Rect};

verus! {

// ---- modals ----

/// What lies topmost is a modal.
pub open spec fn modal_is_open(app: AppState) -> bool {
    match mouse_layer(app) {
        Layer::BuildInfo => true,
        Layer::Settings => true,
        Layer::Confirm => true,
        Layer::CopyMenu => true,
        Layer::BasePicker => true,
        Layer::Diff => true,
        Layer::Help => true,
        _ => false,
    }
}

/// The area of the topmost modal, where clicks are held against one.
pub open spec fn modal_area(app: AppState) -> Option<Rect> {
    match mouse_layer(app) {
        Layer::Settings => Some(app.hits.settings_area),
        Layer::Confirm => Some(app.hits.confirm_area),
        Layer::CopyMenu => Some(app.hits.copy_area),
        Layer::BasePicker => Some(app.hits.picker_area),
        Layer::Diff => Some(app.hits.diff_area),
        Layer::Help => Some(app.hits.help_area),
        _ => None,
    }
}

/// The topmost modal of a state is closed in another.
pub open spec fn modal_closed(before: AppState, after: AppState) -> bool {
    match mouse_layer(before) {
        Layer::BuildInfo => !after.overlays.build_info,
        Layer::Settings => !after.overlays.settings,
        Layer::Confirm => after.overlays.confirm is None,
        Layer::CopyMenu => after.overlays.copy_menu is None,
        Layer::BasePicker => after.overlays.base_picker is None,
        Layer::Diff => after.overlays.diff is None,
        Layer::Help => !after.overlays.help,
        _ => false,
    }
}

/// Nothing that can be clicked is drawn at a cell by the settings modal, the prompt of the
/// confirmation or the tab bar of the help modal.
pub open spec fn no_control_at(app: AppState, col: u16, row: u16) -> bool {
    &&& AppState::setting_at(app.hits.settings@, col, row, 0) is None
    &&& !hit(app.hits.confirm_yes, col, row)
    &&& crate::modals::region_at(app.hits.help_tabs@, col, row, 0) is None
}

/// A mouse event goes to what lies topmost: it is on no scrollbar and on no button of the
/// notice of a new build.
pub open spec fn goes_to_top(app: AppState, mouse: Mouse) -> bool {
    &&& app.dragged_bar(mouse) is None
    &&& !app.releases_bar(mouse)
    &&& !hit(app.hits.update_close, mouse.col, mouse.row)
    &&& !hit(app.hits.update_reload, mouse.col, mouse.row)
}

/// A click outside a modal closes it, and does nothing else.
pub proof fn law_click_outside_closes(
    before: AppState,
    mouse: Mouse,
    recent: Option<usize>,
    after: AppState,
    effect: Effect,
    memory: ClickMemory,
)
    requires
        moused(before, mouse, recent, after, effect, memory),
        goes_to_top(before, mouse),
        mouse.kind is Press,
        modal_area(before) matches Some(area) && !area.holds(mouse.col as int, mouse.row as int),
        no_control_at(before, mouse.col, mouse.row),
    ensures
        modal_closed(before, after),
        effect is Nothing,
        memory is Keep,
{
    reveal(AppState::with_settings);
    reveal(AppState::with_confirm);
    reveal(AppState::with_copy_menu);
    reveal(AppState::with_picker);
    reveal(AppState::with_diff);
    reveal(AppState::with_help);
}

/// What lies behind a modal is untouched: the list, its selection and filters, and the repo
/// page.
pub open spec fn same_behind(before: AppState, after: AppState) -> bool {
    &&& after.repos == before.repos
    &&& after.selected == before.selected
    &&& after.filter == before.filter
    &&& after.status_filter == before.status_filter
    &&& after.page == before.page
    &&& after.progress == before.progress
}

/// The mouse never reaches through a modal to what lies behind it.
pub proof fn law_modals_keep_the_mouse(
    before: AppState,
    mouse: Mouse,
    recent: Option<usize>,
    after: AppState,
    effect: Effect,
    memory: ClickMemory,
)
    requires
        moused(before, mouse, recent, after, effect, memory),
        goes_to_top(before, mouse),
        modal_is_open(before),
    ensures
        same_behind(before, after),
{
    match mouse_layer(before) {
        Layer::BuildInfo => {
            reveal(AppState::with_build_info);
        },
        Layer::Settings => {
            lemma_settings_keep(before, mouse, after, effect);
        },
        Layer::Confirm => {
            reveal(AppState::with_confirm);
        },
        Layer::CopyMenu => {
            reveal(AppState::with_copy_menu);
        },
        Layer::BasePicker => {
            reveal(AppState::with_picker);
        },
        Layer::Diff => {
            lemma_diff_keeps(before, mouse, after, effect);
        },
        _ => {
            reveal(AppState::with_help);
            reveal(AppState::with_help_tab);
            reveal(AppState::with_help_scroll);
        },
    }
}

proof fn lemma_settings_keep(before: AppState, mouse: Mouse, after: AppState, effect: Effect)
    requires
        settings_moused(before, mouse, after, effect),
    ensures
        same_behind(before, after),
{
    reveal(AppState::with_settings);
    reveal(AppState::with_settings_row);
    reveal(AppState::with_prefs);
}

proof fn lemma_diff_keeps(before: AppState, mouse: Mouse, after: AppState, effect: Effect)
    requires
        diff_moused(before, mouse, after, effect),
    ensures
        same_behind(before, after),
{
    reveal(AppState::with_diff);
}

// ---- the diff modal ----

/// Changing the panel, or the diff of a dirty row, twice changes nothing.
pub proof fn law_toggling_twice(focus: DiffFocus, mode: DiffMode)
    ensures
        other_focus(other_focus(focus)) == focus,
        other_mode(other_mode(mode)) == mode,
        other_focus(focus) != focus,
        other_mode(mode) != mode,
{
}

/// A move of the file selection, however far, leads to a file that is listed.
pub proof fn law_stepping_stays_listed(modal: DiffModal, delta: int)
    requires
        modal.listed().len() > 0,
    ensures
        modal.listed().contains(modal.stepped(delta)),
{
    let listed = modal.listed();
    let last = listed.len() - 1;
    let to = moved(position_of(listed, modal.selected, 0), delta, last);
    lemma_position_is_not_negative(listed, modal.selected, 0);
    assert(0 <= to <= last);
    assert(listed[to] == modal.stepped(delta));
}

proof fn lemma_position_is_not_negative(listed: Seq<usize>, file: usize, from: int)
    requires
        from >= 0,
    ensures
        position_of(listed, file, from) >= 0,
    decreases listed.len() - from,
{
    if from < listed.len() && listed[from] != file {
        lemma_position_is_not_negative(listed, file, from + 1);
    }
}

// ---- scrollbars ----

/// A scrollbar reaches both ends of its content, never goes past them, and going down its track
/// never goes up in the content.
pub proof fn law_scrollbars_reach_both_ends(bar: ScrollHit, row: u16, lower: u16)
    requires
        bar.track.height >= 2,
        bar.total > bar.viewport,
        row <= lower,
        bar.track.y + bar.track.height <= u16::MAX,
    ensures
        AppState::offset_at(bar, bar.track.y) == 0,
        AppState::offset_at(bar, (bar.track.y + bar.track.height - 1) as u16) == bar.total
            - bar.viewport,
        0 <= AppState::offset_at(bar, row) <= AppState::offset_at(bar, lower) <= bar.total
            - bar.viewport,
{
    let span = bar.track.height - 1;
    let last = bar.total - bar.viewport;
    let a = row - bar.track.y;
    let b = lower - bar.track.y;
    if 0 < a < span {
        lemma_share(a, last, span);
        if b < span {
            assert(a * last <= b * last) by (nonlinear_arith)
                requires
                    a <= b,
                    last > 0,
            ;
            vstd::arithmetic::div_mod::lemma_div_is_ordered(a * last, b * last, span);
        }
    }
    if 0 < b < span {
        lemma_share(b, last, span);
    }
}

proof fn lemma_share(down: int, last: int, span: int)
    requires
        0 < down < span,
        last > 0,
    ensures
        0 <= (down * last) / span <= last,
{
    assert(0 <= down * last <= last * span) by (nonlinear_arith)
        requires
            0 < down < span,
            last > 0,
    ;
    vstd::arithmetic::div_mod::lemma_div_is_ordered(0, down * last, span);
    vstd::arithmetic::div_mod::lemma_div_is_ordered(down * last, last * span, span);
    vstd::arithmetic::div_mod::lemma_div_by_multiple(last, span);
    assert(0int / span == 0) by (nonlinear_arith)
        requires
            span > 0,
    ;
}

// ---- the info block ----

/// Expanding a field of the info block and collapsing it again leaves the block as it was.
pub proof fn law_expanding_twice(before: AppState, field: String, mid: AppState, after: AppState)
    requires
        !before.expands(field@),
        before.info_toggled(field, mid),
        mid.info_toggled(field, after),
    ensures
        mid.expands(field@),
        after.info_expanded@ == before.info_expanded@,
{
    reveal(AppState::info_toggled);
    lemma_pushed_text_is_found(before.info_expanded@, field, 0);
    let n = before.info_expanded@.len();
    assert(mid.info_expanded@.remove(n as int) =~= before.info_expanded@);
}

proof fn lemma_pushed_text_is_found(texts: Seq<String>, text: String, from: int)
    requires
        0 <= from <= texts.len(),
        listed_at(texts, text@, from) is None,
    ensures
        listed_at(texts.push(text), text@, from) == Some(texts.len() as int),
    decreases texts.len() - from,
{
    if from < texts.len() {
        assert(texts.push(text)[from] == texts[from]);
        lemma_pushed_text_is_found(texts, text, from + 1);
    } else {
        assert(texts.push(text)[from] == text);
    }
}

// ---- columns ----

/// A column is shown when it is switched on and has something to show.
pub proof fn law_shown_columns(app: AppState, column: Column)
    ensures
        app.shown_columns().shows(column) <==> app.prefs.columns.shows(column) && app.has_data(
            column,
        ),
{
}

} // verus!
