//! Operations on the modals, the settings and the clickable regions.

use vstd::prelude::*;

use crate::app::{AppState, Notices, Overlays, Prefs};
use crate::dialogs::{loading_note, DiffModal, DiffSource, InfoAction, PageRow};
use crate::icons::IconStyle;
use crate::options::{
    Background, Column, ColumnFlags, Command, Contrast, DiffFocus, DiffMode, HelpTab,
    RepoPageColumn, RightView, ScrollHit, ScrollKind, SortColumn, SortDir, Theme,
};
use crate::page::{find_at, first_at};
use crate::repo::RepoState;
use crate::screen::{in_region, region_hit, Region};
use crate::text::{cat3, same};

verus! {

// ---- regions ----

/// What the first region from `from` on that holds a cell stands for.
pub open spec fn region_at<T>(entries: Seq<(Region, T)>, col: u16, row: u16, from: int) -> Option<
    T,
>
    decreases entries.len() - from,
{
    if from < 0 || from >= entries.len() {
        None
    } else if in_region(entries[from].0, col, row) {
        Some(entries[from].1)
    } else {
        region_at(entries, col, row, from + 1)
    }
}

/// What the first region that holds a cell stands for.
pub fn find_region<T: Copy>(entries: &Vec<(Region, T)>, col: u16, row: u16) -> (res: Option<T>)
    ensures
        res == region_at(entries@, col, row, 0),
{
    let mut i: usize = 0;
    while i < entries.len()
        invariant
            i <= entries@.len(),
            region_at(entries@, col, row, 0) == region_at(entries@, col, row, i as int),
        decreases entries@.len() - i,
    {
        let (region, value) = entries[i];
        if region_hit(Some(region), col, row) {
            return Some(value);
        }
        i += 1;
    }
    None
}

/// The move of an index by `delta`, kept between 0 and `last`.
pub open spec fn moved(from: int, delta: int, last: int) -> int {
    if from + delta < 0 {
        0
    } else if from + delta > last {
        last
    } else {
        from + delta
    }
}

pub(crate) fn shift(from: usize, delta: isize, last: usize) -> (res: usize)
    ensures
        res == moved(from as int, delta as int, last as int),
{
    let to: i128 = from as i128 + delta as i128;
    if to < 0 {
        0
    } else if to > last as i128 {
        last
    } else {
        to as usize
    }
}

/// The position of a file in a list of files from `from` on; the file itself where it is
/// not listed.
pub open spec fn position_of(listed: Seq<usize>, file: usize, from: int) -> int
    decreases listed.len() - from,
{
    if from < 0 || from >= listed.len() {
        file as int
    } else if listed[from] == file {
        from
    } else {
        position_of(listed, file, from + 1)
    }
}

fn find_position(listed: &Vec<usize>, file: usize) -> (res: usize)
    ensures
        res == position_of(listed@, file, 0),
{
    let mut i: usize = 0;
    while i < listed.len()
        invariant
            i <= listed@.len(),
            position_of(listed@, file, 0) == position_of(listed@, file, i as int),
        decreases listed@.len() - i,
    {
        if listed[i] == file {
            return i;
        }
        i += 1;
    }
    file
}

impl DiffModal {
    /// The file that a move of the selection by `delta` leads to.
    pub open spec fn stepped(self, delta: int) -> usize {
        let listed = self.listed();
        listed[moved(position_of(listed, self.selected, 0), delta, listed.len() - 1)]
    }

    proof fn lemma_listed_all(self, n: nat)
        requires
            n <= self.files@.len() <= usize::MAX,
        ensures
            self.filed_among(None, n) == Seq::new(n, |i: int| i as usize),
        decreases n,
    {
        if n > 0 {
            self.lemma_listed_all((n - 1) as nat);
        }
        assert(self.filed_among(None, n) =~= Seq::new(n, |i: int| i as usize));
    }

    proof fn lemma_position(self, from: int)
        requires
            self.files@.len() <= usize::MAX,
            self.status_filter is None,
            !self.has_chips(),
            0 <= from <= self.files@.len(),
            self.selected >= from,
        ensures
            position_of(self.listed(), self.selected, from) == self.selected,
        decreases self.files@.len() - from,
    {
        self.lemma_listed_all(self.files@.len());
        if from < self.files@.len() {
            assert(self.listed()[from] == from);
            if self.selected > from {
                self.lemma_position(from + 1);
            }
        }
    }

    /// Without a status filter and without chips every file is listed in its place, and a move
    /// of the selection is a move among all files.
    pub proof fn law_unfiltered_files(self, delta: int)
        requires
            0 < self.files@.len() <= usize::MAX,
            self.status_filter is None,
            !self.has_chips(),
        ensures
            self.listed() == Seq::new(self.files@.len(), |i: int| i as usize),
            self.stepped(delta) == moved(self.selected as int, delta, self.files@.len() - 1),
    {
        self.lemma_listed_all(self.files@.len());
        self.lemma_position(0);
    }
}

impl AppState {
    // ---- the diff modal ----

    /// The state with another diff modal.
    #[verifier::opaque]
    pub open spec fn with_diff(self, diff: Option<DiffModal>) -> AppState {
        AppState { overlays: Overlays { diff, ..self.overlays }, ..self }
    }

    /// Open the diff modal in a loading state for `source`.
    pub fn open_diff_modal(&mut self, source: DiffSource)
        ensures
            final(self).wf() == old(self).wf(),
            final(self).overlays.diff is Some,
            final(self).overlays.diff->0.fresh(source, DiffMode::Uncommitted, DiffFocus::Files),
            *final(self) == old(self).with_diff(final(self).overlays.diff),
    {
        reveal(AppState::with_diff);
        self.overlays.diff = Some(
            DiffModal {
                source,
                mode: DiffMode::Uncommitted,
                files: Vec::new(),
                selected: 0,
                file_scroll: 0,
                lines: loading_note(),
                scroll: 0,
                loading: true,
                diff_loading: true,
                focus: DiffFocus::Files,
                status_filter: None,
            },
        );
    }

    /// Toggle a dirty-row diff between uncommitted and base-branch views, returning true if
    /// a recompute is needed (i.e. the source supports toggling). Stash diffs don't toggle.
    pub fn diff_modal_toggle_mode(&mut self) -> (res: bool)
        ensures
            final(self).wf() == old(self).wf(),
            res == (old(self).overlays.diff matches Some(modal) && modal.source is Dirty),
            *final(self) == old(self).with_diff(final(self).overlays.diff),
            res ==> final(self).overlays.diff is Some && final(self).overlays.diff->0.fresh(
                old(self).overlays.diff->0.source,
                other_mode(old(self).overlays.diff->0.mode),
                old(self).overlays.diff->0.focus,
            ),
            !res ==> final(self).overlays.diff == old(self).overlays.diff,
    {
        reveal(AppState::with_diff);
        let dirty = match &self.overlays.diff {
            Some(modal) => match &modal.source {
                DiffSource::Dirty { .. } => true,
                _ => false,
            },
            None => false,
        };
        if dirty {
            let modal = self.overlays.diff.take();
            self.overlays.diff = restarted(modal);
        }
        dirty
    }

    /// The diff modal after another file was picked.
    pub open spec fn file_picked(self, after: AppState, index: int) -> bool {
        &&& self.overlays.diff is Some
        &&& after.overlays.diff is Some
        &&& self.overlays.diff->0.picked(after.overlays.diff->0, index)
        &&& after == self.with_diff(after.overlays.diff)
    }

    fn pick_file(&mut self, index: usize)
        requires
            old(self).overlays.diff is Some,
        ensures
            final(self).wf() == old(self).wf(),
            old(self).file_picked(*final(self), index as int),
    {
        reveal(AppState::with_diff);
        let modal = self.overlays.diff.take();
        self.overlays.diff = with_file(modal, index);
    }

    /// Move the diff modal's file selection by `delta`, clamped. Returns true if it changed
    /// (so the caller can refetch the newly-selected file's diff).
    pub fn diff_modal_select(&mut self, delta: isize) -> (res: bool)
        ensures
            final(self).wf() == old(self).wf(),
            res == (old(self).overlays.diff matches Some(modal) && modal.listed().len() > 0
                && modal.stepped(delta as int) != modal.selected),
            res ==> old(self).file_picked(
                *final(self),
                old(self).overlays.diff->0.stepped(delta as int) as int,
            ),
            !res ==> *final(self) == *old(self),
    {
        let next: Option<usize> = match &self.overlays.diff {
            None => None,
            Some(modal) => {
                let listed = modal.visible_file_indices();
                if listed.len() == 0 {
                    None
                } else {
                    let at: usize = find_position(&listed, modal.selected);
                    let next: usize = listed[shift(at, delta, listed.len() - 1)];
                    if next == modal.selected {
                        None
                    } else {
                        Some(next)
                    }
                }
            },
        };
        match next {
            Some(index) => {
                self.pick_file(index);
                true
            },
            None => false,
        }
    }

    /// Select a specific diff-modal file by index (mouse click). Returns true if it changed.
    pub fn diff_modal_select_index(&mut self, index: usize) -> (res: bool)
        ensures
            final(self).wf() == old(self).wf(),
            res == (old(self).overlays.diff matches Some(modal) && index < modal.files@.len() && index
                != modal.selected),
            res ==> old(self).file_picked(*final(self), index as int),
            !res ==> *final(self) == *old(self),
    {
        let changes = match &self.overlays.diff {
            Some(modal) => index < modal.files.len() && index != modal.selected,
            None => false,
        };
        if changes {
            self.pick_file(index);
        }
        changes
    }

    /// The file index at a screen row inside the diff modal's file-list panel (mouse hit-test).
    pub fn diff_modal_file_at(&self, row: u16) -> (res: Option<usize>)
        ensures
            res == self.file_at(row),
    {
        let area = self.hits.diff_files_area;
        match &self.overlays.diff {
            None => None,
            Some(modal) => {
                let listed = modal.visible_file_indices();
                if row < area.y || row as u32 >= area.y as u32 + area.height as u32 {
                    return None;
                }
                let index: u128 = (row - area.y) as u128 + modal.file_scroll as u128;
                if index < listed.len() as u128 {
                    Some(listed[index as usize])
                } else {
                    None
                }
            },
        }
    }

    /// The file that stands at a screen row of the file panel.
    pub open spec fn file_at(self, row: u16) -> Option<usize> {
        let area = self.hits.diff_files_area;
        match self.overlays.diff {
            Some(modal) => {
                let index = row - area.y + modal.file_scroll;
                if area.y <= row < area.y + area.height && index < modal.listed().len() {
                    Some(modal.listed()[index])
                } else {
                    None
                }
            },
            None => None,
        }
    }

    /// Switches which panel the keys drive.
    pub fn diff_modal_toggle_focus(&mut self)
        ensures
            final(self).wf() == old(self).wf(),
            *final(self) == old(self).refocused(),
    {
        reveal(AppState::with_diff);
        let modal = self.overlays.diff.take();
        self.overlays.diff = refocus(modal);
    }

    /// The diff modal with the keys driving its other panel.
    pub open spec fn refocused(self) -> AppState {
        self.with_diff(
            match self.overlays.diff {
                Some(modal) => Some(DiffModal { focus: other_focus(modal.focus), ..modal }),
                None => None,
            },
        )
    }

    /// The file panel scrolled by `delta` lines, between the first line and past the last.
    pub open spec fn files_scrolled(self, delta: int) -> AppState {
        self.with_diff(
            match self.overlays.diff {
                Some(modal) => Some(
                    DiffModal {
                        file_scroll: moved(
                            modal.file_scroll as int,
                            delta,
                            modal.files@.len() as int,
                        ) as usize,
                        ..modal
                    },
                ),
                None => None,
            },
        )
    }

    /// Scrolls the file panel without moving the selection.
    pub fn diff_files_scroll(&mut self, delta: isize)
        ensures
            final(self).wf() == old(self).wf(),
            *final(self) == old(self).files_scrolled(delta as int),
    {
        reveal(AppState::with_diff);
        let modal = self.overlays.diff.take();
        self.overlays.diff = scroll_files(modal, delta);
    }

    /// The diff panel with its scroll offset at a line.
    pub open spec fn diff_at(self, line: usize) -> AppState {
        self.with_diff(
            match self.overlays.diff {
                Some(modal) => Some(DiffModal { scroll: line, ..modal }),
                None => None,
            },
        )
    }

    /// The diff panel scrolled by `delta` lines, as far as lines can be counted.
    pub open spec fn diff_scrolled(self, delta: int) -> AppState {
        match self.overlays.diff {
            Some(modal) => self.diff_at(
                moved(modal.scroll as int, delta, usize::MAX as int) as usize,
            ),
            None => self,
        }
    }

    /// Scrolls the diff panel.
    pub fn diff_scroll_by(&mut self, delta: isize)
        ensures
            final(self).wf() == old(self).wf(),
            *final(self) == old(self).diff_scrolled(delta as int),
    {
        let to: Option<usize> = match &self.overlays.diff {
            Some(modal) => Some(shift(modal.scroll, delta, usize::MAX)),
            None => None,
        };
        match to {
            Some(line) => self.diff_scroll_to(line),
            None => {},
        }
    }

    /// Puts the diff panel's scroll offset at a line.
    pub fn diff_scroll_to(&mut self, line: usize)
        ensures
            final(self).wf() == old(self).wf(),
            *final(self) == old(self).diff_at(line),
    {
        reveal(AppState::with_diff);
        let modal = self.overlays.diff.take();
        self.overlays.diff = scroll_diff(modal, line);
    }

    /// The file list after the status filter was set.
    pub open spec fn filtered(self, letter: Option<char>) -> AppState {
        self.with_diff(filtered_modal(self.overlays.diff, letter))
    }

    /// The file that is selected once the status filter is set, where the selected file is
    /// no longer listed: the first listed one.
    pub open spec fn reselected(self) -> Option<usize> {
        match self.overlays.diff {
            Some(modal) => if modal.listed().len() > 0 && !modal.listed().contains(modal.selected) {
                Some(modal.listed()[0])
            } else {
                None
            },
            None => None,
        }
    }

    fn reselection(&self) -> (res: Option<usize>)
        ensures
            res == self.reselected(),
            res is Some ==> self.overlays.diff is Some,
    {
        match &self.overlays.diff {
            Some(modal) => {
                let listed = modal.visible_file_indices();
                if listed.len() > 0 && !contains_index(&listed, modal.selected) {
                    Some(listed[0])
                } else {
                    None
                }
            },
            None => None,
        }
    }

    /// Lists only the files filed under a letter, or all; where the selected file is no
    /// longer listed, the first listed one is selected. Returns true if the selection changed.
    pub fn diff_modal_set_filter(&mut self, letter: Option<char>) -> (res: bool)
        ensures
            final(self).wf() == old(self).wf(),
            res == (old(self).filtered(letter).reselected() is Some),
            match old(self).filtered(letter).reselected() {
                Some(index) => old(self).filtered(letter).file_picked(*final(self), index as int),
                None => *final(self) == old(self).filtered(letter),
            },
    {
        reveal(AppState::with_diff);
        let modal = self.overlays.diff.take();
        self.overlays.diff = filter_modal(modal, letter);
        assert(*self == old(self).filtered(letter));
        match self.reselection() {
            Some(index) => {
                self.pick_file(index);
                true
            },
            None => false,
        }
    }

    /// The letter that the status filter goes on to: all files, then each letter in turn.
    pub open spec fn next_letter(modal: DiffModal) -> Option<char> {
        let letters = modal.letters();
        match modal.status_filter {
            None => Some(letters[0]),
            Some(letter) => after_letter(letters, letter, 0),
        }
    }

    /// The status filter that is next where the chips are shown.
    pub open spec fn next_filter(self) -> Option<Option<char>> {
        match self.overlays.diff {
            Some(modal) => if modal.has_chips() {
                Some(Self::next_letter(modal))
            } else {
                None
            },
            None => None,
        }
    }

    fn following_filter(&self) -> (res: Option<Option<char>>)
        ensures
            res == self.next_filter(),
    {
        match &self.overlays.diff {
            Some(modal) => if modal.chips_active() {
                let chips = modal.status_chips();
                match modal.status_filter {
                    None => {
                        assert(modal.chips()[0].0 == modal.letters()[0]);
                        Some(Some(chips[0].0))
                    },
                    Some(letter) => Some(letter_after(&chips, letter, Ghost(modal.letters()))),
                }
            } else {
                None
            },
            None => None,
        }
    }

    /// Goes on to the next status filter where the chips are shown. Returns true if the
    /// selection changed.
    pub fn diff_modal_cycle_filter(&mut self) -> (res: bool)
        ensures
            final(self).wf() == old(self).wf(),
            match old(self).next_filter() {
                Some(letter) => {
                    &&& res == (old(self).filtered(letter).reselected() is Some)
                    &&& match old(self).filtered(letter).reselected() {
                        Some(index) => old(self).filtered(letter).file_picked(
                            *final(self),
                            index as int,
                        ),
                        None => *final(self) == old(self).filtered(letter),
                    }
                },
                None => !res && *final(self) == *old(self),
            },
    {
        match self.following_filter() {
            Some(letter) => self.diff_modal_set_filter(letter),
            None => false,
        }
    }

    /// The status chip at a cell: the letter it filters by, or all.
    pub fn diff_chip_at(&self, col: u16, row: u16) -> (res: Option<Option<char>>)
        ensures
            res == region_at(self.hits.diff_chips@, col, row, 0),
    {
        find_region(&self.hits.diff_chips, col, row)
    }

    // ---- help, headers, info ----

    /// The URL of a clickable help-modal link at the given screen row, if any.
    pub fn help_link_at(&self, row: u16) -> (res: Option<String>)
        ensures
            res == link_at(self.hits.help_links@, row, 0),
    {
        let mut i: usize = 0;
        while i < self.hits.help_links.len()
            invariant
                i <= self.hits.help_links@.len(),
                link_at(self.hits.help_links@, row, 0) == link_at(
                    self.hits.help_links@,
                    row,
                    i as int,
                ),
            decreases self.hits.help_links@.len() - i,
        {
            if self.hits.help_links[i].0 == row {
                return Some(self.hits.help_links[i].1.clone());
            }
            i += 1;
        }
        None
    }

    /// The help tab at a cell.
    pub fn help_tab_at(&self, col: u16, row: u16) -> (res: Option<HelpTab>)
        ensures
            res == region_at(self.hits.help_tabs@, col, row, 0),
    {
        find_region(&self.hits.help_tabs, col, row)
    }

    /// The column header at a cell.
    pub fn header_sort_at(&self, col: u16, row: u16) -> (res: Option<SortColumn>)
        ensures
            res == region_at(self.hits.headers@, col, row, 0),
    {
        find_region(&self.hits.headers, col, row)
    }

    /// The command of the status bar at a cell.
    pub open spec fn command_at(self, col: u16, row: u16, from: int) -> Option<Command>
        decreases self.hits.clickable@.len() - from,
    {
        let regions = self.hits.clickable@;
        if from < 0 || from >= regions.len() {
            None
        } else if in_region(
            (regions[from].row, regions[from].col_start, regions[from].col_end),
            col,
            row,
        ) {
            Some(regions[from].command)
        } else {
            self.command_at(col, row, from + 1)
        }
    }

    /// The command of the status bar at a cell.
    pub fn clicked_command(&self, col: u16, row: u16) -> (res: Option<Command>)
        ensures
            res == self.command_at(col, row, 0),
    {
        let mut i: usize = 0;
        while i < self.hits.clickable.len()
            invariant
                i <= self.hits.clickable@.len(),
                self.command_at(col, row, 0) == self.command_at(col, row, i as int),
            decreases self.hits.clickable@.len() - i,
        {
            let region = self.hits.clickable[i];
            if region_hit(Some((region.row, region.col_start, region.col_end)), col, row) {
                return Some(region.command);
            }
            i += 1;
        }
        None
    }

    /// What a click at a cell of the info block does.
    pub fn info_action_at(&self, col: u16, row: u16) -> (res: Option<InfoAction>)
        ensures
            res == region_at(self.hits.info@, col, row, 0),
    {
        let mut i: usize = 0;
        while i < self.hits.info.len()
            invariant
                i <= self.hits.info@.len(),
                region_at(self.hits.info@, col, row, 0) == region_at(
                    self.hits.info@,
                    col,
                    row,
                    i as int,
                ),
            decreases self.hits.info@.len() - i,
        {
            if region_hit(Some(self.hits.info[i].0), col, row) {
                return Some(self.hits.info[i].1.clone());
            }
            i += 1;
        }
        None
    }

    /// Shows a field of the info block in full, or cut again.
    pub fn toggle_info_expanded(&mut self, field: String)
        ensures
            final(self).wf() == old(self).wf(),
            final(self).info_expanded@ == (match listed_at(old(self).info_expanded@, field@, 0) {
                Some(i) => old(self).info_expanded@.remove(i),
                None => old(self).info_expanded@.push(field),
            }),
            *final(self) == (AppState { info_expanded: final(self).info_expanded, ..*old(self) }),
    {
        toggle_text(&mut self.info_expanded, field);
    }

    /// Whether a field of the info block is shown in full.
    pub open spec fn expands(self, field: Seq<char>) -> bool {
        listed_at(self.info_expanded@, field, 0) is Some
    }

    /// Whether a field of the info block is shown in full.
    pub fn is_expanded(&self, field: &str) -> (res: bool)
        ensures
            res == self.expands(field@),
    {
        find_text(&self.info_expanded, field).is_some()
    }

    // ---- columns and sorting ----

    /// Shows or hides a list column.
    pub fn toggle_column(&mut self, column: Column)
        ensures
            final(self).wf() == old(self).wf(),
            *final(self) == old(self).with_columns(old(self).prefs.columns.flipped(column)),
    {
        reveal(AppState::with_columns);
        let mut prefs = self.prefs;
        prefs.columns = prefs.columns.flip(column);
        self.prefs = prefs;
    }

    /// The state with other list columns.
    #[verifier::opaque]
    pub open spec fn with_columns(self, columns: ColumnFlags) -> AppState {
        AppState { prefs: Prefs { columns, ..self.prefs }, ..self }
    }

    /// Shows or hides a column of the repo page.
    pub fn toggle_repo_page_column(&mut self, column: RepoPageColumn)
        ensures
            final(self).wf() == old(self).wf(),
            *final(self) == (AppState {
                prefs: (Prefs {
                    repo_page_columns: old(self).prefs.repo_page_columns.flipped(column),
                    ..old(self).prefs
                }),
                ..*old(self)
            }),
    {
        let mut prefs = self.prefs;
        prefs.repo_page_columns = prefs.repo_page_columns.flip(column);
        self.prefs = prefs;
    }

    /// The sort order after a column was picked: picking the active column again flips the
    /// direction, another column starts ascending.
    #[verifier::opaque]
    pub open spec fn sorted_by(self, column: SortColumn) -> AppState {
        AppState {
            prefs: Prefs {
                sort_column: column,
                sort_dir: if self.prefs.sort_column == column {
                    self.prefs.sort_dir.reversed()
                } else {
                    SortDir::Asc
                },
                ..self.prefs
            },
            ..self
        }
    }

    /// Sorts by a column; picking the active column again flips the direction.
    pub fn set_sort(&mut self, column: SortColumn)
        ensures
            final(self).wf() == old(self).wf(),
            *final(self) == old(self).sorted_by(column),
    {
        reveal(AppState::sorted_by);
        let dir = if self.prefs.sort_column == column {
            self.prefs.sort_dir.flip()
        } else {
            SortDir::Asc
        };
        let mut prefs = self.prefs;
        prefs.sort_column = column;
        prefs.sort_dir = dir;
        self.prefs = prefs;
    }

    /// Some repo of a list may still turn out to have a count above `floor`.
    pub open spec fn some_above(repos: Seq<RepoState>, column: Column) -> bool {
        exists|i: int|
            0 <= i < repos.len() && match (#[trigger] repos[i]).details {
                None => true,
                Some(details) => match column {
                    Column::Branches => details.branch_count > 1,
                    _ => details.stash_count > 0,
                },
            }
    }

    /// Whether a list column has anything to show: a column that every repo leaves empty has
    /// not, once its data has been loaded.
    pub open spec fn has_data(self, column: Column) -> bool {
        match column {
            Column::Worktrees => !self.progress.worktrees_done || self.progress.worktrees@.len() > 0,
            Column::Branches => Self::some_above(self.repos@, column),
            Column::Stashes => Self::some_above(self.repos@, column),
            _ => true,
        }
    }

    /// Whether a list column has anything to show.
    pub fn column_available(&self, column: Column) -> (res: bool)
        ensures
            res == self.has_data(column),
    {
        match column {
            Column::Worktrees => !self.progress.worktrees_done || self.progress.worktrees.len() > 0,
            Column::Branches => any_above(&self.repos, column),
            Column::Stashes => any_above(&self.repos, column),
            _ => true,
        }
    }

    /// The enabled list columns that have something to show.
    pub open spec fn shown_columns(self) -> ColumnFlags {
        let columns = self.prefs.columns;
        ColumnFlags {
            worktrees: columns.worktrees && self.has_data(Column::Worktrees),
            branches: columns.branches && self.has_data(Column::Branches),
            stashes: columns.stashes && self.has_data(Column::Stashes),
            ..columns
        }
    }

    /// The enabled list columns that have something to show.
    pub fn effective_columns(&self) -> (res: ColumnFlags)
        ensures
            res == self.shown_columns(),
    {
        let mut columns = self.prefs.columns;
        columns.worktrees = columns.worktrees && self.column_available(Column::Worktrees);
        columns.branches = columns.branches && self.column_available(Column::Branches);
        columns.stashes = columns.stashes && self.column_available(Column::Stashes);
        columns
    }

    /// The state with the other view in the right pane.
    #[verifier::opaque]
    pub open spec fn with_other_view(self) -> AppState {
        AppState {
            right_view: match self.right_view {
                RightView::Log => RightView::Diff,
                RightView::Diff => RightView::Log,
            },
            ..self
        }
    }

    /// Switches the right pane between log and diff.
    pub fn toggle_diff_view(&mut self)
        ensures
            final(self).wf() == old(self).wf(),
            *final(self) == old(self).with_other_view(),
    {
        reveal(AppState::with_other_view);
        self.right_view = match self.right_view {
            RightView::Log => RightView::Diff,
            RightView::Diff => RightView::Log,
        };
    }

    /// Shows a short notice.
    pub fn show_toast(&mut self, message: String)
        ensures
            final(self).wf() == old(self).wf(),
            *final(self) == (AppState {
                notices: (Notices { toast: Some(message), ..old(self).notices }),
                ..*old(self)
            }),
    {
        self.notices.toast = Some(message);
    }

    // ---- settings ----

    /// The state with other preferences.
    #[verifier::opaque]
    pub open spec fn with_prefs(self, prefs: Prefs) -> AppState {
        AppState { prefs, ..self }
    }

    /// The preferences after a settings row was toggled: two-valued settings flip, the
    /// others go on to their next value.
    #[verifier::opaque]
    pub open spec fn toggled(prefs: Prefs, row: usize) -> Prefs {
        if row == 0 {
            Prefs { panel_padding: !prefs.panel_padding, ..prefs }
        } else if row == 1 {
            Prefs { grouping_enabled: !prefs.grouping_enabled, ..prefs }
        } else if row == 2 {
            Prefs { tree_enabled: !prefs.tree_enabled, ..prefs }
        } else if row == 3 {
            Prefs {
                icon_style: match prefs.icon_style {
                    IconStyle::Unicode => IconStyle::Emoji,
                    IconStyle::Emoji => IconStyle::Unicode,
                },
                ..prefs
            }
        } else if row == 4 {
            Prefs {
                theme: match prefs.theme {
                    Theme::Auto => Theme::Dark,
                    Theme::Dark => Theme::Light,
                    Theme::Light => Theme::Auto,
                },
                ..prefs
            }
        } else if row == 5 {
            Prefs {
                background: match prefs.background {
                    Background::Normal => Background::Soft,
                    Background::Soft => Background::Terminal,
                    Background::Terminal => Background::Normal,
                },
                ..prefs
            }
        } else if row == 6 {
            Prefs {
                contrast: match prefs.contrast {
                    Contrast::Normal => Contrast::Soft,
                    Contrast::Soft => Contrast::Normal,
                },
                ..prefs
            }
        } else {
            prefs
        }
    }

    /// The preferences after a settings chip was picked.
    #[verifier::opaque]
    pub open spec fn chosen(
        prefs: Prefs,
        row: usize,
        option: usize,
    ) -> Prefs {
        if row == 0 && option < 2 {
            Prefs { panel_padding: option == 0, ..prefs }
        } else if row == 1 && option < 2 {
            Prefs { grouping_enabled: option == 0, ..prefs }
        } else if row == 2 && option < 2 {
            Prefs { tree_enabled: option == 0, ..prefs }
        } else if row == 3 && option < 2 {
            Prefs {
                icon_style: if option == 0 {
                    IconStyle::Unicode
                } else {
                    IconStyle::Emoji
                },
                ..prefs
            }
        } else if row == 4 && option < 3 {
            Prefs {
                theme: if option == 0 {
                    Theme::Auto
                } else if option == 1 {
                    Theme::Dark
                } else {
                    Theme::Light
                },
                ..prefs
            }
        } else if row == 5 && option < 3 {
            Prefs {
                background: if option == 0 {
                    Background::Normal
                } else if option == 1 {
                    Background::Soft
                } else {
                    Background::Terminal
                },
                ..prefs
            }
        } else if row == 6 && option < 2 {
            Prefs {
                contrast: if option == 0 {
                    Contrast::Normal
                } else {
                    Contrast::Soft
                },
                ..prefs
            }
        } else {
            prefs
        }
    }

    /// Toggle the currently-selected settings row.
    pub fn toggle_selected_setting(&mut self)
        ensures
            final(self).wf() == old(self).wf(),
            *final(self) == old(self).with_prefs(
                Self::toggled(old(self).prefs, old(self).overlays.settings_selected),
            ),
    {
        reveal(AppState::with_prefs);
        self.prefs = toggle_setting(self.prefs, self.overlays.settings_selected);
    }

    /// Sets a settings row to the value of one of its chips.
    pub fn set_setting_option(&mut self, row: usize, option: usize)
        ensures
            final(self).wf() == old(self).wf(),
            *final(self) == old(self).with_prefs(Self::chosen(old(self).prefs, row, option)),
    {
        reveal(AppState::with_prefs);
        self.prefs = choose_setting(self.prefs, row, option);
    }

    /// The settings row, and perhaps the chip, at a cell.
    pub open spec fn setting_at(
        entries: Seq<(Region, usize, Option<usize>)>,
        col: u16,
        row: u16,
        from: int,
    ) -> Option<(usize, Option<usize>)>
        decreases entries.len() - from,
    {
        if from < 0 || from >= entries.len() {
            None
        } else if in_region(entries[from].0, col, row) {
            Some((entries[from].1, entries[from].2))
        } else {
            Self::setting_at(entries, col, row, from + 1)
        }
    }

    /// The settings row, and perhaps the chip, at a cell.
    pub fn settings_hit_at(&self, col: u16, row: u16) -> (res: Option<(usize, Option<usize>)>)
        ensures
            res == Self::setting_at(self.hits.settings@, col, row, 0),
    {
        let mut i: usize = 0;
        while i < self.hits.settings.len()
            invariant
                i <= self.hits.settings@.len(),
                Self::setting_at(self.hits.settings@, col, row, 0) == Self::setting_at(
                    self.hits.settings@,
                    col,
                    row,
                    i as int,
                ),
            decreases self.hits.settings@.len() - i,
        {
            let (region, line, option) = self.hits.settings[i];
            if region_hit(Some(region), col, row) {
                return Some((line, option));
            }
            i += 1;
        }
        None
    }

    // ---- menus ----

    /// The copy-menu option at a screen row.
    pub fn copy_menu_option_at(&self, row: u16) -> (res: Option<usize>)
        ensures
            res == first_at(self.hits.copy_rows@, row, 0),
    {
        find_at(&self.hits.copy_rows, row)
    }

    /// What the copy menu's options copy of a row: its path, its branch, or both.
    pub open spec fn copied(option: usize, row: PageRow) -> Seq<char> {
        if option == 0 {
            row.path@
        } else if option == 1 {
            row.branch@
        } else {
            row.path@ + " "@ + row.branch@
        }
    }

    /// What the copy menu's selected option copies of a row.
    pub fn copy_menu_text(&self, row: &PageRow) -> (res: String)
        ensures
            res@ == Self::copied(
                match self.overlays.copy_menu {
                    Some(option) => option,
                    None => 0,
                },
                *row,
            ),
    {
        let option: usize = match self.overlays.copy_menu {
            Some(option) => option,
            None => 0,
        };
        if option == 0 {
            row.path.clone()
        } else if option == 1 {
            row.branch.clone()
        } else {
            cat3(row.path.as_str(), " ", row.branch.as_str())
        }
    }

    /// The repo page's column chip at a cell.
    pub fn repo_page_toggle_at(&self, col: u16, row: u16) -> (res: Option<RepoPageColumn>)
        ensures
            res == region_at(self.hits.page_columns@, col, row, 0),
    {
        find_region(&self.hits.page_columns, col, row)
    }

    /// The repo page's row whose base cell holds a cell of the screen.
    pub fn base_cell_at(&self, col: u16, row: u16) -> (res: Option<usize>)
        ensures
            res == region_at(self.hits.page_bases@, col, row, 0),
    {
        find_region(&self.hits.page_bases, col, row)
    }

    // ---- scrollbars ----

    /// The scrollbar whose right-hand column holds a cell.
    pub open spec fn bar_at(bars: Seq<ScrollHit>, col: u16, row: u16, from: int) -> Option<
        ScrollKind,
    >
        decreases bars.len() - from,
    {
        if from < 0 || from >= bars.len() {
            None
        } else {
            let bar = bars[from];
            let track = bar.track;
            if bar.total > bar.viewport && track.width > 0 && col == track.x + track.width - 1
                && track.y <= row < track.y + track.height {
                Some(bar.kind)
            } else {
                Self::bar_at(bars, col, row, from + 1)
            }
        }
    }

    /// The scrollbar at a cell.
    pub fn scrollbar_at(&self, col: u16, row: u16) -> (res: Option<ScrollKind>)
        ensures
            res == Self::bar_at(self.hits.scrollbars@, col, row, 0),
    {
        let mut i: usize = 0;
        while i < self.hits.scrollbars.len()
            invariant
                i <= self.hits.scrollbars@.len(),
                Self::bar_at(self.hits.scrollbars@, col, row, 0) == Self::bar_at(
                    self.hits.scrollbars@,
                    col,
                    row,
                    i as int,
                ),
            decreases self.hits.scrollbars@.len() - i,
        {
            let bar = self.hits.scrollbars[i];
            let track = bar.track;
            if bar.total > bar.viewport && track.width > 0 && col as u32 == track.x as u32
                + track.width as u32 - 1 && track.y <= row && (row as u32) < track.y as u32
                + track.height as u32 {
                return Some(bar.kind);
            }
            i += 1;
        }
        None
    }

    /// The scroll offset that a row of a bar's track stands for: the track's first row is the
    /// first offset, its last row the last.
    pub open spec fn offset_at(bar: ScrollHit, row: u16) -> int {
        let span = bar.track.height - 1;
        let last = bar.total - bar.viewport;
        let down = row - bar.track.y;
        if last <= 0 || span <= 0 || down <= 0 {
            0
        } else if down >= span {
            last
        } else {
            (down * last) / span
        }
    }

    /// The offset that a row stands for on the scrollbar of a kind.
    pub open spec fn offset_for(bars: Seq<ScrollHit>, kind: ScrollKind, row: u16, from: int) -> Option<
        int,
    >
        decreases bars.len() - from,
    {
        if from < 0 || from >= bars.len() {
            None
        } else if bars[from].kind == kind {
            Some(Self::offset_at(bars[from], row))
        } else {
            Self::offset_for(bars, kind, row, from + 1)
        }
    }

    /// The offset that a row stands for on the scrollbar of a kind.
    pub fn scroll_value_for(&self, kind: ScrollKind, row: u16) -> (res: Option<usize>)
        ensures
            match res {
                Some(offset) => Self::offset_for(self.hits.scrollbars@, kind, row, 0) == Some(
                    offset as int,
                ),
                None => Self::offset_for(self.hits.scrollbars@, kind, row, 0) is None,
            },
    {
        let mut i: usize = 0;
        while i < self.hits.scrollbars.len()
            invariant
                i <= self.hits.scrollbars@.len(),
                Self::offset_for(self.hits.scrollbars@, kind, row, 0) == Self::offset_for(
                    self.hits.scrollbars@,
                    kind,
                    row,
                    i as int,
                ),
            decreases self.hits.scrollbars@.len() - i,
        {
            let bar = self.hits.scrollbars[i];
            if bar.kind == kind {
                return Some(scroll_offset(bar, row));
            }
            i += 1;
        }
        None
    }
}

/// A diff modal after the status filter was set.
pub open spec fn filtered_modal(modal: Option<DiffModal>, letter: Option<char>) -> Option<
    DiffModal,
> {
    match modal {
        Some(modal) => Some(DiffModal { status_filter: letter, file_scroll: 0, ..modal }),
        None => None,
    }
}

fn filter_modal(modal: Option<DiffModal>, letter: Option<char>) -> (res: Option<DiffModal>)
    ensures
        res == filtered_modal(modal, letter),
{
    match modal {
        Some(modal) => {
            let mut modal = modal;
            modal.status_filter = letter;
            modal.file_scroll = 0;
            Some(modal)
        },
        None => None,
    }
}

fn restarted(modal: Option<DiffModal>) -> (res: Option<DiffModal>)
    ensures
        match modal {
            Some(before) => res is Some && res->0.fresh(
                before.source,
                other_mode(before.mode),
                before.focus,
            ),
            None => res is None,
        },
{
    match modal {
        Some(modal) => Some(
            DiffModal {
                source: modal.source,
                mode: match modal.mode {
                    DiffMode::Uncommitted => DiffMode::BaseBranch,
                    DiffMode::BaseBranch => DiffMode::Uncommitted,
                },
                files: Vec::new(),
                selected: 0,
                file_scroll: 0,
                lines: loading_note(),
                scroll: 0,
                loading: true,
                diff_loading: true,
                focus: modal.focus,
                status_filter: None,
            },
        ),
        None => None,
    }
}

fn with_file(modal: Option<DiffModal>, index: usize) -> (res: Option<DiffModal>)
    ensures
        match modal {
            Some(before) => res is Some && before.picked(res->0, index as int),
            None => res is None,
        },
{
    match modal {
        Some(modal) => {
            let mut modal = modal;
            modal.selected = index;
            modal.scroll = 0;
            modal.lines = loading_note();
            modal.diff_loading = true;
            Some(modal)
        },
        None => None,
    }
}

fn refocus(modal: Option<DiffModal>) -> (res: Option<DiffModal>)
    ensures
        res == (match modal {
            Some(modal) => Some(DiffModal { focus: other_focus(modal.focus), ..modal }),
            None => None,
        }),
{
    match modal {
        Some(modal) => {
            let mut modal = modal;
            modal.focus = match modal.focus {
                DiffFocus::Files => DiffFocus::Diff,
                DiffFocus::Diff => DiffFocus::Files,
            };
            Some(modal)
        },
        None => None,
    }
}

fn scroll_files(modal: Option<DiffModal>, delta: isize) -> (res: Option<DiffModal>)
    ensures
        res == (match modal {
            Some(modal) => Some(
                DiffModal {
                    file_scroll: moved(
                        modal.file_scroll as int,
                        delta as int,
                        modal.files@.len() as int,
                    ) as usize,
                    ..modal
                },
            ),
            None => None,
        }),
{
    match modal {
        Some(modal) => {
            let mut modal = modal;
            let last: usize = modal.files.len();
            modal.file_scroll = shift(modal.file_scroll, delta, last);
            Some(modal)
        },
        None => None,
    }
}

fn scroll_diff(modal: Option<DiffModal>, line: usize) -> (res: Option<DiffModal>)
    ensures
        res == (match modal {
            Some(modal) => Some(DiffModal { scroll: line, ..modal }),
            None => None,
        }),
{
    match modal {
        Some(modal) => {
            let mut modal = modal;
            modal.scroll = line;
            Some(modal)
        },
        None => None,
    }
}

fn toggle_setting(before: Prefs, row: usize) -> (res: Prefs)
    ensures
        res == AppState::toggled(before, row),
{
    reveal(AppState::toggled);
    let mut prefs = before;
    match row {
        0 => prefs.panel_padding = !prefs.panel_padding,
        1 => prefs.grouping_enabled = !prefs.grouping_enabled,
        2 => prefs.tree_enabled = !prefs.tree_enabled,
        3 => {
            prefs.icon_style = match prefs.icon_style {
                IconStyle::Unicode => IconStyle::Emoji,
                IconStyle::Emoji => IconStyle::Unicode,
            };
        },
        4 => {
            prefs.theme = match prefs.theme {
                Theme::Auto => Theme::Dark,
                Theme::Dark => Theme::Light,
                Theme::Light => Theme::Auto,
            };
        },
        5 => {
            prefs.background = match prefs.background {
                Background::Normal => Background::Soft,
                Background::Soft => Background::Terminal,
                Background::Terminal => Background::Normal,
            };
        },
        6 => {
            prefs.contrast = match prefs.contrast {
                Contrast::Normal => Contrast::Soft,
                Contrast::Soft => Contrast::Normal,
            };
        },
        _ => {},
    }
    prefs
}

fn choose_setting(before: Prefs, row: usize, option: usize) -> (res: Prefs)
    ensures
        res == AppState::chosen(before, row, option),
{
    reveal(AppState::chosen);
    let mut prefs = before;
    if row == 0 && option < 2 {
        prefs.panel_padding = option == 0;
    } else if row == 1 && option < 2 {
        prefs.grouping_enabled = option == 0;
    } else if row == 2 && option < 2 {
        prefs.tree_enabled = option == 0;
    } else if row == 3 && option < 2 {
        prefs.icon_style = if option == 0 {
            IconStyle::Unicode
        } else {
            IconStyle::Emoji
        };
    } else if row == 4 && option < 3 {
        prefs.theme = if option == 0 {
            Theme::Auto
        } else if option == 1 {
            Theme::Dark
        } else {
            Theme::Light
        };
    } else if row == 5 && option < 3 {
        prefs.background = if option == 0 {
            Background::Normal
        } else if option == 1 {
            Background::Soft
        } else {
            Background::Terminal
        };
    } else if row == 6 && option < 2 {
        prefs.contrast = if option == 0 {
            Contrast::Normal
        } else {
            Contrast::Soft
        };
    }
    prefs
}

fn scroll_offset(bar: ScrollHit, row: u16) -> (res: usize)
    ensures
        res == AppState::offset_at(bar, row),
{
    if bar.total <= bar.viewport || bar.track.height <= 1 || row <= bar.track.y {
        return 0;
    }
    let span: u16 = bar.track.height - 1;
    let last: usize = bar.total - bar.viewport;
    let down: u16 = row - bar.track.y;
    if down >= span {
        return last;
    }
    proof {
        let d = down as int;
        let l = last as int;
        let s = span as int;
        assert(0 <= d * l <= 0xffff * 0xffff_ffff_ffff_ffff) by (nonlinear_arith)
            requires
                0 <= d <= 0xffff,
                0 <= l <= 0xffff_ffff_ffff_ffff,
        ;
        assert((d * l) / s <= l) by (nonlinear_arith)
            requires
                0 <= d < s,
                0 <= l,
        ;
        assert((d * l) / s >= 0) by (nonlinear_arith)
            requires
                0 <= d < s,
                0 <= l,
        ;
    }
    let scaled: u128 = down as u128 * last as u128;
    (scaled / span as u128) as usize
}

fn any_above(repos: &Vec<RepoState>, column: Column) -> (res: bool)
    ensures
        res == AppState::some_above(repos@, column),
{
    let mut i: usize = 0;
    while i < repos.len()
        invariant
            i <= repos@.len(),
            forall|j: int|
                0 <= j < i ==> !(match (#[trigger] repos@[j]).details {
                    None => true,
                    Some(details) => match column {
                        Column::Branches => details.branch_count > 1,
                        _ => details.stash_count > 0,
                    },
                }),
        decreases repos@.len() - i,
    {
        let above = match &repos[i].details {
            None => true,
            Some(details) => match column {
                Column::Branches => details.branch_count > 1,
                _ => details.stash_count > 0,
            },
        };
        if above {
            return true;
        }
        i += 1;
    }
    false
}

/// The place of a text in a list from `from` on.
pub open spec fn listed_at(texts: Seq<String>, text: Seq<char>, from: int) -> Option<int>
    decreases texts.len() - from,
{
    if from < 0 || from >= texts.len() {
        None
    } else if texts[from]@ == text {
        Some(from)
    } else {
        listed_at(texts, text, from + 1)
    }
}

pub(crate) fn find_text(texts: &Vec<String>, text: &str) -> (res: Option<usize>)
    ensures
        match res {
            Some(i) => i < texts@.len() && listed_at(texts@, text@, 0) == Some(i as int),
            None => listed_at(texts@, text@, 0) is None,
        },
{
    let mut i: usize = 0;
    while i < texts.len()
        invariant
            i <= texts@.len(),
            listed_at(texts@, text@, 0) == listed_at(texts@, text@, i as int),
        decreases texts@.len() - i,
    {
        if same(texts[i].as_str(), text) {
            return Some(i);
        }
        i += 1;
    }
    None
}

pub(crate) fn toggle_text(texts: &mut Vec<String>, text: String)
    ensures
        final(texts)@ == (match listed_at(old(texts)@, text@, 0) {
            Some(i) => old(texts)@.remove(i),
            None => old(texts)@.push(text),
        }),
{
    match find_text(texts, text.as_str()) {
        Some(i) => {
            texts.remove(i);
        },
        None => {
            texts.push(text);
        },
    }
}

fn contains_index(list: &Vec<usize>, index: usize) -> (res: bool)
    ensures
        res == list@.contains(index),
{
    let mut i: usize = 0;
    while i < list.len()
        invariant
            i <= list@.len(),
            forall|j: int| 0 <= j < i ==> list@[j] != index,
        decreases list@.len() - i,
    {
        if list[i] == index {
            return true;
        }
        i += 1;
    }
    false
}

/// The letter that follows a letter in a list from `from` on.
pub open spec fn after_letter(letters: Seq<char>, letter: char, from: int) -> Option<char>
    decreases letters.len() - from,
{
    if from < 0 || from + 1 >= letters.len() {
        None
    } else if letters[from] == letter {
        Some(letters[from + 1])
    } else {
        after_letter(letters, letter, from + 1)
    }
}

fn letter_after(chips: &Vec<(char, usize)>, letter: char, letters: Ghost<Seq<char>>) -> (res:
    Option<char>)
    requires
        chips@.len() == letters@.len(),
        forall|i: int| 0 <= i < chips@.len() ==> (#[trigger] chips@[i]).0 == letters@[i],
    ensures
        res == after_letter(letters@, letter, 0),
{
    let n: usize = chips.len();
    let mut i: usize = 0;
    while i < n && i + 1 < n
        invariant
            i <= n,
            n == chips@.len(),
            chips@.len() == letters@.len(),
            forall|i: int| 0 <= i < chips@.len() ==> (#[trigger] chips@[i]).0 == letters@[i],
            after_letter(letters@, letter, 0) == after_letter(letters@, letter, i as int),
        decreases n - i,
    {
        if chips[i].0 == letter {
            return Some(chips[i + 1].0);
        }
        i += 1;
    }
    None
}

/// The link that stands at a screen row.
pub open spec fn link_at(links: Seq<(u16, String)>, row: u16, from: int) -> Option<String>
    decreases links.len() - from,
{
    if from < 0 || from >= links.len() {
        None
    } else if links[from].0 == row {
        Some(links[from].1)
    } else {
        link_at(links, row, from + 1)
    }
}

/// The other diff of a dirty row.
pub open spec fn other_mode(mode: DiffMode) -> DiffMode {
    match mode {
        DiffMode::Uncommitted => DiffMode::BaseBranch,
        DiffMode::BaseBranch => DiffMode::Uncommitted,
    }
}

/// The other panel of the diff modal.
pub open spec fn other_focus(focus: DiffFocus) -> DiffFocus {
    match focus {
        DiffFocus::Files => DiffFocus::Diff,
        DiffFocus::Diff => DiffFocus::Files,
    }
}

/// Toggling a two-valued setting twice, or a three-valued one three times, restores the
/// preferences.
pub proof fn law_settings_go_round(prefs: Prefs, row: usize)
    ensures
        row == 4 || row == 5 ==> AppState::toggled(
            AppState::toggled(AppState::toggled(prefs, row), row),
            row,
        ) == prefs,
        row != 4 && row != 5 ==> AppState::toggled(AppState::toggled(prefs, row), row) == prefs,
{
    reveal(AppState::toggled);
    if row == 0 || row == 1 || row == 2 {
    } else if row == 3 {
    } else if row == 4 {
    } else if row == 5 {
    } else if row == 6 {
    } else {
    }
}

/// Picking a settings chip twice is the same as picking it once.
pub proof fn law_choosing_twice(prefs: Prefs, row: usize, option: usize)
    ensures
        AppState::chosen(AppState::chosen(prefs, row, option), row, option) == AppState::chosen(
            prefs,
            row,
            option,
        ),
{
    reveal(AppState::chosen);
    let once = AppState::chosen(prefs, row, option);
    if row == 0 || row == 1 || row == 2 {
        assert(AppState::chosen(once, row, option) == once);
    } else if row == 3 {
        assert(AppState::chosen(once, row, option) == once);
    } else if row == 4 {
        assert(AppState::chosen(once, row, option) == once);
    } else if row == 5 {
        assert(AppState::chosen(once, row, option) == once);
    } else {
        assert(AppState::chosen(once, row, option) == once);
    }
}

/// Sorting by the active column twice restores the order; sorting by another column starts
/// ascending.
pub proof fn law_sorting(app: AppState, column: SortColumn)
    ensures
        app.sorted_by(app.prefs.sort_column).sorted_by(app.prefs.sort_column) == app,
        column != app.prefs.sort_column ==> app.sorted_by(column).prefs.sort_dir is Asc,
{
    reveal(AppState::sorted_by);
}

// ---- what the settings and the columns mean ----

/// Each row of the settings changes one preference: padding, groups, tree, icons, theme,
/// background and contrast, in this order. A row below them changes nothing.
pub proof fn law_rows_of_the_settings(prefs: Prefs, row: usize)
    ensures
        ({
            let after = AppState::toggled(prefs, row);
            &&& (after.panel_padding != prefs.panel_padding) == (row == 0)
            &&& (after.grouping_enabled != prefs.grouping_enabled) == (row == 1)
            &&& (after.tree_enabled != prefs.tree_enabled) == (row == 2)
            &&& (after.icon_style != prefs.icon_style) == (row == 3)
            &&& (after.theme != prefs.theme) == (row == 4)
            &&& (after.background != prefs.background) == (row == 5)
            &&& (after.contrast != prefs.contrast) == (row == 6)
            &&& after.columns == prefs.columns && after.sort_column == prefs.sort_column
            &&& after.info_pinned == prefs.info_pinned && after.help_tab == prefs.help_tab
            &&& row == 4 && prefs.theme is Auto ==> after.theme is Dark
            &&& row == 4 && prefs.theme is Dark ==> after.theme is Light
            &&& row == 5 && prefs.background is Normal ==> after.background is Soft
            &&& row == 5 && prefs.background is Soft ==> after.background is Terminal
        }),
{
    reveal(AppState::toggled);
}

/// What each chip of the settings picks: on before off, and the values of the others in the order
/// in which toggling goes through them.
pub proof fn law_chips_of_the_settings(prefs: Prefs, option: usize)
    ensures
        AppState::chosen(prefs, 0, 0).panel_padding && !AppState::chosen(prefs, 0, 1).panel_padding,
        AppState::chosen(prefs, 1, 0).grouping_enabled && !AppState::chosen(
            prefs,
            1,
            1,
        ).grouping_enabled,
        AppState::chosen(prefs, 2, 0).tree_enabled && !AppState::chosen(prefs, 2, 1).tree_enabled,
        AppState::chosen(prefs, 3, 0).icon_style is Unicode,
        AppState::chosen(prefs, 3, 1).icon_style is Emoji,
        option < 2 ==> AppState::toggled(AppState::chosen(prefs, 4, option), 4)
            == AppState::chosen(prefs, 4, (option + 1) as usize),
        AppState::chosen(prefs, 4, 0).theme is Auto,
        option < 2 ==> AppState::toggled(AppState::chosen(prefs, 5, option), 5)
            == AppState::chosen(prefs, 5, (option + 1) as usize),
        AppState::chosen(prefs, 5, 0).background is Normal,
        AppState::chosen(prefs, 6, 0).contrast is Normal,
        AppState::chosen(prefs, 6, 1).contrast is Soft,
{
    reveal(AppState::toggled);
    reveal(AppState::chosen);
    if option == 0 {
    } else if option == 1 {
    }
}

/// A column has something to show where some repo has: more than one branch, a stash, a worktree.
/// While that is not known it may have.
pub proof fn law_columns_with_data(app: AppState)
    ensures
        app.has_data(Column::AheadBehind) && app.has_data(Column::Dirty) && app.has_data(
            Column::LastCommit,
        ),
        app.has_data(Column::Worktrees) <==> !app.progress.worktrees_done
            || app.progress.worktrees@.len() > 0,
        app.has_data(Column::Branches) <==> exists|i: int|
            0 <= i < app.repos@.len() && ((#[trigger] app.repos@[i]).details is None
                || app.repos@[i].details->0.branch_count > 1),
        app.has_data(Column::Stashes) <==> exists|i: int|
            0 <= i < app.repos@.len() && ((#[trigger] app.repos@[i]).details is None
                || app.repos@[i].details->0.stash_count > 0),
{
    if exists|i: int|
        0 <= i < app.repos@.len() && ((#[trigger] app.repos@[i]).details is None
            || app.repos@[i].details->0.branch_count > 1) {
        assert(AppState::some_above(app.repos@, Column::Branches));
    }
    if exists|i: int|
        0 <= i < app.repos@.len() && ((#[trigger] app.repos@[i]).details is None
            || app.repos@[i].details->0.stash_count > 0) {
        assert(AppState::some_above(app.repos@, Column::Stashes));
    }
}

/// Moving by a distance stops at either end.
pub proof fn law_moving_stops_at_the_ends(from: int, delta: int, last: int)
    requires
        0 <= from <= last,
    ensures
        0 <= moved(from, delta, last) <= last,
        0 <= from + delta <= last ==> moved(from, delta, last) == from + delta,
        from + delta < 0 ==> moved(from, delta, last) == 0,
        from + delta > last ==> moved(from, delta, last) == last,
{
}

proof fn lemma_after_letter(letters: Seq<char>, letter: char, from: int, k: int)
    requires
        0 <= from <= k < letters.len(),
        letters[k] == letter,
        letters.no_duplicates(),
    ensures
        after_letter(letters, letter, from) == if k + 1 < letters.len() {
            Some(letters[k + 1])
        } else {
            None
        },
    decreases k - from,
{
    if from < k {
        lemma_after_letter(letters, letter, from + 1, k);
    }
}

/// Going through the filters of the file panel starts with all files, then takes one letter after
/// the other, and comes back to all files after the last.
pub proof fn law_filters_go_round(modal: DiffModal, k: int)
    requires
        0 <= k < modal.letters().len(),
        modal.letters().no_duplicates(),
    ensures
        modal.status_filter is None ==> AppState::next_letter(modal) == Some(modal.letters()[0]),
        modal.status_filter == Some(modal.letters()[k]) && k + 1 < modal.letters().len()
            ==> AppState::next_letter(modal) == Some(modal.letters()[k + 1]),
        modal.status_filter == Some(modal.letters()[k]) && k + 1 == modal.letters().len()
            ==> AppState::next_letter(modal) is None,
{
    lemma_after_letter(modal.letters(), modal.letters()[k], 0, k);
}

/// What the copy menu hands out: the path, the branch, or both.
pub proof fn law_what_is_copied(row: PageRow, option: usize)
    ensures
        AppState::copied(0, row) == row.path@,
        AppState::copied(1, row) == row.branch@,
        option >= 2 ==> AppState::copied(option, row) == row.path@ + " "@ + row.branch@,
{
}

proof fn lemma_region_at<T>(entries: Seq<(Region, T)>, col: u16, row: u16, from: int)
    requires
        0 <= from,
    ensures
        match region_at(entries, col, row, from) {
            Some(value) => exists|k: int|
                from <= k < entries.len() && in_region((#[trigger] entries[k]).0, col, row)
                    && entries[k].1 == value && forall|j: int|
                    from <= j < k ==> !in_region((#[trigger] entries[j]).0, col, row),
            None => forall|j: int|
                from <= j < entries.len() ==> !in_region((#[trigger] entries[j]).0, col, row),
        },
    decreases entries.len() - from,
{
    if from < entries.len() {
        if in_region(entries[from].0, col, row) {
            assert(in_region(entries[from].0, col, row));
        } else {
            lemma_region_at(entries, col, row, from + 1);
        }
    }
}

/// A click hits the first region that holds its cell, and nothing only where none does.
pub proof fn law_first_region_is_hit<T>(entries: Seq<(Region, T)>, col: u16, row: u16)
    ensures
        match region_at(entries, col, row, 0) {
            Some(value) => exists|k: int|
                0 <= k < entries.len() && in_region((#[trigger] entries[k]).0, col, row)
                    && entries[k].1 == value && forall|j: int|
                    0 <= j < k ==> !in_region((#[trigger] entries[j]).0, col, row),
            None => forall|j: int|
                0 <= j < entries.len() ==> !in_region((#[trigger] entries[j]).0, col, row),
        },
{
    lemma_region_at(entries, col, row, 0);
}

} // verus!
