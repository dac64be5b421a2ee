//! A frame: which layers are drawn over one another, and what is kept of them for the mouse.

use vstd::prelude::*;
use vstd::string::*;

use crate::app::{AppState, Hits, Overlays, PageState};
use crate::boxes::{BuildInfo, ConfirmView, Menu};
use crate::dialogs::{DiffModal, InfoAction};
use crate::diffview::DiffView;
use crate::helpview::HelpModal;
use crate::listview::ListView;
use crate::notices::UpdateNotice;
use crate::rows::lemma_lines_same;
use crate::options::{ClickRegion, ScrollHit};
use crate::pageview::PageView;
use crate::preview::{InfoPane, PreviewView, Shown};
use crate::repo::RepoState;
use crate::screen::{
    across, cells_less, empty_rect, less, step_across, Rect, Region,
};
use crate::settingsview::SettingsView;
use crate::statusbar::StatusBar;

verus! {

// ---- the layers ----

/// A layer of a frame.
#[derive(Debug, Clone, Copy, PartialEq, Eq, Structural)]
pub enum FrameLayer {
    /// The list, the preview, the status bar and the divider.
    Dashboard,
    RepoPage,
    ThrottleBanner,
    Confirm,
    Diff,
    Settings,
    BuildInfo,
    CopyMenu,
    BasePicker,
    Help,
    UpdateNotice,
    Toast,
}

/// Layers with another over them, if it is there.
pub open spec fn with_layer(layers: Seq<FrameLayer>, there: bool, layer: FrameLayer) -> Seq<
    FrameLayer,
> {
    if there {
        layers.push(layer)
    } else {
        layers
    }
}

fn add_layer(layers: &mut Vec<FrameLayer>, there: bool, layer: FrameLayer)
    ensures
        final(layers)@ == with_layer(old(layers)@, there, layer),
{
    if there {
        layers.push(layer);
    }
}

/// The layers over an open repo page, which fills the screen.
pub open spec fn page_layers(app: AppState) -> Seq<FrameLayer> {
    let none = Seq::<FrameLayer>::empty();
    let page = none.push(FrameLayer::RepoPage).push(FrameLayer::ThrottleBanner);
    let confirm = with_layer(page, app.overlays.confirm is Some, FrameLayer::Confirm);
    let diff = with_layer(confirm, app.overlays.diff is Some, FrameLayer::Diff);
    let settings = with_layer(diff, app.overlays.settings, FrameLayer::Settings);
    let build = with_layer(settings, app.overlays.build_info, FrameLayer::BuildInfo);
    let copy = with_layer(build, app.overlays.copy_menu is Some, FrameLayer::CopyMenu);
    let picker = with_layer(copy, app.overlays.base_picker is Some, FrameLayer::BasePicker);
    with_layer(picker, app.overlays.help, FrameLayer::Help)
}

/// The layers over the list and the preview.
pub open spec fn list_layers(app: AppState) -> Seq<FrameLayer> {
    let none = Seq::<FrameLayer>::empty();
    let dashboard = none.push(FrameLayer::Dashboard).push(FrameLayer::ThrottleBanner);
    let help = with_layer(dashboard, app.overlays.help, FrameLayer::Help);
    let confirm = with_layer(help, app.overlays.confirm is Some, FrameLayer::Confirm);
    let settings = with_layer(confirm, app.overlays.settings, FrameLayer::Settings);
    with_layer(settings, app.overlays.build_info, FrameLayer::BuildInfo)
}

/// The layers of a frame, the lowest first.
pub open spec fn layers_of(app: AppState) -> Seq<FrameLayer> {
    (if app.page.repo is Some {
        page_layers(app)
    } else {
        list_layers(app)
    }).push(FrameLayer::UpdateNotice).push(FrameLayer::Toast)
}

/// The layers of a frame, the lowest first.
pub fn frame_layers(app: &AppState) -> (res: Vec<FrameLayer>)
    ensures
        res@ == layers_of(*app),
{
    let mut layers: Vec<FrameLayer> = Vec::new();
    if app.page.repo.is_some() {
        layers.push(FrameLayer::RepoPage);
        layers.push(FrameLayer::ThrottleBanner);
        add_layer(&mut layers, app.overlays.confirm.is_some(), FrameLayer::Confirm);
        add_layer(&mut layers, app.overlays.diff.is_some(), FrameLayer::Diff);
        add_layer(&mut layers, app.overlays.settings, FrameLayer::Settings);
        add_layer(&mut layers, app.overlays.build_info, FrameLayer::BuildInfo);
        add_layer(&mut layers, app.overlays.copy_menu.is_some(), FrameLayer::CopyMenu);
        add_layer(&mut layers, app.overlays.base_picker.is_some(), FrameLayer::BasePicker);
        add_layer(&mut layers, app.overlays.help, FrameLayer::Help);
    } else {
        layers.push(FrameLayer::Dashboard);
        layers.push(FrameLayer::ThrottleBanner);
        add_layer(&mut layers, app.overlays.help, FrameLayer::Help);
        add_layer(&mut layers, app.overlays.confirm.is_some(), FrameLayer::Confirm);
        add_layer(&mut layers, app.overlays.settings, FrameLayer::Settings);
        add_layer(&mut layers, app.overlays.build_info, FrameLayer::BuildInfo);
    }
    layers.push(FrameLayer::UpdateNotice);
    layers.push(FrameLayer::Toast);
    layers
}

/// The notice of a new build and the toast lie over everything else, on every screen; below
/// them all lies the repo page where one is open, and the list where none is.
pub proof fn law_notices_lie_on_top(app: AppState)
    ensures
        layers_of(app).len() >= 4,
        layers_of(app).last() == FrameLayer::Toast,
        layers_of(app)[layers_of(app).len() - 2] == FrameLayer::UpdateNotice,
        layers_of(app)[0] == if app.page.repo is Some {
            FrameLayer::RepoPage
        } else {
            FrameLayer::Dashboard
        },
{
}

// ---- copies ----

fn copy_of<T: Copy>(entries: &Vec<T>) -> (res: Vec<T>)
    ensures
        res@ == entries@,
{
    let mut out: Vec<T> = Vec::new();
    let mut i: usize = 0;
    while i < entries.len()
        invariant
            i <= entries@.len(),
            out@ =~= entries@.take(i as int),
        decreases entries@.len() - i,
    {
        out.push(entries[i]);
        i += 1;
    }
    out
}

fn copy_links(links: &Vec<(u16, String)>) -> (res: Vec<(u16, String)>)
    ensures
        res@ == links@,
{
    let mut out: Vec<(u16, String)> = Vec::new();
    let mut i: usize = 0;
    while i < links.len()
        invariant
            i <= links@.len(),
            out@ =~= links@.take(i as int),
        decreases links@.len() - i,
    {
        out.push((links[i].0, links[i].1.clone()));
        i += 1;
    }
    out
}

fn copy_actions(actions: &Vec<(Region, InfoAction)>) -> (res: Vec<(Region, InfoAction)>)
    ensures
        res@ == actions@,
{
    let mut out: Vec<(Region, InfoAction)> = Vec::new();
    let mut i: usize = 0;
    while i < actions.len()
        invariant
            i <= actions@.len(),
            out@ =~= actions@.take(i as int),
        decreases actions@.len() - i,
    {
        out.push((actions[i].0, actions[i].1.clone()));
        i += 1;
    }
    out
}

/// An area with a border of one cell around it; an area without cells has none.
pub open spec fn framed(area: Rect) -> Rect {
    if area.width == 0 || area.height == 0 {
        empty_rect()
    } else {
        Rect {
            x: less(area.x as int, 1) as u16,
            y: less(area.y as int, 1) as u16,
            width: across(area.width, 2),
            height: across(area.height, 2),
        }
    }
}

fn with_border(area: Rect) -> (res: Rect)
    ensures
        res == framed(area),
{
    if area.width == 0 || area.height == 0 {
        Rect::empty()
    } else {
        Rect {
            x: cells_less(area.x, 1),
            y: cells_less(area.y, 1),
            width: step_across(area.width, 2),
            height: step_across(area.height, 2),
        }
    }
}

// ---- what is kept ----

impl AppState {
    /// A frame begins: the scrollbars and the clickable hints are registered anew by what is
    /// drawn.
    pub fn begin_frame(&mut self)
        ensures
            final(self).wf() == old(self).wf(),
            final(self).hits.scrollbars@ == Seq::<ScrollHit>::empty(),
            final(self).hits.clickable@ == Seq::<ClickRegion>::empty(),
            *final(self) == (AppState {
                hits: Hits {
                    scrollbars: final(self).hits.scrollbars,
                    clickable: final(self).hits.clickable,
                    ..old(self).hits
                },
                ..*old(self)
            }),
    {
        self.hits.scrollbars = Vec::new();
        self.hits.clickable = Vec::new();
    }

    /// The panes were drawn.
    pub fn capture_panes(&mut self, main: Rect, preview: Rect)
        ensures
            final(self).wf() == old(self).wf(),
            *final(self) == (AppState {
                hits: Hits {
                    main_area: main,
                    preview_area: preview,
                    divider_col: preview.x,
                    ..old(self).hits
                },
                ..*old(self)
            }),
    {
        self.hits.main_area = main;
        self.hits.preview_area = preview;
        self.hits.divider_col = preview.x;
    }

    /// The state after the list was drawn from an item on: its rows with a border around them
    /// are what clicks are held against.
    pub open spec fn list_captured(self, view: ListView, offset: usize, after: AppState) -> bool {
        &&& after.hits.headers@ == view.header_clicks@
        &&& after == (AppState {
            hits: Hits {
                list_area: framed(view.rows_area),
                list_offset: offset,
                headers: after.hits.headers,
                ..self.hits
            },
            ..self
        })
    }

    /// The list was drawn from an item on.
    pub fn capture_list(&mut self, view: &ListView, offset: usize)
        ensures
            final(self).wf() == old(self).wf(),
            old(self).list_captured(*view, offset, *final(self)),
    {
        self.hits.list_area = with_border(view.rows_area);
        self.hits.list_offset = offset;
        self.hits.headers = copy_of(&view.header_clicks);
    }

    /// The state after the preview was drawn.
    pub open spec fn preview_captured(
        self,
        view: PreviewView,
        info: Option<InfoPane>,
        after: AppState,
    ) -> bool {
        &&& after.hits.info@ == (match info {
            Some(info) => info.clicks@,
            None => Seq::empty(),
        }) + (match view.copy {
            Some(copy) => Seq::empty().push(copy),
            None => Seq::empty(),
        })
        &&& after.hits.clickable@ == self.hits.clickable@ + view.footer_clicks@
        &&& after.hits.scrollbars@ == self.hits.scrollbars@.push(view.scrollbar)
        &&& after == (AppState {
            hits: Hits {
                info: after.hits.info,
                clickable: after.hits.clickable,
                scrollbars: after.hits.scrollbars,
                preview_total: view.scrollbar.total,
                preview_viewport: view.scrollbar.viewport,
                ..self.hits
            },
            ..self
        })
    }

    /// The preview was drawn.
    pub fn capture_preview(&mut self, view: &PreviewView, info: &Option<InfoPane>)
        ensures
            final(self).wf() == old(self).wf(),
            old(self).preview_captured(*view, *info, *final(self)),
    {
        let mut clicks: Vec<(Region, InfoAction)> = match info {
            Some(info) => copy_actions(&info.clicks),
            None => Vec::new(),
        };
        match &view.copy {
            Some((region, action)) => clicks.push((*region, action.clone())),
            None => {},
        }
        assert(clicks@ =~= (match *info {
            Some(info) => info.clicks@,
            None => Seq::empty(),
        }) + (match view.copy {
            Some(copy) => Seq::empty().push(copy),
            None => Seq::empty(),
        }));
        self.hits.info = clicks;
        let mut added = copy_of(&view.footer_clicks);
        self.hits.clickable.append(&mut added);
        self.hits.scrollbars.push(view.scrollbar);
        self.hits.preview_total = view.scrollbar.total;
        self.hits.preview_viewport = view.scrollbar.viewport;
    }

    /// A log was drawn from a line on: while it is followed, that is where it stands.
    pub fn follow_log(&mut self, shown: Shown, line: usize)
        requires
            shown matches Shown::Log(idx) ==> idx < old(self).repos@.len(),
        ensures
            final(self).wf() == old(self).wf(),
            match shown {
                Shown::Log(idx) => if old(self).repos@[idx as int].auto_scroll {
                    old(self).with_repo(
                        *final(self),
                        idx as int,
                        (RepoState { preview_scroll: line, ..old(self).repos@[idx as int] }),
                    )
                } else {
                    *final(self) == *old(self)
                },
                _ => *final(self) == *old(self),
            },
    {
        match shown {
            Shown::Log(idx) => {
                if self.repos[idx].auto_scroll {
                    self.scroll_preview(idx, line, true);
                }
            },
            _ => {},
        }
    }

    /// The status bar was drawn.
    pub fn capture_status_bar(&mut self, bar: &StatusBar)
        ensures
            final(self).wf() == old(self).wf(),
            final(self).hits.clickable@ == old(self).hits.clickable@ + bar.clickable@,
            *final(self) == (AppState {
                hits: Hits { clickable: final(self).hits.clickable, ..old(self).hits },
                ..*old(self)
            }),
    {
        let mut added = copy_of(&bar.clickable);
        self.hits.clickable.append(&mut added);
    }

    /// The state after the repo page was drawn: it is not scrolled past its end.
    pub open spec fn page_captured(self, view: PageView, after: AppState) -> bool {
        &&& after.hits.page_rows@ == view.visible.rows@
        &&& after.hits.page_bases@ == view.visible.bases@
        &&& after.hits.page_columns@ == view.panels.menu_clicks@
        &&& after.hits.scrollbars@ == self.hits.scrollbars@.push(view.scrollbar)
        &&& after == (AppState {
            hits: Hits {
                page_rows: after.hits.page_rows,
                page_bases: after.hits.page_bases,
                page_columns: after.hits.page_columns,
                page_back: Some(view.back),
                scrollbars: after.hits.scrollbars,
                ..self.hits
            },
            page: PageState { scroll: view.scroll, ..self.page },
            ..self
        })
    }

    /// The repo page was drawn.
    pub fn capture_page(&mut self, view: &PageView)
        ensures
            final(self).wf() == old(self).wf(),
            old(self).page_captured(*view, *final(self)),
    {
        self.hits.page_rows = copy_of(&view.visible.rows);
        self.hits.page_bases = copy_of(&view.visible.bases);
        self.hits.page_columns = copy_of(&view.panels.menu_clicks);
        self.hits.page_back = Some(view.back);
        self.hits.scrollbars.push(view.scrollbar);
        self.page.scroll = view.scroll;
    }

    /// The state after the diff modal was drawn: its panels are not scrolled past their ends.
    pub open spec fn diff_captured(self, view: DiffView, after: AppState) -> bool {
        let bars = match view.files.scrollbar {
            Some(bar) => self.hits.scrollbars@.push(bar),
            None => self.hits.scrollbars@,
        };
        &&& after.hits.diff_chips@ == view.files.chip_clicks@
        &&& after.hits.scrollbars@ == bars.push(view.diff.scrollbar)
        &&& after == (AppState {
            hits: Hits {
                diff_area: view.area,
                diff_close: Some(view.close),
                diff_viewport: view.diff.content.height as usize,
                diff_files_viewport: view.files.content.height as usize,
                diff_files_area: view.files.content,
                diff_body_area: view.diff.content,
                diff_chips: after.hits.diff_chips,
                scrollbars: after.hits.scrollbars,
                ..self.hits
            },
            overlays: Overlays {
                diff: match self.overlays.diff {
                    Some(modal) => Some(
                        DiffModal {
                            scroll: view.diff.scroll,
                            file_scroll: view.files.scroll,
                            ..modal
                        },
                    ),
                    None => None,
                },
                ..self.overlays
            },
            ..self
        })
    }

    /// The diff modal was drawn.
    pub fn capture_diff(&mut self, view: &DiffView)
        ensures
            final(self).wf() == old(self).wf(),
            old(self).diff_captured(*view, *final(self)),
    {
        self.hits.diff_area = view.area;
        self.hits.diff_close = Some(view.close);
        self.hits.diff_viewport = view.diff.content.height as usize;
        self.hits.diff_files_viewport = view.files.content.height as usize;
        self.hits.diff_files_area = view.files.content;
        self.hits.diff_body_area = view.diff.content;
        self.hits.diff_chips = copy_of(&view.files.chip_clicks);
        match view.files.scrollbar {
            Some(bar) => self.hits.scrollbars.push(bar),
            None => {},
        }
        self.hits.scrollbars.push(view.diff.scrollbar);
        let modal = self.overlays.diff.take();
        self.overlays.diff = match modal {
            Some(modal) => {
                let mut modal = modal;
                modal.scroll = view.diff.scroll;
                modal.file_scroll = view.files.scroll;
                Some(modal)
            },
            None => None,
        };
    }

    /// The state after the help modal was drawn: it is not scrolled past its end.
    pub open spec fn help_captured(self, modal: HelpModal, after: AppState) -> bool {
        &&& after.hits.help_tabs@ == modal.tabs@
        &&& after.hits.help_links@ == modal.links@
        &&& after.hits.scrollbars@ == self.hits.scrollbars@.push(modal.scrollbar)
        &&& after == (AppState {
            hits: Hits {
                help_area: modal.area,
                help_close: Some(modal.close),
                help_tabs: after.hits.help_tabs,
                help_links: after.hits.help_links,
                scrollbars: after.hits.scrollbars,
                ..self.hits
            },
            overlays: Overlays { help_scroll: modal.scroll, ..self.overlays },
            ..self
        })
    }

    /// The help modal was drawn.
    pub fn capture_help(&mut self, modal: &HelpModal)
        ensures
            final(self).wf() == old(self).wf(),
            old(self).help_captured(*modal, *final(self)),
    {
        self.hits.help_area = modal.area;
        self.hits.help_close = Some(modal.close);
        self.hits.help_tabs = copy_of(&modal.tabs);
        self.hits.help_links = copy_links(&modal.links);
        self.hits.scrollbars.push(modal.scrollbar);
        self.overlays.help_scroll = modal.scroll;
    }

    /// The confirmation dialog was drawn.
    pub fn capture_confirm(&mut self, view: &ConfirmView)
        ensures
            final(self).wf() == old(self).wf(),
            *final(self) == (AppState {
                hits: Hits {
                    confirm_area: view.area,
                    confirm_close: Some(view.close),
                    confirm_yes: view.yes,
                    confirm_no: view.no,
                    ..old(self).hits
                },
                ..*old(self)
            }),
    {
        self.hits.confirm_area = view.area;
        self.hits.confirm_close = Some(view.close);
        self.hits.confirm_yes = view.yes;
        self.hits.confirm_no = view.no;
    }

    /// The settings modal was drawn.
    pub fn capture_settings(&mut self, view: &SettingsView)
        ensures
            final(self).wf() == old(self).wf(),
            final(self).hits.settings@ == view.clicks@,
            *final(self) == (AppState {
                hits: Hits {
                    settings_area: view.area,
                    settings_close: Some(view.close),
                    settings: final(self).hits.settings,
                    ..old(self).hits
                },
                ..*old(self)
            }),
    {
        self.hits.settings_area = view.area;
        self.hits.settings_close = Some(view.close);
        self.hits.settings = copy_of(&view.clicks);
    }

    /// The build-info modal was drawn.
    pub fn capture_build_info(&mut self, modal: &BuildInfo)
        ensures
            final(self).wf() == old(self).wf(),
            *final(self) == (AppState {
                hits: Hits {
                    build_info_close: Some(modal.close),
                    build_info_reload: Some(modal.restart),
                    ..old(self).hits
                },
                ..*old(self)
            }),
    {
        self.hits.build_info_close = Some(modal.close);
        self.hits.build_info_reload = Some(modal.restart);
    }

    /// The copy menu was drawn.
    pub fn capture_copy_menu(&mut self, menu: &Menu)
        ensures
            final(self).wf() == old(self).wf(),
            final(self).hits.copy_rows@ == menu.rows@,
            *final(self) == (AppState {
                hits: Hits {
                    copy_area: menu.area,
                    copy_close: Some(menu.close),
                    copy_rows: final(self).hits.copy_rows,
                    ..old(self).hits
                },
                ..*old(self)
            }),
    {
        self.hits.copy_area = menu.area;
        self.hits.copy_close = Some(menu.close);
        self.hits.copy_rows = copy_of(&menu.rows);
    }

    /// The base picker was drawn.
    pub fn capture_base_picker(&mut self, menu: &Menu)
        ensures
            final(self).wf() == old(self).wf(),
            final(self).hits.picker_rows@ == menu.rows@,
            *final(self) == (AppState {
                hits: Hits {
                    picker_area: menu.area,
                    picker_close: Some(menu.close),
                    picker_rows: final(self).hits.picker_rows,
                    ..old(self).hits
                },
                ..*old(self)
            }),
    {
        self.hits.picker_area = menu.area;
        self.hits.picker_close = Some(menu.close);
        self.hits.picker_rows = copy_of(&menu.rows);
    }

    /// The notice of a new build was drawn, or left out.
    pub fn capture_update_notice(&mut self, notice: &Option<UpdateNotice>)
        ensures
            final(self).wf() == old(self).wf(),
            *final(self) == (AppState {
                hits: Hits {
                    update_reload: match notice {
                        Some(notice) => Some(notice.reload),
                        None => None,
                    },
                    update_close: match notice {
                        Some(notice) => Some(notice.close),
                        None => None,
                    },
                    ..old(self).hits
                },
                ..*old(self)
            }),
    {
        match notice {
            Some(notice) => {
                self.hits.update_reload = Some(notice.reload);
                self.hits.update_close = Some(notice.close);
            },
            None => {
                self.hits.update_reload = None;
                self.hits.update_close = None;
            },
        }
    }
}

/// What an item of the list selects: its row, unless navigation skips that; the Result behind the
/// first rule, the Errors behind the second.
pub open spec fn item_selects(app: AppState, item: int) -> Option<usize> {
    let shown = app.lines().len();
    if item < shown {
        if app.lines()[item].selectable() {
            Some(item as usize)
        } else {
            None
        }
    } else if item == shown + 1 {
        Some(shown as usize)
    } else if app.any_failed() && item == shown + 3 {
        Some((shown + 1) as usize)
    } else {
        None
    }
}

/// A click on a row of the list, as it was drawn, selects the item that stands in that row.
pub proof fn law_click_selects_what_is_shown(
    before: AppState,
    view: ListView,
    offset: usize,
    after: AppState,
    item: int,
    col: u16,
)
    requires
        before.list_captured(view, offset, after),
        view.rows_area.x >= 1,
        view.rows_area.y >= 1,
        view.rows_area.addressable(),
        view.rows_area.x + view.rows_area.width < u16::MAX,
        view.rows_area.y + view.rows_area.height < u16::MAX,
        view.rows_area.x <= col < view.rows_area.x + view.rows_area.width,
        offset <= item < offset + view.rows_area.height,
    ensures
        after.selection_at(col, (view.rows_area.y + item - offset) as u16) == item_selects(
            before,
            item,
        ),
{
    let area = framed(view.rows_area);
    let row = (view.rows_area.y + item - offset) as u16;
    assert(area.x + 1 <= col < area.x + area.width - 1);
    assert(area.y + 1 <= row < area.y + area.height - 1);
    lemma_lines_same(before, after);
}

/// What is drawn at the bottom: the page where one is open, and else the list; nothing that is
/// closed is drawn.
pub proof fn law_what_is_drawn(app: AppState)
    ensures
        app.page.repo is Some ==> layers_of(app)[0] is RepoPage,
        app.page.repo is None ==> layers_of(app)[0] is Dashboard,
        app.page.repo is None && !app.overlays.help && app.overlays.confirm is None
            && !app.overlays.settings && !app.overlays.build_info ==> layers_of(app) == seq![
            FrameLayer::Dashboard,
            FrameLayer::ThrottleBanner,
            FrameLayer::UpdateNotice,
            FrameLayer::Toast,
        ],
        app.page.repo is Some && app.overlays.confirm is Some && app.overlays.diff is None
            && !app.overlays.settings && !app.overlays.build_info && app.overlays.copy_menu is None
            && app.overlays.base_picker is None && !app.overlays.help ==> layers_of(app) == seq![
            FrameLayer::RepoPage,
            FrameLayer::ThrottleBanner,
            FrameLayer::Confirm,
            FrameLayer::UpdateNotice,
            FrameLayer::Toast,
        ],
        app.page.repo is Some && app.overlays.help ==> layers_of(app)[layers_of(app).len() - 3]
            is Help,
        app.overlays.build_info && app.page.repo is None ==> layers_of(app)[layers_of(app).len()
            - 3] is BuildInfo,
{
}

} // verus!
