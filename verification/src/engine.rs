//! The dock's state and how events and user actions change it.
//!
//! The state is three tables (the open windows, the favorites, the focus) and
//! the options in force. What the dock displays is a function of that state
//! alone, so it is computed afresh whenever a change asks for it. Persisting
//! the favorites is the caller's part: an action that changed them hands back
//! the request to make of the configuration store.

use vstd::prelude::*;
use crate::aggregate::{aggregate, aggregated};
use crate::config::{filter_or_default, AppListConfig, ToplevelFilter};
use crate::context::{name_view, OutputContext, OutputContextView};
use crate::display::{build_display_list, display_list, item_views, DisplayItem, ItemView};
use crate::distinct::{lemma_dock_distinct, lemma_filter_unique_ids};
use crate::favorites::{
    lemma_pinned_no_duplicates, lemma_unpinned_no_duplicates, pinned, pinned_all, unpinned,
    FavoritesError, FavoritesList,
};
use crate::filter::{shown, visible_windows};
use crate::names::{clone_names, names};
use crate::window::{
    has_window, lemma_removed, lemma_upserted, removed, slot_of, unique_ids, upserted,
    ToplevelView, WindowTable,
};

verus! {

/// A report from the compositor.
#[derive(Debug, Clone, PartialEq, Eq)]
pub enum Event {
    /// A window opened.
    WindowCreated { id: u64, app_id: String, title: String },
    /// A window's title changed.
    WindowTitleChanged { id: u64, title: String },
    /// The set of outputs that a window is on changed.
    WindowOutputsChanged { id: u64, outputs: Vec<String> },
    /// A window moved to a workspace, or was freed from all.
    WindowWorkspaceChanged { id: u64, workspace: Option<u64> },
    /// A window closed.
    WindowClosed { id: u64 },
    /// Focus moved to an output.
    OutputFocusChanged { output: Option<String> },
    /// Focus moved to a workspace.
    WorkspaceFocusChanged { workspace: Option<u64> },
}

/// Something the user did to the favorites.
#[derive(Debug, Clone, PartialEq, Eq)]
pub enum Action {
    /// Pin an application.
    Pin { app_id: String },
    /// Unpin an application.
    Unpin { app_id: String },
    /// Put the pinned applications into a new order by dragging.
    Reorder { favorites: Vec<String> },
}

/// What to ask of the configuration store after the favorites changed.
#[derive(Debug, Clone, PartialEq, Eq)]
pub enum ConfigRequest {
    /// Add this application to the stored favorites.
    AddPinned(String),
    /// Remove this application from the stored favorites.
    RemovePinned(String),
    /// Store this sequence as the favorites.
    UpdatePinned(Vec<String>),
}

/// A request to the configuration store, with names as character sequences.
pub enum RequestView {
    AddPinned(Seq<char>),
    RemovePinned(Seq<char>),
    UpdatePinned(Seq<Seq<char>>),
}

impl View for ConfigRequest {
    type V = RequestView;

    open spec fn view(&self) -> RequestView {
        match self {
            ConfigRequest::AddPinned(id) => RequestView::AddPinned(id@),
            ConfigRequest::RemovePinned(id) => RequestView::RemovePinned(id@),
            ConfigRequest::UpdatePinned(list) => RequestView::UpdatePinned(names(list@)),
        }
    }
}

/// An optional request as an optional view.
pub open spec fn request_view(request: Option<ConfigRequest>) -> Option<RequestView> {
    match request {
        Some(r) => Some(r@),
        None => None,
    }
}

/// The whole state of the dock.
pub struct AppList {
    windows: WindowTable,
    favorites: FavoritesList,
    context: OutputContext,
    filter: ToplevelFilter,
    ungrouped: bool,
    drag_enabled: bool,
    max_title_len: usize,
}

/// The state of the dock as plain values.
pub struct AppListView {
    /// The open windows, in order of first appearance.
    pub windows: Seq<ToplevelView>,
    /// The pinned applications, in display order.
    pub favorites: Seq<Seq<char>>,
    /// The focus.
    pub context: OutputContextView,
    /// Which windows are shown.
    pub filter: ToplevelFilter,
    /// Whether each window is shown by itself.
    pub ungrouped: bool,
    /// Whether the user may reorder the favorites.
    pub drag_enabled: bool,
    /// The number of characters that a window's title may take.
    pub max_title_len: usize,
}

impl View for AppList {
    type V = AppListView;

    closed spec fn view(&self) -> AppListView {
        AppListView {
            windows: self.windows@,
            favorites: self.favorites@,
            context: self.context@,
            filter: self.filter,
            ungrouped: self.ungrouped,
            drag_enabled: self.drag_enabled,
            max_title_len: self.max_title_len,
        }
    }
}

/// What is known of a window that has reported nothing yet.
pub open spec fn unknown_window(id: u64) -> ToplevelView {
    ToplevelView {
        id,
        app_id: Seq::empty(),
        title: Seq::empty(),
        outputs: Set::empty(),
        workspace: None,
    }
}

/// What the table `s` knows of window `id`.
pub open spec fn known_window(s: Seq<ToplevelView>, id: u64) -> ToplevelView {
    if has_window(s, id) {
        s[slot_of(s, id)]
    } else {
        unknown_window(id)
    }
}

/// The state after the compositor reported `event`. A report on a window
/// changes the attributes it names and keeps the others; where the window was
/// not known, the others are empty.
pub open spec fn after_event(st: AppListView, event: Event) -> AppListView {
    match event {
        Event::WindowCreated { id, app_id, title } => AppListView {
            windows: upserted(
                st.windows,
                ToplevelView { app_id: app_id@, title: title@, ..known_window(st.windows, id) },
            ),
            ..st
        },
        Event::WindowTitleChanged { id, title } => AppListView {
            windows: upserted(
                st.windows,
                ToplevelView { title: title@, ..known_window(st.windows, id) },
            ),
            ..st
        },
        Event::WindowOutputsChanged { id, outputs } => AppListView {
            windows: upserted(
                st.windows,
                ToplevelView {
                    outputs: names(outputs@).to_set(),
                    ..known_window(st.windows, id)
                },
            ),
            ..st
        },
        Event::WindowWorkspaceChanged { id, workspace } => AppListView {
            windows: upserted(
                st.windows,
                ToplevelView { workspace, ..known_window(st.windows, id) },
            ),
            ..st
        },
        Event::WindowClosed { id } => AppListView { windows: removed(st.windows, id), ..st },
        Event::OutputFocusChanged { output } => AppListView {
            context: OutputContextView { active_output: name_view(output), ..st.context },
            ..st
        },
        Event::WorkspaceFocusChanged { workspace } => AppListView {
            context: OutputContextView { active_workspace: workspace, ..st.context },
            ..st
        },
    }
}

/// Whether the state `st` accepts `action`: a reorder is accepted only while
/// dragging is enabled, and only if it names no application twice.
pub open spec fn accepts(st: AppListView, action: Action) -> bool {
    match action {
        Action::Reorder { favorites } => st.drag_enabled && names(favorites@).no_duplicates(),
        _ => true,
    }
}

/// The state after the user did `action`. An action that is not accepted
/// leaves the state as it is.
pub open spec fn after_action(st: AppListView, action: Action) -> AppListView {
    match action {
        Action::Pin { app_id } => AppListView { favorites: pinned(st.favorites, app_id@), ..st },
        Action::Unpin { app_id } => AppListView {
            favorites: unpinned(st.favorites, app_id@),
            ..st
        },
        Action::Reorder { favorites } => if accepts(st, action) {
            AppListView { favorites: names(favorites@), ..st }
        } else {
            st
        },
    }
}

/// What `action` asks of the configuration store in state `st`: nothing where
/// the favorites stay as they are because the application was already pinned,
/// was not pinned, or the reorder was not accepted.
pub open spec fn request_of(st: AppListView, action: Action) -> Option<RequestView> {
    match action {
        Action::Pin { app_id } => if st.favorites.contains(app_id@) {
            None
        } else {
            Some(RequestView::AddPinned(app_id@))
        },
        Action::Unpin { app_id } => if st.favorites.contains(app_id@) {
            Some(RequestView::RemovePinned(app_id@))
        } else {
            None
        },
        Action::Reorder { favorites } => if accepts(st, action) {
            Some(RequestView::UpdatePinned(names(favorites@)))
        } else {
            None
        },
    }
}

/// What the dock displays in state `st`: the visible windows, classified, and
/// merged with the favorites.
pub open spec fn displayed(st: AppListView) -> Seq<ItemView> {
    display_list(
        aggregated(
            st.windows.filter(shown(st.filter, st.context)),
            st.ungrouped,
            st.max_title_len as int,
        ),
        st.favorites,
    )
}

/// The states that the dock can be in: no window identity and no favorite
/// occurs twice, and a title may take at least the three characters of the
/// ellipsis.
pub open spec fn valid(st: AppListView) -> bool {
    &&& unique_ids(st.windows)
    &&& st.favorites.no_duplicates()
    &&& st.max_title_len >= 3
}

/// Every event and every action leads from a valid state to a valid state.
pub proof fn lemma_steps_keep_valid(st: AppListView, event: Event, action: Action)
    requires
        valid(st),
    ensures
        valid(after_event(st, event)),
        valid(after_action(st, action)),
{
    match event {
        Event::WindowCreated { id, app_id, title } => {
            lemma_upserted(
                st.windows,
                ToplevelView { app_id: app_id@, title: title@, ..known_window(st.windows, id) },
            );
        },
        Event::WindowTitleChanged { id, title } => {
            lemma_upserted(
                st.windows,
                ToplevelView { title: title@, ..known_window(st.windows, id) },
            );
        },
        Event::WindowOutputsChanged { id, outputs } => {
            lemma_upserted(
                st.windows,
                ToplevelView {
                    outputs: names(outputs@).to_set(),
                    ..known_window(st.windows, id)
                },
            );
        },
        Event::WindowWorkspaceChanged { id, workspace } => {
            lemma_upserted(
                st.windows,
                ToplevelView { workspace, ..known_window(st.windows, id) },
            );
        },
        Event::WindowClosed { id } => {
            lemma_removed(st.windows, id);
        },
        _ => {},
    }
    match action {
        Action::Pin { app_id } => {
            lemma_pinned_no_duplicates(st.favorites, app_id@);
        },
        Action::Unpin { app_id } => {
            lemma_unpinned_no_duplicates(st.favorites, app_id@);
        },
        Action::Reorder { favorites } => {},
    }
}

/// In a valid state the dock displays no item twice.
pub proof fn lemma_displayed_distinct(st: AppListView)
    requires
        valid(st),
    ensures
        displayed(st).no_duplicates(),
{
    lemma_filter_unique_ids(st.windows, shown(st.filter, st.context));
    lemma_dock_distinct(
        st.windows.filter(shown(st.filter, st.context)),
        st.favorites,
        st.ungrouped,
        st.max_title_len as int,
    );
}

impl AppList {
    /// The dock is in a valid state. Every dock that this module hands out is.
    pub open spec fn wf(&self) -> bool {
        valid(self@)
    }

    /// A dock without windows and without focus, with the options and the
    /// favorites of `config`. A name that `config` lists twice is pinned once,
    /// where it first occurs.
    pub fn new(config: &AppListConfig, bound_output: Option<String>, max_title_len: usize) -> (res:
        AppList)
        requires
            max_title_len >= 3,
        ensures
            res.wf(),
            res@ == (AppListView {
                windows: Seq::empty(),
                favorites: pinned_all(names(config.favorites@)),
                context: OutputContextView {
                    active_output: None,
                    active_workspace: None,
                    bound_output: name_view(bound_output),
                },
                filter: filter_or_default(config.filter_top_levels),
                ungrouped: config.ungrouped_windows,
                drag_enabled: config.enable_drag_source,
                max_title_len,
            }),
    {
        AppList {
            windows: WindowTable::new(),
            favorites: FavoritesList::from_names(&config.favorites),
            context: OutputContext::new(bound_output),
            filter: config.filter(),
            ungrouped: config.ungrouped_windows,
            drag_enabled: config.enable_drag_source,
            max_title_len,
        }
    }

    /// Takes over the options and the favorites of a changed configuration.
    /// Windows and focus stay as they are.
    pub fn apply_config(&mut self, config: &AppListConfig)
        requires
            old(self).wf(),
        ensures
            final(self).wf(),
            final(self)@ == (AppListView {
                favorites: pinned_all(names(config.favorites@)),
                filter: filter_or_default(config.filter_top_levels),
                ungrouped: config.ungrouped_windows,
                drag_enabled: config.enable_drag_source,
                ..old(self)@
            }),
    {
        self.favorites = FavoritesList::from_names(&config.favorites);
        self.filter = config.filter();
        self.ungrouped = config.ungrouped_windows;
        self.drag_enabled = config.enable_drag_source;
    }

    /// Takes in a report from the compositor. Returns whether the state
    /// changed, that is, whether the display is to be computed again.
    pub fn handle_event(&mut self, event: Event) -> (changed: bool)
        requires
            old(self).wf(),
        ensures
            final(self).wf(),
            final(self)@ == after_event(old(self)@, event),
            changed == (final(self)@ != old(self)@),
    {
        match event {
            Event::WindowCreated { id, app_id, title } => {
                let (outputs, workspace) = match self.windows.get(id) {
                    Some(w) => (clone_names(&w.outputs), w.workspace),
                    None => (Vec::new(), None),
                };
                assert(names(outputs@).to_set() =~= known_window(self@.windows, id).outputs);
                self.windows.upsert(id, app_id, title, outputs, workspace)
            },
            Event::WindowTitleChanged { id, title } => {
                let (app_id, outputs, workspace) = match self.windows.get(id) {
                    Some(w) => (w.app_id.clone(), clone_names(&w.outputs), w.workspace),
                    None => (String::new(), Vec::new(), None),
                };
                assert(names(outputs@).to_set() =~= known_window(self@.windows, id).outputs);
                self.windows.upsert(id, app_id, title, outputs, workspace)
            },
            Event::WindowOutputsChanged { id, outputs } => {
                let (app_id, title, workspace) = match self.windows.get(id) {
                    Some(w) => (w.app_id.clone(), w.title.clone(), w.workspace),
                    None => (String::new(), String::new(), None),
                };
                self.windows.upsert(id, app_id, title, outputs, workspace)
            },
            Event::WindowWorkspaceChanged { id, workspace } => {
                let (app_id, title, outputs) = match self.windows.get(id) {
                    Some(w) => (w.app_id.clone(), w.title.clone(), clone_names(&w.outputs)),
                    None => (String::new(), String::new(), Vec::new()),
                };
                assert(names(outputs@).to_set() =~= known_window(self@.windows, id).outputs);
                self.windows.upsert(id, app_id, title, outputs, workspace)
            },
            Event::WindowClosed { id } => self.windows.remove(id),
            Event::OutputFocusChanged { output } => self.context.set_active_output(output),
            Event::WorkspaceFocusChanged { workspace } => self.context.set_active_workspace(
                workspace,
            ),
        }
    }

    /// Carries out what the user did to the favorites. A reorder is turned
    /// down with an error where it names an application twice, and is passed
    /// over in silence while dragging is disabled. Returns the request to make
    /// of the configuration store, if the favorites are to be written.
    pub fn handle_action(&mut self, action: Action) -> (res: Result<
        Option<ConfigRequest>,
        FavoritesError,
    >)
        requires
            old(self).wf(),
        ensures
            final(self).wf(),
            final(self)@ == after_action(old(self)@, action),
            match res {
                Ok(request) => request_view(request) == request_of(old(self)@, action),
                Err(e) => e == FavoritesError::InvalidFavorites,
            },
            res is Err <==> (action matches Action::Reorder { favorites } && old(self)@.drag_enabled
                && !names(favorites@).no_duplicates()),
    {
        match action {
            Action::Pin { app_id } => {
                let id = app_id.clone();
                if self.favorites.pin(app_id) {
                    Ok(Some(ConfigRequest::AddPinned(id)))
                } else {
                    Ok(None)
                }
            },
            Action::Unpin { app_id } => {
                if self.favorites.unpin(app_id.as_str()) {
                    Ok(Some(ConfigRequest::RemovePinned(app_id)))
                } else {
                    Ok(None)
                }
            },
            Action::Reorder { favorites } => {
                if !self.drag_enabled {
                    return Ok(None);
                }
                let list = clone_names(&favorites);
                match self.favorites.reorder(favorites) {
                    Ok(()) => Ok(Some(ConfigRequest::UpdatePinned(list))),
                    Err(e) => Err(e),
                }
            },
        }
    }

    /// The items that the dock displays, in order. No item is listed twice.
    pub fn display_items(&self) -> (res: Vec<DisplayItem>)
        requires
            self.wf(),
        ensures
            item_views(res@) == displayed(self@),
            item_views(res@).no_duplicates(),
    {
        proof {
            lemma_displayed_distinct(self@);
        }
        let visible = visible_windows(self.filter, &self.context, &self.windows);
        let groups = aggregate(&visible, self.ungrouped, self.max_title_len);
        build_display_list(&groups, &self.favorites)
    }

    /// The open windows.
    pub fn windows(&self) -> (res: &WindowTable)
        ensures
            res@ == self@.windows,
            self.wf() ==> res.wf(),
    {
        &self.windows
    }

    /// The pinned applications.
    pub fn favorites(&self) -> (res: &FavoritesList)
        ensures
            res@ == self@.favorites,
            self.wf() ==> res.wf(),
    {
        &self.favorites
    }

    /// The focus that filtering goes by.
    pub fn context(&self) -> (res: &OutputContext)
        ensures
            res@ == self@.context,
    {
        &self.context
    }
}

} // verus!
