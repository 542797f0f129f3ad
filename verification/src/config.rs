//! The persisted settings of the dock, as a snapshot in memory.
//!
//! The functions here change the snapshot only. Writing it back to the
//! configuration store is the caller's part: each function says in its result
//! whether there is something to write.

use vstd::prelude::*;
use crate::favorites::{pinned, push_unique, remove_first, unpinned, FavoritesError};
use crate::names::{all_distinct, names};

verus! {

/// The name under which the dock's settings are stored.
pub const APP_ID: &'static str = "com.system76.CosmicAppList";

/// Which windows the dock shows.
#[derive(Debug, Clone, Copy, PartialEq, Eq, Structural)]
pub enum ToplevelFilter {
    /// The windows of the workspace that has focus, and those tied to none.
    ActiveWorkspace,
    /// The windows on the output that the dock is bound to.
    ConfiguredOutput,
}

impl Default for ToplevelFilter {
    fn default() -> (res: ToplevelFilter)
        ensures
            res == ToplevelFilter::ActiveWorkspace,
    {
        ToplevelFilter::ActiveWorkspace
    }
}

/// The filter that applies when the settings name `configured`: an absent
/// setting means the active workspace.
pub open spec fn filter_or_default(configured: Option<ToplevelFilter>) -> ToplevelFilter {
    match configured {
        Some(f) => f,
        None => ToplevelFilter::ActiveWorkspace,
    }
}

/// The dock's settings.
#[derive(Debug, Clone, PartialEq, Eq)]
pub struct AppListConfig {
    /// Which windows are shown; absent means the active workspace.
    pub filter_top_levels: Option<ToplevelFilter>,
    /// The pinned applications, in display order.
    pub favorites: Vec<String>,
    /// Whether the user may reorder the pinned applications by dragging.
    pub enable_drag_source: bool,
    /// When true, show each window individually instead of grouping by application.
    pub ungrouped_windows: bool,
}

impl Default for AppListConfig {
    fn default() -> (res: AppListConfig)
        ensures
            res.filter_top_levels is None,
            res.favorites@.len() == 0,
            res.enable_drag_source,
            !res.ungrouped_windows,
    {
        AppListConfig {
            filter_top_levels: None,
            favorites: Vec::new(),
            enable_drag_source: true,
            ungrouped_windows: false,
        }
    }
}

impl AppListConfig {
    /// Whether the two snapshots agree in everything but the favorites.
    pub open spec fn same_options(&self, other: &AppListConfig) -> bool {
        &&& self.filter_top_levels == other.filter_top_levels
        &&& self.enable_drag_source == other.enable_drag_source
        &&& self.ungrouped_windows == other.ungrouped_windows
    }

    /// The filter in force.
    pub fn filter(&self) -> (res: ToplevelFilter)
        ensures
            res == filter_or_default(self.filter_top_levels),
    {
        match self.filter_top_levels {
            Some(f) => f,
            None => ToplevelFilter::ActiveWorkspace,
        }
    }

    /// Pins `id` at the end of the favorites unless it is pinned already.
    /// Returns whether the snapshot changed and is to be written back.
    pub fn add_pinned(&mut self, id: String) -> (changed: bool)
        ensures
            names(final(self).favorites@) == pinned(names(old(self).favorites@), id@),
            final(self).same_options(old(self)),
            changed == !names(old(self).favorites@).contains(id@),
    {
        push_unique(&mut self.favorites, id)
    }

    /// Unpins the first favorite that spells `id`, if there is one.
    /// Returns whether the snapshot changed and is to be written back.
    pub fn remove_pinned(&mut self, id: &str) -> (changed: bool)
        ensures
            names(final(self).favorites@) == unpinned(names(old(self).favorites@), id@),
            final(self).same_options(old(self)),
            changed == names(old(self).favorites@).contains(id@),
    {
        remove_first(&mut self.favorites, id)
    }

    /// Replaces the favorites by `favorites`, which must name no application
    /// twice. On `Ok` the snapshot is to be written back; a sequence with a
    /// duplicate is turned down and the snapshot stays as it was.
    pub fn update_pinned(&mut self, favorites: Vec<String>) -> (res: Result<(), FavoritesError>)
        ensures
            final(self).same_options(old(self)),
            names(favorites@).no_duplicates() ==> res is Ok && final(self).favorites == favorites,
            !names(favorites@).no_duplicates() ==> res == Err::<(), FavoritesError>(
                FavoritesError::InvalidFavorites,
            ) && final(self).favorites == old(self).favorites,
    {
        if all_distinct(&favorites) {
            self.favorites = favorites;
            Ok(())
        } else {
            Err(FavoritesError::InvalidFavorites)
        }
    }
}

} // verus!
