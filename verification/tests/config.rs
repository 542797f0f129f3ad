use cosmic_app_list::config::{AppListConfig, ToplevelFilter, APP_ID};
use cosmic_app_list::favorites::FavoritesError;

fn strings(names: &[&str]) -> Vec<String> {
    names.iter().map(|s| s.to_string()).collect()
}

#[test]
fn test_default_config_has_ungrouped_windows_disabled() {
    let config = AppListConfig::default();
    assert!(!config.ungrouped_windows, "ungrouped_windows should default to false");
}

#[test]
fn test_ungrouped_windows_can_be_enabled() {
    let mut config = AppListConfig::default();
    config.ungrouped_windows = true;
    assert!(config.ungrouped_windows);
}

#[test]
fn default_config_has_no_filter_no_favorites_and_drag_enabled() {
    let config = AppListConfig::default();
    assert_eq!(config.filter_top_levels, None);
    assert!(config.favorites.is_empty());
    assert!(config.enable_drag_source);
    assert_eq!(APP_ID, "com.system76.CosmicAppList");
}

#[test]
fn absent_filter_means_active_workspace() {
    let mut config = AppListConfig::default();
    assert_eq!(config.filter(), ToplevelFilter::ActiveWorkspace);
    assert_eq!(ToplevelFilter::default(), ToplevelFilter::ActiveWorkspace);
    config.filter_top_levels = Some(ToplevelFilter::ConfiguredOutput);
    assert_eq!(config.filter(), ToplevelFilter::ConfiguredOutput);
    config.filter_top_levels = Some(ToplevelFilter::ActiveWorkspace);
    assert_eq!(config.filter(), ToplevelFilter::ActiveWorkspace);
}

#[test]
fn add_pinned_appends_once() {
    let mut config = AppListConfig::default();
    assert!(config.add_pinned("firefox".to_string()));
    assert!(config.add_pinned("code".to_string()));
    assert!(!config.add_pinned("firefox".to_string()));
    assert_eq!(config.favorites, strings(&["firefox", "code"]));
    assert!(config.enable_drag_source);
    assert!(!config.ungrouped_windows);
}

#[test]
fn remove_pinned_takes_the_first_match_only() {
    let mut config = AppListConfig::default();
    config.favorites = strings(&["a", "b", "a", "c"]);
    assert!(config.remove_pinned("a"));
    assert_eq!(config.favorites, strings(&["b", "a", "c"]));
    assert!(!config.remove_pinned("zzz"));
    assert_eq!(config.favorites, strings(&["b", "a", "c"]));
}

#[test]
fn update_pinned_replaces_the_sequence() {
    let mut config = AppListConfig::default();
    config.favorites = strings(&["a", "b"]);
    assert_eq!(config.update_pinned(strings(&["c", "a", "b"])), Ok(()));
    assert_eq!(config.favorites, strings(&["c", "a", "b"]));
    assert_eq!(config.update_pinned(Vec::new()), Ok(()));
    assert!(config.favorites.is_empty());
}

#[test]
fn update_pinned_turns_down_duplicates() {
    let mut config = AppListConfig::default();
    config.favorites = strings(&["a", "b"]);
    assert_eq!(
        config.update_pinned(strings(&["c", "a", "c"])),
        Err(FavoritesError::InvalidFavorites)
    );
    assert_eq!(config.favorites, strings(&["a", "b"]));
}
