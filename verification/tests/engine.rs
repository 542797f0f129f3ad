use cosmic_app_list::aggregate::DisplayGroup;
use cosmic_app_list::config::{AppListConfig, ToplevelFilter};
use cosmic_app_list::display::DisplayItem;
use cosmic_app_list::engine::{Action, AppList, ConfigRequest, Event};
use cosmic_app_list::favorites::FavoritesError;

fn s(text: &str) -> String {
    text.to_string()
}

fn strings(names: &[&str]) -> Vec<String> {
    names.iter().map(|n| n.to_string()).collect()
}

fn config(favorites: &[&str], ungrouped: bool) -> AppListConfig {
    let mut config = AppListConfig::default();
    config.favorites = strings(favorites);
    config.ungrouped_windows = ungrouped;
    config
}

fn created(id: u64, app_id: &str, title: &str) -> Event {
    Event::WindowCreated { id, app_id: s(app_id), title: s(title) }
}

fn placeholder(app_id: &str) -> DisplayItem {
    DisplayItem::Placeholder { app_id: s(app_id) }
}

fn group(app_id: &str, title: &str, windows: &[u64]) -> DisplayItem {
    DisplayItem::Group(DisplayGroup::Application {
        app_id: s(app_id),
        title: s(title),
        windows: windows.to_vec(),
    })
}

fn single(id: u64, app_id: &str, title: &str) -> DisplayItem {
    DisplayItem::Group(DisplayGroup::Window { id, app_id: s(app_id), title: s(title) })
}

#[test]
fn three_firefox_windows_grouped_and_ungrouped() {
    for (ungrouped, expected) in [(false, 1), (true, 3)] {
        let mut dock = AppList::new(&config(&[], ungrouped), None, 20);
        assert!(dock.handle_event(created(1, "firefox", "Home - Firefox")));
        assert!(dock.handle_event(created(2, "firefox", "Settings - Firefox")));
        assert!(dock.handle_event(created(3, "firefox", "Gmail - Firefox")));
        assert_eq!(dock.display_items().len(), expected);
    }
}

#[test]
fn pinned_firefox_with_two_windows_ungrouped() {
    let mut dock = AppList::new(&config(&["firefox"], true), None, 20);
    dock.handle_event(created(1, "firefox", "Home - Firefox"));
    dock.handle_event(created(2, "firefox", "Gmail - Firefox"));
    let items = dock.display_items();
    assert_eq!(items.len(), 2);
    assert_eq!(
        items,
        vec![single(1, "firefox", "Home - Firefox"), single(2, "firefox", "Gmail - Firefox")]
    );
}

#[test]
fn three_favorites_and_no_windows() {
    let dock = AppList::new(&config(&["firefox", "thunderbird", "code"], false), None, 20);
    assert_eq!(
        dock.display_items(),
        vec![placeholder("firefox"), placeholder("thunderbird"), placeholder("code")]
    );
}

#[test]
fn new_dock_takes_the_configuration() {
    let mut cfg = config(&["a", "b", "a"], true);
    cfg.filter_top_levels = Some(ToplevelFilter::ConfiguredOutput);
    let dock = AppList::new(&cfg, Some(s("DP-1")), 12);
    assert_eq!(dock.favorites().to_vec(), strings(&["a", "b"]));
    assert_eq!(dock.windows().len(), 0);
    assert_eq!(dock.context().bound_output, Some(s("DP-1")));
    assert_eq!(dock.context().active_output, None);
    assert_eq!(dock.context().active_workspace, None);
}

#[test]
fn events_on_windows_change_only_what_they_name() {
    let mut dock = AppList::new(&config(&[], false), None, 20);
    assert!(dock.handle_event(created(1, "firefox", "Home")));
    assert!(dock.handle_event(Event::WindowOutputsChanged { id: 1, outputs: strings(&["DP-1"]) }));
    assert!(dock.handle_event(Event::WindowWorkspaceChanged { id: 1, workspace: Some(2) }));
    assert!(dock.handle_event(Event::WindowTitleChanged { id: 1, title: s("Mail") }));
    let w = dock.windows().get(1).unwrap();
    assert_eq!(w.app_id, "firefox");
    assert_eq!(w.title, "Mail");
    assert_eq!(w.outputs, strings(&["DP-1"]));
    assert_eq!(w.workspace, Some(2));
    // A second creation keeps placement.
    assert!(dock.handle_event(created(1, "firefox", "Home")));
    let w = dock.windows().get(1).unwrap();
    assert_eq!(w.title, "Home");
    assert_eq!(w.outputs, strings(&["DP-1"]));
    assert_eq!(w.workspace, Some(2));
}

#[test]
fn repeated_events_ask_for_no_recompute() {
    let mut dock = AppList::new(&config(&[], false), None, 20);
    assert!(dock.handle_event(created(1, "firefox", "Home")));
    assert!(!dock.handle_event(created(1, "firefox", "Home")));
    assert!(!dock.handle_event(Event::WindowTitleChanged { id: 1, title: s("Home") }));
    assert!(!dock.handle_event(Event::WindowOutputsChanged { id: 1, outputs: Vec::new() }));
    assert!(!dock.handle_event(Event::WindowWorkspaceChanged { id: 1, workspace: None }));
    assert!(!dock.handle_event(Event::WorkspaceFocusChanged { workspace: None }));
    assert!(!dock.handle_event(Event::OutputFocusChanged { output: None }));
    assert!(dock.handle_event(Event::WorkspaceFocusChanged { workspace: Some(1) }));
    assert!(dock.handle_event(Event::OutputFocusChanged { output: Some(s("DP-1")) }));
    assert!(!dock.handle_event(Event::OutputFocusChanged { output: Some(s("DP-1")) }));
}

#[test]
fn an_update_for_an_unknown_window_records_it_with_empty_attributes() {
    let mut dock = AppList::new(&config(&[], false), None, 20);
    assert!(dock.handle_event(Event::WindowTitleChanged { id: 9, title: s("late") }));
    let w = dock.windows().get(9).unwrap();
    assert_eq!(w.app_id, "");
    assert_eq!(w.title, "late");
    assert!(w.outputs.is_empty());
    assert_eq!(w.workspace, None);
    assert_eq!(dock.display_items(), vec![group("", "late", &[9])]);
}

#[test]
fn closing_windows() {
    let mut dock = AppList::new(&config(&["firefox"], false), None, 20);
    assert!(!dock.handle_event(Event::WindowClosed { id: 1 }));
    dock.handle_event(created(1, "firefox", "Home"));
    dock.handle_event(created(2, "code", "main.rs"));
    assert_eq!(
        dock.display_items(),
        vec![group("firefox", "Home", &[1]), group("code", "main.rs", &[2])]
    );
    assert!(dock.handle_event(Event::WindowClosed { id: 1 }));
    assert_eq!(dock.display_items(), vec![placeholder("firefox"), group("code", "main.rs", &[2])]);
    assert!(!dock.handle_event(Event::WindowClosed { id: 1 }));
}

#[test]
fn a_filtered_window_does_not_keep_the_placeholder_away() {
    let mut cfg = config(&["firefox"], false);
    cfg.filter_top_levels = Some(ToplevelFilter::ConfiguredOutput);
    let mut dock = AppList::new(&cfg, Some(s("DP-1")), 20);
    dock.handle_event(created(1, "firefox", "Home"));
    // Not placed yet: treated as not visible.
    assert_eq!(dock.display_items(), vec![placeholder("firefox")]);
    dock.handle_event(Event::WindowOutputsChanged { id: 1, outputs: strings(&["DP-2"]) });
    assert_eq!(dock.display_items(), vec![placeholder("firefox")]);
    dock.handle_event(Event::WindowOutputsChanged { id: 1, outputs: strings(&["DP-2", "DP-1"]) });
    assert_eq!(dock.display_items(), vec![group("firefox", "Home", &[1])]);
}

#[test]
fn workspace_focus_decides_what_is_shown() {
    let mut dock = AppList::new(&config(&[], true), None, 20);
    dock.handle_event(created(1, "a", "one"));
    dock.handle_event(created(2, "b", "two"));
    dock.handle_event(created(3, "c", "three"));
    dock.handle_event(Event::WindowWorkspaceChanged { id: 1, workspace: Some(1) });
    dock.handle_event(Event::WindowWorkspaceChanged { id: 2, workspace: Some(2) });
    assert_eq!(dock.display_items(), vec![single(3, "c", "three")]);
    dock.handle_event(Event::WorkspaceFocusChanged { workspace: Some(2) });
    assert_eq!(dock.display_items(), vec![single(2, "b", "two"), single(3, "c", "three")]);
    dock.handle_event(Event::WorkspaceFocusChanged { workspace: Some(1) });
    assert_eq!(dock.display_items(), vec![single(1, "a", "one"), single(3, "c", "three")]);
}

#[test]
fn group_title_follows_the_first_visible_window() {
    let mut dock = AppList::new(&config(&[], false), None, 20);
    dock.handle_event(created(1, "firefox", "Home"));
    dock.handle_event(created(2, "firefox", "Mail"));
    dock.handle_event(Event::WindowWorkspaceChanged { id: 1, workspace: Some(7) });
    assert_eq!(dock.display_items(), vec![group("firefox", "Mail", &[2])]);
    dock.handle_event(Event::WorkspaceFocusChanged { workspace: Some(7) });
    assert_eq!(dock.display_items(), vec![group("firefox", "Home", &[1, 2])]);
}

#[test]
fn long_titles_are_shortened_when_ungrouped() {
    let mut dock = AppList::new(&config(&[], true), None, 10);
    dock.handle_event(created(1, "firefox", "Home - Firefox"));
    assert_eq!(dock.display_items(), vec![single(1, "firefox", "Home - ...")]);
}

#[test]
fn pin_and_unpin_hand_back_requests() {
    let mut dock = AppList::new(&config(&["firefox"], false), None, 20);
    assert_eq!(
        dock.handle_action(Action::Pin { app_id: s("code") }),
        Ok(Some(ConfigRequest::AddPinned(s("code"))))
    );
    assert_eq!(dock.handle_action(Action::Pin { app_id: s("code") }), Ok(None));
    assert_eq!(dock.favorites().to_vec(), strings(&["firefox", "code"]));
    assert_eq!(
        dock.handle_action(Action::Unpin { app_id: s("firefox") }),
        Ok(Some(ConfigRequest::RemovePinned(s("firefox"))))
    );
    assert_eq!(dock.handle_action(Action::Unpin { app_id: s("firefox") }), Ok(None));
    assert_eq!(dock.favorites().to_vec(), strings(&["code"]));
}

#[test]
fn reorder_is_accepted_checked_or_passed_over() {
    let mut dock = AppList::new(&config(&["a", "b", "c"], false), None, 20);
    assert_eq!(
        dock.handle_action(Action::Reorder { favorites: strings(&["c", "a", "b"]) }),
        Ok(Some(ConfigRequest::UpdatePinned(strings(&["c", "a", "b"]))))
    );
    assert_eq!(dock.favorites().to_vec(), strings(&["c", "a", "b"]));
    assert_eq!(
        dock.handle_action(Action::Reorder { favorites: strings(&["a", "a"]) }),
        Err(FavoritesError::InvalidFavorites)
    );
    assert_eq!(dock.favorites().to_vec(), strings(&["c", "a", "b"]));

    let mut cfg = config(&["a", "b", "c"], false);
    cfg.enable_drag_source = false;
    let mut fixed = AppList::new(&cfg, None, 20);
    assert_eq!(
        fixed.handle_action(Action::Reorder { favorites: strings(&["c", "a", "b"]) }),
        Ok(None)
    );
    assert_eq!(
        fixed.handle_action(Action::Reorder { favorites: strings(&["a", "a"]) }),
        Ok(None)
    );
    assert_eq!(fixed.favorites().to_vec(), strings(&["a", "b", "c"]));
    // Pinning is not a drag: it stays possible.
    assert_eq!(
        fixed.handle_action(Action::Pin { app_id: s("d") }),
        Ok(Some(ConfigRequest::AddPinned(s("d"))))
    );
}

#[test]
fn a_changed_configuration_is_taken_over() {
    let mut dock = AppList::new(&config(&["firefox"], false), None, 20);
    dock.handle_event(created(1, "firefox", "Home"));
    dock.handle_event(created(2, "firefox", "Mail"));
    assert_eq!(dock.display_items(), vec![group("firefox", "Home", &[1, 2])]);
    dock.apply_config(&config(&["code", "firefox"], true));
    assert_eq!(
        dock.display_items(),
        vec![placeholder("code"), single(1, "firefox", "Home"), single(2, "firefox", "Mail")]
    );
    assert_eq!(dock.windows().len(), 2);
}

#[test]
fn a_change_to_a_window_keeps_every_group_in_its_place() {
    let mut dock = AppList::new(&config(&[], false), None, 20);
    dock.handle_event(created(1, "a", "one"));
    dock.handle_event(created(2, "b", "two"));
    dock.handle_event(created(3, "a", "three"));
    dock.handle_event(Event::WindowTitleChanged { id: 1, title: s("uno") });
    dock.handle_event(Event::WindowOutputsChanged { id: 2, outputs: strings(&["DP-1"]) });
    assert_eq!(dock.display_items(), vec![group("a", "uno", &[1, 3]), group("b", "two", &[2])]);
    // A new window joins its group or opens one behind all others.
    dock.handle_event(created(4, "b", "four"));
    dock.handle_event(created(5, "c", "five"));
    assert_eq!(
        dock.display_items(),
        vec![group("a", "uno", &[1, 3]), group("b", "two", &[2, 4]), group("c", "five", &[5])]
    );
}
