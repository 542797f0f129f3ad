use cosmic_app_list::aggregate::{aggregate, DisplayGroup};
use cosmic_app_list::display::{build_display_list, claimed_items, unclaimed_items, DisplayItem};
use cosmic_app_list::favorites::FavoritesList;
use cosmic_app_list::window::Toplevel;

fn windows_of(windows: &[(&str, &str)]) -> Vec<Toplevel> {
    let mut out = Vec::new();
    let mut id = 1;
    for (app_id, title) in windows {
        out.push(Toplevel::new(id, app_id.to_string(), title.to_string(), Vec::new(), None));
        id += 1;
    }
    out
}

fn favorites(names: &[&str]) -> FavoritesList {
    FavoritesList::from_names(&names.iter().map(|s| s.to_string()).collect())
}

fn placeholder(app_id: &str) -> DisplayItem {
    DisplayItem::Placeholder { app_id: app_id.to_string() }
}

fn group(app_id: &str, title: &str, windows: &[u64]) -> DisplayItem {
    DisplayItem::Group(DisplayGroup::Application {
        app_id: app_id.to_string(),
        title: title.to_string(),
        windows: windows.to_vec(),
    })
}

fn single(id: u64, app_id: &str, title: &str) -> DisplayItem {
    DisplayItem::Group(DisplayGroup::Window {
        id,
        app_id: app_id.to_string(),
        title: title.to_string(),
    })
}

fn is_placeholder(item: &DisplayItem) -> bool {
    matches!(item, DisplayItem::Placeholder { .. })
}

/// Test that pinned apps without windows are still visible
#[test]
fn test_pinned_app_without_windows_visible() {
    let pinned_apps = vec!["firefox", "thunderbird", "code"];
    let open_windows: Vec<(&str, &str)> = vec![]; // No windows open

    // In ungrouped mode, pinned apps with no windows should still show their icon
    let groups = aggregate(&windows_of(&open_windows), true, 20);
    let items = build_display_list(&groups, &favorites(&pinned_apps));
    let visible_pinned: Vec<_> = items.iter().filter(|item| is_placeholder(item)).collect();

    assert_eq!(
        visible_pinned.len(),
        3,
        "All pinned apps should be visible when no windows are open"
    );
}

/// Test that pinned apps with windows are replaced by individual windows in ungrouped mode
#[test]
fn test_pinned_replaced_by_windows_in_ungrouped_mode() {
    let pinned_apps = vec!["firefox"];
    let open_windows = vec![
        ("firefox", "Home - Firefox"),
        ("firefox", "Gmail - Firefox"),
    ];

    let ungrouped = true;

    let groups = aggregate(&windows_of(&open_windows), ungrouped, 20);
    let visible_count = build_display_list(&groups, &favorites(&pinned_apps)).len();

    assert_eq!(
        visible_count, 2,
        "Should show 2 individual Firefox windows, not 1 grouped icon"
    );
}

#[test]
fn pinned_apps_without_windows_show_placeholders_in_order() {
    let favs = favorites(&["firefox", "thunderbird", "code"]);
    let expected = vec![placeholder("firefox"), placeholder("thunderbird"), placeholder("code")];
    assert_eq!(build_display_list(&aggregate(&Vec::new(), true, 20), &favs), expected);
    assert_eq!(build_display_list(&aggregate(&Vec::new(), false, 20), &favs), expected);
}

#[test]
fn ungrouped_windows_replace_the_pinned_icon() {
    let windows = windows_of(&[("firefox", "Home - Firefox"), ("firefox", "Gmail - Firefox")]);
    let items = build_display_list(&aggregate(&windows, true, 20), &favorites(&["firefox"]));
    assert_eq!(
        items,
        vec![single(1, "firefox", "Home - Firefox"), single(2, "firefox", "Gmail - Firefox")]
    );
    assert_eq!(items.iter().filter(|item| is_placeholder(item)).count(), 0);
}

#[test]
fn grouped_windows_replace_the_pinned_icon_by_one_group() {
    let windows = windows_of(&[("firefox", "Home - Firefox"), ("firefox", "Gmail - Firefox")]);
    let items = build_display_list(&aggregate(&windows, false, 20), &favorites(&["firefox"]));
    assert_eq!(items, vec![group("firefox", "Home - Firefox", &[1, 2])]);
}

#[test]
fn pinned_come_first_then_the_rest_in_appearance_order() {
    let windows = windows_of(&[
        ("term", "bash"),
        ("code", "main.rs"),
        ("firefox", "Home"),
        ("term", "zsh"),
        ("mail", "Inbox"),
    ]);
    let favs = favorites(&["firefox", "thunderbird", "code"]);
    assert_eq!(
        build_display_list(&aggregate(&windows, false, 20), &favs),
        vec![
            group("firefox", "Home", &[3]),
            placeholder("thunderbird"),
            group("code", "main.rs", &[2]),
            group("term", "bash", &[1, 4]),
            group("mail", "Inbox", &[5]),
        ]
    );
    assert_eq!(
        build_display_list(&aggregate(&windows, true, 20), &favs),
        vec![
            single(3, "firefox", "Home"),
            placeholder("thunderbird"),
            single(2, "code", "main.rs"),
            single(1, "term", "bash"),
            single(4, "term", "zsh"),
            single(5, "mail", "Inbox"),
        ]
    );
}

#[test]
fn no_favorites_and_no_windows_give_an_empty_dock() {
    assert!(build_display_list(&Vec::new(), &FavoritesList::new()).is_empty());
}

#[test]
fn unknown_windows_never_stand_for_a_pinned_application() {
    let windows = windows_of(&[("", "one"), ("", "two")]);
    let favs = favorites(&["", "firefox"]);
    assert_eq!(
        build_display_list(&aggregate(&windows, false, 20), &favs),
        vec![
            placeholder(""),
            placeholder("firefox"),
            group("", "one", &[1]),
            group("", "two", &[2]),
        ]
    );
    assert_eq!(
        build_display_list(&aggregate(&windows, true, 20), &favs),
        vec![placeholder(""), placeholder("firefox"), single(1, "", "one"), single(2, "", "two")]
    );
}

#[test]
fn no_item_is_listed_twice() {
    let windows = windows_of(&[("a", "1"), ("b", "2"), ("a", "3"), ("c", "4"), ("", "5")]);
    let favs = favorites(&["b", "a", "z"]);
    for ungrouped in [false, true] {
        let items = build_display_list(&aggregate(&windows, ungrouped, 20), &favs);
        for i in 0..items.len() {
            for j in 0..i {
                assert_ne!(items[i], items[j]);
            }
        }
    }
}

#[test]
fn claimed_and_unclaimed_groups() {
    let windows = windows_of(&[("a", "1"), ("b", "2"), ("a", "3")]);
    let groups = aggregate(&windows, true, 20);
    assert_eq!(
        claimed_items(&groups, &"a".to_string()),
        vec![single(1, "a", "1"), single(3, "a", "3")]
    );
    assert!(claimed_items(&groups, &"c".to_string()).is_empty());
    assert!(claimed_items(&groups, &"".to_string()).is_empty());
    assert_eq!(unclaimed_items(&groups, &favorites(&["a"])), vec![single(2, "b", "2")]);
    assert_eq!(unclaimed_items(&groups, &favorites(&["a", "b"])), Vec::<DisplayItem>::new());
}
