use cosmic_app_list::window::{same_workspace, Toplevel, WindowTable};

fn s(text: &str) -> String {
    text.to_string()
}

fn outs(names: &[&str]) -> Vec<String> {
    names.iter().map(|n| n.to_string()).collect()
}

fn ids(table: &WindowTable) -> Vec<u64> {
    table.all().iter().map(|w| w.id).collect()
}

#[test]
fn new_table_is_empty() {
    let table = WindowTable::new();
    assert_eq!(table.len(), 0);
    assert!(table.all().is_empty());
    assert_eq!(table.find(1), None);
    assert!(table.get(1).is_none());
}

#[test]
fn upsert_inserts_in_order_of_appearance() {
    let mut table = WindowTable::new();
    assert!(table.upsert(7, s("firefox"), s("Home"), outs(&["DP-1"]), Some(1)));
    assert!(table.upsert(3, s("code"), s("main.rs"), outs(&[]), None));
    assert!(table.upsert(9, s(""), s("?"), outs(&[]), None));
    assert_eq!(ids(&table), vec![7, 3, 9]);
    assert_eq!(table.len(), 3);
    assert_eq!(table.find(3), Some(1));
    let w = table.get(7).unwrap();
    assert_eq!(w.app_id, "firefox");
    assert_eq!(w.title, "Home");
    assert_eq!(w.outputs, outs(&["DP-1"]));
    assert_eq!(w.workspace, Some(1));
    assert_eq!(table.at(2).id, 9);
}

#[test]
fn upsert_updates_in_place() {
    let mut table = WindowTable::new();
    table.upsert(1, s("a"), s("one"), outs(&[]), None);
    table.upsert(2, s("b"), s("two"), outs(&[]), None);
    table.upsert(3, s("c"), s("three"), outs(&[]), None);
    assert!(table.upsert(2, s("b"), s("TWO"), outs(&["DP-1"]), Some(4)));
    assert_eq!(ids(&table), vec![1, 2, 3]);
    let w = table.get(2).unwrap();
    assert_eq!(w.title, "TWO");
    assert_eq!(w.outputs, outs(&["DP-1"]));
    assert_eq!(w.workspace, Some(4));
}

#[test]
fn upsert_reports_no_change_for_the_same_attributes() {
    let mut table = WindowTable::new();
    assert!(table.upsert(1, s("a"), s("one"), outs(&["DP-1", "DP-2"]), Some(1)));
    assert!(!table.upsert(1, s("a"), s("one"), outs(&["DP-1", "DP-2"]), Some(1)));
    // The outputs are a set: their order and repetitions are not observable.
    assert!(!table.upsert(1, s("a"), s("one"), outs(&["DP-2", "DP-1", "DP-2"]), Some(1)));
    assert!(table.upsert(1, s("a"), s("one"), outs(&["DP-2"]), Some(1)));
    assert!(table.upsert(1, s("a"), s("one"), outs(&["DP-2"]), Some(2)));
    assert!(table.upsert(1, s("a"), s("one"), outs(&["DP-2"]), None));
    assert!(table.upsert(1, s("a"), s("uno"), outs(&["DP-2"]), None));
    assert!(table.upsert(1, s("A"), s("uno"), outs(&["DP-2"]), None));
    assert!(!table.upsert(1, s("A"), s("uno"), outs(&["DP-2"]), None));
    assert_eq!(table.len(), 1);
}

#[test]
fn remove_deletes_and_keeps_the_order_of_the_rest() {
    let mut table = WindowTable::new();
    table.upsert(1, s("a"), s("one"), outs(&[]), None);
    table.upsert(2, s("b"), s("two"), outs(&[]), None);
    table.upsert(3, s("c"), s("three"), outs(&[]), None);
    assert!(table.remove(2));
    assert_eq!(ids(&table), vec![1, 3]);
    assert!(table.get(2).is_none());
    assert!(table.remove(1));
    assert!(table.remove(3));
    assert_eq!(table.len(), 0);
}

#[test]
fn removing_an_unknown_window_is_a_no_op() {
    let mut table = WindowTable::new();
    assert!(!table.remove(5));
    table.upsert(1, s("a"), s("one"), outs(&[]), None);
    assert!(!table.remove(5));
    assert_eq!(ids(&table), vec![1]);
}

#[test]
fn a_closed_window_that_reopens_goes_to_the_end() {
    let mut table = WindowTable::new();
    table.upsert(1, s("a"), s("one"), outs(&[]), None);
    table.upsert(2, s("b"), s("two"), outs(&[]), None);
    table.remove(1);
    table.upsert(1, s("a"), s("one"), outs(&[]), None);
    assert_eq!(ids(&table), vec![2, 1]);
}

#[test]
fn all_can_be_taken_again_and_again() {
    let mut table = WindowTable::new();
    table.upsert(1, s("a"), s("one"), outs(&["DP-1"]), None);
    table.upsert(2, s("b"), s("two"), outs(&[]), Some(3));
    let first = table.all();
    let second = table.all();
    assert_eq!(first.len(), 2);
    assert_eq!(second.len(), 2);
    assert!(first[0].same_as(&second[0]));
    assert!(first[1].same_as(&second[1]));
    assert!(!first[0].same_as(&second[1]));
    assert_eq!(first[1].title, "two");
}

#[test]
fn snapshots_and_comparison_of_windows() {
    let w = Toplevel::new(4, s("app"), s("title"), outs(&["A", "B"]), Some(2));
    let copy = w.snapshot();
    assert_eq!(copy.id, 4);
    assert_eq!(copy.app_id, "app");
    assert_eq!(copy.title, "title");
    assert_eq!(copy.outputs, outs(&["A", "B"]));
    assert_eq!(copy.workspace, Some(2));
    assert!(w.same_as(&copy));
    assert!(w.same_as(&Toplevel::new(4, s("app"), s("title"), outs(&["B", "A"]), Some(2))));
    assert!(!w.same_as(&Toplevel::new(5, s("app"), s("title"), outs(&["A", "B"]), Some(2))));
    assert!(!w.same_as(&Toplevel::new(4, s("app"), s("title"), outs(&["A"]), Some(2))));
    assert!(!w.same_as(&Toplevel::new(4, s("app"), s("title"), outs(&["A", "B"]), None)));
    assert!(same_workspace(None, None));
    assert!(same_workspace(Some(1), Some(1)));
    assert!(!same_workspace(Some(1), Some(2)));
    assert!(!same_workspace(Some(1), None));
}
