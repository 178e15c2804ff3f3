use sniprs::fuzzy_filter;
use sniprs::selection::{MoveDirection, SelectionList};

fn strings(items: &[&str]) -> Vec<String> {
    items.iter().map(|s| s.to_string()).collect()
}

#[test]
fn empty_query_keeps_first_items_in_order() {
    let all = strings(&["c", "a", "b", "a"]);
    assert_eq!(fuzzy_filter(&all, "", 3), strings(&["c", "a", "b"]));
    assert_eq!(fuzzy_filter(&all, "", 10), all);
    assert_eq!(fuzzy_filter(&all, "", 0), Vec::<String>::new());
}

#[test]
fn blank_query_counts_as_empty() {
    let all = strings(&["git push", "ls", "cargo build"]);
    assert_eq!(fuzzy_filter(&all, "  \t", 2), strings(&["git push", "ls"]));
}

#[test]
fn ordered_subsequence_is_found() {
    let all = strings(&["ls -la", "git status", "cargo test", "pwd"]);
    let r = fuzzy_filter(&all, "gst", 10);
    assert!(r.contains(&"git status".to_string()));
    assert!(r.contains(&"cargo test".to_string()));
    assert!(!r.contains(&"ls -la".to_string()));
    assert!(!r.contains(&"pwd".to_string()));
}

#[test]
fn non_matching_items_are_dropped() {
    let all = strings(&["ls -la", "pwd"]);
    assert!(fuzzy_filter(&all, "xyz", 10).is_empty());
}

#[test]
fn results_are_cut_to_limit() {
    let all = strings(&["git a", "git b", "git c"]);
    assert_eq!(fuzzy_filter(&all, "git", 2).len(), 2);
}

#[test]
fn equal_scores_keep_history_order() {
    let all = strings(&["git b", "git a", "git c"]);
    assert_eq!(fuzzy_filter(&all, "git", 10), all);
}

#[test]
fn better_match_ranks_first() {
    let all = strings(&["g_x_i_x_t", "git"]);
    assert_eq!(fuzzy_filter(&all, "git", 10), strings(&["git", "g_x_i_x_t"]));
}

#[test]
fn filter_is_deterministic_and_leaves_input() {
    let all = strings(&["git status", "git stash", "ls", "gist", "go test"]);
    let before = all.clone();
    let a = fuzzy_filter(&all, "gs", 3);
    let b = fuzzy_filter(&all, "gs", 3);
    assert_eq!(a, b);
    assert_eq!(all, before);
}

#[test]
fn move_up_at_top_stays() {
    let mut list = SelectionList::new();
    list.rebuild(strings(&["a", "b"]));
    list.move_cursor(MoveDirection::Up);
    assert_eq!(list.cursor(), 0);
}

#[test]
fn move_down_at_bottom_stays() {
    let mut list = SelectionList::new();
    list.rebuild(strings(&["a", "b", "c"]));
    list.move_cursor(MoveDirection::Down);
    list.move_cursor(MoveDirection::Down);
    assert_eq!(list.cursor(), 2);
    list.move_cursor(MoveDirection::Down);
    assert_eq!(list.cursor(), 2);
    assert_eq!(list.selected(), Ok("c".to_string()));
}

#[test]
fn move_on_empty_list_is_no_op() {
    let mut list = SelectionList::new();
    list.move_cursor(MoveDirection::Down);
    assert_eq!(list.cursor(), 0);
    assert!(list.is_empty());
    assert_eq!(list.selected(), Err(sniprs::PickerError::EmptySelection));
}

#[test]
fn rebuild_resets_cursor() {
    let mut list = SelectionList::new();
    list.rebuild(strings(&["a", "b", "c"]));
    list.move_cursor(MoveDirection::Down);
    list.move_cursor(MoveDirection::Down);
    list.rebuild(strings(&["x", "y", "z"]));
    assert_eq!(list.cursor(), 0);
    assert_eq!(list.items(), &strings(&["x", "y", "z"]));
}
