use sniprs::{Action, HistoryView, Key, PickerError, ServiceReply, ViewKind};

fn strings(items: &[&str]) -> Vec<String> {
    items.iter().map(|s| s.to_string()).collect()
}

fn sample_history() -> Vec<String> {
    strings(&["ls -la", "git status", "ls -la"])
}

fn loaded(history: Vec<String>) -> HistoryView {
    let mut view = HistoryView::new();
    view.load_history(history);
    view
}

#[test]
fn scenario_empty_query_shows_whole_history() {
    let view = loaded(sample_history());
    assert_eq!(view.visible(), &sample_history());
    assert_eq!(view.selected_index(), 0);
    assert_eq!(view.kind(), ViewKind::List);
}

#[test]
fn scenario_typing_filters_and_backspace_restores() {
    let mut view = loaded(sample_history());
    assert!(matches!(view.handle_key(Key::Char('/')), Action::Continue));
    assert_eq!(view.kind(), ViewKind::Search);
    view.handle_key(Key::Char('g'));
    assert_eq!(view.visible(), &strings(&["git status"]));
    assert_eq!(view.selected_index(), 0);
    assert_eq!(view.query(), "g");
    view.handle_key(Key::Backspace);
    assert_eq!(view.visible(), &sample_history());
    assert_eq!(view.selected_index(), 0);
    assert_eq!(view.query(), "");
}

#[test]
fn scenario_down_twice_clamps_at_last_line() {
    let mut view = loaded(sample_history());
    view.handle_key(Key::Down);
    view.handle_key(Key::Down);
    assert_eq!(view.selected_index(), 2);
    view.handle_key(Key::Char('j'));
    assert_eq!(view.selected_index(), 2);
    view.handle_key(Key::Up);
    assert_eq!(view.selected_index(), 1);
    view.handle_key(Key::Char('k'));
    view.handle_key(Key::Char('k'));
    assert_eq!(view.selected_index(), 0);
}

#[test]
fn scenario_failed_lookup_still_reaches_saved_view() {
    let mut view = loaded(sample_history());
    view.handle_key(Key::Down);
    let action = view.handle_key(Key::Enter);
    match action {
        Action::Enrich(command) => assert_eq!(command, "git status"),
        _ => panic!("enter on a visible line must ask for enrichment"),
    }
    assert_eq!(view.kind(), ViewKind::Loading);
    view.complete_enrichment(ServiceReply::Unreachable);
    assert_eq!(view.kind(), ViewKind::Done);
    let result = view.saved_result().unwrap();
    assert_eq!(result.command, "git status");
    assert_eq!(result.description, None);
    assert!(matches!(view.handle_key(Key::Char('q')), Action::Quit));
}

#[test]
fn failed_status_gives_no_description() {
    let mut view = loaded(sample_history());
    view.handle_key(Key::Enter);
    view.complete_enrichment(ServiceReply::Answered {
        status: 503,
        first_choice: Some("text".to_string()),
    });
    assert_eq!(view.kind(), ViewKind::Done);
    assert_eq!(view.saved_result().unwrap().description, None);
}

#[test]
fn successful_reply_gives_description() {
    let mut view = loaded(sample_history());
    view.handle_key(Key::Enter);
    view.complete_enrichment(ServiceReply::Answered {
        status: 200,
        first_choice: Some("lists files".to_string()),
    });
    let result = view.saved_result().unwrap();
    assert_eq!(result.command, "ls -la");
    assert_eq!(result.description, Some("lists files".to_string()));
}

#[test]
fn enter_on_empty_list_does_not_load() {
    let mut view = loaded(sample_history());
    view.handle_key(Key::Char('/'));
    view.handle_key(Key::Char('z'));
    assert!(view.is_empty());
    assert_eq!(view.get_selected(), Err(PickerError::EmptySelection));
    view.handle_key(Key::Enter);
    assert_eq!(view.kind(), ViewKind::List);
    assert!(matches!(view.handle_key(Key::Enter), Action::Continue));
    assert_eq!(view.kind(), ViewKind::List);
    assert!(view.saved_result().is_none());
}

#[test]
fn empty_history_has_no_selection() {
    let mut view = loaded(Vec::new());
    assert!(view.is_empty());
    let mut other = HistoryView::new();
    assert_eq!(other.save_command(), Err(PickerError::EmptySelection));
    assert_eq!(other.kind(), ViewKind::List);
    view.handle_key(Key::Down);
    assert_eq!(view.selected_index(), 0);
}

#[test]
fn escape_clears_query_and_restores_list() {
    let mut view = loaded(sample_history());
    view.handle_key(Key::Char('/'));
    view.handle_key(Key::Char('g'));
    view.handle_key(Key::Esc);
    assert_eq!(view.kind(), ViewKind::List);
    assert_eq!(view.query(), "");
    assert_eq!(view.visible(), &sample_history());
}

#[test]
fn enter_in_search_keeps_filtered_lines() {
    let mut view = loaded(sample_history());
    view.handle_key(Key::Char('/'));
    view.handle_key(Key::Char('g'));
    view.handle_key(Key::Enter);
    assert_eq!(view.kind(), ViewKind::List);
    assert_eq!(view.query(), "g");
    assert_eq!(view.visible(), &strings(&["git status"]));
    assert_eq!(view.get_selected(), Ok("git status".to_string()));
}

#[test]
fn search_keys_are_typed_not_commands() {
    let mut view = loaded(sample_history());
    view.handle_key(Key::Char('/'));
    assert!(matches!(view.handle_key(Key::Char('q')), Action::Continue));
    view.handle_key(Key::Char('j'));
    assert_eq!(view.query(), "qj");
    assert_eq!(view.kind(), ViewKind::Search);
}

#[test]
fn slash_resets_cursor() {
    let mut view = loaded(sample_history());
    view.handle_key(Key::Down);
    view.handle_key(Key::Down);
    view.handle_key(Key::Char('/'));
    assert_eq!(view.selected_index(), 0);
    assert_eq!(view.query(), "");
}

#[test]
fn backspace_on_empty_query_is_harmless() {
    let mut view = loaded(sample_history());
    view.handle_key(Key::Char('/'));
    view.handle_key(Key::Backspace);
    assert_eq!(view.query(), "");
    assert_eq!(view.visible(), &sample_history());
}

#[test]
fn loading_view_quits_on_q_only() {
    let mut view = loaded(sample_history());
    view.handle_key(Key::Enter);
    assert!(matches!(view.handle_key(Key::Char('x')), Action::Continue));
    assert_eq!(view.kind(), ViewKind::Loading);
    assert!(matches!(view.handle_key(Key::Char('q')), Action::Quit));
}

#[test]
fn list_view_quits_on_q() {
    let mut view = loaded(sample_history());
    assert!(matches!(view.handle_key(Key::Char('q')), Action::Quit));
    assert!(matches!(view.handle_key(Key::Other), Action::Continue));
}

#[test]
fn history_is_cut_to_visible_limit() {
    let history: Vec<String> = (0..25).map(|i| format!("cmd {}", i)).collect();
    let view = loaded(history.clone());
    assert_eq!(view.visible().len(), 10);
    assert_eq!(view.visible()[..], history[..10]);
}
