use sniprs::enrich::{description_from, prompt_for, GPTRequest, Role, ServiceReply, MAX_TOKENS};
use sniprs::history::{history_file_name, history_lines, recent_first};
use sniprs::store::{create_file_name, plan_save, record_contents};
use sniprs::text::{first_token_of, hex_of, is_blank_str};
use sniprs::{DrawOp, HistoryView, Key, PickerError, Renderer, SessionState};
use std::hash::{Hash, Hasher};

fn strings(items: &[&str]) -> Vec<String> {
    items.iter().map(|s| s.to_string()).collect()
}

fn std_hash(s: &str) -> u64 {
    let mut hasher = std::collections::hash_map::DefaultHasher::new();
    s.hash(&mut hasher);
    hasher.finish()
}

struct Guard<'a> {
    renderer: &'a mut Renderer,
    restored: &'a mut u32,
}

impl Drop for Guard<'_> {
    fn drop(&mut self) {
        if self.renderer.leave_screen() {
            *self.restored += 1;
        }
    }
}

fn session(renderer: &mut Renderer, restored: &mut u32, fail_at: u32) -> Result<(), String> {
    assert!(renderer.enter_screen());
    let guard = Guard { renderer, restored };
    for step in 0..5 {
        if step == fail_at {
            return Err("read failed".to_string());
        }
    }
    if guard.renderer.leave_screen() {
        *guard.restored += 1;
    }
    Ok(())
}

#[test]
fn release_runs_once_even_after_a_failed_read() {
    let mut renderer = Renderer::new();
    let mut restored = 0;
    assert!(session(&mut renderer, &mut restored, 2).is_err());
    assert_eq!(restored, 1);

    let mut renderer = Renderer::new();
    let mut restored = 0;
    assert!(session(&mut renderer, &mut restored, 99).is_ok());
    assert_eq!(restored, 1);
}

#[test]
fn enter_screen_twice_asks_once() {
    let mut r = Renderer::new();
    assert!(!r.leave_screen());
    assert!(r.enter_screen());
    assert!(!r.enter_screen());
    assert!(r.leave_screen());
    assert!(!r.leave_screen());
    assert!(!r.enter_screen());
}

#[test]
fn flush_hands_over_the_whole_frame() {
    let mut r = Renderer::new();
    r.clear_screen();
    r.write_line("hello".to_string(), 3);
    r.write_status("/q".to_string());
    let frame = r.flush();
    assert_eq!(frame.len(), 3);
    assert!(matches!(frame[0], DrawOp::Clear));
    assert!(matches!(&frame[1], DrawOp::Line { row: 3, text } if text == "hello"));
    assert!(matches!(&frame[2], DrawOp::Status { text } if text == "/q"));
    assert!(r.flush().is_empty());
}

#[test]
fn list_frame_marks_highlighted_line() {
    let mut view = HistoryView::new();
    view.load_history(strings(&["ls", "pwd"]));
    view.handle_key(Key::Down);
    let mut r = Renderer::new();
    view.render(&mut r);
    let frame = r.flush();
    assert_eq!(frame.len(), 4);
    assert!(matches!(frame[0], DrawOp::Clear));
    assert!(matches!(&frame[1], DrawOp::Line { row: 1, text } if text == "  ls"));
    assert!(matches!(&frame[2], DrawOp::Line { row: 2, text } if text == "> pwd"));
    assert!(matches!(&frame[3], DrawOp::Line { row: 0, text } if text == "List"));
}

#[test]
fn search_frame_shows_query() {
    let mut view = HistoryView::new();
    view.load_history(strings(&["ls", "pwd"]));
    view.handle_key(Key::Char('/'));
    view.handle_key(Key::Char('p'));
    let mut r = Renderer::new();
    view.render(&mut r);
    let frame = r.flush();
    assert_eq!(frame.len(), 4);
    assert!(matches!(&frame[1], DrawOp::Line { row: 1, text } if text == "> pwd"));
    assert!(matches!(&frame[2], DrawOp::Status { text } if text == "/p"));
    assert!(matches!(&frame[3], DrawOp::Line { row: 0, text } if text == "Search"));
}

#[test]
fn loading_and_saved_frames() {
    let mut view = HistoryView::new();
    view.load_history(strings(&["ls"]));
    view.handle_key(Key::Enter);
    let mut r = Renderer::new();
    view.render(&mut r);
    let frame = r.flush();
    assert!(matches!(&frame[1], DrawOp::Line { row: 1, text } if text == "Fetching description for: ls"));
    assert!(matches!(&frame[2], DrawOp::Line { row: 0, text } if text == "Api loading"));
    view.complete_enrichment(ServiceReply::Unreachable);
    view.render(&mut r);
    let frame = r.flush();
    assert!(matches!(&frame[1], DrawOp::Line { row: 1, text } if text == "Saved: ls"));
    assert!(matches!(&frame[2], DrawOp::Line { row: 2, text } if text == "No description available."));
    assert!(matches!(&frame[3], DrawOp::Line { row: 0, text } if text == "Saved"));
    assert_eq!(SessionState::Idle, SessionState::Idle);
}

#[test]
fn saving_twice_writes_once() {
    let first = plan_save("git status", false).unwrap();
    assert_eq!(first.contents, "# git status \n\n");
    assert!(plan_save("git status", true).is_none());
    assert_eq!(create_file_name("git status"), first.file_name);
}

#[test]
fn file_name_has_token_and_hash() {
    let name = create_file_name("git status --short");
    assert_eq!(name, format!("git-{:x}.md", std_hash("git status --short")));
    assert_ne!(create_file_name("git status"), create_file_name("git stash"));
    assert_eq!(create_file_name("   "), format!("-{:x}.md", std_hash("   ")));
}

#[test]
fn record_is_a_heading() {
    assert_eq!(record_contents("ls -la"), "# ls -la \n\n");
}

#[test]
fn hex_digits_exact() {
    assert_eq!(hex_of(0), "0");
    assert_eq!(hex_of(255), "ff");
    assert_eq!(hex_of(0xdead_beef), "deadbeef");
    assert_eq!(hex_of(u64::MAX), "ffffffffffffffff");
}

#[test]
fn first_token_skips_leading_space() {
    assert_eq!(first_token_of("  git status"), "git");
    assert_eq!(first_token_of("ls"), "ls");
    assert_eq!(first_token_of(""), "");
    assert_eq!(first_token_of(" \t "), "");
    assert_eq!(first_token_of("a\u{3000}b"), "a");
}

#[test]
fn blank_strings() {
    assert!(is_blank_str(""));
    assert!(is_blank_str(" \t\n"));
    assert!(!is_blank_str(" a "));
}

#[test]
fn shell_history_files() {
    assert_eq!(history_file_name("/bin/bash"), Ok(".bash_history".to_string()));
    assert_eq!(history_file_name("/usr/bin/zsh"), Ok(".zsh_history".to_string()));
    assert_eq!(history_file_name("zsh"), Ok(".zsh_history".to_string()));
    assert_eq!(history_file_name("/usr/bin/fish"), Err(PickerError::UnsupportedShell));
    assert_eq!(history_file_name("/bin/bash/"), Err(PickerError::UnsupportedShell));
    assert_eq!(history_file_name(""), Err(PickerError::UnsupportedShell));
}

#[test]
fn recent_lines_come_first() {
    let lines = strings(&["a", "b", "c"]);
    assert_eq!(recent_first(&lines, 2), strings(&["c", "b"]));
    assert_eq!(recent_first(&lines, 10), strings(&["c", "b", "a"]));
    assert!(recent_first(&lines, 0).is_empty());
}

#[test]
fn request_for_command() {
    let req = GPTRequest::for_command("nvim .");
    assert_eq!(req.model, "gpt-3.5-turbo");
    assert_eq!(req.messages.len(), 1);
    assert_eq!(req.messages[0].role, Role::User);
    assert_eq!(req.messages[0].content, prompt_for("nvim ."));
    assert!(req.messages[0].content.starts_with("Explain the 'nvim .' command"));
    assert_eq!(req.max_tokens, MAX_TOKENS);
    assert_eq!(req.temperature, 0);
    assert_eq!(req.top_p, 1);
}

#[test]
fn reply_descriptions() {
    assert_eq!(description_from(ServiceReply::Unreachable), None);
    let ok = ServiceReply::Answered { status: 200, first_choice: Some("d".to_string()) };
    assert_eq!(description_from(ok), Some("d".to_string()));
    let empty = ServiceReply::Answered { status: 204, first_choice: None };
    assert_eq!(description_from(empty), None);
    let bad = ServiceReply::Answered { status: 404, first_choice: Some("d".to_string()) };
    assert_eq!(description_from(bad), None);
    let redirect = ServiceReply::Answered { status: 300, first_choice: Some("d".to_string()) };
    assert_eq!(description_from(redirect), None);
}

#[test]
fn history_text_is_split_into_recent_lines() {
    assert_eq!(history_lines("a\nb\r\nc\n", 10), strings(&["c", "b", "a"]));
    assert_eq!(history_lines("a\n\nb", 10), strings(&["b", "", "a"]));
    assert_eq!(history_lines("x\r", 10), strings(&["x\r"]));
    assert_eq!(history_lines("one\ntwo\nthree", 2), strings(&["three", "two"]));
    assert!(history_lines("", 10).is_empty());
    assert_eq!(history_lines("\n", 10), strings(&[""]));
}
