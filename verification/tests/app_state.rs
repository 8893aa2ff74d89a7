use chisel::app::{outcome_is_error, App, Color, Diagnostic, DispatchResult};
use chisel::buffer::TextBuffer;

fn app_with_suggestions(entries: &[&str]) -> App {
    let mut app = App::new();
    app.suggestions = entries.iter().map(|e| e.to_string()).collect();
    app
}

#[test]
fn parser_failure_lists_every_diagnostic_in_order() {
    let mut app = App::new();
    let outcome = DispatchResult::ParserFailed(vec![
        Diagnostic { message: "a".to_string() },
        Diagnostic { message: "b".to_string() },
    ]);
    app.submit_message(&outcome);
    assert_eq!(app.messages, vec!["a".to_string(), "b".to_string()]);
    assert_eq!(app.fg_color, Color::Error);
}

#[test]
fn failure_without_message_shows_fallback_and_keeps_color() {
    let mut app = App::new();
    app.fg_color = Color::Success;
    app.submit_message(&DispatchResult::Failure(None));
    assert_eq!(app.messages, vec!["unknown internal error".to_string()]);
    assert_eq!(app.fg_color, Color::Success);
}

#[test]
fn success_with_text_replaces_log_and_colors_success() {
    let mut app = App::new();
    app.fg_color = Color::Error;
    app.messages = vec!["stale".to_string()];
    app.submit_message(&DispatchResult::Success(Some("ok".to_string())));
    assert_eq!(app.messages, vec!["ok".to_string()]);
    assert_eq!(app.fg_color, Color::Success);
}

#[test]
fn success_without_text_clears_log_and_keeps_color() {
    let mut app = App::new();
    app.fg_color = Color::Error;
    app.messages = vec!["stale".to_string()];
    app.submit_message(&DispatchResult::CommandSuccess(None));
    assert!(app.messages.is_empty());
    assert_eq!(app.fg_color, Color::Error);
}

#[test]
fn unrecognized_command_keeps_color() {
    let mut app = App::new();
    app.submit_message(&DispatchResult::UnrecognizedCommand("what".to_string()));
    assert_eq!(app.messages, vec!["what".to_string()]);
    assert_eq!(app.fg_color, Color::Neutral);
}

#[test]
fn failing_outcomes_color_error() {
    let mut app = App::new();
    app.submit_message(&DispatchResult::FileIoError("io".to_string()));
    assert_eq!(app.messages, vec!["io".to_string()]);
    assert_eq!(app.fg_color, Color::Error);

    app.submit_message(&DispatchResult::CommandFailed("cmd".to_string()));
    assert_eq!(app.messages, vec!["cmd".to_string()]);
    assert_eq!(app.fg_color, Color::Error);

    app.fg_color = Color::Neutral;
    app.submit_message(&DispatchResult::Failure(Some("boom".to_string())));
    assert_eq!(app.messages, vec!["boom".to_string()]);
    assert_eq!(app.fg_color, Color::Error);
}

#[test]
fn outcome_error_classification() {
    assert!(!outcome_is_error(&DispatchResult::Success(None)));
    assert!(!outcome_is_error(&DispatchResult::CommandSuccess(Some("x".to_string()))));
    assert!(outcome_is_error(&DispatchResult::UnrecognizedCommand("x".to_string())));
    assert!(outcome_is_error(&DispatchResult::ParserFailed(vec![])));
    assert!(outcome_is_error(&DispatchResult::Failure(None)));
}

#[test]
fn iterating_cycles_through_all_indices_and_wraps() {
    let mut app = app_with_suggestions(&["a", "b", "c"]);
    assert_eq!(app.current_suggestion, 0);
    app.iter_suggestion();
    assert_eq!(app.current_suggestion, 1);
    app.iter_suggestion();
    assert_eq!(app.current_suggestion, 2);
    app.iter_suggestion();
    assert_eq!(app.current_suggestion, 0);
}

#[test]
fn iterating_a_singleton_list_stays_at_zero() {
    let mut app = app_with_suggestions(&["only"]);
    app.iter_suggestion();
    assert_eq!(app.current_suggestion, 0);
}

#[test]
fn choosing_with_no_suggestions_leaves_buffer_unmodified() {
    let mut app = App::new();
    let mut buf = TextBuffer::new();
    buf.insert_char('a');
    buf.insert_char('b');
    app.choose_suggestion(&mut buf);
    assert_eq!(buf.submission(), "ab");
    assert_eq!(buf.cursor_col(), 2);
}

#[test]
fn highlight_wraps_current_entry_in_markers() {
    let mut app = app_with_suggestions(&["abc", "abd"]);
    app.highlight_current_suggestion();
    assert_eq!(app.suggestions[0], "\u{1b}[41mabc\u{1b}[0m");
    assert_eq!(app.suggestions[1], "abd");
}

#[test]
fn highlight_is_recomputed_not_layered() {
    let mut app = app_with_suggestions(&["abc"]);
    app.highlight_current_suggestion();
    app.highlight_current_suggestion();
    assert_eq!(app.suggestions[0], "\u{1b}[41mabc\u{1b}[0m");
}

#[test]
fn highlighted_entry_is_inserted_sanitized() {
    let mut app = app_with_suggestions(&["abcd"]);
    let mut buf = TextBuffer::new();
    buf.insert_char('a');
    buf.insert_char('b');
    app.highlight_current_suggestion();
    app.choose_suggestion(&mut buf);
    assert_eq!(buf.submission(), "abcd");
    assert_eq!(app.suggestions[0], "abcd");
}

#[test]
fn choosing_replaces_trailing_partial_word() {
    let mut app = app_with_suggestions(&["uint256"]);
    let mut buf = TextBuffer::new();
    for c in "x = ui".chars() {
        buf.insert_char(c);
    }
    app.choose_suggestion(&mut buf);
    assert_eq!(buf.submission(), "x = uint256");
}

#[test]
fn suggest_replaces_list_and_rests_index() {
    let mut app = App::new();
    app.current_suggestion = 7;
    let vocab: Vec<String> = vec!["abc".to_string(), "abd".to_string()];
    app.suggest("ab", &vocab);
    assert_eq!(app.suggestions, vec!["abc".to_string(), "abd".to_string()]);
    assert_eq!(app.current_suggestion, 0);
}

#[test]
fn suggest_from_source_fails_on_bad_source() {
    let mut app = App::new();
    assert!(!app.suggest_from_source("ab", "nonsense"));
    assert!(app.suggestions.is_empty());
    assert!(app.suggest_from_source("ab", "{\"abc\": null}"));
    assert_eq!(app.suggestions, vec!["abc".to_string()]);
}

#[test]
fn scroll_state_tracks_message_count() {
    let mut app = App::new();
    app.messages = vec!["one".to_string(), "two".to_string()];
    app.sync_scroll();
    assert_eq!(app.vertical_scroll_state.content_length, 2);
}

#[test]
fn new_app_starts_neutral_and_empty() {
    let app = App::new();
    assert!(app.input.is_empty());
    assert!(app.messages.is_empty());
    assert!(app.suggestions.is_empty());
    assert_eq!(app.current_suggestion, 0);
    assert_eq!(app.fg_color, Color::Neutral);
    assert_eq!(app.vertical_scroll, 0);
    assert_eq!(app.vertical_scroll_state.content_length, 0);
    let d = App::default();
    assert_eq!(d.fg_color, Color::Neutral);
}
