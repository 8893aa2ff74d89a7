use chisel::app::App;
use chisel::buffer::TextBuffer;
use chisel::editor::{Editor, Key, Mode, Transition};
use chisel::ui::{concat_all, join_with_spaces, layout_heights, poll_budget, tick_due};

fn type_text(buf: &mut TextBuffer, text: &str) {
    for c in text.chars() {
        buf.insert_char(c);
    }
}

#[test]
fn unbound_key_resolves_to_nop_with_no_pending_state() {
    let mut editor = Editor::new(Mode::Normal);
    let mut buf = TextBuffer::new();
    let mut app = App::new();
    let o = editor.transition(Key::Char('x'), &mut buf, &mut app);
    assert!(matches!(o.transition, Transition::Nop));
    assert!(o.submit.is_none());
    assert!(editor.pending.is_empty());
    assert_eq!(buf.submission(), "");
}

#[test]
fn chord_prefix_is_retained_and_completes() {
    let mut editor = Editor::new(Mode::Normal);
    let mut buf = TextBuffer::new();
    let mut app = App::new();
    let o = editor.transition(Key::Char('g'), &mut buf, &mut app);
    match o.transition {
        Transition::Pending(keys) => assert_eq!(keys, vec![Key::Char('g')]),
        _ => panic!("expected a pending chord"),
    }
    assert_eq!(editor.pending, vec![Key::Char('g')]);
    let o2 = editor.transition(Key::Char('g'), &mut buf, &mut app);
    assert!(matches!(o2.transition, Transition::Nop));
    assert!(editor.pending.is_empty());
}

#[test]
fn breaking_key_is_reprocessed_from_the_base_table() {
    let mut editor = Editor::new(Mode::Normal);
    let mut buf = TextBuffer::new();
    let mut app = App::new();
    let o = editor.transition(Key::Char('d'), &mut buf, &mut app);
    assert!(matches!(o.transition, Transition::Pending(_)));
    // 'i' does not extend the chord; it is looked up alone and switches mode
    let o2 = editor.transition(Key::Char('i'), &mut buf, &mut app);
    assert!(matches!(o2.transition, Transition::Mode(Mode::Insert)));
    assert!(editor.pending.is_empty());
}

#[test]
fn breaking_key_may_itself_open_a_chord() {
    let mut editor = Editor::new(Mode::Normal);
    let mut buf = TextBuffer::new();
    let mut app = App::new();
    editor.transition(Key::Char('g'), &mut buf, &mut app);
    let o = editor.transition(Key::Char('d'), &mut buf, &mut app);
    match o.transition {
        Transition::Pending(keys) => assert_eq!(keys, vec![Key::Char('d')]),
        _ => panic!("expected the breaking key to stay pending"),
    }
    assert_eq!(editor.pending, vec![Key::Char('d')]);
}

#[test]
fn insert_mode_falls_back_to_literal_insertion() {
    let mut editor = Editor::new(Mode::Insert);
    let mut buf = TextBuffer::new();
    let mut app = App::new();
    let o = editor.transition(Key::Char('x'), &mut buf, &mut app);
    assert!(matches!(o.transition, Transition::Nop));
    assert!(editor.pending.is_empty());
    assert_eq!(buf.submission(), "x");
}

#[test]
fn quit_key_yields_quit() {
    let mut editor = Editor::new(Mode::Normal);
    let mut buf = TextBuffer::new();
    let mut app = App::new();
    let o = editor.transition(Key::Char('q'), &mut buf, &mut app);
    assert!(matches!(o.transition, Transition::Quit));
}

#[test]
fn submit_concatenates_all_lines_without_separator() {
    let mut editor = Editor::new(Mode::Insert);
    let mut buf = TextBuffer::new();
    let mut app = App::new();
    type_text(&mut buf, "ab");
    editor.transition(Key::Enter, &mut buf, &mut app);
    type_text(&mut buf, "cd");
    assert_eq!(buf.line_count(), 2);
    let mut normal = Editor::new(Mode::Normal);
    let o = normal.transition(Key::Enter, &mut buf, &mut app);
    assert!(matches!(o.transition, Transition::Nop));
    assert_eq!(o.submit.as_deref(), Some("abcd"));
    // the buffer is cleared only after the dispatch call resolves
    assert_eq!(buf.submission(), "abcd");
    buf.clear();
    assert_eq!(buf.submission(), "");
}

#[test]
fn delete_word_chord_removes_trailing_partial_word() {
    let mut editor = Editor::new(Mode::Normal);
    let mut buf = TextBuffer::new();
    let mut app = App::new();
    type_text(&mut buf, "foo bar");
    editor.transition(Key::Char('d'), &mut buf, &mut app);
    editor.transition(Key::Char('w'), &mut buf, &mut app);
    assert_eq!(buf.submission(), "foo ");
}

#[test]
fn delete_line_chord_empties_single_line() {
    let mut editor = Editor::new(Mode::Normal);
    let mut buf = TextBuffer::new();
    let mut app = App::new();
    type_text(&mut buf, "junk");
    editor.transition(Key::Char('d'), &mut buf, &mut app);
    editor.transition(Key::Char('d'), &mut buf, &mut app);
    assert_eq!(buf.submission(), "");
    assert_eq!(buf.line_count(), 1);
}

#[test]
fn mode_switch_transition_reports_target_and_loop_updates_mode() {
    let mut editor = Editor::new(Mode::Normal);
    let mut buf = TextBuffer::new();
    let mut app = App::new();
    let o = editor.transition(Key::Char('i'), &mut buf, &mut app);
    match o.transition {
        Transition::Mode(target) => {
            editor.change_mode(target);
        },
        _ => panic!("expected a mode transition"),
    }
    assert_eq!(editor.mode, Mode::Insert);
    let o2 = editor.transition(Key::Esc, &mut buf, &mut app);
    assert!(matches!(o2.transition, Transition::Mode(Mode::Normal)));
}

#[test]
fn tab_in_insert_mode_cycles_suggestions() {
    let mut editor = Editor::new(Mode::Insert);
    let mut buf = TextBuffer::new();
    let mut app = App::new();
    app.suggestions = vec!["aa".to_string(), "ab".to_string()];
    editor.transition(Key::Tab, &mut buf, &mut app);
    assert_eq!(app.current_suggestion, 1);
    editor.transition(Key::Tab, &mut buf, &mut app);
    assert_eq!(app.current_suggestion, 0);
}

#[test]
fn backspace_joins_lines_at_line_start() {
    let mut buf = TextBuffer::new();
    type_text(&mut buf, "ab");
    buf.newline();
    type_text(&mut buf, "cd");
    assert_eq!(buf.line_count(), 2);
    buf.move_top();
    buf.move_down();
    assert_eq!(buf.cursor_row(), 1);
    assert_eq!(buf.cursor_col(), 0);
    buf.backspace();
    assert_eq!(buf.line_count(), 1);
    assert_eq!(buf.submission(), "abcd");
    assert_eq!(buf.cursor_col(), 2);
}

#[test]
fn cursor_moves_clamp_at_edges() {
    let mut buf = TextBuffer::new();
    type_text(&mut buf, "ab");
    buf.move_right();
    assert_eq!(buf.cursor_col(), 2);
    buf.move_left();
    buf.move_left();
    buf.move_left();
    assert_eq!(buf.cursor_col(), 0);
    buf.move_up();
    assert_eq!(buf.cursor_row(), 0);
}

#[test]
fn layout_gives_fixed_panes_and_the_rest() {
    assert_eq!(layout_heights(30), (10, 2, 18));
    assert_eq!(layout_heights(12), (10, 2, 0));
    assert_eq!(layout_heights(11), (10, 1, 0));
    assert_eq!(layout_heights(5), (5, 0, 0));
    assert_eq!(layout_heights(0), (0, 0, 0));
}

#[test]
fn poll_budget_is_the_remaining_tick_time() {
    assert_eq!(poll_budget(250, 100), 150);
    assert_eq!(poll_budget(250, 250), 0);
    assert_eq!(poll_budget(250, 400), 0);
    assert!(!tick_due(250, 100));
    assert!(tick_due(250, 250));
    assert!(tick_due(250, 400));
}

#[test]
fn pane_texts_join_as_rendered() {
    let messages = vec!["ab".to_string(), "cd".to_string()];
    assert_eq!(concat_all(&messages), "abcd");
    let suggestions = vec!["aa".to_string(), "ab".to_string(), "ac".to_string()];
    assert_eq!(join_with_spaces(&suggestions), "aa ab ac");
    let empty: Vec<String> = Vec::new();
    assert_eq!(concat_all(&empty), "");
    assert_eq!(join_with_spaces(&empty), "");
}
