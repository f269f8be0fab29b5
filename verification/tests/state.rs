use rmenu::MAX_SUGGESTIONS;
use rmenu::buffer::InputBuffer;
use rmenu::engine::InputEvent;
use rmenu::engine::LauncherState;
use rmenu::index::ExecutableIndex;
use rmenu::ranker::rank;
use rmenu::selection::SelectionCursor;

#[test]
fn insert_then_delete_is_identity() {
    let mut buffer = InputBuffer::new();
    buffer.insert_char('v');
    buffer.insert_char('m');
    buffer.move_left();
    let text_before: Vec<char> = buffer.text.clone();
    let cursor_before = buffer.cursor;
    buffer.insert_char('i');
    buffer.delete_before_cursor();
    assert_eq!(buffer.text, text_before);
    assert_eq!(buffer.cursor, cursor_before);
}

#[test]
fn insert_goes_through_the_cursor() {
    let mut buffer = InputBuffer::new();
    buffer.insert_char('a');
    buffer.insert_char('c');
    buffer.move_left();
    buffer.insert_char('b');
    assert_eq!(buffer.text, vec!['a', 'b', 'c']);
    assert_eq!(buffer.cursor, 2);
}

#[test]
fn move_left_at_start_is_a_noop() {
    let mut buffer = InputBuffer::new();
    buffer.insert_char('x');
    buffer.move_left();
    assert_eq!(buffer.cursor, 0);
    buffer.move_left();
    assert_eq!(buffer.text, vec!['x']);
    assert_eq!(buffer.cursor, 0);
}

#[test]
fn move_right_at_end_is_a_noop() {
    let mut buffer = InputBuffer::new();
    buffer.insert_char('x');
    assert_eq!(buffer.cursor, 1);
    buffer.move_right();
    assert_eq!(buffer.text, vec!['x']);
    assert_eq!(buffer.cursor, 1);
}

#[test]
fn delete_at_start_is_a_noop() {
    let mut buffer = InputBuffer::new();
    buffer.insert_char('x');
    buffer.move_left();
    buffer.delete_before_cursor();
    assert_eq!(buffer.text, vec!['x']);
    assert_eq!(buffer.cursor, 0);
}

#[test]
fn selection_stays_in_bounds() {
    let mut cursor = SelectionCursor::new();
    assert_eq!(cursor.index, 0);
    cursor.move_up();
    assert_eq!(cursor.index, 0);
    for _ in 0..10 {
        cursor.move_down();
        assert!(cursor.index < MAX_SUGGESTIONS);
    }
    assert_eq!(cursor.index, MAX_SUGGESTIONS - 1);
    for _ in 0..10 {
        cursor.move_up();
    }
    assert_eq!(cursor.index, 0);
}

#[test]
fn index_drops_duplicates() {
    let names = vec!["ls".to_string(), "ls".to_string(), "vim".to_string()];
    let index = ExecutableIndex::from_names(names);
    assert_eq!(index.names.len(), 2);
    assert!(index.contains(&"ls".to_string()));
    assert!(index.contains(&"vim".to_string()));
    assert!(!index.contains(&"cat".to_string()));
}

#[test]
fn events_drive_buffer_and_selection() {
    let mut state = LauncherState::new();
    state.handle_event(InputEvent::CharTyped('l'));
    state.handle_event(InputEvent::CharTyped('s'));
    state.handle_event(InputEvent::SelectDown);
    assert_eq!(state.buffer.text, vec!['l', 's']);
    assert_eq!(state.buffer.cursor, 2);
    assert_eq!(state.selection.index, 1);
    state.handle_event(InputEvent::Backspace);
    state.handle_event(InputEvent::SelectUp);
    assert_eq!(state.buffer.text, vec!['l']);
    assert_eq!(state.selection.index, 0);
}

#[test]
fn ranking_follows_the_buffer() {
    let index = ExecutableIndex::from_names(vec![
        "ls".to_string(),
        "less".to_string(),
        "lua".to_string(),
    ]);
    let mut state = LauncherState::new();
    state.handle_event(InputEvent::CharTyped('l'));
    let candidates = rank(&index, &state.buffer.text);
    assert_eq!(candidates, vec!["ls".to_string(), "lua".to_string(), "less".to_string()]);
    state.handle_event(InputEvent::CharTyped('e'));
    let candidates = rank(&index, &state.buffer.text);
    assert_eq!(candidates, vec!["less".to_string()]);
}
