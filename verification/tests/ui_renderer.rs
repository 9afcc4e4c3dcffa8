use termide::buffer::Position;
use termide::editor::{EditorMode, EditorState};
use termide::ui::view::{
    adjust_scroll, cursor_screen_position, format_status_line, frame_hash, visible_height,
    RenderState, TextArea,
};
use termide::ui::Theme;

#[test]
fn test_scroll_offset_initialization() {
    let render_state = RenderState::new(Theme::default());
    let scroll_offset = render_state.scroll_offset();
    assert_eq!(scroll_offset, 0);
}

#[test]
fn test_scroll_adjustment_logic() {
    // Test scroll down logic: 20 visible lines in a 22-line terminal
    let scroll_offset = adjust_scroll(0, Position::new(25, 0), 22);
    assert_eq!(scroll_offset, 6); // 25 - 19 = 6

    // Test scroll up logic
    let scroll_offset = adjust_scroll(10, Position::new(5, 0), 22);
    assert_eq!(scroll_offset, 5);
}

#[test]
fn test_scroll_keeps_cursor_at_top() {
    let scroll_offset = adjust_scroll(10, Position::new(8, 0), 22);
    assert_eq!(scroll_offset, 8);
}

#[test]
fn test_scroll_keeps_cursor_at_bottom() {
    let scroll_offset = adjust_scroll(0, Position::new(25, 0), 22);
    assert_eq!(scroll_offset, 6);
}

#[test]
fn test_cursor_screen_position_calculation() {
    let scroll_offset: usize = 5;
    let cursor_pos = Position::new(10, 15);
    let area = TextArea { x: 0, y: 0, width: 80, height: 24 };
    assert_eq!(cursor_screen_position(cursor_pos, area, scroll_offset), Some((15, 5)));
}

#[test]
fn test_cursor_screen_position_out_of_view() {
    let area = TextArea { x: 0, y: 0, width: 80, height: 24 };
    // Cursor is above scroll offset
    assert_eq!(cursor_screen_position(Position::new(2, 0), area, 5), None);
}

#[test]
fn test_cursor_screen_position_below_view() {
    let area = TextArea { x: 0, y: 0, width: 80, height: 24 };
    // 50 - 5 = 45 lines down, past the 24 visible rows
    assert_eq!(cursor_screen_position(Position::new(50, 0), area, 5), None);
}

#[test]
fn test_frame_hash_changes_with_buffer_content() {
    let state1 = EditorState::new();
    let hash1 = frame_hash(&state1, Position::origin(), 0);

    let mut state2 = EditorState::new();
    state2.handle_char_insert('A', Position::origin());
    let hash2 = frame_hash(&state2, Position::origin(), 0);

    assert_ne!(hash1, hash2);
}

#[test]
fn test_frame_hash_changes_with_cursor() {
    let state = EditorState::new();
    let hash1 = frame_hash(&state, Position::origin(), 0);
    let hash2 = frame_hash(&state, Position::new(5, 10), 0);

    assert_ne!(hash1, hash2);
}

#[test]
fn test_frame_hash_changes_with_mode() {
    let mut state1 = EditorState::new();
    state1.set_mode(EditorMode::Insert);
    let hash1 = frame_hash(&state1, Position::origin(), 0);

    let mut state2 = EditorState::new();
    state2.set_mode(EditorMode::Normal);
    let hash2 = frame_hash(&state2, Position::origin(), 0);

    assert_ne!(hash1, hash2);
}

#[test]
fn test_frame_hash_changes_with_status_message() {
    let mut state1 = EditorState::new();
    let hash1 = frame_hash(&state1, Position::origin(), 0);

    state1.set_status_message("Test message".to_string());
    let hash2 = frame_hash(&state1, Position::origin(), 0);

    assert_ne!(hash1, hash2);
}

#[test]
fn test_frame_hash_same_for_identical_state() {
    let state = EditorState::new();
    let hash1 = frame_hash(&state, Position::origin(), 0);
    let hash2 = frame_hash(&state, Position::origin(), 0);

    assert_eq!(hash1, hash2);
}

#[test]
fn test_frame_hash_changes_with_dirty_flag() {
    let mut state1 = EditorState::new();
    let hash1 = frame_hash(&state1, Position::origin(), 0);

    state1.handle_char_insert('X', Position::origin());
    let hash2 = frame_hash(&state1, Position::origin(), 0);

    assert_ne!(hash1, hash2);
}

#[test]
fn test_visible_height_calculation() {
    assert_eq!(visible_height(24), 22);
}

#[test]
fn test_visible_height_with_small_terminal() {
    // Should not underflow
    assert_eq!(visible_height(1), 0);
}

#[test]
fn test_status_bar_formatting() {
    let status = format_status_line("test.txt", true, EditorMode::Insert, Position::new(5, 10));
    assert_eq!(status, " test.txt * | INSERT | 6:11");
}

#[test]
fn test_status_bar_formatting_no_dirty() {
    let status = format_status_line("clean.txt", false, EditorMode::Normal, Position::new(0, 0));
    assert_eq!(status, " clean.txt | NORMAL | 1:1");
}

#[test]
fn test_status_bar_with_no_filename() {
    let status = format_status_line("[No Name]", true, EditorMode::Insert, Position::new(10, 25));
    assert_eq!(status, " [No Name] * | INSERT | 11:26");
}
