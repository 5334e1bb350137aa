use stream2blog::geometry::Rect;
use stream2blog::input::{KeyCode, KeyInput, MouseInput, MouseKind, KeyResult};
use stream2blog::text_editor::{CursorMove, TextEditor};

fn create_test_editor() -> TextEditor {
    let mut editor = TextEditor::new();
    editor.set_area(Rect { x: 0, y: 0, width: 50, height: 10 });
    editor
}

fn type_str(editor: &mut TextEditor, clip: &mut String, text: &str) {
    for ch in text.chars() {
        let key = if ch == '\n' {
            KeyInput::plain(KeyCode::Enter)
        } else {
            KeyInput::plain(KeyCode::Char(ch))
        };
        editor.handle_key_event(key, clip, None);
    }
}

#[test]
fn test_wrapping_functionality() {
    let mut editor = create_test_editor();

    assert!(editor.is_wrapping_enabled());

    editor.set_wrap_width(40);
    assert!(editor.is_wrapping_enabled());

    editor.enable_wrapping();
    assert!(editor.is_wrapping_enabled());
}

#[test]
fn test_word_navigation_ctrl_keys() {
    let mut editor = create_test_editor();
    let mut clip = String::new();

    editor.set_text("hello world test content");

    editor.move_cursor(CursorMove::End);

    let key = KeyInput::ctrl(KeyCode::Left);
    let result = editor.handle_key_event(key, &mut clip, None);
    let (row_after_left, col_after_left) = editor.cursor_position();

    assert_eq!(row_after_left, 0);
    assert_eq!(col_after_left, 17);
    assert!(matches!(result, Some(KeyResult::Handled(true))));

    let key = KeyInput::ctrl(KeyCode::Left);
    let result = editor.handle_key_event(key, &mut clip, None);
    let (row_after_left2, col_after_left2) = editor.cursor_position();

    assert_eq!(row_after_left2, 0);
    assert_eq!(col_after_left2, 12);
    assert!(matches!(result, Some(KeyResult::Handled(true))));

    let key = KeyInput::ctrl(KeyCode::Right);
    let result = editor.handle_key_event(key, &mut clip, None);
    let (row_after_right, col_after_right) = editor.cursor_position();

    assert_eq!(row_after_right, 0);
    assert_eq!(col_after_right, 17);
    assert!(matches!(result, Some(KeyResult::Handled(true))));
}

#[test]
fn typing_and_line_breaks() {
    let mut editor = TextEditor::new();
    let mut clip = String::new();
    type_str(&mut editor, &mut clip, "Line One\nLine Two\nLine Three");

    let lines = editor.lines();
    assert_eq!(lines.len(), 3);
    assert_eq!(lines[0], "Line One");
    assert_eq!(lines[1], "Line Two");
    assert_eq!(lines[2], "Line Three");
    assert_eq!(editor.to_text(), "Line One\nLine Two\nLine Three");
}

#[test]
fn delete_at_line_end_joins_lines() {
    let mut editor = TextEditor::new();
    let mut clip = String::new();
    type_str(&mut editor, &mut clip, "Line One\nLine Two\nLine Three");

    editor.move_cursor_to_start();
    editor.move_cursor(CursorMove::End);
    editor.handle_key_event(KeyInput::plain(KeyCode::Delete), &mut clip, None);

    let lines = editor.lines();
    assert_eq!(lines.len(), 2);
    assert_eq!(lines[0], "Line OneLine Two");
    assert_eq!(lines[1], "Line Three");
}

#[test]
fn backspace_at_column_zero_joins_lines() {
    let mut editor = TextEditor::new();
    let mut clip = String::new();
    type_str(&mut editor, &mut clip, "ab\ncd");

    editor.move_cursor(CursorMove::Jump(1, 0));
    editor.handle_key_event(KeyInput::plain(KeyCode::Backspace), &mut clip, None);

    assert_eq!(editor.to_text(), "abcd");
    assert_eq!(editor.cursor_position(), (0, 2));
}

#[test]
fn movement_never_changes_text() {
    let mut editor = TextEditor::new();
    let mut clip = String::new();
    type_str(&mut editor, &mut clip, "alpha beta\ngamma delta\nepsilon");
    let before = editor.to_text();

    let moves = vec![
        CursorMove::Top,
        CursorMove::End,
        CursorMove::WordBack,
        CursorMove::WordForward,
        CursorMove::Down,
        CursorMove::VisualDown,
        CursorMove::VisualUp,
        CursorMove::Back,
        CursorMove::Forward,
        CursorMove::Bottom,
        CursorMove::Head,
        CursorMove::Jump(1, 3),
        CursorMove::Up,
    ];
    editor.apply_moves(&moves);

    assert_eq!(editor.to_text(), before);
}

#[test]
fn word_left_from_column_zero_lands_on_previous_line_end() {
    let mut editor = TextEditor::new();
    let mut clip = String::new();
    type_str(&mut editor, &mut clip, "first line\nsecond");

    editor.move_cursor(CursorMove::Jump(1, 0));
    editor.move_cursor(CursorMove::WordBack);
    assert_eq!(editor.cursor_position(), (0, 10));
}

#[test]
fn repeated_word_left_visits_word_starts() {
    let mut editor = TextEditor::new();
    let mut clip = String::new();
    type_str(&mut editor, &mut clip, "a b c");

    editor.move_cursor(CursorMove::End);
    editor.move_cursor(CursorMove::WordBack);
    assert_eq!(editor.cursor_position(), (0, 4));
    editor.move_cursor(CursorMove::WordBack);
    assert_eq!(editor.cursor_position(), (0, 2));
    editor.move_cursor(CursorMove::WordBack);
    assert_eq!(editor.cursor_position(), (0, 0));
}

#[test]
fn undo_restores_previous_text() {
    let mut editor = TextEditor::new();
    let mut clip = String::new();
    type_str(&mut editor, &mut clip, "Original text");
    assert_eq!(editor.to_text(), "Original text");

    type_str(&mut editor, &mut clip, "!");
    assert_eq!(editor.to_text(), "Original text!");

    let undone = editor.undo();
    assert!(undone);
    assert_eq!(editor.to_text(), "Original text");

    let redone = editor.redo();
    assert!(redone);
    assert_eq!(editor.to_text(), "Original text!");
}

#[test]
fn undo_on_empty_history_reports_false() {
    let mut editor = TextEditor::new();
    assert!(!editor.undo());
    assert!(!editor.redo());
}

#[test]
fn select_all_and_cut_clears_buffer() {
    let mut editor = TextEditor::new();
    let mut clip = String::new();
    type_str(&mut editor, &mut clip, "First line\nSecond line");

    editor.select_all();
    let cut = editor.cut();
    assert!(cut);
    assert_eq!(editor.to_text(), "");
    assert_eq!(editor.cursor_position(), (0, 0));
}

#[test]
fn selected_text_spans_lines_with_separator_offsets() {
    let mut editor = TextEditor::new();
    let mut clip = String::new();
    type_str(&mut editor, &mut clip, "ab\ncd");

    editor.move_cursor(CursorMove::Jump(0, 1));
    editor.start_selection();
    editor.move_cursor(CursorMove::Jump(1, 1));

    let selected = editor.selected_text();
    assert_eq!(selected, Some(String::from("b\nc")));
}

#[test]
fn copy_without_selection_copies_all_text() {
    let mut editor = TextEditor::new();
    let mut clip = String::new();
    type_str(&mut editor, &mut clip, "hello");

    let r = editor.handle_key_event(KeyInput::ctrl(KeyCode::Char('c')), &mut clip, None);
    assert!(matches!(r, Some(KeyResult::Handled(true))));
    assert_eq!(clip, "hello");
}

#[test]
fn cut_and_paste_round_trip() {
    let mut editor = TextEditor::new();
    let mut clip = String::new();
    type_str(&mut editor, &mut clip, "keep removed");

    editor.move_cursor(CursorMove::Jump(0, 4));
    editor.start_selection();
    editor.move_cursor(CursorMove::End);
    let r = editor.handle_key_event(KeyInput::ctrl(KeyCode::Char('x')), &mut clip, None);
    assert!(matches!(r, Some(KeyResult::Handled(true))));
    assert_eq!(clip, " removed");
    assert_eq!(editor.to_text(), "keep");

    let r = editor.handle_key_event(KeyInput::ctrl(KeyCode::Char('v')), &mut clip, None);
    assert!(matches!(r, Some(KeyResult::Handled(true))));
    assert_eq!(editor.to_text(), "keep removed");
}

#[test]
fn image_paste_chord_reports_modal_request() {
    let mut editor = TextEditor::new();
    let mut clip = String::new();
    let bytes = vec![1u8, 2, 3];
    let r = editor.handle_key_event(
        KeyInput::ctrl(KeyCode::Char('p')), &mut clip, Some(bytes.clone()));
    match r {
        Some(KeyResult::ImageNamingModal(data)) => assert_eq!(data, bytes),
        other => panic!("expected the naming modal, got {:?}", other),
    }

    let r = editor.handle_key_event(KeyInput::ctrl(KeyCode::Char('p')), &mut clip, None);
    assert!(matches!(r, Some(KeyResult::Handled(false))));

    editor.load_image("images/global/x.png");
    let r = editor.handle_key_event(KeyInput::ctrl(KeyCode::Char('p')), &mut clip, None);
    assert!(matches!(r, Some(KeyResult::ImageRemovalModal)));
}

#[test]
fn visual_cursor_position_accounts_for_wrapping() {
    let mut editor = TextEditor::new();
    let mut clip = String::new();
    editor.set_wrap_width(10);
    type_str(&mut editor, &mut clip, "abcdefghijklmnopqrstuvwxy");

    assert_eq!(editor.cursor_position(), (0, 25));
    assert_eq!(editor.visual_cursor_position(40, 10), Some((5, 2)));

    let again = editor.visual_cursor_position(40, 10);
    assert_eq!(again, Some((5, 2)));

    assert_eq!(editor.visual_cursor_position(40, 2), None);
}

#[test]
fn visual_up_and_down_move_within_wrapped_line() {
    let mut editor = TextEditor::new();
    let mut clip = String::new();
    editor.set_wrap_width(10);
    type_str(&mut editor, &mut clip, "abcdefghijklmnopqrstuvwxy");

    editor.move_cursor(CursorMove::Jump(0, 12));
    editor.move_cursor(CursorMove::VisualUp);
    assert_eq!(editor.cursor_position(), (0, 2));
    editor.move_cursor(CursorMove::VisualDown);
    assert_eq!(editor.cursor_position(), (0, 12));
}

#[test]
fn mouse_click_sets_cursor_and_anchor() {
    let mut editor = TextEditor::new();
    let mut clip = String::new();
    editor.set_area(Rect { x: 0, y: 0, width: 50, height: 10 });
    type_str(&mut editor, &mut clip, "Short\nMedium length line");

    let handled = editor.handle_mouse_event(MouseInput {
        kind: MouseKind::Down,
        column: 3,
        row: 2,
    });
    assert!(handled);
    assert_eq!(editor.cursor_position(), (1, 2));

    let handled = editor.handle_mouse_event(MouseInput {
        kind: MouseKind::Drag,
        column: 7,
        row: 2,
    });
    assert!(handled);
    assert_eq!(editor.cursor_position(), (1, 6));
    assert_eq!(editor.selected_text(), Some(String::from("dium")));

    let handled = editor.handle_mouse_event(MouseInput {
        kind: MouseKind::Up,
        column: 7,
        row: 2,
    });
    assert!(handled);
    assert_eq!(editor.selected_text(), Some(String::from("dium")));
}

#[test]
fn mouse_click_past_line_end_clamps_to_line_end() {
    let mut editor = TextEditor::new();
    let mut clip = String::new();
    editor.set_area(Rect { x: 0, y: 0, width: 50, height: 10 });
    type_str(&mut editor, &mut clip, "Short");

    let handled = editor.handle_mouse_event(MouseInput {
        kind: MouseKind::Down,
        column: 40,
        row: 1,
    });
    assert!(handled);
    assert_eq!(editor.cursor_position(), (0, 5));
}

#[test]
fn drag_without_press_is_not_handled() {
    let mut editor = TextEditor::new();
    editor.set_area(Rect { x: 0, y: 0, width: 50, height: 10 });

    let handled = editor.handle_mouse_event(MouseInput {
        kind: MouseKind::Drag,
        column: 5,
        row: 1,
    });
    assert!(!handled);
}

#[test]
fn set_text_preserves_content_verbatim() {
    let mut editor = TextEditor::new();
    editor.set_text_without_image_processing("alpha\nbeta\n");
    assert_eq!(editor.to_text(), "alpha\nbeta\n");
    let lines = editor.lines();
    assert_eq!(lines.len(), 3);
    assert_eq!(lines[2], "");
}

#[test]
fn clear_empties_buffer_and_drops_image() {
    let mut editor = TextEditor::new();
    let mut clip = String::new();
    type_str(&mut editor, &mut clip, "text");
    editor.load_image("images/global/pic.png");
    assert!(editor.has_image());

    editor.clear();
    assert_eq!(editor.to_text(), "");
    assert!(!editor.has_image());
    assert!(!editor.is_image_preview_visible());
}

#[test]
fn toggle_image_preview_needs_an_image() {
    let mut editor = TextEditor::new();
    assert!(editor.is_image_preview_visible());
    editor.toggle_image_preview();
    assert!(editor.is_image_preview_visible());

    editor.load_image("images/global/pic.png");
    assert!(editor.is_image_preview_visible());
    editor.toggle_image_preview();
    assert!(!editor.is_image_preview_visible());
}
