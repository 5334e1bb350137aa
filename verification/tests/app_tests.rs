use stream2blog::app::App;
use stream2blog::input::{KeyCode, KeyInput};
use stream2blog::models::{Entry, Thread};
use stream2blog::state::{AppState, Request};
use stream2blog::input::{MouseInput, MouseKind};

fn entry(id: &str, content: &str, order_num: i32, image_path: Option<&str>) -> Entry {
    Entry {
        id: id.to_string(),
        content: content.to_string(),
        order_num,
        image_path: image_path.map(|p| p.to_string()),
        thread_id: None,
        inserted_at: "2024-01-01T00:00:00Z".to_string(),
        updated_at: "2024-01-01T00:00:00Z".to_string(),
    }
}

fn thread(id: &str, title: &str, entries: Vec<Entry>) -> Thread {
    Thread {
        id: id.to_string(),
        title: title.to_string(),
        inserted_at: "2024-01-01T00:00:00Z".to_string(),
        updated_at: "2024-01-01T00:00:00Z".to_string(),
        entries,
    }
}

fn type_text(app: &mut App, text: &str) {
    for ch in text.chars() {
        let key = if ch == '\n' {
            KeyInput::plain(KeyCode::Enter)
        } else {
            KeyInput::plain(KeyCode::Char(ch))
        };
        app.handle_key_event(key, None);
    }
}

#[test]
fn save_at_exactly_the_limit_dispatches_one_request() {
    let mut app = App::new();
    app.state = AppState::CreateEntry("t1".to_string());
    app.current_thread = Some(thread("t1", "T", vec![]));
    type_text(&mut app, &"a".repeat(500));

    let requests = app.handle_save_operation();
    assert_eq!(requests.len(), 1);
    match &requests[0] {
        Request::CreateEntry { thread_id, content, order_num, image_path } => {
            assert_eq!(thread_id, "t1");
            assert_eq!(content.len(), 500);
            assert_eq!(*order_num, 1);
            assert!(image_path.is_none());
        }
        other => panic!("unexpected request {:?}", other),
    }
    assert!(matches!(app.state, AppState::CreateEntry(_)));
}

#[test]
fn save_over_the_limit_raises_the_modal_with_zero_requests() {
    let mut app = App::new();
    app.state = AppState::CreateEntry("t1".to_string());
    app.current_thread = Some(thread("t1", "T", vec![]));
    type_text(&mut app, &"a".repeat(501));

    let requests = app.handle_save_operation();
    assert_eq!(requests.len(), 0);
    match &app.state {
        AppState::CharacterLimitError(prev) => {
            assert!(matches!(**prev, AppState::CreateEntry(_)));
        }
        other => panic!("unexpected state {:?}", other),
    }
}

#[test]
fn save_blank_content_is_a_no_op() {
    let mut app = App::new();
    app.state = AppState::CreateThread;
    type_text(&mut app, "   ");
    let requests = app.handle_save_operation();
    assert_eq!(requests.len(), 0);
    assert!(matches!(app.state, AppState::CreateThread));
}

#[test]
fn three_records_swap_only_the_moved_pair() {
    let mut app = App::new();
    let t = thread("t1", "T", vec![
        entry("e1", "one", 1, None),
        entry("e2", "two", 2, None),
        entry("e3", "three", 3, None),
    ]);
    app.current_thread = Some(t);
    app.selected_entry_index = 2;

    let requests = app.move_entry_up("t1");
    assert_eq!(requests.len(), 1);
    match &requests[0] {
        Request::ReorderEntries(tid, list) => {
            assert_eq!(tid, "t1");
            assert_eq!(list.len(), 3);
            assert_eq!(list[0].id, "e1");
            assert_eq!(list[0].order_num, 1);
            assert_eq!(list[1].id, "e2");
            assert_eq!(list[1].order_num, 3);
            assert_eq!(list[2].id, "e3");
            assert_eq!(list[2].order_num, 2);
        }
        other => panic!("unexpected request {:?}", other),
    }
}

#[test]
fn move_up_at_the_top_does_nothing() {
    let mut app = App::new();
    app.current_thread = Some(thread("t1", "T", vec![entry("e1", "one", 1, None)]));
    app.selected_entry_index = 0;
    let requests = app.move_entry_up("t1");
    assert_eq!(requests.len(), 0);
}

#[test]
fn escape_after_undo_to_identical_content_returns_directly() {
    let mut app = App::new();
    app.state = AppState::EditEntry("t1".to_string(), "e1".to_string());
    app.text_editor.set_text_without_image_processing("Draft");
    app.original_entry_content = Some("Draft".to_string());

    type_text(&mut app, "x");
    app.handle_key_event(KeyInput::ctrl(KeyCode::Char('z')), None);
    assert_eq!(app.text_editor.to_text(), "Draft");

    app.handle_key_event(KeyInput::plain(KeyCode::Esc), None);
    match &app.state {
        AppState::ThreadView(tid) => assert_eq!(tid, "t1"),
        other => panic!("unexpected state {:?}", other),
    }
}

#[test]
fn escape_with_different_content_always_asks() {
    let mut app = App::new();
    app.state = AppState::EditEntry("t1".to_string(), "e1".to_string());
    app.text_editor.set_text_without_image_processing("Draft");
    app.original_entry_content = Some("Draft".to_string());

    type_text(&mut app, "x");
    app.handle_key_event(KeyInput::plain(KeyCode::Esc), None);
    match &app.state {
        AppState::ConfirmDiscardEntryChanges(tid, eid) => {
            assert_eq!(tid, "t1");
            assert_eq!(eid, "e1");
        }
        other => panic!("unexpected state {:?}", other),
    }
    assert_eq!(app.text_editor.to_text(), "Draftx");
}

#[test]
fn confirmation_modals_ignore_everything_but_yes_and_no() {
    let mut app = App::new();
    app.state = AppState::ConfirmDeleteThread("t1".to_string());

    let requests = app.handle_key_event(KeyInput::plain(KeyCode::Char('x')), None);
    assert_eq!(requests.len(), 0);
    assert!(matches!(app.state, AppState::ConfirmDeleteThread(_)));

    let requests = app.handle_key_event(KeyInput::plain(KeyCode::Char('y')), None);
    assert_eq!(requests.len(), 1);
    match &requests[0] {
        Request::DeleteThread(tid) => assert_eq!(tid, "t1"),
        other => panic!("unexpected request {:?}", other),
    }
    assert!(matches!(app.state, AppState::ThreadList));
}

#[test]
fn confirm_delete_entry_cancel_returns_to_view() {
    let mut app = App::new();
    app.state = AppState::ConfirmDeleteEntry("t1".to_string(), "e1".to_string());
    let requests = app.handle_key_event(KeyInput::plain(KeyCode::Esc), None);
    assert_eq!(requests.len(), 0);
    match &app.state {
        AppState::ThreadView(tid) => assert_eq!(tid, "t1"),
        other => panic!("unexpected state {:?}", other),
    }
}

#[test]
fn character_limit_modal_returns_to_previous_mode() {
    let mut app = App::new();
    app.state = AppState::CharacterLimitError(Box::new(AppState::CreateThread));
    app.handle_key_event(KeyInput::plain(KeyCode::Char('z')), None);
    assert!(matches!(app.state, AppState::CharacterLimitError(_)));
    app.handle_key_event(KeyInput::plain(KeyCode::Enter), None);
    assert!(matches!(app.state, AppState::CreateThread));
}

#[test]
fn create_thread_then_first_entry_end_to_end() {
    let mut app = App::new();

    app.handle_key_event(KeyInput::plain(KeyCode::Char('n')), None);
    assert!(matches!(app.state, AppState::CreateThread));

    type_text(&mut app, "Test");
    let requests = app.handle_key_event(KeyInput::plain(KeyCode::Enter), None);
    assert_eq!(requests.len(), 1);
    match &requests[0] {
        Request::CreateThread(title) => assert_eq!(title, "Test"),
        other => panic!("unexpected request {:?}", other),
    }

    let followups = app.on_thread_created("t1");
    match &app.state {
        AppState::CreateEntry(tid) => assert_eq!(tid, "t1"),
        other => panic!("unexpected state {:?}", other),
    }
    assert_eq!(followups.len(), 3);
    assert!(matches!(followups[0], Request::LoadThreads));
    assert!(matches!(followups[2], Request::Backup));

    app.on_threads_loaded(vec![thread("t1", "Test", vec![])]);
    app.on_thread_loaded(thread("t1", "Test", vec![]));

    type_text(&mut app, "Hello");
    let requests = app.handle_key_event(KeyInput::ctrl(KeyCode::Char('s')), None);
    assert_eq!(requests.len(), 1);
    match &requests[0] {
        Request::CreateEntry { thread_id, content, order_num, image_path } => {
            assert_eq!(thread_id, "t1");
            assert_eq!(content, "Hello");
            assert_eq!(*order_num, 1);
            assert!(image_path.is_none());
        }
        other => panic!("unexpected request {:?}", other),
    }

    app.on_entry_created("t1");
    match &app.state {
        AppState::ThreadView(tid) => assert_eq!(tid, "t1"),
        other => panic!("unexpected state {:?}", other),
    }

    app.on_thread_loaded(thread("t1", "Test", vec![entry("e1", "Hello", 1, None)]));
    let t = app.current_thread.as_ref().unwrap();
    assert_eq!(t.entries.len(), 1);
    assert_eq!(t.entries[0].content, "Hello");
    assert_eq!(t.entries[0].order_num, 1);
    assert_eq!(app.selected_entry_index, 0);
}

fn png_bytes(width: u32, height: u32) -> Vec<u8> {
    let img = image::DynamicImage::new_rgb8(width, height);
    let mut bytes: Vec<u8> = Vec::new();
    img.write_to(&mut std::io::Cursor::new(&mut bytes), image::ImageFormat::Png)
        .unwrap();
    bytes
}

#[test]
fn attach_clipboard_image_end_to_end() {
    let mut app = App::new();
    app.state = AppState::EditEntry("t1".to_string(), "e1".to_string());
    app.text_editor.set_text_without_image_processing("Draft");
    app.original_entry_content = Some("Draft".to_string());

    let payload = png_bytes(4, 4);
    app.handle_key_event(KeyInput::ctrl(KeyCode::Char('p')), Some(payload.clone()));
    match &app.state {
        AppState::ImageNaming(prev, data) => {
            assert!(matches!(**prev, AppState::EditEntry(_, _)));
            assert_eq!(*data, payload);
        }
        other => panic!("unexpected state {:?}", other),
    }

    type_text(&mut app, "pic");
    let requests = app.handle_key_event(KeyInput::plain(KeyCode::Enter), None);
    assert_eq!(requests.len(), 1);
    let path = match &requests[0] {
        Request::SaveImage { bytes, filename, thread_id, entry_id } => {
            assert_eq!(*bytes, payload);
            assert_eq!(filename, "pic");
            assert_eq!(thread_id.as_deref(), Some("t1"));
            assert_eq!(entry_id.as_deref(), Some("e1"));
            stream2blog::text_util::image_storage_path(
                filename,
                thread_id.as_ref(),
                entry_id.as_ref(),
            )
        }
        other => panic!("unexpected request {:?}", other),
    };
    assert_eq!(path, "images/threads/t1/e1/pic.png");

    app.on_image_saved(&path);
    assert!(matches!(app.state, AppState::EditEntry(_, _)));
    assert_eq!(app.text_editor.to_text(), "Draft");
    assert_eq!(app.current_entry_image_path.as_deref(), Some(path.as_str()));
    assert!(app.text_editor.has_image());

    let reloaded = thread("t1", "Test", vec![entry("e1", "Draft", 1, Some(&path))]);
    let warm = app.on_thread_loaded(reloaded);
    assert_eq!(warm.len(), 1);
    assert_eq!(warm[0].0, "e1");
    assert_eq!(warm[0].1, path);

    assert!(app.warm_thumbnail("e1", &payload));
    assert!(app.has_thumbnail("e1"));
}

#[test]
fn image_naming_cancellation_restores_text_and_saves_nothing() {
    let mut app = App::new();
    app.state = AppState::CreateEntry("t1".to_string());
    type_text(&mut app, "Draft");

    app.handle_key_event(KeyInput::ctrl(KeyCode::Char('p')), Some(vec![9u8, 9, 9]));
    assert!(matches!(app.state, AppState::ImageNaming(_, _)));

    type_text(&mut app, "name");
    let requests = app.handle_key_event(KeyInput::plain(KeyCode::Esc), None);
    assert_eq!(requests.len(), 0);
    match &app.state {
        AppState::CreateEntry(tid) => assert_eq!(tid, "t1"),
        other => panic!("unexpected state {:?}", other),
    }
    assert_eq!(app.text_editor.to_text(), "Draft");
    assert!(app.current_entry_image_path.is_none());
}

#[test]
fn thumbnail_cache_is_immutable_and_clearable() {
    let mut app = App::new();
    let small = png_bytes(4, 4);
    assert!(app.warm_thumbnail("e1", &small));
    assert!(app.warm_thumbnail("e1", &small));
    assert!(app.has_thumbnail("e1"));
    assert_eq!(app.entry_thumbnails.len(), 1);
    assert_eq!(app.entry_thumbnails[0].1.width, 4);
    assert_eq!(app.entry_thumbnails[0].1.height, 4);

    let undecodable = vec![0u8, 1, 2, 3];
    assert!(!app.warm_thumbnail("e2", &undecodable));
    assert!(!app.has_thumbnail("e2"));

    app.clear_entry_thumbnails();
    assert!(!app.has_thumbnail("e1"));
}

#[test]
fn large_images_are_downscaled_into_the_limit() {
    let mut app = App::new();
    let big = png_bytes(1024, 256);
    assert!(app.warm_thumbnail("e1", &big));
    let preview = &app.entry_thumbnails[0].1;
    assert!(preview.width <= 512);
    assert!(preview.height <= 512);
    assert!(preview.width >= 1 && preview.height >= 1);
}

#[test]
fn threads_load_failure_degrades_to_empty_list() {
    let mut app = App::new();
    app.on_threads_loaded(vec![thread("t1", "A", vec![]), thread("t2", "B", vec![])]);
    app.selected_thread_index = 1;
    app.on_threads_load_failed();
    assert_eq!(app.threads.len(), 0);
    assert_eq!(app.selected_thread_index, 0);
}

#[test]
fn thread_list_navigation_and_delete_confirmation() {
    let mut app = App::new();
    app.on_threads_loaded(vec![thread("t1", "A", vec![]), thread("t2", "B", vec![])]);

    app.handle_key_event(KeyInput::plain(KeyCode::Down), None);
    assert_eq!(app.selected_thread_index, 1);
    app.handle_key_event(KeyInput::plain(KeyCode::Down), None);
    assert_eq!(app.selected_thread_index, 1);
    app.handle_key_event(KeyInput::plain(KeyCode::Up), None);
    assert_eq!(app.selected_thread_index, 0);

    app.handle_key_event(KeyInput::plain(KeyCode::Backspace), None);
    match &app.state {
        AppState::ConfirmDeleteThread(tid) => assert_eq!(tid, "t1"),
        other => panic!("unexpected state {:?}", other),
    }
}

#[test]
fn rename_seeds_the_editor_with_the_current_title() {
    let mut app = App::new();
    app.on_threads_loaded(vec![thread("t1", "Original Title", vec![])]);
    app.handle_key_event(KeyInput::plain(KeyCode::Char('r')), None);
    match &app.state {
        AppState::EditThread(tid) => assert_eq!(tid, "t1"),
        other => panic!("unexpected state {:?}", other),
    }
    assert_eq!(app.text_editor.to_text(), "Original Title");

    app.text_editor.set_text_without_image_processing("Updated Title");
    let requests = app.handle_key_event(KeyInput::ctrl(KeyCode::Char('s')), None);
    assert_eq!(requests.len(), 1);
    match &requests[0] {
        Request::UpdateThread(tid, title) => {
            assert_eq!(tid, "t1");
            assert_eq!(title, "Updated Title");
        }
        other => panic!("unexpected request {:?}", other),
    }
}

#[test]
fn entry_editing_seeds_content_verbatim() {
    let mut app = App::new();
    let t = thread("t1", "T", vec![entry("e1", "First entry", 1, None)]);
    app.current_thread = Some(t);
    app.state = AppState::ThreadView("t1".to_string());
    app.selected_entry_index = 0;

    app.handle_key_event(KeyInput::plain(KeyCode::Enter), None);
    match &app.state {
        AppState::EditEntry(tid, eid) => {
            assert_eq!(tid, "t1");
            assert_eq!(eid, "e1");
        }
        other => panic!("unexpected state {:?}", other),
    }
    assert_eq!(app.text_editor.to_text(), "First entry");
    assert_eq!(app.text_editor.cursor_position(), (0, 0));
    assert_eq!(app.original_entry_content.as_deref(), Some("First entry"));
}

#[test]
fn update_entry_request_keeps_the_order_number() {
    let mut app = App::new();
    let t = thread("t1", "T", vec![
        entry("e1", "one", 1, None),
        entry("e2", "two", 2, None),
    ]);
    app.current_thread = Some(t);
    app.state = AppState::EditEntry("t1".to_string(), "e2".to_string());
    type_text(&mut app, "two edited");

    let requests = app.handle_save_operation();
    assert_eq!(requests.len(), 1);
    match &requests[0] {
        Request::UpdateEntry { entry_id, content, order_num, image_path } => {
            assert_eq!(entry_id, "e2");
            assert_eq!(content, "two edited");
            assert_eq!(*order_num, 2);
            assert!(image_path.is_none());
        }
        other => panic!("unexpected request {:?}", other),
    }
}

#[test]
fn export_and_datestamp_requests() {
    let mut app = App::new();
    app.state = AppState::ThreadView("t1".to_string());
    let requests = app.handle_key_event(KeyInput::plain(KeyCode::Char('x')), None);
    assert_eq!(requests.len(), 1);
    match &requests[0] {
        Request::ExportThread(tid) => assert_eq!(tid, "t1"),
        other => panic!("unexpected request {:?}", other),
    }

    let mut app = App::new();
    let requests = app.handle_key_event(KeyInput::plain(KeyCode::Char('d')), None);
    assert_eq!(requests.len(), 1);
    match &requests[0] {
        Request::CreateThread(title) => {
            assert!(title.len() >= 14);
            assert!(title.chars().all(|c| c.is_ascii_digit()));
        }
        other => panic!("unexpected request {:?}", other),
    }
}

#[test]
fn selection_follows_a_created_thread_through_the_reload() {
    let mut app = App::new();
    app.on_threads_loaded(vec![thread("t1", "A", vec![]), thread("t2", "B", vec![])]);
    app.state = AppState::CreateThread;
    type_text(&mut app, "C");
    app.handle_key_event(KeyInput::plain(KeyCode::Enter), None);

    app.on_thread_created("t3");
    app.on_threads_loaded(vec![
        thread("t1", "A", vec![]),
        thread("t2", "B", vec![]),
        thread("t3", "C", vec![]),
    ]);
    assert_eq!(app.selected_thread_index, 2);
    assert!(app.pending_thread_selection.is_none());
}

#[test]
fn cancellation_operations_preserve_state() {
    let mut app = App::new();
    app.on_threads_loaded(vec![thread("t1", "My Thread", vec![])]);

    app.handle_key_event(KeyInput::plain(KeyCode::Char('n')), None);
    assert!(matches!(app.state, AppState::CreateThread));
    type_text(&mut app, "My Thread");

    app.handle_key_event(KeyInput::plain(KeyCode::Esc), None);
    assert!(matches!(app.state, AppState::ThreadList));
    assert_eq!(app.text_editor.to_text(), "");
    assert_eq!(app.threads.len(), 1);
    assert_eq!(app.threads[0].title, "My Thread");
}

#[test]
fn discard_new_entry_keeps_content_until_confirmed() {
    let mut app = App::new();
    app.state = AppState::CreateEntry("t1".to_string());
    type_text(&mut app, "draft content");

    app.handle_key_event(KeyInput::plain(KeyCode::Esc), None);
    assert!(matches!(app.state, AppState::ConfirmDiscardNewEntry(_)));
    assert_eq!(app.text_editor.to_text(), "draft content");

    app.handle_key_event(KeyInput::plain(KeyCode::Char('n')), None);
    assert!(matches!(app.state, AppState::CreateEntry(_)));
    assert_eq!(app.text_editor.to_text(), "draft content");

    app.handle_key_event(KeyInput::plain(KeyCode::Esc), None);
    app.handle_key_event(KeyInput::plain(KeyCode::Char('y')), None);
    assert!(matches!(app.state, AppState::ThreadView(_)));
    assert_eq!(app.text_editor.to_text(), "");
}

#[test]
fn reorder_chord_goes_through_the_dispatcher() {
    let mut app = App::new();
    app.state = AppState::ThreadView("t1".to_string());
    app.current_thread = Some(thread("t1", "T", vec![
        entry("e1", "one", 1, None),
        entry("e2", "two", 2, None),
    ]));
    app.selected_entry_index = 0;

    let key = KeyInput {
        code: KeyCode::Down,
        ctrl: true,
        shift: true,
        alt: false,
        super_key: false,
    };
    let requests = app.handle_key_event(key, None);
    assert_eq!(requests.len(), 1);
    match &requests[0] {
        Request::ReorderEntries(tid, list) => {
            assert_eq!(tid, "t1");
            assert_eq!(list[0].order_num, 2);
            assert_eq!(list[1].order_num, 1);
        }
        other => panic!("unexpected request {:?}", other),
    }

    let reordered = thread("t1", "T", vec![
        entry("e2", "two", 1, None),
        entry("e1", "one", 2, None),
    ]);
    app.on_entries_reordered(reordered);
    assert_eq!(app.selected_entry_index, 1);
    let t = app.current_thread.as_ref().unwrap();
    assert_eq!(t.entries[0].id, "e2");
}

#[test]
fn leaving_thread_view_clears_the_thumbnail_cache() {
    let mut app = App::new();
    app.state = AppState::ThreadView("t1".to_string());
    let payload = png_bytes(4, 4);
    assert!(app.warm_thumbnail("e1", &payload));

    app.handle_key_event(KeyInput::plain(KeyCode::Esc), None);
    assert!(matches!(app.state, AppState::ThreadList));
    assert!(!app.has_thumbnail("e1"));
    assert!(app.current_thread.is_none());
}

#[test]
fn scroll_is_throttled_by_a_minimum_interval() {
    let mut app = App::new();
    app.on_threads_loaded(vec![
        thread("t1", "A", vec![]),
        thread("t2", "B", vec![]),
        thread("t3", "C", vec![]),
    ]);
    let wheel = MouseInput { kind: MouseKind::ScrollDown, column: 0, row: 0 };

    app.handle_mouse(wheel, 1_000);
    assert_eq!(app.selected_thread_index, 1);
    app.handle_mouse(wheel, 1_050);
    assert_eq!(app.selected_thread_index, 1);
    app.handle_mouse(wheel, 1_200);
    assert_eq!(app.selected_thread_index, 2);
}
