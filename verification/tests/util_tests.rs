use stream2blog::geometry::{centered_rect_fixed_height, Rect};
use stream2blog::hit_test::{clicked_index, list_item_positions};
use stream2blog::text_util::{
    count_words, entry_preview_line, image_references, image_storage_path, remove_newlines,
    trim_chars,
};
use stream2blog::widgets::{
    CharCountBand, CharacterThresholds, ConfirmationDialog, ConfirmationType, ModalStyle,
    StatusBar,
};
use stream2blog::app::App;
use stream2blog::models::{
    ApiListResponse, ApiResponse, CreateEntry, CreateEntryRequest, CreateThread,
    CreateThreadRequest, Entry, ReorderEntriesRequest, ReorderEntry, Thread, UpdateEntry,
    UpdateEntryRequest, UpdateThread, UpdateThreadRequest,
};
use stream2blog::text_util::{get_first_lines, get_last_lines};

#[test]
fn item_rects_are_one_row_increasing_and_zero_outside() {
    let area = Rect { x: 2, y: 3, width: 30, height: 8 };
    // Visible window: 6 rows starting at scroll offset 2.
    let positions = list_item_positions(area, 2, 0, 10);
    assert_eq!(positions.len(), 10);

    for i in 0..2 {
        assert_eq!(positions[i], Rect { x: 0, y: 0, width: 0, height: 0 });
    }
    for i in 2..8 {
        let r = positions[i];
        assert_eq!(r.height, 1);
        assert_eq!(r.x, 3);
        assert_eq!(r.width, 28);
        assert_eq!(r.y as usize, 4 + (i - 2));
        if i > 2 {
            let prev = positions[i - 1];
            assert!(prev.y + prev.height <= r.y);
        }
    }
    for i in 8..10 {
        assert_eq!(positions[i], Rect { x: 0, y: 0, width: 0, height: 0 });
    }
}

#[test]
fn clicked_index_finds_the_first_containing_rect() {
    let area = Rect { x: 0, y: 0, width: 20, height: 10 };
    let positions = list_item_positions(area, 0, 0, 5);
    assert_eq!(clicked_index(&positions, 5, 1), Some(0));
    assert_eq!(clicked_index(&positions, 5, 3), Some(2));
    assert_eq!(clicked_index(&positions, 5, 9), None);
    assert_eq!(clicked_index(&positions, 19, 1), None);
}

#[test]
fn centered_rect_is_centered_and_clamped() {
    let r = Rect { x: 0, y: 0, width: 100, height: 30 };
    let popup = centered_rect_fixed_height(60, 7, r);
    assert_eq!(popup.width, 60);
    assert_eq!(popup.height, 7);
    assert_eq!(popup.x, 20);
    assert_eq!(popup.y, 11);

    let tiny = Rect { x: 0, y: 0, width: 10, height: 3 };
    let popup = centered_rect_fixed_height(100, 7, tiny);
    assert_eq!(popup.height, 3);
}

#[test]
fn word_counting_uses_whitespace_runs() {
    assert_eq!(count_words(&"".chars().collect()), 0);
    assert_eq!(count_words(&"  ".chars().collect()), 0);
    assert_eq!(count_words(&"one".chars().collect()), 1);
    assert_eq!(count_words(&"one  two\nthree".chars().collect()), 3);
}

#[test]
fn preview_cuts_at_newline_or_fifty_characters() {
    assert_eq!(entry_preview_line("short"), "short");
    assert_eq!(entry_preview_line("head\ntail"), "head...");
    let long = "x".repeat(60);
    assert_eq!(entry_preview_line(&long), format!("{}...", "x".repeat(50)));
    let long_first_line = format!("{}\nrest", "y".repeat(55));
    assert_eq!(
        entry_preview_line(&long_first_line),
        format!("{}...", "y".repeat(50))
    );
}

#[test]
fn storage_paths_are_scoped_by_context() {
    let t = "t1".to_string();
    let e = "e1".to_string();
    assert_eq!(
        image_storage_path("pic", Some(&t), Some(&e)),
        "images/threads/t1/e1/pic.png"
    );
    assert_eq!(
        image_storage_path("pic.png", Some(&t), None),
        "images/threads/t1/pic.png"
    );
    assert_eq!(image_storage_path("pic", None, None), "images/global/pic.png");
}

#[test]
fn image_references_finds_non_url_paths_in_order() {
    let refs = image_references("before ![](a.png) mid ![](http://x/y.png) ![](b.png)");
    assert_eq!(refs, vec!["a.png".to_string(), "b.png".to_string()]);

    let refs = image_references("no markers here");
    assert!(refs.is_empty());

    let refs = image_references("unclosed ![](never");
    assert!(refs.is_empty());
}

#[test]
fn trimming_and_newline_stripping() {
    let chars: Vec<char> = "  a b  ".chars().collect();
    let trimmed: String = trim_chars(&chars).into_iter().collect();
    assert_eq!(trimmed, "a b");

    let chars: Vec<char> = "pi\nc\n".chars().collect();
    let stripped: String = remove_newlines(&chars).into_iter().collect();
    assert_eq!(stripped, "pic");

    let blank: Vec<char> = "   ".chars().collect();
    assert!(trim_chars(&blank).is_empty());
}

#[test]
fn dialog_content_follows_the_type() {
    let d = ConfirmationDialog::new(ConfirmationType::DeleteThread);
    let c = d.content();
    assert_eq!(c.title, "Confirm Delete");
    assert_eq!(c.options, "[Y] Yes   [N] No   [Esc] Cancel");
    assert_eq!(c.height, 7);
    assert!(matches!(c.style, ModalStyle::Warning));

    let d = ConfirmationDialog::new(ConfirmationType::CharacterLimit);
    let c = d.content();
    assert_eq!(c.title, "Error");
    assert_eq!(c.options, "[Enter] OK");
    assert_eq!(c.height, 6);
    assert!(matches!(c.style, ModalStyle::Error));

    let d = ConfirmationDialog::new(ConfirmationType::DeleteEntry)
        .with_custom_message("Really?".to_string())
        .with_custom_options("[Y]/[N]".to_string());
    let c = d.content();
    assert_eq!(c.message, "Really?");
    assert_eq!(c.options, "[Y]/[N]");
}

#[test]
fn status_bar_bands_follow_the_thresholds() {
    let bar = StatusBar::new(100, 500, "Save".to_string());
    assert!(matches!(bar.count_band(), CharCountBand::Normal));

    let bar = StatusBar::new(301, 500, "Save".to_string());
    assert!(matches!(bar.count_band(), CharCountBand::Warning));

    let bar = StatusBar::new(351, 500, "Save".to_string());
    assert!(matches!(bar.count_band(), CharCountBand::Caution));

    let bar = StatusBar::new(401, 500, "Save".to_string());
    assert!(matches!(bar.count_band(), CharCountBand::Danger));

    let bar = StatusBar::new(501, 500, "Save".to_string());
    assert!(matches!(bar.count_band(), CharCountBand::OverLimit));

    let bar = StatusBar::new(450, 400, "Save".to_string()).with_thresholds(
        CharacterThresholds { warning: 100, caution: 200, danger: 460 },
    );
    assert!(matches!(bar.count_band(), CharCountBand::OverLimit));

    let bar = StatusBar::new(450, 500, "Save".to_string())
        .with_thresholds(CharacterThresholds { warning: 100, caution: 200, danger: 460 })
        .show_button(false);
    assert!(!bar.show_button);
    assert!(matches!(bar.count_band(), CharCountBand::Caution));
}

#[test]
fn context_line_helpers_cut_and_truncate() {
    assert_eq!(get_first_lines("a\nb\nc", 2), "a\nb");
    assert_eq!(get_first_lines("single", 2), "single");
    assert_eq!(get_last_lines("a\nb\nc", 2), "b\nc");
    assert_eq!(get_last_lines("single", 2), "single");

    let long = "z".repeat(150);
    let first = get_first_lines(&long, 2);
    assert_eq!(first, format!("{}...", "z".repeat(100)));
}

#[test]
fn thread_word_count_sums_entries() {
    let mk = |id: &str, content: &str| Entry {
        id: id.to_string(),
        content: content.to_string(),
        order_num: 1,
        image_path: None,
        thread_id: None,
        inserted_at: String::new(),
        updated_at: String::new(),
    };
    let thread = Thread {
        id: "t".to_string(),
        title: "T".to_string(),
        inserted_at: String::new(),
        updated_at: String::new(),
        entries: vec![mk("e1", "one two"), mk("e2", "three"), mk("e3", "")],
    };
    let app = App::new();
    let (total, count) = app.calculate_thread_word_count(&thread);
    assert_eq!(total, 3);
    assert_eq!(count, 3);
}

#[test]
fn request_envelopes_carry_their_payloads() {
    let create = CreateThreadRequest { thread: CreateThread { title: "New Thread".to_string() } };
    assert_eq!(create.thread.title, "New Thread");

    let update = UpdateThreadRequest { thread: UpdateThread { title: "Renamed".to_string() } };
    assert_eq!(update.thread.title, "Renamed");

    let entry = CreateEntryRequest {
        entry: CreateEntry {
            content: "New entry content".to_string(),
            order_num: 5,
            image_path: Some("images/global/test.png".to_string()),
            thread_id: "thread-123".to_string(),
        },
    };
    assert_eq!(entry.entry.order_num, 5);
    assert_eq!(entry.entry.thread_id, "thread-123");

    let upd = UpdateEntryRequest {
        entry: UpdateEntry { content: "x".to_string(), order_num: 2, image_path: None },
    };
    assert_eq!(upd.entry.order_num, 2);

    let reorder = ReorderEntriesRequest {
        entries: vec![ReorderEntry { id: "e1".to_string(), order_num: 2 }],
    };
    assert_eq!(reorder.entries[0].order_num, 2);

    let response = ApiResponse { data: 7u32 };
    assert_eq!(response.data, 7);
    let listed = ApiListResponse { data: vec![1u8, 2] };
    assert_eq!(listed.data.len(), 2);
}
