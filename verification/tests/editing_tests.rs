use rton_editor::editor_tab::{
    EditorMode, EditorTabState, HexHistory, EncodeOptions, apply_text_surface, tab_can_redo, tab_can_undo,
    redo_text_tab, undo_text_tab,
};
use rton_editor::value_tree::ValueTreeState;
use rton_editor::range_edit::{
    TextRangeReplacement, text_with_replaced_range, text_with_replaced_range_and_history,
};
use rton_editor::text_buffer::TextBuffer;
use rton_editor::text_history::{TextHistory, push_text_undo_range};

#[test]
fn virtual_text_range_delete_crosses_lines() {
    let buffer = TextBuffer::new("one\ntwo\nthree".to_string());
    let replacement = TextRangeReplacement {
        start_line: 0,
        start_column_utf16: 1,
        end_line: 2,
        end_column_utf16: 2,
        replacement: String::new(),
    };

    assert_eq!(
        text_with_replaced_range(&buffer, &replacement).as_deref(),
        Some("oree")
    );
}

#[test]
fn virtual_text_range_delete_preserves_utf8_boundaries() {
    let buffer = TextBuffer::new("a😀b\n中文c".to_string());
    let replacement = TextRangeReplacement {
        start_line: 0,
        start_column_utf16: 1,
        end_line: 1,
        end_column_utf16: 2,
        replacement: String::new(),
    };

    assert_eq!(
        text_with_replaced_range(&buffer, &replacement).as_deref(),
        Some("ac")
    );
}

#[test]
fn virtual_text_range_history_undo_redo_restores_single_line_edit() {
    let buffer = TextBuffer::new("one\ntwo\nthree".to_string());
    let replacement = TextRangeReplacement {
        start_line: 1,
        start_column_utf16: 1,
        end_line: 1,
        end_column_utf16: 2,
        replacement: "W".to_string(),
    };

    let outcome =
        text_with_replaced_range_and_history(&buffer, &replacement).expect("range edit outcome");
    assert_eq!(outcome.next_text, "one\ntWo\nthree");

    let undo_buffer = TextBuffer::new(outcome.next_text.clone());
    assert_eq!(
        text_with_replaced_range(&undo_buffer, &outcome.history.undo).as_deref(),
        Some("one\ntwo\nthree")
    );

    let redo_buffer = TextBuffer::new("one\ntwo\nthree".to_string());
    assert_eq!(
        text_with_replaced_range(&redo_buffer, &outcome.history.redo).as_deref(),
        Some("one\ntWo\nthree")
    );
}

#[test]
fn undo_restores_an_edit_that_starts_inside_an_astral_character() {
    // Column 1 lies inside the first emoji; deleting up to column 3 removes it.
    let text = "\u{1F600}\u{1F601}";
    let replacement = TextRangeReplacement {
        start_line: 0,
        start_column_utf16: 1,
        end_line: 0,
        end_column_utf16: 3,
        replacement: String::new(),
    };
    let outcome = text_with_replaced_range_and_history(&TextBuffer::new(text.to_string()), &replacement)
        .expect("range edit outcome");
    assert_eq!(outcome.next_text, "\u{1F601}");
    let undo_buffer = TextBuffer::new(outcome.next_text.clone());
    assert_eq!(text_with_replaced_range(&undo_buffer, &outcome.history.undo).as_deref(), Some(text));

    // Typing a BMP character there moves the undo's start off the edit.
    let typed = TextRangeReplacement {
        start_line: 0,
        start_column_utf16: 1,
        end_line: 0,
        end_column_utf16: 1,
        replacement: "xy".to_string(),
    };
    let outcome = text_with_replaced_range_and_history(&TextBuffer::new(text.to_string()), &typed)
        .expect("range edit outcome");
    assert_eq!(outcome.next_text, "xy\u{1F600}\u{1F601}");
    let undo_buffer = TextBuffer::new(outcome.next_text.clone());
    assert_ne!(text_with_replaced_range(&undo_buffer, &outcome.history.undo).as_deref(), Some(text));
}

#[test]
fn virtual_text_range_history_undo_redo_restores_multiline_insert() {
    let buffer = TextBuffer::new("a😀b\n中文c".to_string());
    let replacement = TextRangeReplacement {
        start_line: 0,
        start_column_utf16: 3,
        end_line: 0,
        end_column_utf16: 3,
        replacement: "X\nY😀".to_string(),
    };

    let outcome =
        text_with_replaced_range_and_history(&buffer, &replacement).expect("range edit outcome");
    assert_eq!(outcome.next_text, "a😀X\nY😀b\n中文c");
    assert_eq!(outcome.history.undo.start_line, 0);
    assert_eq!(outcome.history.undo.start_column_utf16, 3);
    assert_eq!(outcome.history.undo.end_line, 1);
    assert_eq!(outcome.history.undo.end_column_utf16, 3);

    let undo_buffer = TextBuffer::new(outcome.next_text.clone());
    assert_eq!(
        text_with_replaced_range(&undo_buffer, &outcome.history.undo).as_deref(),
        Some("a😀b\n中文c")
    );
}

#[test]
fn text_range_history_works_above_snapshot_limit() {
    let mut tab = EditorTabState {
        id: 1,
        file_name: "large.json".to_string(),
        source_encode_options: EncodeOptions { compact: false, encrypted: false },
        mode: EditorMode::Json,
        editor_text: format!("{}z", "x".repeat(1024 * 1024 + 1)),
        text_buffer: None,
        text_history: TextHistory::default(),
        byte_doc: None,
        hex_history: HexHistory::default(),
        parsed: false,
        selected_path: "$".to_string(),
        tree: ValueTreeState { expanded_paths: Vec::new(), generation: 0 },
        rton_cache: None,
        text_cache: Vec::new(),
        task_generation: 0,
        task_state: None,
        dirty: false,
    };
    let initial_text = tab.editor_text.clone();
    apply_text_surface(&mut tab, initial_text);
    let replacement = TextRangeReplacement {
        start_line: 0,
        start_column_utf16: 0,
        end_line: 0,
        end_column_utf16: 1,
        replacement: "y".to_string(),
    };
    let outcome =
        text_with_replaced_range_and_history(tab.text_buffer.as_ref().unwrap(), &replacement)
            .expect("range edit outcome");
    push_text_undo_range(&mut tab.text_history, outcome.history);
    apply_text_surface(&mut tab, outcome.next_text);

    assert!(tab_can_undo(&tab));
    undo_text_tab(&mut tab);
    assert!(tab.editor_text.starts_with('x'));
    assert!(tab_can_redo(&tab));
    redo_text_tab(&mut tab);
    assert!(tab.editor_text.starts_with('y'));
}
