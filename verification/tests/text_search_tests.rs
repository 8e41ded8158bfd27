use rton_editor::editor_tab::{
    EditorMode, EditorTabState, HexHistory, EncodeOptions, apply_text_surface,
};
use rton_editor::value_tree::ValueTreeState;
use rton_editor::snapshot::{
    EditorSearchResultSnapshot, TextSearchMatch, editor_search_snapshot,
    empty_editor_search_result_snapshot, empty_editor_search_snapshot, search_query_is_active,
    should_search_editor_text, shown_value_search_result,
};
use rton_editor::text_buffer::TextBuffer;
use rton_editor::text_history::TextHistory;
use rton_editor::text_search::{
    TextPosition, current_text_search_jump, go_to_next_text_match, go_to_previous_text_match,
    handle_text_find_key, handle_text_replace_key, next_text_search_index,
    offset_to_text_buffer_position, previous_text_search_index, replace_current_text_match,
    replace_text_span, request_text_search_focus,
};

fn text_tab(id: usize, text: &str) -> EditorTabState {
    let mut tab = EditorTabState {
        id,
        file_name: "doc.json".to_string(),
        source_encode_options: EncodeOptions { compact: false, encrypted: false },
        mode: EditorMode::Json,
        editor_text: String::new(),
        text_buffer: None,
        text_history: TextHistory::default(),
        byte_doc: None,
        hex_history: HexHistory::default(),
        parsed: true,
        selected_path: "$".to_string(),
        tree: ValueTreeState { expanded_paths: Vec::new(), generation: 0 },
        rton_cache: None,
        text_cache: Vec::new(),
        task_generation: 0,
        task_state: None,
        dirty: false,
    };
    apply_text_surface(&mut tab, text.to_string());
    tab
}

#[test]
fn byte_offsets_map_to_lines_and_byte_columns() {
    let buffer = TextBuffer::new("ab\n中x\n".to_string());
    assert_eq!(offset_to_text_buffer_position(&buffer, 0), TextPosition { line: 1, column: 0 });
    assert_eq!(offset_to_text_buffer_position(&buffer, 2), TextPosition { line: 1, column: 2 });
    assert_eq!(offset_to_text_buffer_position(&buffer, 3), TextPosition { line: 2, column: 0 });
    assert_eq!(offset_to_text_buffer_position(&buffer, 6), TextPosition { line: 2, column: 3 });
    assert_eq!(offset_to_text_buffer_position(&buffer, 8), TextPosition { line: 3, column: 0 });
    assert_eq!(offset_to_text_buffer_position(&buffer, 99), TextPosition { line: 3, column: 0 });
}

#[test]
fn search_jump_selects_the_match_on_its_line() {
    let buffer = TextBuffer::new("one\ntwo three\n".to_string());
    let matches = [
        TextSearchMatch { start: 4, end: 7 },
        TextSearchMatch { start: 8, end: 15 },
    ];
    let jump = current_text_search_jump(&buffer, &matches, 0, 3).expect("a match");
    assert_eq!((jump.line, jump.column, jump.selection_end_column), (2, 0, 3));
    assert_eq!(jump.line_count, 3);
    assert_eq!(jump.id, 3);
    assert!(jump.focus);

    // The index is capped at the last match, which ends on the next line.
    let jump = current_text_search_jump(&buffer, &matches, 9, 0).expect("a match");
    assert_eq!((jump.line, jump.column, jump.selection_end_column), (2, 4, 4));
    assert!(!jump.focus);

    assert!(current_text_search_jump(&buffer, &[], 0, 1).is_none());
}

#[test]
fn match_navigation_wraps_around() {
    assert_eq!(next_text_search_index(0, 3), 1);
    assert_eq!(next_text_search_index(2, 3), 0);
    assert_eq!(previous_text_search_index(0, 3), 2);
    assert_eq!(previous_text_search_index(2, 3), 1);
    assert_eq!(previous_text_search_index(7, 3), 2);

    let mut index = 1;
    go_to_next_text_match(2, &mut index);
    assert_eq!(index, 0);
    go_to_previous_text_match(2, &mut index);
    assert_eq!(index, 1);
    go_to_next_text_match(0, &mut index);
    assert_eq!(index, 1);

    let mut token = 4;
    request_text_search_focus(1, &mut token);
    assert_eq!(token, 5);
    request_text_search_focus(0, &mut token);
    assert_eq!(token, 5);
}

#[test]
fn find_keys_hide_the_panel_or_step_through_matches() {
    let mut visible = true;
    let mut index = 0;
    let outcome = handle_text_find_key("Enter", true, 3, &mut visible, &mut index);
    assert!(outcome.prevent_default && outcome.moved);
    assert_eq!(index, 2);
    let outcome = handle_text_find_key("Enter", false, 0, &mut visible, &mut index);
    assert!(!outcome.prevent_default && !outcome.moved);
    let outcome = handle_text_find_key("Escape", false, 3, &mut visible, &mut index);
    assert!(outcome.prevent_default && !outcome.moved);
    assert!(!visible);
    assert_eq!(index, 2);
}

#[test]
fn spans_are_replaced_on_character_boundaries_only() {
    assert_eq!(replace_text_span("a中b", 1, 4, "X"), "aXb");
    assert_eq!(replace_text_span("a中b", 1, 2, "X"), "a中b");
    assert_eq!(replace_text_span("a中b", 4, 1, "X"), "a中b");
    assert_eq!(replace_text_span("abc", 3, 3, "!"), "abc!");
    assert_eq!(replace_text_span("abc", 3, 9, "!"), "abc");
}

#[test]
fn replacing_the_current_match_edits_the_active_tab() {
    let mut tabs = vec![text_tab(1, "cat cat")];
    let matches = [TextSearchMatch { start: 0, end: 3 }, TextSearchMatch { start: 4, end: 7 }];
    let mut index = 5;
    replace_current_text_match(&matches, "dog", &mut tabs, 1, &mut index);
    assert_eq!(tabs[0].editor_text, "cat dog");
    assert_eq!(index, 1);

    let mut visible = true;
    let prevented = handle_text_replace_key("Enter", &matches[..1], "cow", &mut visible, &mut tabs, 1, &mut index);
    assert!(prevented);
    assert_eq!(tabs[0].editor_text, "cow dog");
    assert_eq!(index, 0);

    let prevented = handle_text_replace_key("Escape", &matches, "x", &mut visible, &mut tabs, 1, &mut index);
    assert!(prevented);
    assert!(!visible);
    assert_eq!(tabs[0].editor_text, "cow dog");

    let prevented = handle_text_replace_key("a", &matches, "x", &mut visible, &mut tabs, 1, &mut index);
    assert!(!prevented);
}

#[test]
fn search_snapshots_cap_the_current_index() {
    let result = EditorSearchResultSnapshot {
        matches: vec![TextSearchMatch { start: 0, end: 1 }, TextSearchMatch { start: 2, end: 3 }],
        capped: true,
    };
    let snapshot = editor_search_snapshot(&result, 7);
    assert_eq!(snapshot.matches, result.matches);
    assert_eq!(snapshot.match_count, 2);
    assert_eq!(snapshot.current_index, Some(1));
    assert!(snapshot.capped);
    assert!(!snapshot.controls_disabled);

    let empty = editor_search_snapshot(&empty_editor_search_result_snapshot(), 0);
    assert_eq!(empty.current_index, None);
    assert!(empty.matches.is_empty());
    assert!(empty.controls_disabled);
    assert_eq!(empty_editor_search_snapshot(), empty);

    assert!(search_query_is_active(" a "));
    assert!(!search_query_is_active(" \t\n"));
}

#[test]
fn searches_run_only_on_a_query() {
    assert_eq!(shown_value_search_result(" a", Some(3)), Some(3));
    assert_eq!(shown_value_search_result(" \t", Some(3)), None);
    assert!(should_search_editor_text(true, " "));
    assert!(!should_search_editor_text(true, ""));
    assert!(!should_search_editor_text(false, "a"));
}
