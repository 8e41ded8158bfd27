use rton_editor::editing::{
    redo_active_edit, undo_active_edit, update_active_hex_edits, update_active_text,
    update_active_text_range,
};
use rton_editor::editor_tab::{
    EditorMode, EditorTabState, HexEdit, HexHistory, EncodeOptions, apply_hex_edits, apply_text_surface,
    can_record_text_undo, edit_tab_hex, prepare_hex_edits, tab_can_redo, tab_can_undo,
};
use rton_editor::value_tree::ValueTreeState;
use rton_editor::range_edit::TextRangeReplacement;
use rton_editor::tab_actions::{
    TabDropMarker, activate_tab_by_id, active_tab_text, finish_tab_drag_state,
    remove_file_list_item_by_key, remove_file_list_items_by_keys, remove_tab_by_id,
    shown_tab_index, start_tab_drag_if_needed, text_line_count, update_selected_path,
    update_tab_drop_marker_for_drag,
};
use rton_editor::text_history::TextHistory;
use rton_editor::workspace::{
    BatchDocumentSource, BatchSourceError, DropPlacement, FileListKey, LoadedFileState,
    remove_tab_by_id_from_state, reorder_tabs_by_id_in_state, resolve_batch_export_source,
    tab_headers_for_tabs,
};

fn text_tab(id: usize, name: &str, text: &str) -> EditorTabState {
    let mut tab = EditorTabState {
        id,
        file_name: name.to_string(),
        source_encode_options: EncodeOptions { compact: false, encrypted: false },
        mode: EditorMode::Json,
        editor_text: String::new(),
        text_buffer: None,
        text_history: TextHistory::default(),
        byte_doc: None,
        hex_history: HexHistory::default(),
        parsed: true,
        selected_path: "$.a".to_string(),
        tree: ValueTreeState { expanded_paths: Vec::new(), generation: 0 },
        rton_cache: None,
        text_cache: Vec::new(),
        task_generation: 0,
        task_state: None,
        dirty: false,
    };
    apply_text_surface(&mut tab, text.to_string());
    tab
}

fn hex_tab(id: usize, bytes: Vec<u8>) -> EditorTabState {
    EditorTabState {
        id,
        file_name: format!("file{id}.rton"),
        source_encode_options: EncodeOptions { compact: false, encrypted: false },
        mode: EditorMode::RtonHex,
        editor_text: String::new(),
        text_buffer: None,
        text_history: TextHistory::default(),
        byte_doc: Some(bytes),
        hex_history: HexHistory::default(),
        parsed: true,
        selected_path: "$".to_string(),
        tree: ValueTreeState { expanded_paths: Vec::new(), generation: 0 },
        rton_cache: None,
        text_cache: Vec::new(),
        task_generation: 0,
        task_state: None,
        dirty: false,
    }
}

fn ids(tabs: &[EditorTabState]) -> Vec<usize> {
    tabs.iter().map(|tab| tab.id).collect()
}

fn file(id: usize, name: &str, tab_id: Option<usize>) -> LoadedFileState {
    LoadedFileState {
        id,
        display_name: name.to_string(),
        size: 10,
        tab_id,
    }
}

#[test]
fn closing_the_active_tab_activates_its_neighbour() {
    let mut tabs = vec![text_tab(1, "a", ""), text_tab(2, "b", ""), text_tab(3, "c", "")];
    let mut active = 2;
    assert_eq!(remove_tab_by_id(2, &mut tabs, &mut active).as_deref(), Some("b"));
    assert_eq!(ids(&tabs), vec![1, 3]);
    assert_eq!(active, 3);

    assert_eq!(remove_tab_by_id(3, &mut tabs, &mut active).as_deref(), Some("c"));
    assert_eq!(active, 1);

    assert_eq!(remove_tab_by_id(7, &mut tabs, &mut active), None);
    assert_eq!(ids(&tabs), vec![1]);

    assert_eq!(remove_tab_by_id(1, &mut tabs, &mut active).as_deref(), Some("a"));
    assert!(tabs.is_empty());
    assert_eq!(active, 0);
}

#[test]
fn closing_an_inactive_tab_keeps_the_active_one() {
    let mut tabs = vec![text_tab(1, "a", ""), text_tab(2, "b", "")];
    let removed = remove_tab_by_id_from_state(&mut tabs, 2, 1).expect("closed");
    assert_eq!(removed.name, "a");
    assert_eq!(removed.next_active_id, None);
}

#[test]
fn removing_file_items_closes_their_tabs() {
    let mut files = vec![file(10, "one.json", Some(1)), file(11, "two.json", None), file(12, "", Some(2))];
    let mut tabs = vec![text_tab(1, "one.json", ""), text_tab(2, "unnamed", "")];
    let mut active = 1;

    assert_eq!(
        remove_file_list_item_by_key(FileListKey::File(10), &mut files, &mut tabs, &mut active).as_deref(),
        Some("one.json")
    );
    assert_eq!(files.iter().map(|f| f.id).collect::<Vec<_>>(), vec![11, 12]);
    assert_eq!(ids(&tabs), vec![2]);
    assert_eq!(active, 2);

    // A file without a name reports the name of the tab it closed.
    assert_eq!(
        remove_file_list_item_by_key(FileListKey::File(12), &mut files, &mut tabs, &mut active).as_deref(),
        Some("unnamed")
    );
    assert!(tabs.is_empty());

    assert_eq!(remove_file_list_item_by_key(FileListKey::File(99), &mut files, &mut tabs, &mut active), None);
    assert_eq!(remove_file_list_item_by_key(FileListKey::Unrecognized, &mut files, &mut tabs, &mut active), None);
    assert_eq!(files.len(), 1);
}

#[test]
fn removing_a_tab_item_unlinks_its_files() {
    let mut files = vec![file(10, "one.json", Some(5)), file(11, "two.json", Some(6))];
    let mut tabs = vec![text_tab(5, "one.json", ""), text_tab(6, "two.json", "")];
    let mut active = 6;
    assert_eq!(
        remove_file_list_item_by_key(FileListKey::Tab(5), &mut files, &mut tabs, &mut active).as_deref(),
        Some("one.json")
    );
    assert_eq!(files[0].tab_id, None);
    assert_eq!(files[1].tab_id, Some(6));
    assert_eq!(ids(&tabs), vec![6]);
    assert_eq!(active, 6);
}

#[test]
fn removing_several_items_counts_the_removed_ones() {
    let mut files = vec![file(10, "one.json", None), file(11, "two.json", None)];
    let mut tabs = vec![text_tab(1, "x", "")];
    let mut active = 1;
    let count = remove_file_list_items_by_keys(
        vec![FileListKey::File(10), FileListKey::Unrecognized, FileListKey::File(10), FileListKey::Tab(1)],
        &mut files,
        &mut tabs,
        &mut active,
    );
    assert_eq!(count, 2);
    assert_eq!(files.iter().map(|f| f.id).collect::<Vec<_>>(), vec![11]);
    assert!(tabs.is_empty());
}

#[test]
fn finishing_a_tab_drag_moves_the_tab_and_clears_the_drag() {
    let mut tabs = vec![text_tab(1, "a", ""), text_tab(2, "b", ""), text_tab(3, "c", "")];
    let mut dragged = Some(1);
    let mut marker = Some(TabDropMarker { id: 3, placement: DropPlacement::After });
    finish_tab_drag_state(&mut tabs, &mut dragged, &mut marker);
    assert_eq!(ids(&tabs), vec![2, 3, 1]);
    assert_eq!(dragged, None);
    assert_eq!(marker, None);

    let mut dragged = Some(1);
    let mut marker = None;
    finish_tab_drag_state(&mut tabs, &mut dragged, &mut marker);
    assert_eq!(ids(&tabs), vec![2, 3, 1]);
    assert_eq!(dragged, None);
}

#[test]
fn reordering_keeps_every_tab_once() {
    let mut tabs = vec![text_tab(1, "a", ""), text_tab(2, "b", ""), text_tab(3, "c", "")];
    reorder_tabs_by_id_in_state(&mut tabs, 3, 1, DropPlacement::Before);
    assert_eq!(ids(&tabs), vec![3, 1, 2]);
    reorder_tabs_by_id_in_state(&mut tabs, 3, 9, DropPlacement::After);
    assert_eq!(ids(&tabs), vec![3, 1, 2]);
    reorder_tabs_by_id_in_state(&mut tabs, 9, 1, DropPlacement::After);
    assert_eq!(ids(&tabs), vec![3, 1, 2]);
    let mut sorted = ids(&tabs);
    sorted.sort();
    assert_eq!(sorted, vec![1, 2, 3]);
}

#[test]
fn reordering_twice_is_reordering_once() {
    let mut tabs = vec![
        text_tab(1, "a", ""),
        text_tab(2, "b", ""),
        text_tab(3, "c", ""),
        text_tab(4, "d", ""),
    ];
    reorder_tabs_by_id_in_state(&mut tabs, 1, 3, DropPlacement::After);
    assert_eq!(ids(&tabs), vec![2, 3, 1, 4]);
    reorder_tabs_by_id_in_state(&mut tabs, 1, 3, DropPlacement::After);
    assert_eq!(ids(&tabs), vec![2, 3, 1, 4]);
    reorder_tabs_by_id_in_state(&mut tabs, 4, 2, DropPlacement::Before);
    assert_eq!(ids(&tabs), vec![4, 2, 3, 1]);
    reorder_tabs_by_id_in_state(&mut tabs, 4, 2, DropPlacement::Before);
    assert_eq!(ids(&tabs), vec![4, 2, 3, 1]);
}

#[test]
fn tab_headers_follow_the_tabs() {
    let tabs = vec![text_tab(1, "a.json", ""), hex_tab(2, vec![1])];
    let headers = tab_headers_for_tabs(&tabs);
    assert_eq!(headers.len(), 2);
    assert_eq!(headers[1].id, 2);
    assert_eq!(headers[1].mode, EditorMode::RtonHex);
    assert_eq!(headers[0].file_name, "a.json");
    assert!(headers.iter().all(|h| h.closeable));
}

#[test]
fn activating_a_tab_needs_the_tab() {
    let tabs = vec![text_tab(1, "a", ""), text_tab(2, "b", "")];
    let mut active = 1;
    assert!(activate_tab_by_id(2, &tabs, &mut active));
    assert_eq!(active, 2);
    assert!(!activate_tab_by_id(5, &tabs, &mut active));
    assert_eq!(active, 2);
}

#[test]
fn selected_path_changes_only_the_active_tab() {
    let mut tabs = vec![text_tab(1, "a", ""), text_tab(2, "b", "")];
    update_selected_path("$.items[0]".to_string(), &mut tabs, 2);
    assert_eq!(tabs[0].selected_path, "$.a");
    assert_eq!(tabs[1].selected_path, "$.items[0]");
}

#[test]
fn active_tab_text_is_only_for_text_modes() {
    let tabs = vec![text_tab(1, "a", "{}"), hex_tab(2, vec![0])];
    assert_eq!(active_tab_text(&tabs, 1).as_deref(), Some("{}"));
    assert_eq!(active_tab_text(&tabs, 2), None);
    assert_eq!(active_tab_text(&tabs, 3), None);
}

#[test]
fn text_line_count_ignores_a_final_line_break() {
    assert_eq!(text_line_count(""), 0);
    assert_eq!(text_line_count("a"), 1);
    assert_eq!(text_line_count("a\n"), 1);
    assert_eq!(text_line_count("a\nb"), 2);
    assert_eq!(text_line_count("\n\n"), 2);
    assert_eq!(text_line_count("中\n文\n"), 2);
}

#[test]
fn whole_text_edits_undo_and_redo_through_snapshots() {
    let mut tabs = vec![text_tab(1, "a", "old"), text_tab(2, "b", "other")];
    update_active_text("new".to_string(), &mut tabs, 1);
    assert_eq!(tabs[0].editor_text, "new");
    assert!(tabs[0].dirty);
    assert!(!tabs[0].parsed);
    assert_eq!(tabs[0].selected_path, "$.a");
    assert_eq!(tabs[1].editor_text, "other");
    assert!(tab_can_undo(&tabs[0]));

    undo_active_edit(&mut tabs, 1);
    assert_eq!(tabs[0].editor_text, "old");
    assert_eq!(tabs[0].selected_path, "$");
    assert!(tab_can_redo(&tabs[0]));

    redo_active_edit(&mut tabs, 1);
    assert_eq!(tabs[0].editor_text, "new");
    assert!(!tab_can_redo(&tabs[0]));

    // The same text changes nothing.
    update_active_text("new".to_string(), &mut tabs, 1);
    assert!(tab_can_undo(&tabs[0]));
}

#[test]
fn whole_text_edits_above_the_snapshot_limit_drop_the_history() {
    assert!(can_record_text_undo("a", "b"));
    let large = "x".repeat(1024 * 1024 + 1);
    assert!(!can_record_text_undo("a", &large));
    let mut tabs = vec![text_tab(1, "a", "old")];
    update_active_text("new".to_string(), &mut tabs, 1);
    update_active_text(large.clone(), &mut tabs, 1);
    assert_eq!(tabs[0].editor_text, large);
    assert!(!tab_can_undo(&tabs[0]));
}

#[test]
fn range_edits_undo_and_redo() {
    let mut tabs = vec![text_tab(1, "a", "one\ntwo")];
    let replacement = TextRangeReplacement {
        start_line: 1,
        start_column_utf16: 3,
        end_line: 0,
        end_column_utf16: 1,
        replacement: "X".to_string(),
    };
    update_active_text_range(replacement, &mut tabs, 1);
    assert_eq!(tabs[0].editor_text, "oX");
    assert_eq!(tabs[0].text_buffer.as_ref().map(|b| b.text().to_string()).as_deref(), Some("oX"));

    undo_active_edit(&mut tabs, 1);
    assert_eq!(tabs[0].editor_text, "one\ntwo");
    redo_active_edit(&mut tabs, 1);
    assert_eq!(tabs[0].editor_text, "oX");

    // A replacement that does not apply changes nothing.
    let past_end = TextRangeReplacement {
        start_line: 5,
        start_column_utf16: 0,
        end_line: 5,
        end_column_utf16: 0,
        replacement: "Z".to_string(),
    };
    update_active_text_range(past_end, &mut tabs, 1);
    assert_eq!(tabs[0].editor_text, "oX");
}

#[test]
fn hex_batches_keep_only_writes_inside_the_document() {
    let doc = vec![1u8, 2, 3];
    let batch = prepare_hex_edits(
        &doc,
        vec![HexEdit { offset: 1, value: 9 }, HexEdit { offset: 7, value: 9 }, HexEdit { offset: 1, value: 8 }],
    )
    .expect("writes inside");
    assert_eq!(batch.redo, vec![HexEdit { offset: 1, value: 9 }, HexEdit { offset: 1, value: 8 }]);
    assert_eq!(batch.undo, vec![HexEdit { offset: 1, value: 9 }, HexEdit { offset: 1, value: 2 }]);
    let edited = apply_hex_edits(&doc, &batch.redo);
    assert_eq!(edited, vec![1, 8, 3]);
    assert_eq!(apply_hex_edits(&edited, &batch.undo), doc);

    assert!(prepare_hex_edits(&doc, vec![HexEdit { offset: 3, value: 0 }]).is_none());
}

#[test]
fn hex_edits_undo_and_redo() {
    let mut tabs = vec![hex_tab(1, vec![0, 1, 2, 3])];
    update_active_hex_edits(vec![HexEdit { offset: 0, value: 7 }, HexEdit { offset: 3, value: 9 }], &mut tabs, 1);
    assert_eq!(tabs[0].byte_doc.as_deref(), Some(&[7u8, 1, 2, 9][..]));
    assert!(tabs[0].dirty);
    assert!(!tabs[0].parsed);
    assert!(tab_can_undo(&tabs[0]));

    undo_active_edit(&mut tabs, 1);
    assert_eq!(tabs[0].byte_doc.as_deref(), Some(&[0u8, 1, 2, 3][..]));
    assert!(!tab_can_undo(&tabs[0]));
    assert!(tab_can_redo(&tabs[0]));

    redo_active_edit(&mut tabs, 1);
    assert_eq!(tabs[0].byte_doc.as_deref(), Some(&[7u8, 1, 2, 9][..]));

    // Nothing to write, or nothing inside the document, changes nothing.
    update_active_hex_edits(Vec::new(), &mut tabs, 1);
    update_active_hex_edits(vec![HexEdit { offset: 10, value: 1 }], &mut tabs, 1);
    assert_eq!(tabs[0].byte_doc.as_deref(), Some(&[7u8, 1, 2, 9][..]));
}

#[test]
fn hex_edits_need_a_byte_document() {
    let mut tab = hex_tab(1, Vec::new());
    tab.byte_doc = None;
    edit_tab_hex(&mut tab, vec![HexEdit { offset: 0, value: 1 }]);
    assert!(tab.hex_history.past.is_empty());
    assert!(!tab.dirty);
}

#[test]
fn batch_sources_prefer_the_open_tab() {
    let tabs = vec![text_tab(4, "a", ""), text_tab(5, "b", "")];
    let files = vec![file(10, "one.json", Some(5)), file(11, "two.json", None)];
    assert_eq!(resolve_batch_export_source(Some(5), Some(10), &tabs, &files), Ok(BatchDocumentSource::Tab(1)));
    assert_eq!(resolve_batch_export_source(Some(9), Some(11), &tabs, &files), Ok(BatchDocumentSource::LoadedFile(1)));
    assert_eq!(resolve_batch_export_source(None, Some(12), &tabs, &files), Err(BatchSourceError::StaleFileListItem));
    assert_eq!(resolve_batch_export_source(Some(9), None, &tabs, &files), Err(BatchSourceError::NoExportValue));
}

#[test]
fn tab_drags_start_only_with_tabs_to_reorder() {
    let one = vec![text_tab(1, "a", "")];
    let mut dragged = None;
    let mut marker = Some(TabDropMarker { id: 1, placement: DropPlacement::Before });
    start_tab_drag_if_needed(1, &one, &mut dragged, &mut marker);
    assert_eq!(dragged, None);
    assert!(marker.is_some());

    let two = vec![text_tab(1, "a", ""), text_tab(2, "b", "")];
    start_tab_drag_if_needed(1, &two, &mut dragged, &mut marker);
    assert_eq!(dragged, Some(1));
    assert_eq!(marker, None);

    update_tab_drop_marker_for_drag(TabDropMarker { id: 1, placement: DropPlacement::After }, dragged, &mut marker);
    assert_eq!(marker, None);
    let onto_two = TabDropMarker { id: 2, placement: DropPlacement::After };
    update_tab_drop_marker_for_drag(onto_two, dragged, &mut marker);
    assert_eq!(marker, Some(onto_two));
    update_tab_drop_marker_for_drag(TabDropMarker { id: 2, placement: DropPlacement::Before }, None, &mut marker);
    assert_eq!(marker, Some(onto_two));
}

#[test]
fn the_shown_tab_falls_back_to_the_first() {
    let tabs = vec![text_tab(1, "a", ""), text_tab(2, "b", "")];
    assert_eq!(shown_tab_index(&tabs, 2), Some(1));
    assert_eq!(shown_tab_index(&tabs, 7), Some(0));
    assert_eq!(shown_tab_index(&Vec::new(), 1), None);
}
