use rton_editor::document_actions::{
    HexJumpTarget, OpenFileStep, ValuePathStep, finish_open_loaded_file, located_hex_jump,
    located_text_jump,
    navigate_to_value_path, open_loaded_file_by_id, sync_output_encoding, toggle_active_tree_path,
};
use rton_editor::editor_tab::{
    EditorMode, EditorTabState, HexHistory, EncodeOptions, apply_text_surface,
};
use rton_editor::value_tree::ValueTreeState;
use rton_editor::text_history::TextHistory;
use rton_editor::workspace::LoadedFileState;

fn tab(id: usize, mode: EditorMode, text: &str, parsed: bool) -> EditorTabState {
    let mut tab = EditorTabState {
        id,
        file_name: format!("tab{id}"),
        source_encode_options: EncodeOptions { compact: false, encrypted: false },
        mode,
        editor_text: String::new(),
        text_buffer: None,
        text_history: TextHistory::default(),
        byte_doc: None,
        hex_history: HexHistory::default(),
        parsed,
        selected_path: "$".to_string(),
        tree: ValueTreeState { expanded_paths: Vec::new(), generation: 0 },
        rton_cache: None,
        text_cache: Vec::new(),
        task_generation: 0,
        task_state: None,
        dirty: false,
    };
    apply_text_surface(&mut tab, text.to_string());
    tab
}

fn file(id: usize, tab_id: Option<usize>) -> LoadedFileState {
    LoadedFileState {
        id,
        display_name: format!("file{id}.json"),
        size: 1,
        tab_id,
    }
}

#[test]
fn opening_a_file_activates_its_tab_or_reserves_a_new_one() {
    let mut tabs = vec![tab(3, EditorMode::Json, "{}", true)];
    tabs[0].source_encode_options = EncodeOptions { compact: true, encrypted: true };
    let files = vec![file(10, Some(3)), file(11, None), file(12, Some(9))];
    let mut next = 4;
    let mut active = 0;
    let (mut compact, mut encrypt) = (false, false);
    assert_eq!(
        open_loaded_file_by_id(10, &files, &tabs, &mut next, &mut active, &mut compact, &mut encrypt),
        OpenFileStep::Activated(3)
    );
    assert_eq!((next, active), (4, 3));
    assert_eq!((compact, encrypt), (true, true));
    let (mut compact, mut encrypt) = (false, true);
    assert_eq!(
        open_loaded_file_by_id(11, &files, &tabs, &mut next, &mut active, &mut compact, &mut encrypt),
        OpenFileStep::Create(4)
    );
    assert_eq!((next, active), (5, 3));
    assert_eq!((compact, encrypt), (false, true));
    // A link to a tab that is gone opens a new tab.
    assert_eq!(
        open_loaded_file_by_id(12, &files, &tabs, &mut next, &mut active, &mut compact, &mut encrypt),
        OpenFileStep::Create(5)
    );
    assert_eq!(
        open_loaded_file_by_id(99, &files, &tabs, &mut next, &mut active, &mut compact, &mut encrypt),
        OpenFileStep::Missing
    );
    assert_eq!(next, 6);
}

#[test]
fn finishing_an_open_links_and_activates_the_tab() {
    let mut tabs = vec![tab(3, EditorMode::Json, "{}", true)];
    let mut files = vec![file(10, None), file(11, None)];
    let mut active = 3;
    let mut opened = tab(4, EditorMode::Yaml, "a: 1", false);
    opened.source_encode_options = EncodeOptions { compact: true, encrypted: false };
    let (mut compact, mut encrypt) = (false, true);
    finish_open_loaded_file(11, opened, &mut files, &mut tabs, &mut active, &mut compact, &mut encrypt);
    assert_eq!((compact, encrypt), (true, false));
    assert_eq!(tabs.len(), 2);
    assert_eq!(tabs[1].id, 4);
    assert_eq!(files[0].tab_id, None);
    assert_eq!(files[1].tab_id, Some(4));
    assert_eq!(active, 4);
}

#[test]
fn value_paths_are_located_in_text_or_bytes() {
    let mut tabs = vec![
        tab(1, EditorMode::Json, "{\n\"a\": 1\n}\n", true),
        tab(2, EditorMode::Json, "{}", false),
        tab(3, EditorMode::RtonHex, "", true),
        tab(4, EditorMode::RtonHex, "", true),
    ];
    tabs[3].byte_doc = Some(vec![0x52, 0x54]);
    let mut next = 7;

    assert_eq!(
        navigate_to_value_path("$.a".to_string(), &mut tabs, 1, &mut next),
        ValuePathStep::LocateText { jump_id: 7, line_count: 4 }
    );
    assert_eq!(tabs[0].selected_path, "$.a");
    assert_eq!(next, 8);

    assert_eq!(navigate_to_value_path("$".to_string(), &mut tabs, 2, &mut next), ValuePathStep::NoParsedDocument);
    assert_eq!(navigate_to_value_path("$".to_string(), &mut tabs, 3, &mut next), ValuePathStep::NoJumpBytes);
    assert_eq!(
        navigate_to_value_path("$.b".to_string(), &mut tabs, 4, &mut next),
        ValuePathStep::LocateOffset
    );
    assert_eq!(tabs[3].selected_path, "$.b");
    assert_eq!(next, 8);
    let hex = located_hex_jump(&mut next, 0x2a);
    assert_eq!(hex, HexJumpTarget { id: 8, offset: 0x2a });
    assert_eq!(navigate_to_value_path("$".to_string(), &mut tabs, 9, &mut next), ValuePathStep::NoActiveTab);
    assert_eq!(next, 9);
    let mut last = u64::MAX;
    assert_eq!(located_hex_jump(&mut last, 1).id, u64::MAX);
    assert_eq!(last, u64::MAX);

    let jump = located_text_jump(8, 2, 1, 4);
    assert_eq!((jump.line, jump.column, jump.selection_end_column, jump.focus), (2, 1, 1, true));
}

#[test]
fn tree_paths_toggle_and_advance_the_generation() {
    let mut tabs = vec![tab(1, EditorMode::Json, "{}", true), tab(2, EditorMode::Json, "{}", false)];
    tabs[0].tree = ValueTreeState { expanded_paths: vec!["$".to_string()], generation: 4 };
    assert_eq!(toggle_active_tree_path("$.a".to_string(), &mut tabs, 1), Some(5));
    assert_eq!(tabs[0].tree.expanded_paths, vec!["$".to_string(), "$.a".to_string()]);
    assert_eq!(toggle_active_tree_path("$".to_string(), &mut tabs, 1), Some(6));
    assert_eq!(tabs[0].tree.expanded_paths, vec!["$.a".to_string()]);
    assert_eq!(tabs[0].tree.generation, 6);
    // Toggling a path twice leaves the expanded paths as they were.
    toggle_active_tree_path("$.b".to_string(), &mut tabs, 1);
    toggle_active_tree_path("$.b".to_string(), &mut tabs, 1);
    assert_eq!(tabs[0].tree.expanded_paths, vec!["$.a".to_string()]);
    assert_eq!(tabs[0].tree.generation, 8);
    // Without a parsed document there are no rows to rebuild.
    assert_eq!(toggle_active_tree_path("$".to_string(), &mut tabs, 2), None);
    assert_eq!(tabs[1].tree.expanded_paths, vec!["$".to_string()]);
    assert_eq!(toggle_active_tree_path("$".to_string(), &mut tabs, 9), None);
    tabs[0].tree.generation = u64::MAX;
    assert_eq!(toggle_active_tree_path("$.a".to_string(), &mut tabs, 1), Some(u64::MAX));
    assert!(tabs[0].tree.expanded_paths.is_empty());
}

#[test]
fn output_switches_follow_the_source_encode_options() {
    let (mut compact, mut encrypt) = (true, false);
    sync_output_encoding(EncodeOptions { compact: false, encrypted: true }, &mut compact, &mut encrypt);
    assert_eq!((compact, encrypt), (false, true));
}
