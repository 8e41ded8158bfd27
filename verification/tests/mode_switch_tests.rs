use rton_editor::editing::update_active_text;
use rton_editor::editor_tab::{
    EditorMode, EditorTabState, EncodeOptions, HexHistory, RtonSurfaceCache, TabTaskState,
    apply_text_surface,
};
use rton_editor::mode_switch::{
    ModeSwitchStep, TabSurface, abandon_tab_task, cache_current_surface, cached_mode_surface,
    ParseTask, finish_mode_switch, finish_parse, parse_needed, parse_task_is_current, start_parse,
    start_rton_refresh, switch_active_mode, task_is_current, update_compact_output,
};
use rton_editor::text_buffer::TextBuffer;
use rton_editor::text_history::TextHistory;
use rton_editor::value_tree::ValueTreeState;

const STANDARD: EncodeOptions = EncodeOptions { compact: false, encrypted: false };
const COMPACT: EncodeOptions = EncodeOptions { compact: true, encrypted: false };

fn json_tab(id: usize, text: &str) -> EditorTabState {
    let mut tab = EditorTabState {
        id,
        file_name: "sample.json".to_string(),
        source_encode_options: STANDARD,
        mode: EditorMode::Json,
        editor_text: String::new(),
        text_buffer: None,
        text_history: TextHistory::default(),
        byte_doc: None,
        hex_history: HexHistory::default(),
        parsed: true,
        selected_path: "$".to_string(),
        tree: ValueTreeState { expanded_paths: Vec::new(), generation: 0 },
        rton_cache: None,
        text_cache: Vec::new(),
        task_generation: 0,
        task_state: None,
        dirty: false,
    };
    apply_text_surface(&mut tab, text.to_string());
    tab
}

#[test]
fn rton_surface_cache_restores_only_matching_encoding() {
    let mut tab = json_tab(1, r#"{"value":1}"#);
    tab.mode = EditorMode::RtonHex;
    tab.byte_doc = Some(b"RTON".to_vec());
    tab.editor_text = String::new();
    tab.text_buffer = None;

    cache_current_surface(&mut tab, STANDARD);

    let restored = cached_mode_surface(&tab, EditorMode::RtonHex, STANDARD).expect("standard RTON cache");
    assert_eq!(restored.byte_doc.expect("cached bytes"), b"RTON");

    assert!(cached_mode_surface(&tab, EditorMode::RtonHex, COMPACT).is_none());
}

#[test]
fn switching_modes_keeps_each_surface_to_come_back_to() {
    let mut tabs = vec![json_tab(1, "{\"a\":1}")];
    tabs[0].rton_cache = Some(RtonSurfaceCache { encode_options: STANDARD, byte_doc: b"RTON".to_vec() });

    assert_eq!(switch_active_mode(EditorMode::RtonHex, STANDARD, &mut tabs, 1), ModeSwitchStep::Cached);
    assert_eq!(tabs[0].mode, EditorMode::RtonHex);
    assert_eq!(tabs[0].byte_doc.as_deref(), Some(&b"RTON"[..]));
    assert_eq!(tabs[0].editor_text, "");
    assert!(tabs[0].text_buffer.is_none());
    assert_eq!(tabs[0].task_generation, 1);
    assert_eq!(tabs[0].text_cache.len(), 1);
    assert_eq!(tabs[0].text_cache[0].mode, EditorMode::Json);

    assert_eq!(switch_active_mode(EditorMode::RtonHex, STANDARD, &mut tabs, 1), ModeSwitchStep::Unchanged);
    assert_eq!(switch_active_mode(EditorMode::Json, STANDARD, &mut tabs, 1), ModeSwitchStep::Cached);
    assert_eq!(tabs[0].editor_text, "{\"a\":1}");
    assert_eq!(tabs[0].text_buffer.as_ref().map(|b| b.line_count()), Some(1));
    assert!(tabs[0].byte_doc.is_none());
    assert_eq!(tabs[0].task_generation, 2);

    // No YAML text was kept: the switch waits for a conversion.
    assert_eq!(
        switch_active_mode(EditorMode::Yaml, STANDARD, &mut tabs, 1),
        ModeSwitchStep::Started { task_id: 3 }
    );
    assert_eq!(tabs[0].mode, EditorMode::Json);
    assert_eq!(tabs[0].task_state, Some(TabTaskState { id: 3, target_mode: EditorMode::Yaml }));

    // Bytes kept under other options are not reused.
    assert_eq!(
        switch_active_mode(EditorMode::RtonHex, COMPACT, &mut tabs, 1),
        ModeSwitchStep::Started { task_id: 4 }
    );
    assert_eq!(switch_active_mode(EditorMode::Json, STANDARD, &mut tabs, 9), ModeSwitchStep::NoActiveTab);
}

#[test]
fn an_unparsed_tab_keeps_no_surface_to_switch_to() {
    let mut tab = json_tab(1, "{}");
    tab.rton_cache = Some(RtonSurfaceCache { encode_options: STANDARD, byte_doc: b"RTON".to_vec() });
    tab.parsed = false;
    assert!(cached_mode_surface(&tab, EditorMode::RtonHex, STANDARD).is_none());
}

#[test]
fn an_edit_drops_the_text_kept_for_other_modes() {
    let mut tabs = vec![json_tab(1, "{}")];
    assert_eq!(
        switch_active_mode(EditorMode::Yaml, STANDARD, &mut tabs, 1),
        ModeSwitchStep::Started { task_id: 1 }
    );
    assert_eq!(tabs[0].text_cache.len(), 1);
    update_active_text("{\"b\":2}".to_string(), &mut tabs, 1);
    assert!(tabs[0].text_cache.is_empty());
    assert!(tabs[0].task_state.is_none());
    assert_eq!(tabs[0].task_generation, 1);
}

#[test]
fn a_conversion_lands_only_on_the_switch_that_waits_for_it() {
    let mut tabs = vec![json_tab(1, "{\"a\":1}")];
    tabs[0].dirty = true;
    assert_eq!(
        switch_active_mode(EditorMode::Yaml, STANDARD, &mut tabs, 1),
        ModeSwitchStep::Started { task_id: 1 }
    );
    assert!(task_is_current(&tabs, 1, 1));
    assert!(!task_is_current(&tabs, 1, 2));

    let yaml = "a: 1\n".to_string();
    let surface = TabSurface {
        byte_doc: None,
        editor_text: yaml.clone(),
        text_buffer: Some(TextBuffer::new(yaml.clone())),
    };
    let stale = TabSurface {
        byte_doc: None,
        editor_text: yaml.clone(),
        text_buffer: Some(TextBuffer::new(yaml.clone())),
    };
    let tree = ValueTreeState { expanded_paths: vec!["$".to_string()], generation: 0 };
    assert!(!finish_mode_switch(&mut tabs, 1, 7, EditorMode::Yaml, stale, false, tree.clone(), "$".to_string()));
    assert_eq!(tabs[0].mode, EditorMode::Json);

    assert!(finish_mode_switch(&mut tabs, 1, 1, EditorMode::Yaml, surface, true, tree.clone(), "$".to_string()));
    assert_eq!(tabs[0].mode, EditorMode::Yaml);
    assert_eq!(tabs[0].editor_text, yaml);
    assert!(tabs[0].task_state.is_none());
    assert!(tabs[0].parsed);
    assert!(tabs[0].dirty);
    assert_eq!(tabs[0].selected_path, "$");
    assert_eq!(tabs[0].tree, tree);
    let modes: Vec<EditorMode> = tabs[0].text_cache.iter().map(|c| c.mode).collect();
    assert_eq!(modes, vec![EditorMode::Json, EditorMode::Yaml]);

    assert_eq!(
        switch_active_mode(EditorMode::Toml, STANDARD, &mut tabs, 1),
        ModeSwitchStep::Started { task_id: 2 }
    );
    assert!(!abandon_tab_task(&mut tabs, 1, 1));
    assert!(abandon_tab_task(&mut tabs, 1, 2));
    assert!(tabs[0].task_state.is_none());
    assert_eq!(tabs[0].mode, EditorMode::Yaml);
}

#[test]
fn a_new_encoding_of_the_bytes_keeps_the_selection() {
    let mut tabs = vec![json_tab(1, "{}"), json_tab(2, "{}")];
    tabs[1].mode = EditorMode::RtonHex;
    tabs[1].editor_text = String::new();
    tabs[1].text_buffer = None;
    tabs[1].byte_doc = Some(b"RTON".to_vec());
    tabs[1].selected_path = "$.a".to_string();
    tabs[1].task_generation = 4;

    assert!(start_rton_refresh(&mut tabs, 1).is_none());
    assert!(start_rton_refresh(&mut tabs, 3).is_none());
    let refresh = start_rton_refresh(&mut tabs, 2).expect("refresh");
    assert_eq!((refresh.tab_id, refresh.task_id, refresh.selected_path.as_str()), (2, 5, "$.a"));
    assert_eq!(tabs[1].task_state, Some(TabTaskState { id: 5, target_mode: EditorMode::RtonHex }));

    let surface = TabSurface { byte_doc: Some(b"RTON2".to_vec()), editor_text: String::new(), text_buffer: None };
    let tree = ValueTreeState { expanded_paths: Vec::new(), generation: 0 };
    assert!(finish_mode_switch(&mut tabs, 2, 5, EditorMode::RtonHex, surface, false, tree, refresh.selected_path));
    assert_eq!(tabs[1].selected_path, "$.a");
    assert_eq!(tabs[1].byte_doc.as_deref(), Some(&b"RTON2"[..]));

    let mut compact = false;
    assert_eq!(update_compact_output(false, &mut compact), None);
    assert_eq!(update_compact_output(true, &mut compact), Some(COMPACT));
    assert!(compact);
}

#[test]
fn parse_results_land_only_on_the_task_that_started_them() {
    let mut tabs = vec![json_tab(1, "{}")];
    tabs[0].parsed = false;
    assert!(parse_needed(&tabs, 1));
    assert!(!parse_needed(&tabs, 2));

    let background = start_parse(&mut tabs, 1, false).expect("parse task");
    assert_eq!(background, ParseTask { tab_id: 1, task_id: 1, was_dirty: false, foreground: false });
    assert!(tabs[0].task_state.is_none());
    assert!(parse_task_is_current(&tabs, background));

    let foreground = start_parse(&mut tabs, 1, true).expect("parse task");
    assert_eq!(foreground.task_id, 2);
    assert_eq!(tabs[0].task_state, Some(TabTaskState { id: 2, target_mode: EditorMode::Json }));
    assert!(!parse_task_is_current(&tabs, background));
    assert!(parse_task_is_current(&tabs, foreground));

    let tree = ValueTreeState { expanded_paths: vec!["$".to_string()], generation: 0 };
    finish_parse(&mut tabs, 1, tree.clone());
    assert!(tabs[0].parsed);
    assert!(tabs[0].task_state.is_none());
    assert_eq!(tabs[0].tree, tree);
    assert!(!parse_needed(&tabs, 1));
    assert!(start_parse(&mut tabs, 9, true).is_none());
}
