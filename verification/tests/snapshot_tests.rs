use rton_editor::editor_tab::EditorMode;
use rton_editor::file_summary::{
    FileInputSummary, FileOutputSummary, RtonOutputSize, file_input_summary, file_output_summary,
    rton_encoding_summary,
};
use rton_editor::range_edit::text_position_to_byte_offset;
use rton_editor::snapshot::{
    FilePanelEmptyMessage, FilePanelSubtitle, FingerprintField, file_panel_snapshot,
    loaded_files_fingerprint, loaded_files_fingerprint_fields,
};
use rton_editor::text_buffer::TextBuffer;
use rton_editor::virtual_text::{VirtualTextPoint, virtual_text_point_to_byte_offset};
use rton_editor::workspace::LoadedFileState;

fn file(id: usize, name: &str, size: u64, tab_id: Option<usize>) -> LoadedFileState {
    LoadedFileState {
        id,
        display_name: name.to_string(),
        size,
        tab_id,
    }
}

#[test]
fn file_panel_lists_matches_only_while_searching() {
    let matches = [true, false, true, false];
    let selected = [false, true, true, false];
    let idle = file_panel_snapshot(&matches, &selected, "  ");
    assert_eq!(idle.filtered_items, vec![0, 1, 2, 3]);
    assert_eq!(idle.empty_message, FilePanelEmptyMessage::NoFile);
    assert_eq!(idle.selected_count, 2);
    assert_eq!(idle.selected_visible_count, 2);
    assert_eq!(idle.subtitle, FilePanelSubtitle::SelectedCount { selected: 2, total: 4 });

    let searching = file_panel_snapshot(&matches, &selected, "json");
    assert_eq!(searching.filtered_items, vec![0, 2]);
    assert_eq!(searching.empty_message, FilePanelEmptyMessage::NoMatches);
    assert_eq!(searching.selected_count, 2);
    assert_eq!(searching.selected_visible_count, 1);
    assert_eq!(
        searching.subtitle,
        FilePanelSubtitle::MatchCount { visible: 2, total: 4, selected: 2 }
    );

    let empty = file_panel_snapshot(&[], &[], "");
    assert!(empty.filtered_items.is_empty());
    assert_eq!(empty.subtitle, FilePanelSubtitle::SelectedCount { selected: 0, total: 0 });
}

#[test]
fn fingerprints_follow_the_file_list() {
    let files = vec![file(1, "a.json", 10, None), file(2, "b.rton", 20, Some(4))];
    let same = vec![file(1, "a.json", 10, None), file(2, "b.rton", 20, Some(4))];
    assert_eq!(loaded_files_fingerprint(&files), loaded_files_fingerprint(&same));
    let renamed = vec![file(1, "a.json", 10, None), file(2, "c.rton", 20, Some(4))];
    assert_ne!(loaded_files_fingerprint(&files), loaded_files_fingerprint(&renamed));
    let unlinked = vec![file(1, "a.json", 10, None), file(2, "b.rton", 20, None)];
    assert_ne!(loaded_files_fingerprint(&files), loaded_files_fingerprint(&unlinked));
    assert_ne!(loaded_files_fingerprint(&files), loaded_files_fingerprint(&files[..1]));
}

#[test]
fn fingerprint_fields_list_each_file_in_order() {
    let files = vec![file(1, "a.json", 10, None), file(2, "b.rton", 20, Some(4))];
    assert_eq!(
        loaded_files_fingerprint_fields(&files),
        vec![
            FingerprintField::Count(2),
            FingerprintField::Id(1),
            FingerprintField::Name("a.json".to_string()),
            FingerprintField::Size(10),
            FingerprintField::TabLink(None),
            FingerprintField::Id(2),
            FingerprintField::Name("b.rton".to_string()),
            FingerprintField::Size(20),
            FingerprintField::TabLink(Some(4)),
        ]
    );
    assert_eq!(loaded_files_fingerprint_fields(&[]), vec![FingerprintField::Count(0)]);
}

#[test]
fn positions_map_to_byte_offsets() {
    let buffer = TextBuffer::new("a😀b\r\n中".to_string());
    assert_eq!(text_position_to_byte_offset(&buffer, 0, 0), Some(0));
    assert_eq!(text_position_to_byte_offset(&buffer, 0, 3), Some(5));
    // A column inside a surrogate pair stops at the character's start.
    assert_eq!(text_position_to_byte_offset(&buffer, 0, 2), Some(1));
    // Columns past the line's content stop before its "\r\n".
    assert_eq!(text_position_to_byte_offset(&buffer, 0, 99), Some(6));
    assert_eq!(text_position_to_byte_offset(&buffer, 1, 1), Some(11));
    assert_eq!(text_position_to_byte_offset(&buffer, 2, 0), None);

    let point = |line_index, column_utf16| VirtualTextPoint { line_index, column_utf16 };
    assert_eq!(virtual_text_point_to_byte_offset(&buffer, point(0, 4)), Some(6));
    // Points past the last line are kept inside the text.
    assert_eq!(virtual_text_point_to_byte_offset(&buffer, point(7, 7)), Some(11));
}

#[test]
fn input_summary_prefers_bytes_then_text() {
    assert_eq!(file_input_summary(false, Some(3), Some(2)), FileInputSummary::NoActiveFile);
    assert_eq!(file_input_summary(true, Some(3), Some(2)), FileInputSummary::Bytes(3));
    assert_eq!(file_input_summary(true, None, Some(0)), FileInputSummary::TextInput);
    assert_eq!(file_input_summary(true, None, None), FileInputSummary::NotGenerated);
}

#[test]
fn output_summary_follows_the_mode_and_the_measured_size() {
    let size = RtonOutputSize {
        tab_id: 3,
        compact: true,
        encrypted: true,
        byte_count: 120,
    };
    let hex = Some(EditorMode::RtonHex);
    assert_eq!(
        file_output_summary(true, Some(3), hex, Some(10), None, true, true, Some(size)),
        FileOutputSummary::EncryptedRton { byte_count: Some(120), compact: true }
    );
    assert_eq!(
        file_output_summary(true, Some(4), hex, Some(10), None, true, true, Some(size)),
        FileOutputSummary::EncryptedRton { byte_count: None, compact: true }
    );
    assert_eq!(
        file_output_summary(true, Some(3), hex, Some(10), None, false, true, Some(size)),
        FileOutputSummary::EncryptedRton { byte_count: None, compact: false }
    );
    assert_eq!(
        file_output_summary(true, Some(3), hex, Some(10), None, false, false, Some(size)),
        FileOutputSummary::Rton { byte_count: 10, compact: false }
    );
    assert_eq!(
        file_output_summary(true, Some(3), hex, None, None, false, false, None),
        FileOutputSummary::NotGenerated
    );
    assert_eq!(
        file_output_summary(true, Some(3), Some(EditorMode::Yaml), None, Some(7), false, false, None),
        FileOutputSummary::Text { byte_count: 7, mode: EditorMode::Yaml }
    );
    assert_eq!(
        file_output_summary(true, Some(3), Some(EditorMode::Json), None, Some(0), false, false, None),
        FileOutputSummary::NotGenerated
    );
    assert_eq!(
        file_output_summary(true, Some(3), None, None, Some(7), false, false, None),
        FileOutputSummary::NoOutput
    );
    assert_eq!(
        file_output_summary(false, Some(3), hex, Some(1), None, false, false, None),
        FileOutputSummary::NoOutput
    );
}

#[test]
fn encoding_summary_names_the_encoding() {
    assert_eq!(rton_encoding_summary(true, false, "Encrypted"), "Compact");
    assert_eq!(rton_encoding_summary(false, false, "Encrypted"), "Standard");
    assert_eq!(rton_encoding_summary(false, true, "Encrypted"), "Standard · Encrypted");
}
