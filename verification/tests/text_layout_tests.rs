use rton_editor::text_buffer::TextBuffer;
use rton_editor::text_layout::{
    TEXT_MAX_VIRTUAL_SCROLL_HEIGHT, TEXT_ROW_HEIGHT, TextWrapLayout, WrappedTextScroll,
    line_for_logical_top, text_line_at, text_line_byte_len, text_wrap_chars_per_row,
    text_wrap_layout, text_wrap_width_bucket, wrapped_text_buffer_visible_lines,
    wrapped_text_content_height, wrapped_text_row_top, wrapped_text_scaled, wrapped_text_scroll,
};

#[test]
fn wrap_width_buckets_group_widths_by_character_column() {
    assert_eq!(text_wrap_width_bucket(220), text_wrap_width_bucket(225));
    assert_ne!(text_wrap_width_bucket(220), text_wrap_width_bucket(226));
    assert_eq!(text_wrap_chars_per_row(220), 14);
    assert_eq!(text_wrap_width_bucket(220), 14 * 8 + 76 + 30);
    assert_eq!(text_wrap_chars_per_row(0), 1);
}

#[test]
fn line_text_drops_the_line_break_and_one_carriage_return() {
    let buffer = TextBuffer::new("ab\r\nc中\r".to_string());
    assert_eq!(text_line_at(&buffer, 0).as_deref(), Some("ab"));
    assert_eq!(text_line_at(&buffer, 1).as_deref(), Some("c中"));
    assert_eq!(text_line_at(&buffer, 2), None);
    assert_eq!(text_line_byte_len(&buffer, 1), 4);
    assert_eq!(text_line_byte_len(&buffer, 2), 0);
}

#[test]
fn wrapped_lines_take_one_row_per_column_run() {
    let buffer = TextBuffer::new(format!("\n{}\n{}", "a".repeat(14), "b".repeat(15)));
    let layout = text_wrap_layout(&buffer, 220);
    assert_eq!(
        layout.line_heights,
        vec![TEXT_ROW_HEIGHT, TEXT_ROW_HEIGHT, 2 * TEXT_ROW_HEIGHT]
    );
    assert_eq!(layout.line_tops, vec![0, TEXT_ROW_HEIGHT, 2 * TEXT_ROW_HEIGHT]);
    assert_eq!(layout.logical_height, 4 * TEXT_ROW_HEIGHT);
}

#[test]
fn logical_tops_find_their_line() {
    let tops = [0, 20, 60, 80];
    assert_eq!(line_for_logical_top(&tops, 0), 0);
    assert_eq!(line_for_logical_top(&tops, 19), 0);
    assert_eq!(line_for_logical_top(&tops, 20), 1);
    assert_eq!(line_for_logical_top(&tops, 59), 1);
    assert_eq!(line_for_logical_top(&tops, 1000), 3);
    assert_eq!(line_for_logical_top(&[], 5), 0);
}

#[test]
fn scroll_rows_cover_the_viewport_and_the_overscan() {
    let layout = TextWrapLayout {
        line_tops: (0..100).map(|i| i * 20).collect(),
        line_heights: vec![20; 100],
        logical_height: 2000,
    };
    let scroll = wrapped_text_scroll(&layout, 1000, 1000, 200);
    assert_eq!(scroll.start_row, 42);
    assert_eq!(scroll.end_row, 69);
    assert_eq!(scroll.content_height, 2000);
    assert!(!scroll.scaled);
    assert_eq!(scroll.logical_scroll_top, 1000);

    let top = wrapped_text_scroll(&layout, 0, 0, 200);
    assert_eq!(top.start_row, 0);
    assert_eq!(top.end_row, 19);

    let bottom = wrapped_text_scroll(&layout, 1800, 1800, 200);
    assert_eq!(bottom.end_row, 100);

    let empty = TextWrapLayout {
        line_tops: Vec::new(),
        line_heights: Vec::new(),
        logical_height: 0,
    };
    let none = wrapped_text_scroll(&empty, 50, 50, 200);
    assert_eq!((none.start_row, none.end_row, none.logical_scroll_top), (0, 0, 0));
}

#[test]
fn tall_text_scrolls_through_a_scaled_area() {
    assert_eq!(wrapped_text_content_height(10), 10);
    assert_eq!(
        wrapped_text_content_height(TEXT_MAX_VIRTUAL_SCROLL_HEIGHT + 1),
        TEXT_MAX_VIRTUAL_SCROLL_HEIGHT
    );
    assert!(!wrapped_text_scaled(TEXT_MAX_VIRTUAL_SCROLL_HEIGHT));
    assert!(wrapped_text_scaled(TEXT_MAX_VIRTUAL_SCROLL_HEIGHT + 1));

    let scaled = WrappedTextScroll {
        content_height: 100,
        logical_scroll_top: 5000,
        display_scroll_top: 40,
        start_row: 0,
        end_row: 0,
        scaled: true,
    };
    assert_eq!(wrapped_text_row_top(5020, scaled), 60);
    assert_eq!(wrapped_text_row_top(0, scaled), 0);
    let plain = WrappedTextScroll { scaled: false, ..scaled };
    assert_eq!(wrapped_text_row_top(5020, plain), 5020);
    assert_eq!(wrapped_text_row_top(usize::MAX, plain), i64::MAX);
}

#[test]
fn visible_lines_are_those_of_the_scroll_rows() {
    let buffer = TextBuffer::new("a\nbb\nccc".to_string());
    let layout = text_wrap_layout(&buffer, 960);
    let scroll = WrappedTextScroll {
        content_height: layout.logical_height,
        logical_scroll_top: 0,
        display_scroll_top: 0,
        start_row: 1,
        end_row: 5,
        scaled: false,
    };
    let lines = wrapped_text_buffer_visible_lines(&buffer, &layout, scroll);
    assert_eq!(lines.len(), 2);
    assert_eq!(lines[0].line_index, 1);
    assert_eq!(lines[0].line_number, 2);
    assert_eq!(lines[0].line_text, "bb");
    assert_eq!(lines[0].top, TEXT_ROW_HEIGHT as i64);
    assert_eq!(lines[1].line_text, "ccc");
    assert_eq!(lines[1].height, TEXT_ROW_HEIGHT);
}
