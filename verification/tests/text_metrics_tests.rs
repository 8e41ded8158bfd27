use rton_editor::text_metrics::{virtual_text_byte_column_to_utf16, virtual_text_utf16_column_to_byte};

#[test]
fn byte_and_utf16_columns_round_trip_at_character_boundaries() {
    let text = "a中𐐷b";
    for byte in [0, 1, 4, 8, 9] {
        let utf16 = virtual_text_byte_column_to_utf16(text, byte);
        assert_eq!(virtual_text_utf16_column_to_byte(text, utf16), byte);
    }
}
