//! The editing core of an RTON editor's text and hex views and of its
//! workspace of tabs and loaded files, with contracts proved by Verus.
pub mod document_actions;
pub mod editing;
pub mod editor_tab;
pub mod editor_view;
pub mod file_summary;
pub mod mode_switch;
pub mod range_edit;
pub mod snapshot;
pub mod tab_actions;
pub mod text_buffer;
pub mod text_history;
pub mod text_layout;
pub mod text_lines;
pub mod text_metrics;
pub mod text_search;
pub mod value_tree;
pub mod virtual_text;
pub mod virtual_text_edit;
pub mod virtual_text_input;
pub mod workspace;
