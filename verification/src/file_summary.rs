//! What the file summary panel reports as the active file's input and output.
use vstd::prelude::*;

use crate::editor_tab::{EditorMode, mode_is_text};
use crate::text_metrics::{push_chars, str_chars};

verus! {

/// The measured size of a tab's RTON output, with the options it was
/// encoded with.
#[derive(Debug, Clone, Copy, PartialEq, Eq, Structural)]
pub struct RtonOutputSize {
    pub tab_id: usize,
    pub compact: bool,
    pub encrypted: bool,
    pub byte_count: usize,
}

/// What the summary shows as the active file's input.
#[derive(Debug, Clone, Copy, PartialEq, Eq, Structural)]
pub enum FileInputSummary {
    /// No file is active.
    NoActiveFile,
    /// The file's bytes, this many.
    Bytes(usize),
    /// The file was opened as text.
    TextInput,
    /// Nothing was produced yet.
    NotGenerated,
}

/// The active file's input: its bytes when it has a byte document, else
/// text when it has text.
pub fn file_input_summary(
    has_active_file: bool,
    byte_len: Option<usize>,
    text_byte_count: Option<usize>,
) -> (r: FileInputSummary)
    ensures
        r == if !has_active_file {
            FileInputSummary::NoActiveFile
        } else if byte_len is Some {
            FileInputSummary::Bytes(byte_len->0)
        } else if text_byte_count is Some {
            FileInputSummary::TextInput
        } else {
            FileInputSummary::NotGenerated
        },
{
    if !has_active_file {
        return FileInputSummary::NoActiveFile;
    }
    if let Some(len) = byte_len {
        return FileInputSummary::Bytes(len);
    }
    if text_byte_count.is_some() {
        return FileInputSummary::TextInput;
    }
    FileInputSummary::NotGenerated
}

/// What the summary shows as the active file's output.
#[derive(Debug, Clone, Copy, PartialEq, Eq, Structural)]
pub enum FileOutputSummary {
    /// No file or no mode is active.
    NoOutput,
    /// Nothing was produced yet.
    NotGenerated,
    /// Encrypted RTON, with its size when it was measured for these options.
    EncryptedRton { byte_count: Option<usize>, compact: bool },
    /// Plain RTON of this many bytes.
    Rton { byte_count: usize, compact: bool },
    /// Text of this many bytes in this mode.
    Text { byte_count: usize, mode: EditorMode },
}

/// The active file's output. In the hex mode with encryption on, encrypted
/// RTON, sized when a measurement for this tab and these options exists;
/// without encryption, the byte document's size; in a text mode, the text's
/// size when it is not empty.
pub fn file_output_summary(
    has_active_file: bool,
    active_tab_id: Option<usize>,
    mode: Option<EditorMode>,
    byte_len: Option<usize>,
    text_byte_count: Option<usize>,
    compact: bool,
    encrypted: bool,
    rton_output_size: Option<RtonOutputSize>,
) -> (r: FileOutputSummary)
    ensures
        r == if !has_active_file || mode is None {
            FileOutputSummary::NoOutput
        } else if !mode_is_text(mode->0) {
            if encrypted {
                FileOutputSummary::EncryptedRton {
                    byte_count: match rton_output_size {
                        Some(size) if active_tab_id == Some(size.tab_id) && size.compact == compact
                            && size.encrypted == encrypted => Some(size.byte_count),
                        _ => None,
                    },
                    compact,
                }
            } else {
                match byte_len {
                    Some(len) => FileOutputSummary::Rton { byte_count: len, compact },
                    None => FileOutputSummary::NotGenerated,
                }
            }
        } else {
            match text_byte_count {
                Some(count) if count > 0 => FileOutputSummary::Text {
                    byte_count: count,
                    mode: mode->0,
                },
                _ => FileOutputSummary::NotGenerated,
            }
        },
{
    if !has_active_file {
        return FileOutputSummary::NoOutput;
    }
    match mode {
        None => FileOutputSummary::NoOutput,
        Some(EditorMode::RtonHex) => {
            if encrypted {
                let byte_count = match rton_output_size {
                    Some(size) => if active_tab_id == Some(size.tab_id) && size.compact == compact
                        && size.encrypted == encrypted {
                        Some(size.byte_count)
                    } else {
                        None
                    },
                    None => None,
                };
                FileOutputSummary::EncryptedRton { byte_count, compact }
            } else {
                match byte_len {
                    Some(len) => FileOutputSummary::Rton { byte_count: len, compact },
                    None => FileOutputSummary::NotGenerated,
                }
            }
        },
        Some(text_mode) => match text_byte_count {
            Some(count) => if count > 0 {
                FileOutputSummary::Text { byte_count: count, mode: text_mode }
            } else {
                FileOutputSummary::NotGenerated
            },
            None => FileOutputSummary::NotGenerated,
        },
    }
}

/// The name of an RTON encoding, followed by the label for encryption when
/// it is encrypted.
pub open spec fn encoding_summary(compact: bool, encrypted: bool, encrypted_label: Seq<char>) -> Seq<
    char,
> {
    let base = if compact {
        "Compact"@
    } else {
        "Standard"@
    };
    if encrypted {
        base + " · "@ + encrypted_label
    } else {
        base
    }
}

/// The RTON encoding as the summary names it.
pub fn rton_encoding_summary(compact: bool, encrypted: bool, encrypted_label: &str) -> (s: String)
    ensures
        s@ == encoding_summary(compact, encrypted, encrypted_label@),
{
    let base = if compact {
        "Compact"
    } else {
        "Standard"
    };
    let mut s = base.to_owned();
    if encrypted {
        let separator = str_chars(" · ");
        push_chars(&mut s, &separator, 0, separator.len());
        let label = str_chars(encrypted_label);
        push_chars(&mut s, &label, 0, label.len());
        proof {
            assert(separator@.subrange(0, separator@.len() as int) =~= " · "@);
            assert(label@.subrange(0, label@.len() as int) =~= encrypted_label@);
        }
    }
    s
}

} // verus!
