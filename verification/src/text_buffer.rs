//! A text together with the start of each of its lines, in characters and in bytes.
use vstd::prelude::*;

use crate::text_lines::{
    content_end, lemma_line_shape, lemma_line_starts_increasing, line_content_end, line_count,
    line_display_end, line_full_end, line_shape_facts, line_start, line_starts, line_text,
};
use crate::text_metrics::{
    Encoding, char_utf8_width, fits_usize, lemma_text_width_take_le, lemma_text_width_take_mono,
    lemma_text_width_take_next, str_chars, string_from_chars, utf8_len,
};

verus! {

/// A text and its line index.
#[derive(Debug, PartialEq, Eq)]
pub struct TextBuffer {
    text: String,
    chars: Vec<char>,
    starts: Vec<usize>,
    line_offsets: Vec<usize>,
}

impl View for TextBuffer {
    type V = Seq<char>;

    closed spec fn view(&self) -> Seq<char> {
        self.text@
    }
}

/// The byte offset at which each line of `s` starts.
pub open spec fn line_byte_starts(s: Seq<char>) -> Seq<usize> {
    Seq::new(line_count(s), |j: int| utf8_len(s.take(line_start(s, j))) as usize)
}

impl TextBuffer {
    #[verifier::type_invariant]
    spec fn wf(self) -> bool {
        &&& self.chars@ == self.text@
        &&& fits_usize(self.text@)
        &&& self.starts@.len() == line_count(self.text@)
        &&& self.line_offsets@.len() == self.starts@.len()
        &&& forall|j: int|
            0 <= j < self.starts@.len() ==> #[trigger] self.starts@[j] == line_starts(self.text@)[j]
                && self.line_offsets@[j] == utf8_len(self.text@.take(self.starts@[j] as int))
    }

    /// Indexes the lines of `text`.
    pub fn new(text: String) -> (b: TextBuffer)
        ensures
            b@ == text@,
    {
        crate::text_metrics::str_fits(text.as_str());
        let chars = str_chars(text.as_str());
        let mut starts: Vec<usize> = Vec::new();
        starts.push(0);
        let mut offsets: Vec<usize> = Vec::new();
        offsets.push(0);
        let mut bytes: usize = 0;
        let mut i: usize = 0;
        proof {
            assert(chars@.take(0) =~= Seq::<char>::empty());
            assert(utf8_len(Seq::<char>::empty()) == 0);
        }
        while i < chars.len()
            invariant
                chars@ == text@,
                fits_usize(text@),
                0 <= i <= chars.len(),
                bytes == utf8_len(chars@.take(i as int)),
                starts@.len() == line_starts(chars@.take(i as int)).len(),
                offsets@.len() == starts@.len(),
                forall|j: int|
                    0 <= j < starts@.len() ==> #[trigger] starts@[j] == line_starts(
                        chars@.take(i as int),
                    )[j] && offsets@[j] == utf8_len(chars@.take(starts@[j] as int)),
            decreases chars.len() - i,
        {
            let c = chars[i];
            proof {
                lemma_text_width_take_next(chars@, i as int, Encoding::Utf8);
                lemma_text_width_take_le(chars@, i + 1, Encoding::Utf8);
                assert(chars@.take(i + 1).drop_last() =~= chars@.take(i as int));
                assert(chars@.take(i + 1).last() == c);
            }
            bytes = bytes + char_utf8_width(c);
            if c == '\n' {
                starts.push(i + 1);
                offsets.push(bytes);
            }
            i += 1;
        }
        proof {
            assert(chars@.take(chars@.len() as int) =~= chars@);
        }
        TextBuffer { text, chars, starts, line_offsets: offsets }
    }

    /// The text, which is known to fit in memory.
    pub fn text(&self) -> (t: &str)
        ensures
            t@ == self@,
            fits_usize(self@),
    {
        proof {
            use_type_invariant(self);
        }
        self.text.as_str()
    }

    /// The characters of the text.
    pub fn chars(&self) -> (c: &Vec<char>)
        ensures
            c@ == self@,
            fits_usize(self@),
    {
        proof {
            use_type_invariant(self);
        }
        &self.chars
    }

    /// Number of lines: one more than the number of `'\n'`.
    pub fn line_count(&self) -> (n: usize)
        ensures
            n == line_count(self@),
            n >= 1,
    {
        proof {
            use_type_invariant(self);
            crate::text_lines::lemma_line_starts(self@);
        }
        self.starts.len()
    }

    /// The byte offset at which each line starts, in increasing order.
    pub fn line_offsets(&self) -> (o: &[usize])
        ensures
            o@ == line_byte_starts(self@),
            o@.len() == line_count(self@),
            forall|j: int|
                0 <= j < o@.len() ==> #[trigger] o@[j] == utf8_len(
                    self@.take(line_start(self@, j)),
                ),
            forall|j: int, k: int| 0 <= j <= k < o@.len() ==> o@[j] <= o@[k],
            o@[0] == 0,
    {
        proof {
            use_type_invariant(self);
            assert forall|j: int| 0 <= j < self.line_offsets@.len() implies #[trigger] self.line_offsets@[j]
                == utf8_len(self@.take(line_start(self@, j))) by {
                assert(self.starts@[j] == line_starts(self.text@)[j]);
            }
            lemma_line_starts_increasing(self@);
            crate::text_lines::lemma_line_starts(self@);
            assert forall|j: int, k: int| 0 <= j <= k < self.line_offsets@.len() implies self.line_offsets@[j]
                <= self.line_offsets@[k] by {
                assert(self.starts@[j] == line_starts(self.text@)[j]);
                assert(self.starts@[k] == line_starts(self.text@)[k]);
                if j < k {
                    assert(line_starts(self@)[j] < line_starts(self@)[k]);
                }
                lemma_text_width_take_mono(
                    self@,
                    line_start(self@, j),
                    line_start(self@, k),
                    Encoding::Utf8,
                );
            }
            assert(self.starts@[0] == line_starts(self.text@)[0]);
            assert(self@.take(0) =~= Seq::<char>::empty());
            assert(self.line_offsets@ =~= line_byte_starts(self@));
        }
        self.line_offsets.as_slice()
    }

    /// The character index at which line `j` starts.
    pub fn line_start_char(&self, j: usize) -> (p: usize)
        requires
            j < line_count(self@),
        ensures
            p == line_start(self@, j as int),
            line_shape_facts(self@, j as int),
    {
        proof {
            use_type_invariant(self);
            lemma_line_shape(self@, j as int);
            assert(self.starts@[j as int] == line_starts(self.text@)[j as int]);
        }
        self.starts[j]
    }

    /// The character index one past line `j`, its `'\n'` included.
    pub fn line_full_end_char(&self, j: usize) -> (p: usize)
        requires
            j < line_count(self@),
        ensures
            p == line_full_end(self@, j as int),
            line_shape_facts(self@, j as int),
    {
        proof {
            use_type_invariant(self);
            lemma_line_shape(self@, j as int);
        }
        proof {
            if j + 1 < self.starts.len() {
                assert(self.starts@[j + 1] == line_starts(self.text@)[j + 1]);
            }
        }
        if j < self.starts.len() - 1 {
            self.starts[j + 1]
        } else {
            self.chars.len()
        }
    }

    /// The character index where line `j`'s content ends, without its
    /// `"\n"` or `"\r\n"`.
    pub fn line_content_end_char(&self, j: usize) -> (p: usize)
        requires
            j < line_count(self@),
        ensures
            p == line_content_end(self@, j as int),
            line_shape_facts(self@, j as int),
    {
        let start = self.line_start_char(j);
        let full_end = self.line_full_end_char(j);
        proof {
            use_type_invariant(self);
        }
        content_end_of(&self.chars, start, full_end)
    }

    /// The character index where the displayed part of line `j` ends.
    pub fn line_display_end_char(&self, j: usize) -> (p: usize)
        requires
            j < line_count(self@),
        ensures
            p == line_display_end(self@, j as int),
            line_shape_facts(self@, j as int),
    {
        let start = self.line_start_char(j);
        let full_end = self.line_full_end_char(j);
        proof {
            use_type_invariant(self);
        }
        let e = if j < self.starts.len() - 1 {
            full_end - 1
        } else {
            full_end
        };
        if e > start && self.chars[e - 1] == '\r' {
            e - 1
        } else {
            e
        }
    }

    /// The byte offset of character index `idx`, which lies within line `j`.
    pub fn byte_offset_in_line(&self, j: usize, idx: usize) -> (b: usize)
        requires
            j < line_count(self@),
            line_start(self@, j as int) <= idx <= line_full_end(self@, j as int),
        ensures
            b == utf8_len(self@.take(idx as int)),
    {
        let start = self.line_start_char(j);
        proof {
            use_type_invariant(self);
            assert(self.starts@[j as int] == line_starts(self.text@)[j as int]);
            let s = self@;
            assert(s.take(idx as int) =~= s.take(start as int) + s.subrange(start as int, idx as int));
            crate::text_metrics::lemma_text_width_concat(s.take(start as int), s.subrange(start as int, idx as int), Encoding::Utf8);
            lemma_text_width_take_le(s, idx as int, Encoding::Utf8);
        }
        self.line_offsets[j] + crate::text_metrics::chars_width(&self.chars, start, idx, &Encoding::Utf8)
    }

    /// The byte offset at which line `j` starts, or `None` past the last line.
    pub fn line_start_byte(&self, j: usize) -> (o: Option<usize>)
        ensures
            j < line_count(self@) ==> o == Some(utf8_len(self@.take(line_start(self@, j as int)))
                as usize),
            j >= line_count(self@) ==> o is None,
    {
        proof {
            use_type_invariant(self);
            if j < self.line_offsets.len() {
                assert(self.starts@[j as int] == line_starts(self.text@)[j as int]);
            }
        }
        if j < self.line_offsets.len() {
            Some(self.line_offsets[j])
        } else {
            None
        }
    }

    /// The text that line `j` shows, or `None` past the last line.
    pub fn line_text(&self, j: usize) -> (t: Option<String>)
        ensures
            j < line_count(self@) ==> (t matches Some(t) && t@ == line_text(self@, j as int)),
            j >= line_count(self@) ==> t is None,
    {
        if j < self.line_count() {
            let start = self.line_start_char(j);
            let end = self.line_display_end_char(j);
            Some(string_from_chars(self.chars(), start, end))
        } else {
            None
        }
    }
}

/// Where the content in `chars[start..full_end]` ends once a trailing `"\n"`
/// or `"\r\n"` is left out.
pub fn content_end_of(chars: &Vec<char>, start: usize, full_end: usize) -> (e: usize)
    requires
        start <= full_end <= chars.len(),
    ensures
        e == content_end(chars@, start as int, full_end as int),
        start <= e <= full_end,
{
    let mut end = full_end;
    if end > start && chars[end - 1] == '\n' {
        end -= 1;
        if end > start && chars[end - 1] == '\r' {
            end -= 1;
        }
    }
    end
}

} // verus!
