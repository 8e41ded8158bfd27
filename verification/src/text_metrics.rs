//! Character widths in UTF-8 bytes and UTF-16 code units, and conversions
//! between byte columns and UTF-16 columns of a line of text.
use vstd::prelude::*;

verus! {

/// The two encodings in which the editor measures text.
pub enum Encoding {
    Utf8,
    Utf16,
}

/// Number of bytes in the UTF-8 encoding of `c`.
pub open spec fn utf8_width(c: char) -> nat {
    let v = c as u32;
    if v <= 0x7F {
        1
    } else if v <= 0x7FF {
        2
    } else if v <= 0xFFFF {
        3
    } else {
        4
    }
}

/// Number of UTF-16 code units needed to encode `c`.
pub open spec fn utf16_width(c: char) -> nat {
    if (c as u32) <= 0xFFFF {
        1
    } else {
        2
    }
}

/// The width of `c` in the encoding.
pub open spec fn char_width(c: char, e: Encoding) -> nat {
    match e {
        Encoding::Utf8 => utf8_width(c),
        Encoding::Utf16 => utf16_width(c),
    }
}

/// Width of a whole character sequence in the given encoding.
pub open spec fn text_width(s: Seq<char>, e: Encoding) -> nat
    decreases s.len(),
{
    if s.len() == 0 {
        0
    } else {
        char_width(s[0], e) + text_width(s.drop_first(), e)
    }
}

/// `a - b`, or zero below zero.
pub open spec fn sat_sub(a: int, b: int) -> int {
    if a >= b {
        a - b
    } else {
        0
    }
}

/// `a + b`, or `usize::MAX` above it.
pub open spec fn sat_add(a: int, b: int) -> int {
    if a + b > usize::MAX {
        usize::MAX as int
    } else {
        a + b
    }
}

/// `a * b`, or `usize::MAX` above it.
pub open spec fn sat_mul(a: int, b: int) -> int {
    if a * b > usize::MAX {
        usize::MAX as int
    } else {
        a * b
    }
}

/// Length in bytes of the UTF-8 encoding of `s`.
pub open spec fn utf8_len(s: Seq<char>) -> nat {
    text_width(s, Encoding::Utf8)
}

/// Length in UTF-16 code units of `s`.
pub open spec fn utf16_len(s: Seq<char>) -> nat {
    text_width(s, Encoding::Utf16)
}

/// The number of leading characters of `s` whose total width stays within
/// `budget`: the longest prefix that fits.
pub open spec fn fit_count(s: Seq<char>, budget: int, e: Encoding) -> nat
    decreases s.len(),
{
    if s.len() == 0 || char_width(s[0], e) > budget {
        0
    } else {
        1 + fit_count(s.drop_first(), budget - char_width(s[0], e), e)
    }
}

/// A text whose UTF-8 length can be counted in a `usize` (every `str` in memory).
pub open spec fn fits_usize(s: Seq<char>) -> bool {
    utf8_len(s) <= usize::MAX
}

/// Every character takes at least one unit.
pub proof fn lemma_char_width_positive(c: char, e: Encoding)
    ensures
        1 <= char_width(c, e) <= 4,
        utf16_width(c) <= utf8_width(c),
{
}

/// The width of two texts joined is the sum of their widths.
pub proof fn lemma_text_width_concat(a: Seq<char>, b: Seq<char>, e: Encoding)
    ensures
        text_width(a + b, e) == text_width(a, e) + text_width(b, e),
    decreases a.len(),
{
    if a.len() == 0 {
        assert(a + b =~= b);
    } else {
        assert((a + b).drop_first() =~= a.drop_first() + b);
        assert((a + b)[0] == a[0]);
        lemma_text_width_concat(a.drop_first(), b, e);
    }
}

/// A one-character text is as wide as its character.
pub proof fn lemma_text_width_single(c: char, e: Encoding)
    ensures
        text_width(seq![c], e) == char_width(c, e),
{
    assert(seq![c].drop_first() =~= Seq::<char>::empty());
    assert(text_width(Seq::<char>::empty(), e) == 0);
    assert(seq![c][0] == c);
}

/// Extending a prefix by one character adds that character's width.
pub proof fn lemma_text_width_take_next(s: Seq<char>, i: int, e: Encoding)
    requires
        0 <= i < s.len(),
    ensures
        text_width(s.take(i + 1), e) == text_width(s.take(i), e) + char_width(s[i], e),
{
    assert(s.take(i + 1) =~= s.take(i) + seq![s[i]]);
    lemma_text_width_concat(s.take(i), seq![s[i]], e);
    lemma_text_width_single(s[i], e);
}

/// Longer prefixes are strictly wider: each character has width at least one.
pub proof fn lemma_text_width_take_mono(s: Seq<char>, i: int, j: int, e: Encoding)
    requires
        0 <= i <= j <= s.len(),
    ensures
        text_width(s.take(i), e) + (j - i) <= text_width(s.take(j), e),
    decreases j - i,
{
    if i < j {
        lemma_text_width_take_mono(s, i, j - 1, e);
        lemma_text_width_take_next(s, j - 1, e);
        lemma_char_width_positive(s[j - 1], e);
    }
}

/// A prefix is no wider than the whole text.
pub proof fn lemma_text_width_take_le(s: Seq<char>, i: int, e: Encoding)
    requires
        0 <= i <= s.len(),
    ensures
        text_width(s.take(i), e) <= text_width(s, e),
{
    lemma_text_width_take_mono(s, i, s.len() as int, e);
    assert(s.take(s.len() as int) =~= s);
}

/// A text takes no more UTF-16 units than UTF-8 bytes.
pub proof fn lemma_utf16_le_utf8(s: Seq<char>)
    ensures
        utf16_len(s) <= utf8_len(s),
    decreases s.len(),
{
    if s.len() > 0 {
        lemma_char_width_positive(s[0], Encoding::Utf8);
        lemma_utf16_le_utf8(s.drop_first());
    }
}

/// A stretch of a text is no wider than the text's UTF-8 length.
pub proof fn lemma_subrange_width_le(s: Seq<char>, a: int, b: int, e: Encoding)
    requires
        0 <= a <= b <= s.len(),
    ensures
        text_width(s.subrange(a, b), e) <= utf8_len(s),
{
    assert(s =~= s.take(a) + s.subrange(a, b) + s.skip(b));
    lemma_text_width_concat(s.take(a) + s.subrange(a, b), s.skip(b), Encoding::Utf8);
    lemma_text_width_concat(s.take(a), s.subrange(a, b), Encoding::Utf8);
    lemma_width_le_utf8(s.subrange(a, b), e);
}

/// `fit_count` is the longest prefix within the budget.
pub proof fn lemma_fit_count(s: Seq<char>, budget: int, e: Encoding)
    ensures
        fit_count(s, budget, e) <= s.len(),
        budget >= 0 ==> text_width(s.take(fit_count(s, budget, e) as int), e) <= budget,
        fit_count(s, budget, e) < s.len() ==> text_width(
            s.take(fit_count(s, budget, e) + 1 as int),
            e,
        ) > budget,
    decreases s.len(),
{
    let k = fit_count(s, budget, e);
    if s.len() == 0 || char_width(s[0], e) > budget {
        assert(s.take(0) =~= Seq::<char>::empty());
        if s.len() > 0 {
            lemma_text_width_take_next(s, 0, e);
        }
    } else {
        let t = s.drop_first();
        let b2 = budget - char_width(s[0], e);
        lemma_fit_count(t, b2, e);
        let k2 = fit_count(t, b2, e);
        assert(s.take(k as int) =~= seq![s[0]] + t.take(k2 as int));
        lemma_text_width_concat(seq![s[0]], t.take(k2 as int), e);
        lemma_text_width_single(s[0], e);
        if k < s.len() {
            assert(s.take(k + 1 as int) =~= seq![s[0]] + t.take(k2 + 1 as int));
            lemma_text_width_concat(seq![s[0]], t.take(k2 + 1 as int), e);
        }
    }
}

/// Any prefix length that fits while the next character does not is the fit count.
pub proof fn lemma_fit_count_unique(s: Seq<char>, budget: int, k: int, e: Encoding)
    requires
        0 <= k <= s.len(),
        text_width(s.take(k), e) <= budget,
        k == s.len() || text_width(s.take(k + 1), e) > budget,
    ensures
        fit_count(s, budget, e) == k,
{
    lemma_fit_count(s, budget, e);
    let f = fit_count(s, budget, e) as int;
    if f > k {
        lemma_text_width_take_mono(s, k + 1, f, e);
    }
    if f < k {
        lemma_text_width_take_mono(s, f + 1, k, e);
    }
}

/// The width of a prefix, used as a budget, fits exactly that prefix.
pub proof fn lemma_fit_count_exact(s: Seq<char>, k: int, e: Encoding)
    requires
        0 <= k <= s.len(),
    ensures
        fit_count(s, text_width(s.take(k), e) as int, e) == k,
{
    if k < s.len() {
        lemma_text_width_take_next(s, k, e);
        lemma_char_width_positive(s[k], e);
    }
    lemma_fit_count_unique(s, text_width(s.take(k), e) as int, k, e);
}

/// Converting a byte column that lies on a character boundary to a UTF-16
/// column and back gives the byte column again, and converting a UTF-16
/// column on a character boundary to bytes and back gives the column again.
pub proof fn lemma_byte_and_utf16_columns_round_trip(s: Seq<char>, k: int)
    requires
        0 <= k <= s.len(),
    ensures
        ({
            let byte = utf8_len(s.take(k));
            let col = utf16_len(s.take(fit_count(s, byte as int, Encoding::Utf8) as int));
            utf8_len(s.take(fit_count(s, col as int, Encoding::Utf16) as int)) == byte
        }),
        ({
            let col = utf16_len(s.take(k));
            let byte = utf8_len(s.take(fit_count(s, col as int, Encoding::Utf16) as int));
            utf16_len(s.take(fit_count(s, byte as int, Encoding::Utf8) as int)) == col
        }),
{
    lemma_fit_count_exact(s, k, Encoding::Utf8);
    lemma_fit_count_exact(s, k, Encoding::Utf16);
}

/// `char::len_utf8`, computed from the scalar value.
pub fn char_utf8_width(c: char) -> (w: usize)
    ensures
        w == utf8_width(c),
{
    let v = c as u32;
    if v <= 0x7F {
        1
    } else if v <= 0x7FF {
        2
    } else if v <= 0xFFFF {
        3
    } else {
        4
    }
}

/// `char::len_utf16`, computed from the scalar value.
pub fn char_utf16_width(c: char) -> (w: usize)
    ensures
        w == utf16_width(c),
{
    if (c as u32) <= 0xFFFF {
        1
    } else {
        2
    }
}

/// The width of `c` in the encoding.
pub fn char_width_in(c: char, e: &Encoding) -> (w: usize)
    ensures
        w == char_width(c, *e),
{
    match e {
        Encoding::Utf8 => char_utf8_width(c),
        Encoding::Utf16 => char_utf16_width(c),
    }
}

/// The UTF-8 encoding vstd gives a `str` is `utf8_len` bytes long.
pub proof fn lemma_encode_utf8_len(s: Seq<char>)
    ensures
        vstd::utf8::encode_utf8(s).len() == utf8_len(s),
    decreases s.len(),
{
    if s.len() > 0 {
        let c = s[0];
        vstd::utf8::char_is_scalar(c);
        lemma_encode_utf8_len(s.drop_first());
    }
}

/// Every `str` in memory has a UTF-8 length that a `usize` can count.
pub fn str_fits(s: &str)
    ensures
        fits_usize(s@),
{
    let bytes = s.as_bytes();
    let _n = bytes.len();
    proof {
        lemma_encode_utf8_len(s@);
    }
}

/// Collects the characters of `s`.
pub fn str_chars(s: &str) -> (v: Vec<char>)
    ensures
        v@ == s@,
{
    let mut v: Vec<char> = Vec::new();
    for c in it: s.chars()
        invariant
            v@ == it.seq().take(it.index() as int),
            it.seq() == s@,
    {
        v.push(c);
    }
    assert(v@ =~= s@);
    v
}

/// Appends one character to a string.
/// Trusted: calls `String::push`, which std documents as appending the
/// given `char` to the end of the string; the contract says exactly that.
#[verifier::external_body]
pub(crate) fn string_push(s: &mut String, c: char)
    ensures
        final(s)@ == old(s)@.push(c),
{
    s.push(c);
}

/// A new string holding the characters `chars[from..to]`.
pub fn string_from_chars(chars: &Vec<char>, from: usize, to: usize) -> (s: String)
    requires
        from <= to <= chars.len(),
    ensures
        s@ == chars@.subrange(from as int, to as int),
{
    let mut s = String::new();
    let mut i = from;
    while i < to
        invariant
            from <= i <= to <= chars.len(),
            s@ == chars@.subrange(from as int, i as int),
        decreases to - i,
    {
        string_push(&mut s, chars[i]);
        assert(chars@.subrange(from as int, i + 1) =~= chars@.subrange(from as int, i as int).push(
            chars@[i as int],
        ));
        i += 1;
    }
    s
}

/// The total width of `chars[from..to]` in the given encoding.
pub fn chars_width(chars: &Vec<char>, from: usize, to: usize, e: &Encoding) -> (n: usize)
    requires
        from <= to <= chars.len(),
        fits_usize(chars@),
    ensures
        n == text_width(chars@.subrange(from as int, to as int), *e),
{
    let ghost s = chars@.subrange(from as int, to as int);
    let mut n: usize = 0;
    let mut i = from;
    proof {
        assert(s.take(0) =~= Seq::<char>::empty());
        assert(chars@ =~= chars@.take(from as int) + s + chars@.skip(to as int));
        lemma_text_width_concat(chars@.take(from as int) + s, chars@.skip(to as int), Encoding::Utf8);
        lemma_text_width_concat(chars@.take(from as int), s, Encoding::Utf8);
    }
    while i < to
        invariant
            from <= i <= to <= chars.len(),
            s == chars@.subrange(from as int, to as int),
            n == text_width(s.take(i - from), *e),
            utf8_len(s) <= usize::MAX,
        decreases to - i,
    {
        proof {
            lemma_text_width_take_next(s, i - from, *e);
            lemma_text_width_take_next(s, i - from, Encoding::Utf8);
            lemma_text_width_take_le(s, i - from + 1, Encoding::Utf8);
            lemma_text_width_take_le(s, i - from + 1, *e);
            lemma_width_le_utf8(s.take(i - from + 1), *e);
        }
        n = n + char_width_in(chars[i], e);
        i += 1;
    }
    proof {
        assert(s.take(to - from) =~= s);
    }
    n
}

/// A text is no wider in either encoding than its UTF-8 length.
pub proof fn lemma_width_le_utf8(s: Seq<char>, e: Encoding)
    ensures
        text_width(s, e) <= utf8_len(s),
{
    match e {
        Encoding::Utf8 => {},
        Encoding::Utf16 => lemma_utf16_le_utf8(s),
    }
}

/// The number of leading characters of `chars[from..to]` whose total width in
/// `e` stays within `budget`.
pub fn chars_fit_count(chars: &Vec<char>, from: usize, to: usize, budget: usize, e: &Encoding) -> (k: usize)
    requires
        from <= to <= chars.len(),
    ensures
        k == fit_count(chars@.subrange(from as int, to as int), budget as int, *e),
{
    let ghost s = chars@.subrange(from as int, to as int);
    let mut used: usize = 0;
    let mut i = from;
    proof {
        assert(s.take(0) =~= Seq::<char>::empty());
    }
    while i < to
        invariant
            from <= i <= to <= chars.len(),
            s == chars@.subrange(from as int, to as int),
            used == text_width(s.take(i - from), *e),
            used <= budget,
        decreases to - i,
    {
        let w = char_width_in(chars[i], e);
        proof {
            lemma_text_width_take_next(s, i - from, *e);
        }
        if w > budget - used {
            proof {
                lemma_fit_count_unique(s, budget as int, i - from, *e);
            }
            return i - from;
        }
        used = used + w;
        i += 1;
    }
    proof {
        lemma_fit_count_unique(s, budget as int, to - from, *e);
    }
    to - from
}

/// UTF-16 length of `text`.
pub fn virtual_text_utf16_len(text: &str) -> (n: usize)
    ensures
        n == utf16_len(text@),
{
    str_fits(text);
    let chars = str_chars(text);
    proof {
        assert(chars@.subrange(0, chars@.len() as int) =~= chars@);
    }
    chars_width(&chars, 0, chars.len(), &Encoding::Utf16)
}

/// The UTF-16 column of the last character boundary of `text` at or before
/// `byte_column`.
pub fn virtual_text_byte_column_to_utf16(text: &str, byte_column: usize) -> (col: usize)
    ensures
        col == utf16_len(text@.take(fit_count(text@, byte_column as int, Encoding::Utf8) as int)),
{
    str_fits(text);
    let chars = str_chars(text);
    proof {
        assert(chars@.subrange(0, chars@.len() as int) =~= chars@);
    }
    let k = chars_fit_count(&chars, 0, chars.len(), byte_column, &Encoding::Utf8);
    proof {
        lemma_fit_count(chars@, byte_column as int, Encoding::Utf8);
        assert(chars@.subrange(0, k as int) =~= chars@.take(k as int));
        lemma_text_width_take_le(chars@, k as int, Encoding::Utf8);
    }
    chars_width(&chars, 0, k, &Encoding::Utf16)
}

/// The byte offset of the last character boundary of `text` whose UTF-16
/// column is at most `column_utf16` (the end of `text` when the column lies past it).
pub fn virtual_text_utf16_column_to_byte(text: &str, column_utf16: usize) -> (byte: usize)
    ensures
        byte == utf8_len(text@.take(fit_count(text@, column_utf16 as int, Encoding::Utf16) as int)),
{
    str_fits(text);
    let chars = str_chars(text);
    proof {
        assert(chars@.subrange(0, chars@.len() as int) =~= chars@);
    }
    let k = chars_fit_count(&chars, 0, chars.len(), column_utf16, &Encoding::Utf16);
    proof {
        lemma_fit_count(chars@, column_utf16 as int, Encoding::Utf16);
        assert(chars@.subrange(0, k as int) =~= chars@.take(k as int));
        lemma_text_width_take_le(chars@, k as int, Encoding::Utf8);
    }
    chars_width(&chars, 0, k, &Encoding::Utf8)
}

/// Whether two strings are the same characters.
pub fn str_is(s: &str, other: &str) -> (b: bool)
    ensures
        b == (s@ == other@),
{
    let a = str_chars(s);
    let c = str_chars(other);
    if a.len() != c.len() {
        return false;
    }
    let mut i: usize = 0;
    while i < a.len()
        invariant
            0 <= i <= a.len(),
            a@.len() == c@.len(),
            a@ == s@,
            c@ == other@,
            forall|j: int| 0 <= j < i ==> a@[j] == c@[j],
        decreases a.len() - i,
    {
        if a[i] != c[i] {
            return false;
        }
        i += 1;
    }
    assert(a@ =~= c@);
    true
}

/// Appends `chars[from..to]` to `s`.
pub fn push_chars(s: &mut String, chars: &Vec<char>, from: usize, to: usize)
    requires
        from <= to <= chars.len(),
    ensures
        final(s)@ == old(s)@ + chars@.subrange(from as int, to as int),
{
    let mut i = from;
    while i < to
        invariant
            from <= i <= to <= chars.len(),
            s@ == old(s)@ + chars@.subrange(from as int, i as int),
        decreases to - i,
    {
        string_push(s, chars[i]);
        assert(chars@.subrange(from as int, i + 1) =~= chars@.subrange(from as int, i as int).push(
            chars@[i as int],
        ));
        i += 1;
    }
}

/// A text has no more characters than UTF-8 bytes.
pub proof fn lemma_len_le_utf8(s: Seq<char>)
    ensures
        s.len() <= utf8_len(s),
{
    lemma_text_width_take_mono(s, 0, s.len() as int, Encoding::Utf8);
    assert(s.take(0) =~= Seq::<char>::empty());
    assert(s.take(s.len() as int) =~= s);
}

} // verus!
