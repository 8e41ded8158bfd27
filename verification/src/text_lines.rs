//! How a text divides into lines: where each line starts, where its content
//! ends, and what the line shows.
use vstd::prelude::*;

verus! {

/// Number of `'\n'` characters in `s`.
pub open spec fn newline_count(s: Seq<char>) -> nat
    decreases s.len(),
{
    if s.len() == 0 {
        0
    } else {
        newline_count(s.drop_last()) + if s.last() == '\n' {
            1nat
        } else {
            0nat
        }
    }
}

/// The character index at which each line starts: `0`, then one past every `'\n'`.
pub open spec fn line_starts(s: Seq<char>) -> Seq<int>
    decreases s.len(),
{
    if s.len() == 0 {
        seq![0int]
    } else {
        let p = line_starts(s.drop_last());
        if s.last() == '\n' {
            p.push(s.len() as int)
        } else {
            p
        }
    }
}

/// `p` is a position where a line begins.
pub open spec fn is_line_start(s: Seq<char>, p: int) -> bool {
    0 <= p <= s.len() && (p == 0 || s[p - 1] == '\n')
}

/// The number of lines: one more than the number of `'\n'`.
pub open spec fn line_count(s: Seq<char>) -> nat {
    line_starts(s).len()
}

/// The character index at which line `j` starts.
pub open spec fn line_start(s: Seq<char>, j: int) -> int {
    line_starts(s)[j]
}

/// One past the last character of line `j`, its `'\n'` included.
pub open spec fn line_full_end(s: Seq<char>, j: int) -> int {
    if j + 1 < line_count(s) {
        line_starts(s)[j + 1]
    } else {
        s.len() as int
    }
}

/// Where the content between `start` and `full_end` ends once a trailing
/// `"\n"` or `"\r\n"` is left out.
pub open spec fn content_end(s: Seq<char>, start: int, full_end: int) -> int {
    if full_end > start && s[full_end - 1] == '\n' {
        let e = full_end - 1;
        if e > start && s[e - 1] == '\r' {
            e - 1
        } else {
            e
        }
    } else {
        full_end
    }
}

/// Where the content of line `j` ends, before its `"\n"` or `"\r\n"`.
pub open spec fn line_content_end(s: Seq<char>, j: int) -> int {
    content_end(s, line_start(s, j), line_full_end(s, j))
}

/// Where the displayed part of line `j` ends: before its `'\n'`, and before
/// one `'\r'` that precedes that point.
pub open spec fn line_display_end(s: Seq<char>, j: int) -> int {
    let e = if j + 1 < line_count(s) {
        line_starts(s)[j + 1] - 1
    } else {
        s.len() as int
    };
    if e > line_start(s, j) && s[e - 1] == '\r' {
        e - 1
    } else {
        e
    }
}

/// The characters that line `j` shows.
pub open spec fn line_text(s: Seq<char>, j: int) -> Seq<char> {
    s.subrange(line_start(s, j), line_display_end(s, j))
}

/// A text has no more line breaks than characters.
pub proof fn lemma_newline_count_le_len(s: Seq<char>)
    ensures
        newline_count(s) <= s.len(),
    decreases s.len(),
{
    if s.len() > 0 {
        lemma_newline_count_le_len(s.drop_last());
    }
}

/// The line breaks of two texts joined add up.
pub proof fn lemma_newline_count_concat(a: Seq<char>, b: Seq<char>)
    ensures
        newline_count(a + b) == newline_count(a) + newline_count(b),
    decreases b.len(),
{
    if b.len() == 0 {
        assert(a + b =~= a);
    } else {
        assert((a + b).drop_last() =~= a + b.drop_last());
        lemma_newline_count_concat(a, b.drop_last());
    }
}

/// A sequence without `'\n'` has newline count zero, and one with a `'\n'` at
/// index `i` has a positive count.
pub proof fn lemma_newline_count_zero(s: Seq<char>)
    ensures
        newline_count(s) == 0 <==> (forall|i: int| 0 <= i < s.len() ==> s[i] != '\n'),
    decreases s.len(),
{
    if s.len() > 0 {
        lemma_newline_count_zero(s.drop_last());
        if newline_count(s) == 0 {
            assert forall|i: int| 0 <= i < s.len() implies s[i] != '\n' by {
                if i < s.len() - 1 {
                    assert(s.drop_last()[i] == s[i]);
                }
            }
        } else {
            if forall|i: int| 0 <= i < s.len() ==> s[i] != '\n' {
                assert(s.last() != '\n');
                assert forall|i: int| 0 <= i < s.drop_last().len() implies s.drop_last()[i]
                    != '\n' by {
                    assert(s[i] != '\n');
                }
            }
        }
    }
}

/// The line breaks between two positions are those of the longer prefix
/// less those of the shorter.
pub proof fn lemma_newline_count_take(s: Seq<char>, p: int, q: int)
    requires
        0 <= p <= q <= s.len(),
    ensures
        newline_count(s.take(q)) == newline_count(s.take(p)) + newline_count(s.subrange(p, q)),
        newline_count(s.take(p)) <= newline_count(s.take(q)),
        newline_count(s.take(q)) <= newline_count(s),
{
    assert(s.take(q) =~= s.take(p) + s.subrange(p, q));
    lemma_newline_count_concat(s.take(p), s.subrange(p, q));
    assert(s =~= s.take(q) + s.skip(q));
    lemma_newline_count_concat(s.take(q), s.skip(q));
}

/// The entries of `line_starts` are exactly the line-start positions, each
/// indexed by the number of newlines before it.
pub proof fn lemma_line_starts(s: Seq<char>)
    ensures
        line_starts(s).len() == newline_count(s) + 1,
        line_starts(s)[0] == 0,
        forall|j: int|
            #![trigger line_starts(s)[j]]
            0 <= j < line_starts(s).len() ==> is_line_start(s, line_starts(s)[j])
                && newline_count(s.take(line_starts(s)[j])) == j,
        forall|p: int|
            is_line_start(s, p) ==> newline_count(s.take(p)) < line_starts(s).len()
                && line_starts(s)[newline_count(#[trigger] s.take(p)) as int] == p,
    decreases s.len(),
{
    if s.len() == 0 {
        assert(s.take(0) =~= s);
    } else {
        let t = s.drop_last();
        lemma_line_starts(t);
        let ls = line_starts(s);
        let lt = line_starts(t);
        assert forall|p: int| 0 <= p <= t.len() implies #[trigger] s.take(p) == t.take(p) by {
            assert(s.take(p) =~= t.take(p));
        }
        assert(s.take(s.len() as int) =~= s);
        assert forall|j: int| 0 <= j < ls.len() implies is_line_start(s, #[trigger] ls[j])
            && newline_count(s.take(ls[j])) == j by {
            if j < lt.len() {
                assert(ls[j] == lt[j]);
                assert(is_line_start(t, lt[j]));
                assert(s.take(lt[j]) == t.take(lt[j]));
                if lt[j] > 0 {
                    assert(s[lt[j] - 1] == t[lt[j] - 1]);
                }
            } else {
                assert(s.last() == '\n');
                assert(ls[j] == s.len());
            }
        }
        assert forall|p: int| is_line_start(s, p) implies newline_count(#[trigger] s.take(p))
            < ls.len() && ls[newline_count(s.take(p)) as int] == p by {
            if p <= t.len() {
                assert(s.take(p) == t.take(p));
                if p > 0 {
                    assert(s[p - 1] == t[p - 1]);
                }
                assert(is_line_start(t, p));
                assert(t.take(p) =~= t.take(p));
                assert(lt[newline_count(t.take(p)) as int] == p);
            } else {
                assert(p == s.len());
                assert(s.last() == '\n');
                assert(t.take(t.len() as int) =~= t);
            }
        }
    }
}

/// Line `j` starts before it ends, each line but the last ends with its
/// `'\n'`, and no line holds a `'\n'` before its end.
pub open spec fn line_shape_facts(s: Seq<char>, j: int) -> bool {
    &&& 0 <= j < line_count(s)
    &&& 0 <= line_start(s, j) <= line_full_end(s, j) <= s.len()
    &&& j + 1 < line_count(s) ==> line_start(s, j) < line_full_end(s, j) && s[line_full_end(s, j)
        - 1] == '\n'
    &&& forall|q: int|
        line_start(s, j) <= q < line_full_end(s, j) && (j + 1 < line_count(s) ==> q
            < line_full_end(s, j) - 1) ==> #[trigger] s[q] != '\n'
    &&& line_start(s, j) <= line_content_end(s, j) <= line_full_end(s, j)
    &&& line_start(s, j) <= line_display_end(s, j) <= line_full_end(s, j)
}

/// Every line has the shape `line_shape_facts` describes.
pub proof fn lemma_line_shape(s: Seq<char>, j: int)
    requires
        0 <= j < line_count(s),
    ensures
        line_shape_facts(s, j),
{
    lemma_line_starts(s);
    let ls = line_starts(s);
    let a = ls[j];
    assert(is_line_start(s, ls[j]));
    assert(newline_count(s.take(ls[j])) == j);
    if j + 1 < line_count(s) {
        assert(is_line_start(s, ls[j + 1]));
        assert(newline_count(s.take(ls[j + 1])) == j + 1);
        if ls[j + 1] <= a {
            lemma_newline_count_take(s, ls[j + 1], a);
        }
        assert(ls[j + 1] > 0);
    }
    let f = line_full_end(s, j);
    assert forall|q: int|
        a <= q < f && (j + 1 < line_count(s) ==> q < f - 1) implies #[trigger] s[q] != '\n' by {
        if s[q] == '\n' {
            assert(is_line_start(s, q + 1));
            let c = newline_count(s.take(q + 1));
            assert(ls[c as int] == q + 1);
            lemma_newline_count_take(s, a, q + 1);
            assert(s.subrange(a, q + 1).last() == '\n');
            assert(newline_count(s.subrange(a, q + 1)) >= 1);
            if j + 1 < line_count(s) {
                lemma_newline_count_take(s, q + 1, f);
                assert(c <= j + 1);
            } else {
                assert(c < line_starts(s).len());
            }
        }
    }
}

/// Lines start in increasing order, each inside the text.
pub proof fn lemma_line_starts_increasing(s: Seq<char>)
    ensures
        forall|j: int, k: int|
            0 <= j < k < line_starts(s).len() ==> #[trigger] line_starts(s)[j] < #[trigger] line_starts(
                s,
            )[k],
        forall|j: int|
            0 <= j < line_starts(s).len() ==> 0 <= #[trigger] line_starts(s)[j] <= s.len(),
    decreases s.len(),
{
    if s.len() > 0 {
        let t = s.drop_last();
        lemma_line_starts_increasing(t);
        let lt = line_starts(t);
        let ls = line_starts(s);
        assert forall|j: int| 0 <= j < lt.len() implies #[trigger] ls[j] == lt[j] by {
            if s.last() == '\n' {
                assert(ls == lt.push(s.len() as int));
            }
        }
    }
}

} // verus!
