//! Measures of a text: how many characters and how many lines it holds.

use vstd::prelude::*;

verus! {

/// The number of line feeds in `s`.
pub open spec fn line_breaks(s: Seq<char>) -> nat
    decreases s.len(),
{
    if s.len() == 0 {
        0
    } else {
        line_breaks(s.drop_last()) + if s.last() == '\n' {
            1nat
        } else {
            0nat
        }
    }
}

/// The number of lines of `s`: every line feed ends a line, and what follows
/// the last line feed is one more line unless it is empty.
pub open spec fn line_count(s: Seq<char>) -> nat {
    if s.len() > 0 && s.last() != '\n' {
        line_breaks(s) + 1
    } else {
        line_breaks(s)
    }
}

/// A text has no more lines than characters.
pub proof fn lemma_line_count_bounded(s: Seq<char>)
    ensures
        line_breaks(s) <= line_count(s) <= s.len(),
    decreases s.len(),
{
    if s.len() > 0 {
        lemma_line_count_bounded(s.drop_last());
    }
}

/// Whatever character is put behind a text, the result has one line more
/// than the text has line feeds: the new character either ends the last line
/// or stands in it.
pub proof fn lemma_line_count_push(s: Seq<char>, c: char)
    ensures
        line_count(s.push(c)) == line_breaks(s) + 1,
{
    assert(s.push(c).drop_last() == s);
}

/// A line feed behind a text whose last line is not ended adds no line.
pub proof fn lemma_trailing_line_feed(s: Seq<char>)
    requires
        s.len() > 0,
        s.last() != '\n',
    ensures
        line_count(s.push('\n')) == line_count(s),
{
    lemma_line_count_push(s, '\n');
}

/// The number of characters of `text`.
pub fn count_chars(text: &str) -> (n: usize)
    ensures
        n == text@.len(),
{
    text.unicode_len()
}

/// The number of lines of `text`.
pub fn count_lines(text: &str) -> (n: usize)
    ensures
        n == line_count(text@),
{
    broadcast use vstd::string::group_string_axioms;

    // A text has no more lines than characters, and its characters can be
    // counted: so the counter below cannot overflow.
    let total: usize = text.unicode_len();
    // Line feeds seen so far, and whether a line has begun after the last.
    let mut breaks: usize = 0;
    let mut open: bool = false;
    for c in it: text.chars()
        invariant
            it.seq() == text@,
            total == text@.len(),
            breaks == line_breaks(text@.take(it.index())),
            open <==> it.index() > 0 && text@[it.index() - 1] != '\n',
            open ==> breaks < it.index(),
            breaks <= it.index(),
    {
        proof {
            let k = it.index();
            assert(text@.take(k + 1).drop_last() == text@.take(k));
        }
        if c == '\n' {
            breaks = breaks + 1;
            open = false;
        } else {
            open = true;
        }
    }
    proof {
        assert(text@.take(text@.len() as int) == text@);
    }
    if open {
        breaks + 1
    } else {
        breaks
    }
}

} // verus!
