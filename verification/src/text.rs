//! Text as a grid: the characters of a string, and its lines.

use vstd::prelude::*;

verus! {

/// The number of characters before the first line feed of `text`, or the
/// length of `text` where it holds none.
pub open spec fn first_line_len(text: Seq<char>) -> nat
    decreases text.len(),
{
    if text.len() == 0 || text[0] == '\n' {
        0
    } else {
        1 + first_line_len(text.drop_first())
    }
}

/// `line` without the carriage return at its end, if it has one.
pub open spec fn without_cr(line: Seq<char>) -> Seq<char> {
    if line.len() > 0 && line.last() == '\r' {
        line.drop_last()
    } else {
        line
    }
}

/// The lines of `text`. A line ends at a line feed, or at a carriage return
/// followed by a line feed; neither belongs to the line. The last line needs
/// no line ending, and is then kept as it stands. The empty text has no line.
pub open spec fn lines_of(text: Seq<char>) -> Seq<Seq<char>>
    decreases text.len(),
{
    let n = first_line_len(text);
    if text.len() == 0 {
        Seq::empty()
    } else if n >= text.len() {
        seq![text]
    } else {
        seq![without_cr(text.take(n as int))] + lines_of(text.skip(n as int + 1))
    }
}

/// The contents of a list of lines.
pub open spec fn rows(lines: Seq<Vec<char>>) -> Seq<Seq<char>> {
    lines.map_values(|line: Vec<char>| line@)
}

/// A stretch without a line feed that ends at a line feed, or at the end of
/// the text, is the first line.
pub proof fn lemma_first_line_len(text: Seq<char>, n: int)
    requires
        0 <= n <= text.len(),
        forall|k: int| 0 <= k < n ==> text[k] != '\n',
        n == text.len() || text[n] == '\n',
    ensures
        first_line_len(text) == n,
    decreases n,
{
    if n > 0 {
        lemma_first_line_len(text.drop_first(), n - 1);
    }
}

/// How often `c` occurs in `text`.
pub open spec fn count(text: Seq<char>, c: char) -> nat
    decreases text.len(),
{
    if text.len() == 0 {
        0
    } else {
        count(text.drop_last(), c) + if text.last() == c {
            1nat
        } else {
            0nat
        }
    }
}

/// How often `c` occurs in `lines`, all lines taken together.
pub open spec fn count_in_lines(lines: Seq<Seq<char>>, c: char) -> nat
    decreases lines.len(),
{
    if lines.len() == 0 {
        0
    } else {
        count_in_lines(lines.drop_last(), c) + count(lines.last(), c)
    }
}

/// The first line ends within the text, at a line feed if the text goes on.
pub proof fn lemma_first_line_ends(text: Seq<char>)
    ensures
        first_line_len(text) <= text.len(),
        first_line_len(text) < text.len() ==> text[first_line_len(text) as int] == '\n',
    decreases text.len(),
{
    if text.len() > 0 && text[0] != '\n' {
        lemma_first_line_ends(text.drop_first());
    }
}

/// Counting is additive over joined texts.
pub proof fn lemma_count_add(a: Seq<char>, b: Seq<char>, c: char)
    ensures
        count(a + b, c) == count(a, c) + count(b, c),
    decreases b.len(),
{
    if b.len() == 0 {
        assert(a + b == a);
    } else {
        assert((a + b).drop_last() == a + b.drop_last());
        lemma_count_add(a, b.drop_last(), c);
    }
}

/// Counting is additive over a first line and the lines after it.
pub proof fn lemma_count_in_lines_front(first: Seq<char>, rest: Seq<Seq<char>>, c: char)
    ensures
        count_in_lines(seq![first] + rest, c) == count(first, c) + count_in_lines(rest, c),
    decreases rest.len(),
{
    if rest.len() == 0 {
        assert(seq![first] + rest == seq![first]);
        assert(seq![first].drop_last() == Seq::<Seq<char>>::empty());
        assert(count_in_lines(Seq::<Seq<char>>::empty(), c) == 0);
    } else {
        assert((seq![first] + rest).drop_last() == seq![first] + rest.drop_last());
        assert((seq![first] + rest).last() == rest.last());
        lemma_count_in_lines_front(first, rest.drop_last(), c);
    }
}

/// Splitting a text into lines loses only line feeds and carriage returns:
/// every other character occurs in the lines as often as in the text.
pub proof fn lemma_lines_keep_count(text: Seq<char>, c: char)
    requires
        c != '\n',
        c != '\r',
    ensures
        count_in_lines(lines_of(text), c) == count(text, c),
    decreases text.len(),
{
    let n = first_line_len(text) as int;
    lemma_first_line_ends(text);
    if text.len() == 0 {
    } else if n >= text.len() {
        assert(seq![text].drop_last() == Seq::<Seq<char>>::empty());
        assert(count_in_lines(Seq::<Seq<char>>::empty(), c) == 0);
    } else {
        let first = text.take(n);
        let rest = text.skip(n + 1);
        assert(text == first + seq!['\n'] + rest);
        lemma_count_add(first + seq!['\n'], rest, c);
        lemma_count_add(first, seq!['\n'], c);
        assert(seq!['\n'].drop_last() == Seq::<char>::empty());
        assert(count(Seq::<char>::empty(), c) == 0);
        assert(count(seq!['\n'], c) == 0);
        assert(count(without_cr(first), c) == count(first, c));
        lemma_lines_keep_count(rest, c);
        lemma_count_in_lines_front(without_cr(first), lines_of(rest), c);
    }
}

/// The characters of `s`, in order.
pub fn chars_of(s: &str) -> (chars: Vec<char>)
    ensures
        chars@ == s@,
{
    let mut chars: Vec<char> = Vec::new();
    for c in it: s.chars()
        invariant
            it.seq() == s@,
            chars@ == s@.take(it.index()),
    {
        chars.push(c);
        assert(s@.take(it.index() + 1) == s@.take(it.index()).push(c));
    }
    chars
}

/// Splits `text` into its lines.
pub fn split_lines(text: &Vec<char>) -> (lines: Vec<Vec<char>>)
    ensures
        rows(lines@) == lines_of(text@),
{
    let mut lines: Vec<Vec<char>> = Vec::new();
    let mut line: Vec<char> = Vec::new();
    let mut start: usize = 0;
    let mut i: usize = 0;
    assert(text@.skip(0) == text@);
    while i < text.len()
        invariant
            start <= i <= text.len(),
            lines_of(text@) == rows(lines@) + lines_of(text@.skip(start as int)),
            line@ == text@.subrange(start as int, i as int),
            forall|k: int| start <= k < i ==> text@[k] != '\n',
        decreases text.len() - i,
    {
        let c = text[i];
        if c == '\n' {
            let ghost rest = text@.skip(start as int);
            let ghost raw = line@;
            proof {
                lemma_first_line_len(rest, i - start);
                assert(rest.take(i - start) == raw);
                assert(rest.skip(i - start + 1) == text@.skip(i + 1));
            }
            if line.len() > 0 && line[line.len() - 1] == '\r' {
                line.pop();
            }
            assert(line@ == without_cr(raw));
            let ghost before = rows(lines@);
            lines.push(line);
            assert(rows(lines@) == before.push(without_cr(raw)));
            assert(before + (seq![without_cr(raw)] + lines_of(text@.skip(i + 1))) == rows(lines@)
                + lines_of(text@.skip(i + 1)));
            line = Vec::new();
            start = i + 1;
        } else {
            line.push(c);
        }
        i += 1;
    }
    if start < text.len() {
        let ghost rest = text@.skip(start as int);
        proof {
            lemma_first_line_len(rest, text.len() - start);
            assert(line@ == rest);
        }
        let ghost before = rows(lines@);
        lines.push(line);
        assert(rows(lines@) == before.push(rest));
        assert(before + seq![rest] == rows(lines@));
    } else {
        assert(lines_of(text@.skip(start as int)) == Seq::<Seq<char>>::empty());
        assert(rows(lines@) + Seq::<Seq<char>>::empty() == rows(lines@));
    }
    lines
}

} // verus!
