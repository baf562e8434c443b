//! Lines and words in a text, by character position.

use crate::search::{is_ascii_letter, is_digit_char, is_white, white};
use crate::text::{char_text, slice};
use crate::tui::width::{display_columns, display_width};
use vstd::prelude::*;
use vstd::string::*;

verus! {

/// Position at which the line of position `p` starts.
pub open spec fn line_start(s: Seq<char>, p: int) -> int
    decreases p,
{
    if p <= 0 {
        0
    } else if s[p - 1] == '\n' {
        p
    } else {
        line_start(s, p - 1)
    }
}

/// Position at which the line of position `p` ends: of its line feed, or of
/// the end of the text.
pub open spec fn line_end(s: Seq<char>, p: int) -> int
    decreases s.len() - p,
{
    if p >= s.len() {
        s.len() as int
    } else if s[p] == '\n' {
        p
    } else {
        line_end(s, p + 1)
    }
}

/// Number of the line of position `p`: how many line feeds stand before it.
pub open spec fn line_number(s: Seq<char>, p: int) -> nat
    decreases p,
{
    if p <= 0 {
        0
    } else {
        line_number(s, p - 1) + if s[p - 1] == '\n' {
            1nat
        } else {
            0
        }
    }
}

/// Number of the last line.
pub open spec fn last_line(s: Seq<char>) -> nat {
    line_number(s, s.len() as int)
}

/// Position at which line `n` starts.
pub open spec fn nth_line_start(s: Seq<char>, n: nat) -> int
    decreases n,
{
    if n == 0 {
        0
    } else {
        line_end(s, nth_line_start(s, (n - 1) as nat)) + 1
    }
}

/// Start and end of each line.
pub open spec fn line_spans(s: Seq<char>) -> Seq<(int, int)> {
    Seq::new(
        last_line(s) + 1,
        |n: int| (nth_line_start(s, n as nat), line_end(s, nth_line_start(s, n as nat))),
    )
}

/// Columns from the start of its line to position `p`.
pub open spec fn column_of(s: Seq<char>, p: int) -> nat {
    display_columns(s.subrange(line_start(s, p), p))
}

/// The position nearest to `column`, going from position `i` at column
/// `width` to position `end`: a character belongs to the position before it up
/// to its middle, and to the one behind it from there.
pub open spec fn at_column_from(s: Seq<char>, i: int, end: int, width: int, column: int) -> int
    decreases end - i,
{
    if i >= end {
        end
    } else {
        let w = display_columns(seq![s[i]]);
        if column < width + (w + 1) / 2 {
            i
        } else if column < width + w {
            i + 1
        } else {
            at_column_from(s, i + 1, end, width + w, column)
        }
    }
}

/// The position in line `line` (or the last one, where there are fewer) that
/// is nearest to `column`.
pub open spec fn at_column(s: Seq<char>, line: nat, column: int) -> int {
    let n = if line <= last_line(s) {
        line
    } else {
        last_line(s)
    };
    let start = nth_line_start(s, n);
    at_column_from(s, start, line_end(s, start), 0, column)
}

pub proof fn lemma_line_start(s: Seq<char>, p: int)
    requires
        0 <= p <= s.len(),
    ensures
        0 <= line_start(s, p) <= p,
        forall|i: int| line_start(s, p) <= i < p ==> s[i] != '\n',
        line_start(s, p) == 0 || s[line_start(s, p) - 1] == '\n',
        line_number(s, line_start(s, p)) == line_number(s, p),
    decreases p,
{
    if p > 0 && s[p - 1] != '\n' {
        lemma_line_start(s, p - 1);
    }
}

pub proof fn lemma_line_end(s: Seq<char>, p: int)
    requires
        0 <= p <= s.len(),
    ensures
        p <= line_end(s, p) <= s.len(),
        forall|i: int| p <= i < line_end(s, p) ==> s[i] != '\n',
        line_end(s, p) == s.len() || s[line_end(s, p)] == '\n',
        line_number(s, line_end(s, p)) == line_number(s, p),
    decreases s.len() - p,
{
    if p < s.len() && s[p] != '\n' {
        lemma_line_end(s, p + 1);
    }
}

pub proof fn lemma_line_number_grows(s: Seq<char>, p: int, q: int)
    requires
        p <= q,
    ensures
        line_number(s, p) <= line_number(s, q),
        0 <= q ==> line_number(s, q) <= q,
    decreases q - p, q,
{
    if 0 < q {
        if p < q {
            lemma_line_number_grows(s, p, q - 1);
        } else {
            lemma_line_number_grows(s, q - 1, q - 1);
        }
    } else if p < q {
        assert(line_number(s, p) == 0);
    }
}

/// Line `n` starts inside the text, and its number is `n`.
pub proof fn lemma_nth_line_start(s: Seq<char>, n: nat)
    requires
        n <= last_line(s),
    ensures
        0 <= nth_line_start(s, n) <= s.len(),
        line_number(s, nth_line_start(s, n)) == n,
        line_start(s, nth_line_start(s, n)) == nth_line_start(s, n),
    decreases n,
{
    if n > 0 {
        let before = nth_line_start(s, (n - 1) as nat);
        lemma_nth_line_start(s, (n - 1) as nat);
        lemma_line_end(s, before);
    }
}

pub proof fn lemma_at_column_from(s: Seq<char>, i: int, end: int, width: int, column: int)
    requires
        0 <= i <= end <= s.len(),
    ensures
        i <= at_column_from(s, i, end, width, column) <= end,
    decreases end - i,
{
    if i < end {
        lemma_at_column_from(s, i + 1, end, width + display_columns(seq![s[i]]), column);
    }
}

/// Position at which the line of position `p` starts.
pub fn start_of_line(s: &Vec<char>, p: usize) -> (r: usize)
    requires
        p <= s@.len(),
    ensures
        r == line_start(s@, p as int),
        r <= p,
{
    let mut i: usize = p;
    while i > 0 && s[i - 1] != '\n'
        invariant
            i <= p <= s@.len(),
            line_start(s@, i as int) == line_start(s@, p as int),
        decreases i,
    {
        i -= 1;
    }
    i
}

/// Position at which the line of position `p` ends.
pub fn end_of_line(s: &Vec<char>, p: usize) -> (r: usize)
    requires
        p <= s@.len(),
    ensures
        r == line_end(s@, p as int),
        p <= r <= s@.len(),
{
    let mut i: usize = p;
    while i < s.len() && s[i] != '\n'
        invariant
            p <= i <= s@.len(),
            line_end(s@, i as int) == line_end(s@, p as int),
        decreases s@.len() - i,
    {
        i += 1;
    }
    i
}

/// Number of the line of position `p`.
pub fn number_of_line(s: &Vec<char>, p: usize) -> (r: usize)
    requires
        p <= s@.len(),
    ensures
        r == line_number(s@, p as int),
        r <= p,
{
    let mut i: usize = 0;
    let mut count: usize = 0;
    while i < p
        invariant
            i <= p <= s@.len(),
            count == line_number(s@, i as int),
            count <= i,
        decreases p - i,
    {
        if s[i] == '\n' {
            count += 1;
        }
        i += 1;
    }
    count
}

/// Position at which line `n` starts.
pub fn start_of_nth_line(s: &Vec<char>, n: usize) -> (r: usize)
    requires
        n <= last_line(s@),
    ensures
        r == nth_line_start(s@, n as nat),
        r <= s@.len(),
{
    let total: usize = s.len();
    let mut i: usize = 0;
    let mut start: usize = 0;
    while i < n
        invariant
            total == s@.len(),
            i <= n <= last_line(s@),
            start == nth_line_start(s@, i as nat),
            start <= s@.len(),
        decreases n - i,
    {
        let end: usize = end_of_line(s, start);
        proof {
            lemma_nth_line_start(s@, i as nat);
            lemma_line_end(s@, start as int);
            lemma_nth_line_start(s@, (i + 1) as nat);
        }
        start = end + 1;
        i += 1;
    }
    start
}

/// The position nearest to `column` between `start` and `end`.
pub fn position_at_column(s: &Vec<char>, start: usize, end: usize, column: usize) -> (r: usize)
    requires
        start <= end <= s@.len(),
    ensures
        r == at_column_from(s@, start as int, end as int, 0, column as int),
        start <= r <= end,
{
    let mut i: usize = start;
    let mut width: u128 = 0;
    while i < end
        invariant
            start <= i <= end <= s@.len(),
            width <= (i - start) * 0xffff_ffff_ffff_ffff,
            at_column_from(s@, i as int, end as int, width as int, column as int)
                == at_column_from(s@, start as int, end as int, 0, column as int),
        decreases end - i,
    {
        let w: u128 = display_width(char_text(s[i]).as_str()) as u128;
        assert(end <= 0xffff_ffff_ffff_ffff);
        assert((i - start) * 0xffff_ffff_ffff_ffff <= 0xffff_ffff_ffff_ffff
            * 0xffff_ffff_ffff_ffff) by (nonlinear_arith)
            requires
                0 <= i - start <= 0xffff_ffff_ffff_ffff,
        ;
        if (column as u128) < width + (w + 1) / 2 {
            return i;
        }
        if (column as u128) < width + w {
            return i + 1;
        }
        width = width + w;
        i += 1;
    }
    end
}

/// The position in line `line` that is nearest to `column`.
pub fn position_in_line(s: &Vec<char>, line: usize, column: usize) -> (r: usize)
    ensures
        r == at_column(s@, line as nat, column as int),
        r <= s@.len(),
{
    let last: usize = number_of_line(s, s.len());
    let n: usize = if line <= last {
        line
    } else {
        last
    };
    let start: usize = start_of_nth_line(s, n);
    let end: usize = end_of_line(s, start);
    position_at_column(s, start, end, column)
}

/// Columns from the start of its line to position `p`.
pub fn column_at(text: &str, s: &Vec<char>, p: usize) -> (r: usize)
    requires
        p <= s@.len(),
        s@ == text@,
    ensures
        r == column_of(s@, p as int),
{
    let start: usize = start_of_line(s, p);
    display_width(slice(text, start, p))
}

/// Whether Unicode counts `c` as a letter or a number.
pub uninterp spec fn char_is_alphanumeric(c: char) -> bool;

/// `char::is_alphanumeric` of std. Of the characters in ASCII it holds for
/// the letters and the digits only.
#[verifier::external_body]
pub(crate) fn alphanumeric(c: char) -> (r: bool)
    ensures
        r == char_is_alphanumeric(c),
        c as u32 <= 0x7f ==> r == (is_ascii_letter(c) || is_digit_char(c)),
{
    c.is_alphanumeric()
}

/// Sort of character for movement by words: white space, part of a word, or
/// anything else.
pub open spec fn word_class(c: char) -> u8 {
    if is_white(c) {
        0
    } else if char_is_alphanumeric(c) || c == '_' {
        1
    } else {
        2
    }
}

/// First position from `i` on whose character is not of class `class`.
pub open spec fn class_end(s: Seq<char>, i: int, class: u8) -> int
    decreases s.len() - i,
{
    if i >= s.len() || word_class(s[i]) != class {
        i
    } else {
        class_end(s, i + 1, class)
    }
}

/// First position of the run of class `class` that ends at `i`.
pub open spec fn class_start(s: Seq<char>, i: int, class: u8) -> int
    decreases i,
{
    if i <= 0 || word_class(s[i - 1]) != class {
        i
    } else {
        class_start(s, i - 1, class)
    }
}

/// Where the next word starts.
pub open spec fn next_word(s: Seq<char>, at: int) -> int {
    let class = word_class(s[at]);
    let end = class_end(s, at, class);
    if class == 0 {
        end
    } else {
        class_end(s, end, 0)
    }
}

/// Where the word before `at` starts.
pub open spec fn previous_word(s: Seq<char>, at: int) -> int {
    let end = class_start(s, at, 0);
    if end <= 0 {
        0
    } else {
        class_start(s, end, word_class(s[end - 1]))
    }
}

pub fn vim_word_class(character: char) -> (r: u8)
    ensures
        r == word_class(character),
{
    if white(character) {
        0
    } else if alphanumeric(character) || character == '_' {
        1
    } else {
        2
    }
}

/// First position from `i` on whose character is not of class `class`.
pub fn end_of_class(s: &Vec<char>, i: usize, class: u8) -> (r: usize)
    requires
        i <= s@.len(),
    ensures
        r == class_end(s@, i as int, class),
        i <= r <= s@.len(),
{
    let mut j: usize = i;
    while j < s.len() && vim_word_class(s[j]) == class
        invariant
            i <= j <= s@.len(),
            class_end(s@, j as int, class) == class_end(s@, i as int, class),
        decreases s@.len() - j,
    {
        j += 1;
    }
    j
}

/// First position of the run of class `class` that ends at `i`.
pub fn start_of_class(s: &Vec<char>, i: usize, class: u8) -> (r: usize)
    requires
        i <= s@.len(),
    ensures
        r == class_start(s@, i as int, class),
        r <= i,
{
    let mut j: usize = i;
    while j > 0 && vim_word_class(s[j - 1]) == class
        invariant
            j <= i <= s@.len(),
            class_start(s@, j as int, class) == class_start(s@, i as int, class),
        decreases j,
    {
        j -= 1;
    }
    j
}

} // verus!
