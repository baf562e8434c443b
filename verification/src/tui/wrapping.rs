//! How many rows of the screen lines of text take.

use crate::search::{lemma_texts_push, lines, texts, trim};
use crate::text::{char_count, chars_of};
use crate::tui::content::{LineView, PieceView, StyledLine, line_views, piece, raw};
use crate::tui::geometry::{Rect, at_most, behind};
use vstd::prelude::*;
use vstd::string::*;

verus! {

/// Number of rows that the pieces of one line take when they are wrapped at
/// `width` columns.
pub uninterp spec fn wrapped_rows(pieces: Seq<Seq<char>>, width: u16) -> nat;

/// Columns at which lines of any kind are wrapped.
pub const WRAP_LIMIT: u16 = 16383;

/// Columns at which lines of ASCII characters alone are wrapped.
pub const ASCII_WRAP_LIMIT: u16 = 65533;

/// Characters of a line that is wrapped at any number of columns.
pub const SHORT_LINE: usize = 21845;

/// Number of characters in texts.
pub open spec fn characters(pieces: Seq<Seq<char>>) -> nat
    decreases pieces.len(),
{
    if pieces.len() == 0 {
        0
    } else {
        characters(pieces.drop_last()) + pieces.last().len()
    }
}

pub open spec fn is_ascii_text(s: Seq<char>) -> bool {
    forall|i: int| 0 <= i < s.len() ==> #[trigger] s[i] <= '\u{7f}'
}

/// Whether the pieces of a line can be wrapped at `width` columns.
pub open spec fn can_wrap(pieces: Seq<Seq<char>>, width: u16) -> bool {
    ||| width <= WRAP_LIMIT
    ||| characters(pieces) <= SHORT_LINE
    ||| width <= ASCII_WRAP_LIMIT && forall|i: int|
        0 <= i < pieces.len() ==> is_ascii_text(#[trigger] pieces[i])
}

/// The columns at which the pieces of a line are wrapped on a screen of `width`
/// columns: all of them, but for long lines on screens of more columns than any
/// has.
pub open spec fn wrap_width(pieces: Seq<Seq<char>>, width: u16) -> u16 {
    if can_wrap(pieces, width) {
        width
    } else {
        WRAP_LIMIT
    }
}

/// Number of rows that a line takes: `ratatui::widgets::Paragraph::line_count`
/// of the line made of `pieces`, wrapped at `width` columns with leading spaces
/// kept. It is a function of the texts and the width alone. It adds up widths in
/// 16 bits: no sum is more than four times `width`, or three columns for each
/// character of the line, or two more than `width` where each character is one
/// column wide.
#[verifier::external_body]
fn paragraph_rows(pieces: &Vec<String>, width: u16) -> (r: usize)
    requires
        can_wrap(texts(pieces@), width),
    ensures
        r == wrapped_rows(texts(pieces@), width),
{
    let spans: Vec<ratatui::text::Span> = pieces
        .iter()
        .map(|piece| ratatui::text::Span::raw(piece.as_str()))
        .collect();
    ratatui::widgets::Paragraph::new(ratatui::text::Line::from(spans))
        .wrap(ratatui::widgets::Wrap { trim: false })
        .line_count(width)
}

/// The texts of the pieces of a line.
pub open spec fn piece_texts(line: LineView) -> Seq<Seq<char>> {
    line.pieces.map_values(|p: PieceView| p.text)
}

/// Number of rows that a line takes, at least one.
pub open spec fn rows_of(line: LineView, width: u16) -> nat {
    let pieces = piece_texts(line);
    let rows = wrapped_rows(pieces, wrap_width(pieces, width));
    if rows == 0 {
        1
    } else {
        rows
    }
}

/// Number of rows that the first `n` lines take.
pub open spec fn rows_before(lines: Seq<LineView>, width: u16, n: int) -> nat
    decreases n,
{
    if n <= 0 {
        0
    } else {
        rows_before(lines, width, n - 1) + rows_of(lines[n - 1], width)
    }
}

/// The first row of line `n`, or the largest `usize` where it lies behind that.
pub open spec fn row_of(lines: Seq<LineView>, width: u16, n: int) -> int {
    at_most(rows_before(lines, width, n) as int, usize::MAX as int)
}

fn ascii_text(s: &str) -> (r: bool)
    ensures
        r == is_ascii_text(s@),
{
    let chars = chars_of(s);
    let mut i: usize = 0;
    while i < chars.len()
        invariant
            chars@ == s@,
            i <= chars@.len(),
            forall|k: int| 0 <= k < i ==> #[trigger] chars@[k] <= '\u{7f}',
        decreases chars@.len() - i,
    {
        if chars[i] > '\u{7f}' {
            assert(chars@[i as int] > '\u{7f}');
            return false;
        }
        i += 1;
    }
    true
}

/// Number of rows that a line takes, at least one.
pub fn line_height(line: &StyledLine, width: u16) -> (r: usize)
    ensures
        r == rows_of(line@, width),
{
    let mut pieces: Vec<String> = Vec::new();
    let mut count: usize = 0;
    let mut ascii: bool = true;
    let ghost all = piece_texts(line@);
    let mut i: usize = 0;
    assert(texts(pieces@) =~= all.take(0));
    while i < line.pieces.len()
        invariant
            i <= line.pieces@.len(),
            all == piece_texts(line@),
            all.len() == line.pieces@.len(),
            texts(pieces@) == all.take(i as int),
            count == at_most(characters(all.take(i as int)) as int, usize::MAX as int),
            ascii == forall|k: int| 0 <= k < i ==> is_ascii_text(#[trigger] all[k]),
        decreases line.pieces@.len() - i,
    {
        let text = line.pieces[i].text.clone();
        proof {
            lemma_texts_push(pieces@, text);
        }
        assert(line@.pieces[i as int] == line.pieces@[i as int]@);
        assert(all[i as int] == text@);
        assert(all.take(i + 1) =~= all.take(i as int).push(text@));
        assert(all.take(i + 1).drop_last() =~= all.take(i as int));
        count = count.saturating_add(char_count(text.as_str()));
        ascii = ascii && ascii_text(text.as_str());
        pieces.push(text);
        i += 1;
    }
    assert(all.take(i as int) =~= all);
    let columns: u16 = if width <= WRAP_LIMIT || count <= SHORT_LINE || (width <= ASCII_WRAP_LIMIT
        && ascii) {
        width
    } else {
        WRAP_LIMIT
    };
    let rows: usize = paragraph_rows(&pieces, columns);
    if rows == 0 {
        1
    } else {
        rows
    }
}

/// Number of rows that lines take.
pub fn total_height(lines: &Vec<StyledLine>, width: u16) -> (r: usize)
    ensures
        r == row_of(line_views(lines@), width, lines@.len() as int),
{
    let ghost all = line_views(lines@);
    let mut total: usize = 0;
    let mut i: usize = 0;
    while i < lines.len()
        invariant
            i <= lines@.len(),
            all == line_views(lines@),
            total == row_of(all, width, i as int),
        decreases lines@.len() - i,
    {
        assert(all[i as int] == lines@[i as int]@);
        total = total.saturating_add(line_height(&lines[i], width));
        i += 1;
    }
    total
}

/// The line from `k` on that row `row` shows, or the last one.
pub open spec fn line_at(lines: Seq<LineView>, width: u16, row: int, k: int) -> int
    decreases lines.len() - k,
{
    if k + 1 >= lines.len() || row < row_of(lines, width, k + 1) {
        k
    } else {
        line_at(lines, width, row, k + 1)
    }
}

/// The line that row `row` shows, or the last one.
pub fn line_of_row(lines: &Vec<StyledLine>, width: u16, row: usize) -> (r: usize)
    requires
        lines@.len() > 0,
    ensures
        r == line_at(line_views(lines@), width, row as int, 0),
        r < lines@.len(),
{
    let ghost all = line_views(lines@);
    let mut behind: usize = line_height(&lines[0], width);
    let mut k: usize = 0;
    proof {
        assert(all[0] == lines@[0]@);
        reveal_with_fuel(rows_before, 2);
    }
    while k < lines.len() - 1 && row >= behind
        invariant
            lines@.len() > 0,
            k < lines@.len(),
            all == line_views(lines@),
            behind == row_of(all, width, k + 1),
            line_at(all, width, row as int, k as int) == line_at(all, width, row as int, 0),
        decreases lines@.len() - k,
    {
        k += 1;
        assert(all[k as int] == lines@[k as int]@);
        behind = behind.saturating_add(line_height(&lines[k], width));
    }
    k
}

/// The columns inside of a frame, at least one.
pub open spec fn inner_width(area: Rect) -> u16 {
    if area.width > 3 {
        (area.width - 2) as u16
    } else {
        1
    }
}

/// The rows inside of a frame.
pub open spec fn inner_height(area: Rect) -> int {
    if area.height > 2 {
        area.height - 2
    } else {
        0
    }
}

/// The columns inside of a frame, at least one.
pub fn content_width(area: Rect) -> (r: u16)
    ensures
        r == inner_width(area),
{
    let width: u16 = area.width.saturating_sub(2);
    if width == 0 {
        1
    } else {
        width
    }
}

/// The rows inside of a frame.
pub fn content_height(area: Rect) -> (r: usize)
    ensures
        r == inner_height(area),
{
    area.height.saturating_sub(2) as usize
}

/// How far `total` rows can be scrolled in a frame.
pub open spec fn last_scroll(total: int, area: Rect) -> int {
    if total > inner_height(area) {
        total - inner_height(area)
    } else {
        0
    }
}

/// `scroll`, but not further than `total` rows can be scrolled in a frame.
pub fn limit_scroll(scroll: usize, total: usize, area: Rect) -> (r: usize)
    ensures
        r == at_most(scroll as int, last_scroll(total as int, area)),
{
    let limit: usize = total.saturating_sub(content_height(area));
    if scroll < limit {
        scroll
    } else {
        limit
    }
}

} // verus!
