//! Lines of text in the dialogs, as they are drawn.

use crate::text::{byte_len, char_position, join2, lemma_boundary, string_of};
use crate::tui::content::{
    LineView, PieceView, StyledLine, blank_line, piece, pieces_text, styled, tinted,
};
use crate::tui::geometry::{Rect, at_most, before, capped};
use crate::tui::input::{InputView, TextInput, law_cursor_is_seen};
use crate::tui::modal::ModalInputHitbox;
use crate::tui::style::{Color, Style};
use crate::tui::tables::less;
use crate::tui::width::{display_columns, display_width, line_width};
use vstd::prelude::*;
use vstd::string::*;

verus! {

/// How a label looks; `active` where its line has the focus.
pub open spec fn label_look(active: bool) -> Style {
    if active {
        Style::of(Some(Color::Accent), None).heavy()
    } else {
        Style::of(Some(Color::Dim), None)
    }
}

/// How the mark before a line looks; `active` where it has the focus.
pub open spec fn marker_look(active: bool) -> Style {
    if active {
        Style::of(Some(Color::Accent), None).heavy()
    } else {
        Style::of(Some(Color::Subtle), None)
    }
}

/// The mark before a line; `active` where it has the focus.
pub open spec fn marker(active: bool) -> Seq<char> {
    if active {
        "› "@
    } else {
        "  "@
    }
}

/// How selected text looks.
pub open spec fn selected_look() -> Style {
    Style::of(Some(Color::Black), Some(Color::Accent)).heavy()
}

/// `n`, but from `low` to `high`.
pub open spec fn between(n: int, low: int, high: int) -> int {
    if n < low {
        low
    } else {
        at_most(n, high)
    }
}

/// A piece of text, where it is not empty.
pub open spec fn part(chars: Seq<char>, from: int, to: int, style: Style) -> Seq<PieceView> {
    if from < to {
        seq![styled(chars.subrange(from, to), style)]
    } else {
        Seq::empty()
    }
}

/// The pieces of what is seen of a text in `width` columns.
pub open spec fn value_pieces(
    active: bool,
    input: InputView,
    placeholder: Seq<char>,
    width: int,
) -> Seq<PieceView> {
    let base = if active {
        Style::of(None, None).heavy()
    } else {
        Style::of(None, None)
    };
    let (from, to) = input.seen(width);
    if input.chars.len() == 0 {
        seq![tinted(placeholder, Color::Subtle)]
    } else {
        match input.selection() {
            None => seq![styled(input.chars.subrange(from, to), base)],
            Some((first, last)) => {
                let a = between(first, from, to);
                let b = between(last, from, to);
                part(input.chars, from, a, base) + part(input.chars, a, b, selected_look()) + part(
                    input.chars,
                    b,
                    to,
                    base,
                )
            },
        }
    }
}

/// A labeled line of text.
pub open spec fn input_line(
    active: bool,
    label: Seq<char>,
    input: InputView,
    placeholder: Seq<char>,
    width: int,
) -> LineView {
    LineView {
        pieces: seq![
            styled(marker(active), marker_look(active)),
            styled(label + "  "@, label_look(active)),
        ] + value_pieces(active, input, placeholder, width),
        style: if active {
            Style::of(None, Some(Color::Surface))
        } else {
            Style::of(None, Some(Color::PanelBg))
        },
    }
}

/// How a label looks; `active` where its line has the focus.
pub fn label_style(active: bool) -> (r: Style)
    ensures
        r == label_look(active),
{
    if active {
        Style::with_fg(Color::Accent).bold()
    } else {
        Style::with_fg(Color::Dim)
    }
}

/// How the mark before a line looks; `active` where it has the focus.
pub fn marker_style(active: bool) -> (r: Style)
    ensures
        r == marker_look(active),
{
    if active {
        Style::with_fg(Color::Accent).bold()
    } else {
        Style::with_fg(Color::Subtle)
    }
}

/// The mark before a line; `active` where it has the focus.
pub fn marker_text(active: bool) -> (r: &'static str)
    ensures
        r@ == marker(active),
{
    if active {
        "› "
    } else {
        "  "
    }
}

/// The style behind a line of text; `active` where it has the focus.
pub fn field_style(active: bool) -> (r: Style)
    ensures
        r == if active {
            Style::of(None, Some(Color::Surface))
        } else {
            Style::of(None, Some(Color::PanelBg))
        },
{
    if active {
        Style { bg: Some(Color::Surface), ..Style::plain() }
    } else {
        Style { bg: Some(Color::PanelBg), ..Style::plain() }
    }
}

/// Adds a piece of `text`, where it is not empty.
fn add_part(line: &mut StyledLine, text: &str, from: usize, to: usize, style: Style)
    requires
        from < to ==> to <= text@.len(),
    ensures
        final(line)@.pieces == old(line)@.pieces + part(
            text@,
            from as int,
            to as int,
            style,
        ),
        final(line)@.style == old(line)@.style,
{
    let ghost before = line@.pieces;
    if from < to {
        let piece = text.substring_char(from, to);
        line.put(piece, style);
        assert(piece@ =~= text@.subrange(from as int, to as int));
    }
    assert(line@.pieces =~= before + part(text@, from as int, to as int, style));
}

fn clamp_between(n: usize, low: usize, high: usize) -> (r: usize)
    requires
        low <= high,
    ensures
        r == between(n as int, low as int, high as int),
{
    if n < low {
        low
    } else if n > high {
        high
    } else {
        n
    }
}

/// Adds the pieces of what is seen of a text in `width` columns.
fn add_value(line: &mut StyledLine, active: bool, input: &TextInput, placeholder: &str, width: usize)
    requires
        input.wf(),
    ensures
        final(line)@.pieces == old(line)@.pieces + value_pieces(
            active,
            input@,
            placeholder@,
            width as int,
        ),
        final(line)@.style == old(line)@.style,
{
    let ghost before = line@.pieces;
    let text = input.value.as_str();
    if text.is_empty() {
        line.tint(placeholder, Color::Subtle);
        assert(line@.pieces =~= before + value_pieces(
            active,
            input@,
            placeholder@,
            width as int,
        ));
        return;
    }
    let base = if active {
        Style::plain().bold()
    } else {
        Style::plain()
    };
    proof {
        input.lemma_view();
        law_cursor_is_seen(input@, width as int);
    }
    let (first, last) = input.visible_range(width);
    let from: usize = char_position(text, first);
    let to: usize = char_position(text, last);
    match input.selection() {
        None => {
            let piece = text.substring_char(from, to);
            assert(piece@ =~= text@.subrange(from as int, to as int));
            line.put(piece, base);
            assert(line@.pieces =~= before + value_pieces(
                active,
                input@,
                placeholder@,
                width as int,
            ));
        },
        Some((selected_start, selected_end)) => {
            let a: usize = clamp_between(char_position(text, selected_start), from, to);
            let b: usize = clamp_between(char_position(text, selected_end), from, to);
            add_part(line, text, from, a, base);
            add_part(line, text, a, b, Style::on(Color::Black, Color::Accent).bold());
            add_part(line, text, b, to, base);
            assert(line@.pieces =~= before + value_pieces(
                active,
                input@,
                placeholder@,
                width as int,
            ));
        },
    }
}

/// A labeled line of text.
pub fn modal_input_line(
    active: bool,
    label: &str,
    input: &TextInput,
    placeholder: &str,
    max_value_width: usize,
) -> (r: StyledLine)
    requires
        input.wf(),
    ensures
        r@ == input_line(active, label@, input@, placeholder@, max_value_width as int),
{
    let mut line = blank_line();
    line.put(marker_text(active), marker_style(active));
    line.put(join2(label, "  ").as_str(), label_style(active));
    let ghost head = line@.pieces;
    assert(head =~= seq![
        styled(marker(active), marker_look(active)),
        styled(label@ + "  "@, label_look(active)),
    ]);
    add_value(&mut line, active, input, placeholder, max_value_width);
    line.style = field_style(active);
    line
}

/// The columns that are left for a text behind its label.
pub open spec fn value_width(line_width: u16, label: Seq<char>) -> int {
    if line_width >= 4 + display_columns(label) {
        line_width - (4 + display_columns(label))
    } else {
        0
    }
}

/// The columns that are left for a text behind its label.
pub fn input_value_width(line_width: u16, label: &str) -> (r: usize)
    ensures
        r == value_width(line_width, label@),
{
    (line_width as usize).saturating_sub(display_width(label).saturating_add(4))
}

/// A number of columns as the screen counts them.
pub open spec fn cells(n: nat) -> u16 {
    if n > u16::MAX {
        u16::MAX
    } else {
        n as u16
    }
}

fn to_cells(n: usize) -> (r: u16)
    ensures
        r == cells(n as nat),
{
    if n > 65535 {
        65535
    } else {
        n as u16
    }
}

/// The column where a text begins behind its label.
pub open spec fn value_column(inner: Rect, label: Seq<char>) -> u16 {
    capped(capped(capped(inner.x, 2), cells(display_columns(label))), 2)
}

fn column_of_value(inner: Rect, label: &str) -> (r: u16)
    ensures
        r == value_column(inner, label@),
{
    inner.x.saturating_add(2).saturating_add(to_cells(display_width(label))).saturating_add(2)
}

/// Where a text stands, in row `row` of a dialog, and what is seen of it.
pub open spec fn value_hit(
    inner: Rect,
    label: Seq<char>,
    input: InputView,
    field: usize,
    row: u16,
    width: int,
) -> ModalInputHitbox {
    ModalInputHitbox {
        area: Rect {
            x: value_column(inner, label),
            y: capped(inner.y, row),
            width: cells(width as nat),
            height: 1,
        },
        field,
        visible_start: byte_len(input.chars.take(input.seen(width).0)) as usize,
        visible_end: byte_len(input.chars.take(input.seen(width).1)) as usize,
    }
}

/// Where a text stands, in row `row` of a dialog, and what is seen of it.
pub fn input_hitbox(
    inner: Rect,
    label: &str,
    input: &TextInput,
    field: usize,
    row: u16,
    width: usize,
) -> (r: ModalInputHitbox)
    requires
        input.wf(),
    ensures
        r == value_hit(inner, label@, input@, field, row, width as int),
        r.fits(input@.chars),
{
    let (visible_start, visible_end) = input.visible_range(width);
    proof {
        lemma_boundary(input.value@, visible_start as int);
        lemma_boundary(input.value@, visible_end as int);
    }
    ModalInputHitbox {
        area: Rect {
            x: column_of_value(inner, label),
            y: inner.y.saturating_add(row),
            width: to_cells(width),
            height: 1,
        },
        field,
        visible_start,
        visible_end,
    }
}

/// A cell of a dialog for a choice in row `row`.
pub open spec fn choice_hit(inner: Rect, field: usize, row: u16) -> ModalInputHitbox {
    ModalInputHitbox {
        area: Rect { x: inner.x, y: capped(inner.y, row), width: inner.width, height: 1 },
        field,
        visible_start: 0,
        visible_end: 0,
    }
}

/// A cell of a dialog for a choice in row `row`.
pub fn choice_hitbox(inner: Rect, field: usize, row: u16) -> (r: ModalInputHitbox)
    ensures
        r == choice_hit(inner, field, row),
{
    ModalInputHitbox {
        area: Rect { x: inner.x, y: inner.y.saturating_add(row), width: inner.width, height: 1 },
        field,
        visible_start: 0,
        visible_end: 0,
    }
}

/// The cell of the cursor, `columns` behind the begin of a text in row `row`.
pub open spec fn cursor_cell(inner: Rect, label: Seq<char>, columns: nat, row: u16) -> (u16, u16) {
    (
        at_most(
            capped(value_column(inner, label), cells(columns)) as int,
            less(inner.right_edge(), 1) as int,
        ) as u16,
        capped(inner.y, row),
    )
}

/// The columns from the first character that is seen to the cursor.
pub open spec fn columns_to_cursor(input: InputView, width: int) -> nat {
    display_columns(input.chars.subrange(input.seen(width).0, input.at))
}

fn cell_of_cursor(inner: Rect, label: &str, columns: usize, row: u16) -> (r: (u16, u16))
    ensures
        r == cursor_cell(inner, label@, columns as nat, row),
{
    let x: u16 = column_of_value(inner, label).saturating_add(to_cells(columns));
    let last: u16 = inner.right().saturating_sub(1);
    let column: u16 = if x < last {
        x
    } else {
        last
    };
    (column, inner.y.saturating_add(row))
}

/// The cell of the cursor of a text in row `row`.
pub fn input_cursor(inner: Rect, label: &str, input: &TextInput, row: u16, width: usize) -> (r: (
    u16,
    u16,
))
    requires
        input.wf(),
    ensures
        r == cursor_cell(inner, label@, columns_to_cursor(input@, width as int), row),
{
    proof {
        input.lemma_view();
        law_cursor_is_seen(input@, width as int);
    }
    let text = input.value.as_str();
    let (first, _) = input.visible_range(width);
    let from: usize = char_position(text, first);
    let at: usize = char_position(text, input.cursor);
    let before = text.substring_char(from, at);
    assert(before@ =~= input@.chars.subrange(from as int, at as int));
    cell_of_cursor(inner, label, display_width(before), row)
}

/// The cell of the cursor of a text that is hidden, in row `row`: one column
/// stands for each of its characters.
pub fn hidden_cursor(inner: Rect, label: &str, input: &TextInput, row: u16, width: usize) -> (r: (
    u16,
    u16,
))
    requires
        input.wf(),
    ensures
        r == cursor_cell(
            inner,
            label@,
            (input@.at - input@.seen(width as int).0) as nat,
            row,
        ),
{
    proof {
        input.lemma_view();
        law_cursor_is_seen(input@, width as int);
    }
    let text = input.value.as_str();
    let (first, _) = input.visible_range(width);
    let from: usize = char_position(text, first);
    let at: usize = char_position(text, input.cursor);
    cell_of_cursor(inner, label, at - from, row)
}

/// What stands for a text that is hidden: a dot for each character that is
/// seen.
pub open spec fn hidden_text(input: InputView, width: int) -> Seq<char> {
    Seq::new((input.seen(width).1 - input.seen(width).0) as nat, |i: int| '•')
}

/// What stands for a text that is hidden.
pub fn mask(input: &TextInput, width: usize) -> (r: String)
    requires
        input.wf(),
    ensures
        r@ == hidden_text(input@, width as int),
{
    proof {
        input.lemma_view();
        law_cursor_is_seen(input@, width as int);
    }
    let text = input.value.as_str();
    let (first, last) = input.visible_range(width);
    let count: usize = char_position(text, last) - char_position(text, first);
    let mut dots: Vec<char> = Vec::new();
    while dots.len() < count
        invariant
            dots@.len() <= count,
            forall|k: int| 0 <= k < dots@.len() ==> dots@[k] == '•',
        decreases count - dots@.len(),
    {
        dots.push('•');
    }
    assert(dots@ =~= hidden_text(input@, width as int));
    string_of(dots.as_slice())
}

/// A dialog shows nothing but dots of a text that is hidden.
pub proof fn law_hidden_text_shows_only_dots(input: InputView, width: int, i: int)
    requires
        0 <= i < hidden_text(input, width).len(),
    ensures
        hidden_text(input, width)[i] == '•',
{
}

/// The pieces of a line of text show what is seen of it, selected or not.
pub proof fn law_selection_does_not_change_the_text(
    active: bool,
    input: InputView,
    placeholder: Seq<char>,
    width: int,
)
    requires
        0 <= input.at <= input.chars.len(),
        0 <= width,
        input.chars.len() > 0,
    ensures
        pieces_text(value_pieces(active, input, placeholder, width)) == input.chars.subrange(
            input.seen(width).0,
            input.seen(width).1,
        ),
{
    law_cursor_is_seen(input, width);
    let (from, to) = input.seen(width);
    let base = if active {
        Style::of(None, None).heavy()
    } else {
        Style::of(None, None)
    };
    match input.selection() {
        None => {
            let one = styled(input.chars.subrange(from, to), base);
            lemma_one_piece(one);
        },
        Some((first, last)) => {
            let a = between(first, from, to);
            let b = between(last, from, to);
            let p = part(input.chars, from, a, base);
            let q = part(input.chars, a, b, selected_look());
            let r = part(input.chars, b, to, base);
            lemma_part(input.chars, from, a, base);
            lemma_part(input.chars, a, b, selected_look());
            lemma_part(input.chars, b, to, base);
            lemma_pieces_text_add(p, q);
            lemma_pieces_text_add(p + q, r);
            assert(input.chars.subrange(from, a) + input.chars.subrange(a, b)
                + input.chars.subrange(b, to) =~= input.chars.subrange(from, to));
        },
    }
}

proof fn lemma_one_piece(piece: PieceView)
    ensures
        pieces_text(seq![piece]) == piece.text,
{
    assert(seq![piece].drop_last() =~= Seq::<PieceView>::empty());
    assert(pieces_text(seq![piece].drop_last()) =~= Seq::<char>::empty());
    assert(Seq::<char>::empty() + piece.text =~= piece.text);
}

proof fn lemma_part(chars: Seq<char>, from: int, to: int, style: Style)
    requires
        0 <= from <= to <= chars.len(),
    ensures
        pieces_text(part(chars, from, to, style)) == chars.subrange(from, to),
{
    if from < to {
        lemma_one_piece(styled(chars.subrange(from, to), style));
    } else {
        assert(chars.subrange(from, to) =~= Seq::<char>::empty());
    }
}

pub proof fn lemma_pieces_text_add(a: Seq<PieceView>, b: Seq<PieceView>)
    ensures
        pieces_text(a + b) == pieces_text(a) + pieces_text(b),
    decreases b.len(),
{
    if b.len() == 0 {
        assert(a + b =~= a);
        assert(pieces_text(a) + Seq::<char>::empty() =~= pieces_text(a));
    } else {
        lemma_pieces_text_add(a, b.drop_last());
        assert((a + b).drop_last() =~= a + b.drop_last());
        assert(pieces_text(a) + (pieces_text(b.drop_last()) + b.last().text) =~= pieces_text(a)
            + pieces_text(b.drop_last()) + b.last().text);
    }
}

} // verus!
