//! Styled text, as it goes to the screen.

use crate::tui::style::{Color, Style};
use vstd::prelude::*;
use vstd::string::*;

verus! {

/// A piece of text in one style.
#[derive(Debug)]
pub struct Piece {
    pub text: String,
    pub style: Style,
}

/// What a piece shows.
pub struct PieceView {
    pub text: Seq<char>,
    pub style: Style,
}

impl View for Piece {
    type V = PieceView;

    open spec fn view(&self) -> PieceView {
        PieceView { text: self.text@, style: self.style }
    }
}

/// A line made of pieces, with a style of its own beneath theirs.
#[derive(Debug)]
pub struct StyledLine {
    pub pieces: Vec<Piece>,
    pub style: Style,
}

/// What a line shows.
#[verifier::ext_equal]
pub struct LineView {
    pub pieces: Seq<PieceView>,
    pub style: Style,
}

/// What some pieces show.
pub open spec fn piece_views(pieces: Seq<Piece>) -> Seq<PieceView> {
    pieces.map_values(|p: Piece| p@)
}

impl View for StyledLine {
    type V = LineView;

    open spec fn view(&self) -> LineView {
        LineView { pieces: piece_views(self.pieces@), style: self.style }
    }
}

/// What some lines show.
pub open spec fn line_views(lines: Seq<StyledLine>) -> Seq<LineView> {
    lines.map_values(|l: StyledLine| l@)
}

impl LineView {
    /// A line of the given pieces without a style of its own.
    pub open spec fn of(pieces: Seq<PieceView>) -> LineView {
        LineView { pieces, style: Style::of(None, None) }
    }

    /// A line without any text.
    pub open spec fn blank() -> LineView {
        LineView::of(Seq::empty())
    }

    /// A line in one style.
    pub open spec fn one(text: Seq<char>, style: Style) -> LineView {
        LineView::of(seq![PieceView { text, style }])
    }

    /// The line on a style of its own.
    pub open spec fn over(self, style: Style) -> LineView {
        LineView { style, ..self }
    }

    /// The characters of the line.
    pub open spec fn text(self) -> Seq<char> {
        pieces_text(self.pieces)
    }
}

/// The characters of some pieces.
pub open spec fn pieces_text(pieces: Seq<PieceView>) -> Seq<char>
    decreases pieces.len(),
{
    if pieces.len() == 0 {
        Seq::empty()
    } else {
        pieces_text(pieces.drop_last()) + pieces.last().text
    }
}

/// A piece of text in one style.
pub open spec fn styled(text: Seq<char>, style: Style) -> PieceView {
    PieceView { text, style }
}

/// A piece of text in the terminal's own colours.
pub open spec fn unstyled(text: Seq<char>) -> PieceView {
    PieceView { text, style: Style::of(None, None) }
}

/// A piece of text in one colour.
pub open spec fn tinted(text: Seq<char>, color: Color) -> PieceView {
    PieceView { text, style: Style::of(Some(color), None) }
}

pub proof fn lemma_pieces_push(pieces: Seq<Piece>, piece: Piece)
    ensures
        piece_views(pieces.push(piece)) == piece_views(pieces).push(piece@),
{
    assert(piece_views(pieces.push(piece)) =~= piece_views(pieces).push(piece@));
}

pub proof fn lemma_lines_push(lines: Seq<StyledLine>, line: StyledLine)
    ensures
        line_views(lines.push(line)) == line_views(lines).push(line@),
{
    assert(line_views(lines.push(line)) =~= line_views(lines).push(line@));
}

/// The same pieces, taken apart by position, show the same.
pub proof fn lemma_no_pieces()
    ensures
        piece_views(Seq::empty()) == Seq::<PieceView>::empty(),
        line_views(Seq::empty()) == Seq::<LineView>::empty(),
{
    assert(piece_views(Seq::empty()) =~= Seq::<PieceView>::empty());
    assert(line_views(Seq::empty()) =~= Seq::<LineView>::empty());
}

/// A piece of text in one style.
pub fn piece(text: &str, style: Style) -> (r: Piece)
    ensures
        r@ == styled(text@, style),
{
    Piece { text: text.to_owned(), style }
}

/// A piece of text in the terminal's own colours.
pub fn raw(text: &str) -> (r: Piece)
    ensures
        r@ == unstyled(text@),
{
    Piece { text: text.to_owned(), style: Style::plain() }
}

/// A piece of text in one colour.
pub fn colored(text: &str, color: Color) -> (r: Piece)
    ensures
        r@ == tinted(text@, color),
{
    Piece { text: text.to_owned(), style: Style::with_fg(color) }
}

/// A line without any text.
pub fn blank_line() -> (r: StyledLine)
    ensures
        r@ == LineView::blank(),
{
    proof {
        lemma_no_pieces();
    }
    StyledLine { pieces: Vec::new(), style: Style::plain() }
}

/// A line in one style.
pub fn line_of(text: &str, style: Style) -> (r: StyledLine)
    ensures
        r@ == LineView::one(text@, style),
{
    let mut line = blank_line();
    line.add(piece(text, style));
    assert(line@ =~= LineView::one(text@, style));
    line
}

impl StyledLine {
    /// Adds a piece at the end of the line.
    pub fn add(&mut self, piece: Piece)
        ensures
            final(self)@ == (LineView {
                pieces: old(self)@.pieces.push(piece@),
                style: old(self)@.style,
            }),
    {
        proof {
            lemma_pieces_push(self.pieces@, piece);
        }
        self.pieces.push(piece);
    }

    /// Adds text in one style.
    pub fn put(&mut self, text: &str, style: Style)
        ensures
            final(self)@ == (LineView {
                pieces: old(self)@.pieces.push(styled(text@, style)),
                style: old(self)@.style,
            }),
    {
        self.add(piece(text, style));
    }

    /// Adds text in one colour.
    pub fn tint(&mut self, text: &str, color: Color)
        ensures
            final(self)@ == (LineView {
                pieces: old(self)@.pieces.push(tinted(text@, color)),
                style: old(self)@.style,
            }),
    {
        self.add(colored(text, color));
    }

    /// Adds text in the terminal's own colours.
    pub fn plain(&mut self, text: &str)
        ensures
            final(self)@ == (LineView {
                pieces: old(self)@.pieces.push(unstyled(text@)),
                style: old(self)@.style,
            }),
    {
        self.add(raw(text));
    }
}

/// Adds a line.
pub fn push_line(lines: &mut Vec<StyledLine>, line: StyledLine)
    ensures
        line_views(final(lines)@) == line_views(old(lines)@).push(line@),
{
    proof {
        lemma_lines_push(lines@, line);
    }
    lines.push(line);
}

} // verus!
