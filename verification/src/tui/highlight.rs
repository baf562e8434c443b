//! Colouring TOML by what its parser makes of it.

use crate::search::texts;
use crate::text::{
    byte_len, byte_length, char_index, is_boundary, lemma_boundary, lemma_char_index,
    lemma_char_index_order, same,
};
use crate::tui::nesting::{nesting, nesting_depth};
use crate::tui::style::{Color, Style, TOML_COMMENT, TOML_KEY};
use vstd::prelude::*;
use vstd::string::*;

verus! {

/// A stretch of text, by byte offsets, with its style.
#[derive(Clone, Copy, Debug, PartialEq, Eq, Structural)]
pub struct TomlHighlight {
    pub start: usize,
    pub end: usize,
    pub style: Style,
}

/// A node or token of a syntax tree: the bytes it covers, the name of its
/// kind, and those of the nodes around it.
#[derive(Debug)]
pub struct SyntaxPiece {
    pub start: usize,
    pub end: usize,
    pub token: bool,
    pub kind: String,
    pub ancestors: Vec<String>,
}

impl SyntaxPiece {
    pub open spec fn parts(self) -> (usize, usize, bool, Seq<char>, Seq<Seq<char>>) {
        (self.start, self.end, self.token, self.kind@, texts(self.ancestors@))
    }
}

pub open spec fn piece_parts(pieces: Seq<SyntaxPiece>) -> Seq<
    (usize, usize, bool, Seq<char>, Seq<Seq<char>>),
> {
    pieces.map_values(|p: SyntaxPiece| p.parts())
}

/// The nodes and tokens that the parser finds in a TOML text, in the order in
/// which they start, outer ones first.
pub uninterp spec fn toml_pieces(text: Seq<char>) -> Seq<
    (usize, usize, bool, Seq<char>, Seq<Seq<char>>),
>;

/// How far the tokens among `pieces` reach, if the first one starts the text
/// and each other one starts where the one before it ends.
pub open spec fn reach(pieces: Seq<(usize, usize, bool, Seq<char>, Seq<Seq<char>>)>) -> Option<int>
    decreases pieces.len(),
{
    if pieces.len() == 0 {
        Some(0)
    } else {
        let p = pieces.last();
        let before = reach(pieces.drop_last());
        if !p.2 {
            before
        } else if before == Some(p.0 as int) && p.0 <= p.1 {
            Some(p.1 as int)
        } else {
            None
        }
    }
}

/// How deep the brackets of a text that is coloured may nest. So many inside each
/// other take about half of the stack that a thread is given, where nothing is
/// optimised.
pub const NESTING_LIMIT: usize = 400;

/// Whether a text is short and flat enough for the parser.
pub open spec fn parses(text: Seq<char>) -> bool {
    byte_len(text) <= u32::MAX && nesting(text) <= NESTING_LIMIT
}

/// The syntax tree of `text`: `taplo::parser::parse`, its nodes and tokens as
/// `descendants_with_tokens` lists them. What the parser finds is a function of
/// the text alone, and its tokens preserve every character: one behind the
/// other, they cover the text, and each is a text of its own. The parser counts
/// bytes in 32 bits, and calls itself once for each array or inline table inside
/// another. It has no more of them open than brackets are: strings, comments and
/// characters that are no token are none to it, and it leaves an array at each
/// `]` and an inline table at each `}`, but for one right behind a comma that
/// follows no value, which it may pass over with the comma.
#[verifier::external_body]
pub(crate) fn syntax_pieces(text: &str) -> (r: Vec<SyntaxPiece>)
    requires
        byte_len(text@) <= u32::MAX,
        nesting(text@) <= NESTING_LIMIT,
    ensures
        piece_parts(r@) == toml_pieces(text@),
        reach(piece_parts(r@)) == Some(byte_len(text@) as int),
        forall|i: int|
            0 <= i < r@.len() && (#[trigger] r@[i]).token ==> is_boundary(
                text@,
                r@[i].start as int,
            ) && is_boundary(text@, r@[i].end as int),
{
    let root = taplo::parser::parse(text).into_syntax();
    root.descendants_with_tokens().map(
        |piece| SyntaxPiece {
            start: u32::from(piece.text_range().start()) as usize,
            end: u32::from(piece.text_range().end()) as usize,
            token: piece.as_token().is_some(),
            kind: format!("{:?}", piece.kind()),
            ancestors: piece.ancestors().map(|node| format!("{:?}", node.kind())).collect(),
        },
    ).collect()
}

/// White on the surface of the editor.
pub open spec fn base_style() -> Style {
    Style::of(Some(Color::White), Some(Color::Surface))
}

/// Whether a token of this kind is a part of a key, inside of one.
pub open spec fn names_key(kind: Seq<char>) -> bool {
    ||| kind == "IDENT"@
    ||| kind == "IDENT_WITH_GLOB"@
    ||| kind == "PERIOD"@
    ||| is_string_kind(kind)
}

pub open spec fn is_string_kind(kind: Seq<char>) -> bool {
    ||| kind == "STRING"@
    ||| kind == "MULTI_LINE_STRING"@
    ||| kind == "STRING_LITERAL"@
    ||| kind == "MULTI_LINE_STRING_LITERAL"@
}

pub open spec fn is_number_kind(kind: Seq<char>) -> bool {
    ||| kind == "INTEGER"@
    ||| kind == "INTEGER_HEX"@
    ||| kind == "INTEGER_OCT"@
    ||| kind == "INTEGER_BIN"@
    ||| kind == "FLOAT"@
}

pub open spec fn is_time_kind(kind: Seq<char>) -> bool {
    ||| kind == "DATE_TIME_OFFSET"@
    ||| kind == "DATE_TIME_LOCAL"@
    ||| kind == "DATE"@
    ||| kind == "TIME"@
}

pub open spec fn is_punctuation_kind(kind: Seq<char>) -> bool {
    ||| kind == "BRACKET_START"@
    ||| kind == "BRACKET_END"@
    ||| kind == "BRACE_START"@
    ||| kind == "BRACE_END"@
    ||| kind == "PERIOD"@
    ||| kind == "COMMA"@
    ||| kind == "EQ"@
}

/// The style of a token of this kind.
pub open spec fn token_style(kind: Seq<char>, is_key: bool) -> Style {
    let base = base_style();
    if is_key && names_key(kind) {
        Style { fg: Some(TOML_KEY), bold: true, ..base }
    } else if kind == "COMMENT"@ {
        Style { fg: Some(TOML_COMMENT), italic: true, ..base }
    } else if is_string_kind(kind) {
        Style { fg: Some(Color::TomlString), ..base }
    } else if is_number_kind(kind) {
        Style { fg: Some(Color::TomlNumber), ..base }
    } else if kind == "BOOL"@ {
        Style { fg: Some(Color::TomlBoolean), bold: true, ..base }
    } else if is_time_kind(kind) {
        Style { fg: Some(Color::TomlDateTime), ..base }
    } else if is_punctuation_kind(kind) {
        Style { fg: Some(Color::Dim), ..base }
    } else if kind == "ERROR"@ {
        Style { fg: Some(Color::Error), bold: true, underlined: true, ..base }
    } else {
        base
    }
}

/// The highlights of the tokens among `pieces`, in order.
pub open spec fn highlights_of(
    pieces: Seq<(usize, usize, bool, Seq<char>, Seq<Seq<char>>)>,
) -> Seq<TomlHighlight>
    decreases pieces.len(),
{
    if pieces.len() == 0 {
        Seq::empty()
    } else {
        let p = pieces.last();
        let before = highlights_of(pieces.drop_last());
        if p.2 {
            before.push(
                TomlHighlight {
                    start: p.0,
                    end: p.1,
                    style: token_style(p.3, p.4.contains("KEY"@)),
                },
            )
        } else {
            before
        }
    }
}

fn string_kind(kind: &str) -> (r: bool)
    ensures
        r == is_string_kind(kind@),
{
    same(kind, "STRING") || same(kind, "MULTI_LINE_STRING") || same(kind, "STRING_LITERAL")
        || same(kind, "MULTI_LINE_STRING_LITERAL")
}

fn number_kind(kind: &str) -> (r: bool)
    ensures
        r == is_number_kind(kind@),
{
    same(kind, "INTEGER") || same(kind, "INTEGER_HEX") || same(kind, "INTEGER_OCT") || same(
        kind,
        "INTEGER_BIN",
    ) || same(kind, "FLOAT")
}

fn time_kind(kind: &str) -> (r: bool)
    ensures
        r == is_time_kind(kind@),
{
    same(kind, "DATE_TIME_OFFSET") || same(kind, "DATE_TIME_LOCAL") || same(kind, "DATE") || same(
        kind,
        "TIME",
    )
}

fn punctuation_kind(kind: &str) -> (r: bool)
    ensures
        r == is_punctuation_kind(kind@),
{
    same(kind, "BRACKET_START") || same(kind, "BRACKET_END") || same(kind, "BRACE_START") || same(
        kind,
        "BRACE_END",
    ) || same(kind, "PERIOD") || same(kind, "COMMA") || same(kind, "EQ")
}

/// The style of a token of the kind `kind`, inside of a key or not.
pub fn toml_token_style(kind: &str, is_key: bool) -> (r: Style)
    ensures
        r == token_style(kind@, is_key),
{
    let base = Style::on(Color::White, Color::Surface);
    let in_key = is_key && (same(kind, "IDENT") || same(kind, "IDENT_WITH_GLOB") || same(
        kind,
        "PERIOD",
    ) || string_kind(kind));
    if in_key {
        Style { fg: Some(TOML_KEY), bold: true, ..base }
    } else if same(kind, "COMMENT") {
        Style { fg: Some(TOML_COMMENT), italic: true, ..base }
    } else if string_kind(kind) {
        Style { fg: Some(Color::TomlString), ..base }
    } else if number_kind(kind) {
        Style { fg: Some(Color::TomlNumber), ..base }
    } else if same(kind, "BOOL") {
        Style { fg: Some(Color::TomlBoolean), bold: true, ..base }
    } else if time_kind(kind) {
        Style { fg: Some(Color::TomlDateTime), ..base }
    } else if punctuation_kind(kind) {
        Style { fg: Some(Color::Dim), ..base }
    } else if same(kind, "ERROR") {
        Style { fg: Some(Color::Error), bold: true, underlined: true, ..base }
    } else {
        base
    }
}

/// Whether `list` holds the text `wanted`.
pub fn holds(list: &Vec<String>, wanted: &str) -> (r: bool)
    ensures
        r == texts(list@).contains(wanted@),
{
    let mut i: usize = 0;
    while i < list.len()
        invariant
            i <= list@.len(),
            forall|k: int| 0 <= k < i ==> texts(list@)[k] != wanted@,
        decreases list@.len() - i,
    {
        assert(texts(list@)[i as int] == list@[i as int]@);
        if same(list[i].as_str(), wanted) {
            return true;
        }
        i += 1;
    }
    false
}

/// The highlights of the tokens among `pieces`.
pub fn highlight_pieces(pieces: &Vec<SyntaxPiece>) -> (r: Vec<TomlHighlight>)
    ensures
        r@ == highlights_of(piece_parts(pieces@)),
{
    let mut highlights: Vec<TomlHighlight> = Vec::new();
    let ghost parts = piece_parts(pieces@);
    let mut i: usize = 0;
    assert(parts.take(0) =~= Seq::empty());
    while i < pieces.len()
        invariant
            i <= pieces@.len(),
            parts == piece_parts(pieces@),
            highlights@ == highlights_of(parts.take(i as int)),
        decreases pieces@.len() - i,
    {
        let piece = &pieces[i];
        assert(parts.take(i + 1).drop_last() =~= parts.take(i as int));
        assert(parts[i as int] == pieces@[i as int].parts());
        if piece.token {
            let is_key = holds(&piece.ancestors, "KEY");
            highlights.push(
                TomlHighlight {
                    start: piece.start,
                    end: piece.end,
                    style: toml_token_style(piece.kind.as_str(), is_key),
                },
            );
        }
        i += 1;
    }
    assert(parts.take(i as int) =~= parts);
    highlights
}

/// Whether the highlights lie between characters of `text`.
pub open spec fn highlights_fit(text: Seq<char>, highlights: Seq<TomlHighlight>) -> bool {
    forall|i: int|
        0 <= i < highlights.len() ==> {
            &&& (#[trigger] highlights[i]).start <= highlights[i].end
            &&& is_boundary(text, highlights[i].start as int)
            &&& is_boundary(text, highlights[i].end as int)
        }
}

/// Whether the highlights, one behind the other, cover `text`.
pub open spec fn highlights_cover(text: Seq<char>, highlights: Seq<TomlHighlight>) -> bool {
    &&& highlights_fit(text, highlights)
    &&& forall|i: int|
        0 <= i < highlights.len() ==> highlights[i].start == #[trigger] end_before(highlights, i)
    &&& end_before(highlights, highlights.len() as int) == byte_len(text)
}

/// Where the first `n` highlights end.
pub open spec fn end_before(highlights: Seq<TomlHighlight>, n: int) -> int {
    if n <= 0 {
        0
    } else {
        highlights[n - 1].end as int
    }
}

/// The characters of `text` between the bytes `from` and `to`.
pub open spec fn bytes_between(text: Seq<char>, from: int, to: int) -> Seq<char> {
    text.subrange(char_index(text, from), char_index(text, to))
}

/// The texts of the first `n` highlights, one behind the other.
pub open spec fn highlighted_text(
    text: Seq<char>,
    highlights: Seq<TomlHighlight>,
    n: int,
) -> Seq<char>
    decreases n,
{
    if n <= 0 {
        Seq::empty()
    } else {
        highlighted_text(text, highlights, n - 1) + bytes_between(
            text,
            highlights[n - 1].start as int,
            highlights[n - 1].end as int,
        )
    }
}

proof fn lemma_highlights_reach(
    pieces: Seq<(usize, usize, bool, Seq<char>, Seq<Seq<char>>)>,
    text: Seq<char>,
)
    requires
        reach(pieces) is Some,
        forall|i: int|
            0 <= i < pieces.len() && (#[trigger] pieces[i]).2 ==> is_boundary(
                text,
                pieces[i].0 as int,
            ) && is_boundary(text, pieces[i].1 as int),
    ensures
        highlights_fit(text, highlights_of(pieces)),
        forall|i: int|
            0 <= i < highlights_of(pieces).len() ==> (#[trigger] highlights_of(pieces)[i]).start
                == end_before(highlights_of(pieces), i),
        Some(end_before(highlights_of(pieces), highlights_of(pieces).len() as int)) == reach(
            pieces,
        ),
    decreases pieces.len(),
{
    if pieces.len() > 0 {
        let p = pieces.last();
        assert(pieces[pieces.len() - 1] == p);
        let rest = pieces.drop_last();
        assert forall|i: int| 0 <= i < rest.len() && (#[trigger] rest[i]).2 implies is_boundary(
            text,
            rest[i].0 as int,
        ) && is_boundary(text, rest[i].1 as int) by {
            assert(rest[i] == pieces[i]);
        }
        lemma_highlights_reach(rest, text);
        let before = highlights_of(rest);
        let all = highlights_of(pieces);
        if p.2 {
            assert forall|i: int| 0 <= i < all.len() implies (#[trigger] all[i]).start == end_before(
                all,
                i,
            ) by {
                if i < before.len() {
                    assert(all[i] == before[i]);
                    if i > 0 {
                        assert(all[i - 1] == before[i - 1]);
                    }
                } else if i > 0 {
                    assert(all[i - 1] == before[i - 1]);
                }
            }
            assert forall|i: int| 0 <= i < all.len() implies {
                &&& (#[trigger] all[i]).start <= all[i].end
                &&& is_boundary(text, all[i].start as int)
                &&& is_boundary(text, all[i].end as int)
            } by {
                if i < before.len() {
                    assert(all[i] == before[i]);
                }
            }
        }
    }
}

/// The highlights of a TOML text: those of its tokens, or one in the style of
/// the editor for all of it where it is too long or too nested to be parsed.
pub open spec fn colours(text: Seq<char>) -> Seq<TomlHighlight> {
    if parses(text) {
        highlights_of(toml_pieces(text))
    } else {
        seq![TomlHighlight { start: 0, end: byte_len(text) as usize, style: base_style() }]
    }
}

/// The highlights of a TOML text, which cover it.
pub fn toml_highlights(text: &str) -> (r: Vec<TomlHighlight>)
    ensures
        r@ == colours(text@),
        highlights_cover(text@, r@),
{
    let length: usize = byte_length(text);
    if length > u32::MAX as usize || nesting_depth(text) > NESTING_LIMIT {
        proof {
            lemma_char_index(text@, 0);
            lemma_char_index(text@, text@.len() as int);
            assert(text@.take(0) =~= Seq::<char>::empty());
            assert(text@.take(text@.len() as int) =~= text@);
        }
        let highlights = vec![
            TomlHighlight {
                start: 0,
                end: length,
                style: Style::on(Color::White, Color::Surface),
            },
        ];
        assert(highlights@ =~= colours(text@));
        return highlights;
    }
    let pieces = syntax_pieces(text);
    proof {
        let parts = piece_parts(pieces@);
        assert forall|i: int| 0 <= i < parts.len() && (#[trigger] parts[i]).2 implies is_boundary(
            text@,
            parts[i].0 as int,
        ) && is_boundary(text@, parts[i].1 as int) by {
            assert(parts[i] == pieces@[i].parts());
        }
        lemma_highlights_reach(parts, text@);
    }
    highlight_pieces(&pieces)
}

/// Colouring a text loses nothing of it: the texts of the highlights, one behind
/// the other, are the text.
pub proof fn law_highlights_give_the_text_back(text: Seq<char>, highlights: Seq<TomlHighlight>)
    requires
        highlights_cover(text, highlights),
    ensures
        highlighted_text(text, highlights, highlights.len() as int) == text,
{
    let n = highlights.len() as int;
    lemma_highlighted_text(text, highlights, n);
    lemma_char_index(text, 0);
    lemma_char_index(text, text.len() as int);
    assert(text.take(0) =~= Seq::<char>::empty());
    assert(text.take(text.len() as int) =~= text);
    assert(bytes_between(text, 0, byte_len(text) as int) =~= text);
}

proof fn lemma_highlighted_text(text: Seq<char>, highlights: Seq<TomlHighlight>, n: int)
    requires
        highlights_cover(text, highlights),
        0 <= n <= highlights.len(),
    ensures
        is_boundary(text, end_before(highlights, n)),
        highlighted_text(text, highlights, n) == bytes_between(
            text,
            0,
            end_before(highlights, n),
        ),
    decreases n,
{
    lemma_char_index(text, 0);
    assert(text.take(0) =~= Seq::<char>::empty());
    if n == 0 {
        assert(byte_len(text.take(0)) == 0);
        assert(bytes_between(text, 0, 0) =~= Seq::<char>::empty());
    } else {
        lemma_highlighted_text(text, highlights, n - 1);
        let h = highlights[n - 1];
        let start = h.start as int;
        let end = h.end as int;
        assert(start == end_before(highlights, n - 1));
        lemma_boundary(text, start);
        lemma_boundary(text, end);
        lemma_char_index_order(text, start, end);
        assert(bytes_between(text, 0, start) + bytes_between(text, start, end) =~= bytes_between(
            text,
            0,
            end,
        ));
    }
}

} // verus!
