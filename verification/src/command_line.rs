//! Command lines as text: taking them apart into arguments and writing them so
//! that they can be taken apart again.

use crate::language::Language;
use crate::search::{is_white, lemma_texts_push, texts, white};
use crate::text::{char_text, chars_of, join3, push_char};
use vstd::prelude::*;
use vstd::string::*;

verus! {

/// What has been read of a command line: the arguments that are complete, the
/// one that is not, the quote that is open, and whether an argument has begun.
pub struct LineState {
    pub arguments: Seq<Seq<char>>,
    pub current: Seq<char>,
    pub quote: Option<char>,
    pub started: bool,
}

pub open spec fn line_begin() -> LineState {
    LineState { arguments: Seq::empty(), current: Seq::empty(), quote: None, started: false }
}

/// One character more.
pub open spec fn line_step(s: LineState, c: char) -> LineState {
    match s.quote {
        Some(q) => if c == q {
            LineState { quote: None, ..s }
        } else {
            LineState { current: s.current.push(c), started: true, ..s }
        },
        None => if c == '\'' || c == '"' {
            LineState { quote: Some(c), started: true, ..s }
        } else if is_white(c) {
            if s.started {
                LineState {
                    arguments: s.arguments.push(s.current),
                    current: Seq::empty(),
                    started: false,
                    ..s
                }
            } else {
                s
            }
        } else {
            LineState { current: s.current.push(c), started: true, ..s }
        },
    }
}

/// The characters `text` after `s`.
pub open spec fn line_read(s: LineState, text: Seq<char>) -> LineState
    decreases text.len(),
{
    if text.len() == 0 {
        s
    } else {
        line_step(line_read(s, text.drop_last()), text.last())
    }
}

/// The arguments that a command line holds, where its quotes are closed.
pub open spec fn arguments_of(text: Seq<char>) -> Option<Seq<Seq<char>>> {
    let s = line_read(line_begin(), text);
    if s.quote is Some {
        None
    } else if s.started {
        Some(s.arguments.push(s.current))
    } else {
        Some(s.arguments)
    }
}

/// The quote that a command line leaves open.
pub open spec fn open_quote(text: Seq<char>) -> Option<char> {
    line_read(line_begin(), text).quote
}

/// What is said of a command line that leaves the quote `q` open.
pub open spec fn unclosed_text(q: char, language: Language) -> Seq<char> {
    match language {
        Language::English => "Unclosed "@ + seq![q] + " quote in command"@,
        Language::Chinese => "命令中有未闭合的 "@ + seq![q] + " 引号"@,
    }
}

pub open spec fn has_char(s: Seq<char>, c: char) -> bool {
    exists|i: int| 0 <= i < s.len() && #[trigger] s[i] == c
}

pub open spec fn has_white(s: Seq<char>) -> bool {
    exists|i: int| 0 <= i < s.len() && is_white(#[trigger] s[i])
}

/// Whether `value` can stand in a command line without quotes.
pub open spec fn is_bare(value: Seq<char>) -> bool {
    value.len() > 0 && !has_white(value) && !has_char(value, '"') && !has_char(value, '\'')
}

/// `value` as it is written in a command line.
pub open spec fn quoted(value: Seq<char>) -> Seq<char> {
    if is_bare(value) {
        value
    } else if !has_char(value, '"') {
        seq!['"'] + value + seq!['"']
    } else if !has_char(value, '\'') {
        seq!['\''] + value + seq!['\'']
    } else {
        value
    }
}

/// The pieces with a blank between each two.
pub open spec fn spaced(pieces: Seq<Seq<char>>) -> Seq<char>
    decreases pieces.len(),
{
    if pieces.len() == 0 {
        Seq::empty()
    } else if pieces.len() == 1 {
        pieces[0]
    } else {
        spaced(pieces.drop_last()) + seq![' '] + pieces.last()
    }
}

proof fn lemma_line_read_add(s: LineState, a: Seq<char>, b: Seq<char>)
    ensures
        line_read(s, a + b) == line_read(line_read(s, a), b),
    decreases b.len(),
{
    if b.len() == 0 {
        assert(a + b =~= a);
    } else {
        lemma_line_read_add(s, a, b.drop_last());
        assert((a + b).drop_last() =~= a + b.drop_last());
        assert((a + b).last() == b.last());
    }
}

/// Characters inside of an open quote go to the argument as they are.
proof fn lemma_read_in_quotes(s: LineState, text: Seq<char>, q: char)
    requires
        s.quote == Some(q),
        s.started,
        !has_char(text, q),
    ensures
        line_read(s, text) == (LineState { current: s.current + text, ..s }),
    decreases text.len(),
{
    if text.len() == 0 {
        assert(s.current + text =~= s.current);
    } else {
        assert(!has_char(text.drop_last(), q)) by {
            if has_char(text.drop_last(), q) {
                let i = choose|i: int|
                    0 <= i < text.drop_last().len() && #[trigger] text.drop_last()[i] == q;
                assert(text[i] == q);
            }
        }
        lemma_read_in_quotes(s, text.drop_last(), q);
        assert(text.last() != q) by {
            assert(text[text.len() - 1] == text.last());
        }
        assert((s.current + text.drop_last()).push(text.last()) =~= s.current + text);
    }
}

/// Characters that need no quotes go to the argument as they are.
proof fn lemma_read_bare(s: LineState, text: Seq<char>)
    requires
        s.quote is None,
        !has_white(text),
        !has_char(text, '"'),
        !has_char(text, '\''),
    ensures
        line_read(s, text) == (LineState {
            current: s.current + text,
            started: s.started || text.len() > 0,
            ..s
        }),
    decreases text.len(),
{
    if text.len() == 0 {
        assert(s.current + text =~= s.current);
    } else {
        let front = text.drop_last();
        let k = text.len() - 1;
        assert(!has_white(front) && !has_char(front, '"') && !has_char(front, '\'')) by {
            if has_white(front) {
                let i = choose|i: int| 0 <= i < front.len() && is_white(#[trigger] front[i]);
                assert(is_white(text[i]));
            }
            if has_char(front, '"') {
                let i = choose|i: int| 0 <= i < front.len() && #[trigger] front[i] == '"';
                assert(text[i] == '"');
            }
            if has_char(front, '\'') {
                let i = choose|i: int| 0 <= i < front.len() && #[trigger] front[i] == '\'';
                assert(text[i] == '\'');
            }
        }
        lemma_read_bare(s, front);
        assert(text[k] == text.last());
        assert(!is_white(text.last()) && text.last() != '"' && text.last() != '\'');
        assert((s.current + front).push(text.last()) =~= s.current + text);
    }
}

/// Whether a value holds both kinds of quote.
pub open spec fn mixes_quotes(value: Seq<char>) -> bool {
    has_char(value, '"') && has_char(value, '\'')
}

/// Reading a value as it is written between arguments gives the value.
proof fn lemma_read_quoted(s: LineState, value: Seq<char>)
    requires
        s.quote is None,
        !s.started,
        s.current.len() == 0,
        !mixes_quotes(value),
    ensures
        line_read(s, quoted(value)) == (LineState { current: value, started: true, ..s }),
{
    if is_bare(value) {
        lemma_read_bare(s, value);
        assert(s.current + value =~= value);
    } else {
        let q = if !has_char(value, '"') {
            '"'
        } else {
            '\''
        };
        let opened = LineState { quote: Some(q), started: true, ..s };
        assert(line_read(s, seq![q]) == opened) by {
            assert(seq![q].drop_last() =~= Seq::<char>::empty());
            reveal_with_fuel(line_read, 2);
        }
        lemma_line_read_add(s, seq![q], value);
        lemma_read_in_quotes(opened, value, q);
        assert(s.current + value =~= value);
        lemma_line_read_add(s, seq![q] + value, seq![q]);
        let filled = line_read(s, seq![q] + value);
        assert(line_read(filled, seq![q]) == line_step(filled, q)) by {
            assert(seq![q].drop_last() =~= Seq::<char>::empty());
            reveal_with_fuel(line_read, 2);
        }
    }
}

/// The values as they are written.
pub open spec fn all_quoted(values: Seq<Seq<char>>) -> Seq<Seq<char>> {
    values.map_values(|v: Seq<char>| quoted(v))
}

proof fn lemma_read_spaced(values: Seq<Seq<char>>)
    requires
        values.len() > 0,
        forall|i: int| 0 <= i < values.len() ==> !mixes_quotes(#[trigger] values[i]),
    ensures
        line_read(line_begin(), spaced(all_quoted(values))) == (LineState {
            arguments: values.drop_last(),
            current: values.last(),
            quote: None,
            started: true,
        }),
    decreases values.len(),
{
    let pieces = all_quoted(values);
    if values.len() == 1 {
        lemma_read_quoted(line_begin(), values[0]);
        assert(values.drop_last() =~= Seq::<Seq<char>>::empty());
    } else {
        let front = values.drop_last();
        assert(pieces.drop_last() =~= all_quoted(front));
        assert forall|i: int| 0 <= i < front.len() implies !mixes_quotes(#[trigger] front[i]) by {
            assert(front[i] == values[i]);
        }
        lemma_read_spaced(front);
        let text = spaced(pieces.drop_last());
        let before = line_read(line_begin(), text);
        lemma_line_read_add(line_begin(), text, seq![' ']);
        let between = line_step(before, ' ');
        assert(line_read(before, seq![' ']) == between) by {
            assert(seq![' '].drop_last() =~= Seq::<char>::empty());
            reveal_with_fuel(line_read, 2);
        }
        assert(before.arguments.push(before.current) =~= front);
        lemma_line_read_add(line_begin(), text + seq![' '], pieces.last());
        let last = values[values.len() - 1];
        assert(!mixes_quotes(last));
        lemma_read_quoted(between, last);
        assert(pieces.last() == quoted(last));
    }
}

/// A command that is written out for editing reads back as its program and
/// arguments, where none of them holds both kinds of quote.
pub proof fn law_editable_command_round_trip(words: Seq<Seq<char>>)
    requires
        words.len() > 0,
        forall|i: int| 0 <= i < words.len() ==> !mixes_quotes(#[trigger] words[i]),
    ensures
        arguments_of(spaced(all_quoted(words))) == Some(words),
{
    lemma_read_spaced(words);
    assert(words.drop_last().push(words.last()) =~= words);
}

/// A piece of an argument: characters as they are, or between quotes.
pub struct Piece {
    pub quote: Option<char>,
    pub text: Seq<char>,
}

impl Piece {
    /// Whether the piece can be written: bare text needs no quotes, and text
    /// between quotes does not hold the quote.
    pub open spec fn wf(self) -> bool {
        match self.quote {
            None => is_bare(self.text),
            Some(q) => (q == '"' || q == '\'') && !has_char(self.text, q),
        }
    }

    /// The piece as it stands in a command line.
    pub open spec fn written(self) -> Seq<char> {
        match self.quote {
            None => self.text,
            Some(q) => seq![q] + self.text + seq![q],
        }
    }
}

/// The pieces as they stand in a command line, one right behind the other.
pub open spec fn all_written(pieces: Seq<Piece>) -> Seq<char>
    decreases pieces.len(),
{
    if pieces.len() == 0 {
        Seq::empty()
    } else {
        all_written(pieces.drop_last()) + pieces.last().written()
    }
}

/// The texts of the pieces, one right behind the other.
pub open spec fn all_text(pieces: Seq<Piece>) -> Seq<char>
    decreases pieces.len(),
{
    if pieces.len() == 0 {
        Seq::empty()
    } else {
        all_text(pieces.drop_last()) + pieces.last().text
    }
}

proof fn lemma_read_one(s: LineState, c: char)
    ensures
        line_read(s, seq![c]) == line_step(s, c),
{
    assert(seq![c].drop_last() =~= Seq::<char>::empty());
    reveal_with_fuel(line_read, 2);
}

/// A piece adds its text to the argument that it stands in.
proof fn lemma_read_piece(s: LineState, piece: Piece)
    requires
        s.quote is None,
        piece.wf(),
    ensures
        line_read(s, piece.written()) == (LineState {
            current: s.current + piece.text,
            started: true,
            ..s
        }),
{
    match piece.quote {
        None => lemma_read_bare(s, piece.text),
        Some(q) => {
            let opened = LineState { quote: Some(q), started: true, ..s };
            lemma_read_one(s, q);
            lemma_line_read_add(s, seq![q], piece.text);
            lemma_read_in_quotes(opened, piece.text, q);
            lemma_line_read_add(s, seq![q] + piece.text, seq![q]);
            lemma_read_one(line_read(s, seq![q] + piece.text), q);
        },
    }
}

proof fn lemma_read_pieces(s: LineState, pieces: Seq<Piece>)
    requires
        s.quote is None,
        forall|i: int| 0 <= i < pieces.len() ==> (#[trigger] pieces[i]).wf(),
    ensures
        line_read(s, all_written(pieces)) == (LineState {
            current: s.current + all_text(pieces),
            started: s.started || pieces.len() > 0,
            ..s
        }),
    decreases pieces.len(),
{
    if pieces.len() == 0 {
        assert(s.current + all_text(pieces) =~= s.current);
    } else {
        let front = pieces.drop_last();
        assert forall|i: int| 0 <= i < front.len() implies (#[trigger] front[i]).wf() by {
            assert(pieces[i].wf());
        }
        lemma_read_pieces(s, front);
        lemma_line_read_add(s, all_written(front), pieces.last().written());
        assert(pieces[pieces.len() - 1].wf());
        lemma_read_piece(line_read(s, all_written(front)), pieces.last());
        assert(s.current + all_text(front) + pieces.last().text =~= s.current + all_text(pieces));
    }
}

/// Pieces that stand right behind each other, quoted or not, are one argument:
/// what is between quotes belongs to the argument as it is, white space and all,
/// and quotes neither begin nor end one.
pub proof fn law_adjoining_pieces_are_one_argument(pieces: Seq<Piece>)
    requires
        pieces.len() > 0,
        forall|i: int| 0 <= i < pieces.len() ==> (#[trigger] pieces[i]).wf(),
    ensures
        arguments_of(all_written(pieces)) == Some(seq![all_text(pieces)]),
{
    lemma_read_pieces(line_begin(), pieces);
    assert(Seq::<char>::empty() + all_text(pieces) =~= all_text(pieces));
    assert(Seq::<Seq<char>>::empty().push(all_text(pieces)) =~= seq![all_text(pieces)]);
}

/// A quoted text right behind a bare one continues it.
pub proof fn law_a_quote_inside_a_word_continues_it(a: Seq<char>, q: char, b: Seq<char>)
    requires
        !has_white(a) && !has_char(a, '"') && !has_char(a, '\''),
        q == '"' || q == '\'',
        !has_char(b, q),
    ensures
        arguments_of(a + seq![q] + b + seq![q]) == Some(seq![a + b]),
{
    let quoted = Piece { quote: Some(q), text: b };
    assert(quoted.wf());
    let none = Seq::<Piece>::empty();
    reveal_with_fuel(all_written, 3);
    reveal_with_fuel(all_text, 3);
    if a.len() == 0 {
        let pieces = seq![quoted];
        assert(pieces.drop_last() =~= none);
        law_adjoining_pieces_are_one_argument(pieces);
        assert(all_written(pieces) =~= a + seq![q] + b + seq![q]);
        assert(all_text(pieces) =~= a + b);
    } else {
        let bare = Piece { quote: None, text: a };
        let pieces = seq![bare, quoted];
        assert(pieces.drop_last() =~= seq![bare]);
        assert(seq![bare].drop_last() =~= none);
        law_adjoining_pieces_are_one_argument(pieces);
        assert(all_written(pieces) =~= a + seq![q] + b + seq![q]);
        assert(all_text(pieces) =~= a + b);
    }
}

/// An argument that has not begun holds nothing.
proof fn lemma_unstarted_is_empty(text: Seq<char>)
    ensures
        ({
            let s = line_read(line_begin(), text);
            !s.started ==> s.current.len() == 0 && s.quote is None
        }),
    decreases text.len(),
{
    if text.len() > 0 {
        lemma_unstarted_is_empty(text.drop_last());
    }
}

/// The arguments that were read before do not matter to what is read.
proof fn lemma_read_behind(arguments: Seq<Seq<char>>, text: Seq<char>)
    ensures
        ({
            let s = line_read(line_begin(), text);
            line_read(LineState { arguments, ..line_begin() }, text) == (LineState {
                arguments: arguments + s.arguments,
                ..s
            })
        }),
    decreases text.len(),
{
    let s = line_read(line_begin(), text);
    if text.len() == 0 {
        assert(arguments + s.arguments =~= arguments);
    } else {
        let before = line_read(line_begin(), text.drop_last());
        lemma_read_behind(arguments, text.drop_last());
        assert((arguments + before.arguments).push(before.current) =~= arguments
            + before.arguments.push(before.current));
    }
}

/// White space outside of quotes ends an argument: what stands before it and what
/// stands behind it are read each for itself.
pub proof fn law_white_space_parts_arguments(a: Seq<char>, c: char, b: Seq<char>)
    requires
        arguments_of(a) is Some,
        is_white(c),
    ensures
        arguments_of(a + seq![c] + b) is Some <==> arguments_of(b) is Some,
        arguments_of(b) matches Some(rest) ==> arguments_of(a + seq![c] + b) == Some(
            arguments_of(a)->0 + rest,
        ),
        open_quote(a + seq![c] + b) == open_quote(b),
{
    let s = line_read(line_begin(), a);
    lemma_unstarted_is_empty(a);
    lemma_line_read_add(line_begin(), a, seq![c]);
    lemma_read_one(s, c);
    lemma_line_read_add(line_begin(), a + seq![c], b);
    assert(s.current.len() == 0 ==> s.current =~= Seq::<char>::empty());
    assert(c != '"' && c != '\'');
    let between = line_step(s, c);
    assert(between == (LineState { arguments: arguments_of(a)->0, ..line_begin() }));
    lemma_read_behind(arguments_of(a)->0, b);
    let rest = line_read(line_begin(), b);
    assert((arguments_of(a)->0 + rest.arguments).push(rest.current) =~= arguments_of(a)->0
        + rest.arguments.push(rest.current));
}

/// Text of white space alone holds no argument.
pub proof fn law_white_space_holds_no_argument(text: Seq<char>)
    requires
        forall|i: int| 0 <= i < text.len() ==> is_white(#[trigger] text[i]),
    ensures
        arguments_of(text) == Some(Seq::<Seq<char>>::empty()),
    decreases text.len(),
{
    if text.len() > 0 {
        let front = text.drop_last();
        assert forall|i: int| 0 <= i < front.len() implies is_white(#[trigger] front[i]) by {
            assert(is_white(text[i]));
        }
        law_white_space_holds_no_argument(front);
        assert(is_white(text[text.len() - 1]));
        let s = line_read(line_begin(), front);
        if s.started {
            assert(s.arguments.push(s.current).len() > 0);
        }
    }
}

/// A quote that is opened and not closed is an error that names it, whatever
/// stands before and behind it.
pub proof fn law_an_open_quote_is_an_error(a: Seq<char>, q: char, b: Seq<char>)
    requires
        arguments_of(a) is Some,
        q == '"' || q == '\'',
        !has_char(b, q),
    ensures
        arguments_of(a + seq![q] + b) is None,
        open_quote(a + seq![q] + b) == Some(q),
{
    let s = line_read(line_begin(), a);
    lemma_line_read_add(line_begin(), a, seq![q]);
    lemma_read_one(s, q);
    lemma_line_read_add(line_begin(), a + seq![q], b);
    lemma_read_in_quotes(line_step(s, q), b, q);
}

/// Words are written one behind the other with one blank between each two.
pub proof fn law_words_are_spaced(a: Seq<Seq<char>>, b: Seq<Seq<char>>)
    ensures
        a.len() > 0 && b.len() > 0 ==> spaced(a + b) == spaced(a) + seq![' '] + spaced(b),
        a.len() == 1 ==> spaced(a) == a[0],
        a.len() == 0 ==> spaced(a) == Seq::<char>::empty(),
    decreases b.len(),
{
    if a.len() > 0 && b.len() > 0 {
        let front = b.drop_last();
        assert((a + b).drop_last() =~= a + front);
        assert((a + b).last() == b.last());
        if front.len() == 0 {
            assert(a + front =~= a);
        } else {
            law_words_are_spaced(a, front);
            assert(spaced(a + b) =~= spaced(a) + seq![' '] + spaced(b));
        }
    }
}

/// An argument that needs no quotes is written as it is.
pub proof fn law_bare_arguments_are_written_as_they_are(value: Seq<char>)
    requires
        value.len() > 0,
        forall|i: int|
            0 <= i < value.len() ==> !is_white(#[trigger] value[i]) && value[i] != '"' && value[i]
                != '\'',
    ensures
        quoted(value) == value,
{
}

fn holds_char(s: &Vec<char>, c: char) -> (r: bool)
    ensures
        r == has_char(s@, c),
{
    let mut i: usize = 0;
    while i < s.len()
        invariant
            i <= s@.len(),
            forall|k: int| 0 <= k < i ==> s@[k] != c,
        decreases s@.len() - i,
    {
        if s[i] == c {
            return true;
        }
        i += 1;
    }
    false
}

fn holds_white(s: &Vec<char>) -> (r: bool)
    ensures
        r == has_white(s@),
{
    let mut i: usize = 0;
    while i < s.len()
        invariant
            i <= s@.len(),
            forall|k: int| 0 <= k < i ==> !is_white(s@[k]),
        decreases s@.len() - i,
    {
        if white(s[i]) {
            return true;
        }
        i += 1;
    }
    false
}

/// `value` as it is written in a command line.
pub fn quote_editable_argument(value: &str) -> (r: String)
    ensures
        r@ == quoted(value@),
{
    let chars = chars_of(value);
    let double = holds_char(&chars, '"');
    let single = holds_char(&chars, '\'');
    let bare = !value.is_empty() && !holds_white(&chars) && !double && !single;
    proof {
        reveal_strlit("\"");
        reveal_strlit("'");
        assert("\""@ =~= seq!['"']);
        assert("'"@ =~= seq!['\'']);
    }
    if bare {
        value.to_owned()
    } else if !double {
        join3("\"", value, "\"")
    } else if !single {
        join3("'", value, "'")
    } else {
        value.to_owned()
    }
}

/// The words with a blank between each two.
pub fn join_spaced(words: &Vec<String>) -> (r: String)
    ensures
        r@ == spaced(texts(words@)),
{
    let mut result = String::new();
    let mut i: usize = 0;
    let ghost all = texts(words@);
    assert(all.take(0) =~= Seq::<Seq<char>>::empty());
    while i < words.len()
        invariant
            i <= words@.len(),
            all == texts(words@),
            result@ == spaced(all.take(i as int)),
        decreases words@.len() - i,
    {
        let ghost before = result@;
        assert(all.take(i + 1).drop_last() =~= all.take(i as int));
        assert(all[i as int] == words@[i as int]@);
        if i > 0 {
            push_char(&mut result, ' ');
            assert(result@ =~= before + seq![' ']);
        }
        result.append(words[i].as_str());
        proof {
            if i == 0 {
                assert(before =~= Seq::<char>::empty());
                assert(result@ =~= words@[0]@);
            }
            assert(result@ =~= spaced(all.take(i + 1)));
        }
        i += 1;
    }
    assert(all.take(i as int) =~= all);
    result
}

/// A program and its arguments.
pub open spec fn command_words(program: Seq<char>, args: Seq<Seq<char>>) -> Seq<Seq<char>> {
    seq![program] + args
}

/// A command on one line.
pub fn format_command(program: &str, args: &[String]) -> (r: String)
    ensures
        r@ == spaced(command_words(program@, texts(args@))),
{
    let mut words: Vec<String> = vec![program.to_owned()];
    let mut i: usize = 0;
    assert(texts(words@) =~= seq![program@] + texts(args@).take(0));
    while i < args.len()
        invariant
            i <= args@.len(),
            texts(words@) == seq![program@] + texts(args@).take(i as int),
        decreases args@.len() - i,
    {
        let ghost listed = words@;
        words.push(args[i].as_str().to_owned());
        proof {
            lemma_texts_push(listed, words@.last());
        }
        i += 1;
        assert(texts(words@) =~= seq![program@] + texts(args@).take(i as int));
    }
    assert(texts(args@).take(i as int) =~= texts(args@));
    join_spaced(&words)
}

/// A command on one line, written so that it can be taken apart again.
pub fn format_editable_command(program: &str, args: &[String]) -> (r: String)
    ensures
        r@ == spaced(all_quoted(command_words(program@, texts(args@)))),
{
    let mut words: Vec<String> = vec![quote_editable_argument(program)];
    let mut i: usize = 0;
    let ghost all = all_quoted(command_words(program@, texts(args@)));
    assert(texts(words@) =~= all.take(1));
    while i < args.len()
        invariant
            i <= args@.len(),
            all == all_quoted(command_words(program@, texts(args@))),
            texts(words@) == all.take(i + 1),
        decreases args@.len() - i,
    {
        let ghost listed = words@;
        words.push(quote_editable_argument(args[i].as_str()));
        proof {
            lemma_texts_push(listed, words@.last());
            assert(all[i + 1] == quoted(texts(args@)[i as int]));
        }
        i += 1;
        assert(texts(words@) =~= all.take(i + 1));
    }
    assert(all.take(i + 1) =~= all);
    join_spaced(&words)
}

/// The arguments of a command line, or what is wrong with its quotes.
pub fn split_command_line(input: &str, language: Language) -> (r: Result<Vec<String>, String>)
    ensures
        r matches Ok(arguments) ==> arguments_of(input@) == Some(texts(arguments@)),
        r matches Err(message) ==> {
            &&& arguments_of(input@) is None
            &&& open_quote(input@) is Some
            &&& message@ == unclosed_text(open_quote(input@)->0, language)
        },
{
    let chars = chars_of(input);
    let mut arguments: Vec<String> = Vec::new();
    let mut current = String::new();
    let mut quote: Option<char> = None;
    let mut started: bool = false;
    let mut i: usize = 0;
    let ghost mut state = line_begin();
    proof {
        assert(input@.take(0) =~= Seq::<char>::empty());
        assert(texts(arguments@) =~= state.arguments);
        assert(current@ =~= state.current);
    }
    while i < chars.len()
        invariant
            chars@ == input@,
            i <= chars@.len(),
            state == line_read(line_begin(), input@.take(i as int)),
            state == (LineState {
                arguments: texts(arguments@),
                current: current@,
                quote,
                started,
            }),
        decreases chars@.len() - i,
    {
        let c = chars[i];
        assert(input@.take(i + 1).drop_last() =~= input@.take(i as int));
        proof {
            state = line_step(state, c);
        }
        match quote {
            Some(expected) => {
                if c == expected {
                    quote = None;
                } else {
                    push_char(&mut current, c);
                    started = true;
                }
            },
            None => {
                if c == '\'' || c == '"' {
                    quote = Some(c);
                    started = true;
                } else if white(c) {
                    if started {
                        proof {
                            lemma_texts_push(arguments@, current);
                        }
                        arguments.push(current);
                        current = String::new();
                        started = false;
                    }
                } else {
                    push_char(&mut current, c);
                    started = true;
                }
            },
        }
        i += 1;
    }
    assert(input@.take(i as int) =~= input@);
    if let Some(q) = quote {
        let mark = char_text(q);
        return Err(
            match language {
                Language::English => join3("Unclosed ", mark.as_str(), " quote in command"),
                Language::Chinese => join3("命令中有未闭合的 ", mark.as_str(), " 引号"),
            },
        );
    }
    if started {
        proof {
            lemma_texts_push(arguments@, current);
        }
        arguments.push(current);
    }
    Ok(arguments)
}

} // verus!
