//! Terminal output made readable: escape sequences, overwritten lines and
//! progress bars are taken out of it.

use crate::search::{
    begins_with, contains, control, digit, has_text, is_control_char, is_digit_char, is_white,
    lemma_drop_trailing_length, lemma_texts_push, lines, lines_of, lowered, starts_with, texts,
    to_lower, trim, trim_end, trimmed, trimmed_end,
};
use crate::text::{chars_of, join3, push_char, string_of};
use vstd::prelude::*;
use vstd::string::*;

verus! {

/// Position behind the control sequence whose parameters start at `i`.
pub open spec fn control_end(s: Seq<char>, i: int) -> int
    decreases s.len() - i,
{
    if i >= s.len() {
        i
    } else if '@' <= s[i] <= '~' {
        i + 1
    } else {
        control_end(s, i + 1)
    }
}

/// Position behind the terminal string whose text starts at `i`.
pub open spec fn string_end(s: Seq<char>, i: int) -> int
    decreases s.len() - i,
{
    if i >= s.len() {
        i
    } else if s[i] == '\u{7}' {
        i + 1
    } else if s[i] == '\u{1b}' && i + 1 < s.len() && s[i + 1] == '\\' {
        i + 2
    } else {
        string_end(s, i + 1)
    }
}

/// Whether `c` behind an escape character starts a terminal string.
pub open spec fn opens_string(c: char) -> bool {
    c == ']' || c == 'P' || c == 'X' || c == '^' || c == '_'
}

/// Position behind the escape sequence at `i`, or `i` itself where none starts
/// there.
pub open spec fn sequence_end(s: Seq<char>, i: int) -> int {
    if s[i] == '\u{9b}' {
        control_end(s, i + 1)
    } else if s[i] != '\u{1b}' {
        i
    } else if i + 1 >= s.len() {
        i + 1
    } else if s[i + 1] == '[' {
        control_end(s, i + 2)
    } else if opens_string(s[i + 1]) {
        string_end(s, i + 2)
    } else {
        i + 2
    }
}

pub proof fn lemma_ends(s: Seq<char>, i: int)
    ensures
        i <= control_end(s, i),
        i <= string_end(s, i),
        i <= s.len() ==> control_end(s, i) <= s.len() && string_end(s, i) <= s.len(),
    decreases s.len() - i,
{
    if i < s.len() {
        lemma_ends(s, i + 1);
    }
}

/// What `s` holds from `i` on besides escape sequences.
pub open spec fn plain_from(s: Seq<char>, i: int) -> Seq<char>
    decreases s.len() - i,
{
    if i >= s.len() || i < 0 {
        Seq::empty()
    } else {
        let end = sequence_end(s, i);
        if end <= i {
            seq![s[i]] + plain_from(s, i + 1)
        } else {
            proof {
                lemma_ends(s, i + 1);
                lemma_ends(s, i + 2);
            }
            plain_from(s, end)
        }
    }
}

/// `c` does not begin an escape sequence.
pub open spec fn is_plain(c: char) -> bool {
    c != '\u{1b}' && c != '\u{9b}'
}

proof fn lemma_plain_from(s: Seq<char>, i: int)
    ensures
        forall|k: int|
            0 <= k < plain_from(s, i).len() ==> is_plain(#[trigger] plain_from(s, i)[k]),
    decreases s.len() - i,
{
    if 0 <= i < s.len() {
        let end = sequence_end(s, i);
        lemma_ends(s, i + 1);
        lemma_ends(s, i + 2);
        let all = plain_from(s, i);
        if end <= i {
            assert(is_plain(s[i]));
            lemma_plain_from(s, i + 1);
            let rest = plain_from(s, i + 1);
            assert forall|k: int| 0 <= k < all.len() implies is_plain(#[trigger] all[k]) by {
                if k > 0 {
                    assert(all[k] == rest[k - 1]);
                }
            }
        } else {
            lemma_plain_from(s, end);
            let rest = plain_from(s, end);
            assert(all == rest);
            assert forall|k: int| 0 <= k < all.len() implies is_plain(#[trigger] all[k]) by {
                assert(is_plain(rest[k]));
            }
        }
    }
}

/// What is left after escape sequences were taken out holds no character that
/// begins one.
pub proof fn law_no_escape_is_left(s: Seq<char>)
    ensures
        forall|k: int|
            0 <= k < plain_from(s, 0).len() ==> is_plain(#[trigger] plain_from(s, 0)[k]),
{
    lemma_plain_from(s, 0);
}

/// Position behind the control sequence whose parameters start at `from`.
pub fn consume_control_sequence(characters: &Vec<char>, from: usize) -> (r: usize)
    requires
        from <= characters@.len(),
    ensures
        r == control_end(characters@, from as int),
        from <= r <= characters@.len(),
{
    let mut i: usize = from;
    while i < characters.len()
        invariant
            from <= i <= characters@.len(),
            control_end(characters@, i as int) == control_end(characters@, from as int),
        decreases characters@.len() - i,
    {
        let c = characters[i];
        i += 1;
        if '@' <= c && c <= '~' {
            return i;
        }
    }
    i
}

/// Position behind the terminal string whose text starts at `from`.
pub fn consume_terminal_string(characters: &Vec<char>, from: usize) -> (r: usize)
    requires
        from <= characters@.len(),
    ensures
        r == string_end(characters@, from as int),
        from <= r <= characters@.len(),
{
    let mut i: usize = from;
    while i < characters.len()
        invariant
            from <= i <= characters@.len(),
            string_end(characters@, i as int) == string_end(characters@, from as int),
        decreases characters@.len() - i,
    {
        if characters[i] == '\u{7}' {
            return i + 1;
        }
        if characters[i] == '\u{1b}' && i + 1 < characters.len() && characters[i + 1] == '\\' {
            return i + 2;
        }
        i += 1;
    }
    i
}

/// `output` without escape sequences.
pub fn strip_terminal_sequences(output: &str) -> (r: String)
    ensures
        r@ == plain_from(output@, 0),
{
    let characters = chars_of(output);
    let mut plain = String::new();
    let mut i: usize = 0;
    while i < characters.len()
        invariant
            characters@ == output@,
            i <= characters@.len(),
            plain@ + plain_from(output@, i as int) == plain_from(output@, 0),
        decreases characters@.len() - i,
    {
        let c = characters[i];
        proof {
            lemma_ends(output@, i + 1);
            lemma_ends(output@, i + 2);
        }
        if c == '\u{9b}' {
            i = consume_control_sequence(&characters, i + 1);
        } else if c != '\u{1b}' {
            let ghost before = plain@;
            push_char(&mut plain, c);
            assert(before + (seq![c] + plain_from(output@, i + 1)) =~= plain@ + plain_from(
                output@,
                i + 1,
            ));
            i += 1;
        } else if i + 1 >= characters.len() {
            i += 1;
        } else if characters[i + 1] == '[' {
            i = consume_control_sequence(&characters, i + 2);
        } else if characters[i + 1] == ']' || characters[i + 1] == 'P' || characters[i + 1] == 'X'
            || characters[i + 1] == '^' || characters[i + 1] == '_' {
            i = consume_terminal_string(&characters, i + 2);
        } else {
            i += 2;
        }
    }
    assert(plain@ =~= plain_from(output@, 0));
    plain
}

/// The lines that a terminal shows for `s` from `i` on, the first of them
/// begun with `line`: a carriage return alone starts the line over, a
/// backspace takes back a character, a tab is four blanks, and other control
/// characters leave nothing.
pub open spec fn shown_lines(s: Seq<char>, i: int, line: Seq<char>) -> Seq<Seq<char>>
    decreases s.len() - i,
{
    if i >= s.len() || i < 0 {
        if line.len() == 0 {
            Seq::empty()
        } else {
            seq![line]
        }
    } else if s[i] == '\r' && i + 1 < s.len() && s[i + 1] == '\n' {
        seq![line] + shown_lines(s, i + 2, Seq::empty())
    } else if s[i] == '\r' {
        shown_lines(s, i + 1, Seq::empty())
    } else if s[i] == '\n' {
        seq![line] + shown_lines(s, i + 1, Seq::empty())
    } else if s[i] == '\u{8}' {
        shown_lines(
            s,
            i + 1,
            if line.len() == 0 {
                line
            } else {
                line.drop_last()
            },
        )
    } else if s[i] == '\t' {
        shown_lines(s, i + 1, line + seq![' ', ' ', ' ', ' '])
    } else if is_control_char(s[i]) {
        shown_lines(s, i + 1, line)
    } else {
        shown_lines(s, i + 1, line.push(s[i]))
    }
}

/// Whether `c` is ASCII white space.
pub open spec fn is_ascii_white(c: char) -> bool {
    c == ' ' || c == '\t' || c == '\n' || c == '\u{c}' || c == '\r'
}

/// A character that progress bars are drawn with.
pub open spec fn is_bar_char(c: char) -> bool {
    c == '#' || c == '=' || c == '%' || c == '|' || c == '/' || c == '\\' || c == '*' || c == 'O'
        || c == 'o'
}

/// A character that stands beside a progress bar.
pub open spec fn is_bar_filler(c: char) -> bool {
    ||| is_digit_char(c)
    ||| is_ascii_white(c)
    ||| c == '.' || c == '-' || c == ':' || c == '<' || c == '>' || c == '[' || c == ']' || c == '('
        || c == ')'
}

/// Whether `line` is nothing but a progress bar or the head of a table of
/// download progress.
pub open spec fn is_progress(line: Seq<char>) -> bool {
    let t = trimmed(line);
    &&& t.len() > 0
    &&& {
        ||| begins_with(lowered(t), "% total"@) && has_text(lowered(t), "% received"@)
        ||| {
            &&& forall|i: int|
                0 <= i < t.len() ==> is_bar_char(#[trigger] t[i]) || is_bar_filler(t[i])
            &&& exists|i: int| 0 <= i < t.len() && is_bar_char(#[trigger] t[i])
        }
    }
}

/// The lines without white space at their ends, and without progress bars.
pub open spec fn readable(lines: Seq<Seq<char>>) -> Seq<Seq<char>>
    decreases lines.len(),
{
    if lines.len() == 0 {
        Seq::empty()
    } else {
        let before = readable(lines.drop_last());
        let line = trimmed_end(lines.last());
        if is_progress(line) {
            before
        } else {
            before.push(line)
        }
    }
}

/// The readable lines of terminal output.
pub open spec fn sanitized(output: Seq<char>) -> Seq<Seq<char>> {
    readable(shown_lines(plain_from(output, 0), 0, Seq::empty()))
}

pub open spec fn free_of_controls(s: Seq<char>) -> bool {
    forall|k: int| 0 <= k < s.len() ==> !is_control_char(#[trigger] s[k])
}

proof fn lemma_shown_lines(s: Seq<char>, i: int, line: Seq<char>)
    requires
        free_of_controls(line),
    ensures
        forall|k: int|
            0 <= k < shown_lines(s, i, line).len() ==> free_of_controls(
                #[trigger] shown_lines(s, i, line)[k],
            ),
    decreases s.len() - i,
{
    if 0 <= i < s.len() {
        let shown = shown_lines(s, i, line);
        let none = Seq::<char>::empty();
        if s[i] == '\r' && i + 1 < s.len() && s[i + 1] == '\n' {
            lemma_shown_lines(s, i + 2, none);
            let rest = shown_lines(s, i + 2, none);
            assert forall|k: int| 0 <= k < shown.len() implies free_of_controls(
                #[trigger] shown[k],
            ) by {
                if k > 0 {
                    assert(shown[k] == rest[k - 1]);
                }
            }
        } else if s[i] == '\r' {
            lemma_shown_lines(s, i + 1, none);
            assert(shown == shown_lines(s, i + 1, none));
        } else if s[i] == '\n' {
            lemma_shown_lines(s, i + 1, none);
            let rest = shown_lines(s, i + 1, none);
            assert forall|k: int| 0 <= k < shown.len() implies free_of_controls(
                #[trigger] shown[k],
            ) by {
                if k > 0 {
                    assert(shown[k] == rest[k - 1]);
                }
            }
        } else if s[i] == '\u{8}' {
            let kept = if line.len() == 0 {
                line
            } else {
                line.drop_last()
            };
            lemma_shown_lines(s, i + 1, kept);
            assert(shown == shown_lines(s, i + 1, kept));
        } else if s[i] == '\t' {
            let longer = line + seq![' ', ' ', ' ', ' '];
            lemma_shown_lines(s, i + 1, longer);
            assert(shown == shown_lines(s, i + 1, longer));
        } else if is_control_char(s[i]) {
            lemma_shown_lines(s, i + 1, line);
            assert(shown == shown_lines(s, i + 1, line));
        } else {
            lemma_shown_lines(s, i + 1, line.push(s[i]));
            assert(shown == shown_lines(s, i + 1, line.push(s[i])));
        }
        assert forall|k: int| 0 <= k < shown.len() implies free_of_controls(#[trigger] shown[k]) by {}
    }
}

/// A line that is shown as it is: without control characters, without white
/// space at its end, and no progress bar.
pub open spec fn is_readable(line: Seq<char>) -> bool {
    &&& free_of_controls(line)
    &&& trimmed_end(line) == line
    &&& !is_progress(line)
}

proof fn lemma_readable(lines: Seq<Seq<char>>)
    requires
        forall|k: int| 0 <= k < lines.len() ==> free_of_controls(#[trigger] lines[k]),
    ensures
        forall|k: int| 0 <= k < readable(lines).len() ==> is_readable(#[trigger] readable(lines)[k]),
    decreases lines.len(),
{
    if lines.len() > 0 {
        let front = lines.drop_last();
        assert forall|k: int| 0 <= k < front.len() implies free_of_controls(#[trigger] front[k]) by {
            assert(front[k] == lines[k]);
        }
        lemma_readable(front);
        let last = lines.last();
        assert(free_of_controls(lines[lines.len() - 1]));
        lemma_drop_trailing_length(last, |c: char| is_white(c));
        assert(free_of_controls(trimmed_end(last)));
        assert(trimmed_end(trimmed_end(last)) == trimmed_end(last));
        let before = readable(front);
        let all = readable(lines);
        assert forall|k: int| 0 <= k < all.len() implies is_readable(#[trigger] all[k]) by {
            if k < before.len() {
                assert(all[k] == before[k]);
            }
        }
    }
}

/// No readable line holds a control character, ends in white space or is a
/// progress bar.
pub proof fn law_sanitized_lines_are_readable(output: Seq<char>)
    ensures
        forall|k: int|
            0 <= k < sanitized(output).len() ==> is_readable(#[trigger] sanitized(output)[k]),
{
    let shown = shown_lines(plain_from(output, 0), 0, Seq::empty());
    lemma_shown_lines(plain_from(output, 0), 0, Seq::empty());
    lemma_readable(shown);
}

/// The lines one behind the other, each with a line feed behind it.
pub open spec fn with_line_feeds(lines: Seq<Seq<char>>) -> Seq<char>
    decreases lines.len(),
{
    if lines.len() == 0 {
        Seq::empty()
    } else {
        with_line_feeds(lines.drop_last()) + lines.last().push('\n')
    }
}

/// What has been made readable stays as it is when it is made readable again.
pub proof fn law_sanitizing_again_changes_nothing(output: Seq<char>)
    ensures
        sanitized(with_line_feeds(sanitized(output))) == sanitized(output),
{
    law_sanitized_lines_are_readable(output);
    lemma_readable_lines_stay(sanitized(output));
}

proof fn lemma_readable_lines_stay(lines: Seq<Seq<char>>)
    requires
        forall|k: int| 0 <= k < lines.len() ==> is_readable(#[trigger] lines[k]),
    ensures
        sanitized(with_line_feeds(lines)) == lines,
{
    let text = with_line_feeds(lines);
    lemma_fed_characters(lines);
    lemma_plain_text(text, 0);
    assert(text.skip(0) =~= text);
    assert(lines.take(0) =~= Seq::<Seq<char>>::empty());
    lemma_shown_again(lines, 0);
    assert(lines.skip(0) =~= lines);
    lemma_readable_again(lines);
}

proof fn lemma_fed_characters(lines: Seq<Seq<char>>)
    requires
        forall|k: int| 0 <= k < lines.len() ==> is_readable(#[trigger] lines[k]),
    ensures
        forall|i: int|
            0 <= i < with_line_feeds(lines).len() ==> is_plain(#[trigger] with_line_feeds(lines)[i]),
    decreases lines.len(),
{
    if lines.len() > 0 {
        let front = lines.drop_last();
        assert forall|k: int| 0 <= k < front.len() implies is_readable(#[trigger] front[k]) by {
            assert(front[k] == lines[k]);
        }
        lemma_fed_characters(front);
        let last = lines.last();
        assert(is_readable(lines[lines.len() - 1]));
        let before = with_line_feeds(front);
        let text = with_line_feeds(lines);
        assert forall|i: int| 0 <= i < text.len() implies is_plain(#[trigger] text[i]) by {
            if i < before.len() {
                assert(text[i] == before[i]);
            } else if i < text.len() - 1 {
                assert(text[i] == last[i - before.len()]);
            }
        }
    }
}

/// Text without characters that begin an escape sequence holds none.
proof fn lemma_plain_text(s: Seq<char>, i: int)
    requires
        0 <= i <= s.len(),
        forall|k: int| 0 <= k < s.len() ==> is_plain(#[trigger] s[k]),
    ensures
        plain_from(s, i) == s.skip(i),
    decreases s.len() - i,
{
    if i < s.len() {
        assert(is_plain(s[i]));
        lemma_plain_text(s, i + 1);
        assert(seq![s[i]] + s.skip(i + 1) =~= s.skip(i));
    } else {
        assert(s.skip(i) =~= Seq::<char>::empty());
    }
}

/// The first lines with their line feeds are a start of all of them.
proof fn lemma_fed_start(lines: Seq<Seq<char>>, n: int)
    requires
        0 <= n <= lines.len(),
    ensures
        with_line_feeds(lines.take(n)).len() <= with_line_feeds(lines).len(),
        with_line_feeds(lines).take(with_line_feeds(lines.take(n)).len() as int)
            == with_line_feeds(lines.take(n)),
    decreases lines.len(),
{
    let text = with_line_feeds(lines);
    if n == lines.len() {
        assert(lines.take(n) =~= lines);
        assert(text.take(text.len() as int) =~= text);
    } else {
        let front = lines.drop_last();
        lemma_fed_start(front, n);
        assert(front.take(n) =~= lines.take(n));
        let start = with_line_feeds(lines.take(n));
        assert(text.take(start.len() as int) =~= with_line_feeds(front).take(start.len() as int));
    }
}

/// A line without control characters is shown as it is.
proof fn lemma_shown_line(s: Seq<char>, i: int, begun: Seq<char>, rest: Seq<char>)
    requires
        0 <= i,
        i + rest.len() < s.len(),
        s.subrange(i, i + rest.len()) == rest,
        s[i + rest.len()] == '\n',
        free_of_controls(rest),
    ensures
        shown_lines(s, i, begun) == seq![begun + rest] + shown_lines(
            s,
            i + rest.len() + 1,
            Seq::empty(),
        ),
    decreases rest.len(),
{
    if rest.len() == 0 {
        assert(begun + rest =~= begun);
    } else {
        assert(s[i] == s.subrange(i, i + rest.len())[0]);
        assert(!is_control_char(rest[0]));
        let tail = rest.drop_first();
        assert forall|k: int| 0 <= k < tail.len() implies !is_control_char(#[trigger] tail[k]) by {
            assert(tail[k] == rest[k + 1]);
        }
        assert(s.subrange(i + 1, i + 1 + tail.len()) =~= s.subrange(
            i,
            i + rest.len(),
        ).drop_first());
        lemma_shown_line(s, i + 1, begun.push(s[i]), tail);
        assert(begun.push(s[i]) + tail =~= begun + rest);
    }
}

proof fn lemma_shown_again(lines: Seq<Seq<char>>, n: int)
    requires
        forall|k: int| 0 <= k < lines.len() ==> is_readable(#[trigger] lines[k]),
        0 <= n <= lines.len(),
    ensures
        shown_lines(
            with_line_feeds(lines),
            with_line_feeds(lines.take(n)).len() as int,
            Seq::empty(),
        ) == lines.skip(n),
    decreases lines.len() - n,
{
    let text = with_line_feeds(lines);
    let at = with_line_feeds(lines.take(n)).len() as int;
    let none = Seq::<char>::empty();
    if n == lines.len() {
        assert(lines.take(n) =~= lines);
        assert(lines.skip(n) =~= Seq::<Seq<char>>::empty());
    } else {
        let line = lines[n];
        assert(is_readable(line));
        let longer = lines.take(n + 1);
        assert(longer.drop_last() =~= lines.take(n));
        assert(longer.last() == line);
        let start = with_line_feeds(longer);
        lemma_fed_start(lines, n + 1);
        assert(start == text.take(start.len() as int));
        assert(start.len() == at + line.len() + 1);
        assert(text.subrange(at, at + line.len()) =~= line) by {
            assert forall|k: int| 0 <= k < line.len() implies text[at + k] == line[k] by {
                assert(start[at + k] == line.push('\n')[k]);
            }
        }
        assert(start[at + line.len()] == line.push('\n')[line.len() as int]);
        lemma_shown_line(text, at, none, line);
        lemma_shown_again(lines, n + 1);
        assert(none + line =~= line);
        assert(seq![line] + lines.skip(n + 1) =~= lines.skip(n));
    }
}

proof fn lemma_readable_again(lines: Seq<Seq<char>>)
    requires
        forall|k: int| 0 <= k < lines.len() ==> is_readable(#[trigger] lines[k]),
    ensures
        readable(lines) == lines,
    decreases lines.len(),
{
    if lines.len() > 0 {
        let front = lines.drop_last();
        assert forall|k: int| 0 <= k < front.len() implies is_readable(#[trigger] front[k]) by {
            assert(front[k] == lines[k]);
        }
        lemma_readable_again(front);
        assert(is_readable(lines[lines.len() - 1]));
        assert(front.push(lines.last()) =~= lines);
    } else {
        assert(lines =~= Seq::<Seq<char>>::empty());
    }
}

/// Whether `line` is nothing but a progress bar.
pub fn is_progress_artifact(line: &str) -> (r: bool)
    ensures
        r == is_progress(line@),
{
    let stripped = trim(line);
    if stripped.is_empty() {
        return false;
    }
    let lower = to_lower(stripped);
    if starts_with(lower.as_str(), "% total") && contains(lower.as_str(), "% received") {
        return true;
    }
    let chars = chars_of(stripped);
    let mut marked: bool = false;
    let mut i: usize = 0;
    while i < chars.len()
        invariant
            chars@ == trimmed(line@),
            chars@.len() > 0,
            !(begins_with(lowered(chars@), "% total"@) && has_text(
                lowered(chars@),
                "% received"@,
            )),
            i <= chars@.len(),
            forall|k: int|
                0 <= k < i ==> is_bar_char(#[trigger] chars@[k]) || is_bar_filler(chars@[k]),
            marked == exists|k: int| 0 <= k < i && is_bar_char(#[trigger] chars@[k]),
        decreases chars@.len() - i,
    {
        let c = chars[i];
        if c == '#' || c == '=' || c == '%' || c == '|' || c == '/' || c == '\\' || c == '*' || c
            == 'O' || c == 'o' {
            marked = true;
            assert(is_bar_char(chars@[i as int]));
        } else if !(digit(c) || c == ' ' || c == '\t' || c == '\n' || c == '\u{c}' || c == '\r' || c
            == '.' || c == '-' || c == ':' || c == '<' || c == '>' || c == '[' || c == ']' || c
            == '(' || c == ')') {
            assert(!is_bar_char(chars@[i as int]) && !is_bar_filler(chars@[i as int]));
            return false;
        }
        i += 1;
    }
    marked
}

/// The lines that a terminal shows for `output`.
fn terminal_lines(output: &str) -> (r: Vec<String>)
    ensures
        texts(r@) == shown_lines(output@, 0, Seq::empty()),
{
    let s = chars_of(output);
    let mut lines: Vec<String> = Vec::new();
    let mut line: Vec<char> = Vec::new();
    let mut i: usize = 0;
    assert(texts(lines@) + shown_lines(output@, 0, line@) =~= shown_lines(output@, 0, Seq::empty()));
    while i < s.len()
        invariant
            s@ == output@,
            i <= s@.len(),
            texts(lines@) + shown_lines(output@, i as int, line@) == shown_lines(
                output@,
                0,
                Seq::empty(),
            ),
        decreases s@.len() - i,
    {
        let c = s[i];
        let ghost listed = lines@;
        if c == '\r' && i + 1 < s.len() && s[i + 1] == '\n' {
            let shown = string_of(line.as_slice());
            lines.push(shown);
            proof {
                lemma_texts_push(listed, shown);
                assert(texts(listed) + (seq![line@] + shown_lines(output@, i + 2, Seq::empty()))
                    =~= texts(lines@) + shown_lines(output@, i + 2, Seq::empty()));
            }
            line.clear();
            i += 2;
        } else if c == '\r' {
            line.clear();
            i += 1;
        } else if c == '\n' {
            let shown = string_of(line.as_slice());
            lines.push(shown);
            proof {
                lemma_texts_push(listed, shown);
                assert(texts(listed) + (seq![line@] + shown_lines(output@, i + 1, Seq::empty()))
                    =~= texts(lines@) + shown_lines(output@, i + 1, Seq::empty()));
            }
            line.clear();
            i += 1;
        } else if c == '\u{8}' {
            let ghost before = line@;
            let _ = line.pop();
            assert(line@ =~= if before.len() == 0 {
                before
            } else {
                before.drop_last()
            });
            i += 1;
        } else if c == '\t' {
            let ghost before = line@;
            line.push(' ');
            line.push(' ');
            line.push(' ');
            line.push(' ');
            assert(line@ =~= before + seq![' ', ' ', ' ', ' ']);
            i += 1;
        } else if control(c) {
            i += 1;
        } else {
            line.push(c);
            i += 1;
        }
    }
    if line.len() > 0 {
        let ghost listed = lines@;
        let shown = string_of(line.as_slice());
        lines.push(shown);
        proof {
            lemma_texts_push(listed, shown);
            assert(texts(listed) + seq![line@] =~= texts(lines@));
        }
    } else {
        assert(texts(lines@) + Seq::<Seq<char>>::empty() =~= texts(lines@));
    }
    lines
}

/// The readable lines of terminal output.
pub fn sanitize_terminal_output(output: &str) -> (r: Vec<String>)
    ensures
        texts(r@) == sanitized(output@),
{
    let plain = strip_terminal_sequences(output);
    let lines = terminal_lines(plain.as_str());
    let ghost all = texts(lines@);
    let mut result: Vec<String> = Vec::new();
    let mut i: usize = 0;
    assert(all.take(0) =~= Seq::<Seq<char>>::empty());
    assert(texts(result@) =~= readable(all.take(0)));
    while i < lines.len()
        invariant
            i <= lines@.len(),
            all == texts(lines@),
            texts(result@) == readable(all.take(i as int)),
        decreases lines@.len() - i,
    {
        let ghost listed = result@;
        assert(all.take(i + 1).drop_last() =~= all.take(i as int));
        assert(all[i as int] == lines@[i as int]@);
        let line = trim_end(lines[i].as_str()).to_owned();
        if !is_progress_artifact(line.as_str()) {
            result.push(line);
            proof {
                lemma_texts_push(listed, line);
            }
        }
        i += 1;
    }
    assert(all.take(i as int) =~= all);
    result
}

/// Whether one of the lines of `output`, from the last one back, says that
/// `name` was queued before one says that it was updated.
pub open spec fn queued_before(
    lines: Seq<Seq<char>>,
    queued: Seq<char>,
    updated: Seq<char>,
) -> bool
    decreases lines.len(),
{
    if lines.len() == 0 {
        false
    } else if begins_with(trimmed(lines.last()), updated) {
        false
    } else if begins_with(trimmed(lines.last()), queued) {
        true
    } else {
        queued_before(lines.drop_last(), queued, updated)
    }
}

/// Whether the last word of `output` on the tool `name` is that it was queued.
pub open spec fn says_queued(name: Seq<char>, output: Seq<char>) -> bool {
    queued_before(lines_of(output), "queued "@ + name + ":"@, "updated "@ + name + ":"@)
}

/// Whether the last word of `output` on the tool `name` is that it was queued.
pub fn output_was_queued(name: &str, output: &str) -> (r: bool)
    ensures
        r == says_queued(name@, output@),
{
    let queued = join3("queued ", name, ":");
    let updated = join3("updated ", name, ":");
    let all = lines(output);
    let ghost whole = texts(all@);
    let mut i: usize = all.len();
    assert(whole.take(i as int) =~= whole);
    while i > 0
        invariant
            i <= all@.len(),
            whole == texts(all@),
            whole == lines_of(output@),
            queued@ == "queued "@ + name@ + ":"@,
            updated@ == "updated "@ + name@ + ":"@,
            queued_before(whole.take(i as int), queued@, updated@) == queued_before(
                whole,
                queued@,
                updated@,
            ),
        decreases i,
    {
        i -= 1;
        assert(whole.take(i + 1).drop_last() =~= whole.take(i as int));
        assert(whole[i as int] == all@[i as int]@);
        let line = trim(all[i].as_str());
        if starts_with(line, updated.as_str()) {
            return false;
        }
        if starts_with(line, queued.as_str()) {
            return true;
        }
    }
    false
}

} // verus!
