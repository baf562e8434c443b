//! What holds of terminal output made readable: what is taken out of it, and that
//! all else is kept.

use crate::search::{begins_with, is_control_char, lines, lowered, trimmed, trimmed_end};
use crate::terminal::{
    control_end, is_bar_char, is_bar_filler, is_progress, lemma_ends, plain_from, readable,
    sequence_end, shown_lines, string_end,
};
use crate::tui::activity::{LogView, MAX_ACTIVITY_LINES, law_activity_is_bounded};
use vstd::prelude::*;
use vstd::string::*;

verus! {

proof fn lemma_control_end_shift(s: Seq<char>, i: int, k: int)
    requires
        0 <= k <= i,
        k <= s.len(),
    ensures
        control_end(s, i) == control_end(s.skip(k), i - k) + k,
        string_end(s, i) == string_end(s.skip(k), i - k) + k,
    decreases s.len() - i,
{
    if i < s.len() {
        assert(s.skip(k)[i - k] == s[i]);
        if i + 1 < s.len() {
            assert(s.skip(k)[i + 1 - k] == s[i + 1]);
        }
        lemma_control_end_shift(s, i + 1, k);
    }
}

proof fn lemma_plain_shift(s: Seq<char>, i: int, k: int)
    requires
        0 <= k <= i,
        k <= s.len(),
    ensures
        plain_from(s, i) == plain_from(s.skip(k), i - k),
    decreases s.len() - i,
{
    if i < s.len() {
        assert(s.skip(k)[i - k] == s[i]);
        if i + 1 < s.len() {
            assert(s.skip(k)[i + 1 - k] == s[i + 1]);
        }
        lemma_control_end_shift(s, i + 1, k);
        lemma_control_end_shift(s, i + 2, k);
        lemma_ends(s, i + 1);
        lemma_ends(s, i + 2);
        let end = sequence_end(s, i);
        assert(sequence_end(s.skip(k), i - k) + k == end);
        if end <= i {
            lemma_plain_shift(s, i + 1, k);
        } else {
            lemma_plain_shift(s, end, k);
        }
    }
}

/// Characters that begin no escape sequence are kept, in order, before whatever
/// stands behind them.
pub proof fn law_plain_characters_are_kept(a: Seq<char>, b: Seq<char>)
    requires
        forall|i: int| 0 <= i < a.len() ==> #[trigger] a[i] != '\u{1b}' && a[i] != '\u{9b}',
    ensures
        plain_from(a + b, 0) == a + plain_from(b, 0),
    decreases a.len(),
{
    if a.len() == 0 {
        assert(a + b =~= b);
        assert(a + plain_from(b, 0) =~= plain_from(b, 0));
    } else {
        let rest = a.drop_first();
        assert forall|i: int| 0 <= i < rest.len() implies #[trigger] rest[i] != '\u{1b}' && rest[i]
            != '\u{9b}' by {
            assert(a[i + 1] != '\u{1b}');
        }
        law_plain_characters_are_kept(rest, b);
        let s = a + b;
        assert(s[0] == a[0]);
        lemma_plain_shift(s, 1, 1);
        assert(s.skip(1) =~= rest + b);
        assert(seq![a[0]] + (rest + plain_from(b, 0)) =~= a + plain_from(b, 0));
    }
}

proof fn lemma_control_end_at(s: Seq<char>, i: int, end: int)
    requires
        0 <= i <= end < s.len(),
        '@' <= s[end] <= '~',
        forall|k: int| i <= k < end ==> !('@' <= #[trigger] s[k] <= '~'),
    ensures
        control_end(s, i) == end + 1,
    decreases end - i,
{
    if i < end {
        lemma_control_end_at(s, i + 1, end);
    }
}

proof fn lemma_string_end_at(s: Seq<char>, i: int, end: int)
    requires
        0 <= i <= end < s.len(),
        s[end] == '\u{7}',
        forall|k: int| i <= k < end ==> #[trigger] s[k] != '\u{7}' && s[k] != '\u{1b}',
    ensures
        string_end(s, i) == end + 1,
    decreases end - i,
{
    if i < end {
        lemma_string_end_at(s, i + 1, end);
    }
}

/// A control sequence, and a terminal string that a bell ends, leave nothing of
/// themselves, and all that stands behind them.
pub proof fn law_escape_sequences_leave_nothing(p: Seq<char>, f: char, b: Seq<char>)
    ensures
        (forall|i: int| 0 <= i < p.len() ==> !('@' <= #[trigger] p[i] <= '~')) && '@' <= f <= '~'
            ==> plain_from(seq!['\u{1b}', '['] + p + seq![f] + b, 0) == plain_from(b, 0),
        (forall|i: int| 0 <= i < p.len() ==> #[trigger] p[i] != '\u{7}' && p[i] != '\u{1b}')
            ==> plain_from(seq!['\u{1b}', ']'] + p + seq!['\u{7}'] + b, 0) == plain_from(b, 0),
{
    let n = p.len() as int;
    if (forall|i: int| 0 <= i < p.len() ==> !('@' <= #[trigger] p[i] <= '~')) && '@' <= f <= '~' {
        let s = seq!['\u{1b}', '['] + p + seq![f] + b;
        assert(s[0] == '\u{1b}' && s[1] == '[');
        assert(s[2 + n] == f);
        assert forall|k: int| 2 <= k < 2 + n implies !('@' <= #[trigger] s[k] <= '~') by {
            assert(s[k] == p[k - 2]);
        }
        lemma_control_end_at(s, 2, 2 + n);
        lemma_plain_shift(s, 3 + n, 3 + n);
        assert(s.skip(3 + n) =~= b);
    }
    if forall|i: int| 0 <= i < p.len() ==> #[trigger] p[i] != '\u{7}' && p[i] != '\u{1b}' {
        let s = seq!['\u{1b}', ']'] + p + seq!['\u{7}'] + b;
        assert(s[0] == '\u{1b}' && s[1] == ']');
        assert(s[2 + n] == '\u{7}');
        assert forall|k: int| 2 <= k < 2 + n implies #[trigger] s[k] != '\u{7}' && s[k]
            != '\u{1b}' by {
            assert(s[k] == p[k - 2]);
        }
        lemma_string_end_at(s, 2, 2 + n);
        lemma_plain_shift(s, 3 + n, 3 + n);
        assert(s.skip(3 + n) =~= b);
    }
}

proof fn lemma_shown_shift(s: Seq<char>, i: int, k: int, line: Seq<char>)
    requires
        0 <= k <= i,
        k <= s.len(),
    ensures
        shown_lines(s, i, line) == shown_lines(s.skip(k), i - k, line),
    decreases s.len() - i,
{
    if i < s.len() {
        assert(s.skip(k)[i - k] == s[i]);
        if i + 1 < s.len() {
            assert(s.skip(k)[i + 1 - k] == s[i + 1]);
        }
        let none = Seq::<char>::empty();
        if s[i] == '\r' && i + 1 < s.len() && s[i + 1] == '\n' {
            lemma_shown_shift(s, i + 2, k, none);
        } else if s[i] == '\r' || s[i] == '\n' {
            lemma_shown_shift(s, i + 1, k, none);
        } else if s[i] == '\u{8}' {
            lemma_shown_shift(
                s,
                i + 1,
                k,
                if line.len() == 0 {
                    line
                } else {
                    line.drop_last()
                },
            );
        } else if s[i] == '\t' {
            lemma_shown_shift(s, i + 1, k, line + seq![' ', ' ', ' ', ' ']);
        } else if is_control_char(s[i]) {
            lemma_shown_shift(s, i + 1, k, line);
        } else {
            lemma_shown_shift(s, i + 1, k, line.push(s[i]));
        }
    }
}

/// Characters that are no control characters are shown in the line that they stand
/// in, whatever it began with.
proof fn lemma_shown_text(line: Seq<char>, a: Seq<char>, b: Seq<char>)
    requires
        forall|i: int| 0 <= i < a.len() ==> !is_control_char(#[trigger] a[i]),
    ensures
        shown_lines(a + b, 0, line) == shown_lines(b, 0, line + a),
    decreases a.len(),
{
    if a.len() == 0 {
        assert(a + b =~= b);
        assert(line + a =~= line);
    } else {
        let s = a + b;
        let rest = a.drop_first();
        assert forall|i: int| 0 <= i < rest.len() implies !is_control_char(#[trigger] rest[i]) by {
            assert(!is_control_char(a[i + 1]));
        }
        assert(s[0] == a[0]);
        assert(!is_control_char(a[0]));
        lemma_shown_shift(s, 1, 1, line.push(a[0]));
        assert(s.skip(1) =~= rest + b);
        lemma_shown_text(line.push(a[0]), rest, b);
        assert(line.push(a[0]) + rest =~= line + a);
    }
}

/// A line is shown as it stands before its line feed, with or without a carriage
/// return; a carriage return alone starts it over, a backspace takes back the
/// character before it, and a tab is four blanks.
pub proof fn law_lines_are_shown_as_on_a_terminal(a: Seq<char>, c: char, b: Seq<char>)
    requires
        forall|i: int| 0 <= i < a.len() ==> !is_control_char(#[trigger] a[i]),
        !is_control_char(c),
    ensures
        ({
            let none = Seq::<char>::empty();
            &&& shown_lines(a + seq!['\n'] + b, 0, none) == seq![a] + shown_lines(b, 0, none)
            &&& shown_lines(a + seq!['\r', '\n'] + b, 0, none) == seq![a] + shown_lines(b, 0, none)
            &&& b.len() > 0 && b[0] != '\n' ==> shown_lines(a + seq!['\r'] + b, 0, none)
                == shown_lines(b, 0, none)
            &&& shown_lines(a + seq![c, '\u{8}'] + b, 0, none) == shown_lines(b, 0, a)
            &&& shown_lines(a + seq!['\t'] + b, 0, none) == shown_lines(
                b,
                0,
                a + seq![' ', ' ', ' ', ' '],
            )
            &&& a.len() > 0 ==> shown_lines(a, 0, none) == seq![a]
        }),
{
    let none = Seq::<char>::empty();
    assert(none + a =~= a);
    let feed = seq!['\n'] + b;
    assert(a + seq!['\n'] + b =~= a + feed);
    lemma_shown_text(none, a, feed);
    assert(feed[0] == '\n');
    lemma_shown_shift(feed, 1, 1, none);
    assert(feed.skip(1) =~= b);
    let both = seq!['\r', '\n'] + b;
    assert(a + seq!['\r', '\n'] + b =~= a + both);
    lemma_shown_text(none, a, both);
    assert(both[0] == '\r' && both[1] == '\n');
    lemma_shown_shift(both, 2, 2, none);
    assert(both.skip(2) =~= b);
    let over = seq!['\r'] + b;
    assert(a + seq!['\r'] + b =~= a + over);
    lemma_shown_text(none, a, over);
    assert(over[0] == '\r');
    if b.len() > 0 && b[0] != '\n' {
        assert(over[1] == b[0]);
        lemma_shown_shift(over, 1, 1, none);
        assert(over.skip(1) =~= b);
    }
    let longer = a + seq![c];
    assert forall|i: int| 0 <= i < longer.len() implies !is_control_char(#[trigger] longer[i]) by {
        if i < a.len() {
            assert(longer[i] == a[i]);
        }
    }
    let back = seq!['\u{8}'] + b;
    assert(a + seq![c, '\u{8}'] + b =~= longer + back);
    assert(none + longer =~= longer);
    lemma_shown_text(none, longer, back);
    assert(back[0] == '\u{8}');
    assert(longer.drop_last() =~= a);
    lemma_shown_shift(back, 1, 1, a);
    assert(back.skip(1) =~= b);
    let tab = seq!['\t'] + b;
    assert(a + seq!['\t'] + b =~= a + tab);
    lemma_shown_text(none, a, tab);
    assert(tab[0] == '\t');
    lemma_shown_shift(tab, 1, 1, a + seq![' ', ' ', ' ', ' ']);
    assert(tab.skip(1) =~= b);
    assert(a + none =~= a);
    lemma_shown_text(none, a, none);
}

/// Whether a character stands in a progress bar or beside one.
pub open spec fn draws_progress(c: char) -> bool {
    ||| c == '#' || c == '=' || c == '%' || c == '|' || c == '/' || c == '\\' || c == '*'
    ||| c == 'O' || c == 'o' || '0' <= c <= '9' || c == ' ' || c == '\t' || c == '\n' || c == '\r'
    ||| c == '\u{c}' || c == '.' || c == '-' || c == ':' || c == '<' || c == '>' || c == '['
    ||| c == ']' || c == '(' || c == ')'
}

/// A line is held to be progress only where it is made of the characters that bars
/// are drawn with, or is the head of a table of downloads: a line with any other
/// character is kept.
pub proof fn law_only_progress_is_left_out(line: Seq<char>, i: int)
    requires
        0 <= i < trimmed(line).len(),
        !draws_progress(trimmed(line)[i]),
        !begins_with(lowered(trimmed(line)), "% total"@),
    ensures
        !is_progress(line),
{
}

/// A bar of one of the characters that bars are drawn with is progress, however
/// long it is and whatever numbers stand beside it.
pub proof fn law_bars_are_progress(line: Seq<char>, i: int)
    requires
        0 <= i < trimmed(line).len(),
        trimmed(line)[i] == '#' || trimmed(line)[i] == '=' || trimmed(line)[i] == '%',
        forall|k: int| 0 <= k < trimmed(line).len() ==> draws_progress(#[trigger] trimmed(line)[k]),
    ensures
        is_progress(line),
{
    let t = trimmed(line);
    assert forall|k: int| 0 <= k < t.len() implies is_bar_char(#[trigger] t[k]) || is_bar_filler(
        t[k],
    ) by {
        assert(draws_progress(t[k]));
    }
    assert(is_bar_char(t[i]));
}

/// The readable lines are all the lines but for progress, in order, each without the
/// white space at its end.
pub proof fn law_readable_lines_are_kept(lines: Seq<Seq<char>>)
    ensures
        readable(lines) == lines.map_values(|line: Seq<char>| trimmed_end(line)).filter(
            |line: Seq<char>| !is_progress(line),
        ),
    decreases lines.len(),
{
    reveal(Seq::filter);
    let f = |line: Seq<char>| trimmed_end(line);
    if lines.len() > 0 {
        law_readable_lines_are_kept(lines.drop_last());
        assert(lines.map_values(f).drop_last() =~= lines.drop_last().map_values(f));
        assert(lines.map_values(f).last() == trimmed_end(lines.last()));
    } else {
        assert(lines.map_values(f) =~= Seq::<Seq<char>>::empty());
    }
}

/// All the readable lines of an output go to the log, in order, behind what is there,
/// as long as there is room.
pub proof fn law_output_goes_to_the_log(log: LogView, lines: Seq<Seq<char>>, stamp: Seq<char>, n: int)
    requires
        0 <= n <= lines.len(),
        log.lines.len() + n <= MAX_ACTIVITY_LINES,
    ensures
        log.logged_first(lines, stamp, n).lines == log.lines + lines.take(n),
    decreases n,
{
    if n > 0 {
        law_output_goes_to_the_log(log, lines, stamp, n - 1);
        let before = log.logged_first(lines, stamp, n - 1);
        law_activity_is_bounded(before, lines[n - 1], stamp);
        assert((log.lines + lines.take(n - 1)).push(lines[n - 1]) =~= log.lines + lines.take(n));
    } else {
        assert(log.lines + lines.take(0) =~= log.lines);
    }
}

} // verus!
