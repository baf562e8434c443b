//! What holds of texts: how they are parted, joined, cut and counted.

use crate::number::shifted;
use crate::search::{
    is_ascii_letter, is_char, is_control_char, is_digit_char, is_white, lemma_split_on_nonempty,
    lines_of, lower_char, lowered, split_on, stripped_of,
};
use crate::text::{byte_len, char_index, is_boundary, lemma_byte_len_add, lemma_char_index};
use crate::tui::arguments::joined;
use crate::tui::loading::{process_output, truncated};
use crate::version_laws::{lemma_drop_leading_all, lemma_drop_trailing_all};
use vstd::prelude::*;
use vstd::string::*;

verus! {

/// White space are the blank, the tabs, the line breaks and, outside of ASCII,
/// the blanks and line breaks of Unicode; no letter and no digit is.
pub proof fn law_white_space_is_that_of_unicode(c: char)
    ensures
        c <= '\u{7f}' ==> (is_white(c) <==> c == ' ' || c == '\t' || c == '\n' || c == '\r' || c
            == '\u{b}' || c == '\u{c}'),
        c == '\u{85}' || c == '\u{a0}' || c == '\u{1680}' || c == '\u{2028}' || c == '\u{2029}' || c
            == '\u{202f}' || c == '\u{205f}' || c == '\u{3000}' ==> is_white(c),
        '\u{2000}' <= c <= '\u{200a}' ==> is_white(c),
        c > '\u{3000}' ==> !is_white(c),
        is_digit_char(c) || is_ascii_letter(c) ==> !is_white(c) && !is_control_char(c),
        is_control_char(c) <==> c < ' ' || '\u{7f}' <= c < '\u{a0}',
{
}

/// The pieces between the occurrences of a character do not hold it, and joined by
/// it they are the text again.
pub proof fn law_pieces_make_up_the_text(s: Seq<char>, x: char)
    ensures
        joined(split_on(s, x), seq![x]) == s,
        forall|i: int, k: int|
            #![trigger split_on(s, x)[i][k]]
            0 <= i < split_on(s, x).len() && 0 <= k < split_on(s, x)[i].len() ==> split_on(
                s,
                x,
            )[i][k] != x,
        split_on(s, x).len() > 0,
    decreases s.len(),
{
    reveal_with_fuel(joined, 2);
    if s.len() > 0 {
        let front = s.drop_last();
        let before = split_on(front, x);
        let all = split_on(s, x);
        law_pieces_make_up_the_text(front, x);
        if s.last() == x {
            assert(all.drop_last() =~= before);
            assert(joined(all, seq![x]) =~= s);
            assert forall|i: int, k: int|
                #![trigger all[i][k]]
                0 <= i < all.len() && 0 <= k < all[i].len() implies all[i][k] != x by {
                assert(all[i] == before[i]);
                assert(before[i][k] != x);
            }
        } else {
            assert(all.len() == before.len());
            assert(all.drop_last() =~= before.drop_last());
            assert(all.last() == before.last().push(s.last()));
            assert(joined(all, seq![x]) =~= joined(before, seq![x]).push(s.last()));
            assert(front.push(s.last()) =~= s);
            assert forall|i: int, k: int|
                #![trigger all[i][k]]
                0 <= i < all.len() && 0 <= k < all[i].len() implies all[i][k] != x by {
                if i < before.len() - 1 {
                    assert(all[i] == before[i]);
                    assert(before[i][k] != x);
                } else if k < before.last().len() {
                    assert(all[i][k] == before[i][k]);
                }
            }
        }
    } else {
        assert(joined(split_on(s, x), seq![x]) =~= s);
    }
}

/// A text is parted at each occurrence of the character and nowhere else.
pub proof fn law_texts_are_parted_at_each_occurrence(a: Seq<char>, b: Seq<char>, x: char)
    ensures
        split_on(a.push(x) + b, x) == split_on(a, x) + split_on(b, x),
        !a.contains(x) ==> split_on(a, x) == seq![a],
    decreases a.len() + b.len(),
{
    lemma_split_on_nonempty(a, x);
    lemma_split_on_nonempty(b, x);
    let whole = a.push(x) + b;
    if b.len() == 0 {
        assert(whole =~= a.push(x));
        assert(whole.drop_last() =~= a);
        assert(split_on(whole, x) =~= split_on(a, x) + split_on(b, x));
        if a.len() > 0 {
            let front = a.drop_last();
            law_texts_are_parted_at_each_occurrence(front, b, x);
            if !a.contains(x) {
                assert forall|k: int| 0 <= k < front.len() implies front[k] != x by {
                    assert(front[k] == a[k]);
                }
                assert(a[a.len() - 1] == a.last());
                assert(front.push(a.last()) =~= a);
                assert(split_on(a, x) =~= seq![a]);
            }
        } else {
            assert(a =~= Seq::<char>::empty());
            assert(split_on(a, x) =~= seq![a]);
        }
    } else {
        let front = b.drop_last();
        law_texts_are_parted_at_each_occurrence(a, front, x);
        lemma_split_on_nonempty(front, x);
        assert(whole.drop_last() =~= a.push(x) + front);
        assert(whole.last() == b.last());
        assert(split_on(whole, x) =~= split_on(a, x) + split_on(b, x));
    }
}

/// Each line feed ends a line, of which a carriage return before it is no part; what
/// follows the last line feed is a line where it is anything.
pub proof fn law_line_feeds_end_lines(a: Seq<char>, b: Seq<char>)
    requires
        !a.contains('\n'),
    ensures
        lines_of(Seq::empty()) == Seq::<Seq<char>>::empty(),
        a.len() > 0 ==> lines_of(a) == seq![a],
        lines_of(a.push('\n') + b) == seq![
            if a.len() > 0 && a.last() == '\r' {
                a.drop_last()
            } else {
                a
            },
        ] + lines_of(b),
{
    law_texts_are_parted_at_each_occurrence(a, b, '\n');
    lemma_split_on_nonempty(b, '\n');
    assert(lines_of(Seq::empty()) =~= Seq::<Seq<char>>::empty());
    if a.len() > 0 {
        assert(lines_of(a) =~= seq![a]);
    }
    let pieces = split_on(a.push('\n') + b, '\n');
    let rest = split_on(b, '\n');
    assert(pieces == seq![a] + rest);
    assert(pieces.last() == rest.last());
    let first = if a.len() > 0 && a.last() == '\r' {
        a.drop_last()
    } else {
        a
    };
    assert(lines_of(a.push('\n') + b) =~= seq![first] + lines_of(b));
}

/// A character is taken off both ends of a text, as often as it stands there, and
/// nowhere else.
pub proof fn law_characters_are_taken_off_the_ends(
    a: Seq<char>,
    s: Seq<char>,
    b: Seq<char>,
    x: char,
)
    requires
        forall|i: int| 0 <= i < a.len() ==> #[trigger] a[i] == x,
        forall|i: int| 0 <= i < b.len() ==> #[trigger] b[i] == x,
        s.len() > 0,
        s[0] != x,
        s.last() != x,
    ensures
        stripped_of(a + s + b, x) == s,
{
    let p = is_char(x);
    lemma_drop_trailing_all(s, b, p);
    assert((s + b)[0] == s[0]);
    assert(a + s + b =~= a + (s + b));
    lemma_drop_leading_all(a, s + b, p);
}

/// Capitals of ASCII become the small letters of the same name, and all else stays.
pub proof fn law_capitals_become_small(s: Seq<char>, i: int)
    requires
        0 <= i < s.len(),
    ensures
        lowered(s).len() == s.len(),
        'A' <= s[i] <= 'Z' ==> lowered(s)[i] as u32 == s[i] as u32 - 'A' as u32 + 'a' as u32,
        !('A' <= s[i] <= 'Z') ==> lowered(s)[i] == s[i],
        lowered(lowered(s)) == lowered(s),
{
    assert forall|k: int| 0 <= k < s.len() implies lowered(lowered(s))[k] == lowered(s)[k] by {
        let c = s[k];
        if 'A' <= c <= 'Z' {
            assert(lower_char(c) as u32 == c as u32 + 32);
        }
    }
    assert(lowered(lowered(s)) =~= lowered(s));
}

/// The bytes of texts one behind the other add up, and no character is more than
/// four.
pub proof fn law_bytes_add_up(a: Seq<char>, b: Seq<char>)
    ensures
        byte_len(a + b) == byte_len(a) + byte_len(b),
        a.len() <= byte_len(a) <= 4 * a.len(),
    decreases a.len(),
{
    lemma_byte_len_add(a, b);
    if a.len() > 0 {
        law_bytes_add_up(a.drop_last(), b);
    }
}

/// Each character of ASCII is one byte.
pub proof fn law_ascii_is_bytes(s: Seq<char>)
    requires
        forall|i: int| 0 <= i < s.len() ==> (#[trigger] s[i]) as u32 <= 0x7f,
    ensures
        byte_len(s) == s.len(),
    decreases s.len(),
{
    if s.len() > 0 {
        let front = s.drop_last();
        assert forall|i: int| 0 <= i < front.len() implies (#[trigger] front[i]) as u32
            <= 0x7f by {
            assert(front[i] == s[i]);
        }
        law_ascii_is_bytes(front);
        assert(s[s.len() - 1] as u32 <= 0x7f);
    }
}

/// The place of a character is found from its offset in bytes.
pub proof fn law_places_are_found_from_bytes(a: Seq<char>, b: Seq<char>)
    ensures
        is_boundary(a + b, byte_len(a) as int),
        char_index(a + b, byte_len(a) as int) == a.len(),
{
    assert((a + b).take(a.len() as int) =~= a);
    lemma_char_index(a + b, a.len() as int);
}

/// A text of at most `limit` characters is left as it is, and a longer one is cut
/// to `limit` characters of which the last is an ellipsis.
pub proof fn law_long_texts_are_cut(text: Seq<char>, limit: int)
    requires
        limit > 0,
    ensures
        text.len() <= limit ==> truncated(text, limit) == text,
        text.len() > limit ==> truncated(text, limit).len() == limit && truncated(text, limit).last()
            == '…' && truncated(text, limit).drop_last() == text.take(limit - 1),
{
    if text.len() > limit {
        assert(truncated(text, limit).drop_last() =~= text.take(limit - 1));
    }
}

/// All that a process has written is kept, its errors behind its output and never on
/// one line with it.
pub proof fn law_output_and_errors_are_kept(stdout: Seq<char>, stderr: Seq<char>)
    ensures
        ({
            let all = process_output(stdout, stderr);
            &&& all.len() >= stdout.len() + stderr.len()
            &&& all.take(stdout.len() as int) == stdout
            &&& all.skip(all.len() - stderr.len()) == stderr
            &&& all.len() <= stdout.len() + stderr.len() + 1
            &&& stderr.len() > 0 && stdout.len() > 0 ==> all[all.len() - stderr.len() - 1] == '\n'
            &&& all.len() > stdout.len() + stderr.len() ==> stdout.last() != '\n'
        }),
{
    reveal_strlit("\n");
    let all = process_output(stdout, stderr);
    assert("\n"@ =~= seq!['\n']);
    if stdout.len() > 0 {
        assert(stdout.subrange(stdout.len() - 1, stdout.len() as int) =~= seq![stdout.last()]);
        assert(seq![stdout.last()] == seq!['\n'] ==> seq![stdout.last()][0] == '\n');
    }
    assert(all.take(stdout.len() as int) =~= stdout);
    assert(all.skip(all.len() - stderr.len()) =~= stderr);
}

/// Adding to a number stops at its bounds.
pub proof fn law_shifting_stops_at_the_bounds(n: usize, delta: int)
    ensures
        0 <= shifted(n as int, delta) <= usize::MAX,
        0 <= n + delta <= usize::MAX ==> shifted(n as int, delta) == n + delta,
        n + delta < 0 ==> shifted(n as int, delta) == 0,
        n + delta > usize::MAX ==> shifted(n as int, delta) == usize::MAX,
{
}

} // verus!
