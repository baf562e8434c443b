//! Looking into text: prefixes, occurrences, trimming and splitting.

use crate::text::{chars_of, push_char, slice};
use vstd::prelude::*;
use vstd::string::*;

verus! {

/// Whether `p` stands in `s` at position `i`.
pub open spec fn occurs_at(s: Seq<char>, p: Seq<char>, i: int) -> bool {
    0 <= i && i + p.len() <= s.len() && s.subrange(i, i + p.len()) =~= p
}

/// Whether `s` begins with `p`.
pub open spec fn begins_with(s: Seq<char>, p: Seq<char>) -> bool {
    occurs_at(s, p, 0)
}

/// Whether `s` ends in `p`.
pub open spec fn finishes_with(s: Seq<char>, p: Seq<char>) -> bool {
    occurs_at(s, p, s.len() - p.len())
}

/// Whether `p` stands anywhere in `s`.
pub open spec fn has_text(s: Seq<char>, p: Seq<char>) -> bool {
    exists|i: int| occurs_at(s, p, i)
}

/// Whether `c` has the Unicode property White_Space.
pub open spec fn is_white(c: char) -> bool {
    let v = c as u32;
    ||| 0x09 <= v <= 0x0d
    ||| v == 0x20
    ||| v == 0x85
    ||| v == 0xa0
    ||| v == 0x1680
    ||| 0x2000 <= v <= 0x200a
    ||| v == 0x2028
    ||| v == 0x2029
    ||| v == 0x202f
    ||| v == 0x205f
    ||| v == 0x3000
}

/// Whether `c` is a control character (general category Cc).
pub open spec fn is_control_char(c: char) -> bool {
    let v = c as u32;
    v <= 0x1f || 0x7f <= v <= 0x9f
}

pub open spec fn is_digit_char(c: char) -> bool {
    '0' <= c <= '9'
}

pub open spec fn is_ascii_letter(c: char) -> bool {
    'a' <= c <= 'z' || 'A' <= c <= 'Z'
}

/// `s` without the leading characters that satisfy `p`.
pub open spec fn drop_leading(s: Seq<char>, p: spec_fn(char) -> bool) -> Seq<char>
    decreases s.len(),
{
    if s.len() > 0 && p(s[0]) {
        drop_leading(s.drop_first(), p)
    } else {
        s
    }
}

/// `s` without the trailing characters that satisfy `p`.
pub open spec fn drop_trailing(s: Seq<char>, p: spec_fn(char) -> bool) -> Seq<char>
    decreases s.len(),
{
    if s.len() > 0 && p(s.last()) {
        drop_trailing(s.drop_last(), p)
    } else {
        s
    }
}

/// `s` without white space at its ends.
pub open spec fn trimmed(s: Seq<char>) -> Seq<char> {
    drop_trailing(drop_leading(s, |c: char| is_white(c)), |c: char| is_white(c))
}

/// `s` without white space at its start.
pub open spec fn trimmed_start(s: Seq<char>) -> Seq<char> {
    drop_leading(s, |c: char| is_white(c))
}

/// `s` without white space at its end.
pub open spec fn trimmed_end(s: Seq<char>) -> Seq<char> {
    drop_trailing(s, |c: char| is_white(c))
}

/// `s` without the character `x` at its ends.
pub open spec fn stripped_of(s: Seq<char>, x: char) -> Seq<char> {
    drop_trailing(drop_leading(s, is_char(x)), is_char(x))
}

/// The predicate that only `x` satisfies.
pub open spec fn is_char(x: char) -> spec_fn(char) -> bool {
    |c: char| c == x
}

/// `c` with ASCII capitals made small.
pub open spec fn lower_char(c: char) -> char {
    if 'A' <= c <= 'Z' {
        ((c as u32) + 32) as char
    } else {
        c
    }
}

/// `s` with ASCII capitals made small.
pub open spec fn lowered(s: Seq<char>) -> Seq<char> {
    s.map_values(|c: char| lower_char(c))
}

/// The pieces of `s` between the occurrences of `x`; there is always at least one.
pub open spec fn split_on(s: Seq<char>, x: char) -> Seq<Seq<char>>
    decreases s.len(),
{
    if s.len() == 0 {
        seq![Seq::<char>::empty()]
    } else {
        let before = split_on(s.drop_last(), x);
        if s.last() == x {
            before.push(Seq::<char>::empty())
        } else {
            before.update(before.len() - 1, before.last().push(s.last()))
        }
    }
}

/// `s` without one final `x`.
pub open spec fn without_final(s: Seq<char>, x: char) -> Seq<char> {
    if s.len() > 0 && s.last() == x {
        s.drop_last()
    } else {
        s
    }
}

/// The lines of `s`: what stands between line feeds, each without a final
/// carriage return where a line feed follows it. A final line feed ends the
/// last line and starts none.
pub open spec fn lines_of(s: Seq<char>) -> Seq<Seq<char>> {
    let pieces = split_on(s, '\n');
    let kept = if pieces.last().len() == 0 {
        pieces.drop_last()
    } else {
        pieces
    };
    Seq::new(
        kept.len(),
        |i: int|
            if i < pieces.len() - 1 {
                without_final(kept[i], '\r')
            } else {
                kept[i]
            },
    )
}

/// The texts in a list of strings.
pub open spec fn texts(v: Seq<String>) -> Seq<Seq<char>> {
    v.map_values(|s: String| s@)
}

pub proof fn lemma_texts_push(v: Seq<String>, s: String)
    ensures
        texts(v.push(s)) == texts(v).push(s@),
{
    assert(texts(v.push(s)) =~= texts(v).push(s@));
}

pub proof fn lemma_split_on_nonempty(s: Seq<char>, x: char)
    ensures
        split_on(s, x).len() > 0,
    decreases s.len(),
{
    if s.len() > 0 {
        lemma_split_on_nonempty(s.drop_last(), x);
    }
}

pub proof fn lemma_drop_leading_length(s: Seq<char>, p: spec_fn(char) -> bool)
    ensures
        drop_leading(s, p).len() <= s.len(),
        drop_leading(s, p) == s.skip(s.len() - drop_leading(s, p).len()),
        drop_leading(s, p).len() > 0 ==> !p(drop_leading(s, p)[0]),
    decreases s.len(),
{
    if s.len() > 0 && p(s[0]) {
        lemma_drop_leading_length(s.drop_first(), p);
        let d = drop_leading(s, p);
        assert(s.drop_first().skip(s.drop_first().len() - d.len()) =~= s.skip(s.len() - d.len()));
    } else {
        assert(s.skip(0) =~= s);
    }
}

pub proof fn lemma_drop_trailing_length(s: Seq<char>, p: spec_fn(char) -> bool)
    ensures
        drop_trailing(s, p).len() <= s.len(),
        drop_trailing(s, p) == s.take(drop_trailing(s, p).len() as int),
        drop_trailing(s, p).len() > 0 ==> !p(drop_trailing(s, p).last()),
    decreases s.len(),
{
    if s.len() > 0 && p(s.last()) {
        lemma_drop_trailing_length(s.drop_last(), p);
        let d = drop_trailing(s, p);
        assert(s.drop_last().take(d.len() as int) =~= s.take(d.len() as int));
    } else {
        assert(s.take(s.len() as int) =~= s);
    }
}

/// What is left after trimming has no white space at either end, and trimming
/// it again changes nothing.
pub proof fn lemma_trimmed(s: Seq<char>)
    ensures
        trimmed(s).len() <= s.len(),
        trimmed(s).len() > 0 ==> !is_white(trimmed(s)[0]) && !is_white(trimmed(s).last()),
        trimmed(trimmed(s)) == trimmed(s),
{
    let p = |c: char| is_white(c);
    let front = drop_leading(s, p);
    lemma_drop_leading_length(s, p);
    lemma_drop_trailing_length(front, p);
    let t = trimmed(s);
    if t.len() > 0 {
        assert(t[0] == front[0]);
    }
}

/// Whether `c` has the Unicode property White_Space.
pub fn white(c: char) -> (r: bool)
    ensures
        r == is_white(c),
{
    let v: u32 = c as u32;
    (0x09 <= v && v <= 0x0d) || v == 0x20 || v == 0x85 || v == 0xa0 || v == 0x1680 || (0x2000 <= v
        && v <= 0x200a) || v == 0x2028 || v == 0x2029 || v == 0x202f || v == 0x205f || v == 0x3000
}

/// Whether `c` is a control character.
pub fn control(c: char) -> (r: bool)
    ensures
        r == is_control_char(c),
{
    let v: u32 = c as u32;
    v <= 0x1f || (0x7f <= v && v <= 0x9f)
}

pub fn digit(c: char) -> (r: bool)
    ensures
        r == is_digit_char(c),
{
    '0' <= c && c <= '9'
}

pub fn ascii_letter(c: char) -> (r: bool)
    ensures
        r == is_ascii_letter(c),
{
    ('a' <= c && c <= 'z') || ('A' <= c && c <= 'Z')
}

/// Whether `p` stands in `s` at position `i`.
pub fn stands_at(s: &Vec<char>, p: &Vec<char>, i: usize) -> (r: bool)
    ensures
        r == occurs_at(s@, p@, i as int),
{
    if i > s.len() || p.len() > s.len() - i {
        return false;
    }
    let mut j: usize = 0;
    while j < p.len()
        invariant
            i + p.len() <= s.len(),
            j <= p@.len(),
            forall|k: int| 0 <= k < j ==> s@[i + k] == p@[k],
        decreases p@.len() - j,
    {
        if s[i + j] != p[j] {
            assert(s@.subrange(i as int, i + p@.len())[j as int] != p@[j as int]);
            return false;
        }
        j += 1;
    }
    assert(s@.subrange(i as int, i + p@.len()) =~= p@);
    true
}

/// Whether `s` begins with `p`.
pub fn starts_with(s: &str, p: &str) -> (r: bool)
    ensures
        r == begins_with(s@, p@),
{
    stands_at(&chars_of(s), &chars_of(p), 0)
}

/// Whether `s` ends in `p`.
pub fn ends_with(s: &str, p: &str) -> (r: bool)
    ensures
        r == finishes_with(s@, p@),
{
    let chars = chars_of(s);
    let pattern = chars_of(p);
    if pattern.len() > chars.len() {
        return false;
    }
    stands_at(&chars, &pattern, chars.len() - pattern.len())
}

/// Whether `p` stands anywhere in `s`.
pub fn contains(s: &str, p: &str) -> (r: bool)
    ensures
        r == has_text(s@, p@),
{
    let chars = chars_of(s);
    let pattern = chars_of(p);
    let mut i: usize = 0;
    while i < chars.len()
        invariant
            chars@ == s@,
            pattern@ == p@,
            i <= chars@.len(),
            forall|k: int| 0 <= k < i ==> !occurs_at(s@, p@, k),
        decreases chars@.len() - i,
    {
        if stands_at(&chars, &pattern, i) {
            return true;
        }
        i += 1;
    }
    let found = stands_at(&chars, &pattern, i);
    proof {
        if has_text(s@, p@) {
            let k = choose|k: int| occurs_at(s@, p@, k);
            assert(k <= s@.len());
            assert(k >= i);
        }
    }
    found
}

/// Number of leading white characters of `s`.
pub fn leading_white(s: &Vec<char>) -> (r: usize)
    ensures
        r <= s@.len(),
        s@.skip(r as int) == trimmed_start(s@),
{
    let ghost p = |c: char| is_white(c);
    let mut i: usize = 0;
    assert(s@.skip(0) =~= s@);
    while i < s.len() && white(s[i])
        invariant
            i <= s@.len(),
            p == (|c: char| is_white(c)),
            drop_leading(s@.skip(i as int), p) == drop_leading(s@, p),
        decreases s@.len() - i,
    {
        assert(s@.skip(i as int).drop_first() =~= s@.skip(i + 1));
        assert(p(s@.skip(i as int)[0]));
        i += 1;
    }
    assert(i < s@.len() ==> !p(s@.skip(i as int)[0]));
    i
}

/// Length of `s` without trailing white characters.
pub fn length_without_trailing_white(s: &Vec<char>) -> (r: usize)
    ensures
        r <= s@.len(),
        s@.take(r as int) == trimmed_end(s@),
{
    let ghost p = |c: char| is_white(c);
    let mut i: usize = s.len();
    assert(s@.take(i as int) =~= s@);
    while i > 0 && white(s[i - 1])
        invariant
            i <= s@.len(),
            p == (|c: char| is_white(c)),
            drop_trailing(s@.take(i as int), p) == drop_trailing(s@, p),
        decreases i,
    {
        assert(s@.take(i as int).drop_last() =~= s@.take(i - 1));
        assert(p(s@.take(i as int).last()));
        i -= 1;
    }
    assert(i > 0 ==> !p(s@.take(i as int).last()));
    i
}

/// `s` without white space at its ends.
pub fn trim<'a>(s: &'a str) -> (r: &'a str)
    ensures
        r@ == trimmed(s@),
{
    let chars = chars_of(s);
    let from: usize = leading_white(&chars);
    let rest = slice(s, from, chars.len());
    assert(rest@ =~= s@.skip(from as int));
    let kept: usize = length_without_trailing_white(&chars_of(rest));
    let result = slice(rest, 0, kept);
    assert(result@ =~= rest@.take(kept as int));
    result
}

/// `s` without white space at its start.
pub fn trim_start<'a>(s: &'a str) -> (r: &'a str)
    ensures
        r@ == trimmed_start(s@),
{
    let chars = chars_of(s);
    let from: usize = leading_white(&chars);
    let rest = slice(s, from, chars.len());
    assert(rest@ =~= s@.skip(from as int));
    rest
}

/// `s` without white space at its end.
pub fn trim_end<'a>(s: &'a str) -> (r: &'a str)
    ensures
        r@ == trimmed_end(s@),
{
    let kept: usize = length_without_trailing_white(&chars_of(s));
    let result = slice(s, 0, kept);
    assert(result@ =~= s@.take(kept as int));
    result
}

/// `s` without the character `x` at its ends.
pub fn trim_matches<'a>(s: &'a str, x: char) -> (r: &'a str)
    ensures
        r@ == stripped_of(s@, x),
{
    let chars = chars_of(s);
    let ghost p = is_char(x);
    let mut from: usize = 0;
    assert(chars@.skip(0) =~= chars@);
    while from < chars.len() && chars[from] == x
        invariant
            from <= chars@.len(),
            p == is_char(x),
            drop_leading(chars@.skip(from as int), p) == drop_leading(chars@, p),
        decreases chars@.len() - from,
    {
        assert(chars@.skip(from as int).drop_first() =~= chars@.skip(from + 1));
        assert(p(chars@.skip(from as int)[0]));
        from += 1;
    }
    assert(from < chars@.len() ==> !p(chars@.skip(from as int)[0]));
    let ghost rest = chars@.skip(from as int);
    let mut to: usize = chars.len();
    assert(rest.take(to - from) =~= rest);
    while to > from && chars[to - 1] == x
        invariant
            from <= to <= chars@.len(),
            rest == chars@.skip(from as int),
            p == is_char(x),
            drop_trailing(rest.take(to - from), p) == drop_trailing(rest, p),
        decreases to,
    {
        assert(rest.take(to - from).drop_last() =~= rest.take(to - 1 - from));
        assert(p(rest.take(to - from).last()));
        to -= 1;
    }
    assert(to > from ==> !p(rest.take(to - from).last()));
    let result = slice(s, from, to);
    assert(result@ =~= rest.take(to - from));
    result
}

/// `s` without the character `x` at its end.
pub fn trim_end_matches<'a>(s: &'a str, x: char) -> (r: &'a str)
    ensures
        r@ == drop_trailing(s@, is_char(x)),
{
    let chars = chars_of(s);
    let ghost p = is_char(x);
    let mut to: usize = chars.len();
    assert(chars@.take(to as int) =~= chars@);
    while to > 0 && chars[to - 1] == x
        invariant
            to <= chars@.len(),
            p == is_char(x),
            drop_trailing(chars@.take(to as int), p) == drop_trailing(chars@, p),
        decreases to,
    {
        assert(chars@.take(to as int).drop_last() =~= chars@.take(to - 1));
        assert(p(chars@.take(to as int).last()));
        to -= 1;
    }
    assert(to > 0 ==> !p(chars@.take(to as int).last()));
    let result = slice(s, 0, to);
    assert(result@ =~= chars@.take(to as int));
    result
}

/// `s` with each line break written as one line feed.
pub open spec fn unix_newlines(s: Seq<char>) -> Seq<char>
    decreases s.len(),
{
    if s.len() == 0 {
        Seq::empty()
    } else if s[0] != '\r' {
        seq![s[0]] + unix_newlines(s.skip(1))
    } else if s.len() > 1 && s[1] == '\n' {
        seq!['\n'] + unix_newlines(s.skip(2))
    } else {
        seq!['\n'] + unix_newlines(s.skip(1))
    }
}

/// `s` with each line break written as one line feed.
pub fn normalize_newlines(s: &str) -> (r: String)
    ensures
        r@ == unix_newlines(s@),
        s@.len() > 0 ==> r@.len() > 0,
{
    let chars = chars_of(s);
    let mut result = String::new();
    let mut i: usize = 0;
    assert(s@.skip(0) =~= s@);
    while i < chars.len()
        invariant
            chars@ == s@,
            i <= chars@.len(),
            result@ + unix_newlines(s@.skip(i as int)) == unix_newlines(s@),
            i > 0 ==> result@.len() > 0,
        decreases chars@.len() - i,
    {
        let ghost before = result@;
        let ghost rest = s@.skip(i as int);
        assert(rest[0] == chars@[i as int]);
        assert(rest.skip(1) =~= s@.skip(i + 1));
        if chars[i] != '\r' {
            push_char(&mut result, chars[i]);
            assert(before + (seq![rest[0]] + unix_newlines(rest.skip(1))) =~= result@
                + unix_newlines(rest.skip(1)));
            i += 1;
        } else if i + 1 < chars.len() && chars[i + 1] == '\n' {
            push_char(&mut result, '\n');
            assert(rest[1] == '\n');
            assert(rest.skip(2) =~= s@.skip(i + 2));
            assert(before + (seq!['\n'] + unix_newlines(rest.skip(2))) =~= result@
                + unix_newlines(rest.skip(2)));
            i += 2;
        } else {
            push_char(&mut result, '\n');
            assert(rest.len() > 1 ==> rest[1] == chars@[i + 1]);
            assert(before + (seq!['\n'] + unix_newlines(rest.skip(1))) =~= result@
                + unix_newlines(rest.skip(1)));
            i += 1;
        }
    }
    assert(s@.skip(i as int) =~= Seq::<char>::empty());
    assert(result@ =~= unix_newlines(s@));
    result
}

/// `s` with ASCII capitals made small.
pub fn to_lower(s: &str) -> (r: String)
    ensures
        r@ == lowered(s@),
{
    let chars = chars_of(s);
    let mut result = String::new();
    let mut i: usize = 0;
    while i < chars.len()
        invariant
            chars@ == s@,
            i <= chars@.len(),
            result@ == lowered(s@).take(i as int),
        decreases chars@.len() - i,
    {
        let c = chars[i];
        if 'A' <= c && c <= 'Z' {
            let small: u8 = (c as u8) + 32;
            assert(small == (c as u32) + 32);
            push_char(&mut result, small as char);
        } else {
            push_char(&mut result, c);
        }
        i += 1;
        assert(result@ =~= lowered(s@).take(i as int));
    }
    assert(lowered(s@).take(i as int) =~= lowered(s@));
    result
}

/// The pieces of `s` between the occurrences of `x`.
pub fn split<'a>(s: &'a str, x: char) -> (r: Vec<String>)
    ensures
        texts(r@) == split_on(s@, x),
        r@.len() > 0,
{
    let chars = chars_of(s);
    let mut pieces: Vec<String> = Vec::new();
    let mut current = String::new();
    let mut i: usize = 0;
    proof {
        assert(s@.take(0) =~= Seq::<char>::empty());
        assert(texts(pieces@).push(current@) =~= split_on(s@.take(0), x));
    }
    while i < chars.len()
        invariant
            chars@ == s@,
            i <= chars@.len(),
            texts(pieces@).push(current@) == split_on(s@.take(i as int), x),
        decreases chars@.len() - i,
    {
        let ghost before = split_on(s@.take(i as int), x);
        let ghost old_pieces = pieces@;
        let ghost old_current = current@;
        assert(s@.take(i + 1).drop_last() =~= s@.take(i as int));
        let c = chars[i];
        if c == x {
            proof {
                lemma_texts_push(pieces@, current);
            }
            pieces.push(current);
            current = String::new();
            assert(texts(pieces@).push(current@) =~= before.push(Seq::<char>::empty()));
        } else {
            push_char(&mut current, c);
            assert(before.last() == old_current);
            assert(texts(pieces@).push(current@) =~= before.update(
                before.len() - 1,
                before.last().push(c),
            ));
        }
        i += 1;
    }
    proof {
        assert(s@.take(i as int) =~= s@);
        lemma_texts_push(pieces@, current);
    }
    pieces.push(current);
    pieces
}

/// The lines of `s`.
pub fn lines(s: &str) -> (r: Vec<String>)
    ensures
        texts(r@) == lines_of(s@),
{
    let pieces = split(s, '\n');
    let ghost whole = split_on(s@, '\n');
    assert(forall|k: int| 0 <= k < pieces@.len() ==> texts(pieces@)[k] == pieces@[k]@);
    assert(texts(pieces@).last() == pieces@.last()@);
    let mut count: usize = pieces.len();
    if pieces[count - 1].as_str().is_empty() {
        count -= 1;
    }
    let mut result: Vec<String> = Vec::new();
    let mut i: usize = 0;
    while i < count
        invariant
            texts(pieces@) == whole,
            whole == split_on(s@, '\n'),
            count <= pieces@.len(),
            count == lines_of(s@).len(),
            i <= count,
            texts(result@) == lines_of(s@).take(i as int),
        decreases count - i,
    {
        assert(whole[i as int] == pieces@[i as int]@);
        let line = chars_of(pieces[i].as_str());
        let ghost listed = result@;
        let length: usize = line.len();
        if i + 1 < pieces.len() && length > 0 && line[length - 1] == '\r' {
            let kept = slice(pieces[i].as_str(), 0, length - 1);
            assert(kept@ =~= line@.drop_last());
            result.push(kept.to_owned());
        } else {
            result.push(pieces[i].as_str().to_owned());
        }
        proof {
            lemma_texts_push(listed, result@.last());
            assert(result@ =~= listed.push(result@.last()));
            assert(result@.last()@ == lines_of(s@)[i as int]);
        }
        i += 1;
        assert(texts(result@) =~= lines_of(s@).take(i as int));
    }
    assert(lines_of(s@).take(i as int) =~= lines_of(s@));
    result
}

} // verus!
