//! Versions: finding them in command output, asking registries for the latest
//! one, and reading what they answer.

use crate::number::{decimal_text, number_of, parse_number};
use crate::search::{
    ascii_letter, control, digit, drop_leading, drop_trailing, is_ascii_letter, is_control_char,
    is_digit_char, is_white, lemma_texts_push, lemma_trimmed, texts, trim, trimmed, white,
};
use crate::text::{chars_of, join2, join3, push_char, same, slice};
use vstd::prelude::*;
use vstd::string::*;
use vstd::utf8::*;

verus! {

/// `bytes` read as UTF-8, with a replacement character for what is not.
pub uninterp spec fn lossy_text(bytes: Seq<u8>) -> Seq<char>;

/// `String::from_utf8_lossy` of std: a function of the bytes alone, which are
/// decoded as they are where they are valid UTF-8.
#[verifier::external_body]
pub(crate) fn text_from_bytes(bytes: &[u8]) -> (r: String)
    ensures
        r@ == lossy_text(bytes@),
        valid_utf8(bytes@) ==> r@ == decode_utf8(bytes@),
{
    String::from_utf8_lossy(bytes).into_owned()
}

/// What a command wrote: its output, and behind a line feed its errors, if any.
pub open spec fn combined_output(stdout: Seq<u8>, stderr: Seq<u8>) -> Seq<char> {
    if stderr.len() == 0 {
        lossy_text(stdout)
    } else {
        lossy_text(stdout) + seq!['\n'] + lossy_text(stderr)
    }
}

/// What a command wrote.
pub fn command_output(stdout: &[u8], stderr: &[u8]) -> (r: String)
    ensures
        r@ == combined_output(stdout@, stderr@),
{
    let mut output = text_from_bytes(stdout);
    if stderr.len() > 0 {
        let ghost before = output@;
        push_char(&mut output, '\n');
        assert(output@ =~= before + seq!['\n']);
        output.append(text_from_bytes(stderr).as_str());
    }
    output
}

/// Where in an escape sequence a reader is.
#[derive(Clone, Copy, Debug, PartialEq, Eq, Structural)]
pub enum Escape {
    Outside,
    Start,
    Csi,
    Osc,
    OscTerminator,
}

/// Where the reader is after the character `c`.
pub open spec fn escape_step(state: Escape, c: char) -> Escape {
    match state {
        Escape::Outside => if c == '\u{1b}' {
            Escape::Start
        } else {
            Escape::Outside
        },
        Escape::Start => if c == '[' {
            Escape::Csi
        } else if c == ']' {
            Escape::Osc
        } else {
            Escape::Outside
        },
        Escape::Csi => if '@' <= c <= '~' {
            Escape::Outside
        } else {
            Escape::Csi
        },
        Escape::Osc => if c == '\u{7}' {
            Escape::Outside
        } else if c == '\u{1b}' {
            Escape::OscTerminator
        } else {
            Escape::Osc
        },
        Escape::OscTerminator => if c == '\\' {
            Escape::Outside
        } else {
            Escape::Osc
        },
    }
}

/// Where a reader is after `s`.
pub open spec fn escape_after(s: Seq<char>) -> Escape
    decreases s.len(),
{
    if s.len() == 0 {
        Escape::Outside
    } else {
        escape_step(escape_after(s.drop_last()), s.last())
    }
}

/// Whether `c` is kept of plain text: line feeds, tabs, and what is no control
/// character.
pub open spec fn is_kept(c: char) -> bool {
    c == '\n' || c == '\t' || !is_control_char(c)
}

/// `s` without escape sequences and control characters.
pub open spec fn unescaped(s: Seq<char>) -> Seq<char>
    decreases s.len(),
{
    if s.len() == 0 {
        Seq::empty()
    } else {
        let before = unescaped(s.drop_last());
        let c = s.last();
        if escape_after(s.drop_last()) == Escape::Outside && c != '\u{1b}' && is_kept(c) {
            before.push(c)
        } else {
            before
        }
    }
}

/// Without escapes, text holds no control characters but line feeds and tabs.
pub proof fn law_unescaped_text_is_plain(s: Seq<char>)
    ensures
        forall|k: int| 0 <= k < unescaped(s).len() ==> is_kept(#[trigger] unescaped(s)[k]),
    decreases s.len(),
{
    if s.len() > 0 {
        law_unescaped_text_is_plain(s.drop_last());
        let before = unescaped(s.drop_last());
        let all = unescaped(s);
        assert forall|k: int| 0 <= k < all.len() implies is_kept(#[trigger] all[k]) by {
            if k < before.len() {
                assert(all[k] == before[k]);
            }
        }
    }
}

/// Whether the characters of `part` stand in `whole` at the places `at`, in the
/// same order.
pub open spec fn stand_at(part: Seq<char>, whole: Seq<char>, at: Seq<int>) -> bool {
    &&& at.len() == part.len()
    &&& forall|k: int|
        0 <= k < at.len() ==> 0 <= #[trigger] at[k] < whole.len() && whole[at[k]] == part[k]
    &&& forall|i: int, j: int| 0 <= i < j < at.len() ==> #[trigger] at[i] < #[trigger] at[j]
}

/// Whether `part` is `whole` with some of its characters left out.
pub open spec fn is_thinned(part: Seq<char>, whole: Seq<char>) -> bool {
    exists|at: Seq<int>| stand_at(part, whole, at)
}

/// Taking escapes out of text only leaves characters out: what stays stands in
/// the text in the same order.
pub proof fn law_unescaped_text_is_thinned(s: Seq<char>)
    ensures
        is_thinned(unescaped(s), s),
    decreases s.len(),
{
    if s.len() == 0 {
        assert(stand_at(unescaped(s), s, Seq::empty()));
    } else {
        let init = s.drop_last();
        law_unescaped_text_is_thinned(init);
        let at = choose|at: Seq<int>| stand_at(unescaped(init), init, at);
        if unescaped(s) == unescaped(init) {
            assert(stand_at(unescaped(s), s, at));
        } else {
            assert(stand_at(unescaped(s), s, at.push(s.len() - 1)));
        }
    }
}

proof fn lemma_plain_text_is_kept(s: Seq<char>)
    requires
        forall|k: int| 0 <= k < s.len() ==> is_kept(#[trigger] s[k]),
    ensures
        escape_after(s) == Escape::Outside,
        unescaped(s) == s,
    decreases s.len(),
{
    if s.len() > 0 {
        assert forall|k: int| 0 <= k < s.drop_last().len() implies is_kept(
            #[trigger] s.drop_last()[k],
        ) by {
            assert(s.drop_last()[k] == s[k]);
        }
        lemma_plain_text_is_kept(s.drop_last());
        assert(is_kept(s[s.len() - 1]));
        assert(s.drop_last().push(s.last()) =~= s);
    }
}

/// Text that escapes were taken out of holds none: taking them out again
/// changes nothing.
pub proof fn law_unescaping_twice_is_unescaping_once(s: Seq<char>)
    ensures
        unescaped(unescaped(s)) == unescaped(s),
{
    law_unescaped_text_is_plain(s);
    lemma_plain_text_is_kept(unescaped(s));
}

/// `input` without escape sequences and control characters.
pub fn strip_terminal_escapes(input: &str) -> (r: String)
    ensures
        r@ == unescaped(input@),
{
    let chars = chars_of(input);
    let mut state = Escape::Outside;
    let mut output = String::new();
    let mut i: usize = 0;
    assert(input@.take(0) =~= Seq::<char>::empty());
    while i < chars.len()
        invariant
            chars@ == input@,
            i <= chars@.len(),
            state == escape_after(input@.take(i as int)),
            output@ == unescaped(input@.take(i as int)),
        decreases chars@.len() - i,
    {
        let c = chars[i];
        assert(input@.take(i + 1).drop_last() =~= input@.take(i as int));
        state = match state {
            Escape::Outside => if c == '\u{1b}' {
                Escape::Start
            } else {
                if c == '\n' || c == '\t' || !control(c) {
                    push_char(&mut output, c);
                }
                Escape::Outside
            },
            Escape::Start => if c == '[' {
                Escape::Csi
            } else if c == ']' {
                Escape::Osc
            } else {
                Escape::Outside
            },
            Escape::Csi => if '@' <= c && c <= '~' {
                Escape::Outside
            } else {
                Escape::Csi
            },
            Escape::Osc => if c == '\u{7}' {
                Escape::Outside
            } else if c == '\u{1b}' {
                Escape::OscTerminator
            } else {
                Escape::Osc
            },
            Escape::OscTerminator => if c == '\\' {
                Escape::Outside
            } else {
                Escape::Osc
            },
        };
        i += 1;
    }
    assert(input@.take(i as int) =~= input@);
    output
}

/// The words that `s` ends before its last one, and that last one.
pub open spec fn words_read(s: Seq<char>) -> (Seq<Seq<char>>, Seq<char>)
    decreases s.len(),
{
    if s.len() == 0 {
        (Seq::empty(), Seq::empty())
    } else {
        let (words, current) = words_read(s.drop_last());
        if !is_white(s.last()) {
            (words, current.push(s.last()))
        } else if current.len() > 0 {
            (words.push(current), Seq::empty())
        } else {
            (words, current)
        }
    }
}

/// The pieces of `s` between white space.
pub open spec fn words_of(s: Seq<char>) -> Seq<Seq<char>> {
    let (words, current) = words_read(s);
    if current.len() > 0 {
        words.push(current)
    } else {
        words
    }
}

/// The pieces of `s` between white space.
pub fn split_words(s: &str) -> (r: Vec<String>)
    ensures
        texts(r@) == words_of(s@),
{
    let chars = chars_of(s);
    let mut words: Vec<String> = Vec::new();
    let mut current = String::new();
    let mut i: usize = 0;
    assert(s@.take(0) =~= Seq::<char>::empty());
    assert(texts(words@) =~= Seq::<Seq<char>>::empty());
    while i < chars.len()
        invariant
            chars@ == s@,
            i <= chars@.len(),
            (texts(words@), current@) == words_read(s@.take(i as int)),
        decreases chars@.len() - i,
    {
        let c = chars[i];
        assert(s@.take(i + 1).drop_last() =~= s@.take(i as int));
        if !white(c) {
            push_char(&mut current, c);
        } else if !current.as_str().is_empty() {
            proof {
                lemma_texts_push(words@, current);
            }
            words.push(current);
            current = String::new();
        }
        i += 1;
    }
    assert(s@.take(i as int) =~= s@);
    if !current.as_str().is_empty() {
        proof {
            lemma_texts_push(words@, current);
        }
        words.push(current);
    }
    words
}

/// Whether `c` can be a part of a version.
pub open spec fn is_version_char(c: char) -> bool {
    is_ascii_letter(c) || is_digit_char(c) || c == '.' || c == '-' || c == '+' || c == '_'
}

/// The predicate of characters that cannot be a part of a version.
pub open spec fn outside_version() -> spec_fn(char) -> bool {
    |c: char| !is_version_char(c)
}

/// `s` without one leading v.
pub open spec fn without_v(s: Seq<char>) -> Seq<char> {
    if s.len() > 0 && (s[0] == 'v' || s[0] == 'V') {
        s.drop_first()
    } else {
        s
    }
}

/// The version that the word `token` holds: what is left of it without other
/// characters at its ends and without a leading v, where that is made of
/// version characters only, a point and a digit among them.
pub open spec fn version_in(token: Seq<char>) -> Option<Seq<char>> {
    let numeric = without_v(
        drop_trailing(drop_leading(token, outside_version()), outside_version()),
    );
    let dotted = exists|i: int| 0 <= i < numeric.len() && #[trigger] numeric[i] == '.';
    let numbered = exists|i: int| 0 <= i < numeric.len() && is_digit_char(#[trigger] numeric[i]);
    let clean = forall|i: int| 0 <= i < numeric.len() ==> is_version_char(#[trigger] numeric[i]);
    if dotted && numbered && clean {
        Some(numeric)
    } else {
        None
    }
}

fn version_char(c: char) -> (r: bool)
    ensures
        r == is_version_char(c),
{
    ascii_letter(c) || digit(c) || c == '.' || c == '-' || c == '+' || c == '_'
}

/// The version that the word `token` holds.
pub fn version_token(token: &str) -> (r: Option<String>)
    ensures
        r is Some <==> version_in(token@) is Some,
        r matches Some(version) ==> version_in(token@) == Some(version@),
{
    let chars = chars_of(token);
    let ghost p = outside_version();
    let mut from: usize = 0;
    assert(chars@.skip(0) =~= chars@);
    while from < chars.len() && !version_char(chars[from])
        invariant
            from <= chars@.len(),
            p == outside_version(),
            drop_leading(chars@.skip(from as int), p) == drop_leading(chars@, p),
        decreases chars@.len() - from,
    {
        assert(chars@.skip(from as int).drop_first() =~= chars@.skip(from + 1));
        assert(p(chars@.skip(from as int)[0]));
        from += 1;
    }
    assert(from < chars@.len() ==> !p(chars@.skip(from as int)[0]));
    let ghost rest = chars@.skip(from as int);
    let mut to: usize = chars.len();
    assert(rest.take(to - from) =~= rest);
    while to > from && !version_char(chars[to - 1])
        invariant
            from <= to <= chars@.len(),
            rest == chars@.skip(from as int),
            p == outside_version(),
            drop_trailing(rest.take(to - from), p) == drop_trailing(rest, p),
        decreases to,
    {
        assert(rest.take(to - from).drop_last() =~= rest.take(to - 1 - from));
        assert(p(rest.take(to - from).last()));
        to -= 1;
    }
    assert(to > from ==> !p(rest.take(to - from).last()));
    let ghost candidate = rest.take(to - from);
    if from < to && (chars[from] == 'v' || chars[from] == 'V') {
        assert(candidate[0] == chars@[from as int]);
        assert(candidate.drop_first() =~= chars@.subrange(from + 1, to as int));
        from += 1;
    } else {
        assert(from < to ==> candidate[0] == chars@[from as int]);
        assert(candidate =~= chars@.subrange(from as int, to as int));
    }
    let ghost numeric = chars@.subrange(from as int, to as int);
    assert(numeric == without_v(candidate));
    let mut dotted: bool = false;
    let mut numbered: bool = false;
    let mut clean: bool = true;
    let mut i: usize = from;
    while i < to
        invariant
            from <= i <= to <= chars@.len(),
            numeric == chars@.subrange(from as int, to as int),
            dotted == exists|k: int| 0 <= k < i - from && #[trigger] numeric[k] == '.',
            numbered == exists|k: int| 0 <= k < i - from && is_digit_char(#[trigger] numeric[k]),
            clean == forall|k: int| 0 <= k < i - from ==> is_version_char(#[trigger] numeric[k]),
        decreases to - i,
    {
        let c = chars[i];
        assert(numeric[i - from] == c);
        dotted = dotted || c == '.';
        numbered = numbered || digit(c);
        clean = clean && version_char(c);
        i += 1;
    }
    if dotted && numbered && clean {
        Some(slice(token, from, to).to_owned())
    } else {
        None
    }
}

/// The versions among the words of a text, in order.
pub open spec fn versions_among(words: Seq<Seq<char>>) -> Seq<Seq<char>>
    decreases words.len(),
{
    if words.len() == 0 {
        Seq::empty()
    } else {
        let before = versions_among(words.drop_last());
        match version_in(words.last()) {
            Some(version) => before.push(version),
            None => before,
        }
    }
}

/// Whether `a` comes before `b` in the order of their characters.
pub open spec fn text_before(a: Seq<char>, b: Seq<char>) -> bool
    decreases a.len(),
{
    if b.len() == 0 {
        false
    } else if a.len() == 0 {
        true
    } else if a[0] != b[0] {
        a[0] < b[0]
    } else {
        text_before(a.drop_first(), b.drop_first())
    }
}

/// Each text before the next one.
pub open spec fn in_order(list: Seq<Seq<char>>) -> bool {
    forall|i: int, j: int|
        0 <= i < j < list.len() ==> text_before(#[trigger] list[i], #[trigger] list[j])
}

proof fn lemma_text_before_total(a: Seq<char>, b: Seq<char>)
    ensures
        a == b || text_before(a, b) || text_before(b, a),
        !(text_before(a, b) && text_before(b, a)),
        a == b ==> !text_before(a, b),
    decreases a.len(),
{
    if a.len() == 0 || b.len() == 0 {
        assert(a.len() == 0 && b.len() == 0 ==> a =~= b);
    } else if a[0] == b[0] {
        lemma_text_before_total(a.drop_first(), b.drop_first());
        if a.drop_first() == b.drop_first() {
            assert(a =~= seq![a[0]] + a.drop_first());
            assert(b =~= seq![b[0]] + b.drop_first());
        }
    }
}

proof fn lemma_text_before_transitive(a: Seq<char>, b: Seq<char>, c: Seq<char>)
    requires
        text_before(a, b),
        text_before(b, c),
    ensures
        text_before(a, c),
    decreases a.len(),
{
    if a.len() > 0 && b.len() > 0 && c.len() > 0 && a[0] == b[0] && b[0] == c[0] {
        lemma_text_before_transitive(a.drop_first(), b.drop_first(), c.drop_first());
    }
}

/// Whether `a` comes before `b`.
fn comes_before(a: &str, b: &str) -> (r: bool)
    ensures
        r == text_before(a@, b@),
{
    let x = chars_of(a);
    let y = chars_of(b);
    let mut i: usize = 0;
    assert(x@.skip(0) =~= x@);
    assert(y@.skip(0) =~= y@);
    while i < x.len() && i < y.len()
        invariant
            x@ == a@,
            y@ == b@,
            i <= x@.len(),
            i <= y@.len(),
            text_before(x@.skip(i as int), y@.skip(i as int)) == text_before(a@, b@),
        decreases x@.len() - i,
    {
        assert(x@.skip(i as int)[0] == x@[i as int]);
        assert(y@.skip(i as int)[0] == y@[i as int]);
        assert(x@.skip(i as int).drop_first() =~= x@.skip(i + 1));
        assert(y@.skip(i as int).drop_first() =~= y@.skip(i + 1));
        if x[i] != y[i] {
            return x[i] < y[i];
        }
        i += 1;
    }
    i < y.len()
}

/// Puts `version` into an ordered list, unless it is there.
fn insert_in_order(list: &mut Vec<String>, version: String)
    requires
        in_order(texts(old(list)@)),
    ensures
        in_order(texts(final(list)@)),
        forall|t: Seq<char>|
            texts(final(list)@).contains(t) <==> texts(old(list)@).contains(t) || t == version@,
{
    let ghost before = texts(list@);
    let mut i: usize = 0;
    while i < list.len() && comes_before(list[i].as_str(), version.as_str())
        invariant
            *list == *old(list),
            before == texts(list@),
            i <= list@.len(),
            forall|k: int| 0 <= k < i ==> text_before(#[trigger] before[k], version@),
        decreases list@.len() - i,
    {
        assert(before[i as int] == list@[i as int]@);
        i += 1;
    }
    if i < list.len() && same(list[i].as_str(), version.as_str()) {
        assert(before[i as int] == version@);
        return;
    }
    let ghost v = version@;
    proof {
        if i < list@.len() {
            assert(before[i as int] == list@[i as int]@);
            lemma_text_before_total(before[i as int], v);
        }
        assert forall|k: int| i <= k < before.len() implies text_before(v, #[trigger] before[k]) by {
            if k > i {
                assert(text_before(before[i as int], before[k]));
                lemma_text_before_transitive(v, before[i as int], before[k]);
            }
        }
    }
    list.insert(i, version);
    proof {
        let after = texts(list@);
        assert(after =~= before.insert(i as int, v));
        assert forall|j: int, k: int| 0 <= j < k < after.len() implies text_before(
            #[trigger] after[j],
            #[trigger] after[k],
        ) by {
            if k < i {
                assert(after[j] == before[j] && after[k] == before[k]);
            } else if j >= i {
                if j > i {
                    assert(after[j] == before[j - 1] && after[k] == before[k - 1]);
                } else {
                    assert(after[k] == before[k - 1]);
                }
            } else if k > i {
                assert(after[j] == before[j] && after[k] == before[k - 1]);
            }
        }
        assert forall|t: Seq<char>| after.contains(t) <==> before.contains(t) || t == v by {
            if before.contains(t) {
                let k = choose|k: int| 0 <= k < before.len() && before[k] == t;
                if k < i {
                    assert(after[k] == t);
                } else {
                    assert(after[k + 1] == t);
                }
            }
            if t == v {
                assert(after[i as int] == t);
            }
            if after.contains(t) {
                let k = choose|k: int| 0 <= k < after.len() && after[k] == t;
                if k < i {
                    assert(before[k] == t);
                } else if k > i {
                    assert(before[k - 1] == t);
                }
            }
        }
    }
}

/// The versions in what a command wrote, in order and each once.
pub fn extract_versions(stdout: &[u8], stderr: &[u8]) -> (r: Vec<String>)
    ensures
        in_order(texts(r@)),
        forall|t: Seq<char>|
            texts(r@).contains(t) <==> versions_among(
                words_of(unescaped(combined_output(stdout@, stderr@))),
            ).contains(t),
{
    versions_in_text(command_output(stdout, stderr).as_str())
}

/// The versions in terminal output, in order and each once.
pub fn versions_in_text(output: &str) -> (r: Vec<String>)
    ensures
        in_order(texts(r@)),
        forall|t: Seq<char>|
            texts(r@).contains(t) <==> versions_among(words_of(unescaped(output@))).contains(t),
{
    let plain = strip_terminal_escapes(output);
    let words = split_words(plain.as_str());
    let ghost all = texts(words@);
    let mut versions: Vec<String> = Vec::new();
    let mut i: usize = 0;
    assert(all.take(0) =~= Seq::<Seq<char>>::empty());
    assert forall|t: Seq<char>| texts(versions@).contains(t) <==> versions_among(
        all.take(0),
    ).contains(t) by {}
    while i < words.len()
        invariant
            all == texts(words@),
            i <= words@.len(),
            in_order(texts(versions@)),
            forall|t: Seq<char>|
                texts(versions@).contains(t) <==> versions_among(all.take(i as int)).contains(t),
        decreases words@.len() - i,
    {
        assert(all.take(i + 1).drop_last() =~= all.take(i as int));
        assert(all[i as int] == words@[i as int]@);
        let ghost before = versions_among(all.take(i as int));
        let ghost after = versions_among(all.take(i + 1));
        if let Some(version) = version_token(words[i].as_str()) {
            let ghost v = version@;
            insert_in_order(&mut versions, version);
            assert forall|t: Seq<char>| after.contains(t) <==> before.contains(t) || t == v by {
                assert(after == before.push(v));
                if before.contains(t) {
                    let k = choose|k: int| 0 <= k < before.len() && before[k] == t;
                    assert(after[k] == t);
                }
                if t == v {
                    assert(after[before.len() as int] == t);
                }
                if after.contains(t) {
                    let k = choose|k: int| 0 <= k < after.len() && after[k] == t;
                    if k < before.len() {
                        assert(before[k] == t);
                    }
                }
            }
        }
        i += 1;
    }
    assert(all.take(i as int) =~= all);
    versions
}

#[derive(Clone, Copy, Debug, PartialEq, Eq, Structural)]
pub enum LatestVersionErrorKind {
    RateLimited,
    Authentication,
    NotFound,
    RequestFailed,
    InvalidResponse,
}

/// Why the latest version of a tool is not known.
#[derive(Debug)]
pub struct LatestVersionError {
    pub kind: LatestVersionErrorKind,
    pub detail: String,
}

/// An error of the HTTP client.
#[verifier::external_type_specification]
#[verifier::external_body]
pub struct ExUreqError(ureq::Error);

/// The HTTP status that an error of the client reports, if it is about one.
pub uninterp spec fn status_in(error: ureq::Error) -> Option<u16>;

/// The HTTP status that the error reports, where it is about one: the value of
/// the variant `ureq::Error::StatusCode`, which is a function of the error
/// alone.
#[verifier::external_body]
pub(crate) fn reported_status(error: &ureq::Error) -> (r: Option<u16>)
    ensures
        r == status_in(*error),
{
    match error {
        ureq::Error::StatusCode(code) => Some(*code),
        _ => None,
    }
}

/// What `ureq::Error` says of itself (`to_string`): of an error that reports an
/// HTTP status, the words `http status: ` and the status in decimal. Of the
/// other errors nothing is said: their text may be in the words of the
/// operating system.
#[verifier::external_body]
pub(crate) fn error_text(error: &ureq::Error) -> (r: String)
    ensures
        status_in(*error) matches Some(code) ==> r@ == status_text(code),
{
    error.to_string()
}

/// What an error of the client that reports the HTTP status `code` says.
pub open spec fn status_text(code: u16) -> Seq<char> {
    "http status: "@ + decimal_text(code as nat)
}

/// What a failed request means, by the HTTP status that it got.
pub open spec fn kind_of_status(status: Option<u16>) -> LatestVersionErrorKind {
    if status == Some(401u16) {
        LatestVersionErrorKind::Authentication
    } else if status == Some(403u16) || status == Some(429u16) {
        LatestVersionErrorKind::RateLimited
    } else if status == Some(404u16) {
        LatestVersionErrorKind::NotFound
    } else {
        LatestVersionErrorKind::RequestFailed
    }
}

impl LatestVersionError {
    /// Whether this is the error of that kind and with that text.
    pub open spec fn is(self, kind: LatestVersionErrorKind, detail: Seq<char>) -> bool {
        self.kind == kind && self.detail@ == detail
    }

    pub fn new(kind: LatestVersionErrorKind, detail: &str) -> (r: LatestVersionError)
        ensures
            r.is(kind, detail@),
    {
        LatestVersionError { kind, detail: detail.to_owned() }
    }

    /// A copy of the error.
    pub fn copy(&self) -> (r: LatestVersionError)
        ensures
            r == *self,
    {
        LatestVersionError { kind: self.kind, detail: self.detail.clone() }
    }

    /// The error of a request that failed with `status` and `detail`.
    pub fn from_status(status: Option<u16>, detail: &str) -> (r: LatestVersionError)
        ensures
            r.is(kind_of_status(status), detail@),
    {
        let kind = match status {
            Some(code) => if code == 401 {
                LatestVersionErrorKind::Authentication
            } else if code == 403 || code == 429 {
                LatestVersionErrorKind::RateLimited
            } else if code == 404 {
                LatestVersionErrorKind::NotFound
            } else {
                LatestVersionErrorKind::RequestFailed
            },
            None => LatestVersionErrorKind::RequestFailed,
        };
        LatestVersionError::new(kind, detail)
    }

    /// The error of a request that the HTTP client reports as `error`.
    pub fn request(error: ureq::Error) -> (r: LatestVersionError)
        ensures
            r.kind == kind_of_status(status_in(error)),
            status_in(error) matches Some(code) ==> r.detail@ == status_text(code),
    {
        let status = reported_status(&error);
        let detail = error_text(&error);
        LatestVersionError::from_status(status, detail.as_str())
    }

    pub fn invalid_response(error: &str) -> (r: LatestVersionError)
        ensures
            r.is(LatestVersionErrorKind::InvalidResponse, error@),
    {
        LatestVersionError::new(LatestVersionErrorKind::InvalidResponse, error)
    }

    pub fn not_found(detail: &str) -> (r: LatestVersionError)
        ensures
            r.is(LatestVersionErrorKind::NotFound, detail@),
    {
        LatestVersionError::new(LatestVersionErrorKind::NotFound, detail)
    }

    pub fn detail(&self) -> (r: &str)
        ensures
            r@ == self.detail@,
    {
        self.detail.as_str()
    }
}

/// Where the latest version of a tool is published.
#[derive(Debug)]
pub enum LatestVersionSource {
    Homebrew { formula: String },
    Npm { package: String },
    Pypi { package: String },
    CratesIo { package: String },
    GithubRelease { repository: String },
    GithubTag { repository: String },
}

impl LatestVersionSource {
    /// A copy of the source.
    pub fn copy(&self) -> (r: LatestVersionSource)
        ensures
            r == *self,
    {
        match self {
            LatestVersionSource::Homebrew { formula } => LatestVersionSource::Homebrew {
                formula: formula.clone(),
            },
            LatestVersionSource::Npm { package } => LatestVersionSource::Npm {
                package: package.clone(),
            },
            LatestVersionSource::Pypi { package } => LatestVersionSource::Pypi {
                package: package.clone(),
            },
            LatestVersionSource::CratesIo { package } => LatestVersionSource::CratesIo {
                package: package.clone(),
            },
            LatestVersionSource::GithubRelease {
                repository,
            } => LatestVersionSource::GithubRelease { repository: repository.clone() },
            LatestVersionSource::GithubTag { repository } => LatestVersionSource::GithubTag {
                repository: repository.clone(),
            },
        }
    }

    /// Whether the source is asked with the GitHub API key.
    pub open spec fn is_github(self) -> bool {
        self is GithubRelease || self is GithubTag
    }

    pub fn on_github(&self) -> (r: bool)
        ensures
            r == self.is_github(),
    {
        matches!(
            self,
            LatestVersionSource::GithubRelease { .. } | LatestVersionSource::GithubTag { .. }
        )
    }
}

/// The address that is asked for the latest version.
pub open spec fn latest_url_of(source: LatestVersionSource) -> Seq<char> {
    match source {
        LatestVersionSource::Homebrew {
            formula,
        } => "https://formulae.brew.sh/api/formula/"@ + encoded_segment(formula@) + ".json"@,
        LatestVersionSource::Npm { package } => "https://registry.npmjs.org/"@ + encoded_segment(
            package@,
        ) + "/latest"@,
        LatestVersionSource::Pypi { package } => "https://pypi.org/pypi/"@ + encoded_segment(
            package@,
        ) + "/json"@,
        LatestVersionSource::CratesIo {
            package,
        } => "https://crates.io/api/v1/crates/"@ + encoded_segment(package@),
        LatestVersionSource::GithubRelease {
            repository,
        } => "https://api.github.com/repos/"@ + repository@ + "/releases/latest"@,
        LatestVersionSource::GithubTag {
            repository,
        } => "https://api.github.com/repos/"@ + repository@ + "/tags?per_page=1"@,
    }
}

/// A request for a latest version: its address, and what it carries as
/// authorization.
#[derive(Debug)]
pub struct LatestRequest {
    pub url: String,
    pub authorization: Option<String>,
}

/// The request that asks `source`; only GitHub is shown the API key.
pub fn latest_request(source: &LatestVersionSource, github_api_key: Option<&str>) -> (r:
    LatestRequest)
    ensures
        r.url@ == latest_url_of(*source),
        r.authorization is Some <==> source.is_github() && github_api_key is Some,
        r.authorization matches Some(value) ==> value@ == "Bearer "@ + github_api_key->0@,
{
    let url = match source {
        LatestVersionSource::Homebrew { formula } => join3(
            "https://formulae.brew.sh/api/formula/",
            encode_path_segment(formula.as_str()).as_str(),
            ".json",
        ),
        LatestVersionSource::Npm { package } => join3(
            "https://registry.npmjs.org/",
            encode_path_segment(package.as_str()).as_str(),
            "/latest",
        ),
        LatestVersionSource::Pypi { package } => join3(
            "https://pypi.org/pypi/",
            encode_path_segment(package.as_str()).as_str(),
            "/json",
        ),
        LatestVersionSource::CratesIo { package } => join2(
            "https://crates.io/api/v1/crates/",
            encode_path_segment(package.as_str()).as_str(),
        ),
        LatestVersionSource::GithubRelease { repository } => join3(
            "https://api.github.com/repos/",
            repository.as_str(),
            "/releases/latest",
        ),
        LatestVersionSource::GithubTag { repository } => join3(
            "https://api.github.com/repos/",
            repository.as_str(),
            "/tags?per_page=1",
        ),
    };
    let authorization = if source.on_github() {
        match github_api_key {
            Some(key) => Some(join2("Bearer ", key)),
            None => None,
        }
    } else {
        None
    };
    LatestRequest { url, authorization }
}

/// What came of a request for a latest version.
#[derive(Debug)]
pub enum LatestReply {
    /// The request failed.
    Failed(LatestVersionError),
    /// The answer could not be read, for the given reason.
    Unreadable(String),
    /// The versions that the answer names.
    Versions(Vec<String>),
}

/// The latest version that `source` gave, by what came of asking it: the first
/// version it named, from its first digit on.
pub fn fetch_latest(source: &LatestVersionSource, reply: LatestReply) -> (r: Result<
    String,
    LatestVersionError,
>)
    requires
        reply matches LatestReply::Versions(names) ==> source is GithubTag || names@.len() > 0,
    ensures
        reply matches LatestReply::Failed(error) ==> r == Err::<String, LatestVersionError>(error),
        reply matches LatestReply::Unreadable(reason) ==> (r matches Err(e) && e.is(
            LatestVersionErrorKind::InvalidResponse,
            reason@,
        )),
        reply matches LatestReply::Versions(names) ==> {
            if names@.len() == 0 {
                r matches Err(e) && e.is(
                    LatestVersionErrorKind::NotFound,
                    "GitHub returned no tags"@,
                )
            } else {
                match release_of(names@[0]@) {
                    Some(version) => r matches Ok(v) && v@ == version,
                    None => r matches Err(e) && e.is(
                        LatestVersionErrorKind::InvalidResponse,
                        invalid_release_text(names@[0]@),
                    ),
                }
            }
        },
{
    match reply {
        LatestReply::Failed(error) => Err(error),
        LatestReply::Unreadable(reason) => Err(
            LatestVersionError::invalid_response(reason.as_str()),
        ),
        LatestReply::Versions(names) => {
            if names.len() == 0 {
                return Err(LatestVersionError::not_found("GitHub returned no tags"));
            }
            match normalize_release(names[0].as_str()) {
                Ok(version) => Ok(version),
                Err(message) => Err(LatestVersionError::invalid_response(message.as_str())),
            }
        },
    }
}

/// What the GitHub API says of the owner of a key and of the quota.
#[derive(Debug)]
pub struct GithubRateLimit {
    pub owner: String,
    pub limit: u64,
    pub used: u64,
    pub remaining: u64,
    pub reset_unix: u64,
}

/// Whether the GitHub API can have said this.
pub open spec fn is_rate_limit(owner: Seq<char>, limit: u64, used: u64, remaining: u64) -> bool {
    trimmed(owner).len() > 0 && limit != 0 && used <= limit && remaining <= limit
}

pub fn github_rate_limit_from_parts(
    owner: String,
    limit: u64,
    used: u64,
    remaining: u64,
    reset_unix: u64,
) -> (r: Result<GithubRateLimit, String>)
    ensures
        r is Ok <==> is_rate_limit(owner@, limit, used, remaining),
        r matches Ok(status) ==> status == (GithubRateLimit {
            owner,
            limit,
            used,
            remaining,
            reset_unix,
        }),
        r matches Err(message) ==> message@
            == "GitHub returned an invalid authenticated API status"@,
{
    if trim(owner.as_str()).is_empty() || limit == 0 || used > limit || remaining > limit {
        return Err("GitHub returned an invalid authenticated API status".to_owned());
    }
    Ok(GithubRateLimit { owner, limit, used, remaining, reset_unix })
}

/// The number that a header holds, by the text of the header.
pub open spec fn header_number(value: Option<&str>) -> Option<nat> {
    match value {
        Some(text) => number_of(text@, u64::MAX as nat),
        None => None,
    }
}

/// The number that the header `name` holds.
pub fn github_rate_limit_header(name: &str, value: Option<&str>) -> (r: Result<u64, String>)
    ensures
        r is Ok <==> header_number(value) is Some,
        r matches Ok(n) ==> header_number(value) == Some(n as nat),
        r matches Err(message) ==> message@ == "GitHub returned an invalid "@ + name@
            + " header"@,
{
    if let Some(text) = value {
        if let Some(n) = parse_number(text, u64::MAX) {
            return Ok(n);
        }
    }
    Err(join3("GitHub returned an invalid ", name, " header"))
}

/// The headers that tell of the quota.
#[derive(Debug)]
pub struct RateLimitHeaders {
    pub limit: Option<String>,
    pub used: Option<String>,
    pub remaining: Option<String>,
    pub reset: Option<String>,
}

pub open spec fn shown(value: Option<String>) -> Option<nat> {
    match value {
        Some(text) => number_of(text@, u64::MAX as nat),
        None => None,
    }
}

fn header_value(name: &str, value: &Option<String>) -> (r: Result<u64, String>)
    ensures
        r is Ok <==> shown(*value) is Some,
        r matches Ok(n) ==> shown(*value) == Some(n as nat),
        r matches Err(message) ==> message@ == "GitHub returned an invalid "@ + name@
            + " header"@,
{
    match value {
        Some(text) => github_rate_limit_header(name, Some(text.as_str())),
        None => github_rate_limit_header(name, None),
    }
}

/// What is wrong with the first header that holds no number.
pub open spec fn header_fault(headers: RateLimitHeaders) -> Option<Seq<char>> {
    let name = if shown(headers.limit) is None {
        Some("x-ratelimit-limit"@)
    } else if shown(headers.used) is None {
        Some("x-ratelimit-used"@)
    } else if shown(headers.remaining) is None {
        Some("x-ratelimit-remaining"@)
    } else if shown(headers.reset) is None {
        Some("x-ratelimit-reset"@)
    } else {
        None
    };
    match name {
        Some(text) => Some("GitHub returned an invalid "@ + text + " header"@),
        None => None,
    }
}

/// The status of the API by the headers of an answer and by who it says owns
/// the key.
pub fn fetch_github_rate_limit(headers: &RateLimitHeaders, owner: Result<String, String>) -> (r:
    Result<GithubRateLimit, String>)
    ensures
        header_fault(*headers) matches Some(fault) ==> (r matches Err(message) && message@
            == fault),
        header_fault(*headers) is None ==> match owner {
            Err(error) => r matches Err(message) && message@ == request_failed_text(error@),
            Ok(login) => {
                let limit = shown(headers.limit)->0 as u64;
                let used = shown(headers.used)->0 as u64;
                let remaining = shown(headers.remaining)->0 as u64;
                &&& r is Ok <==> is_rate_limit(login@, limit, used, remaining)
                &&& r matches Ok(status) ==> status == (GithubRateLimit {
                    owner: login,
                    limit,
                    used,
                    remaining,
                    reset_unix: shown(headers.reset)->0 as u64,
                })
                &&& r matches Err(message) ==> message@
                    == "GitHub returned an invalid authenticated API status"@
            },
        },
{
    let limit: u64 = match header_value("x-ratelimit-limit", &headers.limit) {
        Ok(n) => n,
        Err(message) => return Err(message),
    };
    let used: u64 = match header_value("x-ratelimit-used", &headers.used) {
        Ok(n) => n,
        Err(message) => return Err(message),
    };
    let remaining: u64 = match header_value("x-ratelimit-remaining", &headers.remaining) {
        Ok(n) => n,
        Err(message) => return Err(message),
    };
    let reset: u64 = match header_value("x-ratelimit-reset", &headers.reset) {
        Ok(n) => n,
        Err(message) => return Err(message),
    };
    match owner {
        Ok(login) => github_rate_limit_from_parts(login, limit, used, remaining, reset),
        Err(error) => Err(latest_error(error.as_str())),
    }
}

/// What came of reaching one host.
#[derive(Debug)]
pub struct NetworkTestResult {
    pub name: &'static str,
    pub elapsed_ms: u64,
    pub error: Option<String>,
}

/// How many hosts a network test reaches for.
pub const NETWORK_TARGET_COUNT: usize = 4;

/// Name and address of a host that a network test reaches for.
pub open spec fn network_target_of(index: int) -> (Seq<char>, Seq<char>) {
    if index == 0 {
        ("npm"@, "https://registry.npmjs.org/"@)
    } else if index == 1 {
        ("PyPI"@, "https://pypi.org/"@)
    } else if index == 2 {
        ("crates.io"@, "https://crates.io/api/v1/crates/serde"@)
    } else {
        ("GitHub"@, "https://api.github.com/"@)
    }
}

/// Name and address of a host that a network test reaches for.
pub fn network_target(index: usize) -> (r: (&'static str, &'static str))
    requires
        index < NETWORK_TARGET_COUNT,
    ensures
        (r.0@, r.1@) == network_target_of(index as int),
{
    if index == 0 {
        ("npm", "https://registry.npmjs.org/")
    } else if index == 1 {
        ("PyPI", "https://pypi.org/")
    } else if index == 2 {
        ("crates.io", "https://crates.io/api/v1/crates/serde")
    } else {
        ("GitHub", "https://api.github.com/")
    }
}

/// The results of a network test, by how long each host took and what went
/// wrong with it.
pub fn test_network(outcomes: Vec<(u64, Option<String>)>) -> (r: Vec<NetworkTestResult>)
    requires
        outcomes@.len() == NETWORK_TARGET_COUNT,
    ensures
        r@.len() == NETWORK_TARGET_COUNT,
        forall|i: int|
            0 <= i < r@.len() ==> {
                &&& (#[trigger] r@[i]).name@ == network_target_of(i).0
                &&& r@[i].elapsed_ms == outcomes@[i].0
                &&& r@[i].error == outcomes@[i].1
            },
{
    let mut results: Vec<NetworkTestResult> = Vec::new();
    let mut i: usize = 0;
    while i < NETWORK_TARGET_COUNT
        invariant
            i <= NETWORK_TARGET_COUNT,
            outcomes@.len() == NETWORK_TARGET_COUNT,
            results@.len() == i,
            forall|k: int|
                0 <= k < i ==> {
                    &&& (#[trigger] results@[k]).name@ == network_target_of(k).0
                    &&& results@[k].elapsed_ms == outcomes@[k].0
                    &&& results@[k].error == outcomes@[k].1
                },
        decreases NETWORK_TARGET_COUNT - i,
    {
        let (name, _) = network_target(i);
        let error = match &outcomes[i].1 {
            Some(text) => Some(text.clone()),
            None => None,
        };
        results.push(NetworkTestResult { name, elapsed_ms: outcomes[i].0, error });
        i += 1;
    }
    results
}

/// What is said of a request that failed.
pub open spec fn request_failed_text(error: Seq<char>) -> Seq<char> {
    "latest-version request failed: "@ + error
}

pub fn latest_error(error: &str) -> (r: String)
    ensures
        r@ == request_failed_text(error@),
{
    join2("latest-version request failed: ", error)
}

/// Position of the first digit of `s` from `i` on, or the end of `s`.
pub open spec fn first_digit(s: Seq<char>, i: int) -> int
    decreases s.len() - i,
{
    if i >= s.len() || is_digit_char(s[i]) {
        i
    } else {
        first_digit(s, i + 1)
    }
}

/// The version in the name of a release: from its first digit on.
pub open spec fn release_of(raw: Seq<char>) -> Option<Seq<char>> {
    let value = trimmed(raw);
    let start = first_digit(value, 0);
    if start < value.len() {
        Some(value.skip(start))
    } else {
        None
    }
}

pub open spec fn invalid_release_text(raw: Seq<char>) -> Seq<char> {
    "latest-version source returned an invalid release `"@ + trimmed(raw) + "`"@
}

/// The version in the name of a release.
pub fn normalize_release(raw: &str) -> (r: Result<String, String>)
    ensures
        r is Ok <==> release_of(raw@) is Some,
        r matches Ok(version) ==> release_of(raw@) == Some(version@),
        r matches Err(message) ==> message@ == invalid_release_text(raw@),
{
    let value = trim(raw);
    let chars = chars_of(value);
    let mut i: usize = 0;
    while i < chars.len() && !digit(chars[i])
        invariant
            i <= chars@.len(),
            first_digit(chars@, i as int) == first_digit(chars@, 0),
        decreases chars@.len() - i,
    {
        i += 1;
    }
    if i == chars.len() {
        return Err(join3("latest-version source returned an invalid release `", value, "`"));
    }
    let version = slice(value, i, chars.len());
    assert(version@ =~= value@.skip(i as int));
    Ok(version.to_owned())
}

/// A version that was read from the name of a release reads as itself.
pub proof fn law_normalized_release_is_stable(raw: Seq<char>)
    requires
        release_of(raw) is Some,
    ensures
        release_of(release_of(raw)->0) == release_of(raw),
{
    let value = trimmed(raw);
    let version = release_of(raw)->0;
    lemma_trimmed(raw);
    lemma_first_digit(value, 0);
    assert(version[0] == value[first_digit(value, 0)]);
    assert(version.last() == value.last());
    lemma_untrimmed(version);
    assert(first_digit(version, 0) == 0);
    assert(version.skip(0) =~= version);
}

/// Whether a digit stands in `s`.
pub open spec fn has_digit(s: Seq<char>) -> bool {
    exists|i: int| 0 <= i < s.len() && is_digit_char(#[trigger] s[i])
}

/// A version is read from the name of a release exactly where a digit stands in
/// the name: it is what follows a start without digits, and begins with one.
pub proof fn law_release_begins_with_the_first_digit(raw: Seq<char>)
    ensures
        release_of(raw) is Some <==> has_digit(raw),
        release_of(raw) matches Some(release) ==> {
            let start = trimmed(raw).take(trimmed(raw).len() - release.len());
            &&& trimmed(raw) == start + release
            &&& !has_digit(start)
            &&& release.len() > 0
            &&& is_digit_char(release[0])
        },
{
    let p = |c: char| is_white(c);
    let front = drop_leading(raw, p);
    let value = trimmed(raw);
    lemma_digits_lead(raw, p);
    lemma_digits_trail(front, p);
    lemma_first_digit(value, 0);
    let k = first_digit(value, 0);
    if k < value.len() {
        let release = release_of(raw)->0;
        let start = value.take(value.len() - release.len());
        assert(value =~= start + release);
        assert(is_digit_char(value[k]));
        assert(release[0] == value[k]);
        assert forall|i: int| 0 <= i < start.len() implies !is_digit_char(#[trigger] start[i]) by {
            assert(start[i] == value[i]);
        }
    } else {
        assert forall|i: int| 0 <= i < value.len() implies !is_digit_char(#[trigger] value[i]) by {}
    }
}

proof fn lemma_digits_lead(s: Seq<char>, p: spec_fn(char) -> bool)
    requires
        forall|c: char| #[trigger] p(c) ==> !is_digit_char(c),
    ensures
        has_digit(drop_leading(s, p)) == has_digit(s),
    decreases s.len(),
{
    if s.len() > 0 && p(s[0]) {
        let rest = s.drop_first();
        lemma_digits_lead(rest, p);
        if has_digit(s) {
            let i = choose|i: int| 0 <= i < s.len() && is_digit_char(#[trigger] s[i]);
            assert(is_digit_char(rest[i - 1]));
        }
        if has_digit(rest) {
            let i = choose|i: int| 0 <= i < rest.len() && is_digit_char(#[trigger] rest[i]);
            assert(is_digit_char(s[i + 1]));
        }
    }
}

proof fn lemma_digits_trail(s: Seq<char>, p: spec_fn(char) -> bool)
    requires
        forall|c: char| #[trigger] p(c) ==> !is_digit_char(c),
    ensures
        has_digit(drop_trailing(s, p)) == has_digit(s),
    decreases s.len(),
{
    if s.len() > 0 && p(s.last()) {
        let rest = s.drop_last();
        lemma_digits_trail(rest, p);
        if has_digit(s) {
            let i = choose|i: int| 0 <= i < s.len() && is_digit_char(#[trigger] s[i]);
            assert(is_digit_char(rest[i]));
        }
        if has_digit(rest) {
            let i = choose|i: int| 0 <= i < rest.len() && is_digit_char(#[trigger] rest[i]);
            assert(is_digit_char(s[i]));
        }
    }
}

proof fn lemma_first_digit(s: Seq<char>, i: int)
    requires
        0 <= i <= s.len(),
    ensures
        i <= first_digit(s, i) <= s.len(),
        first_digit(s, i) < s.len() ==> is_digit_char(s[first_digit(s, i)]),
        forall|k: int| i <= k < first_digit(s, i) ==> !is_digit_char(#[trigger] s[k]),
    decreases s.len() - i,
{
    if i < s.len() && !is_digit_char(s[i]) {
        lemma_first_digit(s, i + 1);
    }
}

proof fn lemma_untrimmed(s: Seq<char>)
    requires
        s.len() > 0,
        !is_white(s[0]),
        !is_white(s.last()),
    ensures
        trimmed(s) == s,
{
}

/// Whether a byte stands for itself in the path of an address.
pub open spec fn is_unreserved(b: u8) -> bool {
    ||| 0x30 <= b <= 0x39
    ||| 0x41 <= b <= 0x5a
    ||| 0x61 <= b <= 0x7a
    ||| b == 0x2d
    ||| b == 0x2e
    ||| b == 0x5f
    ||| b == 0x7e
}

/// The hexadecimal digit of `n`, in capitals.
pub open spec fn hex_digit(n: int) -> char {
    if n < 10 {
        (n + 0x30) as char
    } else {
        (n - 10 + 0x41) as char
    }
}

/// A byte as it stands in the path of an address.
pub open spec fn encoded_byte(b: u8) -> Seq<char> {
    if is_unreserved(b) {
        seq![b as char]
    } else {
        seq!['%', hex_digit(b as int / 16), hex_digit(b as int % 16)]
    }
}

/// Bytes as they stand in the path of an address.
pub open spec fn encoded_bytes(bytes: Seq<u8>) -> Seq<char>
    decreases bytes.len(),
{
    if bytes.len() == 0 {
        Seq::empty()
    } else {
        encoded_bytes(bytes.drop_last()) + encoded_byte(bytes.last())
    }
}

/// Text as it stands in the path of an address: its bytes in UTF-8, with a
/// percent sign and two hexadecimal digits for each that does not stand for
/// itself.
pub open spec fn encoded_segment(value: Seq<char>) -> Seq<char> {
    encoded_bytes(encode_utf8(value))
}

fn hex(n: u8) -> (r: char)
    requires
        n < 16,
    ensures
        r == hex_digit(n as int),
{
    if n < 10 {
        (n + 0x30) as char
    } else {
        (n - 10 + 0x41) as char
    }
}

/// `value` as it stands in the path of an address.
pub fn encode_path_segment(value: &str) -> (r: String)
    ensures
        r@ == encoded_segment(value@),
{
    let bytes = value.as_bytes();
    let mut encoded = String::new();
    let mut i: usize = 0;
    assert(bytes@.take(0) =~= Seq::<u8>::empty());
    while i < bytes.len()
        invariant
            i <= bytes@.len(),
            encoded@ == encoded_bytes(bytes@.take(i as int)),
        decreases bytes@.len() - i,
    {
        let b: u8 = bytes[i];
        let ghost before = encoded@;
        assert(bytes@.take(i + 1).drop_last() =~= bytes@.take(i as int));
        if (0x30 <= b && b <= 0x39) || (0x41 <= b && b <= 0x5a) || (0x61 <= b && b <= 0x7a) || b
            == 0x2d || b == 0x2e || b == 0x5f || b == 0x7e {
            push_char(&mut encoded, b as char);
        } else {
            push_char(&mut encoded, '%');
            push_char(&mut encoded, hex(b / 16));
            push_char(&mut encoded, hex(b % 16));
        }
        assert(encoded@ =~= before + encoded_byte(b));
        i += 1;
    }
    assert(bytes@.take(i as int) =~= bytes@);
    encoded
}

/// Whether `c` may stand in the path of an address.
pub open spec fn is_path_char(c: char) -> bool {
    is_ascii_letter(c) || is_digit_char(c) || c == '-' || c == '.' || c == '_' || c == '~' || c
        == '%'
}

/// Whether `c` is a hexadecimal digit, in capitals.
pub open spec fn is_hex_char(c: char) -> bool {
    is_digit_char(c) || 'A' <= c <= 'F'
}

/// What stands in the path is made of letters, digits and a few marks, so it
/// neither ends the path nor starts another part of it; behind each percent sign
/// stand two hexadecimal digits.
pub proof fn law_encoded_segment_is_safe(bytes: Seq<u8>)
    ensures
        forall|i: int|
            0 <= i < encoded_bytes(bytes).len() ==> is_path_char(
                #[trigger] encoded_bytes(bytes)[i],
            ),
        forall|i: int|
            0 <= i < encoded_bytes(bytes).len() && #[trigger] encoded_bytes(bytes)[i] == '%' ==> {
                &&& i + 2 < encoded_bytes(bytes).len()
                &&& is_hex_char(encoded_bytes(bytes)[i + 1])
                &&& is_hex_char(encoded_bytes(bytes)[i + 2])
            },
    decreases bytes.len(),
{
    assert forall|i: int|
        0 <= i < encoded_bytes(bytes).len() && #[trigger] encoded_bytes(bytes)[i] == '%' implies {
        &&& i + 2 < encoded_bytes(bytes).len()
        &&& is_hex_char(encoded_bytes(bytes)[i + 1])
        &&& is_hex_char(encoded_bytes(bytes)[i + 2])
    } by {
        lemma_percent_place(bytes, i);
    }
    if bytes.len() > 0 {
        law_encoded_segment_is_safe(bytes.drop_last());
        let before = encoded_bytes(bytes.drop_last());
        let all = encoded_bytes(bytes);
        let b = bytes.last();
        assert forall|i: int| 0 <= i < all.len() implies is_path_char(#[trigger] all[i]) by {
            if i < before.len() {
                assert(all[i] == before[i]);
            } else {
                assert(all[i] == encoded_byte(b)[i - before.len()]);
            }
        }
    }
}

/// Different texts stand differently in the path.
pub proof fn law_encoded_segment_is_unambiguous(a: Seq<u8>, b: Seq<u8>)
    requires
        encoded_bytes(a) == encoded_bytes(b),
    ensures
        a == b,
    decreases a.len(),
{
    let x = encoded_bytes(a);
    if a.len() == 0 {
        if b.len() > 0 {
            assert(encoded_byte(b.last()).len() > 0);
        }
        assert(a =~= b);
    } else if b.len() == 0 {
        assert(encoded_byte(a.last()).len() > 0);
    } else {
        let ea = encoded_byte(a.last());
        let eb = encoded_byte(b.last());
        lemma_last_byte(a);
        lemma_last_byte(b);
        let n = x.len() as int;
        assert(ea.len() == eb.len());
        let fa = encoded_bytes(a.drop_last());
        let fb = encoded_bytes(b.drop_last());
        assert(fa.len() == fb.len());
        assert(fa =~= x.take(fa.len() as int));
        assert(fb =~= x.take(fb.len() as int));
        law_encoded_segment_is_unambiguous(a.drop_last(), b.drop_last());
        assert(ea =~= x.skip(fa.len() as int));
        assert(eb =~= x.skip(fb.len() as int));
        lemma_encoded_byte(a.last(), b.last());
        assert(a =~= a.drop_last().push(a.last()));
        assert(b =~= b.drop_last().push(b.last()));
    }
}

proof fn lemma_hex_digit(m: int, n: int)
    requires
        0 <= m < 16,
        0 <= n < 16,
        hex_digit(m) == hex_digit(n),
    ensures
        m == n,
{
}

proof fn lemma_encoded_byte(a: u8, b: u8)
    requires
        encoded_byte(a) == encoded_byte(b),
    ensures
        a == b,
{
    let x = encoded_byte(a);
    let y = encoded_byte(b);
    assert(x.len() == y.len());
    assert(x[0] == y[0]);
    if is_unreserved(a) {
        assert(is_unreserved(b));
        assert(x[0] == a as char && y[0] == b as char);
    } else {
        assert(!is_unreserved(b));
        assert(x[1] == hex_digit(a as int / 16) && y[1] == hex_digit(b as int / 16));
        assert(x[2] == hex_digit(a as int % 16) && y[2] == hex_digit(b as int % 16));
        assert(x[1] == y[1] && x[2] == y[2]);
        lemma_hex_digit(a as int / 16, b as int / 16);
        lemma_hex_digit(a as int % 16, b as int % 16);
    }
}

/// A percent sign stands three characters before the end just where the last
/// byte does not stand for itself.
proof fn lemma_last_byte(bytes: Seq<u8>)
    requires
        bytes.len() > 0,
    ensures
        ({
            let x = encoded_bytes(bytes);
            let n = x.len() as int;
            &&& encoded_byte(bytes.last()).len() == if n >= 3 && x[n - 3] == '%' {
                3nat
            } else {
                1
            }
        }),
{
    let x = encoded_bytes(bytes);
    let n = x.len() as int;
    let front = encoded_bytes(bytes.drop_last());
    let e = encoded_byte(bytes.last());
    assert(x == front + e);
    if e.len() == 3 {
        assert(x[n - 3] == e[0]);
    } else if n >= 3 && x[n - 3] == '%' {
        assert(x[n - 3] == front[n - 3]);
        lemma_percent_place(bytes.drop_last(), n - 3);
    }
}

/// A percent sign is always followed by two hexadecimal digits.
proof fn lemma_percent_place(bytes: Seq<u8>, i: int)
    requires
        0 <= i < encoded_bytes(bytes).len(),
        encoded_bytes(bytes)[i] == '%',
    ensures
        i + 2 < encoded_bytes(bytes).len(),
        is_hex_char(encoded_bytes(bytes)[i + 1]),
        is_hex_char(encoded_bytes(bytes)[i + 2]),
    decreases bytes.len(),
{
    let front = encoded_bytes(bytes.drop_last());
    let e = encoded_byte(bytes.last());
    if i < front.len() {
        assert(encoded_bytes(bytes)[i] == front[i]);
        lemma_percent_place(bytes.drop_last(), i);
        assert(encoded_bytes(bytes)[i + 1] == front[i + 1]);
        assert(encoded_bytes(bytes)[i + 2] == front[i + 2]);
    } else {
        assert(encoded_bytes(bytes)[i] == e[i - front.len()]);
        assert(hex_digit(bytes.last() as int / 16) != '%');
        assert(hex_digit(bytes.last() as int % 16) != '%');
        assert(encoded_bytes(bytes)[i + 1] == e[i + 1 - front.len()]);
        assert(encoded_bytes(bytes)[i + 2] == e[i + 2 - front.len()]);
    }
}

/// The value of a hexadecimal digit, in capitals.
pub open spec fn hex_value(c: char) -> int {
    if is_digit_char(c) {
        c as int - 0x30
    } else {
        c as int - 0x41 + 10
    }
}

/// The bytes that a part of the path of an address stands for: a percent sign
/// and two hexadecimal digits are one, and each other character is itself.
pub open spec fn percent_decoded(s: Seq<char>) -> Seq<u8>
    decreases s.len(),
{
    if s.len() == 0 {
        Seq::empty()
    } else if s[0] == '%' && s.len() >= 3 {
        seq![(16 * hex_value(s[1]) + hex_value(s[2])) as u8] + percent_decoded(s.skip(3))
    } else {
        seq![s[0] as u8] + percent_decoded(s.drop_first())
    }
}

/// What stands in the path stands for the bytes of the text, and for no others.
pub proof fn law_encoded_segment_decodes(value: Seq<char>)
    ensures
        percent_decoded(encoded_segment(value)) == encode_utf8(value),
{
    lemma_decoded(encode_utf8(value));
}

proof fn lemma_decoded(bytes: Seq<u8>)
    ensures
        percent_decoded(encoded_bytes(bytes)) == bytes,
    decreases bytes.len(),
{
    if bytes.len() == 0 {
        assert(bytes =~= Seq::<u8>::empty());
    } else {
        let b = bytes[0];
        let rest = bytes.drop_first();
        lemma_encoded_first(bytes);
        lemma_decoded(rest);
        let e = encoded_byte(b);
        let tail = encoded_bytes(rest);
        let all = encoded_bytes(bytes);
        assert(all[0] == e[0]);
        if is_unreserved(b) {
            assert(all.drop_first() =~= tail);
            assert(e[0] as u8 == b);
        } else {
            assert(all[1] == e[1] && all[2] == e[2]);
            assert(all.skip(3) =~= tail);
            assert(hex_value(e[1]) == b as int / 16);
            assert(hex_value(e[2]) == b as int % 16);
        }
        assert(seq![b] + rest =~= bytes);
    }
}

proof fn lemma_encoded_first(bytes: Seq<u8>)
    requires
        bytes.len() > 0,
    ensures
        encoded_bytes(bytes) == encoded_byte(bytes[0]) + encoded_bytes(bytes.drop_first()),
    decreases bytes.len(),
{
    let front = bytes.drop_last();
    if front.len() == 0 {
        assert(bytes.drop_first() =~= Seq::<u8>::empty());
        assert(encoded_bytes(front) =~= Seq::<char>::empty());
        assert(encoded_bytes(bytes.drop_first()) =~= Seq::<char>::empty());
        assert(encoded_bytes(bytes) =~= encoded_byte(bytes[0]) + Seq::<char>::empty());
    } else {
        lemma_encoded_first(front);
        assert(front.drop_first() =~= bytes.drop_first().drop_last());
        assert(encoded_bytes(bytes) =~= encoded_byte(bytes[0]) + encoded_bytes(
            bytes.drop_first(),
        ));
    }
}

/// A text stands as it is in the path exactly where it is made of characters
/// that stand for themselves.
pub proof fn law_plain_segment_stands_for_itself(value: Seq<char>)
    ensures
        encoded_segment(value) == value <==> forall|i: int|
            0 <= i < value.len() ==> is_path_char(#[trigger] value[i]) && value[i] != '%',
{
    let bytes = encode_utf8(value);
    let plain = forall|i: int|
        0 <= i < value.len() ==> is_path_char(#[trigger] value[i]) && value[i] != '%';
    if plain {
        assert(is_ascii_chars(value));
        is_ascii_chars_encode_utf8(value);
        assert forall|i: int| 0 <= i < bytes.len() implies is_unreserved(#[trigger] bytes[i]) by {
            assert(bytes[i] == value[i] as u8);
        }
        lemma_unreserved(bytes);
        assert(encoded_segment(value) =~= value);
    }
    if encoded_segment(value) == value {
        law_encoded_segment_is_safe(bytes);
        assert forall|i: int| 0 <= i < value.len() implies is_path_char(#[trigger] value[i]) by {
            assert(is_path_char(encoded_bytes(bytes)[i]));
        }
        assert(is_ascii_chars(value));
        is_ascii_chars_encode_utf8(value);
        lemma_encoded_length(bytes);
        assert forall|i: int| 0 <= i < value.len() implies value[i] != '%' by {
            assert(bytes[i] == value[i] as u8);
            assert(is_unreserved(bytes[i]));
        }
    }
}

proof fn lemma_unreserved(bytes: Seq<u8>)
    requires
        forall|i: int| 0 <= i < bytes.len() ==> is_unreserved(#[trigger] bytes[i]),
    ensures
        encoded_bytes(bytes).len() == bytes.len(),
        forall|i: int|
            0 <= i < bytes.len() ==> #[trigger] encoded_bytes(bytes)[i] == bytes[i] as char,
    decreases bytes.len(),
{
    if bytes.len() > 0 {
        let front = bytes.drop_last();
        assert forall|i: int| 0 <= i < front.len() implies is_unreserved(#[trigger] front[i]) by {
            assert(front[i] == bytes[i]);
        }
        lemma_unreserved(front);
        assert(is_unreserved(bytes[bytes.len() - 1]));
        assert forall|i: int| 0 <= i < bytes.len() implies #[trigger] encoded_bytes(bytes)[i]
            == bytes[i] as char by {
            if i < front.len() {
                assert(encoded_bytes(bytes)[i] == encoded_bytes(front)[i]);
            }
        }
    }
}

/// As many characters as bytes stand in the path only where each byte stands for
/// itself.
proof fn lemma_encoded_length(bytes: Seq<u8>)
    ensures
        encoded_bytes(bytes).len() >= bytes.len(),
        encoded_bytes(bytes).len() == bytes.len() ==> forall|i: int|
            0 <= i < bytes.len() ==> is_unreserved(#[trigger] bytes[i]),
    decreases bytes.len(),
{
    if bytes.len() > 0 {
        let front = bytes.drop_last();
        lemma_encoded_length(front);
        if encoded_bytes(bytes).len() == bytes.len() {
            assert forall|i: int| 0 <= i < bytes.len() implies is_unreserved(
                #[trigger] bytes[i],
            ) by {
                if i < front.len() {
                    assert(is_unreserved(front[i]));
                }
            }
        }
    }
}

} // verus!
