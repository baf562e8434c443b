//! What holds of reading versions out of text: which words are versions, what is
//! taken off them, and what is asked of the registries.

use crate::number::{decimal_text, lemma_decimal_digits, lemma_decimal_round_trip, number_of};
use crate::search::{
    begins_with, drop_leading, drop_trailing, is_control_char, is_digit_char, is_white,
    lemma_drop_leading_length, lemma_drop_trailing_length, lines, occurs_at, trimmed, trimmed_end,
    trimmed_start,
};
use crate::tui::loading::{first_of, first_version, nonblank};
use crate::version::{
    Escape, LatestVersionErrorKind, LatestVersionSource, RateLimitHeaders, encoded_segment,
    escape_after, header_fault, is_version_char, kind_of_status, latest_url_of, outside_version,
    text_before, unescaped, version_in, versions_among, words_of, words_read,
};
use vstd::prelude::*;
use vstd::string::*;

verus! {

/// Whether no character of `s` can be a part of a version.
pub open spec fn is_wrapping(s: Seq<char>) -> bool {
    forall|i: int|
        0 <= i < s.len() ==> {
            let c = #[trigger] s[i];
            !('a' <= c <= 'z') && !('A' <= c <= 'Z') && !('0' <= c <= '9') && c != '.' && c != '-'
                && c != '+' && c != '_'
        }
}

/// Whether `s` is made of letters, digits, points, dashes, plus signs and
/// underscores, with a point and a digit among them.
pub open spec fn is_version_text(s: Seq<char>) -> bool {
    &&& forall|i: int|
        0 <= i < s.len() ==> {
            let c = #[trigger] s[i];
            'a' <= c <= 'z' || 'A' <= c <= 'Z' || '0' <= c <= '9' || c == '.' || c == '-' || c
                == '+' || c == '_'
        }
    &&& exists|i: int| 0 <= i < s.len() && #[trigger] s[i] == '.'
    &&& exists|i: int| 0 <= i < s.len() && '0' <= #[trigger] s[i] <= '9'
}

pub proof fn lemma_drop_leading_all(a: Seq<char>, b: Seq<char>, p: spec_fn(char) -> bool)
    requires
        forall|i: int| 0 <= i < a.len() ==> p(#[trigger] a[i]),
        b.len() == 0 || !p(b[0]),
    ensures
        drop_leading(a + b, p) == b,
    decreases a.len(),
{
    if a.len() == 0 {
        assert(a + b =~= b);
    } else {
        let rest = a.drop_first();
        assert forall|i: int| 0 <= i < rest.len() implies p(#[trigger] rest[i]) by {
            assert(p(a[i + 1]));
        }
        assert((a + b)[0] == a[0]);
        assert((a + b).drop_first() =~= rest + b);
        lemma_drop_leading_all(rest, b, p);
    }
}

pub proof fn lemma_drop_trailing_all(a: Seq<char>, b: Seq<char>, p: spec_fn(char) -> bool)
    requires
        forall|i: int| 0 <= i < b.len() ==> p(#[trigger] b[i]),
        a.len() == 0 || !p(a.last()),
    ensures
        drop_trailing(a + b, p) == a,
    decreases b.len(),
{
    if b.len() == 0 {
        assert(a + b =~= a);
    } else {
        let front = b.drop_last();
        assert forall|i: int| 0 <= i < front.len() implies p(#[trigger] front[i]) by {
            assert(p(b[i]));
        }
        assert((a + b).last() == b[b.len() - 1]);
        assert((a + b).drop_last() =~= a + front);
        lemma_drop_trailing_all(a, front, p);
    }
}

/// Taking white space off the ends of a text takes all of it and nothing else.
pub proof fn law_trimming_takes_white_space_off(a: Seq<char>, s: Seq<char>, b: Seq<char>)
    requires
        forall|i: int| 0 <= i < a.len() ==> is_white(#[trigger] a[i]),
        forall|i: int| 0 <= i < b.len() ==> is_white(#[trigger] b[i]),
        s.len() > 0 ==> !is_white(s[0]) && !is_white(s.last()),
    ensures
        trimmed(a + s + b) == s,
        trimmed_start(a + s) == s,
        trimmed_end(s + b) == s,
{
    let p = |c: char| is_white(c);
    lemma_drop_trailing_all(s, b, p);
    lemma_drop_leading_all(a, s, p);
    if s.len() > 0 {
        assert((s + b)[0] == s[0]);
        assert(a + s + b =~= a + (s + b));
        lemma_drop_leading_all(a, s + b, p);
    } else {
        let all = a + s + b;
        assert forall|i: int| 0 <= i < all.len() implies p(#[trigger] all[i]) by {
            if i < a.len() {
                assert(all[i] == a[i]);
            } else {
                assert(all[i] == b[i - a.len()]);
            }
        }
        assert(all + s =~= all);
        lemma_drop_leading_all(all, s, p);
        assert(drop_trailing(s, p) == s);
    }
}

/// A version is found in a word whatever stands around it that can be no part of
/// one, and without one v before it; a word without a point or without a digit is
/// none.
pub proof fn law_versions_are_found_in_words(
    before: Seq<char>,
    lead: Seq<char>,
    core: Seq<char>,
    behind: Seq<char>,
)
    requires
        is_wrapping(before),
        is_wrapping(behind),
        lead == Seq::<char>::empty() || lead == seq!['v'] || lead == seq!['V'],
        core.len() > 0 && lead.len() == 0 ==> core[0] != 'v' && core[0] != 'V',
    ensures
        is_version_text(core) ==> version_in(before + lead + core + behind) == Some(core),
        (forall|i: int| 0 <= i < core.len() ==> is_version_char(#[trigger] core[i])) && !(exists|
            i: int,
        |
            0 <= i < core.len() && #[trigger] core[i] == '.') ==> version_in(
            before + lead + core + behind,
        ) is None,
        (forall|i: int| 0 <= i < core.len() ==> is_version_char(#[trigger] core[i])) && !(exists|
            i: int,
        |
            0 <= i < core.len() && '0' <= #[trigger] core[i] <= '9') ==> version_in(
            before + lead + core + behind,
        ) is None,
{
    let p = outside_version();
    let word = lead + core;
    let token = before + lead + core + behind;
    assert(token =~= before + (word + behind));
    if forall|i: int| 0 <= i < core.len() ==> is_version_char(#[trigger] core[i]) {
        assert forall|i: int| 0 <= i < word.len() implies !p(#[trigger] word[i]) by {
            if i >= lead.len() {
                assert(word[i] == core[i - lead.len()]);
                assert(is_version_char(core[i - lead.len()]));
            } else {
                assert(word[i] == lead[i]);
            }
        }
        assert forall|i: int| 0 <= i < before.len() implies p(#[trigger] before[i]) by {}
        assert forall|i: int| 0 <= i < behind.len() implies p(#[trigger] behind[i]) by {}
        if word.len() > 0 {
            assert(!p(word[0]));
            assert((word + behind)[0] == word[0]);
            assert(!p(word[word.len() - 1]));
            lemma_drop_leading_all(before, word + behind, p);
            lemma_drop_trailing_all(word, behind, p);
            if lead.len() > 0 {
                assert(word[0] == lead[0]);
                assert(word.drop_first() =~= core);
            } else {
                assert(word =~= core);
            }
        } else {
            assert(token =~= before + behind);
            assert forall|i: int| 0 <= i < token.len() implies p(#[trigger] token[i]) by {
                if i < before.len() {
                    assert(token[i] == before[i]);
                } else {
                    assert(token[i] == behind[i - before.len()]);
                }
            }
            let none = Seq::<char>::empty();
            assert(token + none =~= token);
            lemma_drop_leading_all(token, none, p);
        }
    }
    if is_version_text(core) {
        assert forall|i: int| 0 <= i < core.len() implies is_version_char(#[trigger] core[i]) by {}
        let d = choose|i: int| 0 <= i < core.len() && '0' <= #[trigger] core[i] <= '9';
        assert(is_digit_char(core[d]));
    }
}

/// What is read as a version is a version, and stands in the word.
pub proof fn law_read_versions_are_versions(token: Seq<char>)
    requires
        version_in(token) is Some,
    ensures
        is_version_text(version_in(token)->0),
        exists|i: int| #[trigger] occurs_at(token, version_in(token)->0, i),
{
    let v = version_in(token)->0;
    let p = outside_version();
    let front = drop_leading(token, p);
    let word = drop_trailing(front, p);
    lemma_drop_leading_length(token, p);
    lemma_drop_trailing_length(front, p);
    let n = token.len() - front.len() + (word.len() - v.len());
    assert forall|i: int| 0 <= i < v.len() implies ({
        let c = #[trigger] v[i];
        'a' <= c <= 'z' || 'A' <= c <= 'Z' || '0' <= c <= '9' || c == '.' || c == '-' || c == '+'
            || c == '_'
    }) by {
        assert(is_version_char(v[i]));
    }
    let d = choose|i: int| 0 <= i < v.len() && is_digit_char(#[trigger] v[i]);
    assert('0' <= v[d] <= '9');
    assert(word =~= front.take(word.len() as int));
    assert(v =~= word.skip(word.len() - v.len()));
    assert(token.subrange(n, n + v.len()) =~= v);
    assert(occurs_at(token, v, n));
}

proof fn lemma_words_read_add(a: Seq<char>, b: Seq<char>)
    requires
        words_read(a).1.len() == 0,
    ensures
        words_read(a + b).0 == words_read(a).0 + words_read(b).0,
        words_read(a + b).1 == words_read(b).1,
    decreases b.len(),
{
    if b.len() == 0 {
        assert(a + b =~= a);
        assert(words_read(a).0 + words_read(b).0 =~= words_read(a).0);
        assert(words_read(a).1 =~= words_read(b).1);
    } else {
        assert((a + b).drop_last() =~= a + b.drop_last());
        assert((a + b).last() == b.last());
        lemma_words_read_add(a, b.drop_last());
        let (words, current) = words_read(b.drop_last());
        assert((words_read(a).0 + words).push(current) =~= words_read(a).0 + words.push(current));
    }
}

/// White space parts words, and only white space does: each word is read as it
/// stands.
pub proof fn law_words_stand_between_white_space(a: Seq<char>, c: char, b: Seq<char>)
    requires
        is_white(c),
    ensures
        words_of(a + seq![c] + b) == words_of(a) + words_of(b),
        a.len() > 0 && (forall|i: int| 0 <= i < a.len() ==> !is_white(#[trigger] a[i]))
            ==> words_of(a) == seq![a],
        words_of(Seq::<char>::empty()) == Seq::<Seq<char>>::empty(),
{
    let head = a + seq![c];
    assert(head.drop_last() =~= a);
    assert(head.last() == c);
    assert(words_read(head).1.len() == 0);
    assert(words_read(head).0 == words_of(a));
    lemma_words_read_add(head, b);
    let (words, current) = words_read(b);
    if current.len() > 0 {
        assert((words_of(a) + words).push(current) =~= words_of(a) + words.push(current));
    }
    if a.len() > 0 && (forall|i: int| 0 <= i < a.len() ==> !is_white(#[trigger] a[i])) {
        lemma_one_word(a);
        assert(Seq::<Seq<char>>::empty().push(a) =~= seq![a]);
    }
}

proof fn lemma_one_word(a: Seq<char>)
    requires
        forall|i: int| 0 <= i < a.len() ==> !is_white(#[trigger] a[i]),
    ensures
        words_read(a) == (Seq::<Seq<char>>::empty(), a),
    decreases a.len(),
{
    if a.len() > 0 {
        let front = a.drop_last();
        assert forall|i: int| 0 <= i < front.len() implies !is_white(#[trigger] front[i]) by {
            assert(!is_white(a[i]));
        }
        lemma_one_word(front);
        assert(!is_white(a[a.len() - 1]));
        assert(front.push(a.last()) =~= a);
    } else {
        assert(a =~= Seq::<char>::empty());
    }
}

/// The versions of a text are those of its words, each of them in order.
pub proof fn law_versions_of_all_words(words: Seq<Seq<char>>, k: int)
    requires
        0 <= k < words.len(),
    ensures
        versions_among(words) == words.filter_map(|word: Seq<char>| version_in(word)),
        version_in(words[k]) matches Some(version) ==> versions_among(words).contains(version),
    decreases words.len(),
{
    lemma_versions_among(words);
    let front = words.drop_last();
    let before = versions_among(front);
    if version_in(words[k]) is Some {
        let version = version_in(words[k])->0;
        if k < front.len() {
            law_versions_of_all_words(front, k);
            assert(front[k] == words[k]);
            let j = choose|j: int| 0 <= j < before.len() && before[j] == version;
            assert(versions_among(words)[j] == version);
        } else {
            assert(versions_among(words)[before.len() as int] == version);
        }
    }
}

proof fn lemma_versions_among(words: Seq<Seq<char>>)
    ensures
        versions_among(words) == words.filter_map(|word: Seq<char>| version_in(word)),
    decreases words.len(),
{
    reveal(Seq::filter_map);
    let f = |word: Seq<char>| version_in(word);
    if words.len() > 0 {
        lemma_versions_among(words.drop_last());
        let before = versions_among(words.drop_last());
        if version_in(words.last()) is Some {
            let v = version_in(words.last())->0;
            assert(before.push(v) =~= before + seq![v]);
        }
    }
}

proof fn lemma_first_of(words: Seq<Seq<char>>, k: int)
    requires
        0 <= k <= words.len(),
    ensures
        first_of(words, k) is Some <==> exists|j: int|
            k <= j < words.len() && version_in(#[trigger] words[j]) is Some,
        first_of(words, k) is Some ==> exists|j: int|
            k <= j < words.len() && version_in(#[trigger] words[j]) == first_of(words, k) && forall|
                i: int,
            |
                k <= i < j ==> version_in(#[trigger] words[i]) is None,
    decreases words.len() - k,
{
    if k < words.len() {
        if version_in(words[k]) is Some {
            assert(version_in(words[k]) == first_of(words, k));
        } else {
            lemma_first_of(words, k + 1);
            if first_of(words, k) is Some {
                let j = choose|j: int|
                    k + 1 <= j < words.len() && version_in(#[trigger] words[j]) == first_of(
                        words,
                        k + 1,
                    ) && forall|i: int| k + 1 <= i < j ==> version_in(#[trigger] words[i]) is None;
                assert(version_in(words[j]) == first_of(words, k));
                assert forall|i: int| k <= i < j implies version_in(#[trigger] words[i]) is None by {
                    if i > k {
                        assert(version_in(words[i]) is None);
                    }
                }
            }
        }
    }
}

/// The version that a tool prints is the first one among the words of the first
/// line that holds any.
pub proof fn law_the_first_printed_version_counts(lines: Seq<Seq<char>>, i: int, k: int)
    requires
        0 <= i < lines.len(),
        0 <= k < words_of(lines[i]).len(),
        version_in(words_of(lines[i])[k]) is Some,
        forall|j: int| 0 <= j < k ==> version_in(#[trigger] words_of(lines[i])[j]) is None,
        forall|h: int, j: int|
            #![trigger words_of(lines[h])[j]]
            0 <= h < i && 0 <= j < words_of(lines[h]).len() ==> version_in(words_of(lines[h])[j])
                is None,
    ensures
        first_version(lines, 0) == version_in(words_of(lines[i])[k]),
{
    lemma_first_version(lines, 0, i, k);
}

proof fn lemma_first_version(lines: Seq<Seq<char>>, from: int, i: int, k: int)
    requires
        0 <= from <= i < lines.len(),
        0 <= k < words_of(lines[i]).len(),
        version_in(words_of(lines[i])[k]) is Some,
        forall|j: int| 0 <= j < k ==> version_in(#[trigger] words_of(lines[i])[j]) is None,
        forall|h: int, j: int|
            #![trigger words_of(lines[h])[j]]
            0 <= h < i && 0 <= j < words_of(lines[h]).len() ==> version_in(words_of(lines[h])[j])
                is None,
    ensures
        first_version(lines, from) == version_in(words_of(lines[i])[k]),
    decreases i - from,
{
    let words = words_of(lines[from]);
    lemma_first_of(words, 0);
    if from < i {
        if first_of(words, 0) is Some {
            let j = choose|j: int| 0 <= j < words.len() && version_in(#[trigger] words[j]) is Some;
            assert(version_in(words_of(lines[from])[j]) is None);
        }
        lemma_first_version(lines, from + 1, i, k);
    } else {
        assert(version_in(words[k]) is Some);
        let j = choose|j: int|
            0 <= j < words.len() && version_in(#[trigger] words[j]) == first_of(words, 0)
                && forall|h: int| 0 <= h < j ==> version_in(#[trigger] words[h]) is None;
        if j < k {
            assert(version_in(words_of(lines[i])[j]) is None);
        } else if k < j {
            assert(version_in(words[k]) is None);
        }
    }
}

proof fn lemma_nonblank(lines: Seq<Seq<char>>)
    ensures
        nonblank(lines) == lines.map_values(|line: Seq<char>| trimmed(line)).filter(
            |line: Seq<char>| line.len() > 0,
        ),
    decreases lines.len(),
{
    reveal(Seq::filter);
    let f = |line: Seq<char>| trimmed(line);
    let p = |line: Seq<char>| line.len() > 0;
    if lines.len() > 0 {
        lemma_nonblank(lines.drop_last());
        assert(lines.map_values(f).drop_last() =~= lines.drop_last().map_values(f));
        assert(lines.map_values(f).last() == trimmed(lines.last()));
    } else {
        assert(lines.map_values(f) =~= Seq::<Seq<char>>::empty());
    }
}

/// Of what a tool prints the lines that are not blank count, without the white
/// space around them.
pub proof fn law_blank_lines_do_not_count(lines: Seq<Seq<char>>)
    ensures
        nonblank(lines) == lines.map_values(|line: Seq<char>| trimmed(line)).filter(
            |line: Seq<char>| line.len() > 0,
        ),
{
    lemma_nonblank(lines);
}

/// A status tells the kind of an error: wanting authorization, a limit, something
/// that is not there, or any other failure.
pub proof fn law_statuses_tell_the_kind_of_error(code: u16)
    ensures
        kind_of_status(Some(code)) == LatestVersionErrorKind::Authentication <==> code == 401,
        kind_of_status(Some(code)) == LatestVersionErrorKind::RateLimited <==> code == 403 || code
            == 429,
        kind_of_status(Some(code)) == LatestVersionErrorKind::NotFound <==> code == 404,
        kind_of_status(Some(code)) != LatestVersionErrorKind::InvalidResponse,
        kind_of_status(None) == LatestVersionErrorKind::RequestFailed,
{
}

/// The latest version is asked at the registry of its source, by its name, and the
/// key is for GitHub alone.
pub proof fn law_registries_are_asked_by_name(source: LatestVersionSource)
    ensures
        source matches LatestVersionSource::Npm { package } ==> latest_url_of(source)
            == "https://registry.npmjs.org/"@
            + encoded_segment(package@) + "/latest"@,
        source matches LatestVersionSource::Pypi { package } ==> latest_url_of(source)
            == "https://pypi.org/pypi/"@
            + encoded_segment(package@) + "/json"@,
        source matches LatestVersionSource::CratesIo { package } ==> latest_url_of(source)
            == "https://crates.io/api/v1/crates/"@
            + encoded_segment(package@),
        source matches LatestVersionSource::Homebrew { formula } ==> latest_url_of(source)
            == "https://formulae.brew.sh/api/formula/"@
            + encoded_segment(formula@) + ".json"@,
        source matches LatestVersionSource::GithubRelease { repository } ==> latest_url_of(source)
            == "https://api.github.com/repos/"@ + repository@ + "/releases/latest"@,
        source matches LatestVersionSource::GithubTag { repository } ==> latest_url_of(source)
            == "https://api.github.com/repos/"@ + repository@ + "/tags?per_page=1"@,
        source.is_github() <==> begins_with(latest_url_of(source), "https://api.github.com/"@),
{
    reveal_strlit("https://api.github.com/");
    reveal_strlit("https://api.github.com/repos/");
    reveal_strlit("https://registry.npmjs.org/");
    reveal_strlit("https://pypi.org/pypi/");
    reveal_strlit("https://crates.io/api/v1/crates/");
    reveal_strlit("https://formulae.brew.sh/api/formula/");
    let url = latest_url_of(source);
    let head = "https://api.github.com/"@;
    if source.is_github() {
        assert(url.subrange(0, head.len() as int) =~= head);
    } else {
        assert(url[8] != 'a');
        if begins_with(url, head) {
            assert(url.subrange(0, head.len() as int)[8] == head[8]);
        }
    }
}

proof fn lemma_unescaped_add(a: Seq<char>, b: Seq<char>)
    requires
        escape_after(a) == Escape::Outside,
    ensures
        unescaped(a + b) == unescaped(a) + unescaped(b),
        escape_after(a + b) == escape_after(b),
    decreases b.len(),
{
    if b.len() == 0 {
        assert(a + b =~= a);
        assert(unescaped(a) + unescaped(b) =~= unescaped(a));
    } else {
        assert((a + b).drop_last() =~= a + b.drop_last());
        assert((a + b).last() == b.last());
        lemma_unescaped_add(a, b.drop_last());
        let before = unescaped(b.drop_last());
        assert((unescaped(a) + before).push(b.last()) =~= unescaped(a) + before.push(b.last()));
    }
}

proof fn lemma_in_control(p: Seq<char>)
    requires
        forall|i: int| 0 <= i < p.len() ==> !('@' <= #[trigger] p[i] <= '~'),
    ensures
        escape_after(seq!['\u{1b}', '['] + p) == Escape::Csi,
        unescaped(seq!['\u{1b}', '['] + p) == Seq::<char>::empty(),
    decreases p.len(),
{
    let head = seq!['\u{1b}', '['];
    let s = head + p;
    if p.len() == 0 {
        assert(s =~= head);
        assert(head.drop_last() =~= seq!['\u{1b}']);
        assert(seq!['\u{1b}'].drop_last() =~= Seq::<char>::empty());
        reveal_with_fuel(escape_after, 3);
        reveal_with_fuel(unescaped, 3);
    } else {
        assert(s.drop_last() =~= head + p.drop_last());
        assert(s.last() == p[p.len() - 1]);
        assert forall|i: int| 0 <= i < p.drop_last().len() implies !('@' <= #[trigger] p.drop_last()[i]
            <= '~') by {
            assert(!('@' <= p[i] <= '~'));
        }
        lemma_in_control(p.drop_last());
    }
}

/// A control sequence is taken out of text whole, and what stands before and behind
/// it is read as if it were not there; text without control characters stays as it
/// is.
pub proof fn law_control_sequences_are_taken_out(
    a: Seq<char>,
    p: Seq<char>,
    f: char,
    b: Seq<char>,
)
    requires
        forall|i: int| 0 <= i < a.len() ==> !is_control_char(#[trigger] a[i]),
        forall|i: int| 0 <= i < p.len() ==> !('@' <= #[trigger] p[i] <= '~'),
        '@' <= f <= '~',
    ensures
        unescaped(a) == a,
        unescaped(a + (seq!['\u{1b}', '['] + p).push(f) + b) == a + unescaped(b),
{
    lemma_plain_stays(a);
    let head = seq!['\u{1b}', '['] + p;
    let sequence = head.push(f);
    lemma_in_control(p);
    assert(sequence.drop_last() =~= head);
    assert(escape_after(sequence) == Escape::Outside);
    assert(unescaped(sequence) == Seq::<char>::empty());
    lemma_unescaped_add(a, sequence);
    lemma_unescaped_add(a + sequence, b);
    assert(a + Seq::<char>::empty() + unescaped(b) =~= a + unescaped(b));
}

proof fn lemma_plain_stays(a: Seq<char>)
    requires
        forall|i: int| 0 <= i < a.len() ==> !is_control_char(#[trigger] a[i]),
    ensures
        unescaped(a) == a,
        escape_after(a) == Escape::Outside,
    decreases a.len(),
{
    if a.len() > 0 {
        let front = a.drop_last();
        assert forall|i: int| 0 <= i < front.len() implies !is_control_char(#[trigger] front[i]) by {
            assert(!is_control_char(a[i]));
        }
        lemma_plain_stays(front);
        assert(!is_control_char(a[a.len() - 1]));
        assert(front.push(a.last()) =~= a);
    } else {
        assert(a =~= Seq::<char>::empty());
    }
}

/// A number is read as it is written.
pub proof fn law_numbers_read_as_written(n: nat, max: nat)
    requires
        n <= max,
    ensures
        number_of(decimal_text(n), max) == Some(n),
        number_of(seq!['+'] + decimal_text(n), max) == Some(n),
        n > 0 ==> decimal_text(n)[0] != '0',
{
    lemma_decimal_round_trip(n, max);
    lemma_decimal_digits(n);
    assert((seq!['+'] + decimal_text(n)).drop_first() =~= decimal_text(n));
    assert(is_digit_char(decimal_text(n)[0]));
    lemma_no_leading_zero(n);
}

proof fn lemma_no_leading_zero(n: nat)
    ensures
        decimal_text(n).len() > 0,
        n > 0 ==> decimal_text(n)[0] != '0',
    decreases n,
{
    if n >= 10 {
        lemma_no_leading_zero(n / 10);
    }
}

/// Texts are ordered by their first differing characters: no text comes before
/// itself, of two texts one comes before the other, and the order is transitive.
pub proof fn law_texts_are_ordered(a: Seq<char>, b: Seq<char>, c: Seq<char>)
    ensures
        !text_before(a, a),
        a != b ==> (text_before(a, b) <==> !text_before(b, a)),
        text_before(a, b) && text_before(b, c) ==> text_before(a, c),
    decreases a.len(),
{
    if a.len() > 0 {
        if b.len() > 0 {
            if c.len() > 0 {
                law_texts_are_ordered(a.drop_first(), b.drop_first(), c.drop_first());
            } else {
                law_texts_are_ordered(a.drop_first(), b.drop_first(), c);
            }
            if a[0] == b[0] && a.drop_first() == b.drop_first() {
                assert(a =~= seq![a[0]] + a.drop_first());
                assert(b =~= seq![b[0]] + b.drop_first());
                assert(a == b);
            }
        } else {
            law_texts_are_ordered(a.drop_first(), b, c);
        }
    } else if b.len() == 0 {
        assert(a =~= b);
    }
}

/// The quota is read where all four of its headers hold numbers, and otherwise the
/// first one that does not is named.
pub proof fn law_unsound_headers_are_named(headers: RateLimitHeaders)
    ensures
        header_fault(headers) is None <==> {
            &&& headers.limit matches Some(t) && number_of(t@, u64::MAX as nat) is Some
            &&& headers.used matches Some(t) && number_of(t@, u64::MAX as nat) is Some
            &&& headers.remaining matches Some(t) && number_of(t@, u64::MAX as nat) is Some
            &&& headers.reset matches Some(t) && number_of(t@, u64::MAX as nat) is Some
        },
        headers.limit is None ==> header_fault(headers) == Some(
            "GitHub returned an invalid "@ + "x-ratelimit-limit"@ + " header"@,
        ),
{
}

} // verus!
