//! How deep the brackets of a TOML text nest, whether the text is sound or not.

use crate::text::chars_of;
use vstd::prelude::*;

verus! {

/// Where the string that `q` opens ends, from `j` on: behind the next `q`, where
/// a backslash before it does not escape it.
pub open spec fn string_end(s: Seq<char>, q: char, j: int, escaped: bool) -> Option<int>
    decreases s.len() - j,
{
    if j >= s.len() {
        None
    } else if q == '"' && s[j] == '\\' {
        string_end(s, q, j + 1, !escaped)
    } else if s[j] == q && !escaped {
        Some(j + 1)
    } else {
        string_end(s, q, j + 1, false)
    }
}

/// The position from `j` on that holds something other than `q`.
pub open spec fn run_end(s: Seq<char>, q: char, j: int) -> int
    decreases s.len() - j,
{
    if j < s.len() && s[j] == q {
        run_end(s, q, j + 1)
    } else {
        j
    }
}

/// Where the string that three `q` open ends, from `j` on, with `count` of them
/// right before it: behind the next run of three to five.
pub open spec fn long_string_end(s: Seq<char>, q: char, j: int, count: int, escaped: bool) -> Option<
    int,
>
    decreases s.len() - j,
{
    if j >= s.len() {
        None
    } else if q == '"' && s[j] == '\\' {
        long_string_end(s, q, j + 1, count, true)
    } else if s[j] == q && !escaped {
        if count == 2 {
            let end = run_end(s, q, j + 1);
            if end - j <= 3 {
                Some(end)
            } else {
                None
            }
        } else {
            long_string_end(s, q, j + 1, count + 1, false)
        }
    } else {
        long_string_end(s, q, j + 1, 0, false)
    }
}

/// Whether three `q` stand at `i`.
pub open spec fn opens_long(s: Seq<char>, q: char, i: int) -> bool {
    i + 2 < s.len() && s[i + 1] == q && s[i + 2] == q
}

/// Where the string that starts at `i` ends, if it does.
pub open spec fn quoted_end(s: Seq<char>, i: int) -> Option<int> {
    if opens_long(s, s[i], i) {
        long_string_end(s, s[i], i + 3, 0, false)
    } else {
        string_end(s, s[i], i + 1, false)
    }
}

/// Where the line ends, from `j` on.
pub open spec fn comment_end(s: Seq<char>, j: int) -> int
    decreases s.len() - j,
{
    if j < s.len() && s[j] != '\n' && s[j] != '\r' {
        comment_end(s, j + 1)
    } else {
        j
    }
}

/// A character of names, numbers and what stands between their parts.
pub open spec fn is_word_char(c: char) -> bool {
    ||| 'a' <= c <= 'z'
    ||| 'A' <= c <= 'Z'
    ||| '0' <= c <= '9'
    ||| c == '_' || c == '-' || c == '*' || c == '?' || c == '.' || c == '='
}

/// Where the word characters end, from `j` on.
pub open spec fn word_end(s: Seq<char>, j: int) -> int
    decreases s.len() - j,
{
    if j < s.len() && is_word_char(s[j]) {
        word_end(s, j + 1)
    } else {
        j
    }
}

/// What stands before a comma or a closing bracket.
#[derive(Clone, Copy, Debug, PartialEq, Eq, Structural)]
pub enum Before {
    /// Nothing: a bracket was opened, or a comma has ended a value.
    Nothing,
    /// A value, or a part of one.
    Value,
    /// A comma with no value before it. What follows it may be passed over.
    StrayComma,
}

/// What is passed at `i`: where it ends, and what stands before what follows.
pub open spec fn passed(s: Seq<char>, i: int, before: Before) -> (int, Before) {
    let c = s[i];
    let valued = if before == Before::StrayComma {
        before
    } else {
        Before::Value
    };
    if c == '"' || c == '\'' {
        match quoted_end(s, i) {
            Some(end) => (end, valued),
            None => (
                if opens_long(s, c, i) {
                    i + 3
                } else {
                    i + 1
                },
                before,
            ),
        }
    } else if c == '#' {
        (comment_end(s, i), before)
    } else if c == '+' {
        (word_end(s, i + 1), before)
    } else if c == ',' {
        (
            i + 1,
            if before == Before::Value {
                Before::Nothing
            } else {
                Before::StrayComma
            },
        )
    } else if c == '[' || c == '{' {
        (i + 1, Before::Nothing)
    } else if c == ']' || c == '}' {
        (
            i + 1,
            if before == Before::StrayComma {
                Before::Nothing
            } else {
                Before::Value
            },
        )
    } else if is_word_char(c) {
        (i + 1, valued)
    } else {
        (i + 1, before)
    }
}

/// The brackets that are open behind `i`: an opening one is added, and a closing
/// one closes the last where that is of its kind and no stray comma stands
/// between.
pub open spec fn opened(s: Seq<char>, i: int, open: Seq<char>, before: Before) -> Seq<char> {
    let c = s[i];
    if c == '[' || c == '{' {
        open.push(c)
    } else if open.len() > 0 && before != Before::StrayComma && ((c == ']' && open.last() == '[')
        || (c == '}' && open.last() == '{')) {
        open.drop_last()
    } else {
        open
    }
}

/// The most brackets that are open at once, from `i` on.
pub open spec fn nesting_from(s: Seq<char>, i: int, open: Seq<char>, before: Before) -> nat
    decreases s.len() - i,
{
    if i < 0 || i >= s.len() {
        open.len()
    } else {
        proof {
            lemma_passed(s, i, before);
        }
        let (end, after) = passed(s, i, before);
        let rest = nesting_from(s, end, opened(s, i, open, before), after);
        if rest < open.len() {
            open.len()
        } else {
            rest
        }
    }
}

/// How deep the brackets of a text nest that stand neither in strings nor in
/// comments.
pub open spec fn nesting(s: Seq<char>) -> nat {
    nesting_from(s, 0, Seq::empty(), Before::Nothing)
}

proof fn lemma_ends(s: Seq<char>, q: char, j: int, count: int, escaped: bool)
    ensures
        string_end(s, q, j, escaped) matches Some(end) ==> j < end <= s.len(),
        long_string_end(s, q, j, count, escaped) matches Some(end) ==> j < end <= s.len(),
        j <= run_end(s, q, j),
        j <= comment_end(s, j),
        j <= word_end(s, j),
        j <= s.len() ==> run_end(s, q, j) <= s.len() && comment_end(s, j) <= s.len() && word_end(
            s,
            j,
        ) <= s.len(),
    decreases s.len() - j,
{
    if j < s.len() {
        lemma_ends(s, q, j + 1, count, true);
        lemma_ends(s, q, j + 1, count + 1, false);
        lemma_ends(s, q, j + 1, 0, !escaped);
        lemma_ends(s, q, j + 1, 0, false);
    }
}

pub proof fn lemma_passed(s: Seq<char>, i: int, before: Before)
    requires
        0 <= i < s.len(),
    ensures
        i < passed(s, i, before).0 <= s.len(),
{
    lemma_ends(s, s[i], i + 1, 0, false);
    lemma_ends(s, s[i], i + 3, 0, false);
    lemma_ends(s, s[i], i, 0, false);
}

fn end_of_string(s: &Vec<char>, q: char, from: usize) -> (r: Option<usize>)
    requires
        from <= s@.len(),
    ensures
        r matches Some(end) ==> string_end(s@, q, from as int, false) == Some(end as int)
            && end <= s@.len(),
        r is None <==> string_end(s@, q, from as int, false) is None,
{
    let mut j: usize = from;
    let mut escaped: bool = false;
    while j < s.len()
        invariant
            from <= j <= s@.len(),
            string_end(s@, q, j as int, escaped) == string_end(s@, q, from as int, false),
        decreases s@.len() - j,
    {
        if q == '"' && s[j] == '\\' {
            escaped = !escaped;
        } else if s[j] == q && !escaped {
            return Some(j + 1);
        } else {
            escaped = false;
        }
        j += 1;
    }
    None
}

fn end_of_run(s: &Vec<char>, q: char, from: usize) -> (r: usize)
    requires
        from <= s@.len(),
    ensures
        r == run_end(s@, q, from as int),
        from <= r <= s@.len(),
{
    let mut j: usize = from;
    while j < s.len() && s[j] == q
        invariant
            from <= j <= s@.len(),
            run_end(s@, q, j as int) == run_end(s@, q, from as int),
        decreases s@.len() - j,
    {
        j += 1;
    }
    j
}

fn end_of_long_string(s: &Vec<char>, q: char, from: usize) -> (r: Option<usize>)
    requires
        from <= s@.len(),
    ensures
        r matches Some(end) ==> long_string_end(s@, q, from as int, 0, false) == Some(end as int)
            && end <= s@.len(),
        r is None <==> long_string_end(s@, q, from as int, 0, false) is None,
{
    let mut j: usize = from;
    let mut count: usize = 0;
    let mut escaped: bool = false;
    while j < s.len()
        invariant
            from <= j <= s@.len(),
            count <= 2,
            long_string_end(s@, q, j as int, count as int, escaped) == long_string_end(
                s@,
                q,
                from as int,
                0,
                false,
            ),
        decreases s@.len() - j,
    {
        if q == '"' && s[j] == '\\' {
            escaped = true;
        } else if s[j] == q && !escaped {
            if count == 2 {
                let end: usize = end_of_run(s, q, j + 1);
                return if end - j <= 3 {
                    Some(end)
                } else {
                    None
                };
            }
            count += 1;
        } else {
            count = 0;
            escaped = false;
        }
        j += 1;
    }
    None
}

fn end_of_comment(s: &Vec<char>, from: usize) -> (r: usize)
    requires
        from <= s@.len(),
    ensures
        r == comment_end(s@, from as int),
        from <= r <= s@.len(),
{
    let mut j: usize = from;
    while j < s.len() && s[j] != '\n' && s[j] != '\r'
        invariant
            from <= j <= s@.len(),
            comment_end(s@, j as int) == comment_end(s@, from as int),
        decreases s@.len() - j,
    {
        j += 1;
    }
    j
}

fn word_char(c: char) -> (r: bool)
    ensures
        r == is_word_char(c),
{
    ('a' <= c && c <= 'z') || ('A' <= c && c <= 'Z') || ('0' <= c && c <= '9') || c == '_' || c
        == '-' || c == '*' || c == '?' || c == '.' || c == '='
}

fn end_of_word(s: &Vec<char>, from: usize) -> (r: usize)
    requires
        from <= s@.len(),
    ensures
        r == word_end(s@, from as int),
        from <= r <= s@.len(),
{
    let mut j: usize = from;
    while j < s.len() && word_char(s[j])
        invariant
            from <= j <= s@.len(),
            word_end(s@, j as int) == word_end(s@, from as int),
        decreases s@.len() - j,
    {
        j += 1;
    }
    j
}

/// Passes what stands at `i`.
fn pass(s: &Vec<char>, i: usize, before: Before) -> (r: (usize, Before))
    requires
        i < s@.len(),
    ensures
        (r.0 as int, r.1) == passed(s@, i as int, before),
        i < r.0 <= s@.len(),
{
    proof {
        lemma_passed(s@, i as int, before);
    }
    let length: usize = s.len();
    let c = s[i];
    let next: usize = i + 1;
    let valued = if before == Before::StrayComma {
        before
    } else {
        Before::Value
    };
    if c == '"' || c == '\'' {
        let long = length - i > 2 && s[next] == c && s[i + 2] == c;
        let end = if long {
            end_of_long_string(s, c, i + 3)
        } else {
            end_of_string(s, c, next)
        };
        match end {
            Some(end) => (end, valued),
            None => (
                if long {
                    i + 3
                } else {
                    next
                },
                before,
            ),
        }
    } else if c == '#' {
        (end_of_comment(s, i), before)
    } else if c == '+' {
        (end_of_word(s, next), before)
    } else if c == ',' {
        (
            next,
            if before == Before::Value {
                Before::Nothing
            } else {
                Before::StrayComma
            },
        )
    } else if c == '[' || c == '{' {
        (next, Before::Nothing)
    } else if c == ']' || c == '}' {
        (
            next,
            if before == Before::StrayComma {
                Before::Nothing
            } else {
                Before::Value
            },
        )
    } else if word_char(c) {
        (next, valued)
    } else {
        (next, before)
    }
}

/// How deep the brackets of a text nest.
pub fn nesting_depth(text: &str) -> (r: usize)
    ensures
        r == nesting(text@),
{
    let s = chars_of(text);
    let mut open: Vec<char> = Vec::new();
    let mut before = Before::Nothing;
    let mut deepest: usize = 0;
    let mut i: usize = 0;
    assert(open@ =~= Seq::<char>::empty());
    while i < s.len()
        invariant
            i <= s@.len(),
            open@.len() <= deepest,
            ({
                let rest = nesting_from(s@, i as int, open@, before);
                nesting(s@) == if rest < deepest {
                    deepest as nat
                } else {
                    rest
                }
            }),
        decreases s@.len() - i,
    {
        let c = s[i];
        let ghost held = open@;
        let (end, after) = pass(&s, i, before);
        if c == '[' || c == '{' {
            open.push(c);
        } else if open.len() > 0 && before != Before::StrayComma {
            let last = open[open.len() - 1];
            if (c == ']' && last == '[') || (c == '}' && last == '{') {
                open.pop();
                assert(open@ =~= held.drop_last());
            }
        }
        assert(open@ =~= opened(s@, i as int, held, before));
        if open.len() > deepest {
            deepest = open.len();
        }
        before = after;
        i = end;
        proof {
            lemma_nesting_at_least(s@, i as int, open@, before);
        }
    }
    deepest
}

proof fn lemma_nesting_at_least(s: Seq<char>, i: int, open: Seq<char>, before: Before)
    ensures
        nesting_from(s, i, open, before) >= open.len(),
{
}

} // verus!
