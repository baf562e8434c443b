//! Commenting lines of TOML in and out.

use crate::search::{lemma_split_on_nonempty, lemma_texts_push, lines, split, split_on, texts};
use crate::text::{chars_of, join2, join3, push_char, slice};
use vstd::prelude::*;
use vstd::string::*;

verus! {

#[derive(Clone, Copy, Debug, PartialEq, Eq, Structural)]
pub enum TomlCommentAction {
    Commented,
    Uncommented,
}

/// Number of blanks and tabs that `line` starts with.
pub open spec fn indent_len(line: Seq<char>) -> int
    decreases line.len(),
{
    if line.len() > 0 && (line[0] == ' ' || line[0] == '\t') {
        1 + indent_len(line.drop_first())
    } else {
        0
    }
}

/// `line` without its indentation.
pub open spec fn content(line: Seq<char>) -> Seq<char> {
    line.skip(indent_len(line))
}

pub open spec fn is_commented(line: Seq<char>) -> bool {
    content(line).len() > 0 && content(line)[0] == '#'
}

pub open spec fn is_blank(line: Seq<char>) -> bool {
    content(line).len() == 0
}

/// Number of characters that a comment marker takes at the start of `rest`:
/// the hash sign, and a blank behind it.
pub open spec fn marker_len(rest: Seq<char>) -> int {
    if rest.len() > 1 && rest[1] == ' ' {
        2
    } else {
        1
    }
}

/// `line` with a comment marker behind its indentation.
pub open spec fn comment_line(line: Seq<char>) -> Seq<char> {
    line.take(indent_len(line)) + seq!['#', ' '] + content(line)
}

/// `line` without its comment marker.
pub open spec fn uncomment_line(line: Seq<char>) -> Seq<char> {
    if is_commented(line) {
        line.take(indent_len(line)) + content(line).skip(marker_len(content(line)))
    } else {
        line
    }
}

/// Whether a block of lines is commented out: some line has content, and each
/// that has any starts with a hash sign.
pub open spec fn block_commented(lines: Seq<Seq<char>>) -> bool {
    &&& exists|i: int| 0 <= i < lines.len() && !is_blank(#[trigger] lines[i])
    &&& forall|i: int|
        0 <= i < lines.len() ==> is_blank(#[trigger] lines[i]) || is_commented(lines[i])
}

/// Whether toggling leaves a block as it is: several lines, all of them blank.
pub open spec fn block_untouched(lines: Seq<Seq<char>>) -> bool {
    lines.len() != 1 && forall|i: int| 0 <= i < lines.len() ==> is_blank(#[trigger] lines[i])
}

/// A block with its comments toggled.
pub open spec fn toggled_lines(lines: Seq<Seq<char>>) -> Seq<Seq<char>> {
    Seq::new(
        lines.len(),
        |i: int|
            if block_commented(lines) {
                uncomment_line(lines[i])
            } else if !is_blank(lines[i]) || lines.len() == 1 {
                comment_line(lines[i])
            } else {
                lines[i]
            },
    )
}

/// The lines put together with a line feed between each two.
pub open spec fn joined_lines(lines: Seq<Seq<char>>) -> Seq<char>
    decreases lines.len(),
{
    if lines.len() == 0 {
        Seq::empty()
    } else if lines.len() == 1 {
        lines[0]
    } else {
        joined_lines(lines.drop_last()) + seq!['\n'] + lines.last()
    }
}

/// A block of text with the comments of its lines toggled.
pub open spec fn toggled_block(block: Seq<char>) -> Seq<char> {
    joined_lines(toggled_lines(split_on(block, '\n')))
}

pub proof fn lemma_indent_len(line: Seq<char>)
    ensures
        0 <= indent_len(line) <= line.len(),
        forall|i: int| 0 <= i < indent_len(line) ==> line[i] == ' ' || line[i] == '\t',
        indent_len(line) < line.len() ==> line[indent_len(line)] != ' ' && line[indent_len(line)]
            != '\t',
    decreases line.len(),
{
    if line.len() > 0 && (line[0] == ' ' || line[0] == '\t') {
        let rest = line.drop_first();
        lemma_indent_len(rest);
        assert forall|i: int| 0 <= i < indent_len(line) implies line[i] == ' ' || line[i]
            == '\t' by {
            if i > 0 {
                assert(line[i] == rest[i - 1]);
            }
        }
        if indent_len(line) < line.len() {
            assert(line[indent_len(line)] == rest[indent_len(rest)]);
        }
    }
}

/// The indentation is the only run of blanks and tabs that ends in something else.
pub proof fn lemma_indent_len_unique(line: Seq<char>, n: int)
    requires
        0 <= n <= line.len(),
        forall|i: int| 0 <= i < n ==> line[i] == ' ' || line[i] == '\t',
        n < line.len() ==> line[n] != ' ' && line[n] != '\t',
    ensures
        indent_len(line) == n,
{
    lemma_indent_len(line);
    let m = indent_len(line);
    if m < n {
        assert(line[m] == ' ' || line[m] == '\t');
    } else if n < m {
        assert(line[n] == ' ' || line[n] == '\t');
    }
}

/// Taking out the marker that was put in gives the line back.
pub proof fn lemma_comment_line(line: Seq<char>)
    ensures
        is_commented(comment_line(line)),
        !is_blank(comment_line(line)),
        uncomment_line(comment_line(line)) == line,
{
    lemma_indent_len(line);
    let n = indent_len(line);
    let c = comment_line(line);
    assert(c[n] == '#');
    assert forall|i: int| 0 <= i < n implies c[i] == ' ' || c[i] == '\t' by {
        assert(c[i] == line[i]);
    }
    lemma_indent_len_unique(c, n);
    assert(content(c) =~= seq!['#', ' '] + content(line));
    assert(c.take(n) + content(c).skip(2) =~= line);
}

/// Whether no line holds a line feed.
pub open spec fn single_lines(lines: Seq<Seq<char>>) -> bool {
    forall|i: int, j: int|
        0 <= i < lines.len() && 0 <= j < lines[i].len() ==> #[trigger] lines[i][j] != '\n'
}

proof fn lemma_split_append(s: Seq<char>, line: Seq<char>)
    requires
        forall|j: int| 0 <= j < line.len() ==> line[j] != '\n',
    ensures
        split_on(s + line, '\n') == split_on(s, '\n').update(
            split_on(s, '\n').len() - 1,
            split_on(s, '\n').last() + line,
        ),
    decreases line.len(),
{
    lemma_split_on_nonempty(s, '\n');
    let p = split_on(s, '\n');
    if line.len() == 0 {
        assert(s + line =~= s);
        assert(p.last() + line =~= p.last());
        assert(p.update(p.len() - 1, p.last()) =~= p);
    } else {
        lemma_split_append(s, line.drop_last());
        assert((s + line).drop_last() =~= s + line.drop_last());
        assert((s + line).last() == line.last());
        let q = split_on(s + line.drop_last(), '\n');
        assert((p.last() + line.drop_last()).push(line.last()) =~= p.last() + line);
        assert(split_on(s + line, '\n') =~= p.update(p.len() - 1, p.last() + line));
    }
}

/// Splitting what was put together gives the lines back.
pub proof fn lemma_split_joined(lines: Seq<Seq<char>>)
    requires
        lines.len() > 0,
        single_lines(lines),
    ensures
        split_on(joined_lines(lines), '\n') == lines,
    decreases lines.len(),
{
    if lines.len() == 1 {
        assert forall|j: int| 0 <= j < lines[0].len() implies lines[0][j] != '\n' by {}
        lemma_split_append(Seq::empty(), lines[0]);
        assert(Seq::<char>::empty() + lines[0] =~= lines[0]);
        assert(split_on(joined_lines(lines), '\n') =~= lines);
    } else {
        let front = lines.drop_last();
        assert(single_lines(front)) by {
            assert forall|i: int, j: int|
                0 <= i < front.len() && 0 <= j < front[i].len() implies #[trigger] front[i][j]
                    != '\n' by {
                assert(lines[i][j] != '\n');
            }
        }
        lemma_split_joined(front);
        let start = joined_lines(front) + seq!['\n'];
        assert(start.drop_last() =~= joined_lines(front));
        assert(split_on(start, '\n') == front.push(Seq::empty()));
        let k = lines.len() - 1;
        assert forall|j: int| 0 <= j < lines.last().len() implies lines.last()[j] != '\n' by {
            assert(lines[k][j] != '\n');
        }
        lemma_split_append(start, lines.last());
        assert(Seq::<char>::empty() + lines.last() =~= lines.last());
        assert(split_on(joined_lines(lines), '\n') =~= lines);
    }
}

/// Putting together what was split gives the text back.
pub proof fn lemma_joined_split(s: Seq<char>)
    ensures
        joined_lines(split_on(s, '\n')) == s,
        single_lines(split_on(s, '\n')),
    decreases s.len(),
{
    let lines = split_on(s, '\n');
    if s.len() == 0 {
        assert(joined_lines(lines) =~= s);
    } else {
        let rest = s.drop_last();
        lemma_joined_split(rest);
        lemma_split_on_nonempty(rest, '\n');
        let before = split_on(rest, '\n');
        if s.last() == '\n' {
            assert(lines.drop_last() =~= before);
            assert(joined_lines(lines) =~= s);
            assert(single_lines(lines)) by {
                assert forall|i: int, j: int|
                    0 <= i < lines.len() && 0 <= j < lines[i].len() implies #[trigger] lines[i][j]
                        != '\n' by {
                    assert(before[i][j] != '\n');
                }
            }
        } else {
            let n = before.len();
            assert(lines.drop_last() =~= before.drop_last());
            if n > 1 {
                assert(joined_lines(lines) =~= joined_lines(before.drop_last()) + seq!['\n']
                    + before.last().push(s.last()));
                assert(joined_lines(before) =~= joined_lines(before.drop_last()) + seq!['\n']
                    + before.last());
            }
            assert(joined_lines(lines) =~= joined_lines(before).push(s.last()));
            assert(joined_lines(lines) =~= s);
            assert(single_lines(lines)) by {
                assert forall|i: int, j: int|
                    0 <= i < lines.len() && 0 <= j < lines[i].len() implies #[trigger] lines[i][j]
                        != '\n' by {
                    if i < n - 1 {
                        assert(before[i][j] != '\n');
                    } else if j < before[i].len() {
                        assert(before[i][j] != '\n');
                    }
                }
            }
        }
    }
}

/// The lines of a block that got comments: they are those of the new block, each
/// is blank or commented, not all are blank, and taking the comments out gives
/// the lines back.
proof fn lemma_toggled_lines(block: Seq<char>)
    requires
        !block_commented(split_on(block, '\n')),
        !block_untouched(split_on(block, '\n')),
    ensures
        ({
            let lines = split_on(block, '\n');
            let new = toggled_lines(lines);
            &&& split_on(toggled_block(block), '\n') == new
            &&& block_commented(new)
            &&& toggled_lines(new) == lines
        }),
{
    let lines = split_on(block, '\n');
    lemma_split_on_nonempty(block, '\n');
    lemma_joined_split(block);
    let new = toggled_lines(lines);
    assert forall|i: int| 0 <= i < lines.len() implies is_blank(#[trigger] new[i]) || is_commented(
        new[i],
    ) by {
        lemma_comment_line(lines[i]);
    }
    assert(exists|i: int| 0 <= i < new.len() && !is_blank(#[trigger] new[i])) by {
        if lines.len() == 1 {
            lemma_comment_line(lines[0]);
            assert(!is_blank(new[0]));
        } else {
            let i = choose|i: int| 0 <= i < lines.len() && !is_blank(#[trigger] lines[i]);
            lemma_comment_line(lines[i]);
            assert(!is_blank(new[i]));
        }
    }
    assert(single_lines(new)) by {
        assert forall|i: int, j: int|
            0 <= i < new.len() && 0 <= j < new[i].len() implies #[trigger] new[i][j] != '\n' by {
            let line = lines[i];
            let n = indent_len(line);
            lemma_indent_len(line);
            if new[i] == comment_line(line) {
                if j < n {
                    assert(lines[i][j] != '\n');
                } else if j >= n + 2 {
                    assert(new[i][j] == line[j - 2]);
                    assert(lines[i][j - 2] != '\n');
                }
            } else {
                assert(lines[i][j] != '\n');
            }
        }
    }
    lemma_split_joined(new);
    let again = toggled_lines(new);
    assert forall|i: int| 0 <= i < lines.len() implies again[i] == lines[i] by {
        lemma_comment_line(lines[i]);
        if new[i] != comment_line(lines[i]) {
            assert(is_blank(lines[i]));
        }
    }
    assert(again =~= lines);
}

/// Toggling the comments of a block that is not commented out, and then those
/// of the result, gives the block back.
pub proof fn law_comment_then_uncomment(block: Seq<char>)
    requires
        !block_commented(split_on(block, '\n')),
        !block_untouched(split_on(block, '\n')),
    ensures
        block_commented(split_on(toggled_block(block), '\n')),
        toggled_block(toggled_block(block)) == block,
{
    lemma_toggled_lines(block);
    lemma_joined_split(block);
}

/// A line with a comment marker is one line where it was one.
pub proof fn lemma_commented_line(line: Seq<char>)
    requires
        split_on(line, '\n').len() == 1,
        split_on(line, '\n')[0] == line,
    ensures
        forall|i: int| 0 <= i < comment_line(line).len() ==> comment_line(line)[i] != '\n',
{
    lemma_joined_split(line);
    lemma_indent_len(line);
    let n = indent_len(line);
    let lines = split_on(line, '\n');
    assert forall|i: int| 0 <= i < comment_line(line).len() implies comment_line(line)[i]
        != '\n' by {
        if i < n {
            assert(lines[0][i] != '\n');
        } else if i >= n + 2 {
            assert(comment_line(line)[i] == line[i - 2]);
            assert(lines[0][i - 2] != '\n');
        }
    }
}

/// Where the last of the lines that got comments is empty, taking the comments
/// out of the lines before it gives those lines back.
pub proof fn lemma_last_line_blank(block: Seq<char>)
    requires
        !block_commented(split_on(block, '\n')),
        !block_untouched(split_on(block, '\n')),
        toggled_block(block).len() > 0,
        toggled_block(block).last() == '\n',
    ensures
        block_commented(split_on(toggled_block(block).drop_last(), '\n')),
        !block_untouched(split_on(toggled_block(block).drop_last(), '\n')),
        toggled_block(toggled_block(block).drop_last()) + seq!['\n'] == block,
{
    let lines = split_on(block, '\n');
    let made = toggled_block(block);
    let new = toggled_lines(lines);
    lemma_split_on_nonempty(block, '\n');
    lemma_joined_split(block);
    lemma_split_on_nonempty(made.drop_last(), '\n');
    lemma_toggled_lines(block);
    let kept = split_on(made.drop_last(), '\n');
    let n = lines.len() as int;
    assert(new == kept.push(Seq::empty()));
    assert(new.last() == Seq::<char>::empty());
    lemma_comment_line(lines.last());
    assert(lines.last().len() == 0 && n > 1) by {
        if new.last() == comment_line(lines.last()) {
            assert(is_blank(new.last()));
        }
    }
    let some = choose|i: int| 0 <= i < new.len() && !is_blank(#[trigger] new[i]);
    assert(some < n - 1) by {
        assert(is_blank(new[n - 1]));
    }
    assert(!is_blank(kept[some])) by {
        assert(kept[some] == new[some]);
    }
    assert forall|i: int| 0 <= i < kept.len() implies is_blank(#[trigger] kept[i]) || is_commented(
        kept[i],
    ) by {
        assert(kept[i] == new[i]);
    }
    let again = toggled_lines(new);
    let less = toggled_lines(kept);
    assert forall|i: int| 0 <= i < less.len() implies less[i] == lines[i] by {
        assert(kept[i] == new[i]);
        assert(again[i] == lines[i]);
    }
    assert(less =~= lines.drop_last());
    assert(joined_lines(lines) =~= joined_lines(less) + seq!['\n']);
}

/// Number of blanks and tabs that `line` starts with.
pub fn indentation(line: &Vec<char>) -> (r: usize)
    ensures
        r == indent_len(line@),
        r <= line@.len(),
{
    let mut i: usize = 0;
    while i < line.len() && (line[i] == ' ' || line[i] == '\t')
        invariant
            i <= line@.len(),
            forall|k: int| 0 <= k < i ==> line@[k] == ' ' || line@[k] == '\t',
        decreases line@.len() - i,
    {
        i += 1;
    }
    proof {
        lemma_indent_len_unique(line@, i as int);
    }
    i
}

fn commented(line: &str) -> (r: String)
    ensures
        r@ == comment_line(line@),
{
    let chars = chars_of(line);
    let n: usize = indentation(&chars);
    let result = join3(slice(line, 0, n), "# ", slice(line, n, chars.len()));
    proof {
        reveal_strlit("# ");
        assert("# "@ =~= seq!['#', ' ']);
        assert(line@.subrange(0, n as int) =~= line@.take(n as int));
        assert(line@.subrange(n as int, line@.len() as int) =~= line@.skip(n as int));
    }
    result
}

fn uncommented(line: &str) -> (r: String)
    ensures
        r@ == uncomment_line(line@),
{
    let chars = chars_of(line);
    let n: usize = indentation(&chars);
    proof {
        lemma_indent_len(line@);
        assert(content(line@).len() == line@.len() - n);
        assert(forall|k: int| 0 <= k < line@.len() - n ==> content(line@)[k] == line@[n + k]);
    }
    if n < chars.len() && chars[n] == '#' {
        let length: usize = if chars.len() - n > 1 && chars[n + 1] == ' ' {
            2
        } else {
            1
        };
        let result = join2(slice(line, 0, n), slice(line, n + length, chars.len()));
        assert(result@ =~= uncomment_line(line@));
        result
    } else {
        line.to_owned()
    }
}

/// Whether `line` is blank, and whether it is commented out.
fn line_kind(line: &str) -> (r: (bool, bool))
    ensures
        r.0 == is_blank(line@),
        r.1 == is_commented(line@),
{
    let chars = chars_of(line);
    let n: usize = indentation(&chars);
    proof {
        assert(content(line@).len() == line@.len() - n);
        assert(n < line@.len() ==> content(line@)[0] == line@[n as int]);
    }
    (n == chars.len(), n < chars.len() && chars[n] == '#')
}

/// The lines put together with a line feed between each two.
pub fn join_lines(lines: &Vec<String>) -> (r: String)
    ensures
        r@ == joined_lines(texts(lines@)),
{
    let mut result = String::new();
    let mut i: usize = 0;
    let ghost all = texts(lines@);
    assert(all.take(0) =~= Seq::<Seq<char>>::empty());
    while i < lines.len()
        invariant
            i <= lines@.len(),
            all == texts(lines@),
            result@ == joined_lines(all.take(i as int)),
        decreases lines@.len() - i,
    {
        let ghost before = result@;
        assert(all.take(i + 1).drop_last() =~= all.take(i as int));
        assert(all[i as int] == lines@[i as int]@);
        if i > 0 {
            push_char(&mut result, '\n');
            assert(result@ =~= before + seq!['\n']);
        }
        result.append(lines[i].as_str());
        proof {
            if i == 0 {
                assert(before =~= Seq::<char>::empty());
                assert(result@ =~= lines@[0]@);
            }
            assert(result@ =~= joined_lines(all.take(i + 1)));
        }
        i += 1;
    }
    assert(all.take(i as int) =~= all);
    result
}

/// A block with the comments of its lines toggled, and what was done; nothing
/// where toggling leaves the block as it is.
pub fn toggle_block(block: &str) -> (r: Option<(String, TomlCommentAction)>)
    ensures
        r is None <==> block_untouched(split_on(block@, '\n')),
        r matches Some((text, action)) ==> {
            &&& text@ == toggled_block(block@)
            &&& action == if block_commented(split_on(block@, '\n')) {
                TomlCommentAction::Uncommented
            } else {
                TomlCommentAction::Commented
            }
        },
{
    let lines = split(block, '\n');
    let ghost all = texts(lines@);
    assert forall|k: int| 0 <= k < lines@.len() implies all[k] == #[trigger] lines@[k]@ by {}
    let mut any: bool = false;
    let mut every: bool = true;
    let mut i: usize = 0;
    while i < lines.len()
        invariant
            all == texts(lines@),
            i <= lines@.len(),
            any == exists|k: int| 0 <= k < i && !is_blank(#[trigger] all[k]),
            every == forall|k: int|
                0 <= k < i ==> is_blank(#[trigger] all[k]) || is_commented(all[k]),
        decreases lines@.len() - i,
    {
        let (blank, marked) = line_kind(lines[i].as_str());
        assert(all[i as int] == lines@[i as int]@);
        proof {
            if !blank {
                assert(!is_blank(all[i as int]));
            }
        }
        any = any || !blank;
        every = every && (blank || marked);
        i += 1;
    }
    let uncomment = any && every;
    assert(uncomment == block_commented(all));
    if !any && lines.len() != 1 {
        assert(block_untouched(all)) by {
            assert forall|k: int| 0 <= k < all.len() implies is_blank(#[trigger] all[k]) by {}
        }
        return None;
    }
    let mut result: Vec<String> = Vec::new();
    let mut j: usize = 0;
    let single = lines.len() == 1;
    while j < lines.len()
        invariant
            all == texts(lines@),
            j <= lines@.len(),
            uncomment == block_commented(all),
            single == (all.len() == 1),
            texts(result@) == toggled_lines(all).take(j as int),
        decreases lines@.len() - j,
    {
        let ghost listed = result@;
        assert(all[j as int] == lines@[j as int]@);
        let line = lines[j].as_str();
        let (blank, _) = line_kind(line);
        let new = if uncomment {
            uncommented(line)
        } else if !blank || single {
            commented(line)
        } else {
            line.to_owned()
        };
        result.push(new);
        proof {
            lemma_texts_push(listed, result@.last());
            assert(result@ =~= listed.push(result@.last()));
        }
        j += 1;
        assert(texts(result@) =~= toggled_lines(all).take(j as int));
    }
    assert(toggled_lines(all).take(j as int) =~= toggled_lines(all));
    let text = join_lines(&result);
    let action = if uncomment {
        TomlCommentAction::Uncommented
    } else {
        TomlCommentAction::Commented
    };
    proof {
        assert(!block_untouched(all)) by {
            if any {
                let k = choose|k: int| 0 <= k < all.len() && !is_blank(#[trigger] all[k]);
                assert(!is_blank(all[k]));
            }
        }
    }
    Some((text, action))
}

} // verus!
