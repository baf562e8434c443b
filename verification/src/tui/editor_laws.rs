//! What holds of the TOML editor: where its movements lead, what its edits leave
//! of the text, and what its keys do.

use crate::number::shifted;
use crate::search::{is_white, lines, unix_newlines};
use crate::text::byte_len;
use crate::tui::comment::{
    indent_len, is_blank, is_commented, lemma_indent_len, toggled_block, toggled_lines,
};
use crate::tui::editor::{TomlEditor, TomlEditorMode, mapped_position, whole_line};
use crate::tui::geometry::Rect;
use crate::tui::history::{
    TOML_HISTORY_BYTE_LIMIT, TOML_HISTORY_LIMIT, bounded, history_bytes, law_history_is_bounded,
};
use crate::tui::input::InputView;
use crate::tui::keys::{Key, KeyCode};
use crate::tui::lines::{
    at_column, at_column_from, char_is_alphanumeric, class_end, class_start, last_line,
    lemma_at_column_from, lemma_line_end, lemma_line_number_grows, lemma_line_start,
    lemma_nth_line_start, line_end, line_number, line_start, next_word, nth_line_start,
    previous_word, word_class,
};
use crate::tui::width::display_columns;
use vstd::prelude::*;
use vstd::string::*;

verus! {

/// Two characters are of one sort to the movement by words where both are white
/// space, both are letters, digits or underscores, or neither is either.
pub proof fn law_sorts_of_characters(a: char, b: char)
    ensures
        word_class(a) == word_class(b) <==> is_white(a) == is_white(b) && (is_white(a) || (
        char_is_alphanumeric(a) || a == '_') == (char_is_alphanumeric(b) || b == '_')),
        word_class(a) == 0 <==> is_white(a),
{
}

proof fn lemma_class_start(s: Seq<char>, i: int, class: u8)
    requires
        0 <= i <= s.len(),
    ensures
        0 <= class_start(s, i, class) <= i,
        forall|k: int| class_start(s, i, class) <= k < i ==> word_class(#[trigger] s[k]) == class,
        class_start(s, i, class) > 0 ==> word_class(s[class_start(s, i, class) - 1]) != class,
    decreases i,
{
    if i > 0 && word_class(s[i - 1]) == class {
        lemma_class_start(s, i - 1, class);
    }
}

proof fn lemma_class_end(s: Seq<char>, i: int, class: u8)
    requires
        0 <= i <= s.len(),
    ensures
        i <= class_end(s, i, class) <= s.len(),
        forall|k: int| i <= k < class_end(s, i, class) ==> word_class(#[trigger] s[k]) == class,
        class_end(s, i, class) < s.len() ==> word_class(s[class_end(s, i, class)]) != class,
    decreases s.len() - i,
{
    if i < s.len() && word_class(s[i]) == class {
        lemma_class_end(s, i + 1, class);
    }
}

/// Whether from `from` to `to` stand a run of characters of one sort, which ends at
/// `end`, and white space behind it.
pub open spec fn run_then_white(s: Seq<char>, from: int, end: int, to: int) -> bool {
    &&& from <= end <= to
    &&& forall|k: int| from <= k < end ==> word_class(#[trigger] s[k]) == word_class(s[from])
    &&& forall|k: int| end <= k < to ==> is_white(#[trigger] s[k])
}

/// Whether `t` is where the last word before `at` starts: a character that is not
/// white and the first of its run, with only white space between the end of the
/// run and `at`.
pub open spec fn starts_word_before(s: Seq<char>, t: int, at: int) -> bool {
    &&& 0 <= t < at
    &&& !is_white(s[t])
    &&& t > 0 ==> word_class(s[t - 1]) != word_class(s[t])
    &&& exists|end: int| t < end && #[trigger] run_then_white(s, t, end, at)
}

/// Moving a word back leads to the start of the last word before the cursor, and
/// to the start of the text where there is none.
pub proof fn law_a_word_back_is_the_start_of_a_word(s: Seq<char>, at: int)
    requires
        0 < at <= s.len(),
    ensures
        (exists|k: int| 0 <= k < at && !is_white(#[trigger] s[k])) ==> starts_word_before(
            s,
            previous_word(s, at),
            at,
        ),
        (forall|k: int| 0 <= k < at ==> is_white(#[trigger] s[k])) ==> previous_word(s, at) == 0,
{
    let end = class_start(s, at, 0);
    lemma_class_start(s, at, 0);
    assert forall|k: int| end <= k < at implies is_white(#[trigger] s[k]) by {
        assert(word_class(s[k]) == 0);
    }
    if end > 0 {
        let class = word_class(s[end - 1]);
        let t = class_start(s, end, class);
        lemma_class_start(s, end, class);
        assert(t < end) by {
            assert(class_start(s, end, class) == class_start(s, end - 1, class));
            lemma_class_start(s, end - 1, class);
        }
        assert(word_class(s[t]) == class);
        assert(!is_white(s[end - 1]));
        assert(run_then_white(s, t, end, at));
    }
}

/// Whether `t` is the next position behind `at` where a word starts, or the end of
/// the text: between them stand only the rest of the run at `at` and white space.
pub open spec fn starts_word_behind(s: Seq<char>, t: int, at: int) -> bool {
    &&& at < t <= s.len()
    &&& t < s.len() ==> !is_white(s[t]) && word_class(s[t - 1]) != word_class(s[t])
    &&& exists|end: int| at < end && #[trigger] run_then_white(s, at, end, t)
}

/// Moving a word on leads to where the next word starts, or to the end.
pub proof fn law_a_word_on_is_the_start_of_a_word(s: Seq<char>, at: int)
    requires
        0 <= at < s.len(),
    ensures
        starts_word_behind(s, next_word(s, at), at),
{
    let class = word_class(s[at]);
    let end = class_end(s, at, class);
    lemma_class_end(s, at, class);
    assert(end > at) by {
        assert(class_end(s, at, class) == class_end(s, at + 1, class));
        lemma_class_end(s, at + 1, class);
    }
    let t = next_word(s, at);
    if class != 0 {
        lemma_class_end(s, end, 0);
        assert forall|k: int| end <= k < t implies is_white(#[trigger] s[k]) by {
            assert(word_class(s[k]) == 0);
        }
    }
    assert(run_then_white(s, at, end, t));
    if t < s.len() {
        assert(word_class(s[t - 1]) != word_class(s[t]));
    }
}

/// A line is counted by the line feeds before it, and starts and ends at the line
/// feeds around it.
pub proof fn law_lines_lie_between_line_feeds(s: Seq<char>, p: int)
    requires
        0 <= p <= s.len(),
    ensures
        line_number(s, p) == s.take(p).filter(|c: char| c == '\n').len(),
        0 <= line_start(s, p) <= p <= line_end(s, p) <= s.len(),
        line_start(s, p) > 0 ==> s[line_start(s, p) - 1] == '\n',
        line_end(s, p) < s.len() ==> s[line_end(s, p)] == '\n',
        forall|k: int| line_start(s, p) <= k < line_end(s, p) ==> #[trigger] s[k] != '\n',
    decreases p,
{
    lemma_line_start(s, p);
    lemma_line_end(s, p);
    reveal(Seq::filter);
    if p > 0 {
        law_lines_lie_between_line_feeds(s, p - 1);
        assert(s.take(p).drop_last() =~= s.take(p - 1));
    } else {
        assert(s.take(0) =~= Seq::<char>::empty());
    }
}

/// Typing puts the text in place of the selection, with the cursor behind it, and
/// leaves all around it as it was; what was typed is taken out again by taking out
/// the characters before the cursor.
pub proof fn law_typing_replaces_the_selection(input: InputView, text: Seq<char>, c: char)
    requires
        0 <= input.at <= input.chars.len(),
        input.anchor matches Some(a) ==> 0 <= a <= input.chars.len(),
    ensures
        ({
            let (from, to) = match input.anchor {
                Some(a) => if a < input.at {
                    (a, input.at)
                } else {
                    (input.at, a)
                },
                None => (input.at, input.at),
            };
            let after = input.typed(text);
            &&& after.chars == input.chars.take(from) + text + input.chars.skip(to)
            &&& after.at == from + text.len()
            &&& input.selected() == input.chars.subrange(from, to)
            &&& input.selected().len() > 0 ==> {
                &&& input.erased_before() == input.typed(Seq::empty())
                &&& input.erased_after() == input.typed(Seq::empty())
            }
        }),
        input.typed(input.selected()).chars == input.chars,
        input.anchor is None ==> input.typed(seq![c]).erased_before() == input,
        input.anchor is None && input.at < input.chars.len() ==> {
            &&& input.right(false).erased_before() == input.erased_after()
            &&& input.right(false).left(false) == input
            &&& input.erased_after().typed(seq![input.chars[input.at]]).chars == input.chars
        },
        input.anchor is None && input.at == input.chars.len() ==> input.right(false) == input
            && input.erased_after() == input,
        input.anchor is None && input.at == 0 ==> input.left(false) == input
            && input.erased_before() == input,
{
    let n = input.chars.len() as int;
    match input.anchor {
        Some(a) => {
            let (from, to) = if a < input.at {
                (a, input.at)
            } else {
                (input.at, a)
            };
            let v = input.unselected();
            if from < to {
                assert(v.chars.take(from) =~= input.chars.take(from));
                assert(v.chars.skip(from) =~= input.chars.skip(to));
                assert(input.typed(Seq::empty()).chars =~= v.chars);
            } else {
                assert(input.selected() =~= input.chars.subrange(from, to));
                assert(input.selected().len() == 0);
            }
            assert(input.typed(input.selected()).chars =~= input.chars);
        },
        None => {
            assert(input.selected() =~= input.chars.subrange(input.at, input.at));
            assert(input.typed(input.selected()).chars =~= input.chars);
            let t = input.typed(seq![c]);
            assert(t.chars.take(t.at - 1) + t.chars.skip(t.at) =~= input.chars);
            if input.at < n {
                let e = input.erased_after();
                assert(e.chars.take(input.at) =~= input.chars.take(input.at));
                assert(e.typed(seq![input.chars[input.at]]).chars =~= input.chars);
            }
        },
    }
}

/// Moving with a selection keeps its other end where it is, and begins one at the
/// cursor where there was none; moving without lets it go. The text stays.
pub proof fn law_movement_carries_the_selection(input: InputView, target: int)
    requires
        0 <= target <= input.chars.len(),
        0 <= input.at <= input.chars.len(),
        input.anchor matches Some(a) ==> 0 <= a <= input.chars.len(),
    ensures
        input.moved(target, false) == (InputView { at: target, anchor: None, ..input }),
        input.moved(target, true).chars == input.chars,
        input.moved(target, true).at == target,
        ({
            let began = match input.anchor {
                Some(a) => a,
                None => input.at,
            };
            &&& began < target ==> input.moved(target, true).selection() == Some((began, target))
            &&& target < began ==> input.moved(target, true).selection() == Some((target, began))
            &&& target == began ==> input.moved(target, true).anchor is None
        }),
        input.everything_selected().selected() == input.chars,
{
    assert(input.everything_selected().selected() =~= input.chars);
}

/// In normal mode the keys that move lead where they say, and change neither the
/// text nor what can be undone.
pub proof fn law_keys_move_in_normal_mode(editor: TomlEditor, new: TomlEditor, key: Key, area: Option<Rect>)
    requires
        editor.wf(),
        editor.mode == TomlEditorMode::VimNormal,
        editor.vim_pending is None,
        editor.selection_anchor is None,
        !key.control && !key.alt,
        editor.key_step(new, key, area),
    ensures
        ({
            let s = editor.text@;
            let at = editor.body().at;
            let moves = key.code == KeyCode::Char('h') || key.code == KeyCode::Char('j')
                || key.code == KeyCode::Char('k') || key.code == KeyCode::Char('l') || key.code
                == KeyCode::Char('w') || key.code == KeyCode::Char('b') || key.code
                == KeyCode::Char('0') || key.code == KeyCode::Char('$') || key.code
                == KeyCode::Char('G') || key.code == KeyCode::Home || key.code == KeyCode::End
                || key.code == KeyCode::Left || key.code == KeyCode::Right || key.code
                == KeyCode::Up || key.code == KeyCode::Down || key.code == KeyCode::PageUp
                || key.code == KeyCode::PageDown;
            &&& moves ==> {
                &&& new.text == editor.text
                &&& new.undo_stack == editor.undo_stack
                &&& new.redo_stack == editor.redo_stack
                &&& new.mode == editor.mode
                &&& new.dirty == editor.dirty
                &&& new.selection_anchor is None
            }
            &&& key.code == KeyCode::Char('b') && at > 0 && (exists|k: int|
                0 <= k < at && !is_white(#[trigger] s[k])) ==> starts_word_before(
                s,
                new.body().at,
                at,
            )
            &&& key.code == KeyCode::Char('w') && at < s.len() ==> starts_word_behind(
                s,
                new.body().at,
                at,
            )
            &&& (key.code == KeyCode::Char('h') || key.code == KeyCode::Left) && at > 0
                ==> new.body().at == at - 1
            &&& (key.code == KeyCode::Char('l') || key.code == KeyCode::Right) && at < s.len()
                ==> new.body().at == at + 1
            &&& key.code == KeyCode::Char('0') || key.code == KeyCode::Home ==> {
                &&& new.body().at <= at
                &&& new.body().at > 0 ==> s[new.body().at - 1] == '\n'
                &&& forall|k: int| new.body().at <= k < at ==> #[trigger] s[k] != '\n'
            }
            &&& key.code == KeyCode::Char('$') || key.code == KeyCode::End ==> {
                &&& at <= new.body().at <= s.len()
                &&& new.body().at < s.len() ==> s[new.body().at] == '\n'
                &&& forall|k: int| at <= k < new.body().at ==> #[trigger] s[k] != '\n'
            }
            &&& key.code == KeyCode::Char('G') ==> new.body().at == s.len()
        }),
{
    editor.lemma_body();
    let at = editor.body().at;
    lemma_line_start(editor.text@, at);
    lemma_line_end(editor.text@, at);
    if at > 0 {
        law_a_word_back_is_the_start_of_a_word(editor.text@, at);
    }
    if at < editor.text@.len() {
        law_a_word_on_is_the_start_of_a_word(editor.text@, at);
    }
}

/// A position that is looked for in a line lies in that line.
proof fn lemma_at_column_line(s: Seq<char>, line: nat, column: int)
    requires
        line <= last_line(s),
    ensures
        0 <= at_column(s, line, column) <= s.len(),
        line_number(s, at_column(s, line, column)) == line,
{
    let start = nth_line_start(s, line);
    lemma_nth_line_start(s, line);
    lemma_line_end(s, start);
    lemma_at_column_from(s, start, line_end(s, start), 0, column);
    let p = at_column(s, line, column);
    lemma_line_number_grows(s, start, p);
    lemma_line_number_grows(s, p, line_end(s, start));
}

/// Going down or up a line leads to the next or the last line before, and stays in
/// the line where there is none.
pub proof fn law_keys_go_from_line_to_line(editor: TomlEditor, new: TomlEditor, key: Key, area: Option<Rect>)
    requires
        editor.wf(),
        editor.mode == TomlEditorMode::VimNormal && editor.vim_pending is None || editor.mode
            == TomlEditorMode::Standard || editor.mode == TomlEditorMode::VimInsert,
        !key.control && !key.alt,
        key.code == KeyCode::Down || key.code == KeyCode::Up,
        last_line(editor.text@) < isize::MAX,
        editor.key_step(new, key, area),
    ensures
        ({
            let s = editor.text@;
            let line = line_number(s, editor.body().at);
            let next = line_number(s, new.body().at);
            &&& new.text == editor.text
            &&& key.code == KeyCode::Down ==> next == if line < last_line(s) {
                line + 1
            } else {
                last_line(s)
            }
            &&& key.code == KeyCode::Up ==> next == if line > 0 {
                line - 1
            } else {
                0
            }
        }),
{
    editor.lemma_body();
    let s = editor.text@;
    let at = editor.body().at;
    lemma_line_number_grows(s, at, s.len() as int);
    let line = line_number(s, at) as int;
    let column = editor.kept_column();
    let target = shifted(
        line,
        if key.code == KeyCode::Down {
            1
        } else {
            -1
        },
    );
    if target <= last_line(s) {
        lemma_at_column_line(s, target as nat, column);
    } else {
        lemma_at_column_line(s, last_line(s), column);
    }
}

/// In normal mode `x` takes out the character under the cursor, `dd` the line of
/// the cursor with one line feed, and `yy` nothing; `dd` and `yy` leave the line
/// in the register.
pub proof fn law_keys_edit_in_normal_mode(editor: TomlEditor, new: TomlEditor, key: Key, area: Option<Rect>)
    requires
        editor.wf(),
        editor.mode == TomlEditorMode::VimNormal,
        editor.selection_anchor is None,
        !key.control && !key.alt,
        editor.key_step(new, key, area),
    ensures
        ({
            let s = editor.text@;
            let at = editor.body().at;
            let start = line_start(s, at);
            let end = line_end(s, at);
            &&& key.code == KeyCode::Char('x') && at < s.len() ==> {
                &&& new.text@ == s.remove(at)
                &&& new.body().at == at
                &&& new.undo_stack@.len() > 0 && new.undo_view().last() == editor.body()
            }
            &&& key.code == KeyCode::Char('d') && editor.vim_pending == Some('d') ==> {
                &&& new.vim_register@ == s.subrange(start, end).push('\n')
                &&& new.vim_register_linewise
                &&& end < s.len() ==> new.text@ == s.take(start) + s.skip(end + 1)
                &&& end == s.len() && start > 0 ==> new.text@ == s.take(start - 1)
                &&& end == s.len() && start == 0 ==> new.text@ == Seq::<char>::empty()
            }
            &&& key.code == KeyCode::Char('y') && editor.vim_pending == Some('y') ==> {
                &&& new.vim_register@ == s.subrange(start, end).push('\n')
                &&& new.vim_register_linewise
                &&& new.text == editor.text
                &&& new.cursor == editor.cursor
            }
            &&& key.code == KeyCode::Char('g') && editor.vim_pending == Some('g') ==> new.body().at
                == 0 && new.text == editor.text
            &&& (key.code == KeyCode::Char('d') || key.code == KeyCode::Char('y') || key.code
                == KeyCode::Char('g')) && editor.vim_pending is None ==> new.text == editor.text
                && KeyCode::Char(new.vim_pending->0) == key.code
            &&& (key.code == KeyCode::Char('i') || key.code == KeyCode::Char('a') || key.code
                == KeyCode::Char('I') || key.code == KeyCode::Char('A')) ==> new.mode
                == TomlEditorMode::VimInsert && new.text == editor.text
            &&& key.code == KeyCode::Char('v') ==> new.mode == TomlEditorMode::VimVisual
                && new.selection_anchor == Some(editor.cursor) && new.text == editor.text
            &&& key.code == KeyCode::Esc ==> new.mode == TomlEditorMode::VimNormal && new.text
                == editor.text && new.vim_pending is None
        }),
{
    editor.lemma_body();
    let s = editor.text@;
    let at = editor.body().at;
    lemma_line_start(s, at);
    lemma_line_end(s, at);
    law_history_is_bounded(editor.undo_view().push(editor.body()));
    if key.code == KeyCode::Char('x') && at < s.len() {
        assert(s.take(at) + s.skip(at + 1) =~= s.remove(at));
    }
    if key.code == KeyCode::Char('d') && editor.vim_pending == Some('d') {
        assert(editor.settled().body() == editor.body());
        let (from, to) = whole_line(s, at);
        if end_is_last(s, at) {
            assert(s.take(from) + s.skip(to) =~= s.take(from));
            assert(s.take(0) =~= Seq::<char>::empty());
        }
        if from == to {
            assert(s =~= Seq::<char>::empty());
        }
    }
}

spec fn end_is_last(s: Seq<char>, at: int) -> bool {
    line_end(s, at) == s.len()
}

/// In visual mode the selection is copied as it is, and taken out where told; the
/// register then holds what was selected, and undoing brings it back.
pub proof fn law_keys_take_the_selection(editor: TomlEditor, new: TomlEditor, key: Key, area: Option<Rect>, from: int, to: int)
    requires
        editor.wf(),
        editor.mode == TomlEditorMode::VimVisual,
        editor.body().selection() == Some((from, to)),
        !key.control && !key.alt,
        editor.key_step(new, key, area),
    ensures
        ({
            let s = editor.text@;
            let takes = key.code == KeyCode::Char('d') || key.code == KeyCode::Char('x') || key.code
                == KeyCode::Char('c');
            &&& 0 <= from < to <= s.len()
            &&& takes || key.code == KeyCode::Char('y') ==> {
                &&& new.vim_register@ == s.subrange(from, to)
                &&& !new.vim_register_linewise
                &&& new.selection_anchor is None
            }
            &&& takes ==> {
                &&& new.text@ == s.take(from) + s.skip(to)
                &&& new.body().at == from
                &&& new.undo_stack@.len() > 0 && new.undo_view().last() == editor.body()
            }
            &&& key.code == KeyCode::Char('y') ==> new.text == editor.text && new.mode
                == TomlEditorMode::VimNormal
            &&& key.code == KeyCode::Char('c') ==> new.mode == TomlEditorMode::VimInsert
            &&& key.code == KeyCode::Char('d') || key.code == KeyCode::Char('x') ==> new.mode
                == TomlEditorMode::VimNormal
        }),
{
    editor.lemma_body();
    law_history_is_bounded(editor.undo_view().push(editor.body()));
}

/// Putting a register in adds just that to the text: characters behind the one
/// under the cursor, a line behind the line of the cursor.
pub proof fn law_the_register_is_put_behind_the_cursor(editor: TomlEditor, new: TomlEditor, key: Key, area: Option<Rect>)
    requires
        editor.wf(),
        editor.mode == TomlEditorMode::VimNormal,
        editor.vim_pending is None,
        editor.selection_anchor is None,
        key.code == KeyCode::Char('p'),
        !key.control && !key.alt,
        editor.vim_register@.len() > 0,
        editor.key_step(new, key, area),
    ensures
        ({
            let s = editor.text@;
            let at = editor.body().at;
            let end = line_end(s, at);
            let put = unix_newlines(editor.vim_register@);
            &&& !editor.vim_register_linewise && at < s.len() ==> new.text@ == s.take(at + 1) + put
                + s.skip(at + 1)
            &&& !editor.vim_register_linewise && at == s.len() ==> new.text@ == s + put
            &&& editor.vim_register_linewise && end < s.len() ==> new.text@ == s.take(end + 1) + put
                + s.skip(end + 1)
            &&& editor.vim_register_linewise && end == s.len() ==> s.is_prefix_of(new.text@)
            &&& new.vim_register == editor.vim_register
        }),
{
    editor.lemma_body();
    let s = editor.text@;
    lemma_line_end(s, editor.body().at);
    assert(s.take(s.len() as int) =~= s);
    if !editor.vim_register_linewise && editor.body().at == s.len() {
        assert(s.skip(s.len() as int) =~= Seq::<char>::empty());
    }
}

/// Outside of vim's command modes a character goes in at the cursor, in place of
/// the selection, and Backspace and Delete take out the selection or the
/// character on their side of the cursor; each can be undone.
pub proof fn law_keys_type(editor: TomlEditor, new: TomlEditor, key: Key, area: Option<Rect>)
    requires
        editor.wf(),
        editor.mode == TomlEditorMode::Standard || editor.mode == TomlEditorMode::VimInsert,
        editor.selection_anchor is None,
        !key.control && !key.alt,
        editor.key_step(new, key, area),
    ensures
        ({
            let s = editor.text@;
            let at = editor.body().at;
            &&& key.code matches KeyCode::Char(c) ==> c != '\r' ==> {
                &&& new.text@ == s.insert(at, c)
                &&& new.body().at == at + 1
                &&& new.undo_stack@.len() > 0 && new.undo_view().last() == editor.body()
            }
            &&& key.code == KeyCode::Enter ==> new.text@ == s.insert(at, '\n') && new.body().at
                == at + 1
            &&& key.code == KeyCode::Tab ==> new.text@ == s.insert(at, '\t')
            &&& key.code == KeyCode::Backspace && at > 0 ==> new.text@ == s.remove(at - 1)
                && new.body().at == at - 1 && new.undo_view().last() == editor.body()
            &&& key.code == KeyCode::Backspace && at == 0 ==> new.text == editor.text
            &&& key.code == KeyCode::Delete && at < s.len() ==> new.text@ == s.remove(at)
                && new.body().at == at && new.undo_view().last() == editor.body()
            &&& key.code == KeyCode::Delete && at == s.len() ==> new.text == editor.text
            &&& new.mode == editor.mode || key.code == KeyCode::F(2) || key.code == KeyCode::Esc
        }),
{
    editor.lemma_body();
    let s = editor.text@;
    let at = editor.body().at;
    law_history_is_bounded(editor.undo_view().push(editor.body()));
    let typed = match key.code {
        KeyCode::Char(c) => c,
        KeyCode::Enter => '\n',
        _ => '\t',
    };
    if typed != '\r' {
        assert(unix_newlines(seq![typed]) =~= seq![typed]) by {
            reveal_with_fuel(unix_newlines, 3);
            assert(seq![typed].skip(1) =~= Seq::<char>::empty());
        }
        assert(s.take(at) + seq![typed] + s.skip(at) =~= s.insert(at, typed));
    }
    if at > 0 {
        assert(s.take(at - 1) + s.skip(at) =~= s.remove(at - 1));
    }
    if at < s.len() {
        assert(s.take(at) + s.skip(at + 1) =~= s.remove(at));
    }
}

/// Control with Z takes the last edit back, with Shift or with Y it brings it
/// back again, and with A it selects the whole text; none of the other letters
/// changes the text, but for the one that toggles comments.
pub proof fn law_control_keys(editor: TomlEditor, new: TomlEditor, key: Key, area: Option<Rect>)
    requires
        editor.wf(),
        key.control,
        key.code is Char,
        editor.key_step(new, key, area),
    ensures
        key.is_letter('z', 'Z') && !key.shift && editor.undo_stack@.len() > 0 ==> new.body()
            == editor.undo_view().last(),
        (key.is_letter('z', 'Z') && key.shift || key.is_letter('y', 'Y'))
            && editor.redo_stack@.len() > 0 ==> new.body() == editor.redo_view().last(),
        key.is_letter('a', 'A') && !key.comment_toggle() ==> new.text == editor.text
            && new.body().selected() == editor.text@,
        !key.is_letter('z', 'Z') && !key.is_letter('y', 'Y') && !key.is_letter('r', 'R')
            && !key.comment_toggle() ==> new.text == editor.text && new.undo_stack
            == editor.undo_stack,
        new.saved_text == editor.saved_text,
{
    editor.lemma_body();
    if key.is_letter('a', 'A') {
        assert(editor.body().everything_selected().selected() =~= editor.text@);
    }
}

/// Toggling comments puts a hash sign and a blank behind the indentation of each
/// line that is not blank, where one of them is not a comment yet; where all of
/// them are, it takes the hash sign, and a blank behind it, out of each. Lines
/// stay lines, and nothing else of them changes.
pub proof fn law_comments_are_toggled_line_by_line(lines: Seq<Seq<char>>, i: int)
    requires
        0 <= i < lines.len(),
    ensures
        ({
            let line = lines[i];
            let new = toggled_lines(lines)[i];
            let n = indent_len(line);
            let rest = line.skip(n);
            let commented = rest.len() > 0 && rest[0] == '#';
            &&& toggled_lines(lines).len() == lines.len()
            &&& 0 <= n <= line.len()
            &&& forall|k: int| 0 <= k < n ==> #[trigger] line[k] == ' ' || line[k] == '\t'
            &&& n < line.len() ==> line[n] != ' ' && line[n] != '\t'
            &&& !commented && rest.len() > 0 ==> new == line.take(n) + seq!['#', ' '] + rest
            &&& rest.len() == 0 && lines.len() > 1 ==> new == line
            &&& commented ==> new == line.take(n) + seq!['#', ' '] + rest || (new == line.take(n)
                + rest.skip(
                if rest.len() > 1 && rest[1] == ' ' {
                    2
                } else {
                    1
                },
            ) && forall|k: int|
                #![trigger lines[k]]
                0 <= k < lines.len() ==> is_blank(lines[k]) || is_commented(lines[k]))
            &&& commented && (forall|k: int|
                #![trigger lines[k]]
                0 <= k < lines.len() ==> is_blank(lines[k]) || is_commented(lines[k])) ==> new
                == line.take(n) + rest.skip(
                if rest.len() > 1 && rest[1] == ' ' {
                    2
                } else {
                    1
                },
            )
        }),
{
    let line = lines[i];
    lemma_indent_len(line);
    if is_commented(line) {
        assert(!is_blank(lines[i]));
    }
}

/// A history within its limits is kept whole, and of a longer one no more entries
/// are let go of, from the oldest on, than it takes to keep to the limits.
pub proof fn law_histories_keep_what_they_can(h: Seq<InputView>, n: int)
    requires
        0 <= n < h.len(),
    ensures
        h.len() <= 100 && history_bytes(h) <= 8 * 1024 * 1024 ==> bounded(h) == h,
        h.len() - n <= 100 && (h.len() - n == 1 || history_bytes(h.skip(n)) <= 8 * 1024 * 1024)
            ==> bounded(h).len() >= h.len() - n,
    decreases h.len(),
{
    if h.len() > TOML_HISTORY_LIMIT || (h.len() > 1 && history_bytes(h)
        > TOML_HISTORY_BYTE_LIMIT) {
        if n > 0 {
            assert(h.drop_first().skip(n - 1) =~= h.skip(n));
            law_histories_keep_what_they_can(h.drop_first(), n - 1);
        } else {
            assert(h.skip(0) =~= h);
        }
    }
}

/// Each line break of a text becomes one line feed, and all else stays.
pub proof fn law_line_breaks_become_line_feeds(a: Seq<char>, b: Seq<char>)
    ensures
        !(a.len() > 0 && a.last() == '\r' && b.len() > 0 && b[0] == '\n') ==> unix_newlines(a + b)
            == unix_newlines(a) + unix_newlines(b),
        !unix_newlines(a).contains('\r'),
        !a.contains('\r') ==> unix_newlines(a) == a,
        unix_newlines(seq!['\r']) == seq!['\n'],
        unix_newlines(seq!['\r', '\n']) == seq!['\n'],
    decreases a.len(),
{
    reveal_with_fuel(unix_newlines, 3);
    assert(seq!['\r'].skip(1) =~= Seq::<char>::empty());
    assert(seq!['\r', '\n'].skip(2) =~= Seq::<char>::empty());
    if a.len() == 0 {
        assert(a + b =~= b);
        assert(unix_newlines(a) =~= a);
        assert(unix_newlines(a) + unix_newlines(b) =~= unix_newlines(b));
    } else {
        let n: int = if a[0] == '\r' && a.len() > 1 && a[1] == '\n' {
            2
        } else {
            1
        };
        let first = if a[0] == '\r' {
            '\n'
        } else {
            a[0]
        };
        let rest = a.skip(n);
        law_line_breaks_become_line_feeds(rest, b);
        assert((a + b).skip(n) =~= rest + b);
        assert((a + b)[0] == a[0]);
        if a.len() > 1 {
            assert((a + b)[1] == a[1]);
        }
        if rest.len() > 0 {
            assert(rest.last() == a.last());
        }
        assert(unix_newlines(a) == seq![first] + unix_newlines(rest));
        let all = unix_newlines(a);
        assert(!all.contains('\r')) by {
            assert forall|k: int| 0 <= k < all.len() implies all[k] != '\r' by {
                if k > 0 {
                    assert(all[k] == unix_newlines(rest)[k - 1]);
                }
            }
        }
        if !(a.last() == '\r' && b.len() > 0 && b[0] == '\n') {
            assert(unix_newlines(a + b) == seq![first] + unix_newlines(rest + b));
            assert(seq![first] + (unix_newlines(rest) + unix_newlines(b)) =~= unix_newlines(a)
                + unix_newlines(b));
        }
        if !a.contains('\r') {
            assert(a[0] != '\r');
            assert forall|k: int| 0 <= k < rest.len() implies rest[k] != '\r' by {
                assert(rest[k] == a[k + 1]);
            }
            assert(seq![a[0]] + rest =~= a);
        }
    }
}

/// Comments are toggled on whole lines: from the start of the line in which the
/// selection begins, or of that of the cursor, to the end of the line in which it
/// ends.
pub proof fn law_comments_are_toggled_on_whole_lines(editor: TomlEditor)
    requires
        editor.wf(),
    ensures
        ({
            let s = editor.text@;
            let body = editor.body();
            let (from, to) = editor.comment_span();
            let (first, last) = match body.selection() {
                Some((a, b)) => (a, b - 1),
                None => (body.at, body.at),
            };
            &&& 0 <= from <= first <= last <= to <= s.len()
            &&& from == 0 || s[from - 1] == '\n'
            &&& forall|k: int| from <= k < first ==> #[trigger] s[k] != '\n'
            &&& to == s.len() || s[to] == '\n'
            &&& forall|k: int| last <= k < to ==> #[trigger] s[k] != '\n'
        }),
{
    let s = editor.text@;
    let body = editor.body();
    match body.selection() {
        Some((a, b)) => {
            lemma_line_start(s, a);
            lemma_line_end(s, b - 1);
        },
        None => {
            lemma_line_start(s, body.at);
            lemma_line_end(s, body.at);
        },
    }
}

/// Toggling comments leaves the text before and behind the toggled lines as it is.
pub proof fn law_toggling_comments_keeps_other_lines(editor: TomlEditor, new: TomlEditor)
    requires
        editor.wf(),
        editor.comments_toggled(new),
    ensures
        ({
            let s = editor.text@;
            let (from, to) = editor.comment_span();
            &&& new.text@.len() >= from + (s.len() - to)
            &&& new.text@.take(from) == s.take(from)
            &&& new.text@.skip(new.text@.len() - (s.len() - to)) == s.skip(to)
        }),
{
    law_comments_are_toggled_on_whole_lines(editor);
    let s = editor.text@;
    let (from, to) = editor.comment_span();
    if new.text@ != s {
        let block = toggled_block(editor.comment_block());
        assert(new.text@ == s.take(from) + block + s.skip(to));
    }
    assert(new.text@.take(from) =~= s.take(from));
    assert(new.text@.skip(new.text@.len() - (s.len() - to)) =~= s.skip(to));
}

/// Scrolling brings a position into view, and does not scroll where it is seen
/// already.
pub proof fn law_scrolling_shows_the_position(scroll: int, at: int, size: int)
    requires
        size > 0,
        0 <= scroll,
        0 <= at,
    ensures
        ({
            let r = TomlEditor::scrolled_to(scroll, at, size);
            &&& 0 <= r <= at < r + size
            &&& scroll <= at < scroll + size ==> r == scroll
            &&& at < scroll ==> r == at
            &&& scroll + size <= at ==> r + size == at + 1
        }),
{
}

/// In a line whose characters all take one column, each column is a position.
pub proof fn law_columns_are_positions(
    s: Seq<char>,
    from: int,
    end: int,
    width: int,
    column: int,
)
    requires
        0 <= from <= end <= s.len(),
        width <= column,
        forall|k: int| from <= k < end ==> display_columns(seq![#[trigger] s[k]]) == 1,
    ensures
        at_column_from(s, from, end, width, column) == if column - width < end - from {
            from + (column - width)
        } else {
            end
        },
    decreases end - from,
{
    if from < end {
        assert(display_columns(seq![s[from]]) == 1);
        if column > width {
            law_columns_are_positions(s, from + 1, end, width + 1, column);
        }
    }
}

/// An edit moves what lies behind it by as much as the text has grown, and leaves what
/// lies before it; what lies in it goes behind what it puts in.
pub proof fn law_edits_move_what_lies_behind(position: usize, from: usize, to: usize, text: String)
    requires
        from <= to,
        position + byte_len(text@) <= usize::MAX,
        from + byte_len(text@) <= usize::MAX,
    ensures
        ({
            let mapped = mapped_position(position as int, seq![(from, to, text)], 0);
            &&& position < from ==> mapped == position
            &&& from <= position <= to ==> mapped == from + byte_len(text@)
            &&& to < position ==> mapped == position + byte_len(text@) - (to - from)
        }),
{
    let edits = seq![(from, to, text)];
    assert(edits.drop_first() =~= Seq::empty());
    reveal_with_fuel(mapped_position, 2);
}

} // verus!
